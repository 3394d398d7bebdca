//! Conversion of a compose file into Quadlet files.
//!
//! The conversions of single compose services, networks, and volumes into Quadlet sections are
//! given to this module as their outcomes; it assembles the files: names, pods, volume links,
//! descriptions, and the compose extensions.

use vstd::prelude::*;
use crate::extensions::{
    ComposeExtensions, ContextView, ExtensionContext, ExtensionError, ExtensionErrorView,
    NetworkExtensions, ResolvedPodView, Scope, ScopeView, ServiceExtensions, VolumeExtensions,
};
use crate::quadlet::{
    Build, Container, ContainerView, File, FileView, Install, InstallView, Kube, Mount,
    MountSource, MountSourceView, MountView, Network, Pod, Resource, ResourceView,
    ServiceDependency, ServiceDependencyView, Settings, Unit, UnitView, Volume, empty_pod, file_views,
    mount_views,
};
use crate::registry::{
    Dispatch, ExtensionRegistry, build_fold, files_fold, network_fold, service_fold, unknown_keys,
    volume_fold,
};
use crate::text::{contains_str, opt_text, str_eq, texts};
use crate::collections::{pods_get_index, pods_len};
use crate::parse::{ComposeFile, ParsedCompose, ParsedComposeView};

verus! {

/// `Description=` for a compose entity: `<entity_type> for pod <project_name>`.
pub open spec fn description_text(entity_type: Seq<char>, project_name: Seq<char>) -> Seq<char> {
    entity_type + " for pod "@ + project_name
}

/// Build a systemd `Description=` string for a compose entity.
pub fn make_description(entity_type: &str, project_name: &str) -> (r: String)
    ensures
        r@ == description_text(entity_type@, project_name@),
{
    let mut s = entity_type.to_owned();
    proof { reveal_strlit(" for pod "); }
    s.append(" for pod ");
    s.append(project_name);
    s
}

// ---------------------------------------------------------------------------------------------
// Commands.

/// A compose command: a string to split as a shell would, or a list of arguments.
pub enum Command {
    String(String),
    List(Vec<String>),
}

/// Why a command could not be split.
pub enum CommandError {
    /// The command ends inside a quote or with a trailing unescaped `\`.
    Invalid { command: String },
}

/// The words of `s` as `shlex::split` splits them, or `None` when `s` is erroneous.
pub uninterp spec fn shlex_split(s: Seq<char>) -> Option<Seq<Seq<char>>>;

/// `shlex::split`: the words of `s`, split as a POSIX shell would, or `None` when the input is
/// erroneous (an unclosed quote or a trailing backslash). The contract only names the result.
#[verifier::external_body]
fn split_words(s: &str) -> (r: Option<Vec<String>>)
    ensures
        match r {
            Some(v) => shlex_split(s@) == Some(texts(v@)),
            None => shlex_split(s@) is None,
        },
{
    shlex::split(s)
}

/// The outcome of splitting `command`, given what the splitter returned: its words, or an error
/// that names the command.
pub fn command_from_split(command: String, split: Option<Vec<String>>) -> (r: Result<
    Vec<String>,
    CommandError,
>)
    ensures
        match split {
            Some(v) => r matches Ok(w) && w@ == v@,
            None => r matches Err(CommandError::Invalid { command: c }) && c@ == command@,
        },
{
    match split {
        Some(v) => Ok(v),
        None => Err(CommandError::Invalid { command }),
    }
}

/// Converts a [`Command`] into a list of arguments, splitting the string form as a shell would.
///
/// # Errors
///
/// The string form ends while in a quote or has a trailing unescaped `\`.
pub fn command_try_into_vec(command: Command) -> (r: Result<Vec<String>, CommandError>)
    ensures
        match command {
            Command::List(v) => r matches Ok(w) && w@ == v@,
            Command::String(s) => match shlex_split(s@) {
                Some(words) => r matches Ok(w) && texts(w@) == words,
                None => r matches Err(CommandError::Invalid { command: c }) && c@ == s@,
            },
        },
{
    match command {
        Command::String(command) => {
            let split = split_words(command.as_str());
            command_from_split(command, split)
        },
        Command::List(command) => Ok(command),
    }
}

// ---------------------------------------------------------------------------------------------
// What the conversion is given.

/// The `[Unit]` and `[Install]` sections given on the command line, shared by every file.
pub struct GenericSections {
    pub unit: Unit,
    /// The `[Quadlet]` section.
    pub quadlet: Settings,
    pub install: Install,
}

/// A compose service, as far as assembling its files reads it.
pub struct ServiceSource {
    /// The service name (its key in `services`).
    pub name: String,
    /// `image` is set.
    pub has_image: bool,
    /// The `.build` file made from `build`, or why it could not be made; `None` when `build` is
    /// not set.
    pub build: Option<Result<Build, String>>,
    /// `depends_on`, each by the name of the service depended on.
    pub depends_on: Vec<ServiceDependency>,
    /// The `[Container]` section made from the rest of the service, or why it could not be made.
    pub container: Result<Container, String>,
    /// The global Podman arguments that the service sets.
    pub globals: Settings,
    /// The `[Service]` section made from the service (its restart policy among others).
    pub service: Settings,
    /// The service's extensions.
    pub extensions: ServiceExtensions,
}

/// A compose network, as far as assembling its file reads it.
pub struct NetworkSource {
    /// The network name (its key in `networks`).
    pub name: String,
    /// The network is `external`.
    pub external: bool,
    /// The `[Network]` section made from the definition (or from an empty one when the network
    /// has no definition), or why it could not be made.
    pub network: Result<Network, String>,
    /// The network's extensions.
    pub extensions: NetworkExtensions,
}

/// The definition of a compose volume.
pub enum VolumeDefinition {
    /// The volume has no definition.
    Empty,
    /// The volume is `external`.
    External,
    /// The volume is defined in the compose file.
    Compose {
        /// Some option other than the extensions is set.
        has_options: bool,
        /// The `[Volume]` section made from the definition, or why it could not be made.
        volume: Result<Volume, String>,
        /// The volume's extensions.
        extensions: VolumeExtensions,
    },
}

/// A compose volume: its name (its key in `volumes`) and definition.
pub struct VolumeSource {
    pub name: String,
    pub definition: VolumeDefinition,
}

/// A Kubernetes YAML file made from a compose file.
pub struct K8sFile {
    pub name: String,
    pub content: String,
}

/// A file that the conversion writes.
pub enum OutputFile {
    Quadlet(File),
    K8s(K8sFile),
}

/// A warning of the conversion.
pub enum Warning {
    /// An extension key that no handler processes, and where it was found.
    UnknownExtension { scope: Scope, key: String },
    /// A pod of `x-pods` that no container joins.
    EmptyPod { pod: String },
}

/// View of a [`Warning`].
pub enum WarningView {
    UnknownExtension { scope: ScopeView, key: Seq<char> },
    EmptyPod { pod: Seq<char> },
}

impl View for Warning {
    type V = WarningView;

    open spec fn view(&self) -> WarningView {
        match self {
            Warning::UnknownExtension { scope, key } => WarningView::UnknownExtension {
                scope: scope@,
                key: key@,
            },
            Warning::EmptyPod { pod } => WarningView::EmptyPod { pod: pod@ },
        }
    }
}

/// The views of a sequence of warnings.
pub open spec fn warning_views(v: Seq<Warning>) -> Seq<WarningView> {
    v.map_values(|w: Warning| w@)
}

/// Errors of the conversion.
pub enum ComposeError {
    /// `image` and `build` are both set.
    ImageAndBuild { service: String },
    /// `build` could not be converted.
    Build { service: String, message: String },
    /// The service could not be converted into a container.
    Container { service: String, message: String },
    /// The extensions of a service failed; `file` is the file's name at that point.
    ServiceExtensions { file: String, source: ExtensionError },
    /// External networks are not supported.
    ExternalNetwork { network: String },
    /// The network could not be converted.
    Network { network: String, message: String },
    /// The extensions of a network failed.
    NetworkExtensions { network: String, source: ExtensionError },
    /// External volumes are not supported.
    ExternalVolume { volume: String },
    /// The volume could not be converted.
    Volume { volume: String, message: String },
    /// The extensions of a volume failed.
    VolumeExtensions { volume: String, source: ExtensionError },
    /// Building the extension context failed.
    Context { source: ExtensionError },
    /// Generating the extra extension files failed.
    ExtensionFiles { source: ExtensionError },
    /// `--pod` and the `x-pods` extension were both used.
    PodAndXPods,
    /// `--pod` needs the top-level `name`.
    NameRequired,
    /// `include` is not supported.
    Include,
    /// `configs` is not supported.
    Configs,
    /// Only external `secrets` are supported.
    Secrets,
    /// The compose file could not be converted into Kubernetes YAML.
    Kubernetes { message: String },
    /// The document does not describe the compose file read: its top level or the names of its
    /// services, networks, or volumes differ.
    DocumentDiffers,
}

/// View of a [`ComposeError`].
pub enum ComposeErrorView {
    ImageAndBuild { service: Seq<char> },
    Build { service: Seq<char>, message: Seq<char> },
    Container { service: Seq<char>, message: Seq<char> },
    ServiceExtensions { file: Seq<char>, source: ExtensionErrorView },
    ExternalNetwork { network: Seq<char> },
    Network { network: Seq<char>, message: Seq<char> },
    NetworkExtensions { network: Seq<char>, source: ExtensionErrorView },
    ExternalVolume { volume: Seq<char> },
    Volume { volume: Seq<char>, message: Seq<char> },
    VolumeExtensions { volume: Seq<char>, source: ExtensionErrorView },
    Context { source: ExtensionErrorView },
    ExtensionFiles { source: ExtensionErrorView },
    PodAndXPods,
    NameRequired,
    Include,
    Configs,
    Secrets,
    Kubernetes { message: Seq<char> },
    DocumentDiffers,
}

impl View for ComposeError {
    type V = ComposeErrorView;

    open spec fn view(&self) -> ComposeErrorView {
        match self {
            ComposeError::ImageAndBuild { service } => ComposeErrorView::ImageAndBuild {
                service: service@,
            },
            ComposeError::Build { service, message } => ComposeErrorView::Build {
                service: service@,
                message: message@,
            },
            ComposeError::Container { service, message } => ComposeErrorView::Container {
                service: service@,
                message: message@,
            },
            ComposeError::ServiceExtensions { file, source } => ComposeErrorView::ServiceExtensions {
                file: file@,
                source: source@,
            },
            ComposeError::ExternalNetwork { network } => ComposeErrorView::ExternalNetwork {
                network: network@,
            },
            ComposeError::Network { network, message } => ComposeErrorView::Network {
                network: network@,
                message: message@,
            },
            ComposeError::NetworkExtensions { network, source } => ComposeErrorView::NetworkExtensions {
                network: network@,
                source: source@,
            },
            ComposeError::ExternalVolume { volume } => ComposeErrorView::ExternalVolume {
                volume: volume@,
            },
            ComposeError::Volume { volume, message } => ComposeErrorView::Volume {
                volume: volume@,
                message: message@,
            },
            ComposeError::VolumeExtensions { volume, source } => ComposeErrorView::VolumeExtensions {
                volume: volume@,
                source: source@,
            },
            ComposeError::Context { source } => ComposeErrorView::Context { source: source@ },
            ComposeError::ExtensionFiles { source } => ComposeErrorView::ExtensionFiles {
                source: source@,
            },
            ComposeError::PodAndXPods => ComposeErrorView::PodAndXPods,
            ComposeError::NameRequired => ComposeErrorView::NameRequired,
            ComposeError::Include => ComposeErrorView::Include,
            ComposeError::Configs => ComposeErrorView::Configs,
            ComposeError::Secrets => ComposeErrorView::Secrets,
            ComposeError::Kubernetes { message } => ComposeErrorView::Kubernetes {
                message: message@,
            },
            ComposeError::DocumentDiffers => ComposeErrorView::DocumentDiffers,
        }
    }
}


/// View of a [`GenericSections`].
pub struct GenericSectionsView {
    pub unit: UnitView,
    pub quadlet: Seq<(Seq<char>, Seq<char>)>,
    pub install: InstallView,
}

impl View for GenericSections {
    type V = GenericSectionsView;

    open spec fn view(&self) -> GenericSectionsView {
        GenericSectionsView { unit: self.unit@, quadlet: self.quadlet@, install: self.install@ }
    }
}

/// The characters of an optional string slice.
pub open spec fn opt_str(o: Option<&str>) -> Option<Seq<char>> {
    match o {
        Some(s) => Some(s@),
        None => None,
    }
}

// ---------------------------------------------------------------------------------------------
// What the assembly does, stated over views.

/// The warnings for the unknown keys of one scope.
pub open spec fn scope_warnings(reg: Dispatch, scope: ScopeView, keys: Seq<Seq<char>>) -> Seq<
    WarningView,
> {
    unknown_keys(reg.handlers, reg.disabled, keys).map_values(
        |k: Seq<char>| WarningView::UnknownExtension { scope, key: k },
    )
}

/// A volume definition sets some option, extensions included.
pub open spec fn definition_has_options(d: VolumeDefinition) -> bool {
    match d {
        VolumeDefinition::Compose { has_options, extensions, .. } => has_options
            || extensions.keys@.len() > 0,
        _ => false,
    }
}

/// The (last) volume named `name` sets some option; a container mounting it then links to its
/// `.volume` file.
pub open spec fn volume_has_options(vols: Seq<VolumeSource>, name: Seq<char>) -> bool
    decreases vols.len(),
{
    if vols.len() == 0 {
        false
    } else if vols.last().name@ == name {
        definition_has_options(vols.last().definition)
    } else {
        volume_has_options(vols.drop_last(), name)
    }
}

/// A mount after linking it to the `.volume` file of its named volume, when that volume sets
/// options.
pub open spec fn link_mount(m: MountView, vols: Seq<VolumeSource>) -> MountView {
    match m.source {
        Some(MountSourceView::NamedVolume(s)) => if volume_has_options(vols, s) {
            MountView { source: Some(MountSourceView::NamedVolume(s + ".volume"@)), ..m }
        } else {
            m
        },
        _ => m,
    }
}

/// The mounts of a container after linking them to `.volume` files.
pub open spec fn link_mounts(ms: Seq<MountView>, vols: Seq<VolumeSource>) -> Seq<MountView> {
    ms.map_values(|m: MountView| link_mount(m, vols))
}

/// The unit name of a dependency: prefixed with `<pod>-` in a pod.
pub open spec fn dependency_name(pod: Option<Seq<char>>, name: Seq<char>) -> Seq<char> {
    match pod {
        Some(p) => p + "-"@ + name,
        None => name,
    }
}

/// A `[Unit]` section after adding the service dependencies.
pub open spec fn with_dependencies(u: UnitView, deps: Seq<ServiceDependency>, pod: Option<Seq<char>>) -> UnitView {
    UnitView {
        dependencies: u.dependencies + deps.map_values(
            |d: ServiceDependency|
                ServiceDependencyView { name: dependency_name(pod, d.name@), ..d@ },
        ),
        ..u
    }
}

/// A `[Unit]` section after setting `Description=` from the project name, unless it is set.
pub open spec fn described(u: UnitView, entity: Seq<char>, project: Option<Seq<char>>) -> UnitView {
    match project {
        Some(p) => if u.description is None {
            UnitView { description: Some(description_text(entity, p)), ..u }
        } else {
            u
        },
        None => u,
    }
}

/// The outcome of converting services: the context afterwards, the files, the ports taken for
/// the pod, the warnings, and the error if any.
pub struct ServicesOutcome {
    pub ctx: ContextView,
    pub files: Seq<FileView>,
    pub ports: Seq<Seq<char>>,
    pub warnings: Seq<WarningView>,
    pub error: Option<ComposeErrorView>,
}

/// The outcome of converting a service into its `.container` file, the image being `image` when
/// given.
pub open spec fn container_spec(
    reg: Dispatch,
    src: ServiceSource,
    image: Option<Seq<char>>,
    sections: GenericSectionsView,
    vols: Seq<VolumeSource>,
    pod: Option<Seq<char>>,
    project: Option<Seq<char>>,
    ctx: ContextView,
) -> ServicesOutcome {
    let name = src.name@;
    let none = ServicesOutcome { ctx, files: seq![], ports: seq![], warnings: seq![], error: None };
    let keys = texts(src.extensions.keys@);
    let warnings = scope_warnings(reg, ScopeView::Service(name), keys);
    match src.container {
        Err(m) => ServicesOutcome {
            warnings,
            error: Some(ComposeErrorView::Container { service: name, message: m@ }),
            ..none
        },
        Ok(c) => {
            let c1 = ContainerView {
                image: match image {
                    Some(i) => i,
                    None => c@.image,
                },
                volume: link_mounts(c@.volume, vols),
                ..c@
            };
            let c2 = match pod {
                Some(p) => ContainerView { pod: Some(p + ".pod"@), publish_port: seq![], ..c1 },
                None => c1,
            };
            let ports = match pod {
                Some(p) => c1.publish_port,
                None => seq![],
            };
            let file = FileView {
                name: dependency_name(pod, name),
                unit: described(
                    with_dependencies(sections.unit, src.depends_on@, pod),
                    "container"@,
                    project,
                ),
                resource: ResourceView::Container(c2),
                globals: src.globals@,
                quadlet: sections.quadlet,
                service: src.service@,
                install: sections.install,
            };
            if keys.len() > 0 {
                let f = service_fold(
                    reg.handlers,
                    reg.disabled,
                    file.name,
                    src.extensions,
                    ctx,
                    file,
                );
                match f.2 {
                    Some(e) => ServicesOutcome {
                        ctx: f.0,
                        warnings,
                        error: Some(ComposeErrorView::ServiceExtensions { file: f.1.name, source: e }),
                        ..none
                    },
                    None => ServicesOutcome {
                        ctx: f.0,
                        files: seq![f.1],
                        ports,
                        warnings,
                        error: None,
                    },
                }
            } else {
                ServicesOutcome { ctx, files: seq![file], ports, warnings, error: None }
            }
        },
    }
}

/// The outcome of converting one service: `image` and `build` exclude each other; a `build`
/// gives a `.build` file after the `.container` file, and the container runs its image.
pub open spec fn service_spec(
    reg: Dispatch,
    src: ServiceSource,
    sections: GenericSectionsView,
    vols: Seq<VolumeSource>,
    pod: Option<Seq<char>>,
    project: Option<Seq<char>>,
    ctx: ContextView,
) -> ServicesOutcome {
    let name = src.name@;
    let none = ServicesOutcome { ctx, files: seq![], ports: seq![], warnings: seq![], error: None };
    if src.has_image && src.build is Some {
        ServicesOutcome { error: Some(ComposeErrorView::ImageAndBuild { service: name }), ..none }
    } else {
        match src.build {
            Some(Err(m)) => ServicesOutcome {
                error: Some(ComposeErrorView::Build { service: name, message: m@ }),
                ..none
            },
            Some(Ok(b)) => {
                let o = container_spec(
                    reg,
                    src,
                    Some(b.name@ + ".build"@),
                    sections,
                    vols,
                    pod,
                    project,
                    ctx,
                );
                if o.error is Some {
                    o
                } else {
                    ServicesOutcome {
                        files: o.files + seq![
                            FileView {
                                name: b.name@,
                                unit: sections.unit,
                                resource: ResourceView::Build(b.name@, b.options@),
                                globals: seq![],
                                quadlet: sections.quadlet,
                                service: seq![],
                                install: sections.install,
                            },
                        ],
                        ..o
                    }
                }
            },
            None => container_spec(reg, src, None, sections, vols, pod, project, ctx),
        }
    }
}

/// The outcome of converting services in order, stopping at the first error.
pub open spec fn services_spec(
    reg: Dispatch,
    srcs: Seq<ServiceSource>,
    sections: GenericSectionsView,
    vols: Seq<VolumeSource>,
    pod: Option<Seq<char>>,
    project: Option<Seq<char>>,
    ctx: ContextView,
) -> ServicesOutcome
    decreases srcs.len(),
{
    if srcs.len() == 0 {
        ServicesOutcome { ctx, files: seq![], ports: seq![], warnings: seq![], error: None }
    } else {
        let p = services_spec(reg, srcs.drop_last(), sections, vols, pod, project, ctx);
        if p.error is Some {
            p
        } else {
            let o = service_spec(reg, srcs.last(), sections, vols, pod, project, p.ctx);
            ServicesOutcome {
                ctx: o.ctx,
                files: p.files + o.files,
                ports: p.ports + o.ports,
                warnings: p.warnings + o.warnings,
                error: o.error,
            }
        }
    }
}

/// The outcome of converting networks or volumes: the files, the warnings, and the error if any.
pub struct FilesOutcome {
    pub files: Seq<FileView>,
    pub warnings: Seq<WarningView>,
    pub error: Option<ComposeErrorView>,
}

/// The outcome of converting one network.
pub open spec fn network_spec(
    reg: Dispatch,
    src: NetworkSource,
    sections: GenericSectionsView,
    project: Option<Seq<char>>,
) -> FilesOutcome {
    let name = src.name@;
    if src.external {
        FilesOutcome {
            files: seq![],
            warnings: seq![],
            error: Some(ComposeErrorView::ExternalNetwork { network: name }),
        }
    } else {
        let keys = texts(src.extensions.keys@);
        let warnings = scope_warnings(reg, ScopeView::Network(name), keys);
        match src.network {
            Err(m) => FilesOutcome {
                files: seq![],
                warnings,
                error: Some(ComposeErrorView::Network { network: name, message: m@ }),
            },
            Ok(n) => {
                let file = FileView {
                    name,
                    unit: described(sections.unit, "network"@, project),
                    resource: ResourceView::Network(n@),
                    globals: seq![],
                    quadlet: sections.quadlet,
                    service: seq![],
                    install: sections.install,
                };
                if keys.len() > 0 {
                    let f = network_fold(
                        reg.handlers,
                        reg.disabled,
                        name,
                        src.extensions,
                        file,
                    );
                    match f.1 {
                        Some(e) => FilesOutcome {
                            files: seq![],
                            warnings,
                            error: Some(ComposeErrorView::NetworkExtensions { network: name, source: e }),
                        },
                        None => FilesOutcome { files: seq![f.0], warnings, error: None },
                    }
                } else {
                    FilesOutcome { files: seq![file], warnings, error: None }
                }
            },
        }
    }
}

/// The outcome of converting networks in order, stopping at the first error.
pub open spec fn networks_spec(
    reg: Dispatch,
    srcs: Seq<NetworkSource>,
    sections: GenericSectionsView,
    project: Option<Seq<char>>,
) -> FilesOutcome
    decreases srcs.len(),
{
    if srcs.len() == 0 {
        FilesOutcome { files: seq![], warnings: seq![], error: None }
    } else {
        let p = networks_spec(reg, srcs.drop_last(), sections, project);
        if p.error is Some {
            p
        } else {
            let o = network_spec(reg, srcs.last(), sections, project);
            FilesOutcome {
                files: p.files + o.files,
                warnings: p.warnings + o.warnings,
                error: o.error,
            }
        }
    }
}

/// The outcome of converting one volume: a volume without a definition, or whose definition
/// sets nothing, needs no `.volume` file.
pub open spec fn volume_spec(
    reg: Dispatch,
    src: VolumeSource,
    sections: GenericSectionsView,
    project: Option<Seq<char>>,
) -> FilesOutcome {
    let name = src.name@;
    let none = FilesOutcome { files: seq![], warnings: seq![], error: None };
    match src.definition {
        VolumeDefinition::Empty => none,
        VolumeDefinition::External => FilesOutcome {
            error: Some(ComposeErrorView::ExternalVolume { volume: name }),
            ..none
        },
        VolumeDefinition::Compose { has_options, volume, extensions } => {
            let keys = texts(extensions.keys@);
            let warnings = scope_warnings(reg, ScopeView::Volume(name), keys);
            if !has_options && keys.len() == 0 {
                FilesOutcome { warnings, ..none }
            } else {
                match volume {
                    Err(m) => FilesOutcome {
                        warnings,
                        error: Some(ComposeErrorView::Volume { volume: name, message: m@ }),
                        ..none
                    },
                    Ok(v) => {
                        let file = FileView {
                            name,
                            unit: described(sections.unit, "volume"@, project),
                            resource: ResourceView::Volume(v@),
                            globals: seq![],
                            quadlet: sections.quadlet,
                            service: seq![],
                            install: sections.install,
                        };
                        if keys.len() > 0 {
                            let f = volume_fold(
                                reg.handlers,
                                reg.disabled,
                                name,
                                extensions,
                                file,
                            );
                            match f.1 {
                                Some(e) => FilesOutcome {
                                    warnings,
                                    error: Some(
                                        ComposeErrorView::VolumeExtensions { volume: name, source: e },
                                    ),
                                    ..none
                                },
                                None => FilesOutcome { files: seq![f.0], warnings, error: None },
                            }
                        } else {
                            FilesOutcome { files: seq![file], warnings, error: None }
                        }
                    },
                }
            }
        },
    }
}

/// The outcome of converting volumes in order, stopping at the first error.
pub open spec fn volumes_spec(
    reg: Dispatch,
    srcs: Seq<VolumeSource>,
    sections: GenericSectionsView,
    project: Option<Seq<char>>,
) -> FilesOutcome
    decreases srcs.len(),
{
    if srcs.len() == 0 {
        FilesOutcome { files: seq![], warnings: seq![], error: None }
    } else {
        let p = volumes_spec(reg, srcs.drop_last(), sections, project);
        if p.error is Some {
            p
        } else {
            let o = volume_spec(reg, srcs.last(), sections, project);
            FilesOutcome {
                files: p.files + o.files,
                warnings: p.warnings + o.warnings,
                error: o.error,
            }
        }
    }
}


// ---------------------------------------------------------------------------------------------
// The assembly.

impl Scope {
    /// A copy of the scope.
    pub fn duplicate(&self) -> (r: Scope)
        ensures
            r@ == self@,
    {
        match self {
            Scope::Compose => Scope::Compose,
            Scope::Service(s) => Scope::Service(s.clone()),
            Scope::Network(s) => Scope::Network(s.clone()),
            Scope::Volume(s) => Scope::Volume(s.clone()),
        }
    }
}

/// Record a warning for each extension key that no handler processes.
fn push_warnings(
    registry: &ExtensionRegistry,
    scope: &Scope,
    keys: &Vec<String>,
    warnings: &mut Vec<Warning>,
)
    ensures
        warning_views(final(warnings)@) == warning_views(old(warnings)@) + scope_warnings(
            registry.dispatch(),
            scope@,
            texts(keys@),
        ),
{
    let unknown = registry.warn_unknown(keys);
    let ghost w0 = warning_views(warnings@);
    let ghost u = texts(unknown@);
    let mut i: usize = 0;
    while i < unknown.len()
        invariant
            i <= unknown.len(),
            u == texts(unknown@),
            warning_views(warnings@) == w0 + u.subrange(0, i as int).map_values(
                |k: Seq<char>| WarningView::UnknownExtension { scope: scope@, key: k },
            ),
        decreases unknown.len() - i,
    {
        let ghost before = warning_views(warnings@);
        warnings.push(Warning::UnknownExtension { scope: scope.duplicate(), key: unknown[i].clone() });
        assert(u.subrange(0, i + 1).map_values(|k: Seq<char>| WarningView::UnknownExtension { scope: scope@, key: k })
            =~= u.subrange(0, i as int).map_values(
            |k: Seq<char>| WarningView::UnknownExtension { scope: scope@, key: k },
        ).push(WarningView::UnknownExtension { scope: scope@, key: u[i as int] }));
        assert(warning_views(warnings@) =~= before.push(
            WarningView::UnknownExtension { scope: scope@, key: u[i as int] },
        ));
        i = i + 1;
    }
    assert(u.subrange(0, unknown.len() as int) =~= u);
}

/// Whether the (last) volume named `name` sets some option.
fn volume_options_set(volumes: &Vec<VolumeSource>, name: &str) -> (r: bool)
    ensures
        r == volume_has_options(volumes@, name@),
{
    let mut i = volumes.len();
    assert(volumes@.subrange(0, volumes.len() as int) =~= volumes@);
    while i > 0
        invariant
            i <= volumes.len(),
            volume_has_options(volumes@, name@) == volume_has_options(
                volumes@.subrange(0, i as int),
                name@,
            ),
        decreases i,
    {
        let ghost pre = volumes@.subrange(0, i as int);
        assert(pre.drop_last() =~= volumes@.subrange(0, i - 1));
        assert(pre.last() == volumes@[i - 1]);
        let v = &volumes[i - 1];
        if str_eq(v.name.as_str(), name) {
            return match &v.definition {
                VolumeDefinition::Compose { has_options, extensions, .. } => *has_options
                    || extensions.keys.len() > 0,
                _ => false,
            };
        }
        i = i - 1;
    }
    false
}

/// Link each named-volume mount to the `.volume` file of its volume when that volume sets
/// options.
fn link_volume_mounts(mounts: &mut Vec<Mount>, volumes: &Vec<VolumeSource>)
    ensures
        mount_views(final(mounts)@) == link_mounts(mount_views(old(mounts)@), volumes@),
{
    let ghost m0 = mount_views(mounts@);
    let mut i: usize = 0;
    while i < mounts.len()
        invariant
            i <= mounts.len(),
            mounts.len() == m0.len(),
            forall|j: int| 0 <= j < i ==> (#[trigger] mounts@[j])@ == link_mount(m0[j], volumes@),
            forall|j: int| i <= j < mounts.len() ==> (#[trigger] mounts@[j])@ == m0[j],
        decreases mounts.len() - i,
    {
        let linked = match &mounts[i].source {
            Some(MountSource::NamedVolume(source)) => volume_options_set(volumes, source.as_str()),
            _ => false,
        };
        if linked {
            let mut m = mounts[i].duplicate();
            if let Some(MountSource::NamedVolume(source)) = &mut m.source {
                proof { reveal_strlit(".volume"); }
                source.append(".volume");
            }
            mounts.set(i, m);
        }
        i = i + 1;
    }
    assert(mount_views(mounts@) =~= link_mounts(m0, volumes@));
}

/// `s` followed by the characters of `suffix`.
fn concat(s: &str, suffix: &str) -> (r: String)
    ensures
        r@ == s@ + suffix@,
{
    let mut r = s.to_owned();
    r.append(suffix);
    r
}

/// The name of a unit in a pod: `<pod>-<name>`, or `name` outside a pod.
fn pod_prefixed(pod_name: Option<&str>, name: &str) -> (r: String)
    ensures
        r@ == dependency_name(opt_str(pod_name), name@),
{
    match pod_name {
        Some(p) => {
            proof { reveal_strlit("-"); }
            let mut r = concat(p, "-");
            r.append(name);
            r
        },
        None => name.to_owned(),
    }
}

/// A copy of the given `[Unit]` section with the service dependencies added.
fn unit_with_dependencies(unit: &Unit, depends_on: &Vec<ServiceDependency>, pod_name: Option<&str>) -> (r: Unit)
    ensures
        r@ == with_dependencies(unit@, depends_on@, opt_str(pod_name)),
{
    let mut u = unit.duplicate();
    let mut i: usize = 0;
    while i < depends_on.len()
        invariant
            i <= depends_on.len(),
            u@ == with_dependencies(unit@, depends_on@.subrange(0, i as int), opt_str(pod_name)),
        decreases depends_on.len() - i,
    {
        let d = &depends_on[i];
        let dep = ServiceDependency {
            name: pod_prefixed(pod_name, d.name.as_str()),
            condition: d.condition,
            restart: d.restart,
            required: d.required,
        };
        let ghost before = u@;
        u.add_dependency(dep);
        assert(depends_on@.subrange(0, i + 1) =~= depends_on@.subrange(0, i as int).push(*d));
        assert(u@.dependencies =~= with_dependencies(
            unit@,
            depends_on@.subrange(0, i + 1),
            opt_str(pod_name),
        ).dependencies);
        i = i + 1;
    }
    assert(depends_on@.subrange(0, depends_on.len() as int) =~= depends_on@);
    u
}

/// Set `Description=` from the project name unless it is set.
fn describe(unit: &mut Unit, entity_type: &str, compose_name: Option<&str>)
    ensures
        final(unit)@ == described(old(unit)@, entity_type@, opt_str(compose_name)),
{
    if let Some(project) = compose_name {
        unit.set_description_if_absent(make_description(entity_type, project));
    }
}

/// Attempt to convert a compose service into its `.container` file, its image being `image` when
/// given (the image of its `.build` file).
///
/// The file is named after the service; in a pod (`pod_name`), it is named `<pod>-<service>`,
/// joins the pod, and hands its published ports to the pod (added to `pod_ports`). Named volumes
/// that set options are linked to their `.volume` files. With a project name, `Description=` is
/// set unless given. Then the service's extensions are applied.
///
/// On success the file is added to `files`; on error `files` and `pod_ports` are left as they
/// are.
#[allow(clippy::too_many_arguments)]
pub fn service_try_into_quadlet_file(
    src: &ServiceSource,
    image: Option<String>,
    sections: &GenericSections,
    volumes: &Vec<VolumeSource>,
    pod_name: Option<&str>,
    compose_name: Option<&str>,
    pod_ports: &mut Vec<String>,
    context: &mut ExtensionContext,
    registry: &ExtensionRegistry,
    warnings: &mut Vec<Warning>,
    files: &mut Vec<File>,
) -> (r: Result<(), ComposeError>)
    ensures
        ({
            let o = container_spec(
                registry.dispatch(),
                *src,
                opt_text(image),
                sections@,
                volumes@,
                opt_str(pod_name),
                opt_str(compose_name),
                old(context)@,
            );
            &&& final(context)@ == o.ctx
            &&& warning_views(final(warnings)@) == warning_views(old(warnings)@) + o.warnings
            &&& match r {
                Ok(()) => {
                    &&& o.error is None
                    &&& file_views(final(files)@) == file_views(old(files)@) + o.files
                    &&& texts(final(pod_ports)@) == texts(old(pod_ports)@) + o.ports
                },
                Err(e) => {
                    &&& o.error == Some(e@)
                    &&& final(files)@ == old(files)@
                    &&& final(pod_ports)@ == old(pod_ports)@
                },
            }
        }),
{
    let name = &src.name;
    let unit = unit_with_dependencies(&sections.unit, &src.depends_on, pod_name);

    // Warn about unrecognized service-level extensions.
    push_warnings(registry, &Scope::Service(name.clone()), &src.extensions.keys, warnings);

    let mut container = match &src.container {
        Ok(c) => c.duplicate(),
        Err(message) => {
            return Err(ComposeError::Container { service: name.clone(), message: message.clone() });
        },
    };
    if let Some(image) = image {
        container.image = image;
    }

    // Link named volumes that set options to their `.volume` files.
    link_volume_mounts(&mut container.volume, volumes);

    let mut ports: Vec<String> = Vec::new();
    if let Some(pod) = pod_name {
        proof { reveal_strlit(".pod"); }
        container.pod = Some(concat(pod, ".pod"));
        core::mem::swap(&mut ports, &mut container.publish_port);
        assert(texts(container.publish_port@) =~= seq![]);
    } else {
        assert(texts(ports@) =~= seq![]);
    }
    let file_name = pod_prefixed(pod_name, name.as_str());

    let mut file = File {
        name: file_name,
        unit,
        resource: Resource::Container(container),
        globals: src.globals.duplicate(),
        quadlet: sections.quadlet.duplicate(),
        service: src.service.duplicate(),
        install: sections.install.duplicate(),
    };

    // Set Description= from the compose project name unless it is set.
    describe(&mut file.unit, "container", compose_name);

    // Apply service extensions via the registry.
    if src.extensions.keys.len() > 0 {
        let service_name = file.name.clone();
        let applied = registry.apply_service(service_name.as_str(), &src.extensions, context, &mut file);
        if let Err(e) = applied {
            return Err(ComposeError::ServiceExtensions { file: file.name, source: e });
        }
    }

    let ghost f0 = file_views(files@);
    let ghost p0 = texts(pod_ports@);
    let ghost moved = texts(ports@);
    files.push(file);
    pod_ports.append(&mut ports);
    assert(file_views(files@) =~= f0 + seq![files@.last()@]);
    assert(texts(pod_ports@) =~= p0 + moved);
    Ok(())
}


/// Once a service fails, the later services change nothing.
proof fn lemma_services_error_stays(
    reg: Dispatch,
    srcs: Seq<ServiceSource>,
    k: int,
    sections: GenericSectionsView,
    vols: Seq<VolumeSource>,
    pod: Option<Seq<char>>,
    project: Option<Seq<char>>,
    ctx: ContextView,
)
    requires
        0 <= k <= srcs.len(),
        services_spec(reg, srcs.subrange(0, k), sections, vols, pod, project, ctx).error is Some,
    ensures
        services_spec(reg, srcs, sections, vols, pod, project, ctx) == services_spec(
            reg,
            srcs.subrange(0, k),
            sections,
            vols,
            pod,
            project,
            ctx,
        ),
    decreases srcs.len(),
{
    if k == srcs.len() {
        assert(srcs.subrange(0, k) =~= srcs);
    } else {
        assert(srcs.drop_last().subrange(0, k) =~= srcs.subrange(0, k));
        lemma_services_error_stays(reg, srcs.drop_last(), k, sections, vols, pod, project, ctx);
    }
}

/// Once a network fails, the later networks change nothing.
proof fn lemma_networks_error_stays(
    reg: Dispatch,
    srcs: Seq<NetworkSource>,
    k: int,
    sections: GenericSectionsView,
    project: Option<Seq<char>>,
)
    requires
        0 <= k <= srcs.len(),
        networks_spec(reg, srcs.subrange(0, k), sections, project).error is Some,
    ensures
        networks_spec(reg, srcs, sections, project) == networks_spec(
            reg,
            srcs.subrange(0, k),
            sections,
            project,
        ),
    decreases srcs.len(),
{
    if k == srcs.len() {
        assert(srcs.subrange(0, k) =~= srcs);
    } else {
        assert(srcs.drop_last().subrange(0, k) =~= srcs.subrange(0, k));
        lemma_networks_error_stays(reg, srcs.drop_last(), k, sections, project);
    }
}

/// Once a volume fails, the later volumes change nothing.
proof fn lemma_volumes_error_stays(
    reg: Dispatch,
    srcs: Seq<VolumeSource>,
    k: int,
    sections: GenericSectionsView,
    project: Option<Seq<char>>,
)
    requires
        0 <= k <= srcs.len(),
        volumes_spec(reg, srcs.subrange(0, k), sections, project).error is Some,
    ensures
        volumes_spec(reg, srcs, sections, project) == volumes_spec(
            reg,
            srcs.subrange(0, k),
            sections,
            project,
        ),
    decreases srcs.len(),
{
    if k == srcs.len() {
        assert(srcs.subrange(0, k) =~= srcs);
    } else {
        assert(srcs.drop_last().subrange(0, k) =~= srcs.subrange(0, k));
        lemma_volumes_error_stays(reg, srcs.drop_last(), k, sections, project);
    }
}

/// Attempt to convert compose services into Quadlet files, in order: for each service its
/// `.container` file, followed by its `.build` file when it has `build`.
///
/// `image` and `build` cannot both be set. See [`service_try_into_quadlet_file`] for the
/// container file.
///
/// # Errors
///
/// The first service that cannot be converted stops the conversion; the files and ports of the
/// services before it stay added.
#[allow(clippy::too_many_arguments)]
pub fn services_try_into_quadlet_files(
    services: &Vec<ServiceSource>,
    sections: &GenericSections,
    volumes: &Vec<VolumeSource>,
    pod_name: Option<&str>,
    compose_name: Option<&str>,
    pod_ports: &mut Vec<String>,
    context: &mut ExtensionContext,
    registry: &ExtensionRegistry,
    warnings: &mut Vec<Warning>,
    files: &mut Vec<File>,
) -> (r: Result<(), ComposeError>)
    ensures
        ({
            let o = services_spec(
                registry.dispatch(),
                services@,
                sections@,
                volumes@,
                opt_str(pod_name),
                opt_str(compose_name),
                old(context)@,
            );
            &&& final(context)@ == o.ctx
            &&& warning_views(final(warnings)@) == warning_views(old(warnings)@) + o.warnings
            &&& file_views(final(files)@) == file_views(old(files)@) + o.files
            &&& texts(final(pod_ports)@) == texts(old(pod_ports)@) + o.ports
            &&& match r {
                Ok(()) => o.error is None,
                Err(e) => o.error == Some(e@),
            }
        }),
{
    let ghost reg = registry.dispatch();
    let ghost c0 = context@;
    let ghost w0 = warning_views(warnings@);
    let ghost f0 = file_views(files@);
    let ghost p0 = texts(pod_ports@);
    let mut i: usize = 0;
    while i < services.len()
        invariant
            i <= services.len(),
            reg == registry.dispatch(),
            c0 == old(context)@,
            w0 == warning_views(old(warnings)@),
            f0 == file_views(old(files)@),
            p0 == texts(old(pod_ports)@),
            ({
                let o = services_spec(
                    reg,
                    services@.subrange(0, i as int),
                    sections@,
                    volumes@,
                    opt_str(pod_name),
                    opt_str(compose_name),
                    c0,
                );
                &&& o.error is None
                &&& context@ == o.ctx
                &&& warning_views(warnings@) == w0 + o.warnings
                &&& file_views(files@) == f0 + o.files
                &&& texts(pod_ports@) == p0 + o.ports
            }),
        decreases services.len() - i,
    {
        let src = &services[i];
        let ghost prev = services_spec(
            reg,
            services@.subrange(0, i as int),
            sections@,
            volumes@,
            opt_str(pod_name),
            opt_str(compose_name),
            c0,
        );
        let ghost one = service_spec(
            reg,
            *src,
            sections@,
            volumes@,
            opt_str(pod_name),
            opt_str(compose_name),
            prev.ctx,
        );
        proof {
            let p = services@.subrange(0, i + 1);
            assert(p.drop_last() =~= services@.subrange(0, i as int));
            assert(p.last() == *src);
        }
        let ghost wb = warning_views(warnings@);
        let ghost fb = file_views(files@);
        let ghost pb = texts(pod_ports@);
        let outcome: Result<(), ComposeError> = if src.has_image && src.build.is_some() {
            Err(ComposeError::ImageAndBuild { service: src.name.clone() })
        } else {
            match &src.build {
                Some(Err(message)) => Err(
                    ComposeError::Build { service: src.name.clone(), message: message.clone() },
                ),
                Some(Ok(build)) => {
                    proof { reveal_strlit(".build"); }
                    let image = concat(build.name.as_str(), ".build");
                    let res = service_try_into_quadlet_file(
                        src,
                        Some(image),
                        sections,
                        volumes,
                        pod_name,
                        compose_name,
                        pod_ports,
                        context,
                        registry,
                        warnings,
                        files,
                    );
                    if res.is_ok() {
                        let ghost fm = file_views(files@);
                        files.push(
                            File {
                                name: build.name.clone(),
                                unit: sections.unit.duplicate(),
                                resource: Resource::Build(
                                    Build { name: build.name.clone(), options: build.options.duplicate() },
                                ),
                                globals: Settings::default(),
                                quadlet: sections.quadlet.duplicate(),
                                service: Settings::default(),
                                install: sections.install.duplicate(),
                            },
                        );
                        assert(file_views(files@) =~= fm + seq![files@.last()@]);
                    }
                    res
                },
                None => service_try_into_quadlet_file(
                    src,
                    None,
                    sections,
                    volumes,
                    pod_name,
                    compose_name,
                    pod_ports,
                    context,
                    registry,
                    warnings,
                    files,
                ),
            }
        };
        assert(context@ == one.ctx);
        assert(warning_views(warnings@) =~= wb + one.warnings);
        assert(file_views(files@) =~= fb + one.files);
        assert(texts(pod_ports@) =~= pb + one.ports);
        match outcome {
            Err(e) => {
                proof {
                    assert(one.error == Some(e@));
                    lemma_services_error_stays(
                        reg,
                        services@,
                        i + 1,
                        sections@,
                        volumes@,
                        opt_str(pod_name),
                        opt_str(compose_name),
                        c0,
                    );
                }
                return Err(e);
            },
            Ok(()) => {},
        }
        i = i + 1;
    }
    assert(services@.subrange(0, services.len() as int) =~= services@);
    Ok(())
}


/// Attempt to convert compose networks into `.network` files, in order.
///
/// A file is named after the network. With a project name, `Description=` is set unless given.
/// Then the network's extensions are applied.
///
/// # Errors
///
/// External networks are not supported. The first network that cannot be converted stops the
/// conversion; the files of the networks before it stay added.
pub fn networks_try_into_quadlet_files(
    networks: &Vec<NetworkSource>,
    sections: &GenericSections,
    compose_name: Option<&str>,
    context: &mut ExtensionContext,
    registry: &ExtensionRegistry,
    warnings: &mut Vec<Warning>,
    files: &mut Vec<File>,
) -> (r: Result<(), ComposeError>)
    ensures
        ({
            let o = networks_spec(registry.dispatch(), networks@, sections@, opt_str(compose_name));
            &&& final(context)@ == old(context)@
            &&& warning_views(final(warnings)@) == warning_views(old(warnings)@) + o.warnings
            &&& file_views(final(files)@) == file_views(old(files)@) + o.files
            &&& match r {
                Ok(()) => o.error is None,
                Err(e) => o.error == Some(e@),
            }
        }),
{
    let ghost reg = registry.dispatch();
    let ghost w0 = warning_views(warnings@);
    let ghost f0 = file_views(files@);
    let mut i: usize = 0;
    while i < networks.len()
        invariant
            i <= networks.len(),
            reg == registry.dispatch(),
            context@ == old(context)@,
            w0 == warning_views(old(warnings)@),
            f0 == file_views(old(files)@),
            ({
                let o = networks_spec(
                    reg,
                    networks@.subrange(0, i as int),
                    sections@,
                    opt_str(compose_name),
                );
                &&& o.error is None
                &&& warning_views(warnings@) == w0 + o.warnings
                &&& file_views(files@) == f0 + o.files
            }),
        decreases networks.len() - i,
    {
        let src = &networks[i];
        let ghost one = network_spec(reg, *src, sections@, opt_str(compose_name));
        proof {
            let p = networks@.subrange(0, i + 1);
            assert(p.drop_last() =~= networks@.subrange(0, i as int));
            assert(p.last() == *src);
        }
        let ghost wb = warning_views(warnings@);
        let ghost fb = file_views(files@);
        let outcome: Result<(), ComposeError> = if src.external {
            Err(ComposeError::ExternalNetwork { network: src.name.clone() })
        } else {
            // Warn about unrecognized network-level extensions.
            push_warnings(registry, &Scope::Network(src.name.clone()), &src.extensions.keys, warnings);
            match &src.network {
                Err(message) => Err(
                    ComposeError::Network { network: src.name.clone(), message: message.clone() },
                ),
                Ok(network) => {
                    let mut file = File {
                        name: src.name.clone(),
                        unit: sections.unit.duplicate(),
                        resource: Resource::Network(network.duplicate()),
                        globals: Settings::default(),
                        quadlet: sections.quadlet.duplicate(),
                        service: Settings::default(),
                        install: sections.install.duplicate(),
                    };
                    // Set Description= from the compose project name unless it is set.
                    describe(&mut file.unit, "network", compose_name);
                    let applied = if src.extensions.keys.len() > 0 {
                        registry.apply_network(src.name.as_str(), &src.extensions, context, &mut file)
                    } else {
                        Ok(())
                    };
                    match applied {
                        Err(e) => Err(
                            ComposeError::NetworkExtensions { network: src.name.clone(), source: e },
                        ),
                        Ok(()) => {
                            files.push(file);
                            assert(file_views(files@) =~= fb + seq![files@.last()@]);
                            Ok(())
                        },
                    }
                },
            }
        };
        assert(warning_views(warnings@) =~= wb + one.warnings);
        assert(file_views(files@) =~= fb + one.files);
        match outcome {
            Err(e) => {
                proof {
                    assert(one.error == Some(e@));
                    lemma_networks_error_stays(
                        reg,
                        networks@,
                        i + 1,
                        sections@,
                        opt_str(compose_name),
                    );
                }
                return Err(e);
            },
            Ok(()) => {},
        }
        i = i + 1;
    }
    assert(networks@.subrange(0, networks.len() as int) =~= networks@);
    Ok(())
}

/// Attempt to convert compose volumes into `.volume` files, in order.
///
/// A volume without a definition, or whose definition sets nothing (not even an extension),
/// needs no `.volume` file. A file is named after the volume. With a project name,
/// `Description=` is set unless given. Then the volume's extensions are applied.
///
/// # Errors
///
/// External volumes are not supported. The first volume that cannot be converted stops the
/// conversion; the files of the volumes before it stay added.
pub fn volumes_try_into_quadlet_files(
    volumes: &Vec<VolumeSource>,
    sections: &GenericSections,
    compose_name: Option<&str>,
    context: &mut ExtensionContext,
    registry: &ExtensionRegistry,
    warnings: &mut Vec<Warning>,
    files: &mut Vec<File>,
) -> (r: Result<(), ComposeError>)
    ensures
        ({
            let o = volumes_spec(registry.dispatch(), volumes@, sections@, opt_str(compose_name));
            &&& final(context)@ == old(context)@
            &&& warning_views(final(warnings)@) == warning_views(old(warnings)@) + o.warnings
            &&& file_views(final(files)@) == file_views(old(files)@) + o.files
            &&& match r {
                Ok(()) => o.error is None,
                Err(e) => o.error == Some(e@),
            }
        }),
{
    let ghost reg = registry.dispatch();
    let ghost w0 = warning_views(warnings@);
    let ghost f0 = file_views(files@);
    let mut i: usize = 0;
    while i < volumes.len()
        invariant
            i <= volumes.len(),
            reg == registry.dispatch(),
            context@ == old(context)@,
            w0 == warning_views(old(warnings)@),
            f0 == file_views(old(files)@),
            ({
                let o = volumes_spec(
                    reg,
                    volumes@.subrange(0, i as int),
                    sections@,
                    opt_str(compose_name),
                );
                &&& o.error is None
                &&& warning_views(warnings@) == w0 + o.warnings
                &&& file_views(files@) == f0 + o.files
            }),
        decreases volumes.len() - i,
    {
        let src = &volumes[i];
        let ghost one = volume_spec(reg, *src, sections@, opt_str(compose_name));
        proof {
            let p = volumes@.subrange(0, i + 1);
            assert(p.drop_last() =~= volumes@.subrange(0, i as int));
            assert(p.last() == *src);
        }
        let ghost wb = warning_views(warnings@);
        let ghost fb = file_views(files@);
        let outcome: Result<(), ComposeError> = match &src.definition {
            VolumeDefinition::Empty => Ok(()),
            VolumeDefinition::External => Err(
                ComposeError::ExternalVolume { volume: src.name.clone() },
            ),
            VolumeDefinition::Compose { has_options, volume, extensions } => {
                // Warn about unrecognized volume-level extensions.
                push_warnings(registry, &Scope::Volume(src.name.clone()), &extensions.keys, warnings);
                if !*has_options && extensions.keys.len() == 0 {
                    Ok(())
                } else {
                    match volume {
                        Err(message) => Err(
                            ComposeError::Volume {
                                volume: src.name.clone(),
                                message: message.clone(),
                            },
                        ),
                        Ok(v) => {
                            let mut file = File {
                                name: src.name.clone(),
                                unit: sections.unit.duplicate(),
                                resource: Resource::Volume(v.duplicate()),
                                globals: Settings::default(),
                                quadlet: sections.quadlet.duplicate(),
                                service: Settings::default(),
                                install: sections.install.duplicate(),
                            };
                            // Set Description= from the compose project name unless it is set.
                            describe(&mut file.unit, "volume", compose_name);
                            let applied = if extensions.keys.len() > 0 {
                                registry.apply_volume(
                                    src.name.as_str(),
                                    extensions,
                                    context,
                                    &mut file,
                                )
                            } else {
                                Ok(())
                            };
                            match applied {
                                Err(e) => Err(
                                    ComposeError::VolumeExtensions {
                                        volume: src.name.clone(),
                                        source: e,
                                    },
                                ),
                                Ok(()) => {
                                    files.push(file);
                                    assert(file_views(files@) =~= fb + seq![files@.last()@]);
                                    Ok(())
                                },
                            }
                        },
                    }
                }
            },
        };
        assert(warning_views(warnings@) =~= wb + one.warnings);
        assert(file_views(files@) =~= fb + one.files);
        match outcome {
            Err(e) => {
                proof {
                    assert(one.error == Some(e@));
                    lemma_volumes_error_stays(
                        reg,
                        volumes@,
                        i + 1,
                        sections@,
                        opt_str(compose_name),
                    );
                }
                return Err(e);
            },
            Ok(()) => {},
        }
        i = i + 1;
    }
    assert(volumes@.subrange(0, volumes.len() as int) =~= volumes@);
    Ok(())
}


/// The `.pod` file of `--pod`: it publishes the ports taken from the containers.
pub open spec fn pod_mode_file(name: Seq<char>, ports: Seq<Seq<char>>, sections: GenericSectionsView) -> FileView {
    FileView {
        name,
        unit: sections.unit,
        resource: ResourceView::Pod(crate::quadlet::PodView { publish_port: ports, ..empty_pod() }),
        globals: seq![],
        quadlet: sections.quadlet,
        service: seq![],
        install: sections.install,
    }
}

/// The file is a container file that runs in the pod named `pod`.
pub open spec fn runs_in_pod(f: FileView, pod: Seq<char>) -> bool {
    match f.resource {
        ResourceView::Container(c) => c.pod == Some(pod + ".pod"@),
        _ => false,
    }
}

/// Some container file runs in the pod named `pod`.
pub open spec fn has_member(files: Seq<FileView>, pod: Seq<char>) -> bool {
    exists|i: int| 0 <= i < files.len() && runs_in_pod(#[trigger] files[i], pod)
}

/// A warning for each pod of the context, in order, that no container of `files` joins.
pub open spec fn empty_pod_warnings(ctx: ContextView, files: Seq<FileView>) -> Seq<WarningView>
    decreases ctx.len(),
{
    if ctx.len() == 0 {
        seq![]
    } else {
        empty_pod_warnings(ctx.drop_last(), files) + if has_member(files, ctx.last().0) {
            Seq::<WarningView>::empty()
        } else {
            seq![WarningView::EmptyPod { pod: ctx.last().0 }]
        }
    }
}

/// The outcome of converting the parts of a compose file: the files or the error, and the
/// warnings.
///
/// The extension context is built first. Then come the services' files, the networks' files, the
/// volumes' files, the `.pod` file of `--pod`, and the files the extensions add. Each pod of
/// `x-pods` that no container joins is warned about, after the warnings of the parts.
pub open spec fn parts_spec(
    reg: Dispatch,
    services: Seq<ServiceSource>,
    networks: Seq<NetworkSource>,
    volumes: Seq<VolumeSource>,
    top: ComposeExtensions,
    pod: Option<Seq<char>>,
    sections: GenericSectionsView,
    project: Option<Seq<char>>,
) -> (Result<Seq<FileView>, ComposeErrorView>, Seq<WarningView>) {
    let b = build_fold(reg.handlers, reg.disabled, top, Seq::<(Seq<char>, ResolvedPodView)>::empty());
    match b.1 {
        Some(e) => (Err(ComposeErrorView::Context { source: e }), seq![]),
        None => {
            let s = services_spec(reg, services, sections, volumes, pod, project, b.0);
            match s.error {
                Some(e) => (Err(e), s.warnings),
                None => {
                    let n = networks_spec(reg, networks, sections, project);
                    match n.error {
                        Some(e) => (Err(e), s.warnings + n.warnings),
                        None => {
                            let v = volumes_spec(reg, volumes, sections, project);
                            match v.error {
                                Some(e) => (Err(e), s.warnings + n.warnings + v.warnings),
                                None => {
                                    let pod_files = match pod {
                                        Some(p) => seq![pod_mode_file(p, s.ports, sections)],
                                        None => seq![],
                                    };
                                    let extra = files_fold(
                                        reg.handlers,
                                        reg.disabled,
                                        s.ctx,
                                        Some(sections.install),
                                    );
                                    (
                                        Ok(s.files + n.files + v.files + pod_files + extra),
                                        s.warnings + n.warnings + v.warnings + empty_pod_warnings(
                                            s.ctx,
                                            s.files,
                                        ),
                                    )
                                },
                            }
                        },
                    }
                },
            }
        },
    }
}

/// Some container file among the first `end` files runs in the pod named `pod`.
fn pod_has_member(files: &Vec<File>, end: usize, pod: &str) -> (r: bool)
    requires
        end <= files.len(),
    ensures
        r == has_member(file_views(files@).subrange(0, end as int), pod@),
{
    let ghost fs = file_views(files@).subrange(0, end as int);
    proof { reveal_strlit(".pod"); }
    let target = concat(pod, ".pod");
    let mut i: usize = 0;
    while i < end
        invariant
            i <= end,
            end <= files.len(),
            fs == file_views(files@).subrange(0, end as int),
            target@ == pod@ + ".pod"@,
            forall|j: int| 0 <= j < i ==> !runs_in_pod(#[trigger] fs[j], pod@),
        decreases end - i,
    {
        assert(fs[i as int] == files@[i as int]@);
        if let Resource::Container(c) = &files[i].resource {
            if let Some(p) = &c.pod {
                if str_eq(p.as_str(), target.as_str()) {
                    assert(runs_in_pod(fs[i as int], pod@));
                    return true;
                }
            }
        }
        i = i + 1;
    }
    false
}

/// Record a warning for each pod of the context, in order, that no container among the first
/// `end` files joins.
fn push_empty_pod_warnings(
    context: &ExtensionContext,
    files: &Vec<File>,
    end: usize,
    warnings: &mut Vec<Warning>,
)
    requires
        end <= files.len(),
    ensures
        warning_views(final(warnings)@) == warning_views(old(warnings)@) + empty_pod_warnings(
            context@,
            file_views(files@).subrange(0, end as int),
        ),
{
    let ghost ctx = context@;
    let ghost fs = file_views(files@).subrange(0, end as int);
    let ghost w0 = warning_views(warnings@);
    let n = pods_len(&context.pods);
    let mut k: usize = 0;
    while k < n
        invariant
            k <= n,
            n == ctx.len(),
            ctx == context@,
            end <= files.len(),
            fs == file_views(files@).subrange(0, end as int),
            warning_views(warnings@) == w0 + empty_pod_warnings(ctx.subrange(0, k as int), fs),
        decreases n - k,
    {
        let (name, _) = pods_get_index(&context.pods, k);
        assert(ctx.subrange(0, k + 1).drop_last() =~= ctx.subrange(0, k as int));
        assert(ctx.subrange(0, k + 1).last() == ctx[k as int]);
        let ghost before = warning_views(warnings@);
        if !pod_has_member(files, end, name.as_str()) {
            warnings.push(Warning::EmptyPod { pod: name.clone() });
            assert(warning_views(warnings@) =~= before.push(WarningView::EmptyPod { pod: name@ }));
        }
        k = k + 1;
    }
    assert(ctx.subrange(0, n as int) =~= ctx);
}

/// Attempt to convert the services, networks, and volumes of a compose file into Quadlet files.
///
/// See [`parts_spec`] for the files and their order.
///
/// # Errors
///
/// The extension context could not be built, or a service, network, or volume could not be
/// converted.
#[allow(clippy::too_many_arguments)]
pub fn parts_try_into_files(
    services: &Vec<ServiceSource>,
    networks: &Vec<NetworkSource>,
    volumes: &Vec<VolumeSource>,
    compose_extensions: &ComposeExtensions,
    pod_name: Option<String>,
    sections: &GenericSections,
    compose_name: Option<String>,
    registry: &ExtensionRegistry,
    warnings: &mut Vec<Warning>,
) -> (r: Result<Vec<File>, ComposeError>)
    ensures
        ({
            let o = parts_spec(
                registry.dispatch(),
                services@,
                networks@,
                volumes@,
                *compose_extensions,
                opt_text(pod_name),
                sections@,
                opt_text(compose_name),
            );
            &&& warning_views(final(warnings)@) == warning_views(old(warnings)@) + o.1
            &&& match r {
                Ok(files) => o.0 == Ok::<Seq<FileView>, ComposeErrorView>(file_views(files@)),
                Err(e) => o.0 == Err::<Seq<FileView>, ComposeErrorView>(e@),
            }
        }),
{
    let ghost w0 = warning_views(warnings@);
    // Build the extension context from the top-level extensions.
    let mut context = match registry.build_context(compose_extensions) {
        Ok(c) => c,
        Err(e) => {
            assert(warning_views(warnings@) =~= w0 + seq![]);
            return Err(ComposeError::Context { source: e });
        },
    };

    let pod = match &pod_name {
        Some(p) => Some(p.as_str()),
        None => None,
    };
    let project = match &compose_name {
        Some(p) => Some(p.as_str()),
        None => None,
    };
    assert(opt_str(pod) == opt_text(pod_name));
    assert(opt_str(project) == opt_text(compose_name));

    let mut pod_ports: Vec<String> = Vec::new();
    let mut files: Vec<File> = Vec::new();
    let ghost ctx0 = context@;
    let ghost w1 = warning_views(warnings@);
    services_try_into_quadlet_files(
        services,
        sections,
        volumes,
        pod,
        project,
        &mut pod_ports,
        &mut context,
        registry,
        warnings,
        &mut files,
    )?;
    let ghost s = services_spec(registry.dispatch(), services@, sections@, volumes@, opt_str(pod), opt_str(project), ctx0);
    assert(file_views(files@) =~= s.files);
    let service_files = files.len();
    assert(texts(pod_ports@) =~= s.ports);
    let ghost w2 = warning_views(warnings@);
    let ghost n = networks_spec(registry.dispatch(), networks@, sections@, opt_str(project));
    let netres = networks_try_into_quadlet_files(networks, sections, project, &mut context, registry, warnings, &mut files);
    if let Err(e) = netres {
        assert(warning_views(warnings@) =~= w0 + (s.warnings + n.warnings));
        return Err(e);
    }
    let ghost v = volumes_spec(registry.dispatch(), volumes@, sections@, opt_str(project));
    let volres = volumes_try_into_quadlet_files(volumes, sections, project, &mut context, registry, warnings, &mut files);
    if let Err(e) = volres {
        assert(warning_views(warnings@) =~= w0 + (s.warnings + n.warnings + v.warnings));
        return Err(e);
    }
    assert(warning_views(warnings@) =~= w0 + (s.warnings + n.warnings + v.warnings));

    if let Some(name) = pod_name {
        let mut pod = Pod::default();
        pod.publish_port = pod_ports;
        let ghost fb = file_views(files@);
        files.push(
            File {
                name,
                unit: sections.unit.duplicate(),
                resource: Resource::Pod(pod),
                globals: Settings::default(),
                quadlet: sections.quadlet.duplicate(),
                service: Settings::default(),
                install: sections.install.duplicate(),
            },
        );
        assert(file_views(files@) =~= fb + seq![files@.last()@]);
    }

    // Append any extra files from extension handlers (e.g., pod files from x-pods).
    let ghost fb = file_views(files@);
    match registry.compose_files(&context, Some(&sections.install)) {
        Ok(mut extra) => {
            let ghost added = file_views(extra@);
            files.append(&mut extra);
            assert(file_views(files@) =~= fb + added);
            assert(file_views(files@).subrange(0, service_files as int) =~= s.files);
            let ghost w3 = warning_views(warnings@);
            push_empty_pod_warnings(&context, &files, service_files, warnings);
            assert(warning_views(warnings@) =~= w0 + (s.warnings + n.warnings + v.warnings
                + empty_pod_warnings(s.ctx, s.files)));
        },
        Err(e) => {
            return Err(ComposeError::ExtensionFiles { source: e });
        },
    }
    Ok(files)
}


/// The options of the `compose` subcommand.
pub struct Compose {
    /// Create a `.pod` file and link it with each `.container` file.
    ///
    /// The top-level `name` field in the compose file is required when using this option.
    /// It is used for the name of the pod and in the filenames of the created files.
    ///
    /// Each container becomes a part of the pod and is renamed to "{pod}-{container}".
    ///
    /// Published ports are taken from each container and applied to the pod.
    pub pod: bool,
    /// Create a Kubernetes YAML file for a pod instead of separate containers.
    pub kube: bool,
    /// Disabled compose extension keys: treated as known (no warning), but their handlers are
    /// skipped.
    pub disable_extension: Vec<String>,
    /// The compose file to convert.
    pub compose_file: Option<String>,
}

/// A read and validated compose file, as far as the conversion reads it.
pub struct ComposeDocument {
    /// The top-level `name`.
    pub name: Option<String>,
    /// `include` holds entries.
    pub has_include: bool,
    /// `configs` holds entries.
    pub has_configs: bool,
    /// Every secret is external.
    pub secrets_external: bool,
    pub services: Vec<ServiceSource>,
    pub networks: Vec<NetworkSource>,
    pub volumes: Vec<VolumeSource>,
    /// The top-level extensions.
    pub extensions: ComposeExtensions,
    /// For `--kube`: the Kubernetes YAML file made from the compose file, or why it could not be
    /// made.
    pub kubernetes: Option<Result<K8sFile, String>>,
}

/// View of an output file.
pub enum OutputFileView {
    Quadlet(FileView),
    K8s { name: Seq<char>, content: Seq<char> },
}

impl View for OutputFile {
    type V = OutputFileView;

    open spec fn view(&self) -> OutputFileView {
        match self {
            OutputFile::Quadlet(f) => OutputFileView::Quadlet(f@),
            OutputFile::K8s(k) => OutputFileView::K8s { name: k.name@, content: k.content@ },
        }
    }
}

/// The views of a sequence of output files.
pub open spec fn output_views(v: Seq<OutputFile>) -> Seq<OutputFileView> {
    v.map_values(|f: OutputFile| f@)
}

/// For `--kube`: a `.kube` file named after the Kubernetes file, which runs
/// `<name>-kube.yaml`, followed by the Kubernetes file renamed `<name>-kube`.
pub open spec fn kube_spec(k: K8sFile, sections: GenericSectionsView) -> Seq<OutputFileView> {
    seq![
        OutputFileView::Quadlet(
            FileView {
                name: k.name@,
                unit: sections.unit,
                resource: ResourceView::Kube(k.name@ + "-kube.yaml"@),
                globals: seq![],
                quadlet: sections.quadlet,
                service: seq![],
                install: sections.install,
            },
        ),
        OutputFileView::K8s { name: k.name@ + "-kube"@, content: k.content@ },
    ]
}

/// The outcome of converting a compose file: the files or the error, and the warnings.
pub open spec fn conversion_spec(
    compose: Compose,
    doc: ComposeDocument,
    sections: GenericSectionsView,
) -> (Result<Seq<OutputFileView>, ComposeErrorView>, Seq<WarningView>) {
    if compose.kube {
        match doc.kubernetes {
            Some(Ok(k)) => (Ok(kube_spec(k, sections)), seq![]),
            Some(Err(m)) => (Err(ComposeErrorView::Kubernetes { message: m@ }), seq![]),
            None => (Err(ComposeErrorView::Kubernetes { message: seq![] }), seq![]),
        }
    } else {
        let reg = Dispatch {
            handlers: crate::registry::standard_handlers(),
            disabled: texts(compose.disable_extension@),
        };
        let keys = texts(doc.extensions.keys@);
        if compose.pod && keys.contains("x-pods"@) {
            (Err(ComposeErrorView::PodAndXPods), seq![])
        } else if compose.pod && doc.name is None {
            (Err(ComposeErrorView::NameRequired), seq![])
        } else if doc.has_include {
            (Err(ComposeErrorView::Include), seq![])
        } else if doc.has_configs {
            (Err(ComposeErrorView::Configs), seq![])
        } else if !doc.secrets_external {
            (Err(ComposeErrorView::Secrets), seq![])
        } else {
            let top = scope_warnings(reg, ScopeView::Compose, keys);
            let project = opt_text(doc.name);
            let pod = if compose.pod {
                project
            } else {
                None
            };
            let p = parts_spec(
                reg,
                doc.services@,
                doc.networks@,
                doc.volumes@,
                doc.extensions,
                pod,
                sections,
                project,
            );
            (
                match p.0 {
                    Ok(files) => Ok(files.map_values(|f: FileView| OutputFileView::Quadlet(f))),
                    Err(e) => Err(e),
                },
                top + p.1,
            )
        }
    }
}

/// The document describes the compose file whose top level is `top`: the same `name`, `configs`
/// exactly when the file has some, the same top-level extension keys, and the same services,
/// networks, and volumes by name, in order.
pub open spec fn document_agrees(top: ParsedComposeView, doc: ComposeDocument) -> bool {
    &&& opt_text(doc.name) == top.name
    &&& doc.has_configs == (top.configs > 0)
    &&& texts(doc.extensions.keys@) == top.extension_keys
    &&& doc.services@.map_values(|s: ServiceSource| s.name@) == top.services
    &&& doc.networks@.map_values(|n: NetworkSource| n.name@) == top.networks
    &&& doc.volumes@.map_values(|v: VolumeSource| v.name@) == top.volumes
}

/// Two lists of strings hold the same strings in the same order.
fn strings_eq(a: &Vec<String>, b: &Vec<String>) -> (r: bool)
    ensures
        r == (texts(a@) == texts(b@)),
{
    if a.len() != b.len() {
        assert(texts(a@).len() != texts(b@).len());
        return false;
    }
    let mut i: usize = 0;
    while i < a.len()
        invariant
            i <= a.len(),
            a.len() == b.len(),
            forall|j: int| 0 <= j < i ==> a@[j]@ == b@[j]@,
        decreases a.len() - i,
    {
        if !str_eq(a[i].as_str(), b[i].as_str()) {
            assert(texts(a@)[i as int] != texts(b@)[i as int]);
            return false;
        }
        i = i + 1;
    }
    assert(texts(a@) =~= texts(b@));
    true
}

/// Two optional strings are equal.
fn opt_string_eq(a: &Option<String>, b: &Option<String>) -> (r: bool)
    ensures
        r == (opt_text(*a) == opt_text(*b)),
{
    match (a, b) {
        (Some(x), Some(y)) => str_eq(x.as_str(), y.as_str()),
        (None, None) => true,
        _ => false,
    }
}

/// Whether the document describes the compose file whose top level is `top`.
fn agrees(top: &ParsedCompose, doc: &ComposeDocument) -> (r: bool)
    ensures
        r == document_agrees(top@, *doc),
{
    let mut services: Vec<String> = Vec::new();
    let mut i: usize = 0;
    while i < doc.services.len()
        invariant
            i <= doc.services.len(),
            texts(services@) == doc.services@.subrange(0, i as int).map_values(|s: ServiceSource| s.name@),
        decreases doc.services.len() - i,
    {
        services.push(doc.services[i].name.clone());
        assert(doc.services@.subrange(0, i + 1).map_values(|s: ServiceSource| s.name@) =~= doc.services@.subrange(
            0,
            i as int,
        ).map_values(|s: ServiceSource| s.name@).push(doc.services@[i as int].name@));
        assert(texts(services@) =~= doc.services@.subrange(0, i + 1).map_values(|s: ServiceSource| s.name@));
        i = i + 1;
    }
    assert(doc.services@.subrange(0, doc.services.len() as int) =~= doc.services@);
    let mut networks: Vec<String> = Vec::new();
    let mut i: usize = 0;
    while i < doc.networks.len()
        invariant
            i <= doc.networks.len(),
            texts(networks@) == doc.networks@.subrange(0, i as int).map_values(|n: NetworkSource| n.name@),
        decreases doc.networks.len() - i,
    {
        networks.push(doc.networks[i].name.clone());
        assert(doc.networks@.subrange(0, i + 1).map_values(|n: NetworkSource| n.name@) =~= doc.networks@.subrange(
            0,
            i as int,
        ).map_values(|n: NetworkSource| n.name@).push(doc.networks@[i as int].name@));
        assert(texts(networks@) =~= doc.networks@.subrange(0, i + 1).map_values(|n: NetworkSource| n.name@));
        i = i + 1;
    }
    assert(doc.networks@.subrange(0, doc.networks.len() as int) =~= doc.networks@);
    let mut volumes: Vec<String> = Vec::new();
    let mut i: usize = 0;
    while i < doc.volumes.len()
        invariant
            i <= doc.volumes.len(),
            texts(volumes@) == doc.volumes@.subrange(0, i as int).map_values(|v: VolumeSource| v.name@),
        decreases doc.volumes.len() - i,
    {
        volumes.push(doc.volumes[i].name.clone());
        assert(doc.volumes@.subrange(0, i + 1).map_values(|v: VolumeSource| v.name@) =~= doc.volumes@.subrange(
            0,
            i as int,
        ).map_values(|v: VolumeSource| v.name@).push(doc.volumes@[i as int].name@));
        assert(texts(volumes@) =~= doc.volumes@.subrange(0, i + 1).map_values(|v: VolumeSource| v.name@));
        i = i + 1;
    }
    assert(doc.volumes@.subrange(0, doc.volumes.len() as int) =~= doc.volumes@);
    opt_string_eq(&doc.name, &top.name) && doc.has_configs == (top.configs > 0) && strings_eq(
        &doc.extensions.keys,
        &top.extension_keys,
    ) && strings_eq(&services, &top.services) && strings_eq(&networks, &top.networks) && strings_eq(
        &volumes,
        &top.volumes,
    )
}

impl Compose {
    /// Attempt to convert a compose file read from its text, given the document that describes
    /// it: as [`Compose::try_into_files`] when the document describes the file read (see
    /// [`document_agrees`]), else [`ComposeError::DocumentDiffers`] with no warning.
    pub fn convert(
        self,
        file: &ComposeFile,
        document: ComposeDocument,
        sections: GenericSections,
        warnings: &mut Vec<Warning>,
    ) -> (r: Result<Vec<OutputFile>, ComposeError>)
        ensures
            !document_agrees(file.top@, document) ==> (r matches Err(ComposeError::DocumentDiffers)),
            !document_agrees(file.top@, document) ==> final(warnings)@ == old(warnings)@,
            document_agrees(file.top@, document) ==> ({
                let o = conversion_spec(self, document, sections@);
                &&& warning_views(final(warnings)@) == warning_views(old(warnings)@) + o.1
                &&& match r {
                    Ok(files) => o.0 == Ok::<Seq<OutputFileView>, ComposeErrorView>(
                        output_views(files@),
                    ),
                    Err(e) => o.0 == Err::<Seq<OutputFileView>, ComposeErrorView>(e@),
                }
            }),
    {
        if !agrees(&file.top, &document) {
            return Err(ComposeError::DocumentDiffers);
        }
        self.try_into_files(document, sections, warnings)
    }

    /// For `--kube`: the `.kube` file that runs the Kubernetes file, and the Kubernetes file,
    /// renamed `<name>-kube`.
    pub fn kube_files(k8s_file: K8sFile, sections: GenericSections) -> (r: Vec<OutputFile>)
        ensures
            output_views(r@) == kube_spec(k8s_file, sections@),
    {
        let ghost k0 = k8s_file;
        let ghost sv = sections@;
        let GenericSections { unit, quadlet, install } = sections;
        let mut k8s_file = k8s_file;
        proof { reveal_strlit("-kube.yaml"); }
        let kube = Kube { yaml: concat(k8s_file.name.as_str(), "-kube.yaml") };
        let quadlet_file = File {
            name: k8s_file.name.clone(),
            unit,
            resource: Resource::Kube(kube),
            globals: Settings::default(),
            quadlet,
            service: Settings::default(),
            install,
        };
        proof { reveal_strlit("-kube"); }
        k8s_file.name.append("-kube");
        let mut files = Vec::new();
        files.push(OutputFile::Quadlet(quadlet_file));
        files.push(OutputFile::K8s(k8s_file));
        assert(output_views(files@) =~= kube_spec(k0, sv));
        files
    }

    /// Attempt to convert a compose file into files.
    ///
    /// With `kube`, the Kubernetes YAML file and a `.kube` file that runs it. Otherwise the
    /// Quadlet files of the services, networks, and volumes (see [`parts_spec`]), with the
    /// compose extensions applied; `warnings` receives the extension keys that no handler
    /// processes.
    ///
    /// # Errors
    ///
    /// `--pod` together with `x-pods`, `--pod` without a top-level `name`, `include`, `configs`,
    /// or a secret that is not external; or an error converting the parts.
    pub fn try_into_files(
        self,
        document: ComposeDocument,
        sections: GenericSections,
        warnings: &mut Vec<Warning>,
    ) -> (r: Result<Vec<OutputFile>, ComposeError>)
        ensures
            ({
                let o = conversion_spec(self, document, sections@);
                &&& warning_views(final(warnings)@) == warning_views(old(warnings)@) + o.1
                &&& match r {
                    Ok(files) => o.0 == Ok::<Seq<OutputFileView>, ComposeErrorView>(
                        output_views(files@),
                    ),
                    Err(e) => o.0 == Err::<Seq<OutputFileView>, ComposeErrorView>(e@),
                }
            }),
    {
        let ghost this = self;
        let ghost doc = document;
        let ghost sv = sections@;
        let Compose { pod, kube, disable_extension, compose_file: _ } = self;
        let ComposeDocument {
            name,
            has_include,
            has_configs,
            secrets_external,
            services,
            networks,
            volumes,
            extensions,
            kubernetes,
        } = document;

        if kube {
            assert(warning_views(warnings@) =~= warning_views(old(warnings)@) + seq![]);
            return match kubernetes {
                Some(Ok(k8s_file)) => Ok(Self::kube_files(k8s_file, sections)),
                Some(Err(message)) => Err(ComposeError::Kubernetes { message }),
                None => Err(ComposeError::Kubernetes { message: String::new() }),
            };
        }

        // Build the extension registry.
        let ghost disabled = texts(disable_extension@);
        let registry = ExtensionRegistry::new(disable_extension);

        assert(warning_views(warnings@) =~= warning_views(old(warnings)@) + seq![]);
        // Pre-flight check: x-pods and --pod are mutually exclusive.
        let has_x_pods = contains_str(&extensions.keys, "x-pods");
        if pod && has_x_pods {
            return Err(ComposeError::PodAndXPods);
        }

        let pod_name = if pod {
            match &name {
                Some(n) => Some(n.clone()),
                None => {
                    return Err(ComposeError::NameRequired);
                },
            }
        } else {
            None
        };
        let compose_name = name;

        if has_include {
            return Err(ComposeError::Include);
        }
        if has_configs {
            return Err(ComposeError::Configs);
        }
        if !secrets_external {
            return Err(ComposeError::Secrets);
        }

        // Warn about unrecognized top-level extensions.
        let ghost w0 = warning_views(warnings@);
        push_warnings(&registry, &Scope::Compose, &extensions.keys, warnings);
        let ghost w1 = warning_views(warnings@);

        let ghost pv = opt_text(pod_name);
        let ghost cv = opt_text(compose_name);
        let res = parts_try_into_files(
            &services,
            &networks,
            &volumes,
            &extensions,
            pod_name,
            &sections,
            compose_name,
            &registry,
            warnings,
        );
        let ghost p = parts_spec(
            registry.dispatch(),
            services@,
            networks@,
            volumes@,
            extensions,
            pv,
            sv,
            cv,
        );
        assert(warning_views(warnings@) =~= w0 + (w1.subrange(w0.len() as int, w1.len() as int) + p.1));
        match res {
            Ok(files) => {
                let mut out: Vec<OutputFile> = Vec::new();
                let mut files = files;
                let ghost fv = file_views(files@);
                let mut i: usize = 0;
                let n = files.len();
                while files.len() > 0
                    invariant
                        files.len() + i == n,
                        n == fv.len(),
                        file_views(files@) == fv.subrange(i as int, n as int),
                        out.len() == i,
                        forall|j: int| 0 <= j < i ==> (#[trigger] out@[j])@ == OutputFileView::Quadlet(fv[j]),
                    decreases files.len(),
                {
                    let ghost before = files@;
                    assert(file_views(before)[0] == fv.subrange(i as int, n as int)[0]);
                    let f = files.remove(0);
                    assert(f@ == fv[i as int]);
                    out.push(OutputFile::Quadlet(f));
                    assert(files@ =~= before.subrange(1, before.len() as int));
                    assert forall|j: int| 0 <= j < files@.len() implies file_views(files@)[j]
                        == fv.subrange(i + 1, n as int)[j] by {
                        assert(files@[j] == before[j + 1]);
                        assert(file_views(before)[j + 1] == fv.subrange(i as int, n as int)[j + 1]);
                    }
                    assert(file_views(files@) =~= fv.subrange(i + 1, n as int));
                    i = i + 1;
                }
                assert(output_views(out@) =~= fv.map_values(|f: FileView| OutputFileView::Quadlet(f)));
                Ok(out)
            },
            Err(e) => Err(e),
        }
    }
}

} // verus!
