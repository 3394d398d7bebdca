//! Compose extension handlers (`x-pods`, `x-pod`, `x-podman`, `x-systemd`) and the registry that
//! dispatches to them.
//!
//! Extension values reach this module already decoded from YAML into the schema types below; a
//! value that failed to decode is held as the decoder's message, and the handler for its key
//! reports it when it runs.

use vstd::prelude::*;
use crate::collections::{
    ExIndexMap, has_key, insert_entry, lookup, pod_entries, pods_get, pods_get_index, pods_insert,
    pods_len, pods_new,
};
use crate::net::Ipv4Addr;
use crate::quadlet::{
    NetworkView,
    ContainerView, File, FileView, Install, InstallView, Network, Pod, PodNetworkOptions, PodView,
    Resource, ResourceView, Unit, UnitView, VolumeView, clone_strings, empty_install, empty_pod,
    empty_unit, file_views, unit_is_empty,
};
use crate::systemd::{
    distinct_texts, systemd_map_wf,
    XSystemdMap, apply_install_directives, apply_unit_directives, install_directives,
    install_wanted_by, unit_directives, wanted_by_of,
};
use crate::text::{append_missing, decimal, opt_text, push_missing, str_eq, texts, u32_to_decimal};

verus! {

/// A pod resolved from the `x-pods` extension, holding all data needed to build a `.pod` Quadlet
/// file and to place containers in the pod.
pub struct ResolvedPod {
    /// Pod name (e.g., "observability").
    pub name: String,
    /// The `[Pod]` section data.
    pub pod: Pod,
    /// Optional `[Unit]` section (requires, after, etc.).
    pub unit: Option<Unit>,
    /// `WantedBy=` targets taken from `x-systemd.Install.WantedBy`.
    pub wanted_by: Vec<String>,
}

/// View of a [`ResolvedPod`].
pub struct ResolvedPodView {
    pub name: Seq<char>,
    pub pod: PodView,
    pub unit: Option<UnitView>,
    pub wanted_by: Seq<Seq<char>>,
}

impl View for ResolvedPod {
    type V = ResolvedPodView;

    open spec fn view(&self) -> ResolvedPodView {
        ResolvedPodView {
            name: self.name@,
            pod: self.pod@,
            unit: match self.unit {
                Some(u) => Some(u@),
                None => None,
            },
            wanted_by: texts(self.wanted_by@),
        }
    }
}

impl ResolvedPod {
    /// A copy of the resolved pod.
    pub fn duplicate(&self) -> (r: ResolvedPod)
        ensures
            r@ == self@,
    {
        ResolvedPod {
            name: self.name.clone(),
            pod: self.pod.duplicate(),
            unit: match &self.unit {
                Some(u) => Some(u.duplicate()),
                None => None,
            },
            wanted_by: clone_strings(&self.wanted_by),
        }
    }
}

/// The pods of an extension context, by name, in the order they were defined.
pub type ContextView = Seq<(Seq<char>, ResolvedPodView)>;

/// Shared context built from the top-level compose extensions.
pub struct ExtensionContext {
    /// Pods resolved from `x-pods`, keyed by pod name.
    pub pods: indexmap::IndexMap<String, ResolvedPod>,
}

impl View for ExtensionContext {
    type V = ContextView;

    open spec fn view(&self) -> ContextView {
        pod_entries(self.pods)
    }
}

impl ExtensionContext {
    /// A context with no pods.
    pub fn new() -> (r: ExtensionContext)
        ensures
            r@ == Seq::<(Seq<char>, ResolvedPodView)>::empty(),
    {
        ExtensionContext { pods: pods_new() }
    }
}

/// `x-pod` at service scope.
pub struct XPodService {
    pub name: String,
}

/// `x-podman` at service scope.
pub struct XPodmanService {
    pub cgroups: Option<String>,
}

/// `x-podman` at network scope.
#[derive(Clone, Copy, PartialEq, Eq, Debug)]
pub struct XPodmanNetwork {
    pub disable_dns: Option<bool>,
}

/// Ownership options for a volume.
#[derive(Clone, Copy, PartialEq, Eq, Debug)]
pub struct XPodmanOwnership {
    pub user: Option<u32>,
    pub group: Option<u32>,
}

/// `x-podman` at volume scope.
#[derive(Clone, Copy, PartialEq, Eq, Debug)]
pub struct XPodmanVolume {
    pub ownership: Option<XPodmanOwnership>,
}

/// Network attachment of a pod, with an optional static IPv4 address.
#[derive(Clone, Copy, PartialEq, Eq, Debug)]
pub struct PodNetworkAttachment {
    pub ipv4_address: Option<Ipv4Addr>,
}

/// Pod-level `x-podman` options.
pub struct XPodmanOnPod {
    pub userns: Option<String>,
}

/// One pod definition of `x-pods`.
pub struct PodDefinition {
    /// Network attachments, by network name, in order.
    pub networks: Vec<(String, PodNetworkAttachment)>,
    pub x_podman: Option<XPodmanOnPod>,
    pub x_systemd: Option<XSystemdMap>,
}

/// The extensions of the top level of a compose file.
pub struct ComposeExtensions {
    /// Every extension key present, in order.
    pub keys: Vec<String>,
    /// `x-pods`: pod definitions by pod name, or the message of the failed decoding.
    pub x_pods: Option<Result<Vec<(String, PodDefinition)>, String>>,
}

/// The extensions of a compose service.
pub struct ServiceExtensions {
    /// Every extension key present, in order.
    pub keys: Vec<String>,
    pub x_pod: Option<Result<XPodService, String>>,
    pub x_podman: Option<Result<XPodmanService, String>>,
}

/// The extensions of a compose network.
pub struct NetworkExtensions {
    /// Every extension key present, in order.
    pub keys: Vec<String>,
    pub x_podman: Option<Result<XPodmanNetwork, String>>,
    pub x_systemd: Option<Result<XSystemdMap, String>>,
}

/// The extensions of a compose volume.
pub struct VolumeExtensions {
    /// Every extension key present, in order.
    pub keys: Vec<String>,
    pub x_podman: Option<Result<XPodmanVolume, String>>,
    pub x_systemd: Option<Result<XSystemdMap, String>>,
}

/// The names of a sequence of named items.
pub open spec fn item_names<T>(v: Seq<(String, T)>) -> Seq<Seq<char>> {
    v.map_values(|e: (String, T)| e.0@)
}

impl PodDefinition {
    /// The definition as YAML gives it: its networks, and the sections and directives of its
    /// `x-systemd`, have distinct names.
    pub open spec fn wf(self) -> bool {
        &&& distinct_texts(item_names(self.networks@))
        &&& self.x_systemd matches Some(m) ==> systemd_map_wf(m@)
    }
}

impl ComposeExtensions {
    /// The extensions as a compose file gives them: the keys are distinct, a decoded `x-pods` is
    /// among them, and its pods have distinct names and well-formed definitions.
    pub open spec fn wf(self) -> bool {
        &&& distinct_texts(texts(self.keys@))
        &&& self.x_pods is Some ==> texts(self.keys@).contains("x-pods"@)
        &&& self.x_pods matches Some(Ok(defs)) ==> {
            &&& distinct_texts(item_names(defs@))
            &&& forall|i: int| 0 <= i < defs.len() ==> (#[trigger] defs@[i]).1.wf()
        }
    }
}

impl ServiceExtensions {
    /// The extensions as a compose file gives them: the keys are distinct, and each decoded value
    /// is among them.
    pub open spec fn wf(self) -> bool {
        &&& distinct_texts(texts(self.keys@))
        &&& self.x_pod is Some ==> texts(self.keys@).contains("x-pod"@)
        &&& self.x_podman is Some ==> texts(self.keys@).contains("x-podman"@)
    }
}

impl NetworkExtensions {
    /// The extensions as a compose file gives them: the keys are distinct, each decoded value is
    /// among them, and a decoded `x-systemd` is well formed.
    pub open spec fn wf(self) -> bool {
        &&& distinct_texts(texts(self.keys@))
        &&& self.x_podman is Some ==> texts(self.keys@).contains("x-podman"@)
        &&& self.x_systemd is Some ==> texts(self.keys@).contains("x-systemd"@)
        &&& self.x_systemd matches Some(Ok(m)) ==> systemd_map_wf(m@)
    }
}

impl VolumeExtensions {
    /// The extensions as a compose file gives them: the keys are distinct, each decoded value is
    /// among them, and a decoded `x-systemd` is well formed.
    pub open spec fn wf(self) -> bool {
        &&& distinct_texts(texts(self.keys@))
        &&& self.x_podman is Some ==> texts(self.keys@).contains("x-podman"@)
        &&& self.x_systemd is Some ==> texts(self.keys@).contains("x-systemd"@)
        &&& self.x_systemd matches Some(Ok(m)) ==> systemd_map_wf(m@)
    }
}

/// Where an extension was found.
pub enum Scope {
    Compose,
    Service(String),
    Network(String),
    Volume(String),
}

/// View of a [`Scope`].
pub enum ScopeView {
    Compose,
    Service(Seq<char>),
    Network(Seq<char>),
    Volume(Seq<char>),
}

impl View for Scope {
    type V = ScopeView;

    open spec fn view(&self) -> ScopeView {
        match self {
            Scope::Compose => ScopeView::Compose,
            Scope::Service(s) => ScopeView::Service(s@),
            Scope::Network(s) => ScopeView::Network(s@),
            Scope::Volume(s) => ScopeView::Volume(s@),
        }
    }
}

/// Errors of the extension handlers.
pub enum ExtensionError {
    /// The value of `key` in `scope` does not match its schema.
    Deserialize { key: String, scope: Scope, message: String },
    /// A service names, via `x-pod`, a pod that `x-pods` does not define.
    UnknownPod { service: String, pod: String },
    /// `x-podman.ownership` of a volume sets only one of `user` and `group`.
    IncompleteOwnership { volume: String },
}

/// View of an [`ExtensionError`].
pub enum ExtensionErrorView {
    Deserialize { key: Seq<char>, scope: ScopeView, message: Seq<char> },
    UnknownPod { service: Seq<char>, pod: Seq<char> },
    IncompleteOwnership { volume: Seq<char> },
}

impl View for ExtensionError {
    type V = ExtensionErrorView;

    open spec fn view(&self) -> ExtensionErrorView {
        match self {
            ExtensionError::Deserialize { key, scope, message } => ExtensionErrorView::Deserialize {
                key: key@,
                scope: scope@,
                message: message@,
            },
            ExtensionError::UnknownPod { service, pod } => ExtensionErrorView::UnknownPod {
                service: service@,
                pod: pod@,
            },
            ExtensionError::IncompleteOwnership { volume } => ExtensionErrorView::IncompleteOwnership {
                volume: volume@,
            },
        }
    }
}

/// A string with the characters of `s`.
fn owned(s: &str) -> (r: String)
    ensures
        r@ == s@,
{
    s.to_owned()
}

/// The error for a value of `key` that failed to decode.
fn deserialize_error(key: &str, scope: Scope, message: &String) -> (r: ExtensionError)
    ensures
        r@ == (ExtensionErrorView::Deserialize { key: key@, scope: scope@, message: message@ }),
{
    ExtensionError::Deserialize { key: owned(key), scope, message: message.clone() }
}

// ---------------------------------------------------------------------------------------------
// What each handler does, stated over views.

/// The view of the pod after it takes a container's published ports.
pub open spec fn pod_with_ports(rp: ResolvedPodView, ports: Seq<Seq<char>>) -> ResolvedPodView {
    ResolvedPodView { pod: PodView { publish_port: rp.pod.publish_port + ports, ..rp.pod }, ..rp }
}

/// `x-pod` on a service: the context and file afterwards, and the error if any.
///
/// The container joins the pod (`Pod=<pod>.pod`), hands its published ports to the pod, the file
/// is renamed `<pod>-<service>`, and the `WantedBy=` targets of its `[Install]` section become
/// exactly those of the pod.
pub open spec fn x_pod_service_step(
    service: Seq<char>,
    ext: ServiceExtensions,
    ctx: ContextView,
    file: FileView,
) -> (ContextView, FileView, Option<ExtensionErrorView>) {
    match ext.x_pod {
        None => (ctx, file, None),
        Some(Err(m)) => (
            ctx,
            file,
            Some(
                ExtensionErrorView::Deserialize {
                    key: "x-pod"@,
                    scope: ScopeView::Service(service),
                    message: m@,
                },
            ),
        ),
        Some(Ok(xp)) => match lookup(ctx, xp.name@) {
            None => (ctx, file, Some(ExtensionErrorView::UnknownPod { service, pod: xp.name@ })),
            Some(rp) => {
                let ctx2 = match file.resource {
                    ResourceView::Container(c) => insert_entry(
                        ctx,
                        xp.name@,
                        pod_with_ports(rp, c.publish_port),
                    ),
                    _ => ctx,
                };
                let resource2 = match file.resource {
                    ResourceView::Container(c) => ResourceView::Container(
                        ContainerView {
                            pod: Some(xp.name@ + ".pod"@),
                            publish_port: seq![],
                            ..c
                        },
                    ),
                    r => r,
                };
                let file2 = FileView {
                    name: xp.name@ + "-"@ + service,
                    resource: resource2,
                    install: InstallView {
                        wanted_by: rp.wanted_by,
                        ..file.install
                    },
                    ..file
                };
                (ctx2, file2, None)
            },
        },
    }
}

/// `x-podman` on a service: a given `cgroups` becomes `CgroupsMode=` of the container; without
/// it the container is left as it is.
pub open spec fn x_podman_service_step(service: Seq<char>, ext: ServiceExtensions, file: FileView) -> (
    FileView,
    Option<ExtensionErrorView>,
) {
    match ext.x_podman {
        None => (file, None),
        Some(Err(m)) => (
            file,
            Some(
                ExtensionErrorView::Deserialize {
                    key: "x-podman"@,
                    scope: ScopeView::Service(service),
                    message: m@,
                },
            ),
        ),
        Some(Ok(x)) => (
            FileView {
                resource: match file.resource {
                    ResourceView::Container(c) => ResourceView::Container(
                        ContainerView {
                            cgroups_mode: match x.cgroups {
                                Some(m) => Some(m@),
                                None => c.cgroups_mode,
                            },
                            ..c
                        },
                    ),
                    r => r,
                },
                ..file
            },
            None,
        ),
    }
}

/// `x-podman` on a network: a given `disable-dns` becomes `DisableDNS=` of the network.
pub open spec fn x_podman_network_step(network: Seq<char>, ext: NetworkExtensions, file: FileView) -> (
    FileView,
    Option<ExtensionErrorView>,
) {
    match ext.x_podman {
        None => (file, None),
        Some(Err(m)) => (
            file,
            Some(
                ExtensionErrorView::Deserialize {
                    key: "x-podman"@,
                    scope: ScopeView::Network(network),
                    message: m@,
                },
            ),
        ),
        Some(Ok(x)) => match x.disable_dns {
            Some(b) => (
                FileView {
                    resource: match file.resource {
                        ResourceView::Network(n) => ResourceView::Network(
                            NetworkView { disable_dns: b, ..n },
                        ),
                        r => r,
                    },
                    ..file
                },
                None,
            ),
            None => (file, None),
        },
    }
}

/// `x-podman` on a volume: `ownership` with both `user` and `group` becomes `User=` and `Group=`
/// of the volume, in decimal; with only one of them it is an error.
pub open spec fn x_podman_volume_step(volume: Seq<char>, ext: VolumeExtensions, file: FileView) -> (
    FileView,
    Option<ExtensionErrorView>,
) {
    match ext.x_podman {
        None => (file, None),
        Some(Err(m)) => (
            file,
            Some(
                ExtensionErrorView::Deserialize {
                    key: "x-podman"@,
                    scope: ScopeView::Volume(volume),
                    message: m@,
                },
            ),
        ),
        Some(Ok(x)) => match x.ownership {
            None => (file, None),
            Some(o) => match (o.user, o.group) {
                (Some(u), Some(g)) => (
                    FileView {
                        resource: match file.resource {
                            ResourceView::Volume(v) => ResourceView::Volume(
                                VolumeView {
                                    user: Some(decimal(u as nat)),
                                    group: Some(decimal(g as nat)),
                                    ..v
                                },
                            ),
                            r => r,
                        },
                        ..file
                    },
                    None,
                ),
                (None, None) => (file, None),
                _ => (file, Some(ExtensionErrorView::IncompleteOwnership { volume })),
            },
        },
    }
}

/// `x-systemd` on a network or volume: its `Unit` directives go to the `[Unit]` section and its
/// `Install` directives to the `[Install]` section.
pub open spec fn x_systemd_step(
    scope: ScopeView,
    value: Option<Result<XSystemdMap, String>>,
    file: FileView,
) -> (FileView, Option<ExtensionErrorView>) {
    match value {
        None => (file, None),
        Some(Err(m)) => (
            file,
            Some(ExtensionErrorView::Deserialize { key: "x-systemd"@, scope, message: m@ }),
        ),
        Some(Ok(s)) => (
            FileView {
                unit: unit_directives(file.unit, s@),
                install: install_directives(file.install, s@),
                ..file
            },
            None,
        ),
    }
}

/// The network attachments after inserting each attachment of a pod definition in order.
pub open spec fn attachments_fold(
    e: Seq<(Seq<char>, PodNetworkOptions)>,
    nets: Seq<(String, PodNetworkAttachment)>,
) -> Seq<(Seq<char>, PodNetworkOptions)>
    decreases nets.len(),
{
    if nets.len() == 0 {
        e
    } else {
        insert_entry(
            attachments_fold(e, nets.drop_last()),
            nets.last().0@,
            PodNetworkOptions { ip: nets.last().1.ipv4_address },
        )
    }
}

/// The pod resolved from a definition in `x-pods`.
pub open spec fn resolve_pod(name: Seq<char>, def: PodDefinition) -> ResolvedPodView {
    ResolvedPodView {
        name,
        pod: PodView {
            pod_name: Some(name),
            network_attachments: attachments_fold(seq![], def.networks@),
            user_ns: match def.x_podman {
                Some(x) => opt_text(x.userns),
                None => None,
            },
            ..empty_pod()
        },
        unit: match def.x_systemd {
            Some(s) => {
                let u = unit_directives(empty_unit(), s@);
                if unit_is_empty(u) {
                    None
                } else {
                    Some(u)
                }
            },
            None => None,
        },
        wanted_by: match def.x_systemd {
            Some(s) => install_wanted_by(s@),
            None => seq![],
        },
    }
}

/// The context after resolving each pod definition in order.
pub open spec fn x_pods_fold(ctx: ContextView, defs: Seq<(String, PodDefinition)>) -> ContextView
    decreases defs.len(),
{
    if defs.len() == 0 {
        ctx
    } else {
        insert_entry(
            x_pods_fold(ctx, defs.drop_last()),
            defs.last().0@,
            resolve_pod(defs.last().0@, defs.last().1),
        )
    }
}

/// `x-pods` at the top level: each pod definition is resolved into the context.
pub open spec fn x_pods_build_step(ext: ComposeExtensions, ctx: ContextView) -> (
    ContextView,
    Option<ExtensionErrorView>,
) {
    match ext.x_pods {
        None => (ctx, None),
        Some(Err(m)) => (
            ctx,
            Some(
                ExtensionErrorView::Deserialize {
                    key: "x-pods"@,
                    scope: ScopeView::Compose,
                    message: m@,
                },
            ),
        ),
        Some(Ok(defs)) => (x_pods_fold(ctx, defs@), None),
    }
}

/// The `.pod` file of a resolved pod: the given `[Install]` section (or an empty one) with the
/// pod's `WantedBy=` targets added.
pub open spec fn pod_file(rp: ResolvedPodView, install: Option<InstallView>) -> FileView {
    let base = match install {
        Some(i) => i,
        None => empty_install(),
    };
    FileView {
        name: rp.name,
        unit: match rp.unit {
            Some(u) => u,
            None => empty_unit(),
        },
        resource: ResourceView::Pod(rp.pod),
        globals: seq![],
        quadlet: seq![],
        service: seq![],
        install: InstallView { wanted_by: append_missing(base.wanted_by, rp.wanted_by), ..base },
    }
}

/// The `.pod` files of all resolved pods, in order.
pub open spec fn x_pods_files(ctx: ContextView, install: Option<InstallView>) -> Seq<FileView> {
    ctx.map_values(|e: (Seq<char>, ResolvedPodView)| pod_file(e.1, install))
}

// ---------------------------------------------------------------------------------------------
// The handlers.

/// Trait for typed compose extension processors.
///
/// Each implementation handles one or more `x-*` keys. Every method but `handled_keys` does
/// nothing by default, so that a handler only overrides the scopes it cares about.
pub trait ComposeExtensionHandler {
    /// The extension keys this handler processes (e.g., `&["x-pods"]`).
    fn handled_keys(&self) -> &'static [&'static str];

    /// Called once with the top-level extensions to build shared context.
    fn build_context(
        &self,
        compose: &ComposeExtensions,
        context: &mut ExtensionContext,
    ) -> (r: Result<(), ExtensionError>)
        default_ensures
            r is Ok,
            final(context)@ == old(context)@,
    {
        Ok(())
    }

    /// Returns additional Quadlet files to emit (e.g., `.pod` files).
    fn compose_files(&self, context: &ExtensionContext, install: Option<&Install>) -> (r: Result<
        Vec<File>,
        ExtensionError,
    >)
        default_ensures
            r matches Ok(v) && v@.len() == 0,
    {
        Ok(Vec::new())
    }

    /// Called for each service with its extensions.
    fn handle_service(
        &self,
        service_name: &str,
        extensions: &ServiceExtensions,
        context: &mut ExtensionContext,
        file: &mut File,
    ) -> (r: Result<(), ExtensionError>)
        default_ensures
            r is Ok,
            final(context)@ == old(context)@,
            final(file)@ == old(file)@,
    {
        Ok(())
    }

    /// Called for each network with its extensions.
    fn handle_network(
        &self,
        network_name: &str,
        extensions: &NetworkExtensions,
        context: &mut ExtensionContext,
        file: &mut File,
    ) -> (r: Result<(), ExtensionError>)
        default_ensures
            r is Ok,
            final(context)@ == old(context)@,
            final(file)@ == old(file)@,
    {
        Ok(())
    }

    /// Called for each volume with its extensions.
    fn handle_volume(
        &self,
        volume_name: &str,
        extensions: &VolumeExtensions,
        context: &mut ExtensionContext,
        file: &mut File,
    ) -> (r: Result<(), ExtensionError>)
        default_ensures
            r is Ok,
            final(context)@ == old(context)@,
            final(file)@ == old(file)@,
    {
        Ok(())
    }
}

} // verus!
