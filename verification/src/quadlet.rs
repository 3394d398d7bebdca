//! The parts of Quadlet files that compose conversion and the compose extensions fill in.

use indexmap::IndexMap;
use vstd::prelude::*;
use crate::collections::{attachment_entries, attachments_clone, attachments_new};
use crate::net::{IpAddr, Ipv4Addr, Ipv6Addr};
use crate::text::{opt_text, texts};

verus! {

/// A clone of each string of a vector.
pub fn clone_strings(v: &Vec<String>) -> (r: Vec<String>)
    ensures
        texts(r@) == texts(v@),
        r@ == v@,
{
    let r = v.clone();
    assert forall|i: int| 0 <= i < r.len() implies r@[i] == v@[i] by {
        assert(vstd::pervasive::cloned::<String>(v@[i], r@[i]));
    }
    assert(r@ =~= v@);
    r
}

/// A clone of an optional string.
pub fn clone_opt_string(o: &Option<String>) -> (r: Option<String>)
    ensures
        r == *o,
{
    match o {
        Some(s) => Some(s.clone()),
        None => None,
    }
}

/// Options of a section as `Key=value` pairs, in order: what the conversion of a compose
/// definition sets beyond the fields that the compose extensions read or write.
pub struct Settings {
    pub entries: Vec<(String, String)>,
}

/// The key and value of each entry, as characters.
pub open spec fn entry_views(v: Seq<(String, String)>) -> Seq<(Seq<char>, Seq<char>)> {
    v.map_values(|e: (String, String)| (e.0@, e.1@))
}

impl View for Settings {
    type V = Seq<(Seq<char>, Seq<char>)>;

    open spec fn view(&self) -> Seq<(Seq<char>, Seq<char>)> {
        entry_views(self.entries@)
    }
}

impl Default for Settings {
    fn default() -> (r: Settings)
        ensures
            r@ == Seq::<(Seq<char>, Seq<char>)>::empty(),
    {
        let r = Settings { entries: Vec::new() };
        assert(r@ =~= seq![]);
        r
    }
}

impl Settings {
    /// A copy of the options.
    pub fn duplicate(&self) -> (r: Settings)
        ensures
            r@ == self@,
    {
        let mut entries: Vec<(String, String)> = Vec::new();
        let mut i: usize = 0;
        while i < self.entries.len()
            invariant
                i <= self.entries.len(),
                entries.len() == i,
                forall|j: int|
                    0 <= j < i ==> (#[trigger] entries@[j]).0@ == self.entries@[j].0@
                        && entries@[j].1@ == self.entries@[j].1@,
            decreases self.entries.len() - i,
        {
            let (k, v) = &self.entries[i];
            entries.push((k.clone(), v.clone()));
            i = i + 1;
        }
        let r = Settings { entries };
        assert(r@ =~= self@);
        r
    }
}

/// When a service dependency counts as satisfied.
#[derive(Clone, Copy, PartialEq, Eq, Debug)]
pub enum DependencyCondition {
    ServiceStarted,
    ServiceHealthy,
    ServiceCompletedSuccessfully,
}

/// A dependency of a unit on the unit of another compose service.
pub struct ServiceDependency {
    /// Name of the unit depended on.
    pub name: String,
    pub condition: DependencyCondition,
    pub restart: bool,
    pub required: bool,
}

/// View of a [`ServiceDependency`].
pub struct ServiceDependencyView {
    pub name: Seq<char>,
    pub condition: DependencyCondition,
    pub restart: bool,
    pub required: bool,
}

impl View for ServiceDependency {
    type V = ServiceDependencyView;

    open spec fn view(&self) -> ServiceDependencyView {
        ServiceDependencyView {
            name: self.name@,
            condition: self.condition,
            restart: self.restart,
            required: self.required,
        }
    }
}

impl ServiceDependency {
    pub fn duplicate(&self) -> (r: ServiceDependency)
        ensures
            r@ == self@,
    {
        ServiceDependency {
            name: self.name.clone(),
            condition: self.condition,
            restart: self.restart,
            required: self.required,
        }
    }
}

/// The views of a sequence of dependencies.
pub open spec fn dependency_views(v: Seq<ServiceDependency>) -> Seq<ServiceDependencyView> {
    v.map_values(|d: ServiceDependency| d@)
}

/// The `[Unit]` section of a Quadlet file.
pub struct Unit {
    pub description: Option<String>,
    pub wants: Vec<String>,
    pub requires: Vec<String>,
    pub binds_to: Vec<String>,
    pub before: Vec<String>,
    pub after: Vec<String>,
    /// Dependencies on the units of other compose services.
    pub dependencies: Vec<ServiceDependency>,
}

/// View of a [`Unit`].
pub struct UnitView {
    pub description: Option<Seq<char>>,
    pub wants: Seq<Seq<char>>,
    pub requires: Seq<Seq<char>>,
    pub binds_to: Seq<Seq<char>>,
    pub before: Seq<Seq<char>>,
    pub after: Seq<Seq<char>>,
    pub dependencies: Seq<ServiceDependencyView>,
}

impl View for Unit {
    type V = UnitView;

    open spec fn view(&self) -> UnitView {
        UnitView {
            description: opt_text(self.description),
            wants: texts(self.wants@),
            requires: texts(self.requires@),
            binds_to: texts(self.binds_to@),
            before: texts(self.before@),
            after: texts(self.after@),
            dependencies: dependency_views(self.dependencies@),
        }
    }
}

/// The empty `[Unit]` section.
pub open spec fn empty_unit() -> UnitView {
    UnitView {
        description: None,
        wants: seq![],
        requires: seq![],
        binds_to: seq![],
        before: seq![],
        after: seq![],
        dependencies: seq![],
    }
}

/// Whether a `[Unit]` section sets nothing.
pub open spec fn unit_is_empty(u: UnitView) -> bool {
    &&& u.description is None
    &&& u.wants.len() == 0
    &&& u.requires.len() == 0
    &&& u.binds_to.len() == 0
    &&& u.before.len() == 0
    &&& u.after.len() == 0
    &&& u.dependencies.len() == 0
}

impl Default for Unit {
    fn default() -> (r: Unit)
        ensures
            r@ == empty_unit(),
    {
        let r = Unit {
            description: None,
            wants: Vec::new(),
            requires: Vec::new(),
            binds_to: Vec::new(),
            before: Vec::new(),
            after: Vec::new(),
            dependencies: Vec::new(),
        };
        assert(r@.wants =~= seq![]);
        assert(r@.dependencies =~= seq![]);
        r
    }
}

impl Unit {
    /// A copy of the section.
    pub fn duplicate(&self) -> (r: Unit)
        ensures
            r@ == self@,
    {
        let mut deps: Vec<ServiceDependency> = Vec::new();
        let mut i: usize = 0;
        while i < self.dependencies.len()
            invariant
                i <= self.dependencies.len(),
                deps.len() == i,
                forall|j: int| 0 <= j < i ==> (#[trigger] deps@[j])@ == self.dependencies@[j]@,
            decreases self.dependencies.len() - i,
        {
            deps.push(self.dependencies[i].duplicate());
            i = i + 1;
        }
        assert(dependency_views(deps@) =~= dependency_views(self.dependencies@));
        Unit {
            description: clone_opt_string(&self.description),
            wants: clone_strings(&self.wants),
            requires: clone_strings(&self.requires),
            binds_to: clone_strings(&self.binds_to),
            before: clone_strings(&self.before),
            after: clone_strings(&self.after),
            dependencies: deps,
        }
    }

    /// Whether the section sets nothing.
    pub fn is_empty(&self) -> (r: bool)
        ensures
            r == unit_is_empty(self@),
    {
        self.description.is_none() && self.wants.len() == 0 && self.requires.len() == 0
            && self.binds_to.len() == 0 && self.before.len() == 0 && self.after.len() == 0
            && self.dependencies.len() == 0
    }

    /// Set `Description=` unless it is already set.
    pub fn set_description_if_absent(&mut self, description: String)
        ensures
            final(self)@ == (if old(self)@.description is None {
                (UnitView { description: Some(description@), ..old(self)@ })
            } else {
                old(self)@
            }),
    {
        if self.description.is_none() {
            self.description = Some(description);
        }
    }

    /// Add a `Requires=` entry.
    pub fn add_requires(&mut self, value: String)
        ensures
            final(self)@ == (UnitView { requires: old(self)@.requires.push(value@), ..old(self)@ }),
    {
        self.requires.push(value);
        assert(texts(self.requires@) =~= texts(old(self).requires@).push(value@));
    }

    /// Add an `After=` entry.
    pub fn add_after(&mut self, value: String)
        ensures
            final(self)@ == (UnitView { after: old(self)@.after.push(value@), ..old(self)@ }),
    {
        self.after.push(value);
        assert(texts(self.after@) =~= texts(old(self).after@).push(value@));
    }

    /// Add a `Wants=` entry.
    pub fn add_wants(&mut self, value: String)
        ensures
            final(self)@ == (UnitView { wants: old(self)@.wants.push(value@), ..old(self)@ }),
    {
        self.wants.push(value);
        assert(texts(self.wants@) =~= texts(old(self).wants@).push(value@));
    }

    /// Add a `Before=` entry.
    pub fn add_before(&mut self, value: String)
        ensures
            final(self)@ == (UnitView { before: old(self)@.before.push(value@), ..old(self)@ }),
    {
        self.before.push(value);
        assert(texts(self.before@) =~= texts(old(self).before@).push(value@));
    }

    /// Add a `BindsTo=` entry.
    pub fn add_binds_to(&mut self, value: String)
        ensures
            final(self)@ == (UnitView { binds_to: old(self)@.binds_to.push(value@), ..old(self)@ }),
    {
        self.binds_to.push(value);
        assert(texts(self.binds_to@) =~= texts(old(self).binds_to@).push(value@));
    }

    /// Add a dependency on the unit of another compose service.
    pub fn add_dependency(&mut self, dependency: ServiceDependency)
        ensures
            final(self)@ == (UnitView {
                dependencies: old(self)@.dependencies.push(dependency@),
                ..old(self)@
            }),
    {
        self.dependencies.push(dependency);
        assert(dependency_views(self.dependencies@) =~= dependency_views(
            old(self).dependencies@,
        ).push(dependency@));
    }
}

/// The `[Install]` section of a Quadlet file.
pub struct Install {
    pub wanted_by: Vec<String>,
    pub required_by: Vec<String>,
}

/// View of an [`Install`].
pub struct InstallView {
    pub wanted_by: Seq<Seq<char>>,
    pub required_by: Seq<Seq<char>>,
}

impl View for Install {
    type V = InstallView;

    open spec fn view(&self) -> InstallView {
        InstallView { wanted_by: texts(self.wanted_by@), required_by: texts(self.required_by@) }
    }
}

/// The empty `[Install]` section.
pub open spec fn empty_install() -> InstallView {
    InstallView { wanted_by: seq![], required_by: seq![] }
}

impl Default for Install {
    fn default() -> (r: Install)
        ensures
            r@ == empty_install(),
    {
        let r = Install { wanted_by: Vec::new(), required_by: Vec::new() };
        assert(r@.wanted_by =~= seq![]);
        assert(r@.required_by =~= seq![]);
        r
    }
}

impl Install {
    pub fn duplicate(&self) -> (r: Install)
        ensures
            r@ == self@,
    {
        Install {
            wanted_by: clone_strings(&self.wanted_by),
            required_by: clone_strings(&self.required_by),
        }
    }
}

/// The source of a container mount.
pub enum MountSource {
    /// A named volume.
    NamedVolume(String),
    /// A path on the host.
    HostPath(String),
}

/// View of a [`MountSource`].
pub enum MountSourceView {
    NamedVolume(Seq<char>),
    HostPath(Seq<char>),
}

/// A `Volume=` mount of a container or pod.
pub struct Mount {
    pub source: Option<MountSource>,
    pub destination: String,
    pub options: Option<String>,
}

/// View of a [`Mount`].
pub struct MountView {
    pub source: Option<MountSourceView>,
    pub destination: Seq<char>,
    pub options: Option<Seq<char>>,
}

impl View for Mount {
    type V = MountView;

    open spec fn view(&self) -> MountView {
        MountView {
            source: match self.source {
                Some(MountSource::NamedVolume(s)) => Some(MountSourceView::NamedVolume(s@)),
                Some(MountSource::HostPath(s)) => Some(MountSourceView::HostPath(s@)),
                None => None,
            },
            destination: self.destination@,
            options: opt_text(self.options),
        }
    }
}

impl Mount {
    pub fn duplicate(&self) -> (r: Mount)
        ensures
            r@ == self@,
    {
        Mount {
            source: match &self.source {
                Some(MountSource::NamedVolume(s)) => Some(MountSource::NamedVolume(s.clone())),
                Some(MountSource::HostPath(s)) => Some(MountSource::HostPath(s.clone())),
                None => None,
            },
            destination: self.destination.clone(),
            options: clone_opt_string(&self.options),
        }
    }
}

/// The views of a sequence of mounts.
pub open spec fn mount_views(v: Seq<Mount>) -> Seq<MountView> {
    v.map_values(|m: Mount| m@)
}

/// A copy of each mount of a vector.
pub fn clone_mounts(v: &Vec<Mount>) -> (r: Vec<Mount>)
    ensures
        mount_views(r@) == mount_views(v@),
{
    let mut r: Vec<Mount> = Vec::new();
    let mut i: usize = 0;
    while i < v.len()
        invariant
            i <= v.len(),
            r.len() == i,
            forall|j: int| 0 <= j < i ==> (#[trigger] r@[j])@ == v@[j]@,
        decreases v.len() - i,
    {
        r.push(v[i].duplicate());
        i = i + 1;
    }
    assert(mount_views(r@) =~= mount_views(v@));
    r
}

/// The `[Container]` section of a `.container` file.
pub struct Container {
    pub image: String,
    pub container_name: Option<String>,
    pub pod: Option<String>,
    pub publish_port: Vec<String>,
    pub cgroups_mode: Option<String>,
    pub volume: Vec<Mount>,
    /// The other options of the section.
    pub options: Settings,
}

/// View of a [`Container`].
pub struct ContainerView {
    pub image: Seq<char>,
    pub container_name: Option<Seq<char>>,
    pub pod: Option<Seq<char>>,
    pub publish_port: Seq<Seq<char>>,
    pub cgroups_mode: Option<Seq<char>>,
    pub volume: Seq<MountView>,
    pub options: Seq<(Seq<char>, Seq<char>)>,
}

impl View for Container {
    type V = ContainerView;

    open spec fn view(&self) -> ContainerView {
        ContainerView {
            image: self.image@,
            container_name: opt_text(self.container_name),
            pod: opt_text(self.pod),
            publish_port: texts(self.publish_port@),
            cgroups_mode: opt_text(self.cgroups_mode),
            volume: mount_views(self.volume@),
            options: self.options@,
        }
    }
}

impl Container {
    /// A copy of the section.
    pub fn duplicate(&self) -> (r: Container)
        ensures
            r@ == self@,
    {
        Container {
            image: self.image.clone(),
            container_name: clone_opt_string(&self.container_name),
            pod: clone_opt_string(&self.pod),
            publish_port: clone_strings(&self.publish_port),
            cgroups_mode: clone_opt_string(&self.cgroups_mode),
            volume: clone_mounts(&self.volume),
            options: self.options.duplicate(),
        }
    }
}

/// The `[Network]` section of a `.network` file.
pub struct Network {
    pub disable_dns: bool,
    pub internal: bool,
    /// The other options of the section.
    pub options: Settings,
}

/// View of a [`Network`].
pub struct NetworkView {
    pub disable_dns: bool,
    pub internal: bool,
    pub options: Seq<(Seq<char>, Seq<char>)>,
}

impl View for Network {
    type V = NetworkView;

    open spec fn view(&self) -> NetworkView {
        NetworkView { disable_dns: self.disable_dns, internal: self.internal, options: self.options@ }
    }
}

impl Network {
    /// A copy of the section.
    pub fn duplicate(&self) -> (r: Network)
        ensures
            r@ == self@,
    {
        Network { disable_dns: self.disable_dns, internal: self.internal, options: self.options.duplicate() }
    }
}

/// The `[Volume]` section of a `.volume` file.
pub struct Volume {
    /// `VolumeName=`: the name of the Podman volume, when it is not the file's name.
    pub volume_name: Option<String>,
    pub user: Option<String>,
    pub group: Option<String>,
    /// The other options of the section.
    pub options: Settings,
}

/// View of a [`Volume`].
pub struct VolumeView {
    pub volume_name: Option<Seq<char>>,
    pub user: Option<Seq<char>>,
    pub group: Option<Seq<char>>,
    pub options: Seq<(Seq<char>, Seq<char>)>,
}

impl View for Volume {
    type V = VolumeView;

    open spec fn view(&self) -> VolumeView {
        VolumeView {
            volume_name: opt_text(self.volume_name),
            user: opt_text(self.user),
            group: opt_text(self.group),
            options: self.options@,
        }
    }
}

impl Volume {
    /// A copy of the section.
    pub fn duplicate(&self) -> (r: Volume)
        ensures
            r@ == self@,
    {
        Volume {
            volume_name: clone_opt_string(&self.volume_name),
            user: clone_opt_string(&self.user),
            group: clone_opt_string(&self.group),
            options: self.options.duplicate(),
        }
    }
}

/// The `[Build]` section of a `.build` file, by the name of the image it builds.
pub struct Build {
    pub name: String,
    /// The other options of the section.
    pub options: Settings,
}

/// The `[Kube]` section of a `.kube` file, by the path of its Kubernetes YAML file.
pub struct Kube {
    pub yaml: String,
}

/// Network attachment options for a pod.
#[derive(Clone, Copy, PartialEq, Eq, Debug)]
pub struct PodNetworkOptions {
    /// Static IPv4 address for this network attachment.
    pub ip: Option<Ipv4Addr>,
}

/// `DNS=` of a pod.
pub enum Dns {
    /// `none`: no DNS servers.
    Off,
    /// The given DNS servers.
    Custom(Vec<IpAddr>),
}

/// View of a [`Dns`].
pub enum DnsView {
    Off,
    Custom(Seq<IpAddr>),
}

impl View for Dns {
    type V = DnsView;

    open spec fn view(&self) -> DnsView {
        match self {
            Dns::Off => DnsView::Off,
            Dns::Custom(v) => DnsView::Custom(v@),
        }
    }
}

/// The `[Pod]` section of a `.pod` file.
pub struct Pod {
    pub add_host: Vec<String>,
    pub dns: Dns,
    pub dns_option: Vec<String>,
    pub dns_search: Vec<String>,
    pub gid_map: Vec<String>,
    pub ip: Option<Ipv4Addr>,
    pub ip6: Option<Ipv6Addr>,
    pub network: Vec<String>,
    /// Named network attachments with options, written `Network=<name>.network[:ip=<addr>]`.
    pub network_attachments: IndexMap<String, PodNetworkOptions>,
    pub network_alias: Vec<String>,
    pub podman_args: Option<String>,
    pub pod_name: Option<String>,
    pub publish_port: Vec<String>,
    pub sub_gid_map: Option<String>,
    pub sub_uid_map: Option<String>,
    pub uid_map: Vec<String>,
    pub user_ns: Option<String>,
    pub volume: Vec<Mount>,
}

/// View of a [`Pod`].
pub struct PodView {
    pub add_host: Seq<Seq<char>>,
    pub dns: DnsView,
    pub dns_option: Seq<Seq<char>>,
    pub dns_search: Seq<Seq<char>>,
    pub gid_map: Seq<Seq<char>>,
    pub ip: Option<Ipv4Addr>,
    pub ip6: Option<Ipv6Addr>,
    pub network: Seq<Seq<char>>,
    pub network_attachments: Seq<(Seq<char>, PodNetworkOptions)>,
    pub network_alias: Seq<Seq<char>>,
    pub podman_args: Option<Seq<char>>,
    pub pod_name: Option<Seq<char>>,
    pub publish_port: Seq<Seq<char>>,
    pub sub_gid_map: Option<Seq<char>>,
    pub sub_uid_map: Option<Seq<char>>,
    pub uid_map: Seq<Seq<char>>,
    pub user_ns: Option<Seq<char>>,
    pub volume: Seq<MountView>,
}

impl View for Pod {
    type V = PodView;

    open spec fn view(&self) -> PodView {
        PodView {
            add_host: texts(self.add_host@),
            dns: self.dns@,
            dns_option: texts(self.dns_option@),
            dns_search: texts(self.dns_search@),
            gid_map: texts(self.gid_map@),
            ip: self.ip,
            ip6: self.ip6,
            network: texts(self.network@),
            network_attachments: attachment_entries(self.network_attachments),
            network_alias: texts(self.network_alias@),
            podman_args: opt_text(self.podman_args),
            pod_name: opt_text(self.pod_name),
            publish_port: texts(self.publish_port@),
            sub_gid_map: opt_text(self.sub_gid_map),
            sub_uid_map: opt_text(self.sub_uid_map),
            uid_map: texts(self.uid_map@),
            user_ns: opt_text(self.user_ns),
            volume: mount_views(self.volume@),
        }
    }
}

/// A pod that sets nothing.
pub open spec fn empty_pod() -> PodView {
    PodView {
        add_host: seq![],
        dns: DnsView::Custom(seq![]),
        dns_option: seq![],
        dns_search: seq![],
        gid_map: seq![],
        ip: None,
        ip6: None,
        network: seq![],
        network_attachments: seq![],
        network_alias: seq![],
        podman_args: None,
        pod_name: None,
        publish_port: seq![],
        sub_gid_map: None,
        sub_uid_map: None,
        uid_map: seq![],
        user_ns: None,
        volume: seq![],
    }
}

impl Default for Pod {
    fn default() -> (r: Pod)
        ensures
            r@ == empty_pod(),
    {
        let servers: Vec<IpAddr> = Vec::new();
        assert(servers@ =~= seq![]);
        let r = Pod {
            add_host: Vec::new(),
            dns: Dns::Custom(servers),
            dns_option: Vec::new(),
            dns_search: Vec::new(),
            gid_map: Vec::new(),
            ip: None,
            ip6: None,
            network: Vec::new(),
            network_attachments: attachments_new(),
            network_alias: Vec::new(),
            podman_args: None,
            pod_name: None,
            publish_port: Vec::new(),
            sub_gid_map: None,
            sub_uid_map: None,
            uid_map: Vec::new(),
            user_ns: None,
            volume: Vec::new(),
        };
        assert(r@.add_host =~= seq![]);
        assert(r@.dns_option =~= seq![]);
        assert(r@.dns_search =~= seq![]);
        assert(r@.gid_map =~= seq![]);
        assert(r@.network =~= seq![]);
        assert(r@.network_alias =~= seq![]);
        assert(r@.publish_port =~= seq![]);
        assert(r@.uid_map =~= seq![]);
        assert(r@.volume =~= seq![]);
        r
    }
}

impl Pod {
    /// A copy of the pod.
    pub fn duplicate(&self) -> (r: Pod)
        ensures
            r@ == self@,
    {
        let dns = match &self.dns {
            Dns::Off => Dns::Off,
            Dns::Custom(v) => Dns::Custom(v.clone()),
        };
        proof {
            if let Dns::Custom(v) = &self.dns {
                if let Dns::Custom(w) = &dns {
                    assert(w@ =~= v@);
                }
            }
        }
        Pod {
            add_host: clone_strings(&self.add_host),
            dns,
            dns_option: clone_strings(&self.dns_option),
            dns_search: clone_strings(&self.dns_search),
            gid_map: clone_strings(&self.gid_map),
            ip: self.ip,
            ip6: self.ip6,
            network: clone_strings(&self.network),
            network_attachments: attachments_clone(&self.network_attachments),
            network_alias: clone_strings(&self.network_alias),
            podman_args: clone_opt_string(&self.podman_args),
            pod_name: clone_opt_string(&self.pod_name),
            publish_port: clone_strings(&self.publish_port),
            sub_gid_map: clone_opt_string(&self.sub_gid_map),
            sub_uid_map: clone_opt_string(&self.sub_uid_map),
            uid_map: clone_strings(&self.uid_map),
            user_ns: clone_opt_string(&self.user_ns),
            volume: clone_mounts(&self.volume),
        }
    }
}

/// The resource section of a Quadlet file.
pub enum Resource {
    Container(Container),
    Network(Network),
    Volume(Volume),
    Pod(Pod),
    Build(Build),
    Kube(Kube),
}

/// View of a [`Resource`].
pub enum ResourceView {
    Container(ContainerView),
    Network(NetworkView),
    Volume(VolumeView),
    Pod(PodView),
    /// The name of the image built, and the other options.
    Build(Seq<char>, Seq<(Seq<char>, Seq<char>)>),
    Kube(Seq<char>),
}

impl View for Resource {
    type V = ResourceView;

    open spec fn view(&self) -> ResourceView {
        match self {
            Resource::Container(c) => ResourceView::Container(c@),
            Resource::Network(n) => ResourceView::Network(n@),
            Resource::Volume(v) => ResourceView::Volume(v@),
            Resource::Pod(p) => ResourceView::Pod(p@),
            Resource::Build(b) => ResourceView::Build(b.name@, b.options@),
            Resource::Kube(k) => ResourceView::Kube(k.yaml@),
        }
    }
}

/// A Quadlet file: its name (without extension), its `[Unit]` section, its resource section, the
/// global Podman arguments, its `[Quadlet]` and `[Service]` sections, and its `[Install]` section.
pub struct File {
    pub name: String,
    pub unit: Unit,
    pub resource: Resource,
    /// Global Podman arguments (`GlobalArgs=` and the options that become them).
    pub globals: Settings,
    /// The `[Quadlet]` section.
    pub quadlet: Settings,
    /// The `[Service]` section (the restart policy of a service among others).
    pub service: Settings,
    pub install: Install,
}

/// View of a [`File`].
pub struct FileView {
    pub name: Seq<char>,
    pub unit: UnitView,
    pub resource: ResourceView,
    pub globals: Seq<(Seq<char>, Seq<char>)>,
    pub quadlet: Seq<(Seq<char>, Seq<char>)>,
    pub service: Seq<(Seq<char>, Seq<char>)>,
    pub install: InstallView,
}

impl View for File {
    type V = FileView;

    open spec fn view(&self) -> FileView {
        FileView {
            name: self.name@,
            unit: self.unit@,
            resource: self.resource@,
            globals: self.globals@,
            quadlet: self.quadlet@,
            service: self.service@,
            install: self.install@,
        }
    }
}

/// The views of a sequence of files.
pub open spec fn file_views(v: Seq<File>) -> Seq<FileView> {
    v.map_values(|f: File| f@)
}

} // verus!
