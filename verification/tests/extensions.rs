use podlet::extensions::{
    ComposeExtensionHandler, ComposeExtensions, ExtensionContext, ExtensionError,
    NetworkExtensions, PodDefinition, PodNetworkAttachment, ResolvedPod, ServiceExtensions,
    VolumeExtensions, XPodService, XPodmanNetwork, XPodmanOnPod, XPodmanOwnership,
    XPodmanService, XPodmanVolume,
};
use podlet::handlers::{XPodServiceHandler, XPodmanHandler, XPodsHandler, XSystemdHandler};
use podlet::net::Ipv4Addr;
use podlet::quadlet::{
    Settings,Container, File, Install, Network, Pod, Resource, Unit, Volume};
use podlet::registry::ExtensionRegistry;
use podlet::systemd::{Directive, SystemdDirectiveValue, SystemdSection, XSystemdMap};

fn strings(v: &[&str]) -> Vec<String> {
    v.iter().map(|s| (*s).to_owned()).collect()
}

fn empty_context() -> ExtensionContext {
    ExtensionContext::new()
}

fn container_file(name: &str, ports: &[&str]) -> File {
    File {
        name: name.to_owned(),
        unit: Unit::default(),
        resource: Resource::Container(Container {
            image: "img".to_owned(),
            container_name: None,
            pod: None,
            publish_port: strings(ports),
            cgroups_mode: None,
            volume: Vec::new(),
            options: Settings::default(),
        }),
        globals: Settings::default(),
        quadlet: Settings::default(),
        service: Settings::default(),
        install: Install::default(),
    }
}

fn network_file(name: &str) -> File {
    File {
        name: name.to_owned(),
        unit: Unit::default(),
        resource: Resource::Network(Network { disable_dns: false, internal: false, options: Settings::default() }),
        globals: Settings::default(),
        quadlet: Settings::default(),
        service: Settings::default(),
        install: Install::default(),
    }
}

fn volume_file(name: &str) -> File {
    File {
        name: name.to_owned(),
        unit: Unit::default(),
        resource: Resource::Volume(Volume { volume_name: None, user: None, group: None, options: Settings::default() }),
        globals: Settings::default(),
        quadlet: Settings::default(),
        service: Settings::default(),
        install: Install::default(),
    }
}

fn context_with_pod(pod_name: &str, wanted_by: Vec<String>) -> ExtensionContext {
    let mut registry_context = empty_context();
    let mut pod = Pod::default();
    pod.pod_name = Some(pod_name.to_owned());
    registry_context.pods.insert(
        pod_name.to_owned(),
        ResolvedPod { name: pod_name.to_owned(), pod, unit: None, wanted_by },
    );
    registry_context
}

fn x_pod_extensions(pod_name: &str) -> ServiceExtensions {
    ServiceExtensions {
        keys: strings(&["x-pod"]),
        x_pod: Some(Ok(XPodService { name: pod_name.to_owned() })),
        x_podman: None,
    }
}

#[test]
fn x_pod_service_assigns_pod_and_prefixes_name() {
    let handler = XPodServiceHandler;
    let mut context = context_with_pod("mypod", Vec::new());
    let mut file = container_file("myservice", &["8080:80"]);
    let extensions = x_pod_extensions("mypod");

    assert!(handler.handle_service("myservice", &extensions, &mut context, &mut file).is_ok());

    assert_eq!(file.name, "mypod-myservice");
    assert!(matches!(&file.resource, Resource::Container(_)));
    if let Resource::Container(c) = &file.resource {
        assert_eq!(c.pod.as_deref(), Some("mypod.pod"));
        assert!(c.publish_port.is_empty(), "ports should have been moved");
    }
    assert_eq!(
        context.pods.get("mypod").expect("Pod section has named pod").pod.publish_port,
        ["8080:80"]
    );
}

#[test]
fn x_pod_service_propagates_wanted_by() {
    let handler = XPodServiceHandler;
    let mut context = context_with_pod("mypod", strings(&["default.target"]));
    let mut file = container_file("svc", &["8080:80"]);
    let extensions = x_pod_extensions("mypod");

    assert!(handler.handle_service("svc", &extensions, &mut context, &mut file).is_ok());

    assert!(file.install.wanted_by.contains(&"default.target".to_owned()));
}

#[test]
fn x_pod_service_unknown_pod_returns_error() {
    let handler = XPodServiceHandler;
    let mut context = context_with_pod("otherpod", Vec::new());
    let mut file = container_file("svc", &["8080:80"]);
    let extensions = x_pod_extensions("nonexistent");

    let result = handler.handle_service("svc", &extensions, &mut context, &mut file);
    assert!(result.is_err());
    assert!(matches!(
        result,
        Err(ExtensionError::UnknownPod { ref service, ref pod }) if service == "svc" && pod == "nonexistent"
    ));
}

#[test]
fn x_podman_cgroups_sets_cgroups_mode() {
    let handler = XPodmanHandler;
    let mut ctx = empty_context();
    let mut file = container_file("svc", &[]);
    let ext = ServiceExtensions {
        keys: strings(&["x-podman"]),
        x_pod: None,
        x_podman: Some(Ok(XPodmanService { cgroups: Some("enabled".to_owned()) })),
    };
    assert!(handler.handle_service("svc", &ext, &mut ctx, &mut file).is_ok());
    assert!(matches!(&file.resource, Resource::Container(_)));
    if let Resource::Container(c) = &file.resource {
        assert_eq!(c.cgroups_mode.as_deref(), Some("enabled"));
    }
}

#[test]
fn x_podman_disable_dns_sets_disable_dns() {
    let handler = XPodmanHandler;
    let mut ctx = empty_context();
    let mut file = network_file("net");
    let ext = NetworkExtensions {
        keys: strings(&["x-podman"]),
        x_podman: Some(Ok(XPodmanNetwork { disable_dns: Some(true) })),
        x_systemd: None,
    };
    assert!(handler.handle_network("net", &ext, &mut ctx, &mut file).is_ok());
    assert!(matches!(&file.resource, Resource::Network(_)));
    if let Resource::Network(n) = &file.resource {
        assert!(n.disable_dns);
    }
}

fn ownership_extensions(user: Option<u32>, group: Option<u32>) -> VolumeExtensions {
    VolumeExtensions {
        keys: strings(&["x-podman"]),
        x_podman: Some(Ok(XPodmanVolume { ownership: Some(XPodmanOwnership { user, group }) })),
        x_systemd: None,
    }
}

#[test]
fn x_podman_ownership_sets_user_and_group() {
    let handler = XPodmanHandler;
    let mut ctx = empty_context();
    let mut file = volume_file("vol");
    let ext = ownership_extensions(Some(1000), Some(1000));
    assert!(handler.handle_volume("vol", &ext, &mut ctx, &mut file).is_ok());
    assert!(matches!(&file.resource, Resource::Volume(_)));
    if let Resource::Volume(v) = &file.resource {
        assert_eq!(v.user.as_deref(), Some("1000"));
        assert_eq!(v.group.as_deref(), Some("1000"));
    }
}

#[test]
fn x_podman_ownership_missing_group_returns_error() {
    let handler = XPodmanHandler;
    let mut ctx = empty_context();
    let mut file = volume_file("vol");
    let ext = ownership_extensions(Some(1000), None);
    let result = handler.handle_volume("vol", &ext, &mut ctx, &mut file);
    assert!(result.is_err());
}

fn directive(name: &str, values: &[&str]) -> Directive {
    Directive { name: name.to_owned(), value: SystemdDirectiveValue::List(strings(values)) }
}

fn systemd_map(unit: Vec<Directive>, install: Vec<Directive>) -> XSystemdMap {
    let mut sections = Vec::new();
    if !unit.is_empty() {
        sections.push(SystemdSection { name: "Unit".to_owned(), directives: unit });
    }
    if !install.is_empty() {
        sections.push(SystemdSection { name: "Install".to_owned(), directives: install });
    }
    XSystemdMap { sections }
}

fn systemd_network_ext(map: XSystemdMap) -> NetworkExtensions {
    NetworkExtensions { keys: strings(&["x-systemd"]), x_podman: None, x_systemd: Some(Ok(map)) }
}

fn systemd_volume_ext(map: XSystemdMap) -> VolumeExtensions {
    VolumeExtensions { keys: strings(&["x-systemd"]), x_podman: None, x_systemd: Some(Ok(map)) }
}

#[test]
fn x_pods_handler_build_context_full() {
    let definition = PodDefinition {
        networks: vec![(
            "mynet".to_owned(),
            PodNetworkAttachment { ipv4_address: Some(Ipv4Addr { octets: [10, 0, 0, 5] }) },
        )],
        x_podman: Some(XPodmanOnPod { userns: Some("auto:uidmapping=0:1000:1024".to_owned()) }),
        x_systemd: Some(systemd_map(
            vec![directive("Requires", &["local-fs.target"]), directive("After", &["local-fs.target"])],
            vec![directive("WantedBy", &["default.target"])],
        )),
    };
    let compose = ComposeExtensions {
        keys: strings(&["x-pods"]),
        x_pods: Some(Ok(vec![("mypod".to_owned(), definition)])),
    };
    let registry = ExtensionRegistry::default();
    let context = match registry.build_context(&compose) {
        Ok(c) => c,
        Err(_) => panic!("build_context"),
    };

    let pod = context.pods.get("mypod").expect("pod in context");
    assert_eq!(pod.name, "mypod");
    assert_eq!(pod.pod.pod_name.as_deref(), Some("mypod"));
    assert!(pod
        .pod
        .network_attachments
        .get("mynet")
        .is_some_and(|opts| opts.ip == Some(Ipv4Addr { octets: [10, 0, 0, 5] })));
    assert_eq!(pod.pod.user_ns.as_deref(), Some("auto:uidmapping=0:1000:1024"));
    assert!(pod.unit.is_some());
    assert_eq!(pod.wanted_by, ["default.target"]);
}

#[test]
fn x_pods_handler_compose_files_generates_pod_quadlet() {
    let definition = PodDefinition {
        networks: Vec::new(),
        x_podman: None,
        x_systemd: Some(systemd_map(Vec::new(), vec![directive("WantedBy", &["multi-user.target"])])),
    };
    let compose = ComposeExtensions {
        keys: strings(&["x-pods"]),
        x_pods: Some(Ok(vec![("testpod".to_owned(), definition)])),
    };
    let registry = ExtensionRegistry::default();
    let context = match registry.build_context(&compose) {
        Ok(c) => c,
        Err(_) => panic!("build_context"),
    };
    let files = match registry.compose_files(&context, None) {
        Ok(f) => f,
        Err(_) => panic!("compose_files"),
    };
    assert_eq!(files.len(), 1);
    let file = files.first().expect("Missing compose_files in registry");
    assert_eq!(file.name, "testpod");
    assert!(matches!(file.resource, Resource::Pod(_)));
    assert!(file.install.wanted_by.contains(&"multi-user.target".to_owned()));
}

#[test]
fn x_systemd_network_adds_requires_and_after() {
    let handler = XSystemdHandler;
    let mut ctx = empty_context();
    let mut file = network_file("net");
    let ext = systemd_network_ext(systemd_map(
        vec![directive("Requires", &["openvswitch.service"]), directive("After", &["openvswitch.service"])],
        Vec::new(),
    ));
    assert!(handler.handle_network("net", &ext, &mut ctx, &mut file).is_ok());
    assert_eq!(file.unit.requires, ["openvswitch.service"]);
    assert_eq!(file.unit.after, ["openvswitch.service"]);
}

#[test]
fn x_systemd_volume_adds_requires_and_after() {
    let handler = XSystemdHandler;
    let mut ctx = empty_context();
    let mut file = volume_file("vol");
    let ext = systemd_volume_ext(systemd_map(
        vec![directive("Requires", &["local-fs.target"]), directive("After", &["local-fs.target"])],
        Vec::new(),
    ));
    assert!(handler.handle_volume("vol", &ext, &mut ctx, &mut file).is_ok());
    assert_eq!(file.unit.requires, ["local-fs.target"]);
    assert_eq!(file.unit.after, ["local-fs.target"]);
}

#[test]
fn x_systemd_creates_unit_section_when_absent() {
    let handler = XSystemdHandler;
    let mut ctx = empty_context();
    let mut file = network_file("net");
    assert!(file.unit.is_empty(), "unit should start empty");
    let ext = systemd_network_ext(systemd_map(vec![directive("Requires", &["something.service"])], Vec::new()));
    assert!(handler.handle_network("net", &ext, &mut ctx, &mut file).is_ok());
    assert!(!file.unit.is_empty(), "unit section should have been populated");
}

#[test]
fn x_systemd_install_section_sets_wanted_by() {
    let handler = XSystemdHandler;
    let mut ctx = empty_context();
    let mut file = network_file("net");
    let ext = systemd_network_ext(systemd_map(Vec::new(), vec![directive("WantedBy", &["multi-user.target"])]));
    assert!(handler.handle_network("net", &ext, &mut ctx, &mut file).is_ok());
    assert!(
        file.install.wanted_by.contains(&"multi-user.target".to_owned()),
        "install section should contain WantedBy"
    );
}

#[test]
fn x_systemd_sequence_values_each_pushed() {
    let handler = XSystemdHandler;
    let mut ctx = empty_context();
    let mut file = volume_file("vol");
    let ext = systemd_volume_ext(systemd_map(
        vec![
            directive("Requires", &["local-fs.target", "other-network.service"]),
            directive("After", &["local-fs.target", "other-network.service"]),
        ],
        Vec::new(),
    ));
    assert!(handler.handle_volume("vol", &ext, &mut ctx, &mut file).is_ok());
    assert_eq!(file.unit.requires, ["local-fs.target", "other-network.service"]);
    assert_eq!(file.unit.after, ["local-fs.target", "other-network.service"]);
}

#[test]
fn warn_unknown_emits_warning_for_unrecognized_key() {
    let registry = ExtensionRegistry::default();
    let keys = strings(&["x-totally-unknown"]);
    assert_eq!(registry.warn_unknown(&keys), ["x-totally-unknown"]);
}

#[test]
fn registry_handlers_called_in_order() {
    // `x-pod` runs before `x-podman`: when both fail, the error is that of `x-pod`.
    let registry = ExtensionRegistry::default();
    let mut context = empty_context();
    let mut file = container_file("svc", &[]);
    let failing = ServiceExtensions {
        keys: strings(&["x-pod", "x-podman"]),
        x_pod: Some(Ok(XPodService { name: "missing".to_owned() })),
        x_podman: Some(Err("bad value".to_owned())),
    };
    let result = registry.apply_service("svc", &failing, &mut context, &mut file);
    assert!(matches!(result, Err(ExtensionError::UnknownPod { ref pod, .. }) if pod == "missing"));

    // Both apply when both succeed.
    let mut context = context_with_pod("p", Vec::new());
    let mut file = container_file("svc", &[]);
    let both = ServiceExtensions {
        keys: strings(&["x-podman", "x-pod"]),
        x_pod: Some(Ok(XPodService { name: "p".to_owned() })),
        x_podman: Some(Ok(XPodmanService { cgroups: Some("enabled".to_owned()) })),
    };
    assert!(registry.apply_service("svc", &both, &mut context, &mut file).is_ok());
    assert_eq!(file.name, "p-svc");
    assert!(matches!(&file.resource, Resource::Container(c)
        if c.pod.as_deref() == Some("p.pod") && c.cgroups_mode.as_deref() == Some("enabled")));
}

#[test]
fn x_podman_without_cgroups_keeps_cgroups_mode() {
    let handler = XPodmanHandler;
    let mut ctx = empty_context();
    let mut file = container_file("svc", &[]);
    if let Resource::Container(c) = &mut file.resource {
        c.cgroups_mode = Some("split".to_owned());
    }
    let ext = ServiceExtensions {
        keys: strings(&["x-podman"]),
        x_pod: None,
        x_podman: Some(Ok(XPodmanService { cgroups: None })),
    };
    assert!(handler.handle_service("svc", &ext, &mut ctx, &mut file).is_ok());
    assert!(matches!(&file.resource, Resource::Container(c) if c.cgroups_mode.as_deref() == Some("split")));
}

#[test]
fn x_pod_wanted_by_replaces_given_targets() {
    let handler = XPodServiceHandler;
    let mut context = context_with_pod("P", strings(&["default.target"]));
    let mut file = container_file("svc", &[]);
    file.install.wanted_by = strings(&["multi-user.target"]);
    let extensions = x_pod_extensions("P");
    assert!(handler.handle_service("svc", &extensions, &mut context, &mut file).is_ok());
    assert_eq!(file.install.wanted_by, ["default.target"]);
}

#[test]
fn install_directives_applied_twice_add_nothing_more() {
    let handler = XSystemdHandler;
    let mut ctx = empty_context();
    let mut file = network_file("net");
    let ext = systemd_network_ext(systemd_map(
        Vec::new(),
        vec![
            directive("WantedBy", &["multi-user.target", "default.target"]),
            directive("RequiredBy", &["a.service"]),
            directive("WantedBy", &["default.target"]),
        ],
    ));
    assert!(handler.handle_network("net", &ext, &mut ctx, &mut file).is_ok());
    assert_eq!(file.install.wanted_by, ["multi-user.target", "default.target"]);
    assert_eq!(file.install.required_by, ["a.service"]);
    assert!(handler.handle_network("net", &ext, &mut ctx, &mut file).is_ok());
    assert_eq!(file.install.wanted_by, ["multi-user.target", "default.target"]);
    assert_eq!(file.install.required_by, ["a.service"]);
}

#[test]
fn context_without_x_pods_or_with_it_disabled_holds_no_pod() {
    let definition = PodDefinition { networks: Vec::new(), x_podman: None, x_systemd: None };
    let compose = ComposeExtensions {
        keys: strings(&["x-pods"]),
        x_pods: Some(Ok(vec![("p".to_owned(), definition)])),
    };
    let registry = ExtensionRegistry::new(strings(&["x-pods"]));
    let context = match registry.build_context(&compose) {
        Ok(c) => c,
        Err(_) => panic!("build_context"),
    };
    assert!(context.pods.is_empty());
    let registry = ExtensionRegistry::default();
    let none = ComposeExtensions { keys: strings(&["x-other"]), x_pods: None };
    let context = match registry.build_context(&none) {
        Ok(c) => c,
        Err(_) => panic!("build_context"),
    };
    assert!(context.pods.is_empty());
}
