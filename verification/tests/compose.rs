use podlet::compose::{
    Command, CommandError, Compose, ComposeDocument, ComposeError, GenericSections, K8sFile,
    NetworkSource, OutputFile, ServiceSource, VolumeDefinition, VolumeSource, Warning,
    command_try_into_vec, make_description,
};
use podlet::extensions::{
    ComposeExtensions, NetworkExtensions, PodDefinition, ServiceExtensions, VolumeExtensions,
    XPodService, XPodmanService, XPodmanVolume, XPodmanOwnership,
};
use podlet::quadlet::{
    Settings,
    Build, Container, File, Install, Mount, MountSource, Network, Resource, Unit, Volume,
};

fn strings(v: &[&str]) -> Vec<String> {
    v.iter().map(|s| (*s).to_owned()).collect()
}

fn no_service_extensions() -> ServiceExtensions {
    ServiceExtensions { keys: Vec::new(), x_pod: None, x_podman: None }
}

fn no_network_extensions() -> NetworkExtensions {
    NetworkExtensions { keys: Vec::new(), x_podman: None, x_systemd: None }
}

fn no_compose_extensions() -> ComposeExtensions {
    ComposeExtensions { keys: Vec::new(), x_pods: None }
}

fn container(image: &str, ports: &[&str], volume: Vec<Mount>) -> Container {
    Container {
        image: image.to_owned(),
        container_name: None,
        pod: None,
        publish_port: strings(ports),
        cgroups_mode: None,
        volume,
        options: Settings::default(),
    }
}

fn service(name: &str, image: &str, extensions: ServiceExtensions) -> ServiceSource {
    ServiceSource {
        name: name.to_owned(),
        has_image: true,
        build: None,
        depends_on: Vec::new(),
        container: Ok(container(image, &[], Vec::new())),
        globals: Settings::default(),
        service: Settings::default(),
        extensions,
    }
}

fn network(name: &str) -> NetworkSource {
    NetworkSource {
        name: name.to_owned(),
        external: false,
        network: Ok(Network { disable_dns: false, internal: false, options: Settings::default() }),
        extensions: no_network_extensions(),
    }
}

fn document(name: Option<&str>, services: Vec<ServiceSource>, networks: Vec<NetworkSource>) -> ComposeDocument {
    ComposeDocument {
        name: name.map(str::to_owned),
        has_include: false,
        has_configs: false,
        secrets_external: true,
        services,
        networks,
        volumes: Vec::new(),
        extensions: no_compose_extensions(),
        kubernetes: None,
    }
}

fn sections() -> GenericSections {
    GenericSections { unit: Unit::default(), quadlet: Settings::default(), install: Install::default() }
}

fn options(pod: bool, disable: &[&str]) -> Compose {
    Compose { pod, kube: false, disable_extension: strings(disable), compose_file: None }
}

fn quadlet_files(files: Vec<OutputFile>) -> Vec<File> {
    files
        .into_iter()
        .filter_map(|f| match f {
            OutputFile::Quadlet(q) => Some(q),
            OutputFile::K8s(_) => None,
        })
        .collect()
}

fn convert(compose: Compose, doc: ComposeDocument) -> (Result<Vec<File>, ComposeError>, Vec<Warning>) {
    let mut warnings = Vec::new();
    let res = compose.try_into_files(doc, sections(), &mut warnings).map(quadlet_files);
    (res, warnings)
}

fn find<'a>(files: &'a [File], name: &str) -> Option<&'a File> {
    files.iter().find(|f| f.name == name)
}

#[test]
fn compose_no_extensions_unchanged() {
    let doc = document(None, vec![service("web", "nginx:latest", no_service_extensions())], vec![network("default")]);
    let (res, warnings) = convert(options(false, &[]), doc);
    let files = res.ok().expect("conversion");
    assert!(find(&files, "web").is_some(), "web container missing");
    let web = find(&files, "web").expect("Missing web service definition");
    assert!(matches!(&web.resource, Resource::Container(c) if c.image == "nginx:latest"));
    assert!(warnings.is_empty());
}

#[test]
fn compose_disable_extension_x_podman() {
    let ext = ServiceExtensions {
        keys: strings(&["x-podman"]),
        x_pod: None,
        x_podman: Some(Ok(XPodmanService { cgroups: Some("enabled".to_owned()) })),
    };
    let doc = document(None, vec![service("app", "myapp:latest", ext)], Vec::new());
    let (res, warnings) = convert(options(false, &["x-podman"]), doc);
    let files = res.ok().expect("conversion");
    assert!(find(&files, "app").is_some(), "app container missing");
    let app = find(&files, "app").expect("Missing app service definition");
    assert!(matches!(&app.resource, Resource::Container(c) if c.cgroups_mode.is_none()));
    // A disabled key is known: no warning.
    assert!(warnings.is_empty());
}

#[test]
fn compose_project_name_auto_populates_description() {
    let doc = document(
        Some("myapp"),
        vec![service("web", "nginx:latest", no_service_extensions())],
        vec![network("frontend")],
    );
    let (res, _) = convert(options(false, &[]), doc);
    let files = res.ok().expect("conversion");
    let web = find(&files, "web").expect("web container missing");
    assert_eq!(web.unit.description.as_deref(), Some("container for pod myapp"));
    let network = find(&files, "frontend").expect("frontend network missing");
    assert_eq!(network.unit.description.as_deref(), Some("network for pod myapp"));
}

#[test]
fn compose_no_project_name_no_description() {
    let doc = document(None, vec![service("web", "nginx:latest", no_service_extensions())], Vec::new());
    let (res, _) = convert(options(false, &[]), doc);
    let files = res.ok().expect("conversion");
    let web = find(&files, "web").expect("web container missing");
    assert!(web.unit.description.is_none(), "unexpected Description= when no compose name");
}

#[test]
fn explicit_description_is_not_overridden() {
    let doc = document(
        Some("myapp"),
        vec![service("web", "nginx:latest", no_service_extensions())],
        vec![network("frontend")],
    );
    let mut unit = Unit::default();
    unit.description = Some("My custom description".to_owned());
    let given = GenericSections { unit, quadlet: Settings::default(), install: Install::default() };
    let mut warnings = Vec::new();
    let files = quadlet_files(
        options(false, &[]).try_into_files(doc, given, &mut warnings).ok().expect("conversion"),
    );
    for name in ["web", "frontend"] {
        let file = find(&files, name).expect("file");
        assert_eq!(file.unit.description.as_deref(), Some("My custom description"));
    }
}

#[test]
fn pod_mode_collects_ports_of_all_containers_in_order() {
    let mut web = service("web", "nginx:latest", no_service_extensions());
    web.container = Ok(container("nginx:latest", &["8080:80", "8443:443"], Vec::new()));
    let mut db = service("db", "postgres:16", no_service_extensions());
    db.container = Ok(container("postgres:16", &["5432:5432"], Vec::new()));
    let doc = document(Some("shop"), vec![web, db], vec![network("backend")]);
    let (res, _) = convert(options(true, &[]), doc);
    let files = res.ok().expect("conversion");
    for name in ["shop-web", "shop-db"] {
        let member = find(&files, name).expect("pod member");
        assert!(matches!(&member.resource, Resource::Container(c)
            if c.pod.as_deref() == Some("shop.pod") && c.publish_port.is_empty()));
        assert_eq!(member.unit.description.as_deref(), Some("container for pod shop"));
    }
    let pod = find(&files, "shop").expect("pod file");
    assert!(matches!(&pod.resource, Resource::Pod(p)
        if p.publish_port == ["8080:80", "8443:443", "5432:5432"]));
    assert_eq!(files.iter().map(|f| f.name.as_str()).collect::<Vec<_>>(), ["shop-web", "shop-db", "backend", "shop"]);
}

#[test]
fn make_description_formats_entity_and_project() {
    assert_eq!(make_description("volume", "myapp"), "volume for pod myapp");
}

#[test]
fn pod_mode_prefixes_names_and_collects_ports() {
    let mut web = service("web", "nginx:latest", no_service_extensions());
    web.container = Ok(container("nginx:latest", &["8080:80"], Vec::new()));
    let doc = document(Some("myapp"), vec![web], Vec::new());
    let (res, _) = convert(options(true, &[]), doc);
    let files = res.ok().expect("conversion");
    let web = find(&files, "myapp-web").expect("pod member");
    assert!(matches!(&web.resource, Resource::Container(c)
        if c.pod.as_deref() == Some("myapp.pod") && c.publish_port.is_empty()));
    let pod = find(&files, "myapp").expect("pod file");
    assert!(matches!(&pod.resource, Resource::Pod(p) if p.publish_port == ["8080:80"]));
}

#[test]
fn pod_mode_needs_a_name() {
    let doc = document(None, vec![service("web", "nginx:latest", no_service_extensions())], Vec::new());
    let (res, _) = convert(options(true, &[]), doc);
    assert!(matches!(res, Err(ComposeError::NameRequired)));
}

#[test]
fn pod_mode_refuses_x_pods() {
    let mut doc = document(Some("myapp"), Vec::new(), Vec::new());
    doc.extensions = ComposeExtensions { keys: strings(&["x-pods"]), x_pods: Some(Ok(Vec::new())) };
    let (res, warnings) = convert(options(true, &[]), doc);
    assert!(matches!(res, Err(ComposeError::PodAndXPods)));
    assert!(warnings.is_empty());
}

#[test]
fn include_configs_and_secrets_are_refused() {
    let mut doc = document(None, Vec::new(), Vec::new());
    doc.has_include = true;
    assert!(matches!(convert(options(false, &[]), doc).0, Err(ComposeError::Include)));
    let mut doc = document(None, Vec::new(), Vec::new());
    doc.has_configs = true;
    assert!(matches!(convert(options(false, &[]), doc).0, Err(ComposeError::Configs)));
    let mut doc = document(None, Vec::new(), Vec::new());
    doc.secrets_external = false;
    assert!(matches!(convert(options(false, &[]), doc).0, Err(ComposeError::Secrets)));
}

#[test]
fn image_and_build_together_are_refused() {
    let mut web = service("web", "nginx:latest", no_service_extensions());
    web.build = Some(Ok(Build { name: "web-image".to_owned(), options: Settings::default() }));
    let doc = document(None, vec![web], Vec::new());
    let (res, _) = convert(options(false, &[]), doc);
    assert!(matches!(res, Err(ComposeError::ImageAndBuild { ref service }) if service == "web"));
}

#[test]
fn build_gives_build_file_after_container() {
    let mut web = service("web", "ignored", no_service_extensions());
    web.has_image = false;
    web.build = Some(Ok(Build { name: "web-image".to_owned(), options: Settings::default() }));
    let doc = document(None, vec![web], Vec::new());
    let (res, _) = convert(options(false, &[]), doc);
    let files = res.ok().expect("conversion");
    assert_eq!(files.len(), 2);
    assert_eq!(files[0].name, "web");
    assert!(matches!(&files[0].resource, Resource::Container(c) if c.image == "web-image.build"));
    assert_eq!(files[1].name, "web-image");
    assert!(matches!(&files[1].resource, Resource::Build(b) if b.name == "web-image"));
}

#[test]
fn external_network_is_refused() {
    let mut net = network("outside");
    net.external = true;
    let doc = document(None, Vec::new(), vec![net]);
    let (res, _) = convert(options(false, &[]), doc);
    assert!(matches!(res, Err(ComposeError::ExternalNetwork { ref network }) if network == "outside"));
}

#[test]
fn volumes_with_options_get_files_and_links() {
    let mount = Mount {
        source: Some(MountSource::NamedVolume("data".to_owned())),
        destination: "/data".to_owned(),
        options: None,
    };
    let mut app = service("app", "myapp:latest", no_service_extensions());
    app.container = Ok(container("myapp:latest", &[], vec![mount]));
    let mut doc = document(None, vec![app], Vec::new());
    doc.volumes = vec![
        VolumeSource {
            name: "data".to_owned(),
            definition: VolumeDefinition::Compose {
                has_options: true,
                volume: Ok(Volume { volume_name: None, user: None, group: None, options: Settings::default() }),
                extensions: VolumeExtensions { keys: Vec::new(), x_podman: None, x_systemd: None },
            },
        },
        VolumeSource { name: "plain".to_owned(), definition: VolumeDefinition::Empty },
    ];
    let (res, _) = convert(options(false, &[]), doc);
    let files = res.ok().expect("conversion");
    let app = find(&files, "app").expect("app container missing");
    assert!(matches!(&app.resource, Resource::Container(c)
        if matches!(&c.volume[0].source, Some(MountSource::NamedVolume(s)) if s == "data.volume")));
    assert!(find(&files, "data").is_some(), "data volume file missing");
    assert!(find(&files, "plain").is_none());
}

#[test]
fn compose_volume_name_uses_compose_key_as_file_and_volume_name_in_quadlet() {
    // volumes: data: { name: app-persistent-data, driver: local }, mounted by `app` at /data.
    let mount = Mount {
        source: Some(MountSource::NamedVolume("data".to_owned())),
        destination: "/data".to_owned(),
        options: None,
    };
    let mut app = service("app", "myapp:latest", no_service_extensions());
    app.container = Ok(container("myapp:latest", &[], vec![mount]));
    let mut doc = document(None, vec![app], Vec::new());
    doc.volumes = vec![VolumeSource {
        name: "data".to_owned(),
        definition: VolumeDefinition::Compose {
            has_options: true,
            volume: Ok(Volume {
                volume_name: Some("app-persistent-data".to_owned()),
                user: None,
                group: None,
                options: Settings::default(),
            }),
            extensions: VolumeExtensions { keys: Vec::new(), x_podman: None, x_systemd: None },
        },
    }];
    let (res, _) = convert(options(false, &[]), doc);
    let files = res.ok().expect("conversion");
    // The container still references the volume by its compose key.
    let app = find(&files, "app").expect("app container missing");
    assert!(
        matches!(&app.resource, Resource::Container(c)
            if matches!(&c.volume[0].source, Some(MountSource::NamedVolume(s)) if s == "data.volume")
                && c.volume[0].destination == "/data"),
        "container should reference volume by compose key"
    );
    // The volume file is named by the key and keeps the custom name.
    let volume = find(&files, "data").expect("data volume file missing");
    assert!(
        matches!(&volume.resource, Resource::Volume(v)
            if v.volume_name.as_deref() == Some("app-persistent-data")),
        "volume file should have VolumeName="
    );
}

#[test]
fn volume_with_only_extensions_gets_a_file() {
    let mut doc = document(None, Vec::new(), Vec::new());
    doc.volumes = vec![VolumeSource {
        name: "vol".to_owned(),
        definition: VolumeDefinition::Compose {
            has_options: false,
            volume: Ok(Volume { volume_name: None, user: None, group: None, options: Settings::default() }),
            extensions: VolumeExtensions {
                keys: strings(&["x-podman"]),
                x_podman: Some(Ok(XPodmanVolume {
                    ownership: Some(XPodmanOwnership { user: Some(506120), group: Some(506120) }),
                })),
                x_systemd: None,
            },
        },
    }];
    let (res, _) = convert(options(false, &[]), doc);
    let files = res.ok().expect("conversion");
    let vol = find(&files, "vol").expect("volume file");
    assert!(matches!(&vol.resource, Resource::Volume(v)
        if v.user.as_deref() == Some("506120") && v.group.as_deref() == Some("506120")));
}

#[test]
fn volume_ownership_keeps_the_volume_name() {
    let mut doc = document(None, Vec::new(), Vec::new());
    doc.volumes = vec![VolumeSource {
        name: "data".to_owned(),
        definition: VolumeDefinition::Compose {
            has_options: true,
            volume: Ok(Volume { volume_name: Some("shared".to_owned()), user: None, group: None, options: Settings::default() }),
            extensions: VolumeExtensions {
                keys: strings(&["x-podman"]),
                x_podman: Some(Ok(XPodmanVolume {
                    ownership: Some(XPodmanOwnership { user: Some(1000), group: Some(100) }),
                })),
                x_systemd: None,
            },
        },
    }];
    let (res, _) = convert(options(false, &[]), doc);
    let files = res.ok().expect("conversion");
    let vol = find(&files, "data").expect("volume file");
    assert!(matches!(&vol.resource, Resource::Volume(v)
        if v.volume_name.as_deref() == Some("shared")
            && v.user.as_deref() == Some("1000")
            && v.group.as_deref() == Some("100")));
}

#[test]
fn unknown_extensions_are_warned_about() {
    let ext = ServiceExtensions { keys: strings(&["x-unknown"]), x_pod: None, x_podman: None };
    let mut doc = document(None, vec![service("web", "nginx:latest", ext)], Vec::new());
    doc.extensions = ComposeExtensions { keys: strings(&["x-top"]), x_pods: None };
    let (res, warnings) = convert(options(false, &[]), doc);
    assert!(res.is_ok());
    assert_eq!(warnings.len(), 2);
    assert!(matches!(&warnings[0], Warning::UnknownExtension { key, .. } if key == "x-top"));
    assert!(matches!(&warnings[1], Warning::UnknownExtension { key, .. } if key == "x-unknown"));
}

#[test]
fn x_pods_services_join_pods_and_pod_files_follow() {
    let definition = PodDefinition { networks: Vec::new(), x_podman: None, x_systemd: None };
    let ext = ServiceExtensions {
        keys: strings(&["x-pod"]),
        x_pod: Some(Ok(XPodService { name: "observability".to_owned() })),
        x_podman: None,
    };
    let mut grafana = service("grafana", "grafana/grafana:12.2", ext);
    grafana.container = Ok(container("grafana/grafana:12.2", &["3000:3000"], Vec::new()));
    let mut doc = document(None, vec![grafana], Vec::new());
    doc.extensions = ComposeExtensions {
        keys: strings(&["x-pods"]),
        x_pods: Some(Ok(vec![("observability".to_owned(), definition)])),
    };
    let (res, warnings) = convert(options(false, &[]), doc);
    let files = res.ok().expect("conversion");
    assert!(warnings.is_empty());
    assert_eq!(files.len(), 2);
    assert_eq!(files[0].name, "observability-grafana");
    assert!(matches!(&files[0].resource, Resource::Container(c) if c.pod.as_deref() == Some("observability.pod")));
    assert_eq!(files[1].name, "observability");
    assert!(matches!(&files[1].resource, Resource::Pod(p)
        if p.pod_name.as_deref() == Some("observability") && p.publish_port == ["3000:3000"]));
}

#[test]
fn kube_files_run_the_kubernetes_yaml() {
    let k8s = K8sFile { name: "myapp".to_owned(), content: "kind: Pod".to_owned() };
    let files = Compose::kube_files(k8s, sections());
    assert_eq!(files.len(), 2);
    assert!(matches!(&files[0], OutputFile::Quadlet(f)
        if f.name == "myapp" && matches!(&f.resource, Resource::Kube(k) if k.yaml == "myapp-kube.yaml")));
    assert!(matches!(&files[1], OutputFile::K8s(k) if k.name == "myapp-kube"));
}

#[test]
fn command_string_is_split_like_a_shell() {
    let words = command_try_into_vec(Command::String("echo 'hello world' \"a b\"".to_owned()));
    assert_eq!(words.ok(), Some(strings(&["echo", "hello world", "a b"])));
    let list = command_try_into_vec(Command::List(strings(&["a b", "c"])));
    assert_eq!(list.ok(), Some(strings(&["a b", "c"])));
}

#[test]
fn command_with_open_quote_is_refused() {
    let res = command_try_into_vec(Command::String("echo 'oops".to_owned()));
    assert!(matches!(res, Err(CommandError::Invalid { ref command }) if command == "echo 'oops"));
}

#[test]
fn x_pods_pod_without_members_is_warned_about() {
    let mut web = service("web", "nginx:latest", ServiceExtensions {
        keys: strings(&["x-pod"]),
        x_pod: Some(Ok(XPodService { name: "used".to_owned() })),
        x_podman: None,
    });
    web.container = Ok(container("nginx:latest", &[], Vec::new()));
    let mut doc = document(None, vec![web], Vec::new());
    let definition = || PodDefinition { networks: Vec::new(), x_podman: None, x_systemd: None };
    doc.extensions = ComposeExtensions {
        keys: strings(&["x-pods"]),
        x_pods: Some(Ok(vec![
            ("my-pod".to_owned(), definition()),
            ("used".to_owned(), definition()),
        ])),
    };
    let (res, warnings) = convert(options(false, &[]), doc);
    let files = res.ok().expect("conversion");
    assert!(find(&files, "my-pod").is_some_and(|f| matches!(f.resource, Resource::Pod(_))));
    assert!(find(&files, "used-web").is_some());
    assert_eq!(warnings.len(), 1);
    assert!(matches!(&warnings[0], Warning::EmptyPod { pod } if pod == "my-pod"));
}

#[test]
fn quadlet_globals_and_service_sections_are_carried() {
    let entry = |k: &str, v: &str| (k.to_owned(), v.to_owned());
    let mut web = service("web", "nginx:latest", no_service_extensions());
    web.globals = Settings { entries: vec![entry("GlobalArgs", "--log-level=debug")] };
    web.service = Settings { entries: vec![entry("Restart", "always")] };
    let doc = document(None, vec![web], vec![network("frontend")]);
    let given = GenericSections {
        unit: Unit::default(),
        quadlet: Settings { entries: vec![entry("DefaultDependencies", "false")] },
        install: Install::default(),
    };
    let mut warnings = Vec::new();
    let files = quadlet_files(
        options(false, &[]).try_into_files(doc, given, &mut warnings).ok().expect("conversion"),
    );
    let web = find(&files, "web").expect("web");
    assert_eq!(web.quadlet.entries, [entry("DefaultDependencies", "false")]);
    assert_eq!(web.globals.entries, [entry("GlobalArgs", "--log-level=debug")]);
    assert_eq!(web.service.entries, [entry("Restart", "always")]);
    let net = find(&files, "frontend").expect("frontend");
    assert_eq!(net.quadlet.entries, [entry("DefaultDependencies", "false")]);
    assert!(net.globals.entries.is_empty() && net.service.entries.is_empty());
}

#[test]
fn kube_without_kubernetes_file_is_an_error() {
    let doc = document(Some("app"), Vec::new(), Vec::new());
    let compose = Compose { pod: false, kube: true, disable_extension: Vec::new(), compose_file: None };
    let mut warnings = Vec::new();
    let res = compose.try_into_files(doc, sections(), &mut warnings);
    assert!(matches!(res, Err(ComposeError::Kubernetes { ref message }) if message.is_empty()));
}
