use podlet::net::{IpAddr, Ipv4Addr, Ipv6Addr};
use podlet::pod::{DowngradeError, PodmanVersion, ResourceKind};
use podlet::quadlet::{Dns, Mount, MountSource, Pod, PodNetworkOptions};

#[test]
fn pod_network_attachments_serializes_with_ip() {
    let mut pod = Pod::default();
    pod.network_attachments.insert(
        "obs".to_owned(),
        PodNetworkOptions { ip: Some(Ipv4Addr { octets: [10, 0, 0, 1] }) },
    );
    let output = pod.network_attachment_lines();
    assert!(output.contains(&"obs.network:ip=10.0.0.1".to_owned()), "{output:?}");
}

#[test]
fn pod_network_attachments_serializes_without_ip() {
    let mut pod = Pod::default();
    pod.network_attachments.insert("obs".to_owned(), PodNetworkOptions { ip: None });
    let output = pod.network_attachment_lines();
    assert!(output.contains(&"obs.network".to_owned()), "{output:?}");
    assert!(!output.iter().any(|l| l.contains(":ip=")), "{output:?}");
}

#[test]
fn push_arg_separates_and_quotes() {
    let mut pod = Pod::default();
    pod.push_arg("dns", "none");
    assert_eq!(pod.podman_args.as_deref(), Some("--dns none"));
    pod.push_arg("add-host", "a b");
    assert_eq!(pod.podman_args.as_deref(), Some("--dns none --add-host \"a b\""));
}

#[test]
fn downgrade_before_v5_3_moves_options_into_podman_args() {
    let mut pod = Pod::default();
    pod.add_host = vec!["host:1.2.3.4".to_owned()];
    pod.dns = Dns::Custom(vec![
        IpAddr::V4(Ipv4Addr { octets: [1, 1, 1, 1] }),
        IpAddr::V6(Ipv6Addr { segments: [0, 0, 0, 0, 0, 0, 0, 1] }),
    ]);
    pod.ip = Some(Ipv4Addr { octets: [10, 0, 0, 2] });
    pod.user_ns = Some("auto".to_owned());
    pod.network_alias = vec!["alias".to_owned()];
    assert!(pod.downgrade(PodmanVersion::V5_0).is_ok());
    assert!(pod.add_host.is_empty());
    assert!(pod.ip.is_none());
    assert!(pod.user_ns.is_none());
    assert!(pod.network_alias.is_empty());
    assert_eq!(
        pod.podman_args.as_deref(),
        Some("--add-host host:1.2.3.4 --dns 1.1.1.1 --dns ::1 --ip 10.0.0.2 --userns auto --network-alias alias")
    );
}

#[test]
fn downgrade_dns_none() {
    let mut pod = Pod::default();
    pod.dns = Dns::Off;
    pod.remove_v5_3_options();
    assert_eq!(pod.podman_args.as_deref(), Some("--dns none"));
}

#[test]
fn downgrade_recent_version_keeps_pod() {
    let mut pod = Pod::default();
    pod.user_ns = Some("auto".to_owned());
    pod.network_alias = vec!["alias".to_owned()];
    assert!(pod.downgrade(PodmanVersion::V5_3).is_ok());
    assert_eq!(pod.user_ns.as_deref(), Some("auto"));
    assert_eq!(pod.network_alias, ["alias"]);
    assert!(pod.podman_args.is_none());
}

#[test]
fn downgrade_before_v5_0_is_refused() {
    let mut pod = Pod::default();
    let result = pod.downgrade(PodmanVersion::V4_8);
    assert!(matches!(
        result,
        Err(DowngradeError::Kind { kind: ResourceKind::Pod, supported_version: PodmanVersion::V5_0 })
    ));
}

#[test]
fn host_paths_are_the_host_path_sources_in_order() {
    let mount = |source: Option<MountSource>, destination: &str| Mount {
        source,
        destination: destination.to_owned(),
        options: None,
    };
    let pod = Pod {
        volume: vec![
            mount(Some(MountSource::HostPath("./config".to_owned())), "/etc/app"),
            mount(Some(MountSource::NamedVolume("data".to_owned())), "/data"),
            mount(None, "/scratch"),
            mount(Some(MountSource::HostPath("/srv/www".to_owned())), "/www"),
        ],
        ..Pod::default()
    };
    assert_eq!(pod.host_paths(), ["./config", "/srv/www"]);
}
