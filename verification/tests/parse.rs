use podlet::compose::{Compose, ComposeDocument, ComposeError, GenericSections};
use podlet::extensions::ComposeExtensions;
use podlet::parse::{ParseOptions, ReadError, read_compose};
use podlet::quadlet::{Install, Settings, Unit};

const YAML: &str = "
name: shop
services:
  web:
    image: nginx:latest
    networks: [front]
  db:
    image: postgres:16
networks:
  front: {}
volumes:
  data: {}
x-pods:
  p: {}
x-other: 1
";

fn options() -> ParseOptions {
    ParseOptions { apply_merge: true }
}

#[test]
fn read_compose_gives_the_top_level() {
    let file = read_compose(YAML, options()).ok().expect("read");
    assert_eq!(file.top.name.as_deref(), Some("shop"));
    assert_eq!(file.top.configs, 0);
    assert_eq!(file.top.extension_keys, ["x-pods", "x-other"]);
    assert_eq!(file.top.services, ["web", "db"]);
    assert_eq!(file.top.networks, ["front"]);
    assert_eq!(file.top.volumes, ["data"]);
}

#[test]
fn read_compose_refuses_what_is_not_a_compose_file() {
    assert!(matches!(read_compose("services: [1, 2", options()), Err(ReadError::Parse { .. })));
}

#[test]
fn read_compose_refuses_an_undefined_network() {
    let yaml = "services:\n  web:\n    image: nginx\n    networks: [missing]\n";
    assert!(matches!(read_compose(yaml, options()), Err(ReadError::Validate { .. })));
}

#[test]
fn convert_refuses_a_document_that_does_not_describe_the_file() {
    let file = read_compose(YAML, options()).ok().expect("read");
    let document = ComposeDocument {
        name: Some("shop".to_owned()),
        has_include: false,
        has_configs: false,
        secrets_external: true,
        services: Vec::new(),
        networks: Vec::new(),
        volumes: Vec::new(),
        extensions: ComposeExtensions { keys: Vec::new(), x_pods: None },
        kubernetes: None,
    };
    let sections = GenericSections {
        unit: Unit::default(),
        quadlet: Settings::default(),
        install: Install::default(),
    };
    let compose = Compose { pod: false, kube: false, disable_extension: Vec::new(), compose_file: None };
    let mut warnings = Vec::new();
    let res = compose.convert(&file, document, sections, &mut warnings);
    assert!(matches!(res, Err(ComposeError::DocumentDiffers)));
    assert!(warnings.is_empty());
}
