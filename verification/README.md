# podlet compose extensions, verified

The library behind `podlet compose`: it turns a read compose document into Quadlet files
(`.container`, `.build`, `.network`, `.volume`, `.pod`, `.kube`) and applies the compose extensions
`x-pods`, `x-pod`, `x-podman`, and `x-systemd` on the way. Every public function of the library
carries a contract that Verus proves; Verus checks every function, private helpers included.

## Layout

- `src/` — the verified library.
  - `compose.rs`: the assembly of the files of a compose document, and what it yields, stated as
    spec functions (`compose_spec`, `parts_spec`, `services_spec`, ...).
  - `registry.rs`: the registry that dispatches extension keys to the handlers, and the keys it
    warns about.
  - `extensions.rs`, `handlers.rs`: the extension schemas, the handlers, and what each does.
  - `systemd.rs`: `x-systemd` directives applied to `[Unit]` and `[Install]` sections.
  - `parse.rs`: parsing the compose file's text with the `compose_spec` crate; the top level of the
    parsed file comes back as plain values, which the conversion checks its document against.
  - `quadlet.rs`, `pod.rs`: the Quadlet files and sections; `Network=` lines, `PodmanArgs=`, and
    downgrading a pod for older Podman versions. Each file carries its global arguments and its
    `[Quadlet]` and `[Service]` sections, and each section the options that the extensions do not
    touch (`Settings`, as `Key=value` pairs), beside the fields they read and write.
  - `net.rs`, `text.rs`: IP address text and string helpers.
  - `collections.rs`: the insertion-ordered maps of the `indexmap` crate, with their contracts.
  - `laws.rs`, `file_laws.rs`: properties that hold for all inputs.
- `tests/` — tests of the library on concrete values.
- `app/` — the command-line front end: options, reading the compose file's text, decoding
  extension values from YAML, and printing warnings and errors. The conversions of services,
  builds, networks, and volumes into sections, and of a compose file into Kubernetes YAML, belong
  to other parts of the program; `app/` takes them through its `Conversions` trait.
