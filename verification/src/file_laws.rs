//! Properties of the files that a conversion yields, for every compose document.

use vstd::prelude::*;
use crate::compose::{
    Compose, ComposeDocument, GenericSectionsView, NetworkSource, OutputFileView, ServiceSource,
    VolumeDefinition, VolumeSource, conversion_spec, dependency_name, described, link_mount, link_mounts,
    network_spec, networks_spec, parts_spec, pod_mode_file, service_spec, services_spec,
    volume_spec, volumes_spec, with_dependencies,
};
use crate::extensions::{
    ComposeExtensions, ContextView, NetworkExtensions, ResolvedPodView, ServiceExtensions,
    VolumeExtensions,
};
use crate::quadlet::{MountSourceView, MountView, ContainerView, FileView, InstallView, ResourceView, UnitView};
use crate::registry::{
    Dispatch, HandlerKind, build_fold, files_fold, files_of, handler_disabled, network_fold,
    service_fold, standard_handlers, volume_fold,
};
use crate::systemd::{DirectiveView, SectionView, find_section, unit_directives, unit_directives_fold};
use crate::text::{opt_text, texts};
use crate::laws::{law_append_missing, law_context_without_x_pods};
use crate::extensions::x_pods_files;

verus! {

/// A container, network, or volume file carries the `Description=` that the given `[Unit]`
/// section and project name give it, and the given `[Quadlet]` section; a `.build` file carries
/// the given `[Quadlet]` section; other files may carry any.
pub open spec fn file_described(f: FileView, g: GenericSectionsView, project: Option<Seq<char>>) -> bool {
    match f.resource {
        ResourceView::Container(_) => f.unit.description == described(g.unit, "container"@, project).description
            && f.quadlet == g.quadlet,
        ResourceView::Network(_) => f.unit.description == described(g.unit, "network"@, project).description
            && f.quadlet == g.quadlet,
        ResourceView::Volume(_) => f.unit.description == described(g.unit, "volume"@, project).description
            && f.quadlet == g.quadlet,
        ResourceView::Build(_, _) => f.quadlet == g.quadlet,
        _ => true,
    }
}

/// [`file_described`] of an output file; a Kubernetes file may carry anything.
pub open spec fn output_described(f: OutputFileView, g: GenericSectionsView, project: Option<Seq<char>>) -> bool {
    match f {
        OutputFileView::Quadlet(q) => file_described(q, g, project),
        _ => true,
    }
}

/// Applying `Unit` directives never sets `Description=`.
proof fn lemma_unit_directives_fold_description(u: UnitView, d: Seq<DirectiveView>)
    ensures
        unit_directives_fold(u, d).description == u.description,
    decreases d.len(),
{
    if d.len() > 0 {
        lemma_unit_directives_fold_description(u, d.drop_last());
    }
}

/// Applying an `x-systemd` map never sets `Description=`.
proof fn lemma_unit_directives_description(u: UnitView, m: Seq<SectionView>)
    ensures
        unit_directives(u, m).description == u.description,
{
    match find_section(m, "Unit"@) {
        Some(sec) => lemma_unit_directives_fold_description(u, sec.directives),
        None => {},
    }
}

/// The service handlers keep the `[Unit]` section, and a container stays a container.
proof fn lemma_service_fold_unit(
    hs: Seq<HandlerKind>,
    disabled: Seq<Seq<char>>,
    name: Seq<char>,
    ext: ServiceExtensions,
)
    ensures
        forall|ctx: ContextView, file: FileView|
            (#[trigger] service_fold(hs, disabled, name, ext, ctx, file)).1.unit == file.unit
                && service_fold(hs, disabled, name, ext, ctx, file).1.quadlet == file.quadlet
                && (file.resource is Container ==> service_fold(
                hs,
                disabled,
                name,
                ext,
                ctx,
                file,
            ).1.resource is Container),
    decreases hs.len(),
{
    if hs.len() > 0 {
        lemma_service_fold_unit(hs.drop_last(), disabled, name, ext);
        assert forall|ctx: ContextView, file: FileView|
            (#[trigger] service_fold(hs, disabled, name, ext, ctx, file)).1.unit == file.unit
                && service_fold(hs, disabled, name, ext, ctx, file).1.quadlet == file.quadlet
                && (file.resource is Container ==> service_fold(
                hs,
                disabled,
                name,
                ext,
                ctx,
                file,
            ).1.resource is Container) by {
            let p = service_fold(hs.drop_last(), disabled, name, ext, ctx, file);
            assert(p.1.unit == file.unit && p.1.quadlet == file.quadlet);
        }
    }
}

/// The network handlers keep `Description=`, and a network stays a network.
proof fn lemma_network_fold_description(
    hs: Seq<HandlerKind>,
    disabled: Seq<Seq<char>>,
    name: Seq<char>,
    ext: NetworkExtensions,
    file: FileView,
)
    requires
        file.resource is Network,
    ensures
        network_fold(hs, disabled, name, ext, file).0.unit.description == file.unit.description,
        network_fold(hs, disabled, name, ext, file).0.resource is Network,
        network_fold(hs, disabled, name, ext, file).0.quadlet == file.quadlet,
    decreases hs.len(),
{
    if hs.len() > 0 {
        lemma_network_fold_description(hs.drop_last(), disabled, name, ext, file);
        let p = network_fold(hs.drop_last(), disabled, name, ext, file);
        match ext.x_systemd {
            Some(Ok(s)) => lemma_unit_directives_description(p.0.unit, s@),
            _ => {},
        }
    }
}

/// The volume handlers keep `Description=`, and a volume stays a volume.
proof fn lemma_volume_fold_description(
    hs: Seq<HandlerKind>,
    disabled: Seq<Seq<char>>,
    name: Seq<char>,
    ext: VolumeExtensions,
    file: FileView,
)
    requires
        file.resource is Volume,
    ensures
        volume_fold(hs, disabled, name, ext, file).0.unit.description == file.unit.description,
        volume_fold(hs, disabled, name, ext, file).0.resource is Volume,
        volume_fold(hs, disabled, name, ext, file).0.quadlet == file.quadlet,
    decreases hs.len(),
{
    if hs.len() > 0 {
        lemma_volume_fold_description(hs.drop_last(), disabled, name, ext, file);
        let p = volume_fold(hs.drop_last(), disabled, name, ext, file);
        match ext.x_systemd {
            Some(Ok(s)) => lemma_unit_directives_description(p.0.unit, s@),
            _ => {},
        }
    }
}

/// The extra files of the handlers are `.pod` files.
proof fn lemma_files_fold_pods(
    hs: Seq<HandlerKind>,
    disabled: Seq<Seq<char>>,
    ctx: ContextView,
    install: Option<InstallView>,
)
    ensures
        forall|i: int|
            0 <= i < files_fold(hs, disabled, ctx, install).len()
                ==> (#[trigger] files_fold(hs, disabled, ctx, install)[i]).resource is Pod,
    decreases hs.len(),
{
    if hs.len() > 0 {
        lemma_files_fold_pods(hs.drop_last(), disabled, ctx, install);
        let p = files_fold(hs.drop_last(), disabled, ctx, install);
        let f = files_of(hs.last(), ctx, install);
        assert forall|i: int| 0 <= i < f.len() implies (#[trigger] f[i]).resource is Pod by {}
        assert forall|i: int|
            0 <= i < files_fold(hs, disabled, ctx, install).len() implies (#[trigger] files_fold(
                hs,
                disabled,
                ctx,
                install,
            )[i]).resource is Pod by {
            if !handler_disabled(hs.last(), disabled) && i >= p.len() {
                assert(files_fold(hs, disabled, ctx, install)[i] == f[i - p.len()]);
            }
        }
    }
}

/// Every file of a service is described.
proof fn lemma_service_described(
    reg: Dispatch,
    src: ServiceSource,
    sections: GenericSectionsView,
    vols: Seq<VolumeSource>,
    pod: Option<Seq<char>>,
    project: Option<Seq<char>>,
    ctx: ContextView,
)
    ensures
        forall|i: int|
            0 <= i < service_spec(reg, src, sections, vols, pod, project, ctx).files.len()
                ==> file_described(
                #[trigger] service_spec(reg, src, sections, vols, pod, project, ctx).files[i],
                sections,
                project,
            ),
{
    lemma_service_fold_unit(
        reg.handlers,
        reg.disabled,
        dependency_name(pod, src.name@),
        src.extensions,
    );
}

/// Every file of the services is described.
proof fn lemma_services_described(
    reg: Dispatch,
    srcs: Seq<ServiceSource>,
    sections: GenericSectionsView,
    vols: Seq<VolumeSource>,
    pod: Option<Seq<char>>,
    project: Option<Seq<char>>,
    ctx: ContextView,
)
    ensures
        forall|i: int|
            0 <= i < services_spec(reg, srcs, sections, vols, pod, project, ctx).files.len()
                ==> file_described(
                #[trigger] services_spec(reg, srcs, sections, vols, pod, project, ctx).files[i],
                sections,
                project,
            ),
    decreases srcs.len(),
{
    if srcs.len() > 0 {
        lemma_services_described(reg, srcs.drop_last(), sections, vols, pod, project, ctx);
        let p = services_spec(reg, srcs.drop_last(), sections, vols, pod, project, ctx);
        if p.error is None {
            lemma_service_described(reg, srcs.last(), sections, vols, pod, project, p.ctx);
            let o = service_spec(reg, srcs.last(), sections, vols, pod, project, p.ctx);
            let all = services_spec(reg, srcs, sections, vols, pod, project, ctx).files;
            assert(all == p.files + o.files);
            assert forall|i: int| 0 <= i < all.len() implies file_described(
                #[trigger] all[i],
                sections,
                project,
            ) by {
                if i < p.files.len() {
                    assert(all[i] == p.files[i]);
                } else {
                    assert(all[i] == o.files[i - p.files.len()]);
                }
            }
        }
    }
}

/// Every file of the networks is described.
proof fn lemma_networks_described(
    reg: Dispatch,
    srcs: Seq<NetworkSource>,
    sections: GenericSectionsView,
    project: Option<Seq<char>>,
)
    ensures
        forall|i: int|
            0 <= i < networks_spec(reg, srcs, sections, project).files.len() ==> file_described(
                #[trigger] networks_spec(reg, srcs, sections, project).files[i],
                sections,
                project,
            ) && networks_spec(reg, srcs, sections, project).files[i].resource is Network,
    decreases srcs.len(),
{
    if srcs.len() > 0 {
        lemma_networks_described(reg, srcs.drop_last(), sections, project);
        let p = networks_spec(reg, srcs.drop_last(), sections, project);
        if p.error is None {
            let src = srcs.last();
            let o = network_spec(reg, src, sections, project);
            match src.network {
                Ok(n) => {
                    let file = FileView {
                        name: src.name@,
                        unit: described(sections.unit, "network"@, project),
                        resource: ResourceView::Network(n@),
                        globals: seq![],
                        quadlet: sections.quadlet,
                        service: seq![],
                        install: sections.install,
                    };
                    lemma_network_fold_description(
                        reg.handlers,
                        reg.disabled,
                        src.name@,
                        src.extensions,
                        file,
                    );
                },
                Err(_) => {},
            }
            assert forall|i: int| 0 <= i < o.files.len() implies file_described(
                #[trigger] o.files[i],
                sections,
                project,
            ) && o.files[i].resource is Network by {}
            let all = networks_spec(reg, srcs, sections, project).files;
            assert(all == p.files + o.files);
            assert forall|i: int| 0 <= i < all.len() implies file_described(
                #[trigger] all[i],
                sections,
                project,
            ) && all[i].resource is Network by {
                if i < p.files.len() {
                    assert(all[i] == p.files[i]);
                } else {
                    assert(all[i] == o.files[i - p.files.len()]);
                }
            }
        }
    }
}

/// Every file of the volumes is described.
proof fn lemma_volumes_described(
    reg: Dispatch,
    srcs: Seq<VolumeSource>,
    sections: GenericSectionsView,
    project: Option<Seq<char>>,
)
    ensures
        forall|i: int|
            0 <= i < volumes_spec(reg, srcs, sections, project).files.len() ==> file_described(
                #[trigger] volumes_spec(reg, srcs, sections, project).files[i],
                sections,
                project,
            ) && volumes_spec(reg, srcs, sections, project).files[i].resource is Volume,
    decreases srcs.len(),
{
    if srcs.len() > 0 {
        lemma_volumes_described(reg, srcs.drop_last(), sections, project);
        let p = volumes_spec(reg, srcs.drop_last(), sections, project);
        if p.error is None {
            let src = srcs.last();
            let o = volume_spec(reg, src, sections, project);
            match src.definition {
                VolumeDefinition::Compose { has_options, volume, extensions } => {
                    match volume {
                        Ok(v) => {
                            let file = FileView {
                                name: src.name@,
                                unit: described(sections.unit, "volume"@, project),
                                resource: ResourceView::Volume(v@),
                                globals: seq![],
                                quadlet: sections.quadlet,
                                service: seq![],
                                install: sections.install,
                            };
                            lemma_volume_fold_description(
                                reg.handlers,
                                reg.disabled,
                                src.name@,
                                extensions,
                                file,
                            );
                        },
                        Err(_) => {},
                    }
                },
                _ => {},
            }
            assert forall|i: int| 0 <= i < o.files.len() implies file_described(
                #[trigger] o.files[i],
                sections,
                project,
            ) && o.files[i].resource is Volume by {}
            let all = volumes_spec(reg, srcs, sections, project).files;
            assert(all == p.files + o.files);
            assert forall|i: int| 0 <= i < all.len() implies file_described(
                #[trigger] all[i],
                sections,
                project,
            ) && all[i].resource is Volume by {
                if i < p.files.len() {
                    assert(all[i] == p.files[i]);
                } else {
                    assert(all[i] == o.files[i - p.files.len()]);
                }
            }
        }
    }
}

/// Every file of `s` is described.
pub open spec fn all_described(s: Seq<FileView>, g: GenericSectionsView, project: Option<Seq<char>>) -> bool {
    forall|i: int| 0 <= i < s.len() ==> file_described(#[trigger] s[i], g, project)
}

/// A concatenation of described files is described.
proof fn lemma_concat_described(a: Seq<FileView>, b: Seq<FileView>, g: GenericSectionsView, project: Option<Seq<char>>)
    requires
        all_described(a, g, project),
        all_described(b, g, project),
    ensures
        all_described(a + b, g, project),
{
    assert forall|i: int| 0 <= i < (a + b).len() implies file_described(#[trigger] (a + b)[i], g, project) by {
        if i < a.len() {
            assert((a + b)[i] == a[i]);
        } else {
            assert((a + b)[i] == b[i - a.len()]);
        }
    }
}

/// Every file of a successful conversion of the parts is described.
proof fn lemma_parts_described(
    reg: Dispatch,
    services: Seq<ServiceSource>,
    networks: Seq<NetworkSource>,
    volumes: Seq<VolumeSource>,
    top: ComposeExtensions,
    pod: Option<Seq<char>>,
    sections: GenericSectionsView,
    project: Option<Seq<char>>,
)
    ensures
        parts_spec(reg, services, networks, volumes, top, pod, sections, project).0 matches Ok(files)
            ==> all_described(files, sections, project),
{
    let b = build_fold(
        reg.handlers,
        reg.disabled,
        top,
        Seq::<(Seq<char>, ResolvedPodView)>::empty(),
    );
    if b.1 is None {
        let s = services_spec(reg, services, sections, volumes, pod, project, b.0);
        let n = networks_spec(reg, networks, sections, project);
        let v = volumes_spec(reg, volumes, sections, project);
        lemma_services_described(reg, services, sections, volumes, pod, project, b.0);
        lemma_networks_described(reg, networks, sections, project);
        lemma_volumes_described(reg, volumes, sections, project);
        let pod_files = match pod {
            Some(p) => seq![pod_mode_file(p, s.ports, sections)],
            None => Seq::<FileView>::empty(),
        };
        let extra = files_fold(reg.handlers, reg.disabled, s.ctx, Some(sections.install));
        lemma_files_fold_pods(reg.handlers, reg.disabled, s.ctx, Some(sections.install));
        assert(all_described(s.files, sections, project));
        assert(all_described(n.files, sections, project));
        assert(all_described(v.files, sections, project));
        assert(all_described(pod_files, sections, project));
        assert(all_described(extra, sections, project));
        lemma_concat_described(s.files, n.files, sections, project);
        lemma_concat_described(s.files + n.files, v.files, sections, project);
        lemma_concat_described(s.files + n.files + v.files, pod_files, sections, project);
        lemma_concat_described(
            s.files + n.files + v.files + pod_files,
            extra,
            sections,
            project,
        );
    }
}

/// `Description=` and `[Quadlet]` of the generated files: each container, network, and volume
/// file carries the description given for all files, or, when none is given and the compose file
/// has a top-level `name`, `<kind> for pod <name>` (`container`, `network`, or `volume`); with
/// neither, it carries none. Each container, network, volume, and `.build` file carries the
/// `[Quadlet]` section given for all files.
pub proof fn law_description_and_quadlet(compose: Compose, doc: ComposeDocument, sections: GenericSectionsView)
    ensures
        conversion_spec(compose, doc, sections).0 matches Ok(files) ==> forall|i: int|
            0 <= i < files.len() ==> output_described(#[trigger] files[i], sections, opt_text(doc.name)),
{
    if !compose.kube {
        let reg = Dispatch {
            handlers: standard_handlers(),
            disabled: texts(compose.disable_extension@),
        };
        let project = opt_text(doc.name);
        let pod = if compose.pod {
            project
        } else {
            None
        };
        lemma_parts_described(
            reg,
            doc.services@,
            doc.networks@,
            doc.volumes@,
            doc.extensions,
            pod,
            sections,
            project,
        );
    }
}

/// A container file has joined the pod `p`: it is named `<p>-...`, runs in `<p>.pod`, and
/// publishes no port; other files join nothing.
pub open spec fn joined_pod(f: FileView, p: Seq<char>) -> bool {
    match f.resource {
        ResourceView::Container(c) => (p + "-"@).is_prefix_of(f.name) && c.pod == Some(p + ".pod"@)
            && c.publish_port.len() == 0,
        _ => true,
    }
}

/// [`joined_pod`] of an output file.
pub open spec fn output_joined_pod(f: OutputFileView, p: Seq<char>) -> bool {
    match f {
        OutputFileView::Quadlet(q) => joined_pod(q, p),
        _ => true,
    }
}

/// The ports that the services' containers publish, in order.
pub open spec fn services_ports(srcs: Seq<ServiceSource>) -> Seq<Seq<char>>
    decreases srcs.len(),
{
    if srcs.len() == 0 {
        seq![]
    } else {
        services_ports(srcs.drop_last()) + match srcs.last().container {
            Ok(c) => c@.publish_port,
            Err(_) => seq![],
        }
    }
}

/// With no pods in the context, the service handlers either fail or leave the context empty and
/// keep a joined file joined.
proof fn lemma_service_fold_no_pods(
    hs: Seq<HandlerKind>,
    disabled: Seq<Seq<char>>,
    name: Seq<char>,
    ext: ServiceExtensions,
    file: FileView,
    p: Seq<char>,
)
    requires
        joined_pod(file, p),
    ensures
        ({
            let r = service_fold(hs, disabled, name, ext, Seq::empty(), file);
            r.2 is None ==> r.0 == Seq::<(Seq<char>, ResolvedPodView)>::empty()
                && r.1.name == file.name && joined_pod(r.1, p)
        }),
    decreases hs.len(),
{
    if hs.len() > 0 {
        lemma_service_fold_no_pods(hs.drop_last(), disabled, name, ext, file, p);
    }
}

/// `a` is a prefix of `a + b`.
proof fn lemma_prefix_of_concat(a: Seq<char>, b: Seq<char>)
    ensures
        a.is_prefix_of(a + b),
{
    assert((a + b).subrange(0, a.len() as int) =~= a);
}

/// In a pod and with no pods in the context, a converted service leaves the context empty, hands
/// its container's ports to the pod, and its container joins the pod.
proof fn lemma_service_joins(
    reg: Dispatch,
    src: ServiceSource,
    sections: GenericSectionsView,
    vols: Seq<VolumeSource>,
    p: Seq<char>,
    project: Option<Seq<char>>,
)
    ensures
        ({
            let o = service_spec(reg, src, sections, vols, Some(p), project, Seq::empty());
            o.error is None ==> o.ctx == Seq::<(Seq<char>, ResolvedPodView)>::empty()
                && o.ports == match src.container {
                Ok(c) => c@.publish_port,
                Err(_) => seq![],
            } && forall|i: int| 0 <= i < o.files.len() ==> joined_pod(#[trigger] o.files[i], p)
        }),
{
    let name = src.name@;
    lemma_prefix_of_concat(p + "-"@, name);
    match src.container {
        Ok(c) => {
            let image = match src.build {
                Some(Ok(b)) => Some(b.name@ + ".build"@),
                _ => None,
            };
            let c1 = ContainerView {
                image: match image {
                    Some(i) => i,
                    None => c@.image,
                },
                volume: link_mounts(c@.volume, vols),
                ..c@
            };
            let c2 = ContainerView { pod: Some(p + ".pod"@), publish_port: seq![], ..c1 };
            let file = FileView {
                name: dependency_name(Some(p), name),
                unit: described(
                    with_dependencies(sections.unit, src.depends_on@, Some(p)),
                    "container"@,
                    project,
                ),
                resource: ResourceView::Container(c2),
                globals: src.globals@,
                quadlet: sections.quadlet,
                service: src.service@,
                install: sections.install,
            };
            assert(joined_pod(file, p));
            lemma_service_fold_no_pods(
                reg.handlers,
                reg.disabled,
                file.name,
                src.extensions,
                file,
                p,
            );
        },
        Err(_) => {},
    }
}

/// In a pod and with no pods in the context, converted services leave the context empty, hand
/// all their containers' ports to the pod, and all their containers join the pod.
proof fn lemma_services_join(
    reg: Dispatch,
    srcs: Seq<ServiceSource>,
    sections: GenericSectionsView,
    vols: Seq<VolumeSource>,
    p: Seq<char>,
    project: Option<Seq<char>>,
)
    ensures
        ({
            let o = services_spec(reg, srcs, sections, vols, Some(p), project, Seq::empty());
            o.error is None ==> o.ctx == Seq::<(Seq<char>, ResolvedPodView)>::empty()
                && o.ports == services_ports(srcs) && forall|i: int|
                0 <= i < o.files.len() ==> joined_pod(#[trigger] o.files[i], p)
        }),
    decreases srcs.len(),
{
    if srcs.len() > 0 {
        lemma_services_join(reg, srcs.drop_last(), sections, vols, p, project);
        let q = services_spec(reg, srcs.drop_last(), sections, vols, Some(p), project, Seq::empty());
        if q.error is None {
            lemma_service_joins(reg, srcs.last(), sections, vols, p, project);
            let o = service_spec(reg, srcs.last(), sections, vols, Some(p), project, q.ctx);
            let all = services_spec(reg, srcs, sections, vols, Some(p), project, Seq::empty()).files;
            assert(all == q.files + o.files);
            assert forall|i: int| 0 <= i < all.len() implies joined_pod(#[trigger] all[i], p) by {
                if i < q.files.len() {
                    assert(all[i] == q.files[i]);
                } else {
                    assert(all[i] == o.files[i - q.files.len()]);
                }
            }
        }
    }
}

/// All files of `s` have joined the pod `p` (or are no containers).
pub open spec fn all_joined(s: Seq<FileView>, p: Seq<char>) -> bool {
    forall|i: int| 0 <= i < s.len() ==> joined_pod(#[trigger] s[i], p)
}

/// A concatenation of joined files is joined.
proof fn lemma_concat_joined(a: Seq<FileView>, b: Seq<FileView>, p: Seq<char>)
    requires
        all_joined(a, p),
        all_joined(b, p),
    ensures
        all_joined(a + b, p),
{
    assert forall|i: int| 0 <= i < (a + b).len() implies joined_pod(#[trigger] (a + b)[i], p) by {
        if i < a.len() {
            assert((a + b)[i] == a[i]);
        } else {
            assert((a + b)[i] == b[i - a.len()]);
        }
    }
}

/// In a pod, without `x-pods`: a successful conversion of the parts yields the `.pod` file with
/// the ports of all containers, and every container joins the pod.
proof fn lemma_parts_pod_mode(
    reg: Dispatch,
    services: Seq<ServiceSource>,
    networks: Seq<NetworkSource>,
    volumes: Seq<VolumeSource>,
    top: ComposeExtensions,
    p: Seq<char>,
    sections: GenericSectionsView,
    project: Option<Seq<char>>,
)
    requires
        top.x_pods is None,
    ensures
        parts_spec(reg, services, networks, volumes, top, Some(p), sections, project).0 matches Ok(files)
            ==> files.contains(pod_mode_file(p, services_ports(services), sections))
            && all_joined(files, p),
{
    let empty = Seq::<(Seq<char>, ResolvedPodView)>::empty();
    law_context_without_x_pods(reg.handlers, reg.disabled, top, empty);
    let s = services_spec(reg, services, sections, volumes, Some(p), project, empty);
    lemma_services_join(reg, services, sections, volumes, p, project);
    if s.error is None {
        let n = networks_spec(reg, networks, sections, project);
        let v = volumes_spec(reg, volumes, sections, project);
        lemma_networks_described(reg, networks, sections, project);
        lemma_volumes_described(reg, volumes, sections, project);
        let pod_file = pod_mode_file(p, s.ports, sections);
        let pod_files = seq![pod_file];
        let extra = files_fold(reg.handlers, reg.disabled, s.ctx, Some(sections.install));
        lemma_files_fold_pods(reg.handlers, reg.disabled, s.ctx, Some(sections.install));
        assert(all_joined(s.files, p));
        assert(all_joined(n.files, p));
        assert(all_joined(v.files, p));
        assert(all_joined(pod_files, p));
        assert(all_joined(extra, p));
        lemma_concat_joined(s.files, n.files, p);
        lemma_concat_joined(s.files + n.files, v.files, p);
        lemma_concat_joined(s.files + n.files + v.files, pod_files, p);
        lemma_concat_joined(s.files + n.files + v.files + pod_files, extra, p);
        let all = s.files + n.files + v.files + pod_files + extra;
        let k = (s.files.len() + n.files.len() + v.files.len()) as int;
        assert(all[k] == pod_file);
    }
}

/// With `--pod`, each container becomes a part of the pod: its file name begins with `<pod>-`,
/// its container runs in `<pod>.pod` and publishes no port, and the `.pod` file, named after the
/// compose file's `name`, publishes the ports of every container, in order of the services.
/// (The top-level extensions are well formed, as a compose file gives them.)
pub proof fn law_pod_mode(compose: Compose, doc: ComposeDocument, sections: GenericSectionsView)
    requires
        compose.pod,
        !compose.kube,
        doc.extensions.wf(),
    ensures
        conversion_spec(compose, doc, sections).0 matches Ok(files) ==> {
            &&& doc.name is Some
            &&& files.contains(
                OutputFileView::Quadlet(
                    pod_mode_file(
                        doc.name->0@,
                        services_ports(doc.services@),
                        sections,
                    ),
                ),
            )
            &&& forall|i: int| 0 <= i < files.len() ==> output_joined_pod(#[trigger] files[i], doc.name->0@)
        },
{
    let keys = texts(doc.extensions.keys@);
    if !keys.contains("x-pods"@) && doc.name is Some && !doc.has_include && !doc.has_configs
        && doc.secrets_external {
        let reg = Dispatch {
            handlers: standard_handlers(),
            disabled: texts(compose.disable_extension@),
        };
        let project = opt_text(doc.name);
        let p = doc.name->0@;
        lemma_parts_pod_mode(
            reg,
            doc.services@,
            doc.networks@,
            doc.volumes@,
            doc.extensions,
            p,
            sections,
            project,
        );
        let r = parts_spec(
            reg,
            doc.services@,
            doc.networks@,
            doc.volumes@,
            doc.extensions,
            Some(p),
            sections,
            project,
        );
        match r.0 {
            Ok(files) => {
                let out = files.map_values(|f: FileView| OutputFileView::Quadlet(f));
                let pf = pod_mode_file(p, services_ports(doc.services@), sections);
                let k = choose|k: int| 0 <= k < files.len() && files[k] == pf;
                assert(out[k] == OutputFileView::Quadlet(pf));
                assert forall|i: int| 0 <= i < out.len() implies output_joined_pod(#[trigger] out[i], p) by {
                    assert(joined_pod(files[i], p));
                }
            },
            Err(_) => {},
        }
    }
}

/// The dependencies of a service's container: after the dependencies given for all files come
/// those of `depends_on`, in order, each on the unit of the service depended on, which in a pod
/// `p` is named `<p>-<service>`, with its condition, `restart`, and `required` kept.
pub proof fn law_container_dependencies(
    reg: Dispatch,
    src: ServiceSource,
    sections: GenericSectionsView,
    vols: Seq<VolumeSource>,
    pod: Option<Seq<char>>,
    project: Option<Seq<char>>,
    ctx: ContextView,
)
    ensures
        ({
            let o = service_spec(reg, src, sections, vols, pod, project, ctx);
            let n = sections.unit.dependencies.len();
            let given = src.depends_on@;
            o.error is None ==> {
                &&& o.files.len() >= 1
                &&& o.files[0].unit.dependencies.len() == n + given.len()
                &&& o.files[0].unit.dependencies.subrange(0, n as int) == sections.unit.dependencies
                &&& forall|k: int|
                    0 <= k < given.len() ==> {
                        let d = #[trigger] o.files[0].unit.dependencies[n + k];
                        &&& d.name == match pod {
                            Some(p) => p + "-"@ + given[k].name@,
                            None => given[k].name@,
                        }
                        &&& d.condition == given[k].condition
                        &&& d.restart == given[k].restart
                        &&& d.required == given[k].required
                    }
            }
        }),
{
    lemma_service_fold_unit(reg.handlers, reg.disabled, dependency_name(pod, src.name@), src.extensions);
    let o = service_spec(reg, src, sections, vols, pod, project, ctx);
    if o.error is None {
        let u = with_dependencies(sections.unit, src.depends_on@, pod);
        let n = sections.unit.dependencies.len();
        assert(o.files[0].unit.dependencies == u.dependencies);
        assert(u.dependencies.subrange(0, n as int) =~= sections.unit.dependencies);
    }
}

/// A `.pod` file's `[Install]` section starts from the given one: its `WantedBy=` targets begin
/// with the given ones, its `RequiredBy=` units are the given ones.
pub open spec fn install_from(f: FileView, i: InstallView) -> bool {
    &&& f.install.wanted_by.len() >= i.wanted_by.len()
    &&& f.install.wanted_by.subrange(0, i.wanted_by.len() as int) == i.wanted_by
    &&& f.install.required_by == i.required_by
}

/// The `.pod` files of resolved pods, given an `[Install]` section `i`, start from `i` and add each
/// pod's own `WantedBy=` targets.
proof fn lemma_x_pods_files_install(ctx: ContextView, i: InstallView)
    ensures
        forall|j: int|
            0 <= j < x_pods_files(ctx, Some(i)).len() ==> {
                &&& install_from(#[trigger] x_pods_files(ctx, Some(i))[j], i)
                &&& forall|t: int|
                    0 <= t < ctx[j].1.wanted_by.len() ==> x_pods_files(ctx, Some(i))[j].install.wanted_by.contains(
                        #[trigger] ctx[j].1.wanted_by[t],
                    )
            },
{
    assert forall|j: int| 0 <= j < x_pods_files(ctx, Some(i)).len() implies {
        &&& install_from(#[trigger] x_pods_files(ctx, Some(i))[j], i)
        &&& forall|t: int|
            0 <= t < ctx[j].1.wanted_by.len() ==> x_pods_files(ctx, Some(i))[j].install.wanted_by.contains(
                #[trigger] ctx[j].1.wanted_by[t],
            )
    } by {
        law_append_missing(i.wanted_by, ctx[j].1.wanted_by);
    }
}

/// The files that the extension handlers add, given an `[Install]` section `i`, all start their
/// `[Install]` section from `i`: `WantedBy=` begins with the given targets and `RequiredBy=` is the
/// given list.
pub proof fn law_extension_files_install(
    hs: Seq<HandlerKind>,
    disabled: Seq<Seq<char>>,
    ctx: ContextView,
    i: InstallView,
)
    ensures
        forall|j: int|
            0 <= j < files_fold(hs, disabled, ctx, Some(i)).len() ==> install_from(
                #[trigger] files_fold(hs, disabled, ctx, Some(i))[j],
                i,
            ),
    decreases hs.len(),
{
    if hs.len() > 0 {
        law_extension_files_install(hs.drop_last(), disabled, ctx, i);
        lemma_x_pods_files_install(ctx, i);
        let p = files_fold(hs.drop_last(), disabled, ctx, Some(i));
        let f = files_of(hs.last(), ctx, Some(i));
        assert forall|j: int| 0 <= j < f.len() implies install_from(#[trigger] f[j], i) by {
            assert(f == x_pods_files(ctx, Some(i)));
        }
        assert forall|j: int|
            0 <= j < files_fold(hs, disabled, ctx, Some(i)).len() implies install_from(
                #[trigger] files_fold(hs, disabled, ctx, Some(i))[j],
                i,
            ) by {
            if !handler_disabled(hs.last(), disabled) {
                if j < p.len() {
                    assert(files_fold(hs, disabled, ctx, Some(i))[j] == p[j]);
                } else {
                    assert(files_fold(hs, disabled, ctx, Some(i))[j] == f[j - p.len()]);
                }
            }
        }
    }
}

/// The (last) volume named `name` gets a `.volume` file from the conversion.
pub open spec fn volume_file_emitted(
    reg: Dispatch,
    vols: Seq<VolumeSource>,
    name: Seq<char>,
    sections: GenericSectionsView,
    project: Option<Seq<char>>,
) -> bool
    decreases vols.len(),
{
    if vols.len() == 0 {
        false
    } else if vols.last().name@ == name {
        volume_spec(reg, vols.last(), sections, project).files.len() > 0
    } else {
        volume_file_emitted(reg, vols.drop_last(), name, sections, project)
    }
}

/// When the volumes convert, each volume converted without an error.
proof fn lemma_volumes_each_converted(
    reg: Dispatch,
    vols: Seq<VolumeSource>,
    sections: GenericSectionsView,
    project: Option<Seq<char>>,
)
    requires
        volumes_spec(reg, vols, sections, project).error is None,
    ensures
        forall|k: int| 0 <= k < vols.len() ==> (#[trigger] volume_spec(reg, vols[k], sections, project)).error is None,
    decreases vols.len(),
{
    if vols.len() > 0 {
        let p = volumes_spec(reg, vols.drop_last(), sections, project);
        assert(p.error is None);
        lemma_volumes_each_converted(reg, vols.drop_last(), sections, project);
        assert forall|k: int| 0 <= k < vols.len() implies (#[trigger] volume_spec(reg, vols[k], sections, project)).error is None by {
            if k < vols.len() - 1 {
                assert(vols.drop_last()[k] == vols[k]);
            }
        }
    }
}

/// A volume that converts gets a `.volume` file exactly when it sets some option or extension.
proof fn lemma_volume_file_iff_options(
    reg: Dispatch,
    v: VolumeSource,
    sections: GenericSectionsView,
    project: Option<Seq<char>>,
)
    requires
        volume_spec(reg, v, sections, project).error is None,
    ensures
        (volume_spec(reg, v, sections, project).files.len() > 0) == crate::compose::definition_has_options(
            v.definition,
        ),
{
}

/// Linking is by what the conversion emits.
proof fn lemma_emitted_iff_options(
    reg: Dispatch,
    vols: Seq<VolumeSource>,
    name: Seq<char>,
    sections: GenericSectionsView,
    project: Option<Seq<char>>,
)
    requires
        forall|k: int| 0 <= k < vols.len() ==> (#[trigger] volume_spec(reg, vols[k], sections, project)).error is None,
    ensures
        volume_file_emitted(reg, vols, name, sections, project) == crate::compose::volume_has_options(vols, name),
    decreases vols.len(),
{
    if vols.len() > 0 {
        assert(vols.last() == vols[vols.len() - 1]);
        lemma_volume_file_iff_options(reg, vols.last(), sections, project);
        assert forall|k: int| 0 <= k < vols.drop_last().len() implies (#[trigger] volume_spec(
            reg,
            vols.drop_last()[k],
            sections,
            project,
        )).error is None by {
            assert(vols.drop_last()[k] == vols[k]);
        }
        lemma_emitted_iff_options(reg, vols.drop_last(), name, sections, project);
    }
}

/// A container's mount of a named volume links to `<name>.volume` exactly when the conversion of
/// the volumes (when it succeeds) emits a `.volume` file for that volume; other mounts stay as they
/// are.
pub proof fn law_mount_links_emitted_volume_file(
    reg: Dispatch,
    m: MountView,
    vols: Seq<VolumeSource>,
    sections: GenericSectionsView,
    project: Option<Seq<char>>,
)
    requires
        volumes_spec(reg, vols, sections, project).error is None,
    ensures
        link_mount(m, vols) == match m.source {
            Some(MountSourceView::NamedVolume(s)) => if volume_file_emitted(reg, vols, s, sections, project) {
                MountView { source: Some(MountSourceView::NamedVolume(s + ".volume"@)), ..m }
            } else {
                m
            },
            _ => m,
        },
{
    lemma_volumes_each_converted(reg, vols, sections, project);
    match m.source {
        Some(MountSourceView::NamedVolume(s)) => lemma_emitted_iff_options(reg, vols, s, sections, project),
        _ => {},
    }
}

} // verus!
