//! Properties of the extension registry and handlers that hold for all inputs.

use vstd::prelude::*;
use crate::collections::{distinct_keys, has_key, insert_entry, key_pos, lookup};
use crate::extensions::{
    ComposeExtensions, ContextView, ExtensionErrorView, NetworkExtensions, PodDefinition,
    ResolvedPodView, ServiceExtensions, VolumeExtensions, pod_with_ports, resolve_pod,
    x_pod_service_step, x_podman_network_step, x_pods_fold, x_systemd_step,
};
use crate::quadlet::{ContainerView, FileView, ResourceView, empty_pod};
use crate::registry::{
    HandlerKind, build_fold, files_fold, handler_disabled, handler_keys, handler_skipped,
    is_known, network_fold, service_fold, standard_handlers, unknown_keys, volume_fold,
};
use crate::extensions::{ScopeView, x_podman_service_step};
use crate::text::{append_missing, texts};
use crate::quadlet::InstallView;
use crate::systemd::{
    DirectiveView, SectionView, find_section, install_directive, install_directives,
    install_directives_fold, unit_directive, unit_directives, unit_directives_fold,
};
use crate::compose::{
    Compose, ComposeDocument, ComposeErrorView, GenericSectionsView, OutputFileView, WarningView,
    conversion_spec, described, description_text,
};
use crate::pod::{PodmanVersion, downgraded, version_rank};

verus! {

/// The handlers of `hs` that are not disabled, in order.
pub open spec fn enabled_handlers(hs: Seq<HandlerKind>, disabled: Seq<Seq<char>>) -> Seq<HandlerKind>
    decreases hs.len(),
{
    if hs.len() == 0 {
        seq![]
    } else if handler_disabled(hs.last(), disabled) {
        enabled_handlers(hs.drop_last(), disabled)
    } else {
        enabled_handlers(hs.drop_last(), disabled).push(hs.last())
    }
}

/// Disabled handlers are never called: dispatching a service's extensions through a registry
/// gives what dispatching through the same registry without its disabled handlers gives.
pub proof fn law_disabled_handlers_skip_service(
    hs: Seq<HandlerKind>,
    disabled: Seq<Seq<char>>,
    name: Seq<char>,
    ext: ServiceExtensions,
    ctx: ContextView,
    file: FileView,
)
    ensures
        service_fold(hs, disabled, name, ext, ctx, file) == service_fold(
            enabled_handlers(hs, disabled),
            disabled,
            name,
            ext,
            ctx,
            file,
        ),
    decreases hs.len(),
{
    if hs.len() > 0 {
        law_disabled_handlers_skip_service(hs.drop_last(), disabled, name, ext, ctx, file);
        if !handler_disabled(hs.last(), disabled) {
            let e = enabled_handlers(hs, disabled);
            assert(e.drop_last() =~= enabled_handlers(hs.drop_last(), disabled));
        }
    }
}

/// Disabled handlers are never called for a network.
pub proof fn law_disabled_handlers_skip_network(
    hs: Seq<HandlerKind>,
    disabled: Seq<Seq<char>>,
    name: Seq<char>,
    ext: NetworkExtensions,
    file: FileView,
)
    ensures
        network_fold(hs, disabled, name, ext, file) == network_fold(
            enabled_handlers(hs, disabled),
            disabled,
            name,
            ext,
            file,
        ),
    decreases hs.len(),
{
    if hs.len() > 0 {
        law_disabled_handlers_skip_network(hs.drop_last(), disabled, name, ext, file);
        if !handler_disabled(hs.last(), disabled) {
            let e = enabled_handlers(hs, disabled);
            assert(e.drop_last() =~= enabled_handlers(hs.drop_last(), disabled));
        }
    }
}

/// Disabled handlers are never called for a volume.
pub proof fn law_disabled_handlers_skip_volume(
    hs: Seq<HandlerKind>,
    disabled: Seq<Seq<char>>,
    name: Seq<char>,
    ext: VolumeExtensions,
    file: FileView,
)
    ensures
        volume_fold(hs, disabled, name, ext, file) == volume_fold(
            enabled_handlers(hs, disabled),
            disabled,
            name,
            ext,
            file,
        ),
    decreases hs.len(),
{
    if hs.len() > 0 {
        law_disabled_handlers_skip_volume(hs.drop_last(), disabled, name, ext, file);
        if !handler_disabled(hs.last(), disabled) {
            let e = enabled_handlers(hs, disabled);
            assert(e.drop_last() =~= enabled_handlers(hs.drop_last(), disabled));
        }
    }
}

/// Disabled handlers are never called to build the context.
pub proof fn law_disabled_handlers_skip_context(
    hs: Seq<HandlerKind>,
    disabled: Seq<Seq<char>>,
    ext: ComposeExtensions,
    ctx: ContextView,
)
    ensures
        build_fold(hs, disabled, ext, ctx) == build_fold(
            enabled_handlers(hs, disabled),
            disabled,
            ext,
            ctx,
        ),
    decreases hs.len(),
{
    if hs.len() > 0 {
        law_disabled_handlers_skip_context(hs.drop_last(), disabled, ext, ctx);
        if !handler_disabled(hs.last(), disabled) {
            let e = enabled_handlers(hs, disabled);
            assert(e.drop_last() =~= enabled_handlers(hs.drop_last(), disabled));
        }
    }
}

/// The warnings name exactly the keys present that no handler processes and that are not
/// disabled.
pub proof fn law_unknown_keys(
    hs: Seq<HandlerKind>,
    disabled: Seq<Seq<char>>,
    keys: Seq<Seq<char>>,
    k: Seq<char>,
)
    ensures
        unknown_keys(hs, disabled, keys).contains(k) <==> (keys.contains(k) && !is_known(
            hs,
            disabled,
            k,
        )),
    decreases keys.len(),
{
    if keys.len() > 0 {
        law_unknown_keys(hs, disabled, keys.drop_last(), k);
        lemma_contains_last(keys, k);
        let p = unknown_keys(hs, disabled, keys.drop_last());
        if !is_known(hs, disabled, keys.last()) {
            lemma_contains_last(p.push(keys.last()), k);
            assert(p.push(keys.last()).drop_last() =~= p);
        }
    }
}

/// A sequence holds `k` iff its front holds `k` or its last element is `k`.
proof fn lemma_contains_last(s: Seq<Seq<char>>, k: Seq<char>)
    requires
        s.len() > 0,
    ensures
        s.contains(k) <==> (s.drop_last().contains(k) || s.last() == k),
{
    if s.contains(k) {
        let i = choose|i: int| 0 <= i < s.len() && s[i] == k;
        if i < s.len() - 1 {
            assert(s.drop_last()[i] == k);
        }
    }
    if s.drop_last().contains(k) {
        let i = choose|i: int| 0 <= i < s.drop_last().len() && s.drop_last()[i] == k;
        assert(s[i] == k);
    }
    if s.last() == k {
        assert(s[s.len() - 1] == k);
    }
}

/// The registry made by `new` knows the keys `x-pods`, `x-pod`, `x-podman`, and `x-systemd`.
pub proof fn law_standard_keys_known(disabled: Seq<Seq<char>>)
    ensures
        is_known(standard_handlers(), disabled, "x-pods"@),
        is_known(standard_handlers(), disabled, "x-pod"@),
        is_known(standard_handlers(), disabled, "x-podman"@),
        is_known(standard_handlers(), disabled, "x-systemd"@),
{
    let hs = standard_handlers();
    assert(handler_keys(hs[0])[0] == "x-pods"@);
    assert(handler_keys(hs[1])[0] == "x-pod"@);
    assert(handler_keys(hs[2])[0] == "x-podman"@);
    assert(handler_keys(hs[3])[0] == "x-systemd"@);
}

/// Without `x-pod` and `x-podman`, the extensions of a service change nothing.
pub proof fn law_service_without_handled_keys_unchanged(
    hs: Seq<HandlerKind>,
    disabled: Seq<Seq<char>>,
    name: Seq<char>,
    ext: ServiceExtensions,
    ctx: ContextView,
    file: FileView,
)
    requires
        ext.x_pod is None,
        ext.x_podman is None,
    ensures
        service_fold(hs, disabled, name, ext, ctx, file) == (ctx, file, None::<ExtensionErrorView>),
    decreases hs.len(),
{
    if hs.len() > 0 {
        law_service_without_handled_keys_unchanged(hs.drop_last(), disabled, name, ext, ctx, file);
    }
}

/// Without a context build error, the context is left as it is when the top level has no
/// `x-pods`.
pub proof fn law_context_without_x_pods(
    hs: Seq<HandlerKind>,
    disabled: Seq<Seq<char>>,
    ext: ComposeExtensions,
    ctx: ContextView,
)
    requires
        ext.x_pods is None,
    ensures
        build_fold(hs, disabled, ext, ctx) == (ctx, None::<ExtensionErrorView>),
    decreases hs.len(),
{
    if hs.len() > 0 {
        law_context_without_x_pods(hs.drop_last(), disabled, ext, ctx);
    }
}


/// Building the context stops at the first error: once the handlers of a front of the list fail,
/// the handlers after them change nothing.
pub proof fn law_context_first_error(
    hs: Seq<HandlerKind>,
    k: int,
    disabled: Seq<Seq<char>>,
    ext: ComposeExtensions,
    ctx: ContextView,
)
    requires
        0 <= k <= hs.len(),
        build_fold(hs.subrange(0, k), disabled, ext, ctx).1 is Some,
    ensures
        build_fold(hs, disabled, ext, ctx) == build_fold(hs.subrange(0, k), disabled, ext, ctx),
    decreases hs.len(),
{
    if k == hs.len() {
        assert(hs.subrange(0, k) =~= hs);
    } else {
        assert(hs.drop_last().subrange(0, k) =~= hs.subrange(0, k));
        law_context_first_error(hs.drop_last(), k, disabled, ext, ctx);
    }
}

/// With `x-pods` disabled wherever its handler is, building the context leaves it as it is.
proof fn lemma_context_x_pods_disabled(
    hs: Seq<HandlerKind>,
    disabled: Seq<Seq<char>>,
    ext: ComposeExtensions,
    ctx: ContextView,
)
    requires
        disabled.contains("x-pods"@),
    ensures
        build_fold(hs, disabled, ext, ctx) == (ctx, None::<ExtensionErrorView>),
    decreases hs.len(),
{
    if hs.len() > 0 {
        lemma_context_x_pods_disabled(hs.drop_last(), disabled, ext, ctx);
        if hs.last() == HandlerKind::XPods {
            assert(handler_keys(HandlerKind::XPods)[0] == "x-pods"@);
            assert(handler_disabled(hs.last(), disabled));
        }
    }
}

/// With the handlers of a new registry, the context built from well-formed extensions without an
/// `x-pods` key, or with `x-pods` disabled, holds no pod.
pub proof fn law_standard_context_without_x_pods(disabled: Seq<Seq<char>>, ext: ComposeExtensions)
    requires
        ext.wf(),
        !texts(ext.keys@).contains("x-pods"@) || disabled.contains("x-pods"@),
    ensures
        build_fold(standard_handlers(), disabled, ext, Seq::empty()) == (
            Seq::<(Seq<char>, ResolvedPodView)>::empty(),
            None::<ExtensionErrorView>,
        ),
{
    let empty = Seq::<(Seq<char>, ResolvedPodView)>::empty();
    if disabled.contains("x-pods"@) {
        lemma_context_x_pods_disabled(standard_handlers(), disabled, ext, empty);
    } else {
        law_context_without_x_pods(standard_handlers(), disabled, ext, empty);
    }
}

/// The handler for `key` runs: `key` is present and not disabled.
pub open spec fn key_active(key: Seq<char>, disabled: Seq<Seq<char>>, present: Seq<Seq<char>>) -> bool {
    !disabled.contains(key) && present.contains(key)
}

/// With the handlers of a new registry, a network's extensions are applied as `x-podman` and then
/// `x-systemd`, each only when its key is present and not disabled: disabling one leaves the other
/// in effect.
pub proof fn law_standard_network_dispatch(
    disabled: Seq<Seq<char>>,
    name: Seq<char>,
    ext: NetworkExtensions,
    file: FileView,
)
    ensures
        ({
            let present = texts(ext.keys@);
            let a = if key_active("x-podman"@, disabled, present) {
                x_podman_network_step(name, ext, file)
            } else {
                (file, None)
            };
            network_fold(standard_handlers(), disabled, name, ext, file) == if a.1 is None
                && key_active("x-systemd"@, disabled, present) {
                x_systemd_step(ScopeView::Network(name), ext.x_systemd, a.0)
            } else {
                a
            }
        }),
{
    let hs = standard_handlers();
    let present = texts(ext.keys@);
    assert(hs.drop_last().drop_last().drop_last().drop_last() =~= seq![]);
    assert(hs.drop_last().drop_last().drop_last() =~= seq![HandlerKind::XPods]);
    assert(hs.drop_last().drop_last() =~= seq![HandlerKind::XPods, HandlerKind::XPodService]);
    assert(hs.drop_last() =~= seq![HandlerKind::XPods, HandlerKind::XPodService, HandlerKind::XPodman]);
    assert(handler_keys(HandlerKind::XPodman)[0] == "x-podman"@);
    assert(handler_keys(HandlerKind::XSystemd)[0] == "x-systemd"@);
    reveal_with_fuel(network_fold, 5);
    assert(handler_skipped(HandlerKind::XPodman, disabled, present) <==> !key_active(
        "x-podman"@,
        disabled,
        present,
    ));
    assert(handler_skipped(HandlerKind::XSystemd, disabled, present) <==> !key_active(
        "x-systemd"@,
        disabled,
        present,
    ));
}

/// With the handlers of a new registry, a service's extensions are applied as `x-pod` and then
/// `x-podman`, each only when its key is present and not disabled.
pub proof fn law_standard_service_dispatch(
    disabled: Seq<Seq<char>>,
    name: Seq<char>,
    ext: ServiceExtensions,
    ctx: ContextView,
    file: FileView,
)
    ensures
        ({
            let present = texts(ext.keys@);
            let a = if key_active("x-pod"@, disabled, present) {
                x_pod_service_step(name, ext, ctx, file)
            } else {
                (ctx, file, None)
            };
            service_fold(standard_handlers(), disabled, name, ext, ctx, file) == if a.2 is None
                && key_active("x-podman"@, disabled, present) {
                let b = crate::extensions::x_podman_service_step(name, ext, a.1);
                (a.0, b.0, b.1)
            } else {
                a
            }
        }),
{
    let hs = standard_handlers();
    let present = texts(ext.keys@);
    assert(hs.drop_last().drop_last().drop_last().drop_last() =~= seq![]);
    assert(hs.drop_last().drop_last().drop_last() =~= seq![HandlerKind::XPods]);
    assert(hs.drop_last().drop_last() =~= seq![HandlerKind::XPods, HandlerKind::XPodService]);
    assert(hs.drop_last() =~= seq![HandlerKind::XPods, HandlerKind::XPodService, HandlerKind::XPodman]);
    assert(handler_keys(HandlerKind::XPodService)[0] == "x-pod"@);
    assert(handler_keys(HandlerKind::XPodman)[0] == "x-podman"@);
    reveal_with_fuel(service_fold, 5);
    assert(handler_skipped(HandlerKind::XPodService, disabled, present) <==> !key_active(
        "x-pod"@,
        disabled,
        present,
    ));
    assert(handler_skipped(HandlerKind::XPodman, disabled, present) <==> !key_active(
        "x-podman"@,
        disabled,
        present,
    ));
}

/// `append_missing` keeps the list as its front, holds every item, and adds only items the list
/// did not hold.
pub proof fn law_append_missing(list: Seq<Seq<char>>, items: Seq<Seq<char>>)
    ensures
        append_missing(list, items).len() >= list.len(),
        append_missing(list, items).subrange(0, list.len() as int) == list,
        forall|i: int| 0 <= i < items.len() ==> append_missing(list, items).contains(#[trigger] items[i]),
        forall|i: int| 0 <= i < list.len() ==> append_missing(list, items).contains(#[trigger] list[i]),
        forall|x: Seq<char>| #[trigger] append_missing(list, items).contains(x) ==> list.contains(x) || items.contains(x),
    decreases items.len(),
{
    if items.len() > 0 {
        let l = append_missing(list, items.drop_last());
        law_append_missing(list, items.drop_last());
        let r = append_missing(list, items);
        assert(r.subrange(0, list.len() as int) =~= list) by {
            if !l.contains(items.last()) {
                assert(r =~= l.push(items.last()));
                assert forall|i: int| 0 <= i < list.len() implies r[i] == list[i] by {
                    assert(l.subrange(0, list.len() as int)[i] == l[i]);
                }
            }
        }
        assert forall|i: int| 0 <= i < items.len() implies r.contains(#[trigger] items[i]) by {
            if i < items.len() - 1 {
                assert(items.drop_last()[i] == items[i]);
                assert(l.contains(items[i]));
                let j = choose|j: int| 0 <= j < l.len() && l[j] == items[i];
                if !l.contains(items.last()) {
                    assert(r[j] == items[i]);
                }
            } else {
                if !l.contains(items.last()) {
                    assert(r[l.len() as int] == items.last());
                }
            }
        }
        assert forall|i: int| 0 <= i < list.len() implies r.contains(#[trigger] list[i]) by {
            assert(l.contains(list[i]));
            let j = choose|j: int| 0 <= j < l.len() && l[j] == list[i];
            if !l.contains(items.last()) {
                assert(r[j] == list[i]);
            }
        }
        assert forall|x: Seq<char>| #[trigger] r.contains(x) implies list.contains(x) || items.contains(x) by {
            let j = choose|j: int| 0 <= j < r.len() && r[j] == x;
            if j < l.len() {
                if !l.contains(items.last()) {
                    assert(l[j] == x);
                }
                assert(l.contains(x));
                if items.drop_last().contains(x) {
                    let k = choose|k: int| 0 <= k < items.drop_last().len() && items.drop_last()[k] == x;
                    assert(items[k] == x);
                }
            } else {
                assert(x == items.last());
                assert(items[items.len() - 1] == x);
            }
        }
    }
}

/// Adding items that the list already holds leaves it as it is.
pub proof fn law_append_missing_present(list: Seq<Seq<char>>, items: Seq<Seq<char>>)
    requires
        forall|i: int| 0 <= i < items.len() ==> list.contains(#[trigger] items[i]),
    ensures
        append_missing(list, items) == list,
    decreases items.len(),
{
    if items.len() > 0 {
        assert forall|i: int| 0 <= i < items.drop_last().len() implies list.contains(
            #[trigger] items.drop_last()[i],
        ) by {
            assert(items.drop_last()[i] == items[i]);
        }
        law_append_missing_present(list, items.drop_last());
        assert(list.contains(items[items.len() - 1]));
    }
}

/// Adding the same items twice adds them once.
pub proof fn law_append_missing_idempotent(list: Seq<Seq<char>>, items: Seq<Seq<char>>)
    ensures
        append_missing(append_missing(list, items), items) == append_missing(list, items),
{
    law_append_missing(list, items);
    law_append_missing_present(append_missing(list, items), items);
}


/// Every value of the `WantedBy` and `RequiredBy` directives of `d` is in the matching list of
/// `i`.
pub open spec fn install_covers(i: InstallView, d: Seq<DirectiveView>) -> bool {
    forall|k: int, x: int|
        0 <= k < d.len() && 0 <= x < d[k].values.len() ==> {
            &&& d[k].name == "WantedBy"@ ==> i.wanted_by.contains(#[trigger] d[k].values[x])
            &&& d[k].name == "RequiredBy"@ ==> i.required_by.contains(d[k].values[x])
        }
}

/// After the directives are applied, the `[Install]` section holds all their values.
proof fn lemma_install_fold_covers(i: InstallView, d: Seq<DirectiveView>)
    ensures
        install_covers(install_directives_fold(i, d), d),
    decreases d.len(),
{
    if d.len() > 0 {
        lemma_install_fold_covers(i, d.drop_last());
        let f = install_directives_fold(i, d.drop_last());
        let last = d.last();
        let r = install_directive(f, last);
        reveal_strlit("WantedBy");
        reveal_strlit("RequiredBy");
        assert("WantedBy"@.len() != "RequiredBy"@.len());
        law_append_missing(f.wanted_by, last.values);
        law_append_missing(f.required_by, last.values);
        assert forall|k: int, x: int| 0 <= k < d.len() && 0 <= x < d[k].values.len() implies {
            &&& d[k].name == "WantedBy"@ ==> r.wanted_by.contains(#[trigger] d[k].values[x])
            &&& d[k].name == "RequiredBy"@ ==> r.required_by.contains(d[k].values[x])
        } by {
            if k < d.len() - 1 {
                assert(d.drop_last()[k] == d[k]);
                if d[k].name == "WantedBy"@ {
                    assert(f.wanted_by.contains(d.drop_last()[k].values[x]));
                    let j = choose|j: int| 0 <= j < f.wanted_by.len() && f.wanted_by[j] == d[k].values[x];
                    assert(r.wanted_by.contains(f.wanted_by[j]));
                }
                if d[k].name == "RequiredBy"@ {
                    assert(f.required_by.contains(d.drop_last()[k].values[x]));
                    let j = choose|j: int| 0 <= j < f.required_by.len() && f.required_by[j] == d[k].values[x];
                    assert(r.required_by.contains(f.required_by[j]));
                }
            } else {
                assert(d[k] == last);
                if last.name == "WantedBy"@ {
                    assert(r.wanted_by == append_missing(f.wanted_by, last.values));
                    assert(r.wanted_by.contains(last.values[x]));
                }
                if last.name == "RequiredBy"@ {
                    assert(r.required_by == append_missing(f.required_by, last.values));
                    assert(r.required_by.contains(last.values[x]));
                }
            }
        }
    }
}

/// Directives whose values the `[Install]` section already holds leave it as it is.
proof fn lemma_install_fold_covered(i: InstallView, d: Seq<DirectiveView>)
    requires
        install_covers(i, d),
    ensures
        install_directives_fold(i, d) == i,
    decreases d.len(),
{
    if d.len() > 0 {
        reveal_strlit("WantedBy");
        reveal_strlit("RequiredBy");
        assert("WantedBy"@.len() != "RequiredBy"@.len());
        assert forall|k: int, x: int| 0 <= k < d.drop_last().len() && 0 <= x < d.drop_last()[k].values.len() implies {
            &&& d.drop_last()[k].name == "WantedBy"@ ==> i.wanted_by.contains(#[trigger] d.drop_last()[k].values[x])
            &&& d.drop_last()[k].name == "RequiredBy"@ ==> i.required_by.contains(d.drop_last()[k].values[x])
        } by {
            assert(d.drop_last()[k] == d[k]);
            assert(i.wanted_by.contains(d[k].values[x]) || d[k].name != "WantedBy"@);
        }
        lemma_install_fold_covered(i, d.drop_last());
        let last = d.last();
        assert(last == d[d.len() - 1]);
        if last.name == "WantedBy"@ {
            assert forall|x: int| 0 <= x < last.values.len() implies i.wanted_by.contains(#[trigger] last.values[x]) by {
                assert(i.wanted_by.contains(d[d.len() - 1].values[x]));
            }
            law_append_missing_present(i.wanted_by, last.values);
        } else if last.name == "RequiredBy"@ {
            assert forall|x: int| 0 <= x < last.values.len() implies i.required_by.contains(#[trigger] last.values[x]) by {
                assert(i.required_by.contains(d[d.len() - 1].values[x]));
            }
            law_append_missing_present(i.required_by, last.values);
        }
    }
}

/// Applying the `Install` directives of the same `x-systemd` map twice gives what applying them
/// once gives.
pub proof fn law_install_directives_idempotent(i: InstallView, m: Seq<SectionView>)
    ensures
        install_directives(install_directives(i, m), m) == install_directives(i, m),
{
    match find_section(m, "Install"@) {
        Some(sec) => {
            lemma_install_fold_covers(i, sec.directives);
            lemma_install_fold_covered(install_directives_fold(i, sec.directives), sec.directives);
        },
        None => {},
    }
}

/// The values of the directives named `name`, in order.
pub open spec fn values_named(d: Seq<DirectiveView>, name: Seq<char>) -> Seq<Seq<char>>
    decreases d.len(),
{
    if d.len() == 0 {
        seq![]
    } else {
        values_named(d.drop_last(), name) + if d.last().name == name {
            d.last().values
        } else {
            Seq::<Seq<char>>::empty()
        }
    }
}

/// The directive names `Requires`, `After`, `Wants`, `Before`, and `BindsTo` differ.
proof fn lemma_unit_names_differ()
    ensures
        "Requires"@ != "After"@,
        "Requires"@ != "Wants"@,
        "Requires"@ != "Before"@,
        "Requires"@ != "BindsTo"@,
        "After"@ != "Wants"@,
        "After"@ != "Before"@,
        "After"@ != "BindsTo"@,
        "Wants"@ != "Before"@,
        "Wants"@ != "BindsTo"@,
        "Before"@ != "BindsTo"@,
{
    reveal_strlit("Requires");
    reveal_strlit("After");
    reveal_strlit("Wants");
    reveal_strlit("Before");
    reveal_strlit("BindsTo");
    assert("Requires"@.len() == 8);
    assert("After"@.len() == 5);
    assert("Wants"@.len() == 5);
    assert("Before"@.len() == 6);
    assert("BindsTo"@.len() == 7);
    assert("After"@[0] != "Wants"@[0]);
}

/// Applying directives in order adds to each list the values of the directives named after it.
proof fn lemma_unit_fold_fields(u: crate::quadlet::UnitView, d: Seq<DirectiveView>)
    ensures
        ({
            let r = unit_directives_fold(u, d);
            &&& r.requires == u.requires + values_named(d, "Requires"@)
            &&& r.after == u.after + values_named(d, "After"@)
            &&& r.wants == u.wants + values_named(d, "Wants"@)
            &&& r.before == u.before + values_named(d, "Before"@)
            &&& r.binds_to == u.binds_to + values_named(d, "BindsTo"@)
            &&& r.description == u.description
            &&& r.dependencies == u.dependencies
        }),
    decreases d.len(),
{
    lemma_unit_names_differ();
    if d.len() == 0 {
        let r = unit_directives_fold(u, d);
        assert(r.requires =~= u.requires + Seq::<Seq<char>>::empty());
        assert(r.after =~= u.after + Seq::<Seq<char>>::empty());
        assert(r.wants =~= u.wants + Seq::<Seq<char>>::empty());
        assert(r.before =~= u.before + Seq::<Seq<char>>::empty());
        assert(r.binds_to =~= u.binds_to + Seq::<Seq<char>>::empty());
    } else {
        lemma_unit_fold_fields(u, d.drop_last());
        let p = unit_directives_fold(u, d.drop_last());
        let r = unit_directives_fold(u, d);
        let l = d.last();
        let e = Seq::<Seq<char>>::empty();
        assert(r == unit_directive(p, l));
        assert(r.requires =~= u.requires + values_named(d, "Requires"@)) by {
            assert(values_named(d, "Requires"@) == values_named(d.drop_last(), "Requires"@) + if l.name
                == "Requires"@ { l.values } else { e });
        }
        assert(r.after =~= u.after + values_named(d, "After"@)) by {
            assert(values_named(d, "After"@) == values_named(d.drop_last(), "After"@) + if l.name
                == "After"@ { l.values } else { e });
        }
        assert(r.wants =~= u.wants + values_named(d, "Wants"@)) by {
            assert(values_named(d, "Wants"@) == values_named(d.drop_last(), "Wants"@) + if l.name
                == "Wants"@ { l.values } else { e });
        }
        assert(r.before =~= u.before + values_named(d, "Before"@)) by {
            assert(values_named(d, "Before"@) == values_named(d.drop_last(), "Before"@) + if l.name
                == "Before"@ { l.values } else { e });
        }
        assert(r.binds_to =~= u.binds_to + values_named(d, "BindsTo"@)) by {
            assert(values_named(d, "BindsTo"@) == values_named(d.drop_last(), "BindsTo"@) + if l.name
                == "BindsTo"@ { l.values } else { e });
        }
    }
}

/// `x-systemd` on a `[Unit]` section: with a `Unit` section in the map, `Requires=`, `After=`,
/// `Wants=`, `Before=`, and `BindsTo=` each get, after what they held, the values of the
/// directives of that name in order, and nothing else of the section changes; without one,
/// nothing changes.
pub proof fn law_unit_directives_fields(u: crate::quadlet::UnitView, m: Seq<SectionView>)
    ensures
        ({
            let r = unit_directives(u, m);
            match find_section(m, "Unit"@) {
                Some(sec) => {
                    &&& r.requires == u.requires + values_named(sec.directives, "Requires"@)
                    &&& r.after == u.after + values_named(sec.directives, "After"@)
                    &&& r.wants == u.wants + values_named(sec.directives, "Wants"@)
                    &&& r.before == u.before + values_named(sec.directives, "Before"@)
                    &&& r.binds_to == u.binds_to + values_named(sec.directives, "BindsTo"@)
                    &&& r.description == u.description
                    &&& r.dependencies == u.dependencies
                },
                None => r == u,
            }
        }),
{
    match find_section(m, "Unit"@) {
        Some(sec) => lemma_unit_fold_fields(u, sec.directives),
        None => {},
    }
}

/// A `Unit` section with the single directive `name` whose values are `vs` adds `vs` to the list of
/// that name: `BindsTo` to `BindsTo=`, `Requires` to `Requires=`, and so on.
pub proof fn law_unit_single_directive(u: crate::quadlet::UnitView, vs: Seq<Seq<char>>)
    ensures
        ({
            let one = |name: Seq<char>| seq![SectionView { name: "Unit"@, directives: seq![DirectiveView { name, values: vs }] }];
            &&& unit_directives(u, one("BindsTo"@)).binds_to == u.binds_to + vs
            &&& unit_directives(u, one("Requires"@)).requires == u.requires + vs
            &&& unit_directives(u, one("After"@)).after == u.after + vs
            &&& unit_directives(u, one("Wants"@)).wants == u.wants + vs
            &&& unit_directives(u, one("Before"@)).before == u.before + vs
        }),
{
    lemma_unit_names_differ();
    let names = seq!["BindsTo"@, "Requires"@, "After"@, "Wants"@, "Before"@];
    assert forall|k: int| 0 <= k < names.len() implies {
        let m = seq![SectionView { name: "Unit"@, directives: seq![DirectiveView { name: #[trigger] names[k], values: vs }] }];
        &&& find_section(m, "Unit"@) == Some(m[0])
        &&& values_named(m[0].directives, names[k]) == vs
    } by {
        let m = seq![SectionView { name: "Unit"@, directives: seq![DirectiveView { name: names[k], values: vs }] }];
        let d = m[0].directives;
        assert(d.drop_last() =~= Seq::<DirectiveView>::empty());
        assert(values_named(d.drop_last(), names[k]) == Seq::<Seq<char>>::empty());
        assert(d.last().name == names[k]);
        assert(values_named(d, names[k]) =~= Seq::<Seq<char>>::empty() + vs);
    }
    let one = |name: Seq<char>| seq![SectionView { name: "Unit"@, directives: seq![DirectiveView { name, values: vs }] }];
    assert(names[0] == "BindsTo"@);
    assert(names[1] == "Requires"@);
    assert(names[2] == "After"@);
    assert(names[3] == "Wants"@);
    assert(names[4] == "Before"@);
    law_unit_directives_fields(u, one("BindsTo"@));
    law_unit_directives_fields(u, one("Requires"@));
    law_unit_directives_fields(u, one("After"@));
    law_unit_directives_fields(u, one("Wants"@));
    law_unit_directives_fields(u, one("Before"@));
}

/// A service assigned to a pod with `x-pod` (successfully) joins it: its container names
/// `<pod>.pod` and publishes no port, the pod takes over the container's published ports after
/// its own, the file is named `<pod>-<service>`, and the `WantedBy=` targets of the file's
/// `[Install]` section are exactly those of the pod (given ones are dropped).
pub proof fn law_x_pod_joins_pod(
    service: Seq<char>,
    ext: ServiceExtensions,
    ctx: ContextView,
    file: FileView,
    pod: Seq<char>,
    c: ContainerView,
)
    requires
        ext.x_pod matches Some(Ok(xp)) && xp.name@ == pod,
        has_key(ctx, pod),
        distinct_keys(ctx),
        file.resource == ResourceView::Container(c),
    ensures
        ({
            let r = x_pod_service_step(service, ext, ctx, file);
            let rp = lookup(ctx, pod)->0;
            &&& r.2 is None
            &&& r.1.name == pod + "-"@ + service
            &&& r.1.resource == ResourceView::Container(
                ContainerView { pod: Some(pod + ".pod"@), publish_port: seq![], ..c },
            )
            &&& lookup(r.0, pod) == Some(pod_with_ports(rp, c.publish_port))
            &&& r.1.install.wanted_by == rp.wanted_by
            &&& r.1.install.required_by == file.install.required_by
            &&& r.1.unit == file.unit
        }),
{
    let rp = lookup(ctx, pod)->0;
    let e = insert_entry(ctx, pod, pod_with_ports(rp, c.publish_port));
    let p = key_pos(ctx, pod);
    assert(e[p].0 == pod);
    assert(has_key(e, pod));
    let q = key_pos(e, pod);
    assert(e[q].0 == pod);
    if q != p {
        assert(e[q] == ctx[q]);
        assert(ctx[p].0 == pod);
        if q < p {
            assert(ctx[q].0 != ctx[p].0);
        } else {
            assert(ctx[p].0 != ctx[q].0);
        }
    }
    assert(lookup(e, pod) == Some(e[q].1));
}


/// `x-podman` on a service without `cgroups` leaves the file as it is; with `cgroups`, only the
/// container's `CgroupsMode=` changes.
pub proof fn law_x_podman_cgroups(service: Seq<char>, ext: ServiceExtensions, file: FileView, c: ContainerView)
    requires
        ext.x_podman is Some && ext.x_podman->0 is Ok,
        file.resource == ResourceView::Container(c),
    ensures
        ({
            let x = ext.x_podman->0->Ok_0;
            let r = x_podman_service_step(service, ext, file);
            &&& r.1 is None
            &&& x.cgroups is None ==> r.0 == file
            &&& x.cgroups matches Some(m) ==> r.0 == FileView {
                resource: ResourceView::Container(ContainerView { cgroups_mode: Some(m@), ..c }),
                ..file
            }
        }),
{
}

/// `Description=` from the project name is set only when there is a project name and no
/// description yet; a given description is never overridden.
pub proof fn law_description_if_absent(
    u: crate::quadlet::UnitView,
    entity: Seq<char>,
    project: Option<Seq<char>>,
)
    ensures
        u.description is Some ==> described(u, entity, project) == u,
        project is None ==> described(u, entity, project) == u,
        (u.description is None && project is Some) ==> described(u, entity, project).description
            == Some(description_text(entity, project->0)),
{
}

/// `--pod` together with the `x-pods` extension is refused before anything is converted.
pub proof fn law_pod_excludes_x_pods(compose: Compose, doc: ComposeDocument, sections: GenericSectionsView)
    requires
        compose.pod,
        !compose.kube,
        texts(doc.extensions.keys@).contains("x-pods"@),
    ensures
        conversion_spec(compose, doc, sections) == (
            Err::<Seq<OutputFileView>, ComposeErrorView>(ComposeErrorView::PodAndXPods),
            Seq::<WarningView>::empty(),
        ),
{
}

/// A pod defined by name alone resolves to a pod that sets only `PodName=`, with no `[Unit]`
/// section and no `WantedBy=` targets.
pub proof fn law_minimal_pod(name: Seq<char>, def: PodDefinition)
    requires
        def.networks@.len() == 0,
        def.x_podman is None,
        def.x_systemd is None,
    ensures
        resolve_pod(name, def) == (ResolvedPodView {
            name,
            pod: crate::quadlet::PodView { pod_name: Some(name), ..empty_pod() },
            unit: None,
            wanted_by: seq![],
        }),
{
}

/// Downgrading a pod to Podman v5.3 or later changes nothing.
pub proof fn law_downgrade_recent_unchanged(p: crate::quadlet::PodView, version: PodmanVersion)
    requires
        version_rank(version) >= version_rank(PodmanVersion::V5_3),
    ensures
        downgraded(p, version) == p,
{
}

/// Downgrading a pod to a Podman version before v5.3 (v5.2 included) leaves none of the options
/// that Quadlet gained in v5.3: no `AddHost=`, `DNS=`, `DNSOption=`, `DNSSearch=`, `GIDMap=`,
/// `IP=`, `IP6=`, `SubGIDMap=`, `SubUIDMap=`, `UIDMap=`, or `UserNS=`; before v5.2 no
/// `NetworkAlias=` either. Everything else but `PodmanArgs=` is kept.
pub proof fn law_downgrade_removes_newer_options(p: crate::quadlet::PodView, version: PodmanVersion)
    requires
        version != PodmanVersion::V5_3,
    ensures
        ({
            let r = downgraded(p, version);
            &&& r.add_host.len() == 0
            &&& r.dns == crate::quadlet::DnsView::Custom(seq![])
            &&& r.dns_option.len() == 0
            &&& r.dns_search.len() == 0
            &&& r.gid_map.len() == 0
            &&& r.ip is None
            &&& r.ip6 is None
            &&& r.sub_gid_map is None
            &&& r.sub_uid_map is None
            &&& r.uid_map.len() == 0
            &&& r.user_ns is None
            &&& version != PodmanVersion::V5_2 ==> r.network_alias.len() == 0
            &&& version == PodmanVersion::V5_2 ==> r.network_alias == p.network_alias
            &&& r.network == p.network
            &&& r.network_attachments == p.network_attachments
            &&& r.pod_name == p.pod_name
            &&& r.publish_port == p.publish_port
            &&& r.volume == p.volume
        }),
{
}

/// Downgrading a pod whose only v5.3 option is `UserNS=<u>` (with no white space) and which has no
/// `PodmanArgs=` to Podman v5.2 moves it to `PodmanArgs=--userns <u>`.
pub proof fn law_downgrade_moves_userns(p: crate::quadlet::PodView, u: Seq<char>)
    requires
        p.add_host.len() == 0,
        p.dns == crate::quadlet::DnsView::Custom(seq![]),
        p.dns_option.len() == 0,
        p.dns_search.len() == 0,
        p.gid_map.len() == 0,
        p.ip is None,
        p.ip6 is None,
        p.sub_gid_map is None,
        p.sub_uid_map is None,
        p.uid_map.len() == 0,
        p.user_ns == Some(u),
        p.podman_args is None,
        !crate::text::has_white_space(u),
    ensures
        downgraded(p, PodmanVersion::V5_2).podman_args == Some("--userns "@ + u),
        downgraded(p, PodmanVersion::V5_2).user_ns is None,
{
    reveal_strlit("--userns ");
    reveal_strlit("--");
    reveal_strlit("userns");
    let ips = Seq::<crate::net::IpAddr>::empty();
    assert(ips.map_values(|ip: crate::net::IpAddr| crate::net::ip_text(ip)) =~= Seq::<Seq<char>>::empty());
    let v = seq![u];
    assert(v.drop_last() =~= Seq::<Seq<char>>::empty());
    assert(crate::pod::push_args_text(None, "userns"@, v.drop_last()) == None::<Seq<char>>);
    assert(v.last() == u);
    assert(crate::pod::push_args_text(None, "userns"@, v) == Some(
        crate::pod::push_arg_text(None, "userns"@, u),
    ));
    assert(crate::pod::push_arg_text(None, "userns"@, u) =~= "--userns "@ + u);
}

/// Building the context from `x-pods` holds, under each pod's name, the pod resolved from its
/// definition (pod names being distinct, as the keys of a map are).
pub proof fn law_x_pods_context(defs: Seq<(String, PodDefinition)>, i: int)
    requires
        0 <= i < defs.len(),
        forall|a: int, b: int| 0 <= a < b < defs.len() ==> (#[trigger] defs[a]).0@ != (#[trigger] defs[b]).0@,
    ensures
        lookup(x_pods_fold(Seq::<(Seq<char>, ResolvedPodView)>::empty(), defs), defs[i].0@) == Some(
            resolve_pod(defs[i].0@, defs[i].1),
        ),
        distinct_keys(x_pods_fold(Seq::<(Seq<char>, ResolvedPodView)>::empty(), defs)),
        x_pods_fold(Seq::<(Seq<char>, ResolvedPodView)>::empty(), defs).len() == defs.len(),
    decreases defs.len(),
{
    let e = Seq::<(Seq<char>, ResolvedPodView)>::empty();
    let front = defs.drop_last();
    let last = defs.last();
    let f = x_pods_fold(e, front);
    if front.len() > 0 {
        law_x_pods_context(front, if i < front.len() { i } else { 0 });
    } else {
        assert(distinct_keys(f));
    }
    assert(!has_key(f, last.0@)) by {
        lemma_fold_keys(front);
        if has_key(f, last.0@) {
            let j = choose|j: int| 0 <= j < f.len() && f[j].0 == last.0@;
            assert(f[j].0 == front[j].0@);
            assert(defs[j].0@ != defs[defs.len() - 1].0@);
        }
    }
    crate::collections::lemma_insert_distinct(f, last.0@, resolve_pod(last.0@, last.1));
    let r = x_pods_fold(e, defs);
    assert(r == f.push((last.0@, resolve_pod(last.0@, last.1))));
    if i < front.len() {
        assert(front[i] == defs[i]);
        let k = defs[i].0@;
        assert(has_key(f, k));
        let p = key_pos(f, k);
        assert(r[p] == f[p]);
        let q = key_pos(r, k);
        if q != p {
            if q == f.len() {
                assert(defs[i].0@ != defs[defs.len() - 1].0@);
            } else {
                assert(r[q] == f[q]);
                if q < p {
                    assert(f[q].0 != f[p].0);
                } else {
                    assert(f[p].0 != f[q].0);
                }
            }
        }
    } else {
        assert(i == defs.len() - 1);
    }
}

/// The keys of the context built from pod definitions are the definitions' names, in order
/// (pod names being distinct).
proof fn lemma_fold_keys(defs: Seq<(String, PodDefinition)>)
    requires
        forall|a: int, b: int| 0 <= a < b < defs.len() ==> (#[trigger] defs[a]).0@ != (#[trigger] defs[b]).0@,
    ensures
        x_pods_fold(Seq::<(Seq<char>, ResolvedPodView)>::empty(), defs).len() == defs.len(),
        forall|j: int|
            0 <= j < defs.len() ==> (#[trigger] x_pods_fold(
                Seq::<(Seq<char>, ResolvedPodView)>::empty(),
                defs,
            )[j]).0 == defs[j].0@,
    decreases defs.len(),
{
    if defs.len() > 0 {
        let front = defs.drop_last();
        lemma_fold_keys(front);
        let f = x_pods_fold(Seq::<(Seq<char>, ResolvedPodView)>::empty(), front);
        let last = defs.last();
        assert(!has_key(f, last.0@)) by {
            if has_key(f, last.0@) {
                let j = choose|j: int| 0 <= j < f.len() && f[j].0 == last.0@;
                assert(f[j].0 == front[j].0@);
                assert(defs[j].0@ != defs[defs.len() - 1].0@);
            }
        }
        let r = x_pods_fold(Seq::<(Seq<char>, ResolvedPodView)>::empty(), defs);
        assert(r == f.push((last.0@, resolve_pod(last.0@, last.1))));
        assert forall|j: int| 0 <= j < defs.len() implies (#[trigger] r[j]).0 == defs[j].0@ by {
            if j < front.len() {
                assert(r[j] == f[j]);
                assert(front[j] == defs[j]);
            }
        }
    }
}

} // verus!
