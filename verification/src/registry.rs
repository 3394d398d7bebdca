//! The registry that dispatches compose extensions to the registered handlers.

use vstd::prelude::*;
use crate::extensions::{
    ComposeExtensionHandler, ComposeExtensions, ContextView, ExtensionContext, ExtensionError,
    ExtensionErrorView, NetworkExtensions, ResolvedPodView, ScopeView, ServiceExtensions,
    VolumeExtensions, x_pod_service_step, x_podman_network_step, x_podman_service_step,
    x_podman_volume_step, x_pods_build_step, x_pods_files, x_systemd_step,
};
use crate::handlers::{XPodServiceHandler, XPodmanHandler, XPodsHandler, XSystemdHandler};
use crate::quadlet::{File, FileView, Install, InstallView, file_views};
use crate::text::{contains_str, texts};

verus! {

/// The registered handlers, one per kind.
#[derive(Clone, Copy, PartialEq, Eq, Debug)]
pub enum HandlerKind {
    XPods,
    XPodService,
    XPodman,
    XSystemd,
}

/// The keys a handler processes.
pub open spec fn handler_keys(h: HandlerKind) -> Seq<Seq<char>> {
    match h {
        HandlerKind::XPods => seq!["x-pods"@],
        HandlerKind::XPodService => seq!["x-pod"@],
        HandlerKind::XPodman => seq!["x-podman"@],
        HandlerKind::XSystemd => seq!["x-systemd"@],
    }
}

/// The handlers a new registry holds, in the order it calls them.
pub open spec fn standard_handlers() -> Seq<HandlerKind> {
    seq![HandlerKind::XPods, HandlerKind::XPodService, HandlerKind::XPodman, HandlerKind::XSystemd]
}

/// All keys of a handler are disabled.
pub open spec fn handler_disabled(h: HandlerKind, disabled: Seq<Seq<char>>) -> bool {
    forall|i: int| 0 <= i < handler_keys(h).len() ==> disabled.contains(#[trigger] handler_keys(h)[i])
}

/// Each key of a handler is disabled or absent from the extensions: the handler is not called.
pub open spec fn handler_skipped(h: HandlerKind, disabled: Seq<Seq<char>>, present: Seq<Seq<char>>) -> bool {
    forall|i: int|
        0 <= i < handler_keys(h).len() ==> disabled.contains(#[trigger] handler_keys(h)[i])
            || !present.contains(handler_keys(h)[i])
}

/// What one handler does to a service file.
pub open spec fn service_step(
    h: HandlerKind,
    name: Seq<char>,
    ext: ServiceExtensions,
    ctx: ContextView,
    file: FileView,
) -> (ContextView, FileView, Option<ExtensionErrorView>) {
    match h {
        HandlerKind::XPodService => x_pod_service_step(name, ext, ctx, file),
        HandlerKind::XPodman => {
            let s = x_podman_service_step(name, ext, file);
            (ctx, s.0, s.1)
        },
        _ => (ctx, file, None),
    }
}

/// What the handlers do to a service file, in order, stopping at the first error.
pub open spec fn service_fold(
    hs: Seq<HandlerKind>,
    disabled: Seq<Seq<char>>,
    name: Seq<char>,
    ext: ServiceExtensions,
    ctx: ContextView,
    file: FileView,
) -> (ContextView, FileView, Option<ExtensionErrorView>)
    decreases hs.len(),
{
    if hs.len() == 0 {
        (ctx, file, None)
    } else {
        let p = service_fold(hs.drop_last(), disabled, name, ext, ctx, file);
        if p.2 is Some || handler_skipped(hs.last(), disabled, texts(ext.keys@)) {
            p
        } else {
            service_step(hs.last(), name, ext, p.0, p.1)
        }
    }
}

/// What one handler does to a network file.
pub open spec fn network_step(h: HandlerKind, name: Seq<char>, ext: NetworkExtensions, file: FileView) -> (
    FileView,
    Option<ExtensionErrorView>,
) {
    match h {
        HandlerKind::XPodman => x_podman_network_step(name, ext, file),
        HandlerKind::XSystemd => x_systemd_step(ScopeView::Network(name), ext.x_systemd, file),
        _ => (file, None),
    }
}

/// What the handlers do to a network file, in order, stopping at the first error.
pub open spec fn network_fold(
    hs: Seq<HandlerKind>,
    disabled: Seq<Seq<char>>,
    name: Seq<char>,
    ext: NetworkExtensions,
    file: FileView,
) -> (FileView, Option<ExtensionErrorView>)
    decreases hs.len(),
{
    if hs.len() == 0 {
        (file, None)
    } else {
        let p = network_fold(hs.drop_last(), disabled, name, ext, file);
        if p.1 is Some || handler_skipped(hs.last(), disabled, texts(ext.keys@)) {
            p
        } else {
            network_step(hs.last(), name, ext, p.0)
        }
    }
}

/// What one handler does to a volume file.
pub open spec fn volume_step(h: HandlerKind, name: Seq<char>, ext: VolumeExtensions, file: FileView) -> (
    FileView,
    Option<ExtensionErrorView>,
) {
    match h {
        HandlerKind::XPodman => x_podman_volume_step(name, ext, file),
        HandlerKind::XSystemd => x_systemd_step(ScopeView::Volume(name), ext.x_systemd, file),
        _ => (file, None),
    }
}

/// What the handlers do to a volume file, in order, stopping at the first error.
pub open spec fn volume_fold(
    hs: Seq<HandlerKind>,
    disabled: Seq<Seq<char>>,
    name: Seq<char>,
    ext: VolumeExtensions,
    file: FileView,
) -> (FileView, Option<ExtensionErrorView>)
    decreases hs.len(),
{
    if hs.len() == 0 {
        (file, None)
    } else {
        let p = volume_fold(hs.drop_last(), disabled, name, ext, file);
        if p.1 is Some || handler_skipped(hs.last(), disabled, texts(ext.keys@)) {
            p
        } else {
            volume_step(hs.last(), name, ext, p.0)
        }
    }
}

/// What one handler adds to the context.
pub open spec fn build_step(h: HandlerKind, ext: ComposeExtensions, ctx: ContextView) -> (
    ContextView,
    Option<ExtensionErrorView>,
) {
    match h {
        HandlerKind::XPods => x_pods_build_step(ext, ctx),
        _ => (ctx, None),
    }
}

/// The context built by the handlers that are not disabled, in order, stopping at the first
/// error.
pub open spec fn build_fold(
    hs: Seq<HandlerKind>,
    disabled: Seq<Seq<char>>,
    ext: ComposeExtensions,
    ctx: ContextView,
) -> (ContextView, Option<ExtensionErrorView>)
    decreases hs.len(),
{
    if hs.len() == 0 {
        (ctx, None)
    } else {
        let p = build_fold(hs.drop_last(), disabled, ext, ctx);
        if p.1 is Some || handler_disabled(hs.last(), disabled) {
            p
        } else {
            build_step(hs.last(), ext, p.0)
        }
    }
}

/// The extra files of one handler.
pub open spec fn files_of(h: HandlerKind, ctx: ContextView, install: Option<InstallView>) -> Seq<
    FileView,
> {
    match h {
        HandlerKind::XPods => x_pods_files(ctx, install),
        _ => seq![],
    }
}

/// The extra files of the handlers that are not disabled, in order.
pub open spec fn files_fold(
    hs: Seq<HandlerKind>,
    disabled: Seq<Seq<char>>,
    ctx: ContextView,
    install: Option<InstallView>,
) -> Seq<FileView>
    decreases hs.len(),
{
    if hs.len() == 0 {
        seq![]
    } else {
        let p = files_fold(hs.drop_last(), disabled, ctx, install);
        if handler_disabled(hs.last(), disabled) {
            p
        } else {
            p + files_of(hs.last(), ctx, install)
        }
    }
}

/// Some handler processes `k`, or `k` is disabled.
pub open spec fn is_known(hs: Seq<HandlerKind>, disabled: Seq<Seq<char>>, k: Seq<char>) -> bool {
    (exists|i: int| 0 <= i < hs.len() && handler_keys(#[trigger] hs[i]).contains(k))
        || disabled.contains(k)
}

/// The keys, in order, that no handler processes and that are not disabled.
pub open spec fn unknown_keys(hs: Seq<HandlerKind>, disabled: Seq<Seq<char>>, keys: Seq<Seq<char>>) -> Seq<
    Seq<char>,
>
    decreases keys.len(),
{
    if keys.len() == 0 {
        seq![]
    } else {
        let p = unknown_keys(hs, disabled, keys.drop_last());
        if is_known(hs, disabled, keys.last()) {
            p
        } else {
            p.push(keys.last())
        }
    }
}

/// The characters of each key of a list.
pub open spec fn key_texts(s: Seq<&str>) -> Seq<Seq<char>> {
    s.map_values(|k: &str| k@)
}

/// Once a handler fails, the later handlers change nothing.
proof fn lemma_build_error_stays(
    hs: Seq<HandlerKind>,
    k: int,
    disabled: Seq<Seq<char>>,
    ext: ComposeExtensions,
    ctx: ContextView,
)
    requires
        0 <= k <= hs.len(),
        build_fold(hs.subrange(0, k), disabled, ext, ctx).1 is Some,
    ensures
        build_fold(hs, disabled, ext, ctx) == build_fold(hs.subrange(0, k), disabled, ext, ctx),
    decreases hs.len(),
{
    if k == hs.len() {
        assert(hs.subrange(0, k) =~= hs);
    } else {
        assert(hs.drop_last().subrange(0, k) =~= hs.subrange(0, k));
        lemma_build_error_stays(hs.drop_last(), k, disabled, ext, ctx);
    }
}

/// Once a handler fails, the later handlers change nothing.
proof fn lemma_service_error_stays(
    hs: Seq<HandlerKind>,
    k: int,
    disabled: Seq<Seq<char>>,
    name: Seq<char>,
    ext: ServiceExtensions,
    ctx: ContextView,
    file: FileView,
)
    requires
        0 <= k <= hs.len(),
        service_fold(hs.subrange(0, k), disabled, name, ext, ctx, file).2 is Some,
    ensures
        service_fold(hs, disabled, name, ext, ctx, file) == service_fold(
            hs.subrange(0, k),
            disabled,
            name,
            ext,
            ctx,
            file,
        ),
    decreases hs.len(),
{
    if k == hs.len() {
        assert(hs.subrange(0, k) =~= hs);
    } else {
        assert(hs.drop_last().subrange(0, k) =~= hs.subrange(0, k));
        lemma_service_error_stays(hs.drop_last(), k, disabled, name, ext, ctx, file);
    }
}

/// Once a handler fails, the later handlers change nothing.
proof fn lemma_network_error_stays(
    hs: Seq<HandlerKind>,
    k: int,
    disabled: Seq<Seq<char>>,
    name: Seq<char>,
    ext: NetworkExtensions,
    file: FileView,
)
    requires
        0 <= k <= hs.len(),
        network_fold(hs.subrange(0, k), disabled, name, ext, file).1 is Some,
    ensures
        network_fold(hs, disabled, name, ext, file) == network_fold(
            hs.subrange(0, k),
            disabled,
            name,
            ext,
            file,
        ),
    decreases hs.len(),
{
    if k == hs.len() {
        assert(hs.subrange(0, k) =~= hs);
    } else {
        assert(hs.drop_last().subrange(0, k) =~= hs.subrange(0, k));
        lemma_network_error_stays(hs.drop_last(), k, disabled, name, ext, file);
    }
}

/// Once a handler fails, the later handlers change nothing.
proof fn lemma_volume_error_stays(
    hs: Seq<HandlerKind>,
    k: int,
    disabled: Seq<Seq<char>>,
    name: Seq<char>,
    ext: VolumeExtensions,
    file: FileView,
)
    requires
        0 <= k <= hs.len(),
        volume_fold(hs.subrange(0, k), disabled, name, ext, file).1 is Some,
    ensures
        volume_fold(hs, disabled, name, ext, file) == volume_fold(
            hs.subrange(0, k),
            disabled,
            name,
            ext,
            file,
        ),
    decreases hs.len(),
{
    if k == hs.len() {
        assert(hs.subrange(0, k) =~= hs);
    } else {
        assert(hs.drop_last().subrange(0, k) =~= hs.subrange(0, k));
        lemma_volume_error_stays(hs.drop_last(), k, disabled, name, ext, file);
    }
}

/// The keys a handler processes.
fn keys_of(h: HandlerKind) -> (r: &'static [&'static str])
    ensures
        key_texts(r@) == handler_keys(h),
{
    let r = match h {
        HandlerKind::XPods => XPodsHandler.handled_keys(),
        HandlerKind::XPodService => XPodServiceHandler.handled_keys(),
        HandlerKind::XPodman => XPodmanHandler.handled_keys(),
        HandlerKind::XSystemd => XSystemdHandler.handled_keys(),
    };
    assert(key_texts(r@) =~= handler_keys(h));
    r
}

/// What a registry dispatches by: its handlers, in order, and the disabled keys.
pub struct Dispatch {
    pub handlers: Seq<HandlerKind>,
    pub disabled: Seq<Seq<char>>,
}

/// Registry that dispatches compose extensions to the registered handlers.
pub struct ExtensionRegistry {
    handlers: Vec<HandlerKind>,
    disabled_keys: Vec<String>,
}

impl ExtensionRegistry {
    /// The handlers, in the order they are called.
    pub closed spec fn handler_list(self) -> Seq<HandlerKind> {
        self.handlers@
    }

    /// The disabled keys.
    pub closed spec fn disabled(self) -> Seq<Seq<char>> {
        texts(self.disabled_keys@)
    }

    /// The handlers and the disabled keys.
    pub open spec fn dispatch(self) -> Dispatch {
        Dispatch { handlers: self.handler_list(), disabled: self.disabled() }
    }

    /// Build the registry with all default handlers registered.
    ///
    /// Keys in `disabled_keys` are treated as known (suppressing "unknown extension" warnings)
    /// but their handlers are skipped.
    pub fn new(disabled_keys: Vec<String>) -> (r: Self)
        ensures
            r.handler_list() == standard_handlers(),
            r.disabled() == texts(disabled_keys@),
    {
        let mut handlers = Vec::new();
        handlers.push(HandlerKind::XPods);
        handlers.push(HandlerKind::XPodService);
        handlers.push(HandlerKind::XPodman);
        handlers.push(HandlerKind::XSystemd);
        assert(handlers@ =~= standard_handlers());
        ExtensionRegistry { handlers, disabled_keys }
    }

    /// Returns `true` if the given extension key is disabled.
    fn is_disabled(&self, key: &str) -> (r: bool)
        ensures
            r == self.disabled().contains(key@),
    {
        contains_str(&self.disabled_keys, key)
    }

    /// Returns `true` if all of a handler's keys are disabled.
    fn handler_disabled(&self, h: HandlerKind) -> (r: bool)
        ensures
            r == handler_disabled(h, self.disabled()),
    {
        let keys = keys_of(h);
        let mut i: usize = 0;
        while i < keys.len()
            invariant
                key_texts(keys@) == handler_keys(h),
                i <= keys.len(),
                forall|j: int| 0 <= j < i ==> self.disabled().contains(#[trigger] handler_keys(h)[j]),
            decreases keys.len() - i,
        {
            assert(key_texts(keys@)[i as int] == keys@[i as int]@);
            if !self.is_disabled(keys[i]) {
                return false;
            }
            i = i + 1;
        }
        true
    }

    /// Returns `true` if each of a handler's keys is disabled or absent from `present`.
    fn handler_skipped(&self, h: HandlerKind, present: &Vec<String>) -> (r: bool)
        ensures
            r == handler_skipped(h, self.disabled(), texts(present@)),
    {
        let keys = keys_of(h);
        let mut i: usize = 0;
        while i < keys.len()
            invariant
                key_texts(keys@) == handler_keys(h),
                i <= keys.len(),
                forall|j: int|
                    0 <= j < i ==> self.disabled().contains(#[trigger] handler_keys(h)[j])
                        || !texts(present@).contains(handler_keys(h)[j]),
            decreases keys.len() - i,
        {
            assert(key_texts(keys@)[i as int] == keys@[i as int]@);
            if !self.is_disabled(keys[i]) && contains_str(present, keys[i]) {
                return false;
            }
            i = i + 1;
        }
        true
    }

    /// Run the context-build phase: calls `build_context` on each handler that is not disabled.
    pub fn build_context(&self, compose: &ComposeExtensions) -> (r: Result<
        ExtensionContext,
        ExtensionError,
    >)
        ensures
            ({
                let f = build_fold(
                    self.handler_list(),
                    self.disabled(),
                    *compose,
                    Seq::<(Seq<char>, ResolvedPodView)>::empty(),
                );
                match r {
                    Ok(c) => f.1 is None && c@ == f.0,
                    Err(e) => f.1 == Some(e@),
                }
            }),
    {
        let mut context = ExtensionContext::new();
        let ghost c0 = context@;
        let mut i: usize = 0;
        while i < self.handlers.len()
            invariant
                i <= self.handlers.len(),
                c0 == Seq::<(Seq<char>, ResolvedPodView)>::empty(),
                build_fold(self.handlers@.subrange(0, i as int), self.disabled(), *compose, c0) == (
                context@, None::<ExtensionErrorView>),
            decreases self.handlers.len() - i,
        {
            let h = self.handlers[i];
            proof {
                let p = self.handlers@.subrange(0, i + 1);
                assert(p.drop_last() =~= self.handlers@.subrange(0, i as int));
            }
            if !self.handler_disabled(h) {
                let res = match h {
                    HandlerKind::XPods => XPodsHandler.build_context(compose, &mut context),
                    HandlerKind::XPodService => XPodServiceHandler.build_context(compose, &mut context),
                    HandlerKind::XPodman => XPodmanHandler.build_context(compose, &mut context),
                    HandlerKind::XSystemd => XSystemdHandler.build_context(compose, &mut context),
                };
                if let Err(e) = res {
                    proof {
                        lemma_build_error_stays(self.handlers@, i + 1, self.disabled(), *compose, c0);
                    }
                    return Err(e);
                }
            }
            i = i + 1;
        }
        assert(self.handlers@.subrange(0, self.handlers.len() as int) =~= self.handlers@);
        Ok(context)
    }

    /// Collect extra Quadlet files (e.g., `.pod` files) from all handlers that are not disabled.
    pub fn compose_files(&self, context: &ExtensionContext, install: Option<&Install>) -> (r: Result<
        Vec<File>,
        ExtensionError,
    >)
        ensures
            r matches Ok(v) && file_views(v@) == files_fold(
                self.handler_list(),
                self.disabled(),
                context@,
                match install {
                    Some(i) => Some(i@),
                    None => None,
                },
            ),
    {
        let ghost inst = match install {
            Some(i) => Some(i@),
            None => None,
        };
        let mut files: Vec<File> = Vec::new();
        let mut i: usize = 0;
        while i < self.handlers.len()
            invariant
                i <= self.handlers.len(),
                inst == match install {
                    Some(i) => Some(i@),
                    None => None,
                },
                file_views(files@) == files_fold(
                    self.handlers@.subrange(0, i as int),
                    self.disabled(),
                    context@,
                    inst,
                ),
            decreases self.handlers.len() - i,
        {
            let h = self.handlers[i];
            proof {
                let p = self.handlers@.subrange(0, i + 1);
                assert(p.drop_last() =~= self.handlers@.subrange(0, i as int));
            }
            if !self.handler_disabled(h) {
                let res = match h {
                    HandlerKind::XPods => XPodsHandler.compose_files(context, install),
                    HandlerKind::XPodService => XPodServiceHandler.compose_files(context, install),
                    HandlerKind::XPodman => XPodmanHandler.compose_files(context, install),
                    HandlerKind::XSystemd => XSystemdHandler.compose_files(context, install),
                };
                match res {
                    Ok(mut more) => {
                        let ghost before = file_views(files@);
                        let ghost added = file_views(more@);
                        assert(added == files_of(h, context@, inst)) by {
                            if h != HandlerKind::XPods {
                                assert(added =~= seq![]);
                            }
                        }
                        files.append(&mut more);
                        assert(file_views(files@) =~= before + added);
                    },
                    Err(e) => {
                        return Err(e);
                    },
                }
            }
            i = i + 1;
        }
        assert(self.handlers@.subrange(0, self.handlers.len() as int) =~= self.handlers@);
        Ok(files)
    }

    /// Dispatch service extensions to each handler that is not skipped, in order.
    pub fn apply_service(
        &self,
        service_name: &str,
        extensions: &ServiceExtensions,
        context: &mut ExtensionContext,
        file: &mut File,
    ) -> (r: Result<(), ExtensionError>)
        ensures
            ({
                let f = service_fold(
                    self.handler_list(),
                    self.disabled(),
                    service_name@,
                    *extensions,
                    old(context)@,
                    old(file)@,
                );
                &&& final(context)@ == f.0
                &&& final(file)@ == f.1
                &&& match r {
                    Ok(()) => f.2 is None,
                    Err(e) => f.2 == Some(e@),
                }
            }),
    {
        let ghost c0 = context@;
        let ghost f0 = file@;
        let mut i: usize = 0;
        while i < self.handlers.len()
            invariant
                i <= self.handlers.len(),
                c0 == old(context)@,
                f0 == old(file)@,
                service_fold(
                    self.handlers@.subrange(0, i as int),
                    self.disabled(),
                    service_name@,
                    *extensions,
                    c0,
                    f0,
                ) == (context@, file@, None::<ExtensionErrorView>),
            decreases self.handlers.len() - i,
        {
            let h = self.handlers[i];
            proof {
                let p = self.handlers@.subrange(0, i + 1);
                assert(p.drop_last() =~= self.handlers@.subrange(0, i as int));
            }
            if !self.handler_skipped(h, &extensions.keys) {
                let res = match h {
                    HandlerKind::XPods => XPodsHandler.handle_service(
                        service_name,
                        extensions,
                        context,
                        file,
                    ),
                    HandlerKind::XPodService => XPodServiceHandler.handle_service(
                        service_name,
                        extensions,
                        context,
                        file,
                    ),
                    HandlerKind::XPodman => XPodmanHandler.handle_service(
                        service_name,
                        extensions,
                        context,
                        file,
                    ),
                    HandlerKind::XSystemd => XSystemdHandler.handle_service(
                        service_name,
                        extensions,
                        context,
                        file,
                    ),
                };
                if let Err(e) = res {
                    proof {
                        lemma_service_error_stays(
                            self.handlers@,
                            i + 1,
                            self.disabled(),
                            service_name@,
                            *extensions,
                            c0,
                            f0,
                        );
                    }
                    return Err(e);
                }
            }
            i = i + 1;
        }
        assert(self.handlers@.subrange(0, self.handlers.len() as int) =~= self.handlers@);
        Ok(())
    }

    /// Dispatch network extensions to each handler that is not skipped, in order.
    pub fn apply_network(
        &self,
        network_name: &str,
        extensions: &NetworkExtensions,
        context: &mut ExtensionContext,
        file: &mut File,
    ) -> (r: Result<(), ExtensionError>)
        ensures
            final(context)@ == old(context)@,
            ({
                let f = network_fold(
                    self.handler_list(),
                    self.disabled(),
                    network_name@,
                    *extensions,
                    old(file)@,
                );
                &&& final(file)@ == f.0
                &&& match r {
                    Ok(()) => f.1 is None,
                    Err(e) => f.1 == Some(e@),
                }
            }),
    {
        let ghost c0 = context@;
        let ghost f0 = file@;
        let mut i: usize = 0;
        while i < self.handlers.len()
            invariant
                i <= self.handlers.len(),
                context@ == c0,
                c0 == old(context)@,
                f0 == old(file)@,
                network_fold(
                    self.handlers@.subrange(0, i as int),
                    self.disabled(),
                    network_name@,
                    *extensions,
                    f0,
                ) == (file@, None::<ExtensionErrorView>),
            decreases self.handlers.len() - i,
        {
            let h = self.handlers[i];
            proof {
                let p = self.handlers@.subrange(0, i + 1);
                assert(p.drop_last() =~= self.handlers@.subrange(0, i as int));
            }
            if !self.handler_skipped(h, &extensions.keys) {
                let res = match h {
                    HandlerKind::XPods => XPodsHandler.handle_network(
                        network_name,
                        extensions,
                        context,
                        file,
                    ),
                    HandlerKind::XPodService => XPodServiceHandler.handle_network(
                        network_name,
                        extensions,
                        context,
                        file,
                    ),
                    HandlerKind::XPodman => XPodmanHandler.handle_network(
                        network_name,
                        extensions,
                        context,
                        file,
                    ),
                    HandlerKind::XSystemd => XSystemdHandler.handle_network(
                        network_name,
                        extensions,
                        context,
                        file,
                    ),
                };
                if let Err(e) = res {
                    proof {
                        lemma_network_error_stays(
                            self.handlers@,
                            i + 1,
                            self.disabled(),
                            network_name@,
                            *extensions,
                            f0,
                        );
                    }
                    return Err(e);
                }
            }
            i = i + 1;
        }
        assert(self.handlers@.subrange(0, self.handlers.len() as int) =~= self.handlers@);
        Ok(())
    }

    /// Dispatch volume extensions to each handler that is not skipped, in order.
    pub fn apply_volume(
        &self,
        volume_name: &str,
        extensions: &VolumeExtensions,
        context: &mut ExtensionContext,
        file: &mut File,
    ) -> (r: Result<(), ExtensionError>)
        ensures
            final(context)@ == old(context)@,
            ({
                let f = volume_fold(
                    self.handler_list(),
                    self.disabled(),
                    volume_name@,
                    *extensions,
                    old(file)@,
                );
                &&& final(file)@ == f.0
                &&& match r {
                    Ok(()) => f.1 is None,
                    Err(e) => f.1 == Some(e@),
                }
            }),
    {
        let ghost c0 = context@;
        let ghost f0 = file@;
        let mut i: usize = 0;
        while i < self.handlers.len()
            invariant
                i <= self.handlers.len(),
                context@ == c0,
                c0 == old(context)@,
                f0 == old(file)@,
                volume_fold(
                    self.handlers@.subrange(0, i as int),
                    self.disabled(),
                    volume_name@,
                    *extensions,
                    f0,
                ) == (file@, None::<ExtensionErrorView>),
            decreases self.handlers.len() - i,
        {
            let h = self.handlers[i];
            proof {
                let p = self.handlers@.subrange(0, i + 1);
                assert(p.drop_last() =~= self.handlers@.subrange(0, i as int));
            }
            if !self.handler_skipped(h, &extensions.keys) {
                let res = match h {
                    HandlerKind::XPods => XPodsHandler.handle_volume(
                        volume_name,
                        extensions,
                        context,
                        file,
                    ),
                    HandlerKind::XPodService => XPodServiceHandler.handle_volume(
                        volume_name,
                        extensions,
                        context,
                        file,
                    ),
                    HandlerKind::XPodman => XPodmanHandler.handle_volume(
                        volume_name,
                        extensions,
                        context,
                        file,
                    ),
                    HandlerKind::XSystemd => XSystemdHandler.handle_volume(
                        volume_name,
                        extensions,
                        context,
                        file,
                    ),
                };
                if let Err(e) = res {
                    proof {
                        lemma_volume_error_stays(
                            self.handlers@,
                            i + 1,
                            self.disabled(),
                            volume_name@,
                            *extensions,
                            f0,
                        );
                    }
                    return Err(e);
                }
            }
            i = i + 1;
        }
        assert(self.handlers@.subrange(0, self.handlers.len() as int) =~= self.handlers@);
        Ok(())
    }

    /// Whether some handler processes `key`, or `key` is disabled.
    fn is_known_key(&self, key: &str) -> (r: bool)
        ensures
            r == is_known(self.handler_list(), self.disabled(), key@),
    {
        let mut i: usize = 0;
        while i < self.handlers.len()
            invariant
                i <= self.handlers.len(),
                forall|j: int| 0 <= j < i ==> !handler_keys(#[trigger] self.handlers@[j]).contains(key@),
            decreases self.handlers.len() - i,
        {
            let keys = keys_of(self.handlers[i]);
            let mut k: usize = 0;
            while k < keys.len()
                invariant
                    i < self.handlers.len(),
                    key_texts(keys@) == handler_keys(self.handlers@[i as int]),
                    k <= keys.len(),
                    forall|j: int| 0 <= j < k ==> key_texts(keys@)[j] != key@,
                decreases keys.len() - k,
            {
                if crate::text::str_eq(keys[k], key) {
                    assert(handler_keys(self.handlers@[i as int])[k as int] == key@);
                    assert(handler_keys(self.handlers@[i as int]).contains(key@));
                    assert(is_known(self.handler_list(), self.disabled(), key@));
                    return true;
                }
                k = k + 1;
            }
            assert(!handler_keys(self.handlers@[i as int]).contains(key@)) by {
                assert forall|j: int| 0 <= j < key_texts(keys@).len() implies key_texts(keys@)[j] != key@ by {}
            }
            i = i + 1;
        }
        self.is_disabled(key)
    }

    /// The extension keys, in order, that no registered handler processes and that are not
    /// disabled: the keys to warn about as unsupported.
    pub fn warn_unknown(&self, keys: &Vec<String>) -> (r: Vec<String>)
        ensures
            texts(r@) == unknown_keys(self.handler_list(), self.disabled(), texts(keys@)),
    {
        let mut unknown: Vec<String> = Vec::new();
        let mut i: usize = 0;
        while i < keys.len()
            invariant
                i <= keys.len(),
                texts(unknown@) == unknown_keys(
                    self.handler_list(),
                    self.disabled(),
                    texts(keys@.subrange(0, i as int)),
                ),
            decreases keys.len() - i,
        {
            let ghost before = texts(unknown@);
            proof {
                let p = texts(keys@.subrange(0, i + 1));
                assert(p.drop_last() =~= texts(keys@.subrange(0, i as int)));
                assert(p.last() == keys@[i as int]@);
            }
            if !self.is_known_key(keys[i].as_str()) {
                unknown.push(keys[i].clone());
                assert(texts(unknown@) =~= before.push(keys@[i as int]@));
            }
            i = i + 1;
        }
        assert(keys@.subrange(0, keys.len() as int) =~= keys@);
        unknown
    }
}

impl Default for ExtensionRegistry {
    fn default() -> (r: Self)
        ensures
            r.handler_list() == standard_handlers(),
            r.disabled() == Seq::<Seq<char>>::empty(),
    {
        let keys: Vec<String> = Vec::new();
        let r = Self::new(keys);
        assert(texts(keys@) =~= Seq::<Seq<char>>::empty());
        r
    }
}

} // verus!
