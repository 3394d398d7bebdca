//! The four compose extension handlers.

use vstd::prelude::*;
use crate::collections::{
    attachments_insert, insert_entry, lookup, pod_entries, pods_get, pods_get_index, pods_insert,
    pods_len,
};
use crate::extensions::{
    ComposeExtensionHandler, ComposeExtensions, ExtensionContext, ExtensionError,
    NetworkExtensions, PodDefinition, ResolvedPod, Scope, ScopeView, ServiceExtensions,
    VolumeExtensions, attachments_fold, pod_file, resolve_pod, x_pod_service_step,
    x_podman_network_step, x_podman_service_step, x_podman_volume_step, x_pods_build_step,
    x_pods_files, x_pods_fold, x_systemd_step,
};
use crate::quadlet::{
    File, Install, PodNetworkOptions, Resource, Settings, Unit, clone_strings, file_views,
};
use crate::systemd::{XSystemdMap, apply_install_directives, apply_unit_directives, wanted_by_of};
use crate::text::{push_missing, texts, u32_to_decimal};

verus! {

/// Deserialize-and-apply step of `x-systemd` for a network or volume file.
fn apply_systemd_sections(
    resource_name: &str,
    is_volume: bool,
    value: &Option<Result<XSystemdMap, String>>,
    file: &mut File,
) -> (r: Result<(), ExtensionError>)
    ensures
        ({
            let scope = if is_volume {
                ScopeView::Volume(resource_name@)
            } else {
                ScopeView::Network(resource_name@)
            };
            let step = x_systemd_step(scope, *value, old(file)@);
            match r {
                Ok(()) => step.1 is None && final(file)@ == step.0,
                Err(e) => step.1 == Some(e@) && final(file)@ == old(file)@,
            }
        }),
{
    match value {
        None => Ok(()),
        Some(Err(message)) => {
            let scope = if is_volume {
                Scope::Volume(resource_name.to_owned())
            } else {
                Scope::Network(resource_name.to_owned())
            };
            proof { reveal_strlit("x-systemd"); }
            Err(ExtensionError::Deserialize {
                key: "x-systemd".to_owned(),
                scope,
                message: message.clone(),
            })
        },
        Some(Ok(sections)) => {
            apply_unit_directives(sections, &mut file.unit);
            apply_install_directives(sections, &mut file.install);
            Ok(())
        },
    }
}

/// Handler for the `x-systemd` extension at network and volume scope.
///
/// Applies directives from each INI section to the corresponding section of the generated Quadlet
/// file.
pub struct XSystemdHandler;

impl ComposeExtensionHandler for XSystemdHandler {
    fn handled_keys(&self) -> (r: &'static [&'static str])
        ensures
            r@.len() == 1,
            r@[0]@ == "x-systemd"@,
    {
        &["x-systemd"]
    }

    fn handle_network(
        &self,
        network_name: &str,
        extensions: &NetworkExtensions,
        context: &mut ExtensionContext,
        file: &mut File,
    ) -> (r: Result<(), ExtensionError>)
        ensures
            final(context)@ == old(context)@,
            ({
                let step = x_systemd_step(
                    ScopeView::Network(network_name@),
                    extensions.x_systemd,
                    old(file)@,
                );
                match r {
                    Ok(()) => step.1 is None && final(file)@ == step.0,
                    Err(e) => step.1 == Some(e@) && final(file)@ == old(file)@,
                }
            }),
    {
        apply_systemd_sections(network_name, false, &extensions.x_systemd, file)
    }

    fn handle_volume(
        &self,
        volume_name: &str,
        extensions: &VolumeExtensions,
        context: &mut ExtensionContext,
        file: &mut File,
    ) -> (r: Result<(), ExtensionError>)
        ensures
            final(context)@ == old(context)@,
            ({
                let step = x_systemd_step(
                    ScopeView::Volume(volume_name@),
                    extensions.x_systemd,
                    old(file)@,
                );
                match r {
                    Ok(()) => step.1 is None && final(file)@ == step.0,
                    Err(e) => step.1 == Some(e@) && final(file)@ == old(file)@,
                }
            }),
    {
        apply_systemd_sections(volume_name, true, &extensions.x_systemd, file)
    }
}


/// Handler for the `x-podman` extension at service, network, and volume scope.
pub struct XPodmanHandler;

impl ComposeExtensionHandler for XPodmanHandler {
    fn handled_keys(&self) -> (r: &'static [&'static str])
        ensures
            r@.len() == 1,
            r@[0]@ == "x-podman"@,
    {
        &["x-podman"]
    }

    fn handle_service(
        &self,
        service_name: &str,
        extensions: &ServiceExtensions,
        context: &mut ExtensionContext,
        file: &mut File,
    ) -> (r: Result<(), ExtensionError>)
        ensures
            final(context)@ == old(context)@,
            ({
                let step = x_podman_service_step(service_name@, *extensions, old(file)@);
                match r {
                    Ok(()) => step.1 is None && final(file)@ == step.0,
                    Err(e) => step.1 == Some(e@) && final(file)@ == old(file)@,
                }
            }),
    {
        match &extensions.x_podman {
            None => Ok(()),
            Some(Err(message)) => {
                proof { reveal_strlit("x-podman"); }
                Err(ExtensionError::Deserialize {
                    key: "x-podman".to_owned(),
                    scope: Scope::Service(service_name.to_owned()),
                    message: message.clone(),
                })
            },
            Some(Ok(x_podman)) => {
                if let Resource::Container(container) = &mut file.resource {
                    if let Some(c) = &x_podman.cgroups {
                        container.cgroups_mode = Some(c.clone());
                    }
                }
                Ok(())
            },
        }
    }

    fn handle_network(
        &self,
        network_name: &str,
        extensions: &NetworkExtensions,
        context: &mut ExtensionContext,
        file: &mut File,
    ) -> (r: Result<(), ExtensionError>)
        ensures
            final(context)@ == old(context)@,
            ({
                let step = x_podman_network_step(network_name@, *extensions, old(file)@);
                match r {
                    Ok(()) => step.1 is None && final(file)@ == step.0,
                    Err(e) => step.1 == Some(e@) && final(file)@ == old(file)@,
                }
            }),
    {
        match &extensions.x_podman {
            None => Ok(()),
            Some(Err(message)) => {
                proof { reveal_strlit("x-podman"); }
                Err(ExtensionError::Deserialize {
                    key: "x-podman".to_owned(),
                    scope: Scope::Network(network_name.to_owned()),
                    message: message.clone(),
                })
            },
            Some(Ok(x_podman)) => {
                if let Resource::Network(network) = &mut file.resource {
                    if let Some(disable_dns) = x_podman.disable_dns {
                        network.disable_dns = disable_dns;
                    }
                }
                Ok(())
            },
        }
    }

    fn handle_volume(
        &self,
        volume_name: &str,
        extensions: &VolumeExtensions,
        context: &mut ExtensionContext,
        file: &mut File,
    ) -> (r: Result<(), ExtensionError>)
        ensures
            final(context)@ == old(context)@,
            ({
                let step = x_podman_volume_step(volume_name@, *extensions, old(file)@);
                match r {
                    Ok(()) => step.1 is None && final(file)@ == step.0,
                    Err(e) => step.1 == Some(e@) && final(file)@ == old(file)@,
                }
            }),
    {
        match &extensions.x_podman {
            None => Ok(()),
            Some(Err(message)) => {
                proof { reveal_strlit("x-podman"); }
                Err(ExtensionError::Deserialize {
                    key: "x-podman".to_owned(),
                    scope: Scope::Volume(volume_name.to_owned()),
                    message: message.clone(),
                })
            },
            Some(Ok(x_podman)) => {
                if let Some(ownership) = x_podman.ownership {
                    match (ownership.user, ownership.group) {
                        (Some(user), Some(group)) => {
                            if let Resource::Volume(volume) = &mut file.resource {
                                volume.user = Some(u32_to_decimal(user));
                                volume.group = Some(u32_to_decimal(group));
                            }
                        },
                        (None, None) => {},
                        _ => {
                            return Err(
                                ExtensionError::IncompleteOwnership {
                                    volume: volume_name.to_owned(),
                                },
                            );
                        },
                    }
                }
                Ok(())
            },
        }
    }
}


/// `s` followed by the characters of `suffix`.
fn concat(s: &String, suffix: &str) -> (r: String)
    ensures
        r@ == s@ + suffix@,
{
    let mut r = s.clone();
    r.append(suffix);
    r
}

/// Handler for the per-service `x-pod` extension.
///
/// Assigns containers to pods defined in `x-pods`, sets `Pod=`, prefixes the file name, propagates
/// `WantedBy=`, and moves published ports to the pod.
pub struct XPodServiceHandler;

impl ComposeExtensionHandler for XPodServiceHandler {
    fn handled_keys(&self) -> (r: &'static [&'static str])
        ensures
            r@.len() == 1,
            r@[0]@ == "x-pod"@,
    {
        &["x-pod"]
    }

    fn handle_service(
        &self,
        service_name: &str,
        extensions: &ServiceExtensions,
        context: &mut ExtensionContext,
        file: &mut File,
    ) -> (r: Result<(), ExtensionError>)
        ensures
            ({
                let step = x_pod_service_step(service_name@, *extensions, old(context)@, old(file)@);
                match r {
                    Ok(()) => step.2 is None && final(context)@ == step.0 && final(file)@ == step.1,
                    Err(e) => step.2 == Some(e@) && final(context)@ == old(context)@ && final(file)@
                        == old(file)@,
                }
            }),
    {
        match &extensions.x_pod {
            None => Ok(()),
            Some(Err(message)) => {
                proof { reveal_strlit("x-pod"); }
                Err(ExtensionError::Deserialize {
                    key: "x-pod".to_owned(),
                    scope: Scope::Service(service_name.to_owned()),
                    message: message.clone(),
                })
            },
            Some(Ok(x_pod)) => {
                let pod_name = &x_pod.name;
                let found = pods_get(&context.pods, pod_name.as_str());
                let mut resolved = match found {
                    None => {
                        return Err(
                            ExtensionError::UnknownPod {
                                service: service_name.to_owned(),
                                pod: pod_name.clone(),
                            },
                        );
                    },
                    Some(p) => p.duplicate(),
                };
                let wanted_by = clone_strings(&resolved.wanted_by);
                let ghost rp = resolved@;
                if let Resource::Container(container) = &mut file.resource {
                    proof { reveal_strlit(".pod"); }
                    container.pod = Some(concat(pod_name, ".pod"));
                    let mut ports: Vec<String> = Vec::new();
                    core::mem::swap(&mut ports, &mut container.publish_port);
                    let ghost moved = texts(ports@);
                    resolved.pod.publish_port.append(&mut ports);
                    assert(texts(container.publish_port@) =~= seq![]);
                    assert(texts(resolved.pod.publish_port@) =~= rp.pod.publish_port + moved);
                    assert(resolved@ == crate::extensions::pod_with_ports(rp, moved));
                    pods_insert(&mut context.pods, pod_name.clone(), resolved);
                }
                proof { reveal_strlit("-"); }
                let mut name = concat(pod_name, "-");
                name.append(service_name);
                file.name = name;
                file.install.wanted_by = wanted_by;
                Ok(())
            },
        }
    }
}

/// Handler for the top-level `x-pods` extension.
///
/// Resolves each pod definition into [`ExtensionContext::pods`] and emits a `.pod` file per pod.
pub struct XPodsHandler;

/// The pod resolved from one definition of `x-pods`.
fn resolve_definition(name: &String, definition: &PodDefinition) -> (r: ResolvedPod)
    ensures
        r@ == resolve_pod(name@, *definition),
{
    let mut pod = crate::quadlet::Pod::default();
    pod.pod_name = Some(name.clone());
    let mut i: usize = 0;
    while i < definition.networks.len()
        invariant
            i <= definition.networks.len(),
            pod@ == (crate::quadlet::PodView {
                pod_name: Some(name@),
                network_attachments: attachments_fold(
                    seq![],
                    definition.networks@.subrange(0, i as int),
                ),
                ..crate::quadlet::empty_pod()
            }),
        decreases definition.networks.len() - i,
    {
        let (net_name, attachment) = &definition.networks[i];
        attachments_insert(
            &mut pod.network_attachments,
            net_name.clone(),
            PodNetworkOptions { ip: attachment.ipv4_address },
        );
        proof {
            let p = definition.networks@.subrange(0, i + 1);
            assert(p.drop_last() =~= definition.networks@.subrange(0, i as int));
        }
        i = i + 1;
    }
    assert(definition.networks@.subrange(0, definition.networks.len() as int)
        =~= definition.networks@);
    if let Some(x_podman) = &definition.x_podman {
        pod.user_ns = match &x_podman.userns {
            Some(u) => Some(u.clone()),
            None => None,
        };
    }
    let (unit, wanted_by) = match &definition.x_systemd {
        Some(x_systemd) => {
            let mut unit = Unit::default();
            apply_unit_directives(x_systemd, &mut unit);
            let unit = if !unit.is_empty() {
                Some(unit)
            } else {
                None
            };
            (unit, wanted_by_of(x_systemd))
        },
        None => {
            let w: Vec<String> = Vec::new();
            assert(texts(w@) =~= seq![]);
            (None, w)
        },
    };
    ResolvedPod { name: name.clone(), pod, unit, wanted_by }
}

impl ComposeExtensionHandler for XPodsHandler {
    fn handled_keys(&self) -> (r: &'static [&'static str])
        ensures
            r@.len() == 1,
            r@[0]@ == "x-pods"@,
    {
        &["x-pods"]
    }

    fn build_context(&self, compose: &ComposeExtensions, context: &mut ExtensionContext) -> (r: Result<
        (),
        ExtensionError,
    >)
        ensures
            ({
                let step = x_pods_build_step(*compose, old(context)@);
                match r {
                    Ok(()) => step.1 is None && final(context)@ == step.0,
                    Err(e) => step.1 == Some(e@) && final(context)@ == old(context)@,
                }
            }),
    {
        match &compose.x_pods {
            None => Ok(()),
            Some(Err(message)) => {
                proof { reveal_strlit("x-pods"); }
                Err(ExtensionError::Deserialize {
                    key: "x-pods".to_owned(),
                    scope: Scope::Compose,
                    message: message.clone(),
                })
            },
            Some(Ok(pods)) => {
                let ghost c0 = context@;
                let mut i: usize = 0;
                while i < pods.len()
                    invariant
                        i <= pods.len(),
                        context@ == x_pods_fold(c0, pods@.subrange(0, i as int)),
                    decreases pods.len() - i,
                {
                    let (name, definition) = &pods[i];
                    let resolved = resolve_definition(name, definition);
                    pods_insert(&mut context.pods, name.clone(), resolved);
                    proof {
                        let p = pods@.subrange(0, i + 1);
                        assert(p.drop_last() =~= pods@.subrange(0, i as int));
                    }
                    i = i + 1;
                }
                assert(pods@.subrange(0, pods.len() as int) =~= pods@);
                Ok(())
            },
        }
    }

    fn compose_files(&self, context: &ExtensionContext, install: Option<&Install>) -> (r: Result<
        Vec<File>,
        ExtensionError,
    >)
        ensures
            r matches Ok(files) && file_views(files@) == x_pods_files(
                context@,
                match install {
                    Some(i) => Some(i@),
                    None => None,
                },
            ),
    {
        let ghost inst = match install {
            Some(i) => Some(i@),
            None => None,
        };
        let mut files: Vec<File> = Vec::new();
        let n = pods_len(&context.pods);
        let mut i: usize = 0;
        while i < n
            invariant
                n == context@.len(),
                i <= n,
                files.len() == i,
                inst == match install {
                    Some(i) => Some(i@),
                    None => None,
                },
                forall|j: int| 0 <= j < i ==> (#[trigger] files@[j])@ == pod_file(context@[j].1, inst),
            decreases n - i,
        {
            let (_, resolved) = pods_get_index(&context.pods, i);
            let mut file_install = match install {
                Some(base) => base.duplicate(),
                None => Install::default(),
            };
            let ghost base = match inst {
                Some(b) => b,
                None => crate::quadlet::empty_install(),
            };
            push_missing(&mut file_install.wanted_by, &resolved.wanted_by);
            let unit = match &resolved.unit {
                Some(u) => u.duplicate(),
                None => Unit::default(),
            };
            let file = File {
                name: resolved.name.clone(),
                unit,
                resource: Resource::Pod(resolved.pod.duplicate()),
                globals: Settings::default(),
                quadlet: Settings::default(),
                service: Settings::default(),
                install: file_install,
            };
            assert(file@ == pod_file(context@[i as int].1, inst));
            files.push(file);
            i = i + 1;
        }
        assert(file_views(files@) =~= x_pods_files(context@, inst));
        Ok(files)
    }
}

} // verus!
