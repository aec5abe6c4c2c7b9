//! The dynamic portal: on every change of the host signal it re-renders
//! its children into a freshly resolved container and tears the previous
//! mount down first.
//!
//! The reactive wiring (subscribing to the signal, scheduling the effect,
//! registering the owner cleanup) is the application's concern; on each
//! change the application calls [`DynamicPortal::step`] with the current
//! host, and on final disposal [`DynamicPortal::cleanup`]. The container
//! decision itself is also exposed as the pure function
//! [`choose_strategy`], so the application can drive a real document by
//! the same verified rule.

use vstd::prelude::*;

use crate::container;
use crate::dom::Dom;
use crate::dom::Node;
use crate::dom::Tag;
use crate::dom::DOCUMENT_ROOT;
use crate::dom::FALLBACK_CONTAINER_ID;
use crate::dom::NO_ID;
use crate::dom::WRAPPER_CONTAINER_ID;

verus! {

/// The configuration surface of a dynamic portal, with the documented
/// defaults.
#[derive(Clone, Copy, PartialEq, Eq, Debug)]
pub struct PortalConfig {
    /// Attach an open shadow root to created containers.
    pub use_shadow: bool,
    /// SVG context: containers are `g` elements instead of `div`.
    pub is_svg: bool,
    /// Hide the fallback container while no host is available.
    pub hide_if_none: bool,
    /// Wrap a provided host in a fresh wrapper container.
    pub wrap_children: bool,
}

impl Default for PortalConfig {
    /// Defaults: no shadow root, HTML context, hide the fallback
    /// container, render directly into a provided host.
    fn default() -> (c: PortalConfig)
        ensures
            c == (PortalConfig {
                use_shadow: false,
                is_svg: false,
                hide_if_none: true,
                wrap_children: false,
            }),
    {
        PortalConfig { use_shadow: false, is_svg: false, hide_if_none: true, wrap_children: false }
    }
}

/// The container tag for the rendering context.
pub open spec fn tag_for(is_svg: bool) -> Tag {
    if is_svg {
        Tag::G
    } else {
        Tag::Div
    }
}

/// Executable counterpart of [`tag_for`].
pub fn choose_tag(is_svg: bool) -> (t: Tag)
    ensures
        t == tag_for(is_svg),
{
    if is_svg {
        Tag::G
    } else {
        Tag::Div
    }
}

/// How the mount container is obtained for one host state.
#[derive(Clone, Copy, PartialEq, Eq, Debug)]
pub enum ContainerStrategy {
    /// Host present, wrapping requested: create a wrapper container and
    /// re-parent the host inside it.
    WrapHost,
    /// Host present, no wrapping: the host element itself is the
    /// container; nothing is created.
    UseHost,
    /// Host absent: locate or create the fallback singleton.
    Fallback,
}

/// The container rule of the portal, as a function of the host state.
pub open spec fn strategy_for(host_present: bool, wrap_children: bool) -> ContainerStrategy {
    if host_present {
        if wrap_children {
            ContainerStrategy::WrapHost
        } else {
            ContainerStrategy::UseHost
        }
    } else {
        ContainerStrategy::Fallback
    }
}

/// The container counts as externally provided exactly when it is the
/// host element itself; only then does cleanup leave it in place.
pub open spec fn container_is_provided(host_present: bool, wrap_children: bool) -> bool {
    host_present && !wrap_children
}

/// Executable counterpart of [`strategy_for`], for driving a real
/// document by the verified rule.
pub fn choose_strategy(host_present: bool, wrap_children: bool) -> (s: ContainerStrategy)
    ensures
        s == strategy_for(host_present, wrap_children),
{
    if host_present {
        if wrap_children {
            ContainerStrategy::WrapHost
        } else {
            ContainerStrategy::UseHost
        }
    } else {
        ContainerStrategy::Fallback
    }
}

/// Resolve the mount container for the current host state, mutating the
/// document as the chosen strategy demands:
///
/// - host present, wrapping requested: a fresh wrapper container is
///   created under the body and the host element is re-parented inside
///   it; the wrapper is the container;
/// - host present, no wrapping: the host element itself is the
///   container and nothing is created;
/// - host absent: the fallback singleton is located, else created, with
///   the hiding style set exactly when `hide_if_none` asks for it —
///   re-applied on reuse in case the flag changed.
///
/// Returns the container and whether it was externally provided.
pub fn resolve_container(dom: &mut Dom, config: PortalConfig, host: Option<usize>) -> (r: (
    usize,
    bool,
))
    requires
        old(dom).wf(),
        host matches Some(h) ==> h < old(dom)@.len() && h != DOCUMENT_ROOT,
    ensures
        final(dom).wf(),
        final(dom)@.len() >= old(dom)@.len(),
        r.1 == container_is_provided(host is Some, config.wrap_children),
        r.0 < final(dom)@.len(),
        r.0 != DOCUMENT_ROOT,
        match host {
            Some(h) => {
                if config.wrap_children {
                    &&& r.0 == old(dom)@.len()
                    &&& final(dom)@[h as int].parent == Some(r.0)
                    &&& (!config.use_shadow ==> final(dom)@ == old(dom)@.push(
                        (Node {
                            tag: tag_for(config.is_svg),
                            elem_id: WRAPPER_CONTAINER_ID,
                            hidden: false,
                            shadow_root: false,
                            parent: Some(DOCUMENT_ROOT),
                        }),
                    ).update(h as int, (Node { parent: Some(r.0), ..old(dom)@[h as int] })))
                    &&& (config.use_shadow ==> final(dom)@ == old(dom)@.push(
                        (Node {
                            tag: tag_for(config.is_svg),
                            elem_id: WRAPPER_CONTAINER_ID,
                            hidden: false,
                            shadow_root: false,
                            parent: Some(DOCUMENT_ROOT),
                        }),
                    ).push(
                        (Node {
                            tag: tag_for(config.is_svg),
                            elem_id: NO_ID,
                            hidden: false,
                            shadow_root: true,
                            parent: Some(r.0),
                        }),
                    ).update(h as int, (Node { parent: Some(r.0), ..old(dom)@[h as int] })))
                } else {
                    &&& r.0 == h
                    &&& final(dom)@ == old(dom)@
                }
            },
            None => {
                &&& final(dom).attached_with_id(r.0 as int, FALLBACK_CONTAINER_ID)
                &&& final(dom)@[r.0 as int].hidden == config.hide_if_none
                &&& (old(dom).has_attached_id(FALLBACK_CONTAINER_ID) ==> {
                    &&& old(dom).attached_with_id(r.0 as int, FALLBACK_CONTAINER_ID)
                    &&& final(dom)@ == old(dom)@.update(
                        r.0 as int,
                        (Node { hidden: config.hide_if_none, ..old(dom)@[r.0 as int] }),
                    )
                })
                &&& (!old(dom).has_attached_id(FALLBACK_CONTAINER_ID) ==> {
                    &&& r.0 == old(dom)@.len()
                    &&& (!config.use_shadow ==> final(dom)@ == old(dom)@.push(
                        (Node {
                            tag: tag_for(config.is_svg),
                            elem_id: FALLBACK_CONTAINER_ID,
                            hidden: config.hide_if_none,
                            shadow_root: false,
                            parent: Some(DOCUMENT_ROOT),
                        }),
                    ))
                    &&& (config.use_shadow ==> final(dom)@ == old(dom)@.push(
                        (Node {
                            tag: tag_for(config.is_svg),
                            elem_id: FALLBACK_CONTAINER_ID,
                            hidden: config.hide_if_none,
                            shadow_root: false,
                            parent: Some(DOCUMENT_ROOT),
                        }),
                    ).push(
                        (Node {
                            tag: tag_for(config.is_svg),
                            elem_id: NO_ID,
                            hidden: false,
                            shadow_root: true,
                            parent: Some(r.0),
                        }),
                    ))
                })
            },
        },
        old(dom).singleton_id(FALLBACK_CONTAINER_ID) ==> final(dom).singleton_id(
            FALLBACK_CONTAINER_ID,
        ),
{
    match host {
        Some(h) => {
            if config.wrap_children {
                let w = container::create(
                    dom,
                    choose_tag(config.is_svg),
                    WRAPPER_CONTAINER_ID,
                    false,
                    config.use_shadow,
                );
                dom.append_child(w, h);
                proof {
                    assert forall|i: int, j: int|
                        old(dom).singleton_id(FALLBACK_CONTAINER_ID) && dom.attached_with_id(
                            i,
                            FALLBACK_CONTAINER_ID,
                        ) && dom.attached_with_id(j, FALLBACK_CONTAINER_ID) implies i == j by {
                        assert(old(dom).attached_with_id(i, FALLBACK_CONTAINER_ID));
                        assert(old(dom).attached_with_id(j, FALLBACK_CONTAINER_ID));
                    }
                }
                (w, false)
            } else {
                (h, true)
            }
        },
        None => {
            let found = container::find_fallback(dom, FALLBACK_CONTAINER_ID);
            match found {
                Some(f) => {
                    dom.set_hidden(f, config.hide_if_none);
                    proof {
                        assert(old(dom).attached_with_id(f as int, FALLBACK_CONTAINER_ID));
                        assert forall|i: int, j: int|
                            old(dom).singleton_id(FALLBACK_CONTAINER_ID) && dom.attached_with_id(
                                i,
                                FALLBACK_CONTAINER_ID,
                            ) && dom.attached_with_id(j, FALLBACK_CONTAINER_ID) implies i == j by {
                            assert(old(dom).attached_with_id(i, FALLBACK_CONTAINER_ID));
                            assert(old(dom).attached_with_id(j, FALLBACK_CONTAINER_ID));
                        }
                    }
                    (f, false)
                },
                None => {
                    let c = container::create(
                        dom,
                        choose_tag(config.is_svg),
                        FALLBACK_CONTAINER_ID,
                        config.hide_if_none,
                        config.use_shadow,
                    );
                    proof {
                        assert forall|i: int, j: int|
                            dom.attached_with_id(i, FALLBACK_CONTAINER_ID) && dom.attached_with_id(
                                j,
                                FALLBACK_CONTAINER_ID,
                            ) implies i == j by {
                            if 0 <= i < old(dom)@.len() {
                                assert(old(dom).attached_with_id(i, FALLBACK_CONTAINER_ID));
                            }
                            if 0 <= j < old(dom)@.len() {
                                assert(old(dom).attached_with_id(j, FALLBACK_CONTAINER_ID));
                            }
                        }
                    }
                    (c, false)
                },
            }
        },
    }
}

/// The disposable record of one render: which container received the
/// subtree, the mount's root node, whether the container was the
/// externally provided host, and whether the mount has been disposed.
#[derive(Clone, Copy, PartialEq, Eq, Debug)]
pub struct MountRecord {
    pub container: usize,
    pub root: usize,
    pub provided: bool,
    pub disposed: bool,
}

/// One dynamic-portal instance: its configuration and the full history
/// of its mounts, newest last.
pub struct DynamicPortal {
    pub config: PortalConfig,
    pub mounts: Vec<MountRecord>,
}

impl DynamicPortal {
    /// Instance invariant against the document `dom`: every recorded
    /// node exists, no record aliases its own container with its root,
    /// a non-provided container is never the body, and every mount but
    /// the newest has been disposed.
    pub open spec fn wf(self, dom: Dom) -> bool {
        &&& forall|k: int|
            0 <= k < self.mounts@.len() ==> {
                let m = #[trigger] self.mounts@[k];
                &&& m.container < dom@.len()
                &&& m.root < dom@.len()
                &&& m.root != DOCUMENT_ROOT
                &&& m.container != DOCUMENT_ROOT
                &&& m.container != m.root
                &&& (m.provided ==> !self.config.wrap_children)
            }
        &&& forall|k: int| 0 <= k < self.mounts@.len() - 1 ==> (#[trigger] self.mounts@[k]).disposed
    }

    /// Mount `k` exists and has not been disposed.
    pub open spec fn is_active(self, k: int) -> bool {
        0 <= k < self.mounts@.len() && !self.mounts@[k].disposed
    }

    /// The mount that is currently live, if any: only ever the newest.
    pub open spec fn active_mount(self) -> Option<MountRecord> {
        if self.mounts@.len() > 0 && !self.mounts@.last().disposed {
            Some(self.mounts@.last())
        } else {
            Option::<MountRecord>::None
        }
    }

    /// No duplicate mount: for any sequence of host changes, at most one
    /// active mount exists per portal instance at a time — any two active
    /// mount indices coincide.
    pub proof fn lemma_no_duplicate_mount(self, dom: Dom, k1: int, k2: int)
        requires
            self.wf(dom),
            self.is_active(k1),
            self.is_active(k2),
        ensures
            k1 == k2,
    {
    }

    /// A fresh instance: no mount yet.
    pub fn new(config: PortalConfig) -> (p: DynamicPortal)
        ensures
            p.config == config,
            p.mounts@ =~= Seq::<MountRecord>::empty(),
    {
        DynamicPortal { config, mounts: Vec::new() }
    }

    /// Tear the current mount down: dispose the mount (its rendered
    /// subtree leaves the document), and detach the container from its
    /// parent — unless the container was the externally provided host,
    /// which is never removed, only its rendered children.
    ///
    /// This is both the between-runs teardown (the step calls it before
    /// mounting anew) and the final cleanup on component disposal.
    pub fn cleanup(&mut self, dom: &mut Dom)
        requires
            old(self).wf(*old(dom)),
            old(dom).wf(),
        ensures
            final(self).wf(*final(dom)),
            final(dom).wf(),
            final(self).config == old(self).config,
            final(self).active_mount() is None,
            final(dom)@.len() == old(dom)@.len(),
            match old(self).active_mount() {
                Option::None => {
                    &&& final(dom)@ == old(dom)@
                    &&& final(self).mounts@ == old(self).mounts@
                },
                Option::Some(m) => {
                    &&& final(self).mounts@ == old(self).mounts@.update(
                        old(self).mounts@.len() - 1,
                        (MountRecord { disposed: true, ..m }),
                    )
                    &&& if m.provided {
                        final(dom)@ == old(dom)@.update(
                            m.root as int,
                            (Node { parent: None, ..old(dom)@[m.root as int] }),
                        )
                    } else {
                        final(dom)@ == old(dom)@.update(
                            m.root as int,
                            (Node { parent: None, ..old(dom)@[m.root as int] }),
                        ).update(
                            m.container as int,
                            (Node { parent: None, ..old(dom)@[m.container as int] }),
                        )
                    }
                },
            },
            forall|id: u64|
                old(dom).singleton_id(id) ==> #[trigger] final(dom).singleton_id(id),
    {
        let n = self.mounts.len();
        if n == 0 {
            return;
        }
        let m = self.mounts[n - 1];
        if m.disposed {
            return;
        }
        dom.detach(m.root);
        if !m.provided {
            dom.detach(m.container);
        }
        self.mounts[n - 1].disposed = true;
        proof {
            assert forall|id: u64| old(dom).singleton_id(id) implies #[trigger] dom.singleton_id(
                id,
            ) by {
                assert forall|i: int, j: int|
                    dom.attached_with_id(i, id) && dom.attached_with_id(j, id) implies i == j by {
                    assert(old(dom).attached_with_id(i, id));
                    assert(old(dom).attached_with_id(j, id));
                }
            }
        }
    }

    /// One re-evaluation of the portal, run synchronously on every host
    /// change: tear the previous mount fully down, resolve the container
    /// for the new host state, and render the children into it. Within
    /// one step the old mount is disposed before the new one exists, so
    /// two mounts of one instance never coexist.
    ///
    /// The host, when present, is an element of the surrounding
    /// application: not the body, not a node this portal rendered, and
    /// not a container this portal created for itself.
    pub fn step(&mut self, dom: &mut Dom, host: Option<usize>)
        requires
            old(self).wf(*old(dom)),
            old(dom).wf(),
            host matches Some(h) ==> h < old(dom)@.len() && h != DOCUMENT_ROOT,
            host matches Some(h) ==> (old(self).active_mount() matches Some(m) ==> h != m.root && (
            m.provided || h != m.container)),
        ensures
            final(self).wf(*final(dom)),
            final(dom).wf(),
            final(self).config == old(self).config,
            final(self).mounts@.len() == old(self).mounts@.len() + 1,
            forall|k: int|
                0 <= k < old(self).mounts@.len() ==> (#[trigger] final(self).mounts@[k]) == (
                MountRecord { disposed: true, ..old(self).mounts@[k] }),
            ({
                let m = final(self).mounts@.last();
                &&& !m.disposed
                &&& m.provided == container_is_provided(
                    host is Some,
                    old(self).config.wrap_children,
                )
                &&& m.container < final(dom)@.len()
                &&& m.root < final(dom)@.len()
                &&& m.root >= old(dom)@.len()
                &&& final(dom)@[m.root as int].parent == Some(m.container)
                &&& (host matches Some(h) ==> {
                    &&& (!old(self).config.wrap_children ==> {
                        &&& m.container == h
                        &&& final(dom)@[h as int] == old(dom)@[h as int]
                    })
                    &&& (old(self).config.wrap_children ==> {
                        &&& m.container >= old(dom)@.len()
                        &&& final(dom)@[m.container as int].elem_id == WRAPPER_CONTAINER_ID
                        &&& final(dom)@[m.container as int].parent == Some(DOCUMENT_ROOT)
                        &&& final(dom)@[h as int] == (Node {
                            parent: Some(m.container),
                            ..old(dom)@[h as int]
                        })
                    })
                })
                &&& (host is None ==> {
                    &&& final(dom).attached_with_id(m.container as int, FALLBACK_CONTAINER_ID)
                    &&& final(dom)@[m.container as int].hidden == old(self).config.hide_if_none
                })
            }),
            old(self).active_mount() matches Some(m) ==> {
                &&& final(self).mounts@[old(self).mounts@.len() - 1].disposed
                &&& final(dom)@[m.root as int].parent is None
                &&& (!m.provided ==> final(dom)@[m.container as int].parent is None)
                &&& (m.provided ==> final(dom)@[m.container as int].parent == old(
                    dom,
                )@[m.container as int].parent)
            },
            old(dom).singleton_id(FALLBACK_CONTAINER_ID) ==> final(dom).singleton_id(
                FALLBACK_CONTAINER_ID,
            ),
            host is Some ==> final(dom)@.len() == old(dom)@.len() + (
            if old(self).config.wrap_children {
                if old(self).config.use_shadow {
                    3int
                } else {
                    2int
                }
            } else {
                1int
            }),
            host is None ==> {
                &&& old(dom)@.len() + 1 <= final(dom)@.len()
                &&& final(dom)@.len() <= old(dom)@.len() + (
                if old(self).config.use_shadow {
                    3int
                } else {
                    2int
                })
            },
            forall|j: int|
                ({
                    &&& 0 <= j < old(dom)@.len()
                    &&& (old(self).active_mount() matches Some(m) ==> j != m.root && j
                        != m.container)
                    &&& (host matches Some(h) ==> j != h)
                    &&& j != final(self).mounts@.last().container as int
                }) ==> (#[trigger] final(dom)@[j]) == old(dom)@[j],
    {
        self.cleanup(dom);
        let ghost d1 = *dom;
        let (c, provided) = resolve_container(dom, self.config, host);
        let ghost d2 = *dom;
        let root = dom.mount_subtree(c);
        self.mounts.push(MountRecord { container: c, root, provided, disposed: false });
        proof {
            let m_opt = old(self).active_mount();
            match m_opt {
                Option::None => {},
                Option::Some(m) => {
                    assert(d1@[m.root as int].parent is None);
                    if host is None {
                        if d1.has_attached_id(FALLBACK_CONTAINER_ID) {
                            assert(d1.attached_with_id(c as int, FALLBACK_CONTAINER_ID));
                            assert(c != m.root);
                            if !m.provided {
                                assert(d1@[m.container as int].parent is None);
                                assert(c != m.container);
                            }
                        }
                    }
                    assert(d2@[m.root as int].parent is None);
                    assert(dom@[m.root as int].parent is None);
                    if !m.provided {
                        assert(d1@[m.container as int].parent is None);
                        assert(d2@[m.container as int].parent is None);
                        assert(dom@[m.container as int].parent is None);
                    } else {
                        assert(d2@[m.container as int].parent == d1@[m.container as int].parent);
                    }
                },
            }
            if old(dom).singleton_id(FALLBACK_CONTAINER_ID) {
                assert(d1.singleton_id(FALLBACK_CONTAINER_ID));
                assert(d2.singleton_id(FALLBACK_CONTAINER_ID));
                assert forall|i: int, j: int|
                    dom.attached_with_id(i, FALLBACK_CONTAINER_ID) && dom.attached_with_id(
                        j,
                        FALLBACK_CONTAINER_ID,
                    ) implies i == j by {
                    assert(d2.attached_with_id(i, FALLBACK_CONTAINER_ID));
                    assert(d2.attached_with_id(j, FALLBACK_CONTAINER_ID));
                }
            }
        }
    }
}

} // verus!
