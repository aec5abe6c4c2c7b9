//! The persistent portal: renders its children exactly once into the
//! hidden fallback container, and on every host change only moves the
//! already-existing root node between the fallback container and the
//! live host — never re-rendering, so content that cannot survive
//! re-creation (a canvas with a live context) keeps its state.
//!
//! Per instance the state machine has the states uncreated, created,
//! attached to a host, and detached back home; all transitions are pure
//! re-parenting except the one-time render. The one-time mount is
//! deliberately never disposed during relocation; only
//! [`PersistentPortal::final_teardown`] releases it, called once by the
//! owning application when the portal is permanently removed.

use vstd::prelude::*;

use crate::container;
use crate::dom::Dom;
use crate::dom::Node;
use crate::dom::Tag;
use crate::dom::DOCUMENT_ROOT;
use crate::dom::FALLBACK_CONTAINER_ID;
use crate::dom::NO_ID;
use crate::dynamic_portal::tag_for;

verus! {

/// The fallback container node as this portal creates it: hidden, no
/// shadow root, attached directly under the body.
pub open spec fn fallback_node(is_svg: bool) -> Node {
    Node {
        tag: tag_for(is_svg),
        elem_id: FALLBACK_CONTAINER_ID,
        hidden: true,
        shadow_root: false,
        parent: Some(DOCUMENT_ROOT),
    }
}

/// What one re-evaluation does to the persisted root, as a function of
/// the observed state: the pure relocation rule.
#[derive(Clone, Copy, PartialEq, Eq, Debug)]
pub enum PersistAction {
    /// The root is already correctly parented (or does not exist yet and
    /// nothing may be rendered): no mutation at all.
    LeaveInPlace,
    /// Host present, root elsewhere: re-parent the root into the host.
    MoveToHost,
    /// Host absent, root elsewhere: re-parent the root back into the
    /// fallback container.
    MoveToFallback,
    /// Host absent, nothing created yet, fallback container empty:
    /// render the children, once and for all.
    RenderOnce,
}

/// The relocation rule. `root_in_place` means the root exists and is
/// already parented where the current host state wants it.
pub open spec fn persist_action_for(
    host_present: bool,
    root_exists: bool,
    root_in_place: bool,
    created: bool,
    fallback_empty: bool,
) -> PersistAction {
    if root_exists {
        if root_in_place {
            PersistAction::LeaveInPlace
        } else if host_present {
            PersistAction::MoveToHost
        } else {
            PersistAction::MoveToFallback
        }
    } else if !host_present && !created && fallback_empty {
        PersistAction::RenderOnce
    } else {
        PersistAction::LeaveInPlace
    }
}

/// Executable counterpart of [`persist_action_for`], for driving a real
/// document by the verified rule.
pub fn decide_persist_action(
    host_present: bool,
    root_exists: bool,
    root_in_place: bool,
    created: bool,
    fallback_empty: bool,
) -> (a: PersistAction)
    ensures
        a == persist_action_for(host_present, root_exists, root_in_place, created, fallback_empty),
{
    if root_exists {
        if root_in_place {
            PersistAction::LeaveInPlace
        } else if host_present {
            PersistAction::MoveToHost
        } else {
            PersistAction::MoveToFallback
        }
    } else if !host_present && !created && fallback_empty {
        PersistAction::RenderOnce
    } else {
        PersistAction::LeaveInPlace
    }
}

/// One persistent-portal instance: the one-time creation flag and the
/// persisted root node of the single render.
pub struct PersistentPortal {
    /// SVG context: the fallback container is a `g` element.
    pub is_svg: bool,
    /// Whether the one-time render has happened.
    pub created: bool,
    /// The root node produced by the one-time render.
    pub root: Option<usize>,
}

impl PersistentPortal {
    /// Instance invariant against the document `dom`: the creation flag
    /// and the stored root go together, and the root — a rendered node,
    /// never an id-carrying container — exists and is not the body.
    pub open spec fn wf(self, dom: Dom) -> bool {
        &&& (self.created <==> self.root is Some)
        &&& (self.root matches Some(r) ==> r < dom@.len() && r != DOCUMENT_ROOT && dom@[r as int].elem_id
            == NO_ID)
    }

    /// A fresh instance: nothing rendered yet.
    pub fn new(is_svg: bool) -> (p: PersistentPortal)
        ensures
            p.is_svg == is_svg,
            !p.created,
            p.root is None,
    {
        PersistentPortal { is_svg, created: false, root: None }
    }

    /// Locate the fallback container, or create it — hidden, under the
    /// body — when the document has none yet.
    pub fn ensure_fallback(dom: &mut Dom, is_svg: bool) -> (fb: usize)
        requires
            old(dom).wf(),
        ensures
            final(dom).wf(),
            final(dom).attached_with_id(fb as int, FALLBACK_CONTAINER_ID),
            fb != DOCUMENT_ROOT,
            old(dom).has_attached_id(FALLBACK_CONTAINER_ID) ==> {
                &&& final(dom)@ == old(dom)@
                &&& old(dom).attached_with_id(fb as int, FALLBACK_CONTAINER_ID)
            },
            !old(dom).has_attached_id(FALLBACK_CONTAINER_ID) ==> {
                &&& fb == old(dom)@.len()
                &&& final(dom)@ == old(dom)@.push((fallback_node(is_svg)))
            },
            old(dom).singleton_id(FALLBACK_CONTAINER_ID) ==> final(dom).singleton_id(
                FALLBACK_CONTAINER_ID,
            ),
    {
        let found = container::find_fallback(dom, FALLBACK_CONTAINER_ID);
        match found {
            Some(f) => f,
            None => {
                let c = container::create(dom, crate::dynamic_portal::choose_tag(is_svg), FALLBACK_CONTAINER_ID, true, false);
                proof {
                    assert forall|i: int, j: int|
                        dom.attached_with_id(i, FALLBACK_CONTAINER_ID) && dom.attached_with_id(
                            j,
                            FALLBACK_CONTAINER_ID,
                        ) implies i == j by {
                        if 0 <= i < old(dom)@.len() {
                            assert(old(dom).attached_with_id(i, FALLBACK_CONTAINER_ID));
                        }
                        if 0 <= j < old(dom)@.len() {
                            assert(old(dom).attached_with_id(j, FALLBACK_CONTAINER_ID));
                        }
                    }
                }
                c
            },
        }
    }


    /// The document after the fallback container has been located or
    /// created (the first half of every re-evaluation).
    pub open spec fn post_fallback(pre_dom: Dom, is_svg: bool) -> Seq<Node> {
        if pre_dom.has_attached_id(FALLBACK_CONTAINER_ID) {
            pre_dom@
        } else {
            pre_dom@.push(fallback_node(is_svg))
        }
    }

    /// The index of the fallback container after that: the attached one
    /// (unique, by the singleton discipline) when the document already
    /// has it, else the freshly created node.
    pub open spec fn fallback_index(pre_dom: Dom) -> int {
        if pre_dom.has_attached_id(FALLBACK_CONTAINER_ID) {
            choose|j: int| pre_dom.attached_with_id(j, FALLBACK_CONTAINER_ID)
        } else {
            pre_dom@.len() as int
        }
    }

    /// What one re-evaluation does, relating the pre-state to the
    /// post-state: the fallback container is ensured, and then the
    /// relocation rule runs — move the persisted root to a present host,
    /// move it home when the host is gone, render exactly once into an
    /// empty fallback container when nothing was created yet, and
    /// otherwise change nothing.
    pub open spec fn step_relocation(
        pre: PersistentPortal,
        pre_dom: Dom,
        host: Option<usize>,
        post: PersistentPortal,
        post_view: Seq<Node>,
    ) -> bool {
        let mid = Self::post_fallback(pre_dom, pre.is_svg);
        let fbi = Self::fallback_index(pre_dom);
        match host {
            Some(h) => match pre.root {
                Some(r) => {
                    &&& post.root == pre.root
                    &&& post.created == pre.created
                    &&& (mid[r as int].parent == Some(h) ==> post_view =~= mid)
                    &&& (mid[r as int].parent != Some(h) ==> post_view =~= mid.update(
                        r as int,
                        (Node { parent: Some(h), ..mid[r as int] }),
                    ))
                    &&& post_view[r as int].parent == Some(h)
                },
                None => {
                    &&& post.root is None
                    &&& post.created == pre.created
                    &&& post_view =~= mid
                },
            },
            None => match pre.root {
                Some(r) => {
                    &&& post.root == pre.root
                    &&& post.created == pre.created
                    &&& (mid[r as int].parent == Some(fbi as usize) ==> post_view =~= mid)
                    &&& (mid[r as int].parent != Some(fbi as usize) ==> post_view =~= mid.update(
                        r as int,
                        (Node { parent: Some(fbi as usize), ..mid[r as int] }),
                    ))
                    &&& post_view[r as int].parent == Some(fbi as usize)
                },
                None => {
                    if !pre.created && (forall|j: int|
                        0 <= j < mid.len() ==> (#[trigger] mid[j]).parent != Some(fbi as usize)) {
                        &&& post.created
                        &&& post.root == Some(mid.len() as usize)
                        &&& post_view =~= mid.push(
                            (Node {
                                tag: Tag::Div,
                                elem_id: NO_ID,
                                hidden: false,
                                shadow_root: false,
                                parent: Some(fbi as usize),
                            }),
                        )
                    } else {
                        &&& post.created == pre.created
                        &&& post.root is None
                        &&& post_view =~= mid
                    }
                },
            },
        }
    }

    /// One re-evaluation, run synchronously on every host change: make
    /// sure the fallback container exists, then apply the relocation
    /// rule — move the persisted root into a present host, move it back
    /// home when the host is gone, render exactly once when nothing has
    /// been created yet and the fallback container stands empty, and
    /// otherwise touch nothing (idempotent re-evaluation: with the root
    /// already correctly parented, zero document mutations).
    ///
    /// With no persisted root and a present host nothing is moved: a
    /// benign transient state, not an error.
    ///
    /// The root is only ever appended directly to a container, so
    /// "already a descendant of the wanted container" coincides with
    /// being its direct child, which is what the step tests.
    pub fn step(&mut self, dom: &mut Dom, host: Option<usize>)
        requires
            old(self).wf(*old(dom)),
            old(dom).wf(),
            old(dom).singleton_id(FALLBACK_CONTAINER_ID),
            host matches Some(h) ==> h < old(dom)@.len() && h != DOCUMENT_ROOT,
            host matches Some(h) ==> (old(self).root matches Some(r) ==> h != r),
        ensures
            final(self).wf(*final(dom)),
            final(dom).wf(),
            final(self).is_svg == old(self).is_svg,
            final(dom).singleton_id(FALLBACK_CONTAINER_ID),
            final(dom).has_attached_id(FALLBACK_CONTAINER_ID),
            old(self).created ==> final(self).created && final(self).root == old(self).root,
            !old(self).created && final(self).created ==> (match final(self).root {
                Some(r2) => r2 >= old(dom)@.len(),
                None => false,
            }),
            Self::step_relocation(*old(self), *old(dom), host, *final(self), final(dom)@),
    {
        let fb = Self::ensure_fallback(dom, self.is_svg);
        let ghost d1 = *dom;
        proof {
            if old(dom).has_attached_id(FALLBACK_CONTAINER_ID) {
                let j = choose|j: int| old(dom).attached_with_id(j, FALLBACK_CONTAINER_ID);
                assert(old(dom).attached_with_id(j, FALLBACK_CONTAINER_ID));
                assert(old(dom).attached_with_id(fb as int, FALLBACK_CONTAINER_ID));
                assert(j == fb as int);
            }
        }
        match host {
            Some(h) => {
                if let Some(r) = self.root {
                    let p = dom.parent_of(r);
                    let in_place = match p {
                        Some(pp) => pp == h,
                        None => false,
                    };
                    if !in_place {
                        dom.append_child(h, r);
                    }
                }
            },
            None => {
                if let Some(r) = self.root {
                    let p = dom.parent_of(r);
                    let in_place = match p {
                        Some(pp) => pp == fb,
                        None => false,
                    };
                    if !in_place {
                        dom.append_child(fb, r);
                    }
                } else {
                    if !self.created && !dom.has_child_nodes(fb) {
                        let r = dom.mount_subtree(fb);
                        self.root = Some(r);
                        self.created = true;
                    }
                }
            },
        }
        proof {
            let had = old(dom).has_attached_id(FALLBACK_CONTAINER_ID);
            let mid = if had {
                old(dom)@
            } else {
                old(dom)@.push(fallback_node(old(self).is_svg))
            };
            let fbi = if had {
                choose|j: int| old(dom).attached_with_id(j, FALLBACK_CONTAINER_ID)
            } else {
                old(dom)@.len() as int
            };
            assert(d1@ =~= mid);
            assert(fbi == fb as int);
            match host {
                Some(h) => {
                    match old(self).root {
                        Some(r) => {
                            if mid[r as int].parent == Some(h) {
                                assert(dom@ =~= mid);
                            } else {
                                assert(dom@ =~= mid.update(
                                    r as int,
                                    Node { parent: Some(h), ..mid[r as int] },
                                ));
                            }
                        },
                        None => {
                            assert(dom@ =~= mid);
                        },
                    }
                },
                None => {
                    match old(self).root {
                        Some(r) => {
                            if mid[r as int].parent == Some(fbi as usize) {
                                assert(dom@ =~= mid);
                            } else {
                                assert(dom@ =~= mid.update(
                                    r as int,
                                    Node { parent: Some(fbi as usize), ..mid[r as int] },
                                ));
                            }
                        },
                        None => {
                            if !old(self).created && (forall|j: int|
                                0 <= j < mid.len() ==> (#[trigger] mid[j]).parent != Some(
                                    fbi as usize,
                                )) {
                                assert(dom@ =~= mid.push(
                                    Node {
                                        tag: Tag::Div,
                                        elem_id: NO_ID,
                                        hidden: false,
                                        shadow_root: false,
                                        parent: Some(fbi as usize),
                                    },
                                ));
                            } else {
                                assert(dom@ =~= mid);
                            }
                        },
                    }
                },
            }
            assert(Self::step_relocation(*old(self), *old(dom), host, *self, dom@));
            assert(dom.attached_with_id(fb as int, FALLBACK_CONTAINER_ID));
            assert forall|i: int, j2: int|
                dom.attached_with_id(i, FALLBACK_CONTAINER_ID) && dom.attached_with_id(
                    j2,
                    FALLBACK_CONTAINER_ID,
                ) implies i == j2 by {
                assert(d1.attached_with_id(i, FALLBACK_CONTAINER_ID));
                assert(d1.attached_with_id(j2, FALLBACK_CONTAINER_ID));
            }
        }
    }

    /// Persistent identity: drive the portal through any sequence of
    /// host states. However many re-evaluations run, the render happens
    /// at most once, and once the persisted root exists its identity
    /// never changes — only its parent does.
    pub fn run_hosts(&mut self, dom: &mut Dom, hosts: &Vec<Option<usize>>)
        requires
            old(self).wf(*old(dom)),
            old(dom).wf(),
            old(dom).singleton_id(FALLBACK_CONTAINER_ID),
            forall|k: int|
                0 <= k < hosts@.len() ==> ((#[trigger] hosts@[k]) matches Some(h) ==> h < old(
                    dom,
                )@.len() && h != DOCUMENT_ROOT && (old(self).root matches Some(r) ==> h != r)),
        ensures
            final(self).wf(*final(dom)),
            final(dom).wf(),
            final(dom).singleton_id(FALLBACK_CONTAINER_ID),
            final(self).is_svg == old(self).is_svg,
            old(self).created ==> final(self).created,
            old(self).root matches Some(r) ==> final(self).root == Some(r),
            final(dom)@.len() >= old(dom)@.len(),
            final(self).created && !old(self).created ==> (match final(self).root {
                Some(r2) => r2 >= old(dom)@.len(),
                None => false,
            }),
    {
        let n = hosts.len();
        let mut k: usize = 0;
        while k < n
            invariant
                self.wf(*dom),
                dom.wf(),
                dom.singleton_id(FALLBACK_CONTAINER_ID),
                dom@.len() >= old(dom)@.len(),
                k <= n,
                n == hosts@.len(),
                self.is_svg == old(self).is_svg,
                old(self).root is None ==> !old(self).created,
                old(self).created ==> self.created,
                old(self).root matches Some(r) ==> self.root == Some(r),
                self.created && !old(self).created ==> (match self.root {
                    Some(r2) => r2 >= old(dom)@.len(),
                    None => false,
                }),
                forall|k2: int|
                    0 <= k2 < hosts@.len() ==> ((#[trigger] hosts@[k2]) matches Some(h) ==> h < old(
                        dom,
                    )@.len() && h != DOCUMENT_ROOT && (old(self).root matches Some(r) ==> h != r)),
            decreases n - k,
        {
            let h = hosts[k];
            proof {
                assert(h == hosts@[k as int]);
                match h {
                    Some(hh) => {
                        match self.root {
                            Some(r) => {
                                match old(self).root {
                                    Some(r0) => {
                                        assert(r == r0);
                                        assert(hh != r0);
                                    },
                                    None => {
                                        assert(self.created);
                                        assert(r >= old(dom)@.len());
                                        assert(hh < old(dom)@.len());
                                    },
                                }
                            },
                            None => {},
                        }
                    },
                    None => {},
                }
            }
            self.step(dom, h);
            k = k + 1;
        }
    }

    /// Dispose the one-time mount: the persisted root leaves the
    /// document. This is the dispose-on-final-teardown half of the
    /// deliberate resource split — never invoked during relocation, only
    /// once, by the owning application, when the portal is permanently
    /// removed.
    pub fn final_teardown(&self, dom: &mut Dom)
        requires
            self.wf(*old(dom)),
            old(dom).wf(),
        ensures
            final(dom).wf(),
            self.wf(*final(dom)),
            match self.root {
                None => final(dom)@ == old(dom)@,
                Some(r) => final(dom)@ == old(dom)@.update(
                    r as int,
                    (Node { parent: None, ..old(dom)@[r as int] }),
                ),
            },
            forall|id: u64| old(dom).singleton_id(id) ==> #[trigger] final(dom).singleton_id(id),
    {
        if let Some(r) = self.root {
            dom.detach(r);
        }
        proof {
            assert forall|id: u64| old(dom).singleton_id(id) implies #[trigger] dom.singleton_id(
                id,
            ) by {
                assert forall|i: int, j: int|
                    dom.attached_with_id(i, id) && dom.attached_with_id(j, id) implies i == j by {
                    assert(old(dom).attached_with_id(i, id));
                    assert(old(dom).attached_with_id(j, id));
                }
            }
        }
    }
}

} // verus!
