//! The plain portal variant: renders its children into a fresh
//! container appended to a fixed mount point (the document body when
//! none is given), optionally behind an open shadow root to isolate
//! styles. Unlike the dynamic portal the mount point never changes; each
//! re-evaluation replaces the container wholesale, and cleanup removes
//! the container from the mount point.

use vstd::prelude::*;

use crate::dom::Dom;
use crate::dom::Node;
use crate::dom::Tag;
use crate::dom::DOCUMENT_ROOT;
use crate::dom::NO_ID;
use crate::dynamic_portal::choose_tag;
use crate::dynamic_portal::tag_for;

verus! {

/// The nodes of one render: the container appended to the mount point,
/// the render root (the shadow root when one is used, else the container
/// itself), and the rendered subtree's root.
#[derive(Clone, Copy, PartialEq, Eq, Debug)]
pub struct MyMount {
    pub container: usize,
    pub render_root: usize,
    pub subtree: usize,
}

/// One instance of the plain portal: its fixed mount point, its options,
/// and the nodes of the current render, if any.
pub struct MyPortal {
    /// The fixed mount point; the document body when none was supplied.
    pub mount: usize,
    /// Isolate the children in an open shadow root.
    pub use_shadow: bool,
    /// SVG context: the container is a `g` element.
    pub is_svg: bool,
    /// The current render.
    pub active: Option<MyMount>,
}

impl MyPortal {
    /// Instance invariant against the document `dom`: the mount point
    /// and all recorded nodes exist, and the container — a node this
    /// portal created — is never the body.
    pub open spec fn wf(self, dom: Dom) -> bool {
        &&& self.mount < dom@.len()
        &&& (self.active matches Some(m) ==> {
            &&& m.container < dom@.len()
            &&& m.container != DOCUMENT_ROOT
            &&& m.render_root < dom@.len()
            &&& m.subtree < dom@.len()
        })
    }

    /// A fresh instance; an absent mount point means the document body.
    pub fn new(dom: &Dom, mount: Option<usize>, use_shadow: bool, is_svg: bool) -> (p: MyPortal)
        requires
            dom.wf(),
            mount matches Some(mt) ==> mt < dom@.len(),
        ensures
            p.wf(*dom),
            p.mount == (match mount {
                Some(mt) => mt,
                None => DOCUMENT_ROOT,
            }),
            p.use_shadow == use_shadow,
            p.is_svg == is_svg,
            p.active is None,
    {
        let mt = match mount {
            Some(mt) => mt,
            None => DOCUMENT_ROOT,
        };
        MyPortal { mount: mt, use_shadow, is_svg, active: None }
    }

    /// Remove the current container from the mount point, with the
    /// rendered subtree inside it. Run before each re-render and on
    /// component disposal.
    pub fn cleanup(&mut self, dom: &mut Dom)
        requires
            old(self).wf(*old(dom)),
            old(dom).wf(),
        ensures
            final(self).wf(*final(dom)),
            final(dom).wf(),
            final(self).mount == old(self).mount,
            final(self).use_shadow == old(self).use_shadow,
            final(self).is_svg == old(self).is_svg,
            final(self).active is None,
            match old(self).active {
                None => final(dom)@ == old(dom)@,
                Some(prev) => final(dom)@ == old(dom)@.update(
                    prev.container as int,
                    (Node { parent: None, ..old(dom)@[prev.container as int] }),
                ),
            },
    {
        if let Some(prev) = self.active {
            dom.detach(prev.container);
        }
        self.active = None;
    }

    /// One re-evaluation: drop the previous container, create a fresh
    /// one, render the children into the render root — the shadow root
    /// when one is requested, else the container — and append the
    /// container to the mount point.
    pub fn step(&mut self, dom: &mut Dom)
        requires
            old(self).wf(*old(dom)),
            old(dom).wf(),
        ensures
            final(self).wf(*final(dom)),
            final(dom).wf(),
            final(self).mount == old(self).mount,
            final(self).use_shadow == old(self).use_shadow,
            final(self).is_svg == old(self).is_svg,
            ({
                let d1 = match old(self).active {
                    None => old(dom)@,
                    Some(prev) => old(dom)@.update(
                        prev.container as int,
                        (Node { parent: None, ..old(dom)@[prev.container as int] }),
                    ),
                };
                let c = old(dom)@.len() as int;
                let tg = tag_for(old(self).is_svg);
                match final(self).active {
                    None => false,
                    Some(m) => {
                        &&& m.container as int == c
                        &&& (!old(self).use_shadow ==> {
                            &&& m.render_root == m.container
                            &&& m.subtree as int == c + 1
                            &&& final(dom)@ =~= d1.push(
                                (Node {
                                    tag: tg,
                                    elem_id: NO_ID,
                                    hidden: false,
                                    shadow_root: false,
                                    parent: Some(old(self).mount),
                                }),
                            ).push(
                                (Node {
                                    tag: Tag::Div,
                                    elem_id: NO_ID,
                                    hidden: false,
                                    shadow_root: false,
                                    parent: Some(m.render_root),
                                }),
                            )
                        })
                        &&& (old(self).use_shadow ==> {
                            &&& m.render_root as int == c + 1
                            &&& m.subtree as int == c + 2
                            &&& final(dom)@ =~= d1.push(
                                (Node {
                                    tag: tg,
                                    elem_id: NO_ID,
                                    hidden: false,
                                    shadow_root: false,
                                    parent: Some(old(self).mount),
                                }),
                            ).push(
                                (Node {
                                    tag: tg,
                                    elem_id: NO_ID,
                                    hidden: false,
                                    shadow_root: true,
                                    parent: Some(m.container),
                                }),
                            ).push(
                                (Node {
                                    tag: Tag::Div,
                                    elem_id: NO_ID,
                                    hidden: false,
                                    shadow_root: false,
                                    parent: Some(m.render_root),
                                }),
                            )
                        })
                    },
                }
            }),
    {
        self.cleanup(dom);
        let ghost d1 = *dom;
        let container = dom.create_element(choose_tag(self.is_svg));
        let render_root = if self.use_shadow {
            dom.attach_shadow(container)
        } else {
            container
        };
        let subtree = dom.mount_subtree(render_root);
        dom.append_child(self.mount, container);
        self.active = Some(MyMount { container, render_root, subtree });
        proof {
            if old(self).use_shadow {
                assert(dom@ =~= d1@.push(
                    Node {
                        tag: tag_for(old(self).is_svg),
                        elem_id: NO_ID,
                        hidden: false,
                        shadow_root: false,
                        parent: Some(old(self).mount),
                    },
                ).push(
                    Node {
                        tag: tag_for(old(self).is_svg),
                        elem_id: NO_ID,
                        hidden: false,
                        shadow_root: true,
                        parent: Some(container),
                    },
                ).push(
                    Node {
                        tag: Tag::Div,
                        elem_id: NO_ID,
                        hidden: false,
                        shadow_root: false,
                        parent: Some(render_root),
                    },
                ));
            } else {
                assert(dom@ =~= d1@.push(
                    Node {
                        tag: tag_for(old(self).is_svg),
                        elem_id: NO_ID,
                        hidden: false,
                        shadow_root: false,
                        parent: Some(old(self).mount),
                    },
                ).push(
                    Node {
                        tag: Tag::Div,
                        elem_id: NO_ID,
                        hidden: false,
                        shadow_root: false,
                        parent: Some(render_root),
                    },
                ));
            }
        }
    }
}

} // verus!
