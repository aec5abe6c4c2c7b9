//! The document-tree model.
//!
//! A [`Dom`] is a growing arena of nodes; a node's identity is its index,
//! which never changes — the model's counterpart of "the same DOM node".
//! Each node records its tag, its element id (an integer code, `NO_ID`
//! when the element carries none), whether the hiding inline style is
//! applied, whether it is a shadow root, and its current parent.
//! Re-parenting and removal only change `parent`; nodes are never
//! deallocated, so a detached subtree keeps its internal structure,
//! exactly as a removed-but-referenced DOM subtree does.
//!
//! Node `DOCUMENT_ROOT` is the document body. It always exists and has no
//! parent; the portal attaches every container it creates directly under
//! it.

use vstd::prelude::*;

verus! {

/// Id code of an element that carries no id.
pub const NO_ID: u64 = 0;

/// The well-known id of the singleton fallback container shared by all
/// portal instances in one document.
pub const FALLBACK_CONTAINER_ID: u64 = 1;

/// The id given to wrapper containers created around a provided host.
pub const WRAPPER_CONTAINER_ID: u64 = 2;

/// Index of the document body, the root of the attached tree.
pub const DOCUMENT_ROOT: usize = 0;

/// Tag of an element: the document body, or the two container tags the
/// portal creates (`div` in HTML context, `g` in SVG context).
#[derive(Clone, Copy, PartialEq, Eq, Debug)]
pub enum Tag {
    Body,
    Div,
    G,
}

/// One node of the document tree.
#[derive(Clone, Copy, PartialEq, Eq, Debug)]
pub struct Node {
    pub tag: Tag,
    /// Element id code; `NO_ID` when absent.
    pub elem_id: u64,
    /// Whether the hiding inline style (visibility hidden, zero size) is set.
    pub hidden: bool,
    /// Whether this node is a shadow root attached to its parent element.
    pub shadow_root: bool,
    /// Current parent, or `None` when the node is detached.
    pub parent: Option<usize>,
}

/// The document tree: an arena of nodes indexed by identity.
pub struct Dom {
    nodes: Vec<Node>,
}

impl View for Dom {
    type V = Seq<Node>;

    closed spec fn view(&self) -> Seq<Node> {
        self.nodes@
    }
}

impl Dom {
    /// `i` is the index of an existing node.
    pub open spec fn valid(self, i: int) -> bool {
        0 <= i < self@.len()
    }

    /// Basic well-formedness: the body exists, has no parent, and every
    /// parent pointer refers to an existing node other than the node itself.
    pub open spec fn wf(self) -> bool {
        &&& self@.len() >= 1
        &&& self@[DOCUMENT_ROOT as int].parent is None
        &&& forall|i: int|
            0 <= i < self@.len() ==> ((#[trigger] self@[i]).parent matches Some(p) ==> p
                < self@.len() && p != i)
    }

    /// Node `i` carries id `id` and is attached directly under the body —
    /// the position every portal-created container occupies while it is in
    /// the document.
    pub open spec fn attached_with_id(self, i: int, id: u64) -> bool {
        &&& self.valid(i)
        &&& self@[i].elem_id == id
        &&& self@[i].parent == Some(DOCUMENT_ROOT)
    }

    /// Some node with id `id` is attached under the body.
    pub open spec fn has_attached_id(self, id: u64) -> bool {
        exists|j: int| self.attached_with_id(j, id)
    }

    /// At most one node with id `id` is attached under the body.
    pub open spec fn singleton_id(self, id: u64) -> bool {
        forall|i: int, j: int|
            self.attached_with_id(i, id) && self.attached_with_id(j, id) ==> i == j
    }

    /// A fresh document: only the body.
    pub fn new() -> (d: Dom)
        ensures
            d.wf(),
            d@.len() == 1,
            d@[0] == (Node {
                tag: Tag::Body,
                elem_id: NO_ID,
                hidden: false,
                shadow_root: false,
                parent: None,
            }),
            forall|id: u64| d.singleton_id(id),
    {
        let body = Node { tag: Tag::Body, elem_id: NO_ID, hidden: false, shadow_root: false, parent: None };
        let mut nodes: Vec<Node> = Vec::new();
        nodes.push(body);
        Dom { nodes }
    }

    /// Number of nodes ever created.
    pub fn len(&self) -> (n: usize)
        ensures
            n == self@.len(),
    {
        self.nodes.len()
    }

    /// Relies on nothing outside the model: creates a fresh, detached
    /// element with the given tag, no id, no style, no shadow root.
    pub fn create_element(&mut self, tag: Tag) -> (i: usize)
        requires
            old(self).wf(),
        ensures
            final(self).wf(),
            i == old(self)@.len(),
            final(self)@ == old(self)@.push(
                (Node { tag, elem_id: NO_ID, hidden: false, shadow_root: false, parent: None }),
            ),
    {
        let i = self.nodes.len();
        self.nodes.push(Node { tag, elem_id: NO_ID, hidden: false, shadow_root: false, parent: None });
        i
    }

    /// Set the element id of node `i`.
    pub fn set_elem_id(&mut self, i: usize, id: u64)
        requires
            old(self).wf(),
            old(self).valid(i as int),
        ensures
            final(self).wf(),
            final(self)@ == old(self)@.update(
                i as int,
                (Node { elem_id: id, ..old(self)@[i as int] }),
            ),
    {
        self.nodes[i].elem_id = id;
    }

    /// Apply or clear the hiding inline style on node `i`.
    pub fn set_hidden(&mut self, i: usize, hidden: bool)
        requires
            old(self).wf(),
            old(self).valid(i as int),
        ensures
            final(self).wf(),
            final(self)@ == old(self)@.update(
                i as int,
                (Node { hidden, ..old(self)@[i as int] }),
            ),
    {
        self.nodes[i].hidden = hidden;
    }

    /// Attach an open shadow root to element `host`: a fresh node marked
    /// as a shadow root, parented inside `host`.
    pub fn attach_shadow(&mut self, host: usize) -> (s: usize)
        requires
            old(self).wf(),
            old(self).valid(host as int),
        ensures
            final(self).wf(),
            s == old(self)@.len(),
            final(self)@ == old(self)@.push(
                (Node {
                    tag: old(self)@[host as int].tag,
                    elem_id: NO_ID,
                    hidden: false,
                    shadow_root: true,
                    parent: Some(host),
                }),
            ),
    {
        let i = self.nodes.len();
        let tag = self.nodes[host].tag;
        self.nodes.push(Node { tag, elem_id: NO_ID, hidden: false, shadow_root: true, parent: Some(host) });
        i
    }

    /// Re-parent node `c` under node `p` (the DOM `appendChild`: the node
    /// leaves its previous parent implicitly). The body itself is never
    /// re-parented, and a node is never appended to itself — the
    /// environment treats either as an unrecoverable misuse.
    pub fn append_child(&mut self, p: usize, c: usize)
        requires
            old(self).wf(),
            old(self).valid(p as int),
            old(self).valid(c as int),
            c != DOCUMENT_ROOT,
            c != p,
        ensures
            final(self).wf(),
            final(self)@ == old(self)@.update(
                c as int,
                (Node { parent: Some(p), ..old(self)@[c as int] }),
            ),
    {
        self.nodes[c].parent = Some(p);
    }

    /// Detach node `c` from its parent, if any (the DOM `removeChild`
    /// seen from the child). Its descendants stay with it.
    pub fn detach(&mut self, c: usize)
        requires
            old(self).wf(),
            old(self).valid(c as int),
            c != DOCUMENT_ROOT,
        ensures
            final(self).wf(),
            final(self)@ == old(self)@.update(
                c as int,
                (Node { parent: None, ..old(self)@[c as int] }),
            ),
    {
        self.nodes[c].parent = None;
    }

    /// Render a subtree into `container`: the mount's root node, fresh and
    /// parented inside the container. What the subtree shows is the render
    /// function's concern; the model records only its position.
    pub fn mount_subtree(&mut self, container: usize) -> (root: usize)
        requires
            old(self).wf(),
            old(self).valid(container as int),
        ensures
            final(self).wf(),
            root == old(self)@.len(),
            final(self)@ == old(self)@.push(
                (Node {
                    tag: Tag::Div,
                    elem_id: NO_ID,
                    hidden: false,
                    shadow_root: false,
                    parent: Some(container),
                }),
            ),
    {
        let i = self.nodes.len();
        self.nodes.push(Node {
            tag: Tag::Div,
            elem_id: NO_ID,
            hidden: false,
            shadow_root: false,
            parent: Some(container),
        });
        i
    }

    /// The parent of node `i`, or `None` when detached.
    pub fn parent_of(&self, i: usize) -> (p: Option<usize>)
        requires
            self.valid(i as int),
        ensures
            p == self@[i as int].parent,
    {
        self.nodes[i].parent
    }

    /// The element id code of node `i`.
    pub fn elem_id_of(&self, i: usize) -> (id: u64)
        requires
            self.valid(i as int),
        ensures
            id == self@[i as int].elem_id,
    {
        self.nodes[i].elem_id
    }

    /// Whether the hiding style is set on node `i`.
    pub fn hidden_of(&self, i: usize) -> (h: bool)
        requires
            self.valid(i as int),
        ensures
            h == self@[i as int].hidden,
    {
        self.nodes[i].hidden
    }

    /// The tag of node `i`.
    pub fn tag_of(&self, i: usize) -> (t: Tag)
        requires
            self.valid(i as int),
        ensures
            t == self@[i as int].tag,
    {
        self.nodes[i].tag
    }

    /// Whether node `i` is a shadow root.
    pub fn is_shadow_root(&self, i: usize) -> (b: bool)
        requires
            self.valid(i as int),
        ensures
            b == self@[i as int].shadow_root,
    {
        self.nodes[i].shadow_root
    }

    /// Whether some node is currently parented inside node `i` (the DOM
    /// `hasChildNodes`).
    pub fn has_child_nodes(&self, i: usize) -> (b: bool)
        requires
            self.wf(),
            self.valid(i as int),
        ensures
            b == exists|j: int| 0 <= j < self@.len() && (#[trigger] self@[j]).parent == Some(i),
    {
        let n = self.nodes.len();
        let mut j: usize = 0;
        while j < n
            invariant
                n == self@.len(),
                j <= n,
                forall|k: int| 0 <= k < j ==> (#[trigger] self@[k]).parent != Some(i),
            decreases n - j,
        {
            if let Some(p) = self.nodes[j].parent {
                if p == i {
                    return true;
                }
            }
            j = j + 1;
        }
        false
    }
}

} // verus!
