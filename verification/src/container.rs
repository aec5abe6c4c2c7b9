//! The container factory: creating portal containers and locating the
//! fallback singleton.
//!
//! A container is created with a tag, an id, optionally the hiding inline
//! style and optionally an open shadow root, and is appended directly
//! under the document body. In the environment the body can in principle
//! be missing, which the portal treats as an unrecoverable precondition
//! violation; in the model the body exists by construction, so `create`
//! cannot fail.
//!
//! Creating the conceptual fallback container twice without an
//! intervening removal would duplicate it, so callers resolve the
//! singleton with [`find_fallback`] first and create only when the lookup
//! comes back empty.

use vstd::prelude::*;

use crate::dom::Dom;
use crate::dom::Node;
use crate::dom::Tag;
use crate::dom::DOCUMENT_ROOT;
use crate::dom::NO_ID;

verus! {

/// Create a container element: tag `tag`, id `id`, the hiding style iff
/// `hidden`, an open shadow root iff `use_shadow`, attached directly
/// under the document body.
pub fn create(dom: &mut Dom, tag: Tag, id: u64, hidden: bool, use_shadow: bool) -> (c: usize)
    requires
        old(dom).wf(),
    ensures
        final(dom).wf(),
        c == old(dom)@.len(),
        c != DOCUMENT_ROOT,
        !use_shadow ==> final(dom)@ == old(dom)@.push(
            (Node { tag, elem_id: id, hidden, shadow_root: false, parent: Some(DOCUMENT_ROOT) }),
        ),
        use_shadow ==> final(dom)@ == old(dom)@.push(
            (Node { tag, elem_id: id, hidden, shadow_root: false, parent: Some(DOCUMENT_ROOT) }),
        ).push(
            (Node { tag, elem_id: NO_ID, hidden: false, shadow_root: true, parent: Some(c) }),
        ),
{
    let c = dom.create_element(tag);
    dom.set_elem_id(c, id);
    dom.set_hidden(c, hidden);
    dom.append_child(DOCUMENT_ROOT, c);
    let ghost mid = dom@;
    if use_shadow {
        dom.attach_shadow(c);
    }
    proof {
        assert(mid =~= old(dom)@.push(
            Node { tag, elem_id: id, hidden, shadow_root: false, parent: Some(DOCUMENT_ROOT) },
        ));
        if use_shadow {
            assert(dom@ =~= mid.push(
                Node { tag, elem_id: NO_ID, hidden: false, shadow_root: true, parent: Some(c) },
            ));
        }
    }
    c
}

/// Locate the previously created singleton container carrying `id`: the
/// node of least index that carries the id and is attached under the
/// body, or `None` when no such node exists.
pub fn find_fallback(dom: &Dom, id: u64) -> (r: Option<usize>)
    requires
        dom.wf(),
        id != NO_ID,
    ensures
        match r {
            Some(f) => dom.attached_with_id(f as int, id) && f != DOCUMENT_ROOT && forall|j: int|
                0 <= j < f ==> !(#[trigger] dom.attached_with_id(j, id)),
            None => forall|j: int| !(#[trigger] dom.attached_with_id(j, id)),
        },
{
    let n = dom.len();
    let mut j: usize = 0;
    while j < n
        invariant
            dom.wf(),
            id != NO_ID,
            n == dom@.len(),
            j <= n,
            forall|k: int| 0 <= k < j ==> !(#[trigger] dom.attached_with_id(k, id)),
        decreases n - j,
    {
        if dom.elem_id_of(j) == id {
            if let Some(p) = dom.parent_of(j) {
                if p == DOCUMENT_ROOT {
                    return Some(j);
                }
            }
        }
        j = j + 1;
    }
    None
}

} // verus!
