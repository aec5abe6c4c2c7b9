//! A verified model of a portal primitive for a reactive user interface:
//! relocating a rendered subtree to a dynamically changing host element.
//!
//! The document tree, containers and mounted subtrees are modelled
//! explicitly ([`dom::Dom`]), so that the portal logic itself — choosing
//! the container for the current host state, creating versus reusing
//! versus relocating nodes, and tearing mounts down exactly once — is
//! stated in contracts and proved.  The reactive signal and the concrete
//! browser tree are outside collaborators: an application reads the
//! signal, calls the step functions here on each change, and mirrors the
//! recorded mutations onto the real document.

pub mod container;
pub mod dynamic_portal;
pub mod host;
pub mod my_portal;
pub mod persistent_portal;
pub mod dom;
