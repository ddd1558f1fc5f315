//! A named desktop clipboard: one slot of multi-format content, an owner that
//! is told when it re-asserts ownership, and observers told of every change.
//!
//! Owners and observers live in a [`Registry`] and are referred to by
//! [`Handle`]s: a handle never keeps its object alive, and a handle whose
//! object was removed resolves to nothing.

pub mod clipboard;
pub mod error;
pub mod flavour;
pub mod laws;
pub mod registry;
pub mod transfer;

pub use clipboard::{Clipboard, ClipboardObserver, ClipboardOwner};
pub use error::NoDataError;
pub use flavour::{Flavour, FlavourError};
pub use registry::{Handle, Registry};
pub use transfer::{offered_in, Transferable};
