//! A value model for property lists.
//!
//! A property list is a tree of typed nodes: booleans, unsigned integers, reals, strings,
//! byte blobs, timestamps, unique identifiers, arrays and dictionaries. An [`OwnedNode`] owns
//! one tree; every other access goes through `&Node` and `&mut Node` borrowed from it, so a
//! reference can never outlive the tree it points into. [`ArrayNode`] and [`DictNode`] are the
//! views a node offers once its type has been checked.
//!
//! Every operation is specified over [`Value`], the mathematical content of a tree, and the
//! conversions between native values and nodes are specified by the `read` and `write`
//! functions of [`FromPlistNode`] and [`ToPlistNode`].

pub mod equality;
pub mod error;
pub mod imobiledevice_sys;
pub mod mappings;
pub mod native;
pub mod node;
pub mod numbers;
pub mod path;
pub mod plist_sys;
pub mod sequences;
pub mod strings;
pub mod time;
pub mod usbmuxd_sys;
pub mod value;

pub use error::PlistError;
pub use native::{FromPlistNode, RoundTrip, ToPlistNode};
pub use path::Step;
pub use node::{ArrayIter, ArrayNode, DictIter, DictMutIter, DictNode, Node, OwnedNode};
pub use plist_sys::plist_type;
pub use value::Value;
