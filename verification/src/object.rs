//! How much of a payload's types a consumer asks to see.

use vstd::prelude::*;

verus! {

/// The one option of a format: whether the layout of a struct keeps the struct's
/// type beside the names of its fields.
#[derive(Debug, Clone, Copy, PartialEq, Eq, Hash)]
pub struct ObjectFormatOptions {
    pub include_types: bool,
}

} // verus!
