//! Events of a blockchain node and the decoding of what contracts emit with them.
//!
//! A contract emits an event as bytes under the full name of a struct type. The
//! bytes can be read once the layout of that type is known, and the layout follows
//! from the modules that define the type and the types of its fields.
//!
//! - `base_types`, `type_tag`: identifiers, and the names of types.
//! - `event`: the kinds of event, the envelope, and what a consumer asks of an event.
//! - `layout`: resolved layouts, with or without the types of their structs.
//! - `struct_value`: decoded values, and what it is for one to be in the shape of a
//!   layout.
//! - `decoder`: decoding bytes against a layout.
//! - `move_types`: what is taken from `move_core_types`, which does the decoding, and
//!   on what terms.
//! - `object`, `error`: the format option, and the one error.

pub mod base_types;
pub mod decoder;
pub mod error;
pub mod event;
pub mod layout;
pub mod move_types;
pub mod object;
pub mod struct_value;
pub mod type_tag;
