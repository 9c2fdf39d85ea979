//! The boundary with `move_core_types`: its values and layouts, and the calls this
//! library makes into it.
//!
//! The four enums of that crate are declared with their variants, so the verifier
//! reads their shape from the crate itself. Its structs with private fields are
//! declared without their fields; what each of them holds has a name here, and the
//! contracts of the calls below are stated over those names. Nothing in this file
//! is proved: the contracts say what the crate's source shows.

use vstd::prelude::*;
use move_core_types::account_address::AccountAddress;
use move_core_types::identifier::Identifier;
use move_core_types::value::{
    MoveFieldLayout,
    MoveStruct,
    MoveStructLayout,
    MoveTypeLayout,
    MoveValue,
};
use crate::layout::{is_valid_identifier, FieldLayoutView, StructLayoutView, TypeLayoutView};
use crate::struct_value::{DecodedValueView, StructValueView};

verus! {

/// A decoded value of `move_core_types`, by its variants.
#[verifier::external_type_specification]
pub struct ExMoveValue(move_core_types::value::MoveValue);

/// A decoded struct of `move_core_types`, by its variants.
#[verifier::external_type_specification]
pub struct ExMoveStruct(move_core_types::value::MoveStruct);

/// A layout of `move_core_types`, by its variants.
#[verifier::external_type_specification]
pub struct ExMoveTypeLayout(move_core_types::value::MoveTypeLayout);

/// A struct layout of `move_core_types`, by its variants.
#[verifier::external_type_specification]
pub struct ExMoveStructLayout(move_core_types::value::MoveStructLayout);

/// A field layout of `move_core_types`: a name and a layout, both private to it.
#[verifier::external_type_specification]
#[verifier::external_body]
pub struct ExMoveFieldLayout(move_core_types::value::MoveFieldLayout);

/// An address of `move_core_types`: sixteen bytes, private to it.
#[verifier::external_type_specification]
#[verifier::external_body]
pub struct ExAccountAddress(move_core_types::account_address::AccountAddress);

/// An identifier of `move_core_types`: a string that it accepted, private to it.
#[verifier::external_type_specification]
#[verifier::external_body]
pub struct ExIdentifier(move_core_types::identifier::Identifier);

/// The error that `move_core_types` returns from decoding.
#[verifier::external_type_specification]
#[verifier::external_body]
pub struct ExDecodeError(anyhow::Error);

/// The bytes that an `AccountAddress` holds.
pub uninterp spec fn address_bytes(address: AccountAddress) -> Seq<u8>;

/// The text that an `Identifier` holds.
pub uninterp spec fn identifier_text(identifier: Identifier) -> Seq<char>;

/// The name and the layout that a `MoveFieldLayout` holds.
pub uninterp spec fn field_layout_held(field: MoveFieldLayout) -> FieldLayoutView;

/// The message that an error of `move_core_types` displays.
pub uninterp spec fn error_text(error: anyhow::Error) -> Seq<char>;

/// What `MoveStruct::simple_deserialize` makes of these bytes under this layout: the
/// struct it decodes, or the message of the error it returns.
pub uninterp spec fn bcs_decoded(contents: Seq<u8>, layout: StructLayoutView) -> Result<
    StructValueView,
    Seq<char>,
>;

/// What a layout of `move_core_types` holds.
pub open spec fn move_type_layout_view(layout: MoveTypeLayout) -> TypeLayoutView
    decreases layout,
{
    match layout {
        MoveTypeLayout::Bool => TypeLayoutView::Bool,
        MoveTypeLayout::U8 => TypeLayoutView::U8,
        MoveTypeLayout::U64 => TypeLayoutView::U64,
        MoveTypeLayout::U128 => TypeLayoutView::U128,
        MoveTypeLayout::Address => TypeLayoutView::Address,
        MoveTypeLayout::Vector(element) => TypeLayoutView::Vector(
            Box::new(move_type_layout_view(*element)),
        ),
        MoveTypeLayout::Struct(s) => TypeLayoutView::Struct(move_struct_layout_view(s)),
        MoveTypeLayout::Signer => TypeLayoutView::Signer,
    }
}

/// What layouts of `move_core_types` hold, in order.
pub open spec fn move_type_layouts_view(layouts: Vec<MoveTypeLayout>) -> Seq<TypeLayoutView>
    decreases layouts,
{
    Seq::new(
        layouts.len() as nat,
        |i: int|
            if 0 <= i < layouts.len() {
                move_type_layout_view(layouts[i])
            } else {
                TypeLayoutView::Bool
            },
    )
}

/// What field layouts of `move_core_types` hold, in order.
pub open spec fn move_field_layouts_view(fields: Vec<MoveFieldLayout>) -> Seq<FieldLayoutView> {
    Seq::new(fields.len() as nat, |i: int| field_layout_held(fields[i]))
}

/// What a struct layout of `move_core_types` holds.
pub open spec fn move_struct_layout_view(layout: MoveStructLayout) -> StructLayoutView
    decreases layout,
{
    match layout {
        MoveStructLayout::Runtime(layouts) => StructLayoutView::Runtime(
            move_type_layouts_view(layouts),
        ),
        MoveStructLayout::WithFields(fields) => StructLayoutView::WithFields(
            move_field_layouts_view(fields),
        ),
    }
}

/// What a value of `move_core_types` holds.
pub open spec fn move_value_view(value: MoveValue) -> DecodedValueView
    decreases value,
{
    match value {
        MoveValue::U8(x) => DecodedValueView::U8(x),
        MoveValue::U64(x) => DecodedValueView::U64(x),
        MoveValue::U128(x) => DecodedValueView::U128(x),
        MoveValue::Bool(x) => DecodedValueView::Bool(x),
        MoveValue::Address(a) => DecodedValueView::Address(address_bytes(a)),
        MoveValue::Vector(elements) => DecodedValueView::Vector(move_values_view(elements)),
        MoveValue::Struct(s) => DecodedValueView::Struct(move_struct_view(s)),
        MoveValue::Signer(a) => DecodedValueView::Signer(address_bytes(a)),
    }
}

/// What values of `move_core_types` hold, in order.
pub open spec fn move_values_view(values: Vec<MoveValue>) -> Seq<DecodedValueView>
    decreases values,
{
    Seq::new(
        values.len() as nat,
        |i: int|
            if 0 <= i < values.len() {
                move_value_view(values[i])
            } else {
                DecodedValueView::Bool(false)
            },
    )
}

/// What named fields of `move_core_types` hold, in order.
pub open spec fn move_fields_view(fields: Vec<(Identifier, MoveValue)>) -> Seq<
    (Seq<char>, DecodedValueView),
>
    decreases fields,
{
    Seq::new(
        fields.len() as nat,
        |i: int|
            if 0 <= i < fields.len() {
                (identifier_text(fields[i].0), move_value_view(fields[i].1))
            } else {
                (Seq::empty(), DecodedValueView::Bool(false))
            },
    )
}

/// What a struct of `move_core_types` holds.
pub open spec fn move_struct_view(value: MoveStruct) -> StructValueView
    decreases value,
{
    match value {
        MoveStruct::Runtime(values) => StructValueView::Runtime(move_values_view(values)),
        MoveStruct::WithFields(fields) => StructValueView::WithFields(move_fields_view(fields)),
    }
}

/// `AccountAddress::into_bytes`: the sixteen bytes of the address.
#[verifier::external_body]
pub(crate) fn address_into_bytes(address: AccountAddress) -> (r: [u8; 16])
    ensures
        r@ == address_bytes(address),
{
    address.into_bytes()
}

/// `IdentStr::as_str`, through an owned identifier: the identifier's text.
#[verifier::external_body]
pub(crate) fn identifier_string(identifier: &Identifier) -> (r: String)
    ensures
        r@ == identifier_text(*identifier),
{
    identifier.as_str().to_owned()
}

/// `Identifier::new`: the identifier with this text, where the text is one of the
/// strings that the crate accepts; no identifier for any other string.
#[verifier::external_body]
pub(crate) fn new_identifier(name: &str) -> (r: Option<Identifier>)
    ensures
        r is Some <==> is_valid_identifier(name@),
        r matches Some(identifier) ==> identifier_text(identifier) == name@,
{
    Identifier::new(name).ok()
}

/// `MoveFieldLayout::new`: the field layout that holds this name and this layout.
pub assume_specification[ move_core_types::value::MoveFieldLayout::new ](
    name: Identifier,
    layout: MoveTypeLayout,
) -> (r: MoveFieldLayout)
    ensures
        field_layout_held(r) == (FieldLayoutView {
            name: identifier_text(name),
            layout: move_type_layout_view(layout),
        }),
;

/// `MoveStruct::simple_deserialize`: decodes the bytes under the layout. The struct
/// that comes back, or the message of the error, is a function of the bytes and of
/// what the layout holds.
#[verifier::external_body]
pub(crate) fn simple_deserialize(contents: &Vec<u8>, layout: &MoveStructLayout) -> (r: Result<
    MoveStruct,
    anyhow::Error,
>)
    ensures
        match r {
            Ok(decoded) => bcs_decoded(contents@, move_struct_layout_view(*layout)) == Ok::<
                StructValueView,
                Seq<char>,
            >(move_struct_view(decoded)),
            Err(error) => bcs_decoded(contents@, move_struct_layout_view(*layout)) == Err::<
                StructValueView,
                Seq<char>,
            >(error_text(error)),
        },
{
    MoveStruct::simple_deserialize(contents, layout)
}

/// `Display` of the error: its message.
#[verifier::external_body]
pub(crate) fn error_message(error: &anyhow::Error) -> (r: String)
    ensures
        r@ == error_text(*error),
{
    error.to_string()
}

} // verus!
