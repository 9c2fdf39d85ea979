//! Decoding a payload against a resolved layout.
//!
//! The bytes are decoded by `move_core_types`, which knows layouts with bare and with
//! named fields. A layout that keeps the types of its structs is handed to it without
//! them, and what it decodes is read under the full layout again, which puts each
//! struct under its type.

use vstd::prelude::*;
use move_core_types::identifier::Identifier;
use move_core_types::value::{
    MoveFieldLayout,
    MoveStruct,
    MoveStructLayout,
    MoveTypeLayout,
    MoveValue,
};
use crate::error::SuiError;
use crate::layout::{
    field_layouts_view,
    fields_erased,
    fields_names_valid,
    is_valid_identifier,
    layouts_erased,
    layouts_names_valid,
    layouts_view,
    FieldLayout,
    FieldLayoutView,
    StructLayout,
    StructLayoutView,
    TypeLayout,
};
use crate::move_types::{
    address_into_bytes,
    bcs_decoded,
    error_message,
    error_text,
    field_layout_held,
    identifier_string,
    identifier_text,
    move_field_layouts_view,
    move_fields_view,
    move_struct_layout_view,
    move_struct_view,
    move_type_layout_view,
    move_type_layouts_view,
    move_value_view,
    move_values_view,
    new_identifier,
    simple_deserialize,
};
use crate::struct_value::{
    bare_fields_as,
    bare_fields_typed,
    elements_as,
    elements_typed,
    elements_untyped,
    fields_view,
    fitting_struct_is_read_back,
    named_fields_as,
    named_fields_typed,
    named_fields_untyped,
    typed_struct_fits,
    typed_struct_keeps_fields,
    values_view,
    DecodedValue,
    StructValue,
    StructValueView,
};
use crate::type_tag::MoveAddress;

verus! {

/// The layout as `move_core_types` has it, without the types of its structs; `None`
/// where a field's name is no identifier.
fn to_move_type_layout(layout: &TypeLayout) -> (r: Option<MoveTypeLayout>)
    ensures
        r is Some <==> layout@.names_valid(),
        r matches Some(made) ==> move_type_layout_view(made) == layout@.erased(),
    decreases layout,
{
    match layout {
        TypeLayout::Bool => Some(MoveTypeLayout::Bool),
        TypeLayout::U8 => Some(MoveTypeLayout::U8),
        TypeLayout::U64 => Some(MoveTypeLayout::U64),
        TypeLayout::U128 => Some(MoveTypeLayout::U128),
        TypeLayout::Address => Some(MoveTypeLayout::Address),
        TypeLayout::Signer => Some(MoveTypeLayout::Signer),
        TypeLayout::Vector(element) => match to_move_type_layout(element) {
            Some(made) => Some(MoveTypeLayout::Vector(Box::new(made))),
            None => None,
        },
        TypeLayout::Struct(s) => match to_move_struct_layout(s) {
            Some(made) => Some(MoveTypeLayout::Struct(made)),
            None => None,
        },
    }
}

/// The layouts of bare fields as `move_core_types` has them.
fn to_move_type_layouts(layouts: &Vec<TypeLayout>) -> (r: Option<Vec<MoveTypeLayout>>)
    ensures
        r is Some <==> layouts_names_valid(layouts_view(*layouts)),
        r matches Some(made) ==> move_type_layouts_view(made) == layouts_erased(
            layouts_view(*layouts),
        ),
    decreases layouts,
{
    let mut made: Vec<MoveTypeLayout> = Vec::new();
    let mut i: usize = 0;
    while i < layouts.len()
        invariant
            i <= layouts.len(),
            made.len() == i,
            forall|j: int| 0 <= j < i ==> layouts[j]@.names_valid(),
            forall|j: int| 0 <= j < i ==> move_type_layout_view(made[j]) == layouts[j]@.erased(),
        decreases layouts.len() - i,
    {
        match to_move_type_layout(&layouts[i]) {
            Some(one) => made.push(one),
            None => {
                assert(layouts_view(*layouts)[i as int] == layouts[i as int]@);
                return None;
            },
        }
        i += 1;
    }
    Some(made)
}

/// The layouts of named fields as `move_core_types` has them.
fn to_move_field_layouts(fields: &Vec<FieldLayout>) -> (r: Option<Vec<MoveFieldLayout>>)
    ensures
        r is Some <==> fields_names_valid(field_layouts_view(*fields)),
        r matches Some(made) ==> move_field_layouts_view(made) == fields_erased(
            field_layouts_view(*fields),
        ),
    decreases fields,
{
    let mut made: Vec<MoveFieldLayout> = Vec::new();
    let mut i: usize = 0;
    while i < fields.len()
        invariant
            i <= fields.len(),
            made.len() == i,
            forall|j: int|
                0 <= j < i ==> is_valid_identifier(fields[j]@.name)
                    && fields[j]@.layout.names_valid(),
            forall|j: int|
                0 <= j < i ==> field_layout_held(made[j]) == (FieldLayoutView {
                    name: fields[j]@.name,
                    layout: fields[j]@.layout.erased(),
                }),
        decreases fields.len() - i,
    {
        let field = &fields[i];
        proof {
            assert(field_layouts_view(*fields)[i as int] == fields[i as int]@);
        }
        let name = match new_identifier(field.name.as_str()) {
            Some(name) => name,
            None => {
                return None;
            },
        };
        let layout = match to_move_type_layout(&field.layout) {
            Some(layout) => layout,
            None => {
                return None;
            },
        };
        made.push(MoveFieldLayout::new(name, layout));
        i += 1;
    }
    Some(made)
}

/// The struct layout as `move_core_types` has it, without the types of its structs;
/// `None` where a field's name is no identifier.
pub fn to_move_struct_layout(layout: &StructLayout) -> (r: Option<MoveStructLayout>)
    ensures
        r is Some <==> layout@.names_valid(),
        r matches Some(made) ==> move_struct_layout_view(made) == layout@.erased(),
    decreases layout,
{
    match layout {
        StructLayout::Runtime(layouts) => match to_move_type_layouts(layouts) {
            Some(made) => Some(MoveStructLayout::Runtime(made)),
            None => None,
        },
        StructLayout::WithFields(fields) => match to_move_field_layouts(fields) {
            Some(made) => Some(MoveStructLayout::WithFields(made)),
            None => None,
        },
        StructLayout::WithTypes { type_, fields } => match to_move_field_layouts(fields) {
            Some(made) => Some(MoveStructLayout::WithFields(made)),
            None => None,
        },
    }
}

/// The value that `move_core_types` decoded, read under the layout.
fn typed_value_from_move(value: &MoveValue, layout: &TypeLayout) -> (r: Option<DecodedValue>)
    ensures
        r is Some <==> move_value_view(*value).typed_as(layout@) is Some,
        r matches Some(typed) ==> move_value_view(*value).typed_as(layout@) == Some(typed@),
    decreases value,
{
    match value {
        MoveValue::U8(x) => match layout {
            TypeLayout::U8 => Some(DecodedValue::U8(*x)),
            _ => None,
        },
        MoveValue::U64(x) => match layout {
            TypeLayout::U64 => Some(DecodedValue::U64(*x)),
            _ => None,
        },
        MoveValue::U128(x) => match layout {
            TypeLayout::U128 => Some(DecodedValue::U128(*x)),
            _ => None,
        },
        MoveValue::Bool(x) => match layout {
            TypeLayout::Bool => Some(DecodedValue::Bool(*x)),
            _ => None,
        },
        MoveValue::Address(a) => match layout {
            TypeLayout::Address => Some(
                DecodedValue::Address(MoveAddress(address_into_bytes(*a))),
            ),
            _ => None,
        },
        MoveValue::Signer(a) => match layout {
            TypeLayout::Signer => Some(DecodedValue::Signer(MoveAddress(address_into_bytes(*a)))),
            _ => None,
        },
        MoveValue::Vector(elements) => match layout {
            TypeLayout::Vector(element) => match typed_elements_from_move(elements, element) {
                Some(typed) => Some(DecodedValue::Vector(typed)),
                None => None,
            },
            _ => None,
        },
        MoveValue::Struct(s) => match layout {
            TypeLayout::Struct(struct_layout) => match typed_struct_from_move(s, struct_layout) {
                Some(typed) => Some(DecodedValue::Struct(typed)),
                None => None,
            },
            _ => None,
        },
    }
}

/// The elements that `move_core_types` decoded, each read under the element layout.
fn typed_elements_from_move(elements: &Vec<MoveValue>, layout: &TypeLayout) -> (r: Option<
    Vec<DecodedValue>,
>)
    ensures
        r is Some <==> elements_typed(move_values_view(*elements), layout@),
        r matches Some(typed) ==> values_view(typed) == elements_as(
            move_values_view(*elements),
            layout@,
        ),
    decreases elements,
{
    let mut typed: Vec<DecodedValue> = Vec::new();
    let mut i: usize = 0;
    while i < elements.len()
        invariant
            i <= elements.len(),
            typed.len() == i,
            forall|j: int|
                0 <= j < i ==> move_value_view(elements[j]).typed_as(layout@) == Some(typed[j]@),
        decreases elements.len() - i,
    {
        match typed_value_from_move(&elements[i], layout) {
            Some(one) => typed.push(one),
            None => {
                assert(move_values_view(*elements)[i as int] == move_value_view(
                    elements[i as int],
                ));
                return None;
            },
        }
        i += 1;
    }
    Some(typed)
}

/// The bare fields that `move_core_types` decoded, each read under its layout.
fn typed_bare_fields_from_move(values: &Vec<MoveValue>, layouts: &Vec<TypeLayout>) -> (r: Option<
    Vec<DecodedValue>,
>)
    ensures
        r is Some <==> bare_fields_typed(move_values_view(*values), layouts_view(*layouts)),
        r matches Some(typed) ==> values_view(typed) == bare_fields_as(
            move_values_view(*values),
            layouts_view(*layouts),
        ),
    decreases values,
{
    if values.len() != layouts.len() {
        return None;
    }
    let mut typed: Vec<DecodedValue> = Vec::new();
    let mut i: usize = 0;
    while i < values.len()
        invariant
            values.len() == layouts.len(),
            i <= values.len(),
            typed.len() == i,
            forall|j: int|
                0 <= j < i ==> move_value_view(values[j]).typed_as(layouts[j]@) == Some(
                    typed[j]@,
                ),
        decreases values.len() - i,
    {
        match typed_value_from_move(&values[i], &layouts[i]) {
            Some(one) => typed.push(one),
            None => {
                assert(move_values_view(*values)[i as int] == move_value_view(values[i as int]));
                return None;
            },
        }
        i += 1;
    }
    Some(typed)
}

/// The named fields that `move_core_types` decoded, each read under its layout.
fn typed_named_fields_from_move(
    fields: &Vec<(Identifier, MoveValue)>,
    layouts: &Vec<FieldLayout>,
) -> (r: Option<Vec<(String, DecodedValue)>>)
    ensures
        r is Some <==> named_fields_typed(move_fields_view(*fields), field_layouts_view(*layouts)),
        r matches Some(typed) ==> fields_view(typed) == named_fields_as(
            move_fields_view(*fields),
            field_layouts_view(*layouts),
        ),
    decreases fields,
{
    if fields.len() != layouts.len() {
        return None;
    }
    let mut typed: Vec<(String, DecodedValue)> = Vec::new();
    let mut i: usize = 0;
    while i < fields.len()
        invariant
            fields.len() == layouts.len(),
            i <= fields.len(),
            typed.len() == i,
            forall|j: int|
                0 <= j < i ==> identifier_text(fields[j].0) == layouts[j]@.name
                    && typed[j].0@ == identifier_text(fields[j].0) && move_value_view(
                    fields[j].1,
                ).typed_as(layouts[j]@.layout) == Some(typed[j].1@),
        decreases fields.len() - i,
    {
        let field = &fields[i];
        let layout = &layouts[i];
        proof {
            assert(move_fields_view(*fields)[i as int] == (
                identifier_text(fields[i as int].0),
                move_value_view(fields[i as int].1),
            ));
        }
        let name = identifier_string(&field.0);
        if name != layout.name {
            return None;
        }
        match typed_value_from_move(&field.1, &layout.layout) {
            Some(one) => typed.push((name, one)),
            None => {
                return None;
            },
        }
        i += 1;
    }
    Some(typed)
}

/// The struct that `move_core_types` decoded, read under the layout: in the form that
/// the layout gives it, each struct under its type where the layout keeps the type;
/// `None` where it is not in the shape of the layout.
pub fn typed_struct_from_move(value: &MoveStruct, layout: &StructLayout) -> (r: Option<StructValue>)
    ensures
        r is Some <==> move_struct_view(*value).typed_as(layout@) is Some,
        r matches Some(typed) ==> move_struct_view(*value).typed_as(layout@) == Some(typed@),
    decreases value,
{
    match value {
        MoveStruct::Runtime(values) => match layout {
            StructLayout::Runtime(layouts) => match typed_bare_fields_from_move(values, layouts) {
                Some(typed) => Some(StructValue::Runtime(typed)),
                None => None,
            },
            _ => None,
        },
        MoveStruct::WithFields(fields) => match layout {
            StructLayout::WithFields(layouts) => match typed_named_fields_from_move(
                fields,
                layouts,
            ) {
                Some(typed) => Some(StructValue::WithFields(typed)),
                None => None,
            },
            StructLayout::WithTypes { type_, fields: layouts } => match typed_named_fields_from_move(
                fields,
                layouts,
            ) {
                Some(typed) => Some(StructValue::WithTypes { type_: type_.clone(), fields: typed }),
                None => None,
            },
            _ => None,
        },
    }
}

/// A value of `move_core_types` carries no type of a struct.
proof fn move_value_is_untyped(value: MoveValue)
    ensures
        move_value_view(value).untyped() == move_value_view(value),
    decreases value,
{
    match value {
        MoveValue::Vector(elements) => {
            let held = move_values_view(elements);
            assert forall|i: int| 0 <= i < held.len() implies (#[trigger] held[i]).untyped()
                == held[i] by {
                move_value_is_untyped(elements[i]);
            }
            assert(elements_untyped(held) =~= held);
        },
        MoveValue::Struct(s) => {
            move_struct_is_untyped(s);
        },
        _ => {},
    }
}

/// A struct of `move_core_types` carries no type, nor does any struct in it.
proof fn move_struct_is_untyped(value: MoveStruct)
    ensures
        move_struct_view(value).untyped() == move_struct_view(value),
    decreases value,
{
    match value {
        MoveStruct::Runtime(values) => {
            let held = move_values_view(values);
            assert forall|i: int| 0 <= i < held.len() implies (#[trigger] held[i]).untyped()
                == held[i] by {
                move_value_is_untyped(values[i]);
            }
            assert(elements_untyped(held) =~= held);
        },
        MoveStruct::WithFields(fields) => {
            let held = move_fields_view(fields);
            assert forall|i: int| 0 <= i < held.len() implies (#[trigger] held[i]).1.untyped()
                == held[i].1 by {
                move_value_is_untyped(fields[i].1);
            }
            assert(named_fields_untyped(held) =~= held);
        },
    }
}

/// What is said of a layout that names a field with something that is no identifier.
pub open spec fn invalid_name_cause() -> Seq<char> {
    "the layout names a field with something that is no identifier"@
}

/// What is said of decoded fields that are not in the shape of the layout.
pub open spec fn misfit_cause() -> Seq<char> {
    "the decoded fields are not in the shape of the layout"@
}

/// What comes of an outcome of `move_core_types` under the layout that was asked for:
/// its failure, with the message; or what it decoded, read under the layout.
pub open spec fn read_spec(
    outcome: Result<StructValueView, Seq<char>>,
    layout: StructLayoutView,
) -> Result<StructValueView, Seq<char>> {
    match outcome {
        Err(message) => Err(message),
        Ok(decoded) => match decoded.typed_as(layout) {
            Some(typed) => Ok(typed),
            None => Err(misfit_cause()),
        },
    }
}

/// What decoding these bytes against this layout gives: the decoded struct, or the
/// cause of the failure in words.
///
/// A layout with a field whose name is no identifier is refused. Otherwise the bytes
/// are decoded under the layout without the types of its structs, and what comes of
/// that is read under the full layout.
pub open spec fn decode_spec(contents: Seq<u8>, layout: StructLayoutView) -> Result<
    StructValueView,
    Seq<char>,
> {
    if !layout.names_valid() {
        Err(invalid_name_cause())
    } else {
        read_spec(bcs_decoded(contents, layout.erased()), layout)
    }
}

/// Round trip, as far as this library reaches. Take a value in the shape of a layout
/// whose fields are named by identifiers, and bytes that `move_core_types` decodes to
/// the fields of that value. Decoding those bytes against the layout gives the value
/// back, whole, with the types of its structs.
pub proof fn decode_gives_back_the_value(
    contents: Seq<u8>,
    layout: StructLayoutView,
    value: StructValueView,
)
    requires
        layout.names_valid(),
        value.fits(layout),
        bcs_decoded(contents, layout.erased()) == Ok::<StructValueView, Seq<char>>(
            value.untyped(),
        ),
    ensures
        decode_spec(contents, layout) == Ok::<StructValueView, Seq<char>>(value),
{
    fitting_struct_is_read_back(value, layout);
}

/// Nothing is decoded from bytes that `move_core_types` fails on, cut short or
/// malformed: decoding fails, and the cause is the message of that failure.
pub proof fn decode_fails_with_the_decoder(contents: Seq<u8>, layout: StructLayoutView)
    requires
        layout.names_valid(),
        bcs_decoded(contents, layout.erased()) is Err,
    ensures
        decode_spec(contents, layout) == Err::<StructValueView, Seq<char>>(
            bcs_decoded(contents, layout.erased())->Err_0,
        ),
{
}

/// Reads what `move_core_types` made of a payload under the layout that the payload
/// was to be decoded against. A failure stays a failure, with its message. A decoded
/// struct comes back in the form that the layout gives it, each struct under its type
/// where the layout keeps the type; one that is not in the shape of the layout is
/// refused.
pub fn read_decoded(outcome: Result<MoveStruct, anyhow::Error>, layout: &StructLayout) -> (r:
    Result<StructValue, SuiError>)
    ensures
        match outcome {
            Err(error) => r matches Err(e) && e.cause() == error_text(error),
            Ok(decoded) => match move_struct_view(decoded).typed_as(layout@) {
                Some(typed) => r matches Ok(value) && value@ == typed,
                None => r matches Err(e) && e.cause() == misfit_cause(),
            },
        },
        r matches Ok(value) ==> value@.fits(layout@),
        r matches Ok(value) ==> outcome matches Ok(decoded) && value@.untyped()
            == move_struct_view(decoded),
{
    match outcome {
        Err(error) => Err(SuiError::ObjectSerializationError { error: error_message(&error) }),
        Ok(decoded) => match typed_struct_from_move(&decoded, layout) {
            Some(typed) => {
                proof {
                    typed_struct_fits(move_struct_view(decoded), layout@);
                    typed_struct_keeps_fields(move_struct_view(decoded), layout@);
                    move_struct_is_untyped(decoded);
                }
                Ok(typed)
            },
            None => Err(
                SuiError::ObjectSerializationError {
                    error: "the decoded fields are not in the shape of the layout".to_owned(),
                },
            ),
        },
    }
}

/// Decodes `contents` against `layout`: depth first, the fields in declaration order.
/// Either the whole struct comes back, in the shape of the layout, or an error does;
/// nothing is returned in part. The fields that come back are the fields that were
/// decoded from the bytes; the layout decides only the form of the structs.
pub fn decode(contents: &Vec<u8>, layout: &StructLayout) -> (r: Result<StructValue, SuiError>)
    ensures
        match decode_spec(contents@, layout@) {
            Ok(value) => r matches Ok(decoded) && decoded@ == value,
            Err(cause) => r matches Err(error) && error.cause() == cause,
        },
        r matches Ok(decoded) ==> decoded@.fits(layout@),
        r matches Ok(decoded) ==> bcs_decoded(contents@, layout@.erased()) == Ok::<
            StructValueView,
            Seq<char>,
        >(decoded@.untyped()),
{
    match to_move_struct_layout(layout) {
        Some(move_layout) => read_decoded(simple_deserialize(contents, &move_layout), layout),
        None => Err(
            SuiError::ObjectSerializationError {
                error: "the layout names a field with something that is no identifier".to_owned(),
            },
        ),
    }
}

} // verus!
