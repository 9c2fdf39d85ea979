//! Decoded values: trees in the shape of the layout they were decoded against.

use vstd::prelude::*;
use crate::layout::{FieldLayoutView, StructLayoutView, TypeLayoutView};
use crate::type_tag::{MoveAddress, StructTag, StructTagView};

verus! {

/// A decoded value: a leaf with its kind and raw value, a vector, or a struct.
#[derive(Debug, PartialEq, Eq)]
pub enum DecodedValue {
    U8(u8),
    U64(u64),
    U128(u128),
    Bool(bool),
    Address(MoveAddress),
    Vector(Vec<DecodedValue>),
    Struct(StructValue),
    Signer(MoveAddress),
}

/// A decoded struct: its fields in declaration order, bare, named, or named under
/// the struct's type.
#[derive(Debug, PartialEq, Eq)]
pub enum StructValue {
    Runtime(Vec<DecodedValue>),
    WithFields(Vec<(String, DecodedValue)>),
    WithTypes { type_: StructTag, fields: Vec<(String, DecodedValue)> },
}

/// What a `DecodedValue` holds.
pub enum DecodedValueView {
    U8(u8),
    U64(u64),
    U128(u128),
    Bool(bool),
    Address(Seq<u8>),
    Vector(Seq<DecodedValueView>),
    Struct(StructValueView),
    Signer(Seq<u8>),
}

/// What a `StructValue` holds.
pub enum StructValueView {
    Runtime(Seq<DecodedValueView>),
    WithFields(Seq<(Seq<char>, DecodedValueView)>),
    WithTypes { type_: StructTagView, fields: Seq<(Seq<char>, DecodedValueView)> },
}

impl DecodedValue {
    /// What this value holds.
    pub open spec fn spec_view(self) -> DecodedValueView
        decreases self,
    {
        match self {
            DecodedValue::U8(x) => DecodedValueView::U8(x),
            DecodedValue::U64(x) => DecodedValueView::U64(x),
            DecodedValue::U128(x) => DecodedValueView::U128(x),
            DecodedValue::Bool(x) => DecodedValueView::Bool(x),
            DecodedValue::Address(a) => DecodedValueView::Address(a@),
            DecodedValue::Vector(elements) => DecodedValueView::Vector(values_view(elements)),
            DecodedValue::Struct(s) => DecodedValueView::Struct(s.spec_view()),
            DecodedValue::Signer(a) => DecodedValueView::Signer(a@),
        }
    }
}

/// What the values of a vector hold, in order.
pub open spec fn values_view(values: Vec<DecodedValue>) -> Seq<DecodedValueView>
    decreases values,
{
    Seq::new(
        values.len() as nat,
        |i: int|
            if 0 <= i < values.len() {
                values[i].spec_view()
            } else {
                DecodedValueView::Bool(false)
            },
    )
}

/// What named fields hold, in order.
pub open spec fn fields_view(fields: Vec<(String, DecodedValue)>) -> Seq<(Seq<char>, DecodedValueView)>
    decreases fields,
{
    Seq::new(
        fields.len() as nat,
        |i: int|
            if 0 <= i < fields.len() {
                (fields[i].0@, fields[i].1.spec_view())
            } else {
                (Seq::empty(), DecodedValueView::Bool(false))
            },
    )
}

impl StructValue {
    /// What this struct holds.
    pub open spec fn spec_view(self) -> StructValueView
        decreases self,
    {
        match self {
            StructValue::Runtime(values) => StructValueView::Runtime(values_view(values)),
            StructValue::WithFields(fields) => StructValueView::WithFields(fields_view(fields)),
            StructValue::WithTypes { type_, fields } => StructValueView::WithTypes {
                type_: type_@,
                fields: fields_view(fields),
            },
        }
    }
}

impl View for DecodedValue {
    type V = DecodedValueView;

    open spec fn view(&self) -> DecodedValueView {
        self.spec_view()
    }
}

impl View for StructValue {
    type V = StructValueView;

    open spec fn view(&self) -> StructValueView {
        self.spec_view()
    }
}

impl DecodedValueView {
    /// This value read under a layout: the same tree, with each struct in the form
    /// that the layout gives it, so named under its type where the layout keeps the
    /// type. `None` where the value is not in the shape of the layout.
    pub open spec fn typed_as(self, layout: TypeLayoutView) -> Option<DecodedValueView>
        decreases self,
    {
        match self {
            DecodedValueView::U8(_) => if layout is U8 {
                Some(self)
            } else {
                None
            },
            DecodedValueView::U64(_) => if layout is U64 {
                Some(self)
            } else {
                None
            },
            DecodedValueView::U128(_) => if layout is U128 {
                Some(self)
            } else {
                None
            },
            DecodedValueView::Bool(_) => if layout is Bool {
                Some(self)
            } else {
                None
            },
            DecodedValueView::Address(_) => if layout is Address {
                Some(self)
            } else {
                None
            },
            DecodedValueView::Signer(_) => if layout is Signer {
                Some(self)
            } else {
                None
            },
            DecodedValueView::Vector(elements) => match layout {
                TypeLayoutView::Vector(element) => if elements_typed(elements, *element) {
                    Some(DecodedValueView::Vector(elements_as(elements, *element)))
                } else {
                    None
                },
                _ => None,
            },
            DecodedValueView::Struct(s) => match layout {
                TypeLayoutView::Struct(struct_layout) => match s.typed_as(struct_layout) {
                    Some(typed) => Some(DecodedValueView::Struct(typed)),
                    None => None,
                },
                _ => None,
            },
        }
    }
}

/// Every element is in the shape of the element layout.
pub open spec fn elements_typed(elements: Seq<DecodedValueView>, layout: TypeLayoutView) -> bool
    decreases elements,
{
    forall|i: int| 0 <= i < elements.len() ==> (#[trigger] elements[i]).typed_as(layout) is Some
}

/// The elements, each read under the element layout.
pub open spec fn elements_as(elements: Seq<DecodedValueView>, layout: TypeLayoutView) -> Seq<
    DecodedValueView,
>
    decreases elements,
{
    Seq::new(
        elements.len(),
        |i: int|
            if 0 <= i < elements.len() {
                elements[i].typed_as(layout).unwrap()
            } else {
                DecodedValueView::Bool(false)
            },
    )
}

/// There is one bare field for each layout, and each is in the shape of its layout.
pub open spec fn bare_fields_typed(
    values: Seq<DecodedValueView>,
    layouts: Seq<TypeLayoutView>,
) -> bool
    decreases values,
{
    &&& values.len() == layouts.len()
    &&& forall|i: int|
        0 <= i < values.len() ==> (#[trigger] values[i]).typed_as(layouts[i]) is Some
}

/// The bare fields, each read under its layout.
pub open spec fn bare_fields_as(values: Seq<DecodedValueView>, layouts: Seq<TypeLayoutView>) -> Seq<
    DecodedValueView,
>
    decreases values,
{
    Seq::new(
        values.len(),
        |i: int|
            if 0 <= i < values.len() {
                values[i].typed_as(layouts[i]).unwrap()
            } else {
                DecodedValueView::Bool(false)
            },
    )
}

/// There is one named field for each layout, under the layout's name, and each is in
/// the shape of its layout.
pub open spec fn named_fields_typed(
    fields: Seq<(Seq<char>, DecodedValueView)>,
    layouts: Seq<FieldLayoutView>,
) -> bool
    decreases fields,
{
    &&& fields.len() == layouts.len()
    &&& forall|i: int|
        0 <= i < fields.len() ==> (#[trigger] fields[i]).0 == layouts[i].name
            && fields[i].1.typed_as(layouts[i].layout) is Some
}

/// The named fields, each read under its layout.
pub open spec fn named_fields_as(
    fields: Seq<(Seq<char>, DecodedValueView)>,
    layouts: Seq<FieldLayoutView>,
) -> Seq<(Seq<char>, DecodedValueView)>
    decreases fields,
{
    Seq::new(
        fields.len(),
        |i: int|
            if 0 <= i < fields.len() {
                (fields[i].0, fields[i].1.typed_as(layouts[i].layout).unwrap())
            } else {
                (Seq::empty(), DecodedValueView::Bool(false))
            },
    )
}

impl StructValueView {
    /// This struct read under a layout: bare under a bare layout, named under a named
    /// one, and named under the layout's type under one that keeps the type. `None`
    /// where the struct is not in the shape of the layout, or carries a type already.
    pub open spec fn typed_as(self, layout: StructLayoutView) -> Option<StructValueView>
        decreases self,
    {
        match self {
            StructValueView::Runtime(values) => match layout {
                StructLayoutView::Runtime(layouts) => if bare_fields_typed(values, layouts) {
                    Some(StructValueView::Runtime(bare_fields_as(values, layouts)))
                } else {
                    None
                },
                _ => None,
            },
            StructValueView::WithFields(fields) => match layout {
                StructLayoutView::WithFields(layouts) => if named_fields_typed(fields, layouts) {
                    Some(StructValueView::WithFields(named_fields_as(fields, layouts)))
                } else {
                    None
                },
                StructLayoutView::WithTypes { type_, fields: layouts } => if named_fields_typed(
                    fields,
                    layouts,
                ) {
                    Some(
                        StructValueView::WithTypes {
                            type_,
                            fields: named_fields_as(fields, layouts),
                        },
                    )
                } else {
                    None
                },
                _ => None,
            },
            StructValueView::WithTypes { .. } => None,
        }
    }
}

impl DecodedValueView {
    /// This value is in the shape of the layout: a leaf of the layout's kind, a vector
    /// whose elements are all in the shape of the element layout, or a struct in the
    /// shape of the struct layout.
    pub open spec fn fits(self, layout: TypeLayoutView) -> bool
        decreases self,
    {
        match self {
            DecodedValueView::U8(_) => layout is U8,
            DecodedValueView::U64(_) => layout is U64,
            DecodedValueView::U128(_) => layout is U128,
            DecodedValueView::Bool(_) => layout is Bool,
            DecodedValueView::Address(_) => layout is Address,
            DecodedValueView::Signer(_) => layout is Signer,
            DecodedValueView::Vector(elements) => layout matches TypeLayoutView::Vector(element)
                && elements_fit(elements, *element),
            DecodedValueView::Struct(s) => layout matches TypeLayoutView::Struct(struct_layout)
                && s.fits(struct_layout),
        }
    }
}

/// Every element is in the shape of the element layout.
pub open spec fn elements_fit(elements: Seq<DecodedValueView>, layout: TypeLayoutView) -> bool
    decreases elements,
{
    forall|i: int| 0 <= i < elements.len() ==> (#[trigger] elements[i]).fits(layout)
}

/// There is one bare field for each layout, in the shape of that layout.
pub open spec fn bare_fields_fit(values: Seq<DecodedValueView>, layouts: Seq<TypeLayoutView>) -> bool
    decreases values,
{
    &&& values.len() == layouts.len()
    &&& forall|i: int| 0 <= i < values.len() ==> (#[trigger] values[i]).fits(layouts[i])
}

/// There is one named field for each layout, under the layout's name and in the shape
/// of that layout.
pub open spec fn named_fields_fit(
    fields: Seq<(Seq<char>, DecodedValueView)>,
    layouts: Seq<FieldLayoutView>,
) -> bool
    decreases fields,
{
    &&& fields.len() == layouts.len()
    &&& forall|i: int|
        0 <= i < fields.len() ==> (#[trigger] fields[i]).0 == layouts[i].name && fields[i].1.fits(
            layouts[i].layout,
        )
}

impl StructValueView {
    /// This struct is in the shape of the layout: bare, named, or named under a type
    /// as the layout is, under the same type where there is one, with one field for
    /// each field of the layout, under the same name and in the shape of its layout.
    pub open spec fn fits(self, layout: StructLayoutView) -> bool
        decreases self,
    {
        match self {
            StructValueView::Runtime(values) => layout matches StructLayoutView::Runtime(layouts)
                && bare_fields_fit(values, layouts),
            StructValueView::WithFields(fields) => layout matches StructLayoutView::WithFields(
                layouts,
            ) && named_fields_fit(fields, layouts),
            StructValueView::WithTypes { type_, fields } => layout matches StructLayoutView::WithTypes {
                type_: layout_type,
                fields: layouts,
            } && type_ == layout_type && named_fields_fit(fields, layouts),
        }
    }
}

impl DecodedValueView {
    /// This value without the types of its structs.
    pub open spec fn untyped(self) -> DecodedValueView
        decreases self,
    {
        match self {
            DecodedValueView::Vector(elements) => DecodedValueView::Vector(
                elements_untyped(elements),
            ),
            DecodedValueView::Struct(s) => DecodedValueView::Struct(s.untyped()),
            _ => self,
        }
    }
}

/// These values without the types of their structs.
pub open spec fn elements_untyped(elements: Seq<DecodedValueView>) -> Seq<DecodedValueView>
    decreases elements,
{
    Seq::new(
        elements.len(),
        |i: int|
            if 0 <= i < elements.len() {
                elements[i].untyped()
            } else {
                DecodedValueView::Bool(false)
            },
    )
}

/// These named fields without the types of their structs.
pub open spec fn named_fields_untyped(fields: Seq<(Seq<char>, DecodedValueView)>) -> Seq<
    (Seq<char>, DecodedValueView),
>
    decreases fields,
{
    Seq::new(
        fields.len(),
        |i: int|
            if 0 <= i < fields.len() {
                (fields[i].0, fields[i].1.untyped())
            } else {
                (Seq::empty(), DecodedValueView::Bool(false))
            },
    )
}

impl StructValueView {
    /// This struct without its type and without the types of the structs in it.
    pub open spec fn untyped(self) -> StructValueView
        decreases self,
    {
        match self {
            StructValueView::Runtime(values) => StructValueView::Runtime(elements_untyped(values)),
            StructValueView::WithFields(fields) => StructValueView::WithFields(
                named_fields_untyped(fields),
            ),
            StructValueView::WithTypes { type_, fields } => StructValueView::WithFields(
                named_fields_untyped(fields),
            ),
        }
    }
}

/// A value read under a layout is in the shape of that layout.
pub proof fn typed_value_fits(value: DecodedValueView, layout: TypeLayoutView)
    requires
        value.typed_as(layout) is Some,
    ensures
        value.typed_as(layout).unwrap().fits(layout),
    decreases value,
{
    match value {
        DecodedValueView::Vector(elements) => {
            let element = *layout->Vector_0;
            let typed = elements_as(elements, element);
            assert forall|i: int| 0 <= i < typed.len() implies (#[trigger] typed[i]).fits(
                element,
            ) by {
                assert(elements[i].typed_as(element) is Some);
                typed_value_fits(elements[i], element);
            }
        },
        DecodedValueView::Struct(s) => {
            typed_struct_fits(s, layout->Struct_0);
        },
        _ => {},
    }
}

/// A struct read under a layout is in the shape of that layout: wherever the layout
/// keeps the type of a struct, the struct stands under that type, and wherever it
/// keeps none, the struct carries none.
pub proof fn typed_struct_fits(value: StructValueView, layout: StructLayoutView)
    requires
        value.typed_as(layout) is Some,
    ensures
        value.typed_as(layout).unwrap().fits(layout),
    decreases value,
{
    match value {
        StructValueView::Runtime(values) => {
            let layouts = layout->Runtime_0;
            let typed = bare_fields_as(values, layouts);
            assert forall|i: int| 0 <= i < typed.len() implies (#[trigger] typed[i]).fits(
                layouts[i],
            ) by {
                assert(values[i].typed_as(layouts[i]) is Some);
                typed_value_fits(values[i], layouts[i]);
            }
        },
        StructValueView::WithFields(fields) => {
            let layouts = match layout {
                StructLayoutView::WithFields(layouts) => layouts,
                StructLayoutView::WithTypes { type_, fields } => fields,
                _ => Seq::empty(),
            };
            let typed = named_fields_as(fields, layouts);
            assert forall|i: int| 0 <= i < typed.len() implies (#[trigger] typed[i]).0
                == layouts[i].name && typed[i].1.fits(layouts[i].layout) by {
                assert(fields[i].0 == layouts[i].name);
                assert(fields[i].1.typed_as(layouts[i].layout) is Some);
                typed_value_fits(fields[i].1, layouts[i].layout);
            }
        },
        StructValueView::WithTypes { .. } => {},
    }
}

/// Reading a value under a layout changes nothing but the form of its structs:
/// without their types, the value read is the value that was there.
pub proof fn typed_value_keeps_fields(value: DecodedValueView, layout: TypeLayoutView)
    requires
        value.typed_as(layout) is Some,
    ensures
        value.typed_as(layout).unwrap().untyped() == value.untyped(),
    decreases value,
{
    match value {
        DecodedValueView::Vector(elements) => {
            let element = *layout->Vector_0;
            let typed = elements_as(elements, element);
            assert forall|i: int| 0 <= i < typed.len() implies (#[trigger] typed[i]).untyped()
                == elements[i].untyped() by {
                assert(elements[i].typed_as(element) is Some);
                typed_value_keeps_fields(elements[i], element);
            }
            assert(elements_untyped(typed) =~= elements_untyped(elements));
        },
        DecodedValueView::Struct(s) => {
            typed_struct_keeps_fields(s, layout->Struct_0);
        },
        _ => {},
    }
}

/// Reading a struct under a layout changes nothing but its form and the form of the
/// structs in it: without their types, the struct read is the struct that was there.
pub proof fn typed_struct_keeps_fields(value: StructValueView, layout: StructLayoutView)
    requires
        value.typed_as(layout) is Some,
    ensures
        value.typed_as(layout).unwrap().untyped() == value.untyped(),
    decreases value,
{
    match value {
        StructValueView::Runtime(values) => {
            let layouts = layout->Runtime_0;
            let typed = bare_fields_as(values, layouts);
            assert forall|i: int| 0 <= i < typed.len() implies (#[trigger] typed[i]).untyped()
                == values[i].untyped() by {
                assert(values[i].typed_as(layouts[i]) is Some);
                typed_value_keeps_fields(values[i], layouts[i]);
            }
            assert(elements_untyped(typed) =~= elements_untyped(values));
        },
        StructValueView::WithFields(fields) => {
            let layouts = match layout {
                StructLayoutView::WithFields(layouts) => layouts,
                StructLayoutView::WithTypes { type_, fields } => fields,
                _ => Seq::empty(),
            };
            let typed = named_fields_as(fields, layouts);
            assert forall|i: int| 0 <= i < typed.len() implies (#[trigger] typed[i]).0
                == fields[i].0 && typed[i].1.untyped() == fields[i].1.untyped() by {
                assert(fields[i].1.typed_as(layouts[i].layout) is Some);
                typed_value_keeps_fields(fields[i].1, layouts[i].layout);
            }
            assert(named_fields_untyped(typed) =~= named_fields_untyped(fields));
        },
        StructValueView::WithTypes { .. } => {},
    }
}

/// A value in the shape of a layout is what its fields give when they are read under
/// that layout: nothing of it is lost with the types of its structs.
pub proof fn fitting_value_is_read_back(value: DecodedValueView, layout: TypeLayoutView)
    requires
        value.fits(layout),
    ensures
        value.untyped().typed_as(layout) == Some(value),
    decreases value,
{
    match value {
        DecodedValueView::Vector(elements) => {
            let element = *layout->Vector_0;
            let bare = elements_untyped(elements);
            assert forall|i: int| 0 <= i < bare.len() implies (#[trigger] bare[i]).typed_as(
                element,
            ) == Some(elements[i]) by {
                fitting_value_is_read_back(elements[i], element);
            }
            assert(elements_as(bare, element) =~= elements);
        },
        DecodedValueView::Struct(s) => {
            fitting_struct_is_read_back(s, layout->Struct_0);
        },
        _ => {},
    }
}

/// A struct in the shape of a layout is what its fields give when they are read under
/// that layout: nothing of it is lost with the types of its structs.
pub proof fn fitting_struct_is_read_back(value: StructValueView, layout: StructLayoutView)
    requires
        value.fits(layout),
    ensures
        value.untyped().typed_as(layout) == Some(value),
    decreases value,
{
    match value {
        StructValueView::Runtime(values) => {
            let layouts = layout->Runtime_0;
            let bare = elements_untyped(values);
            assert forall|i: int| 0 <= i < bare.len() implies (#[trigger] bare[i]).typed_as(
                layouts[i],
            ) == Some(values[i]) by {
                fitting_value_is_read_back(values[i], layouts[i]);
            }
            assert(bare_fields_as(bare, layouts) =~= values);
        },
        StructValueView::WithFields(fields) => {
            let layouts = layout->WithFields_0;
            let bare = named_fields_untyped(fields);
            assert forall|i: int| 0 <= i < bare.len() implies (#[trigger] bare[i]).0
                == layouts[i].name && bare[i].1.typed_as(layouts[i].layout) == Some(
                fields[i].1,
            ) by {
                fitting_value_is_read_back(fields[i].1, layouts[i].layout);
            }
            assert(named_fields_as(bare, layouts) =~= fields);
        },
        StructValueView::WithTypes { type_, fields } => {
            let layouts = layout->WithTypes_fields;
            let bare = named_fields_untyped(fields);
            assert forall|i: int| 0 <= i < bare.len() implies (#[trigger] bare[i]).0
                == layouts[i].name && bare[i].1.typed_as(layouts[i].layout) == Some(
                fields[i].1,
            ) by {
                fitting_value_is_read_back(fields[i].1, layouts[i].layout);
            }
            assert(named_fields_as(bare, layouts) =~= fields);
        },
    }
}

impl Clone for DecodedValue {
    fn clone(&self) -> (r: Self)
        ensures
            r@ == self@,
        decreases self,
    {
        match self {
            DecodedValue::U8(x) => DecodedValue::U8(*x),
            DecodedValue::U64(x) => DecodedValue::U64(*x),
            DecodedValue::U128(x) => DecodedValue::U128(*x),
            DecodedValue::Bool(x) => DecodedValue::Bool(*x),
            DecodedValue::Address(a) => DecodedValue::Address(*a),
            DecodedValue::Vector(elements) => DecodedValue::Vector(clone_values(elements)),
            DecodedValue::Struct(s) => DecodedValue::Struct(s.clone()),
            DecodedValue::Signer(a) => DecodedValue::Signer(*a),
        }
    }
}

/// A copy of the values.
fn clone_values(values: &Vec<DecodedValue>) -> (r: Vec<DecodedValue>)
    ensures
        values_view(r) == values_view(*values),
    decreases values,
{
    let mut copy: Vec<DecodedValue> = Vec::new();
    let mut i: usize = 0;
    while i < values.len()
        invariant
            i <= values.len(),
            copy.len() == i,
            forall|j: int| 0 <= j < i ==> copy[j]@ == values[j]@,
        decreases values.len() - i,
    {
        copy.push(values[i].clone());
        i += 1;
    }
    copy
}

/// A copy of the named fields.
fn clone_fields(fields: &Vec<(String, DecodedValue)>) -> (r: Vec<(String, DecodedValue)>)
    ensures
        fields_view(r) == fields_view(*fields),
    decreases fields,
{
    let mut copy: Vec<(String, DecodedValue)> = Vec::new();
    let mut i: usize = 0;
    while i < fields.len()
        invariant
            i <= fields.len(),
            copy.len() == i,
            forall|j: int| 0 <= j < i ==> copy[j].0@ == fields[j].0@ && copy[j].1@ == fields[j].1@,
        decreases fields.len() - i,
    {
        let field = &fields[i];
        copy.push((field.0.clone(), field.1.clone()));
        i += 1;
    }
    copy
}

impl Clone for StructValue {
    fn clone(&self) -> (r: Self)
        ensures
            r@ == self@,
        decreases self,
    {
        match self {
            StructValue::Runtime(values) => StructValue::Runtime(clone_values(values)),
            StructValue::WithFields(fields) => StructValue::WithFields(clone_fields(fields)),
            StructValue::WithTypes { type_, fields } => StructValue::WithTypes {
                type_: type_.clone(),
                fields: clone_fields(fields),
            },
        }
    }
}

} // verus!
