//! Resolved layouts: the field structure against which a payload is decoded.

use vstd::prelude::*;
use crate::type_tag::{StructTag, StructTagView};

verus! {

/// Layout of a value: a leaf by kind, a vector by its element, or a struct.
#[derive(Debug, PartialEq, Eq)]
pub enum TypeLayout {
    Bool,
    U8,
    U64,
    U128,
    Address,
    Vector(Box<TypeLayout>),
    Struct(StructLayout),
    Signer,
}

/// Layout of a struct: its fields in declaration order, bare, named, or named under
/// the struct's type.
#[derive(Debug, PartialEq, Eq)]
pub enum StructLayout {
    Runtime(Vec<TypeLayout>),
    WithFields(Vec<FieldLayout>),
    WithTypes { type_: StructTag, fields: Vec<FieldLayout> },
}

/// Layout of a named field.
#[derive(Debug, PartialEq, Eq)]
pub struct FieldLayout {
    pub name: String,
    pub layout: TypeLayout,
}

/// What a `TypeLayout` holds.
pub enum TypeLayoutView {
    Bool,
    U8,
    U64,
    U128,
    Address,
    Vector(Box<TypeLayoutView>),
    Struct(StructLayoutView),
    Signer,
}

/// What a `StructLayout` holds.
pub enum StructLayoutView {
    Runtime(Seq<TypeLayoutView>),
    WithFields(Seq<FieldLayoutView>),
    WithTypes { type_: StructTagView, fields: Seq<FieldLayoutView> },
}

/// What a `FieldLayout` holds.
pub struct FieldLayoutView {
    pub name: Seq<char>,
    pub layout: TypeLayoutView,
}

impl TypeLayout {
    /// What this layout holds.
    pub open spec fn spec_view(self) -> TypeLayoutView
        decreases self,
    {
        match self {
            TypeLayout::Bool => TypeLayoutView::Bool,
            TypeLayout::U8 => TypeLayoutView::U8,
            TypeLayout::U64 => TypeLayoutView::U64,
            TypeLayout::U128 => TypeLayoutView::U128,
            TypeLayout::Address => TypeLayoutView::Address,
            TypeLayout::Vector(element) => TypeLayoutView::Vector(Box::new(element.spec_view())),
            TypeLayout::Struct(s) => TypeLayoutView::Struct(s.spec_view()),
            TypeLayout::Signer => TypeLayoutView::Signer,
        }
    }
}

/// What the layouts of bare fields hold, in order.
pub open spec fn layouts_view(layouts: Vec<TypeLayout>) -> Seq<TypeLayoutView>
    decreases layouts,
{
    Seq::new(
        layouts.len() as nat,
        |i: int|
            if 0 <= i < layouts.len() {
                layouts[i].spec_view()
            } else {
                TypeLayoutView::Bool
            },
    )
}

/// What the layouts of named fields hold, in order.
pub open spec fn field_layouts_view(fields: Vec<FieldLayout>) -> Seq<FieldLayoutView>
    decreases fields,
{
    Seq::new(
        fields.len() as nat,
        |i: int|
            if 0 <= i < fields.len() {
                fields[i].spec_view()
            } else {
                FieldLayoutView { name: Seq::empty(), layout: TypeLayoutView::Bool }
            },
    )
}

impl FieldLayout {
    /// What this field's layout holds.
    pub open spec fn spec_view(self) -> FieldLayoutView
        decreases self,
    {
        FieldLayoutView { name: self.name@, layout: self.layout.spec_view() }
    }
}

impl StructLayout {
    /// What this layout holds.
    pub open spec fn spec_view(self) -> StructLayoutView
        decreases self,
    {
        match self {
            StructLayout::Runtime(layouts) => StructLayoutView::Runtime(layouts_view(layouts)),
            StructLayout::WithFields(fields) => StructLayoutView::WithFields(
                field_layouts_view(fields),
            ),
            StructLayout::WithTypes { type_, fields } => StructLayoutView::WithTypes {
                type_: type_@,
                fields: field_layouts_view(fields),
            },
        }
    }
}

impl View for TypeLayout {
    type V = TypeLayoutView;

    open spec fn view(&self) -> TypeLayoutView {
        self.spec_view()
    }
}

impl View for StructLayout {
    type V = StructLayoutView;

    open spec fn view(&self) -> StructLayoutView {
        self.spec_view()
    }
}

impl View for FieldLayout {
    type V = FieldLayoutView;

    open spec fn view(&self) -> FieldLayoutView {
        self.spec_view()
    }
}

/// A character that may stand in an identifier: a letter or digit of ASCII, or an
/// underscore.
pub open spec fn is_identifier_char(c: char) -> bool {
    c == '_' || ('a' <= c && c <= 'z') || ('A' <= c && c <= 'Z') || ('0' <= c && c <= '9')
}

/// The names that a field, a module or a struct may have: a letter followed by
/// identifier characters, an underscore followed by at least one of them, and the one
/// exception `<SELF>`.
pub open spec fn is_valid_identifier(s: Seq<char>) -> bool {
    ||| s == "<SELF>"@
    ||| {
        &&& s.len() >= 1
        &&& (('a' <= s[0] && s[0] <= 'z') || ('A' <= s[0] && s[0] <= 'Z') || (s[0] == '_'
            && s.len() > 1))
        &&& forall|i: int| 1 <= i < s.len() ==> is_identifier_char(#[trigger] s[i])
    }
}

impl TypeLayoutView {
    /// Every struct in this layout keeps its type (`include_types`), or every struct
    /// names its fields and keeps no type.
    pub open spec fn has_mode(self, include_types: bool) -> bool
        decreases self,
    {
        match self {
            TypeLayoutView::Vector(element) => element.has_mode(include_types),
            TypeLayoutView::Struct(s) => s.has_mode(include_types),
            _ => true,
        }
    }

    /// Every field in this layout has a name that is an identifier.
    pub open spec fn names_valid(self) -> bool
        decreases self,
    {
        match self {
            TypeLayoutView::Vector(element) => element.names_valid(),
            TypeLayoutView::Struct(s) => s.names_valid(),
            _ => true,
        }
    }

    /// This layout without the types of its structs.
    pub open spec fn erased(self) -> TypeLayoutView
        decreases self,
    {
        match self {
            TypeLayoutView::Vector(element) => TypeLayoutView::Vector(Box::new(element.erased())),
            TypeLayoutView::Struct(s) => TypeLayoutView::Struct(s.erased()),
            _ => self,
        }
    }
}

/// Every one of these fields has the mode.
pub open spec fn fields_have_mode(fields: Seq<FieldLayoutView>, include_types: bool) -> bool
    decreases fields,
{
    forall|i: int| 0 <= i < fields.len() ==> (#[trigger] fields[i]).layout.has_mode(include_types)
}

/// Every one of these bare fields, and every field below it, has a name that is an
/// identifier.
pub open spec fn layouts_names_valid(layouts: Seq<TypeLayoutView>) -> bool
    decreases layouts,
{
    forall|i: int| 0 <= i < layouts.len() ==> (#[trigger] layouts[i]).names_valid()
}

/// Every one of these fields, and every field below it, has a name that is an
/// identifier.
pub open spec fn fields_names_valid(fields: Seq<FieldLayoutView>) -> bool
    decreases fields,
{
    forall|i: int|
        0 <= i < fields.len() ==> is_valid_identifier((#[trigger] fields[i]).name)
            && fields[i].layout.names_valid()
}

/// These fields without the types of their structs.
pub open spec fn fields_erased(fields: Seq<FieldLayoutView>) -> Seq<FieldLayoutView>
    decreases fields,
{
    Seq::new(
        fields.len(),
        |i: int|
            if 0 <= i < fields.len() {
                FieldLayoutView { name: fields[i].name, layout: fields[i].layout.erased() }
            } else {
                FieldLayoutView { name: Seq::empty(), layout: TypeLayoutView::Bool }
            },
    )
}

/// These layouts without the types of their structs.
pub open spec fn layouts_erased(layouts: Seq<TypeLayoutView>) -> Seq<TypeLayoutView>
    decreases layouts,
{
    Seq::new(
        layouts.len(),
        |i: int|
            if 0 <= i < layouts.len() {
                layouts[i].erased()
            } else {
                TypeLayoutView::Bool
            },
    )
}

impl StructLayoutView {
    /// Every struct in this layout, itself included, keeps its type
    /// (`include_types`), or every one names its fields and keeps no type.
    pub open spec fn has_mode(self, include_types: bool) -> bool
        decreases self,
    {
        match self {
            StructLayoutView::Runtime(_) => false,
            StructLayoutView::WithFields(fields) => !include_types && fields_have_mode(
                fields,
                include_types,
            ),
            StructLayoutView::WithTypes { type_, fields } => include_types && fields_have_mode(
                fields,
                include_types,
            ),
        }
    }

    /// Every field in this layout has a name that is an identifier.
    pub open spec fn names_valid(self) -> bool
        decreases self,
    {
        match self {
            StructLayoutView::Runtime(layouts) => layouts_names_valid(layouts),
            StructLayoutView::WithFields(fields) => fields_names_valid(fields),
            StructLayoutView::WithTypes { type_, fields } => fields_names_valid(fields),
        }
    }

    /// This layout without the types of its structs: what is left of it for a
    /// decoder that returns named fields only.
    pub open spec fn erased(self) -> StructLayoutView
        decreases self,
    {
        match self {
            StructLayoutView::Runtime(layouts) => StructLayoutView::Runtime(layouts_erased(layouts)),
            StructLayoutView::WithFields(fields) => StructLayoutView::WithFields(
                fields_erased(fields),
            ),
            StructLayoutView::WithTypes { type_, fields } => StructLayoutView::WithFields(
                fields_erased(fields),
            ),
        }
    }
}

/// Leaving out the types of its structs changes nothing in a layout that keeps none.
pub proof fn layout_without_types_stays(layout: TypeLayoutView)
    requires
        layout.has_mode(false),
    ensures
        layout.erased() == layout,
    decreases layout,
{
    match layout {
        TypeLayoutView::Vector(element) => {
            layout_without_types_stays(*element);
        },
        TypeLayoutView::Struct(s) => {
            struct_layout_without_types_stays(s);
        },
        _ => {},
    }
}

/// Leaving out the types of its structs changes nothing in a struct layout that keeps
/// none: such a layout is decoded against as it stands.
pub proof fn struct_layout_without_types_stays(layout: StructLayoutView)
    requires
        layout.has_mode(false),
    ensures
        layout.erased() == layout,
    decreases layout,
{
    match layout {
        StructLayoutView::WithFields(fields) => {
            assert forall|i: int| 0 <= i < fields.len() implies fields_erased(fields)[i]
                == fields[i] by {
                layout_without_types_stays(fields[i].layout);
            }
            assert(fields_erased(fields) =~= fields);
        },
        _ => {},
    }
}

/// A layout in either mode, with the types of its structs left out, is a layout that
/// keeps none.
pub proof fn erased_layout_keeps_no_type(layout: TypeLayoutView, include_types: bool)
    requires
        layout.has_mode(include_types),
    ensures
        layout.erased().has_mode(false),
    decreases layout,
{
    match layout {
        TypeLayoutView::Vector(element) => {
            erased_layout_keeps_no_type(*element, include_types);
        },
        TypeLayoutView::Struct(s) => {
            erased_struct_layout_keeps_no_type(s, include_types);
        },
        _ => {},
    }
}

/// A struct layout in either mode, with the types of its structs left out, is one that
/// keeps none: no type of a struct is in what is left.
pub proof fn erased_struct_layout_keeps_no_type(layout: StructLayoutView, include_types: bool)
    requires
        layout.has_mode(include_types),
    ensures
        layout.erased().has_mode(false),
    decreases layout,
{
    let fields = match layout {
        StructLayoutView::WithFields(fields) => fields,
        StructLayoutView::WithTypes { type_, fields } => fields,
        _ => Seq::empty(),
    };
    assert forall|i: int| 0 <= i < fields.len() implies (#[trigger] fields_erased(
        fields,
    )[i]).layout.has_mode(false) by {
        erased_layout_keeps_no_type(fields[i].layout, include_types);
    }
}

impl TypeLayout {
    /// Whether every struct in this layout keeps its type (`include_types`), or every
    /// struct names its fields and keeps no type.
    pub fn has_mode(&self, include_types: bool) -> (r: bool)
        ensures
            r == self@.has_mode(include_types),
        decreases self,
    {
        match self {
            TypeLayout::Vector(element) => element.has_mode(include_types),
            TypeLayout::Struct(s) => s.has_mode(include_types),
            _ => true,
        }
    }
}

/// Whether every one of these fields has the mode.
fn named_fields_have_mode(fields: &Vec<FieldLayout>, include_types: bool) -> (r: bool)
    ensures
        r == fields_have_mode(field_layouts_view(*fields), include_types),
    decreases fields,
{
    let mut i: usize = 0;
    while i < fields.len()
        invariant
            i <= fields.len(),
            forall|j: int| 0 <= j < i ==> fields[j]@.layout.has_mode(include_types),
        decreases fields.len() - i,
    {
        proof {
            assert(field_layouts_view(*fields)[i as int] == fields[i as int]@);
        }
        if !fields[i].layout.has_mode(include_types) {
            return false;
        }
        i += 1;
    }
    true
}

impl StructLayout {
    /// Whether every struct in this layout, itself included, keeps its type
    /// (`include_types`), or every one names its fields and keeps no type.
    pub fn has_mode(&self, include_types: bool) -> (r: bool)
        ensures
            r == self@.has_mode(include_types),
        decreases self,
    {
        match self {
            StructLayout::Runtime(_) => false,
            StructLayout::WithFields(fields) => !include_types && named_fields_have_mode(
                fields,
                include_types,
            ),
            StructLayout::WithTypes { type_, fields } => include_types && named_fields_have_mode(
                fields,
                include_types,
            ),
        }
    }
}

impl Clone for TypeLayout {
    fn clone(&self) -> (r: Self)
        ensures
            r@ == self@,
        decreases self,
    {
        match self {
            TypeLayout::Bool => TypeLayout::Bool,
            TypeLayout::U8 => TypeLayout::U8,
            TypeLayout::U64 => TypeLayout::U64,
            TypeLayout::U128 => TypeLayout::U128,
            TypeLayout::Address => TypeLayout::Address,
            TypeLayout::Vector(element) => TypeLayout::Vector(Box::new((**element).clone())),
            TypeLayout::Struct(s) => TypeLayout::Struct(s.clone()),
            TypeLayout::Signer => TypeLayout::Signer,
        }
    }
}

impl Clone for FieldLayout {
    fn clone(&self) -> (r: Self)
        ensures
            r@ == self@,
        decreases self,
    {
        FieldLayout { name: self.name.clone(), layout: self.layout.clone() }
    }
}

/// A copy of the layouts of bare fields.
fn clone_layouts(layouts: &Vec<TypeLayout>) -> (r: Vec<TypeLayout>)
    ensures
        layouts_view(r) == layouts_view(*layouts),
    decreases layouts,
{
    let mut copy: Vec<TypeLayout> = Vec::new();
    let mut i: usize = 0;
    while i < layouts.len()
        invariant
            i <= layouts.len(),
            copy.len() == i,
            forall|j: int| 0 <= j < i ==> copy[j]@ == layouts[j]@,
        decreases layouts.len() - i,
    {
        copy.push(layouts[i].clone());
        i += 1;
    }
    copy
}

/// A copy of the layouts of named fields.
fn clone_field_layouts(fields: &Vec<FieldLayout>) -> (r: Vec<FieldLayout>)
    ensures
        field_layouts_view(r) == field_layouts_view(*fields),
    decreases fields,
{
    let mut copy: Vec<FieldLayout> = Vec::new();
    let mut i: usize = 0;
    while i < fields.len()
        invariant
            i <= fields.len(),
            copy.len() == i,
            forall|j: int| 0 <= j < i ==> copy[j]@ == fields[j]@,
        decreases fields.len() - i,
    {
        copy.push(fields[i].clone());
        i += 1;
    }
    copy
}

impl Clone for StructLayout {
    fn clone(&self) -> (r: Self)
        ensures
            r@ == self@,
        decreases self,
    {
        match self {
            StructLayout::Runtime(layouts) => StructLayout::Runtime(clone_layouts(layouts)),
            StructLayout::WithFields(fields) => StructLayout::WithFields(
                clone_field_layouts(fields),
            ),
            StructLayout::WithTypes { type_, fields } => StructLayout::WithTypes {
                type_: type_.clone(),
                fields: clone_field_layouts(fields),
            },
        }
    }
}

} // verus!
