//! Fully-qualified names of contract-defined types.

use vstd::prelude::*;

verus! {

/// Address of the account under which a module is published.
#[derive(Clone, Copy, Debug, PartialEq, Eq, PartialOrd, Ord, Hash)]
pub struct MoveAddress(pub [u8; 16]);

impl View for MoveAddress {
    type V = Seq<u8>;

    open spec fn view(&self) -> Seq<u8> {
        self.0@
    }
}

/// A type, by kind; a struct type by its full name.
#[derive(Debug, PartialEq, Eq, PartialOrd, Ord, Hash)]
pub enum TypeTag {
    Bool,
    U8,
    U64,
    U128,
    Address,
    Signer,
    Vector(Box<TypeTag>),
    Struct(StructTag),
}

/// Full name of a struct type: its module, its name and its type parameters in order.
#[derive(Debug, PartialEq, Eq, PartialOrd, Ord, Hash)]
pub struct StructTag {
    pub address: MoveAddress,
    pub module: String,
    pub name: String,
    pub type_params: Vec<TypeTag>,
}

/// Name of a module: the address it is published under and its own name.
#[derive(Debug, Clone, PartialEq, Eq, PartialOrd, Ord, Hash)]
pub struct ModuleId {
    pub address: MoveAddress,
    pub name: String,
}

/// What a `ModuleId` holds.
pub struct ModuleIdView {
    pub address: Seq<u8>,
    pub name: Seq<char>,
}

impl View for ModuleId {
    type V = ModuleIdView;

    open spec fn view(&self) -> ModuleIdView {
        ModuleIdView { address: self.address@, name: self.name@ }
    }
}

/// What a `TypeTag` holds.
pub enum TypeTagView {
    Bool,
    U8,
    U64,
    U128,
    Address,
    Signer,
    Vector(Box<TypeTagView>),
    Struct(StructTagView),
}

/// What a `StructTag` holds.
pub struct StructTagView {
    pub address: Seq<u8>,
    pub module: Seq<char>,
    pub name: Seq<char>,
    pub type_params: Seq<TypeTagView>,
}

impl TypeTag {
    /// What this tag holds.
    pub open spec fn spec_view(self) -> TypeTagView
        decreases self,
    {
        match self {
            TypeTag::Bool => TypeTagView::Bool,
            TypeTag::U8 => TypeTagView::U8,
            TypeTag::U64 => TypeTagView::U64,
            TypeTag::U128 => TypeTagView::U128,
            TypeTag::Address => TypeTagView::Address,
            TypeTag::Signer => TypeTagView::Signer,
            TypeTag::Vector(element) => TypeTagView::Vector(Box::new(element.spec_view())),
            TypeTag::Struct(tag) => TypeTagView::Struct(tag.spec_view()),
        }
    }
}

impl StructTag {
    /// What this tag holds.
    pub open spec fn spec_view(self) -> StructTagView
        decreases self,
    {
        StructTagView {
            address: self.address@,
            module: self.module@,
            name: self.name@,
            type_params: Seq::new(
                self.type_params.len() as nat,
                |i: int|
                    if 0 <= i < self.type_params.len() {
                        self.type_params[i].spec_view()
                    } else {
                        TypeTagView::Bool
                    },
            ),
        }
    }
}

impl StructTagView {
    /// The module that defines the struct: the module component of its name.
    pub open spec fn module_id(self) -> ModuleIdView {
        ModuleIdView { address: self.address, name: self.module }
    }
}

impl View for TypeTag {
    type V = TypeTagView;

    open spec fn view(&self) -> TypeTagView {
        self.spec_view()
    }
}

impl View for StructTag {
    type V = StructTagView;

    open spec fn view(&self) -> StructTagView {
        self.spec_view()
    }
}

impl ModuleId {
    /// The module of this name under this address.
    pub fn new(address: MoveAddress, name: String) -> (r: Self)
        ensures
            r.address == address,
            r.name == name,
    {
        ModuleId { address, name }
    }
}

impl StructTag {
    /// The module that defines the struct.
    pub fn module_id(&self) -> (r: ModuleId)
        ensures
            r@ == self@.module_id(),
    {
        ModuleId::new(self.address, self.module.clone())
    }
}

impl Clone for TypeTag {
    fn clone(&self) -> (r: Self)
        ensures
            r@ == self@,
        decreases self,
    {
        match self {
            TypeTag::Bool => TypeTag::Bool,
            TypeTag::U8 => TypeTag::U8,
            TypeTag::U64 => TypeTag::U64,
            TypeTag::U128 => TypeTag::U128,
            TypeTag::Address => TypeTag::Address,
            TypeTag::Signer => TypeTag::Signer,
            TypeTag::Vector(element) => TypeTag::Vector(Box::new((**element).clone())),
            TypeTag::Struct(tag) => TypeTag::Struct(tag.clone()),
        }
    }
}

impl Clone for StructTag {
    fn clone(&self) -> (r: Self)
        ensures
            r@ == self@,
        decreases self,
    {
        let mut type_params: Vec<TypeTag> = Vec::new();
        let mut i: usize = 0;
        while i < self.type_params.len()
            invariant
                i <= self.type_params.len(),
                type_params.len() == i,
                forall|j: int| 0 <= j < i ==> type_params[j]@ == self.type_params[j]@,
            decreases self.type_params.len() - i,
        {
            type_params.push(self.type_params[i].clone());
            i += 1;
        }
        let r = StructTag {
            address: self.address,
            module: self.module.clone(),
            name: self.name.clone(),
            type_params,
        };
        assert(r@.type_params =~= self@.type_params);
        r
    }
}

} // verus!
