//! The types of the source language and of its variables.

use vstd::prelude::*;

verus! {

broadcast use vstd::std_specs::vec::axiom_vec_index_decreases;

/// A type of the source language.
#[derive(Debug, PartialEq, Eq)]
pub enum Type {
    Int,
    Char,
    /// The type of a string literal. No variable has it.
    Str,
    Ptr(Box<Type>),
    /// A structure, by its name.
    Struct(String),
    Void,
}

/// The mathematical value of a [`Type`].
pub enum TypeView {
    Int,
    Char,
    Str,
    Ptr(Box<TypeView>),
    Struct(Seq<char>),
    Void,
}

impl Type {
    /// The mathematical value of this type.
    pub open spec fn model(self) -> TypeView
        decreases self,
    {
        match self {
            Type::Int => TypeView::Int,
            Type::Char => TypeView::Char,
            Type::Str => TypeView::Str,
            Type::Ptr(inner) => TypeView::Ptr(Box::new((*inner).model())),
            Type::Struct(name) => TypeView::Struct(name@),
            Type::Void => TypeView::Void,
        }
    }
}

impl View for Type {
    type V = TypeView;

    open spec fn view(&self) -> TypeView {
        self.model()
    }
}

impl Clone for Type {
    fn clone(&self) -> (t: Type)
        ensures
            t@ == self@,
        decreases self,
    {
        match self {
            Type::Int => Type::Int,
            Type::Char => Type::Char,
            Type::Str => Type::Str,
            Type::Ptr(inner) => Type::Ptr(Box::new((**inner).clone())),
            Type::Struct(name) => Type::Struct(name.clone()),
            Type::Void => Type::Void,
        }
    }
}

/// The type of a variable: a plain type, or an array of items with its
/// dimensions, the last of which varies fastest in memory.
#[derive(Debug, PartialEq, Eq)]
pub enum VariableType {
    Regular { ty: Type },
    Array { item: Box<VariableType>, dimensions: Vec<u32> },
}

/// The mathematical value of a [`VariableType`].
pub enum VariableTypeView {
    Regular { ty: TypeView },
    Array { item: Box<VariableTypeView>, dimensions: Seq<u32> },
}

impl VariableType {
    /// The mathematical value of this type.
    pub open spec fn model(self) -> VariableTypeView
        decreases self,
    {
        match self {
            VariableType::Regular { ty } => VariableTypeView::Regular { ty: ty@ },
            VariableType::Array { item, dimensions } => VariableTypeView::Array {
                item: Box::new((*item).model()),
                dimensions: dimensions@,
            },
        }
    }
}

impl View for VariableType {
    type V = VariableTypeView;

    open spec fn view(&self) -> VariableTypeView {
        self.model()
    }
}

/// A copy of `v`.
pub fn clone_dimensions(v: &Vec<u32>) -> (r: Vec<u32>)
    ensures
        r@ == v@,
{
    let mut r: Vec<u32> = Vec::new();
    let mut i: usize = 0;
    while i < v.len()
        invariant
            i <= v.len(),
            r@ == v@.subrange(0, i as int),
        decreases v.len() - i,
    {
        r.push(v[i]);
        i += 1;
        assert(r@ =~= v@.subrange(0, i as int));
    }
    assert(r@ =~= v@);
    r
}

impl Clone for VariableType {
    fn clone(&self) -> (t: VariableType)
        ensures
            t@ == self@,
        decreases self,
    {
        match self {
            VariableType::Regular { ty } => VariableType::Regular { ty: ty.clone() },
            VariableType::Array { item, dimensions } => VariableType::Array {
                item: Box::new((**item).clone()),
                dimensions: clone_dimensions(dimensions),
            },
        }
    }
}

} // verus!
