//! The sizes of types and of declarations, in words, and the variable that a
//! declaration introduces.

use vstd::prelude::*;
use crate::ast::Decl;
use crate::compiler::Compiler;
use crate::error::CompileError;
use crate::structs::{StructData, StructView};
use crate::symbols::{VarStorageType, VariableData, VariableView};
use crate::types::{clone_dimensions, Type, TypeView, VariableType, VariableTypeView};

verus! {

/// The size of a value of type `t`: that of its layout for a structure, one
/// word for an integer, a character or a pointer, none for `void`.
pub open spec fn type_size(structs: Map<Seq<char>, StructView>, t: TypeView) -> Result<
    nat,
    CompileError,
> {
    match t {
        TypeView::Struct(name) => if structs.contains_key(name) {
            Ok(structs[name].size)
        } else {
            Err(CompileError::UnknownStruct)
        },
        TypeView::Int | TypeView::Char | TypeView::Ptr(_) => Ok(1),
        TypeView::Void => Ok(0),
        TypeView::Str => Err(CompileError::UnsupportedType),
    }
}

/// The product of `dims`.
pub open spec fn product(dims: Seq<u32>) -> nat
    decreases dims.len(),
{
    if dims.len() == 0 {
        1
    } else {
        product(dims.drop_last()) * (dims.last() as nat)
    }
}

/// The size of an array of items of type `item` with the dimensions `dims`:
/// the number of its items times the size of one.
pub open spec fn array_size(
    structs: Map<Seq<char>, StructView>,
    item: TypeView,
    dims: Seq<u32>,
) -> Result<nat, CompileError> {
    match type_size(structs, item) {
        Err(e) => Err(e),
        Ok(s) => if product(dims) * s > u32::MAX {
            Err(CompileError::Overflow)
        } else {
            Ok(product(dims) * s)
        },
    }
}

/// The size of the items of an array type. Arrays do not hold arrays.
pub open spec fn array_item_size(
    structs: Map<Seq<char>, StructView>,
    item: VariableTypeView,
) -> Result<nat, CompileError> {
    match item {
        VariableTypeView::Regular { ty } => type_size(structs, ty),
        VariableTypeView::Array { .. } => Err(CompileError::ArrayOfArrays),
    }
}

/// The type of the variable that `decl` declares.
pub open spec fn decl_type(decl: Decl) -> VariableTypeView {
    match decl {
        Decl::VarDecl(d) => VariableTypeView::Regular { ty: d.ty@ },
        Decl::ArrayDecl(d) => VariableTypeView::Array {
            item: Box::new(VariableTypeView::Regular { ty: d.ty@ }),
            dimensions: d.dimensions@,
        },
    }
}

/// The number of words that the variable declared by `decl` occupies.
pub open spec fn decl_size(structs: Map<Seq<char>, StructView>, decl: Decl) -> Result<
    nat,
    CompileError,
> {
    match decl {
        Decl::VarDecl(d) => type_size(structs, d.ty@),
        Decl::ArrayDecl(d) => array_size(structs, d.ty@, d.dimensions@),
    }
}

/// The variable that `decl` declares when it is given the words from
/// `offset` on in the space of `storage`.
pub open spec fn variable_from_decl(
    structs: Map<Seq<char>, StructView>,
    decl: Decl,
    storage: VarStorageType,
    offset: nat,
) -> Result<VariableView, CompileError> {
    match decl_size(structs, decl) {
        Err(e) => Err(e),
        Ok(size) => Ok(
            VariableView { name: decl.name(), storage, var_type: decl_type(decl), offset, size },
        ),
    }
}

/// A product with a factor zero is zero.
pub proof fn lemma_product_zero(dims: Seq<u32>, k: int)
    requires
        0 <= k < dims.len(),
        dims[k] == 0,
    ensures
        product(dims) == 0,
    decreases dims.len(),
{
    if k == dims.len() - 1 {
        assert(product(dims.drop_last()) * 0 == 0) by (nonlinear_arith);
    } else {
        lemma_product_zero(dims.drop_last(), k);
        assert(0 * (dims.last() as nat) == 0) by (nonlinear_arith);
    }
}

/// Without a factor zero, the product of a prefix is at most the product of
/// the whole.
pub proof fn lemma_product_prefix(dims: Seq<u32>, n: int)
    requires
        0 <= n <= dims.len(),
        forall|i: int| 0 <= i < dims.len() ==> dims[i] > 0,
    ensures
        product(dims.subrange(0, n)) <= product(dims),
    decreases dims.len() - n,
{
    if n == dims.len() {
        assert(dims.subrange(0, n) =~= dims);
    } else {
        lemma_product_prefix(dims, n + 1);
        let longer = dims.subrange(0, n + 1);
        assert(longer.drop_last() =~= dims.subrange(0, n));
        assert(longer.last() == dims[n]);
        let p = product(dims.subrange(0, n));
        let d = dims[n] as nat;
        assert(p <= p * d) by (nonlinear_arith)
            requires
                d >= 1,
        ;
    }
}

/// A product is its first factor times the product of the others.
pub proof fn lemma_product_first(dims: Seq<u32>)
    requires
        dims.len() > 0,
    ensures
        product(dims) == (dims[0] as nat) * product(dims.subrange(1, dims.len() as int)),
    decreases dims.len(),
{
    let tail = dims.subrange(1, dims.len() as int);
    if dims.len() == 1 {
        assert(dims.drop_last() =~= Seq::<u32>::empty());
        assert(tail =~= Seq::<u32>::empty());
        assert(product(dims.drop_last()) == 1);
        assert(product(tail) == 1);
    } else {
        let init = dims.drop_last();
        lemma_product_first(init);
        assert(init.subrange(1, init.len() as int) =~= tail.drop_last());
        assert(tail.last() == dims.last());
        assert(init[0] == dims[0]);
        let a = dims[0] as nat;
        let b = product(tail.drop_last());
        let c = dims.last() as nat;
        assert((a * b) * c == a * (b * c)) by (nonlinear_arith);
    }
}

impl VariableType {
    /// The type of the variable that `decl` declares.
    pub fn from(decl: &Decl) -> (t: VariableType)
        ensures
            t@ == decl_type(*decl),
    {
        match decl {
            Decl::VarDecl(var_decl) => VariableType::Regular { ty: var_decl.ty.clone() },
            Decl::ArrayDecl(arr_decl) => {
                let item = VariableType::Regular { ty: arr_decl.ty.clone() };
                assert(item@ == VariableTypeView::Regular { ty: arr_decl.ty@ });
                VariableType::Array {
                    item: Box::new(item),
                    dimensions: clone_dimensions(&arr_decl.dimensions),
                }
            },
        }
    }
}

impl Compiler {
    /// The layout of the structure that `t` names, where `t` is the type of
    /// a registered structure.
    pub fn get_struct_data_from_type(&self, t: &Type) -> (r: Option<&StructData>)
        ensures
            match r {
                Some(s) => t@ matches TypeView::Struct(name) && self@.structs.contains_key(name)
                    && s@ == self@.structs[name],
                None => !(t@ matches TypeView::Struct(name) && self@.structs.contains_key(name)),
            },
    {
        match t {
            Type::Struct(struct_name) => self.struct_to_data.get(struct_name.as_str()),
            _ => None,
        }
    }

    /// The size of a value of type `t`, in words.
    pub fn get_type_size(&self, t: &Type) -> (r: Result<u32, CompileError>)
        ensures
            match r {
                Ok(n) => type_size(self@.structs, t@) == Ok::<nat, CompileError>(n as nat),
                Err(e) => type_size(self@.structs, t@) == Err::<nat, CompileError>(e),
            },
    {
        match self.get_struct_data_from_type(t) {
            Some(struct_data) => Ok(struct_data.size),
            None => match t {
                Type::Int => Ok(1),
                Type::Char => Ok(1),
                Type::Ptr(_) => Ok(1),
                Type::Void => Ok(0),
                Type::Struct(_) => Err(CompileError::UnknownStruct),
                Type::Str => Err(CompileError::UnsupportedType),
            },
        }
    }

    /// The size of an array of items of type `item_type`, in words.
    pub fn get_array_size(&self, item_type: &Type, dimensions: &Vec<u32>) -> (r: Result<
        u32,
        CompileError,
    >)
        ensures
            match r {
                Ok(n) => array_size(self@.structs, item_type@, dimensions@) == Ok::<
                    nat,
                    CompileError,
                >(n as nat),
                Err(e) => array_size(self@.structs, item_type@, dimensions@) == Err::<
                    nat,
                    CompileError,
                >(e),
            },
    {
        let item_size = self.get_type_size(item_type)?;
        // A factor zero decides the product whatever the other factors are.
        let mut k: usize = 0;
        while k < dimensions.len()
            invariant
                k <= dimensions.len(),
                forall|i: int| 0 <= i < k ==> dimensions[i] > 0,
                type_size(self@.structs, item_type@) == Ok::<nat, CompileError>(item_size as nat),
            decreases dimensions.len() - k,
        {
            if dimensions[k] == 0 {
                proof {
                    lemma_product_zero(dimensions@, k as int);
                    assert(0 * (item_size as nat) == 0) by (nonlinear_arith);
                }
                return Ok(0);
            }
            k += 1;
        }
        let mut count: u64 = 1;
        let mut i: usize = 0;
        assert(dimensions@.subrange(0, 0) =~= Seq::<u32>::empty());
        while i < dimensions.len()
            invariant
                i <= dimensions.len(),
                forall|j: int| 0 <= j < dimensions.len() ==> dimensions[j] > 0,
                count == product(dimensions@.subrange(0, i as int)),
                1 <= count <= u32::MAX,
                type_size(self@.structs, item_type@) == Ok::<nat, CompileError>(item_size as nat),
            decreases dimensions.len() - i,
        {
            let ghost before = count;
            let d = dimensions[i];
            proof {
                let longer = dimensions@.subrange(0, i + 1);
                assert(longer.drop_last() =~= dimensions@.subrange(0, i as int));
                assert(longer.last() == d);
                assert(before * d <= 0xffff_ffff * 0xffff_ffff) by (nonlinear_arith)
                    requires
                        before <= 0xffff_ffff,
                        d <= 0xffff_ffff,
                ;
                assert(before * d >= 1) by (nonlinear_arith)
                    requires
                        before >= 1,
                        d >= 1,
                ;
            }
            count = count * (d as u64);
            if count > u32::MAX as u64 {
                proof {
                    lemma_product_prefix(dimensions@, i + 1);
                    let p = product(dimensions@);
                    let s = item_size as nat;
                    if s > 0 {
                        assert(p * s > u32::MAX) by (nonlinear_arith)
                            requires
                                p > u32::MAX,
                                s >= 1,
                        ;
                    } else {
                        assert(p * s == 0) by (nonlinear_arith)
                            requires
                                s == 0,
                        ;
                    }
                }
                if item_size == 0 {
                    return Ok(0);
                }
                return Err(CompileError::Overflow);
            }
            i += 1;
        }
        assert(dimensions@.subrange(0, i as int) =~= dimensions@);
        proof {
            assert(count * item_size <= 0xffff_ffff * 0xffff_ffff) by (nonlinear_arith)
                requires
                    count <= 0xffff_ffff,
                    item_size <= 0xffff_ffff,
            ;
        }
        let total: u64 = count * (item_size as u64);
        if total > u32::MAX as u64 {
            return Err(CompileError::Overflow);
        }
        Ok(total as u32)
    }

    /// The size of the items of an array whose item type is `arr_type`.
    pub fn get_array_item_size(&self, arr_type: &VariableType) -> (r: Result<u32, CompileError>)
        ensures
            match r {
                Ok(n) => array_item_size(self@.structs, arr_type@) == Ok::<nat, CompileError>(
                    n as nat,
                ),
                Err(e) => array_item_size(self@.structs, arr_type@) == Err::<nat, CompileError>(e),
            },
    {
        match arr_type {
            VariableType::Regular { ty } => self.get_type_size(ty),
            VariableType::Array { .. } => Err(CompileError::ArrayOfArrays),
        }
    }

    /// The number of words that the variable declared by `decl` occupies.
    pub fn get_decl_size(&self, decl: &Decl) -> (r: Result<u32, CompileError>)
        ensures
            match r {
                Ok(n) => decl_size(self@.structs, *decl) == Ok::<nat, CompileError>(n as nat),
                Err(e) => decl_size(self@.structs, *decl) == Err::<nat, CompileError>(e),
            },
    {
        match decl {
            Decl::VarDecl(var_decl) => self.get_type_size(&var_decl.ty),
            Decl::ArrayDecl(arr_decl) => self.get_array_size(&arr_decl.ty, &arr_decl.dimensions),
        }
    }

    /// The variable that `decl` declares when it is given the words from
    /// `offset` on in the space of `storage`.
    pub fn variable_data_from_decl(
        &self,
        decl: &Decl,
        storage: VarStorageType,
        offset: u32,
    ) -> (r: Result<VariableData, CompileError>)
        ensures
            match r {
                Ok(v) => variable_from_decl(self@.structs, *decl, storage, offset as nat) == Ok::<
                    VariableView,
                    CompileError,
                >(v@),
                Err(e) => variable_from_decl(self@.structs, *decl, storage, offset as nat) == Err::<
                    VariableView,
                    CompileError,
                >(e),
            },
    {
        let size = self.get_decl_size(decl)?;
        Ok(
            VariableData {
                name: String::from_str(decl.name_str()),
                storage,
                var_type: VariableType::from(decl),
                offset,
                size,
            },
        )
    }
}

} // verus!
