//! Names: the static type of a name expression, the field that a field
//! access reaches, and the address of a variable.

use vstd::prelude::*;
use crate::ast::{FieldAccess, NameRef};
use crate::compiler::{Compiler, CompilerView};
use crate::error::CompileError;
use crate::instruction::{emit, lines, AluOp, Instr, Label, Operand, Register};
use crate::sizing::type_size;
use crate::structs::{find_field, StructView};
use crate::symbols::{VarStorageType, VariableData, VariableView};
use crate::types::{Type, TypeView, VariableType, VariableTypeView};

verus! {

/// A sequence of instructions, by their views.
pub type Code = Seq<Instr<Seq<char>>>;

/// The structure that a field access reaches, and whether the access goes
/// through a pointer that has to be loaded first.
pub struct FieldPath {
    pub struct_name: Seq<char>,
    pub through_pointer: bool,
}

/// The structure that a field access of kind `access` reaches from a name of
/// type `t`. An array stands for its items; `->` on a pointer reaches what
/// the pointer points to.
pub open spec fn accessed_struct(t: VariableTypeView, access: FieldAccess) -> Result<
    FieldPath,
    CompileError,
> {
    let base = match t {
        VariableTypeView::Array { item, .. } => *item,
        _ => t,
    };
    match base {
        VariableTypeView::Regular { ty } => match ty {
            TypeView::Ptr(pointee) => if access == FieldAccess::Arrow {
                match *pointee {
                    TypeView::Struct(name) => Ok(
                        FieldPath { struct_name: name, through_pointer: true },
                    ),
                    _ => Err(CompileError::NotAStruct),
                }
            } else {
                Err(CompileError::NotAStruct)
            },
            TypeView::Struct(name) => Ok(FieldPath { struct_name: name, through_pointer: false }),
            _ => Err(CompileError::NotAStruct),
        },
        VariableTypeView::Array { .. } => Err(CompileError::NotAStruct),
    }
}

/// A field, and whether the way to it goes through a pointer.
pub struct FieldTarget {
    pub field: VariableView,
    pub through_pointer: bool,
}

/// The field `field` that an access of kind `access` reaches from a name of
/// type `t`.
pub open spec fn accessed_field(
    structs: Map<Seq<char>, StructView>,
    t: VariableTypeView,
    access: FieldAccess,
    field: Seq<char>,
) -> Result<FieldTarget, CompileError> {
    match accessed_struct(t, access) {
        Err(e) => Err(e),
        Ok(path) => if !structs.contains_key(path.struct_name) {
            Err(CompileError::UnknownStruct)
        } else {
            match find_field(structs[path.struct_name].fields, field) {
                None => Err(CompileError::UnknownField),
                Some(f) => Ok(FieldTarget { field: f, through_pointer: path.through_pointer }),
            }
        },
    }
}

/// The static type of the name expression `node` in `scope`: that of the
/// variable for an identifier, that of the array for an indexed name, that
/// of the field for a field access.
pub open spec fn type_of_name(c: CompilerView, node: NameRef, scope: Seq<char>) -> Result<
    VariableTypeView,
    CompileError,
>
    decreases node,
{
    match node {
        NameRef::Id(id) => match c.find_variable(id.name@, scope) {
            Err(e) => Err(e),
            Ok(None) => Err(CompileError::UndefinedVariable),
            Ok(Some(v)) => Ok(v.var_type),
        },
        NameRef::ArrayRef(array_ref) => type_of_name(c, *array_ref.name, scope),
        NameRef::StructRef(struct_ref) => match type_of_name(c, *struct_ref.name, scope) {
            Err(e) => Err(e),
            Ok(t) => match accessed_field(c.structs, t, struct_ref.access, struct_ref.field@) {
                Err(e) => Err(e),
                Ok(target) => Ok(target.field.var_type),
            },
        },
    }
}

/// The instructions that leave the address of the variable `name`, resolved
/// from `scope`, in `R1`.
///
/// A local variable lies below the frame pointer, behind the saved
/// registers; an argument lies above it, behind the saved frame pointer, the
/// return address and the return value; a global variable lies in the
/// global block.
pub open spec fn var_address(c: CompilerView, name: Seq<char>, scope: Seq<char>) -> Result<
    Code,
    CompileError,
> {
    match c.find_variable(name, scope) {
        Err(e) => Err(e),
        Ok(None) => Err(CompileError::UndefinedVariable),
        Ok(Some(v)) => if !c.scopes.contains_key(scope) {
            Err(CompileError::UnknownScope)
        } else if !c.funcs.contains_key(c.scopes[scope].parent_func) {
            Err(CompileError::UnknownFunction)
        } else {
            let func = c.funcs[c.scopes[scope].parent_func];
            match func.body {
                None => Err(CompileError::FunctionNotDefined),
                Some(body) => match v.storage {
                    VarStorageType::Local => if body.regs_used.len() > u32::MAX {
                        Err(CompileError::Overflow)
                    } else {
                        Ok(
                            seq![
                                Instr::Alu {
                                    op: AluOp::Add,
                                    dst: Register::R1,
                                    lhs: Register::BP,
                                    rhs: Operand::Imm(
                                        (-(1 + body.regs_used.len() + v.offset)) as i64,
                                    ),
                                },
                            ],
                        )
                    },
                    VarStorageType::Arg => match type_size(c.structs, func.return_type) {
                        Err(e) => Err(e),
                        Ok(ret_size) => Ok(
                            seq![
                                Instr::Alu {
                                    op: AluOp::Add,
                                    dst: Register::R1,
                                    lhs: Register::BP,
                                    rhs: Operand::Imm((2 + ret_size + v.offset) as i64),
                                },
                            ],
                        ),
                    },
                    VarStorageType::Global => Ok(
                        seq![
                            Instr::Lea {
                                dst: Register::R1,
                                label: Label::Global { program: c.program_index },
                            },
                            Instr::Alu {
                                op: AluOp::Add,
                                dst: Register::R1,
                                lhs: Register::R1,
                                rhs: Operand::Imm(v.offset as i64),
                            },
                        ],
                    ),
                },
            }
        },
    }
}

impl Compiler {
    /// The field `field` that an access of kind `access` reaches from a name
    /// of type `t`, and whether the way to it goes through a pointer.
    pub fn accessed_field(&self, t: &VariableType, access: FieldAccess, field: &str) -> (r: Result<
        (&VariableData, bool),
        CompileError,
    >)
        ensures
            match r {
                Ok((f, through_pointer)) => accessed_field(self@.structs, t@, access, field@)
                    == Ok::<FieldTarget, CompileError>(
                    FieldTarget { field: f@, through_pointer },
                ),
                Err(e) => accessed_field(self@.structs, t@, access, field@) == Err::<
                    FieldTarget,
                    CompileError,
                >(e),
            },
    {
        proof {
            reveal_with_fuel(Type::model, 3);
            reveal_with_fuel(VariableType::model, 3);
        }
        let base: &VariableType = match t {
            VariableType::Array { item, .. } => &**item,
            _ => t,
        };
        match base {
            VariableType::Regular { ty } => {
                let mut struct_type: &Type = ty;
                let mut through_pointer = false;
                match ty {
                    Type::Ptr(pointee) => {
                        if access == FieldAccess::Arrow {
                            struct_type = &**pointee;
                            through_pointer = true;
                        } else {
                            return Err(CompileError::NotAStruct);
                        }
                    },
                    _ => {},
                }
                match struct_type {
                    Type::Struct(struct_name) => {
                        match self.struct_to_data.get(struct_name.as_str()) {
                            None => Err(CompileError::UnknownStruct),
                            Some(struct_data) => match struct_data.items.get(field) {
                                None => Err(CompileError::UnknownField),
                                Some(field_var) => Ok((field_var, through_pointer)),
                            },
                        }
                    },
                    _ => Err(CompileError::NotAStruct),
                }
            },
            VariableType::Array { .. } => Err(CompileError::NotAStruct),
        }
    }

    /// The static type of the name expression `node` in `scope`.
    pub fn get_type_of_name(&self, node: &NameRef, scope: &str) -> (r: Result<
        &VariableType,
        CompileError,
    >)
        ensures
            match r {
                Ok(t) => type_of_name(self@, *node, scope@) == Ok::<
                    VariableTypeView,
                    CompileError,
                >(t@),
                Err(e) => type_of_name(self@, *node, scope@) == Err::<
                    VariableTypeView,
                    CompileError,
                >(e),
            },
        decreases node,
    {
        match node {
            NameRef::Id(id) => {
                match self.find_variable(id.name.as_str(), scope)? {
                    None => Err(CompileError::UndefinedVariable),
                    Some(var_data) => Ok(&var_data.var_type),
                }
            },
            NameRef::ArrayRef(array_ref) => self.get_type_of_name(&array_ref.name, scope),
            NameRef::StructRef(struct_ref) => {
                let struct_vartype = self.get_type_of_name(&struct_ref.name, scope)?;
                let (field_var, _) = self.accessed_field(
                    struct_vartype,
                    struct_ref.access,
                    struct_ref.field.as_str(),
                )?;
                Ok(&field_var.var_type)
            },
        }
    }

    /// Emits the instructions that leave the address of the variable
    /// `var_name`, resolved from `scope`, in `R1`.
    pub fn codegen_load_addr_of_var(
        &self,
        var_name: &str,
        scope: &str,
        code: &mut Vec<Instr<String>>,
    ) -> (r: Result<(), CompileError>)
        ensures
            match var_address(self@, var_name@, scope@) {
                Ok(out) => r.is_ok() && lines(final(code)@) == lines(old(code)@) + out,
                Err(e) => r == Err::<(), CompileError>(e),
            },
    {
        let var_data = match self.find_variable(var_name, scope)? {
            None => {
                return Err(CompileError::UndefinedVariable);
            },
            Some(v) => v,
        };
        let scope_data = match self.get_scope_data(scope) {
            None => {
                return Err(CompileError::UnknownScope);
            },
            Some(s) => s,
        };
        let func_data = match self.get_func_data(scope_data.parent_func.as_str()) {
            None => {
                return Err(CompileError::UnknownFunction);
            },
            Some(f) => f,
        };
        let func_body_data = match &func_data.body_data {
            None => {
                return Err(CompileError::FunctionNotDefined);
            },
            Some(b) => b,
        };
        match var_data.storage {
            VarStorageType::Local => {
                let saved = func_body_data.regs_used.len();
                if saved > u32::MAX as usize {
                    return Err(CompileError::Overflow);
                }
                let bp_offset: i64 = -(1 + saved as i64 + var_data.offset as i64);
                emit(
                    code,
                    Instr::Alu {
                        op: AluOp::Add,
                        dst: Register::R1,
                        lhs: Register::BP,
                        rhs: Operand::Imm(bp_offset),
                    },
                );
            },
            VarStorageType::Arg => {
                let func_retval_size = self.get_type_size(&func_data.decl_data.return_type)?;
                let bp_offset: i64 = 2 + func_retval_size as i64 + var_data.offset as i64;
                emit(
                    code,
                    Instr::Alu {
                        op: AluOp::Add,
                        dst: Register::R1,
                        lhs: Register::BP,
                        rhs: Operand::Imm(bp_offset),
                    },
                );
            },
            VarStorageType::Global => {
                emit(code, Instr::Lea { dst: Register::R1, label: self.get_global_label() });
                emit(
                    code,
                    Instr::Alu {
                        op: AluOp::Add,
                        dst: Register::R1,
                        lhs: Register::R1,
                        rhs: Operand::Imm(var_data.offset as i64),
                    },
                );
            },
        }
        assert(lines(code@) =~= lines(old(code)@) + var_address(self@, var_name@, scope@).unwrap());
        Ok(())
    }
}

} // verus!
