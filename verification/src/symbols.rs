//! The records of the symbol tables: variables, scopes and functions.

use vstd::prelude::*;
use crate::instruction::{Register, TempLabel};
use crate::table::{NameSet, Table};
use crate::types::{Type, TypeView, VariableType, VariableTypeView};

verus! {

/// Where a variable lives: in the frame of its function below the frame
/// pointer, among the arguments above it, or in the global block.
#[derive(Clone, Copy, Debug, PartialEq, Eq, Structural)]
pub enum VarStorageType {
    Local,
    Arg,
    Global,
}

/// A variable: its name, where it lives, its type, and the words
/// `offset .. offset + size` that it occupies in the space of its storage
/// class.
#[derive(Debug)]
pub struct VariableData {
    pub name: String,
    pub storage: VarStorageType,
    pub var_type: VariableType,
    pub offset: u32,
    pub size: u32,
}

/// The mathematical value of a [`VariableData`].
pub struct VariableView {
    pub name: Seq<char>,
    pub storage: VarStorageType,
    pub var_type: VariableTypeView,
    pub offset: nat,
    pub size: nat,
}

impl View for VariableData {
    type V = VariableView;

    open spec fn view(&self) -> VariableView {
        VariableView {
            name: self.name@,
            storage: self.storage,
            var_type: self.var_type@,
            offset: self.offset as nat,
            size: self.size as nat,
        }
    }
}

impl Clone for VariableData {
    fn clone(&self) -> (v: VariableData)
        ensures
            v@ == self@,
    {
        VariableData {
            name: self.name.clone(),
            storage: self.storage,
            var_type: self.var_type.clone(),
            offset: self.offset,
            size: self.size,
        }
    }
}

impl VariableView {
    /// Whether word `w` of the space of storage class `storage` belongs to
    /// this variable.
    pub open spec fn occupies(self, storage: VarStorageType, w: nat) -> bool {
        self.storage == storage && self.offset <= w < self.offset + self.size
    }

    /// Whether this variable and `other` share no word.
    pub open spec fn disjoint(self, other: VariableView) -> bool {
        forall|storage: VarStorageType, w: nat|
            !(self.occupies(storage, w) && other.occupies(storage, w))
    }
}

/// The labels that `break` and `continue` jump to inside a loop.
#[derive(Clone, Copy, Debug, PartialEq, Eq, Structural)]
pub struct LoopLabels {
    pub break_label: TempLabel,
    pub continue_label: TempLabel,
}

/// The symbol table of one block.
///
/// `variables` holds every variable that the block declares, from the moment
/// the enclosing function is registered; `declared_variables` holds the names
/// whose declaration has been emitted, and only those resolve.
#[derive(Debug)]
pub struct ScopeData {
    pub name: String,
    pub parent_scope: String,
    pub parent_func: String,
    pub variables: Table<VariableData>,
    pub declared_variables: NameSet,
    pub labels: Option<LoopLabels>,
}

/// The mathematical value of a [`ScopeData`].
pub struct ScopeView {
    pub name: Seq<char>,
    pub parent_scope: Seq<char>,
    pub parent_func: Seq<char>,
    pub variables: Map<Seq<char>, VariableView>,
    pub declared: Set<Seq<char>>,
    pub labels: Option<LoopLabels>,
}

impl View for ScopeData {
    type V = ScopeView;

    open spec fn view(&self) -> ScopeView {
        ScopeView {
            name: self.name@,
            parent_scope: self.parent_scope@,
            parent_func: self.parent_func@,
            variables: self.variables.view_as(|v: VariableData| v@),
            declared: self.declared_variables@,
            labels: self.labels,
        }
    }
}

impl ScopeView {
    /// The variable that `name` resolves to in this scope alone: it must be
    /// a variable of the scope and its declaration must have been emitted.
    pub open spec fn resolve(self, name: Seq<char>) -> Option<VariableView> {
        if self.variables.contains_key(name) && self.declared.contains(name) {
            Some(self.variables[name])
        } else {
            None
        }
    }
}

/// The signature of a function.
#[derive(Debug)]
pub struct FuncDeclData {
    pub args_types: Vec<VariableType>,
    pub return_type: Type,
}

/// What is known of a function once its body is registered.
#[derive(Debug)]
pub struct FuncBodyData {
    pub name: String,
    /// The registers that the function saves on entry and restores on exit.
    pub regs_used: Vec<Register>,
    /// The number of words that its local variables occupy.
    pub local_vars_size: u32,
}

/// A function: its signature, and its body data once it is defined.
#[derive(Debug)]
pub struct FuncData {
    pub decl_data: FuncDeclData,
    pub body_data: Option<FuncBodyData>,
}

/// The mathematical value of a [`FuncBodyData`].
pub struct FuncBodyView {
    pub name: Seq<char>,
    pub regs_used: Seq<Register>,
    pub local_vars_size: nat,
}

/// The mathematical value of a [`FuncData`].
pub struct FuncView {
    pub args_types: Seq<VariableTypeView>,
    pub return_type: TypeView,
    pub body: Option<FuncBodyView>,
}

impl View for FuncBodyData {
    type V = FuncBodyView;

    open spec fn view(&self) -> FuncBodyView {
        FuncBodyView {
            name: self.name@,
            regs_used: self.regs_used@,
            local_vars_size: self.local_vars_size as nat,
        }
    }
}

impl View for FuncData {
    type V = FuncView;

    open spec fn view(&self) -> FuncView {
        FuncView {
            args_types: self.decl_data.args_types@.map_values(|t: VariableType| t@),
            return_type: self.decl_data.return_type@,
            body: match self.body_data {
                Some(b) => Some(b@),
                None => None,
            },
        }
    }
}

} // verus!
