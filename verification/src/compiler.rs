//! The compiler and its symbol tables: scopes, functions, structures and
//! string literals, and the resolution of names through nested scopes.

use vstd::prelude::*;
use crate::error::CompileError;
use crate::instruction::{Label, LabelKind, TempLabel};
use crate::structs::{StructData, StructView};
use crate::symbols::{
    FuncData,
    FuncView,
    LoopLabels,
    ScopeData,
    ScopeView,
    VariableData,
    VariableView,
};
use crate::table::{str_eq, Table};

verus! {

/// The name of the scope that holds the global variables. Every chain of
/// enclosing scopes ends there.
pub open spec fn global_scope() -> Seq<char> {
    "_GLOBAL"@
}

/// A compiler for one program.
///
/// `program_index` is part of every label that the compiler generates, so
/// that the output of compilers with different indices can share one address
/// space; `cur_tmp_label` counts the labels generated so far.
pub struct Compiler {
    pub scope_to_data: Table<ScopeData>,
    pub func_to_data: Table<FuncData>,
    pub struct_to_data: Table<StructData>,
    pub data_val_to_label: Table<TempLabel>,
    pub program_index: u32,
    pub cur_tmp_label: u32,
}

/// The mathematical value of a [`Compiler`].
pub struct CompilerView {
    pub scopes: Map<Seq<char>, ScopeView>,
    pub funcs: Map<Seq<char>, FuncView>,
    pub structs: Map<Seq<char>, StructView>,
    /// The label of each string literal emitted so far, by its content.
    pub literals: Map<Seq<char>, TempLabel>,
    pub program_index: u32,
    pub cur_tmp_label: u32,
}

impl View for Compiler {
    type V = CompilerView;

    open spec fn view(&self) -> CompilerView {
        CompilerView {
            scopes: self.scope_to_data.view_as(|s: ScopeData| s@),
            funcs: self.func_to_data.view_as(|f: FuncData| f@),
            structs: self.struct_to_data.view_as(|s: StructData| s@),
            literals: self.data_val_to_label.items(),
            program_index: self.program_index,
            cur_tmp_label: self.cur_tmp_label,
        }
    }
}

/// Whether an optional record has the optional value `m`.
pub open spec fn found<T: View>(r: Option<&T>, m: Option<T::V>) -> bool {
    match r {
        Some(t) => m == Some(t@),
        None => m.is_none(),
    }
}

/// Whether the outcome of a search has the value `m`.
pub open spec fn searched<T: View>(
    r: Result<Option<&T>, CompileError>,
    m: Result<Option<T::V>, CompileError>,
) -> bool {
    match r {
        Ok(o) => m.is_ok() && found(o, m.unwrap()),
        Err(e) => m == Err::<Option<T::V>, CompileError>(e),
    }
}

impl CompilerView {
    /// The compiler of program `program_index` before it has seen anything.
    pub open spec fn initial(program_index: u32) -> CompilerView {
        CompilerView {
            scopes: Map::empty(),
            funcs: Map::empty(),
            structs: Map::empty(),
            literals: Map::empty(),
            program_index,
            cur_tmp_label: 0,
        }
    }

    /// A label of kind `kind` made from the current value of the label
    /// counter.
    pub open spec fn tmp_label(self, kind: LabelKind) -> TempLabel {
        TempLabel { kind, program: self.program_index, index: self.cur_tmp_label }
    }

    /// The state after one more label was generated.
    pub open spec fn inc_tmp_label(self) -> Result<CompilerView, CompileError> {
        if self.cur_tmp_label == u32::MAX {
            Err(CompileError::Overflow)
        } else {
            Ok(CompilerView { cur_tmp_label: (self.cur_tmp_label + 1) as u32, ..self })
        }
    }

    /// The variable that `name` resolves to from `scope`: the scopes from
    /// `scope` outwards are searched, the innermost that has the variable
    /// among those it has declared so far wins, and the search ends without
    /// a variable at the global scope. `fuel` bounds the number of scopes
    /// visited.
    pub open spec fn find_variable_within(
        self,
        name: Seq<char>,
        scope: Seq<char>,
        fuel: nat,
    ) -> Result<Option<VariableView>, CompileError>
        decreases fuel,
    {
        if fuel == 0 {
            Err(CompileError::ScopeCycle)
        } else if !self.scopes.contains_key(scope) {
            Err(CompileError::UnknownScope)
        } else {
            match self.scopes[scope].resolve(name) {
                Some(v) => Ok(Some(v)),
                None => if scope == global_scope() {
                    Ok(None)
                } else {
                    self.find_variable_within(
                        name,
                        self.scopes[scope].parent_scope,
                        (fuel - 1) as nat,
                    )
                },
            }
        }
    }

    /// The variable that `name` resolves to from `scope`. No chain of
    /// distinct scopes is longer than the number of scopes, so a search that
    /// visits more of them runs in a cycle.
    pub open spec fn find_variable(self, name: Seq<char>, scope: Seq<char>) -> Result<
        Option<VariableView>,
        CompileError,
    > {
        self.find_variable_within(name, scope, self.scopes.dom().len())
    }

    /// The labels of the nearest loop around `scope`: those of the innermost
    /// scope, from `scope` outwards, that carries labels.
    pub open spec fn find_labels_within(self, scope: Seq<char>, fuel: nat) -> Result<
        Option<LoopLabels>,
        CompileError,
    >
        decreases fuel,
    {
        if fuel == 0 {
            Err(CompileError::ScopeCycle)
        } else if !self.scopes.contains_key(scope) {
            Err(CompileError::UnknownScope)
        } else {
            match self.scopes[scope].labels {
                Some(l) => Ok(Some(l)),
                None => if scope == global_scope() {
                    Ok(None)
                } else {
                    self.find_labels_within(self.scopes[scope].parent_scope, (fuel - 1) as nat)
                },
            }
        }
    }

    /// The labels of the nearest loop around `scope`.
    pub open spec fn find_break_continue_labels(self, scope: Seq<char>) -> Result<
        Option<LoopLabels>,
        CompileError,
    > {
        self.find_labels_within(scope, self.scopes.dom().len())
    }

    /// The state after the declaration of `name` in `scope` was emitted.
    pub open spec fn update_var_declared(self, name: Seq<char>, scope: Seq<char>) -> Result<
        CompilerView,
        CompileError,
    > {
        if self.scopes.contains_key(scope) {
            let s = self.scopes[scope];
            Ok(
                CompilerView {
                    scopes: self.scopes.insert(
                        scope,
                        ScopeView { declared: s.declared.insert(name), ..s },
                    ),
                    ..self
                },
            )
        } else {
            Err(CompileError::UnknownScope)
        }
    }

    /// The state after `scope` became the body of a loop with `labels`.
    pub open spec fn update_scope_labels(self, scope: Seq<char>, labels: LoopLabels) -> Result<
        CompilerView,
        CompileError,
    > {
        if self.scopes.contains_key(scope) {
            let s = self.scopes[scope];
            Ok(
                CompilerView {
                    scopes: self.scopes.insert(scope, ScopeView { labels: Some(labels), ..s }),
                    ..self
                },
            )
        } else {
            Err(CompileError::UnknownScope)
        }
    }
}

impl Compiler {
    /// A compiler without any symbol, for the program of index `program_i`.
    pub fn new(program_i: u32) -> (c: Compiler)
        ensures
            c@ == CompilerView::initial(program_i),
    {
        let c = Compiler {
            scope_to_data: Table::new(),
            func_to_data: Table::new(),
            struct_to_data: Table::new(),
            data_val_to_label: Table::new(),
            program_index: program_i,
            cur_tmp_label: 0,
        };
        assert(c@.scopes =~= Map::empty());
        assert(c@.funcs =~= Map::empty());
        assert(c@.structs =~= Map::empty());
        c
    }

    /// A label of kind `kind` made from the current value of the label
    /// counter.
    pub fn get_tmp_label(&self, kind: LabelKind) -> (l: TempLabel)
        ensures
            l == self@.tmp_label(kind),
    {
        TempLabel { kind, program: self.program_index, index: self.cur_tmp_label }
    }

    /// The label of the block that holds the global variables.
    pub fn get_global_label(&self) -> (l: Label<String>)
        ensures
            l@ == (Label::<Seq<char>>::Global { program: self.program_index }),
    {
        Label::Global { program: self.program_index }
    }

    /// Advances the label counter.
    pub fn inc_tmp_label(&mut self) -> (r: Result<(), CompileError>)
        ensures
            match r {
                Ok(()) => old(self)@.inc_tmp_label() == Ok::<CompilerView, CompileError>(
                    final(self)@,
                ),
                Err(e) => old(self)@.inc_tmp_label() == Err::<CompilerView, CompileError>(e)
                    && final(self)@ == old(self)@,
            },
    {
        if self.cur_tmp_label == u32::MAX {
            return Err(CompileError::Overflow);
        }
        self.cur_tmp_label += 1;
        Ok(())
    }

    /// The symbol table of `scope`.
    pub fn get_scope_data(&self, scope: &str) -> (r: Option<&ScopeData>)
        ensures
            r.is_some() == self@.scopes.contains_key(scope@),
            r.is_some() ==> r.unwrap()@ == self@.scopes[scope@],
    {
        self.scope_to_data.get(scope)
    }

    /// What is known of the function `func_name`.
    pub fn get_func_data(&self, func_name: &str) -> (r: Option<&FuncData>)
        ensures
            r.is_some() == self@.funcs.contains_key(func_name@),
            r.is_some() ==> r.unwrap()@ == self@.funcs[func_name@],
    {
        self.func_to_data.get(func_name)
    }

    /// The layout of the structure `struct_name`.
    pub fn get_struct_data(&self, struct_name: &str) -> (r: Option<&StructData>)
        ensures
            r.is_some() == self@.structs.contains_key(struct_name@),
            r.is_some() ==> r.unwrap()@ == self@.structs[struct_name@],
    {
        self.struct_to_data.get(struct_name)
    }

    /// Resolves `var_name` from `scope` outwards. The innermost scope that
    /// has the variable and has seen its declaration wins; a variable whose
    /// declaration has not been emitted yet does not resolve, though its
    /// slot is already allotted.
    pub fn find_variable(&self, var_name: &str, scope: &str) -> (r: Result<
        Option<&VariableData>,
        CompileError,
    >)
        ensures
            searched(r, self@.find_variable(var_name@, scope@)),
    {
        let mut fuel = self.scope_to_data.len();
        let mut cur: &str = scope;
        assert(self@.scopes.dom() =~= self.scope_to_data.names());
        loop
            invariant
                self@.find_variable_within(var_name@, cur@, fuel as nat) == self@.find_variable(
                    var_name@,
                    scope@,
                ),
            decreases fuel,
        {
            if fuel == 0 {
                return Err(CompileError::ScopeCycle);
            }
            match self.scope_to_data.get(cur) {
                None => {
                    return Err(CompileError::UnknownScope);
                },
                Some(scope_data) => {
                    if scope_data.declared_variables.contains(var_name) {
                        match scope_data.variables.get(var_name) {
                            Some(v) => {
                                return Ok(Some(v));
                            },
                            None => {},
                        }
                    }
                    if str_eq(cur, "_GLOBAL") {
                        return Ok(None);
                    }
                    cur = scope_data.parent_scope.as_str();
                    fuel -= 1;
                },
            }
        }
    }

    /// The labels of the nearest loop around `scope`, where there is one.
    pub fn find_break_continue_labels(&self, scope: &str) -> (r: Result<
        Option<LoopLabels>,
        CompileError,
    >)
        ensures
            r == self@.find_break_continue_labels(scope@),
    {
        let mut fuel = self.scope_to_data.len();
        let mut cur: &str = scope;
        assert(self@.scopes.dom() =~= self.scope_to_data.names());
        loop
            invariant
                self@.find_labels_within(cur@, fuel as nat) == self@.find_break_continue_labels(
                    scope@,
                ),
            decreases fuel,
        {
            if fuel == 0 {
                return Err(CompileError::ScopeCycle);
            }
            match self.scope_to_data.get(cur) {
                None => {
                    return Err(CompileError::UnknownScope);
                },
                Some(scope_data) => {
                    match scope_data.labels {
                        Some(l) => {
                            return Ok(Some(l));
                        },
                        None => {},
                    }
                    if str_eq(cur, "_GLOBAL") {
                        return Ok(None);
                    }
                    cur = scope_data.parent_scope.as_str();
                    fuel -= 1;
                },
            }
        }
    }

    /// Makes `scope` the body of a loop whose `break` jumps to `break_label`
    /// and whose `continue` jumps to `continue_label`.
    pub fn update_scope_break_continue_labels(
        &mut self,
        scope: &str,
        break_label: TempLabel,
        continue_label: TempLabel,
    ) -> (r: Result<(), CompileError>)
        ensures
            match r {
                Ok(()) => old(self)@.update_scope_labels(
                    scope@,
                    LoopLabels { break_label, continue_label },
                ) == Ok::<CompilerView, CompileError>(final(self)@),
                Err(e) => old(self)@.update_scope_labels(
                    scope@,
                    LoopLabels { break_label, continue_label },
                ) == Err::<CompilerView, CompileError>(e) && final(self)@ == old(self)@,
            },
    {
        match self.scope_to_data.remove(scope) {
            None => {
                assert(self@.scopes =~= old(self)@.scopes);
                Err(CompileError::UnknownScope)
            },
            Some(scope_data) => {
                let mut scope_data = scope_data;
                scope_data.labels = Some(LoopLabels { break_label, continue_label });
                self.scope_to_data.insert(String::from_str(scope), scope_data);
                assert(self@.scopes =~= old(self)@.scopes.insert(scope@, scope_data@));
                Ok(())
            },
        }
    }

    /// Records that the declaration of `var_name` in `scope` has been
    /// emitted: from here on the name resolves in `scope` and in the scopes
    /// nested in it.
    pub fn update_var_declared(&mut self, var_name: &str, scope: &str) -> (r: Result<
        (),
        CompileError,
    >)
        ensures
            match r {
                Ok(()) => old(self)@.update_var_declared(var_name@, scope@) == Ok::<
                    CompilerView,
                    CompileError,
                >(final(self)@),
                Err(e) => old(self)@.update_var_declared(var_name@, scope@) == Err::<
                    CompilerView,
                    CompileError,
                >(e) && final(self)@ == old(self)@,
            },
    {
        match self.scope_to_data.remove(scope) {
            None => {
                assert(self@.scopes =~= old(self)@.scopes);
                Err(CompileError::UnknownScope)
            },
            Some(scope_data) => {
                let mut scope_data = scope_data;
                scope_data.declared_variables.insert(String::from_str(var_name));
                self.scope_to_data.insert(String::from_str(scope), scope_data);
                assert(self@.scopes =~= old(self)@.scopes.insert(scope@, scope_data@));
                Ok(())
            },
        }
    }
}

} // verus!
