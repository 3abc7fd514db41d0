//! Registration: the layout of structures, the signatures of functions, and
//! the scopes of a function body with the slot of every local variable.
//!
//! The scopes of a function are registered before any code for it is
//! emitted. One cursor runs through all the blocks of the function, so no two
//! of its variables share a slot, however the blocks nest.

use vstd::prelude::*;
use crate::ast::{Compound, Decl, FuncDecl, Statement, StructDecl};
use crate::compiler::{Compiler, CompilerView};
use crate::error::CompileError;
use crate::instruction::Register;
use crate::sizing::{decl_type, variable_from_decl};
use crate::structs::{put_field, FieldTable, StructData, StructView};
use crate::symbols::{
    FuncBodyData,
    FuncBodyView,
    FuncData,
    FuncDeclData,
    FuncView,
    ScopeData,
    ScopeView,
    VarStorageType,
    VariableData,
    VariableView,
};
use crate::table::{NameSet, Table};
use crate::types::VariableType;

verus! {

broadcast use vstd::std_specs::vec::axiom_vec_index_decreases;

/// The variable that `decl` declares when the cursor of its storage class
/// stands at `cursor`: it gets the words from the cursor on, which must all
/// have 32-bit offsets.
pub open spec fn allot(
    structs: Map<Seq<char>, StructView>,
    decl: Decl,
    storage: VarStorageType,
    cursor: nat,
) -> Result<VariableView, CompileError> {
    match variable_from_decl(structs, decl, storage, cursor) {
        Err(e) => Err(e),
        Ok(v) => if cursor + v.size > u32::MAX {
            Err(CompileError::Overflow)
        } else {
            Ok(v)
        },
    }
}

/// Variables by name, and the cursor behind the last of them.
pub struct Allotment {
    pub variables: Map<Seq<char>, VariableView>,
    pub cursor: nat,
}

/// The variables of `decls[from..]`, allotted one after the other from
/// `cursor` on, added to `variables`.
pub open spec fn allot_all(
    structs: Map<Seq<char>, StructView>,
    decls: Seq<Decl>,
    from: int,
    storage: VarStorageType,
    variables: Map<Seq<char>, VariableView>,
    cursor: nat,
) -> Result<Allotment, CompileError>
    decreases decls.len() - from,
{
    if from < 0 || from >= decls.len() {
        Ok(Allotment { variables, cursor })
    } else {
        match allot(structs, decls[from], storage, cursor) {
            Err(e) => Err(e),
            Ok(v) => allot_all(
                structs,
                decls,
                from + 1,
                storage,
                variables.insert(v.name, v),
                cursor + v.size,
            ),
        }
    }
}

/// The local variables that the declarations among `stmts[from..]` declare,
/// allotted one after the other from `cursor` on, added to `variables`.
/// Statements of other kinds are passed over.
pub open spec fn allot_declared(
    structs: Map<Seq<char>, StructView>,
    stmts: Seq<Statement>,
    from: int,
    variables: Map<Seq<char>, VariableView>,
    cursor: nat,
) -> Result<Allotment, CompileError>
    decreases stmts.len() - from,
{
    if from < 0 || from >= stmts.len() {
        Ok(Allotment { variables, cursor })
    } else {
        match stmts[from] {
            Statement::Decl(d) => match allot(structs, d, VarStorageType::Local, cursor) {
                Err(e) => Err(e),
                Ok(v) => allot_declared(
                    structs,
                    stmts,
                    from + 1,
                    variables.insert(v.name, v),
                    cursor + v.size,
                ),
            },
            _ => allot_declared(structs, stmts, from + 1, variables, cursor),
        }
    }
}

/// Where the registration of a block stands: the tables, the variables of
/// the block found so far, and the cursor.
pub struct Scan {
    pub state: CompilerView,
    pub variables: Map<Seq<char>, VariableView>,
    pub cursor: nat,
}

/// The registration of the scope `name` of function `func` inside the scope
/// `parent`: its statements are scanned, then the scope is recorded with the
/// variables that they declare and with those of `extra`, which win over
/// declared ones of the same name; `declared` are the names that resolve
/// from the start. The result is the tables and the cursor afterwards.
pub open spec fn register_scope(
    c: CompilerView,
    name: Seq<char>,
    stmts: Seq<Statement>,
    parent: Seq<char>,
    func: Seq<char>,
    cursor: nat,
    extra: Map<Seq<char>, VariableView>,
    declared: Set<Seq<char>>,
) -> Result<(CompilerView, nat), CompileError>
    decreases stmts, stmts.len() + 1,
{
    match scan_statements(c, stmts, 0, name, func, Map::empty(), cursor) {
        Err(e) => Err(e),
        Ok(s) => Ok(
            (
                CompilerView {
                    scopes: s.state.scopes.insert(
                        name,
                        ScopeView {
                            name,
                            parent_scope: parent,
                            parent_func: func,
                            variables: s.variables.union_prefer_right(extra),
                            declared,
                            labels: None,
                        },
                    ),
                    ..s.state
                },
                s.cursor,
            ),
        ),
    }
}

/// The scan of `stmts[from..]` in the scope `scope` of function `func`.
pub open spec fn scan_statements(
    c: CompilerView,
    stmts: Seq<Statement>,
    from: int,
    scope: Seq<char>,
    func: Seq<char>,
    variables: Map<Seq<char>, VariableView>,
    cursor: nat,
) -> Result<Scan, CompileError>
    decreases stmts, stmts.len() - from,
{
    if from < 0 || from >= stmts.len() {
        Ok(Scan { state: c, variables, cursor })
    } else {
        match scan_statement(c, stmts[from], scope, func, variables, cursor) {
            Err(e) => Err(e),
            Ok(s) => scan_statements(s.state, stmts, from + 1, scope, func, s.variables, s.cursor),
        }
    }
}

/// The scan of one statement: a declaration allots a variable of the scope;
/// a block, the branches of an `if` and the body of a loop are registered as
/// scopes of their own inside `scope`, from the same cursor on; the variables
/// that the initializer of a `for` declares belong to the scope of its body.
pub open spec fn scan_statement(
    c: CompilerView,
    stmt: Statement,
    scope: Seq<char>,
    func: Seq<char>,
    variables: Map<Seq<char>, VariableView>,
    cursor: nat,
) -> Result<Scan, CompileError>
    decreases stmt,
{
    match stmt {
        Statement::Decl(d) => match allot(c.structs, d, VarStorageType::Local, cursor) {
            Err(e) => Err(e),
            Ok(v) => Ok(
                Scan { state: c, variables: variables.insert(v.name, v), cursor: cursor + v.size },
            ),
        },
        Statement::Compound(comp) => nested(
            register_scope(
                c,
                comp.code_loc@,
                comp.items@,
                scope,
                func,
                cursor,
                Map::empty(),
                Set::empty(),
            ),
            variables,
        ),
        Statement::If(s) => match register_scope(
            c,
            s.if_true.code_loc@,
            s.if_true.items@,
            scope,
            func,
            cursor,
            Map::empty(),
            Set::empty(),
        ) {
            Err(e) => Err(e),
            Ok((state, after)) => match s.if_false {
                Some(other) => nested(
                    register_scope(
                        state,
                        other.code_loc@,
                        other.items@,
                        scope,
                        func,
                        after,
                        Map::empty(),
                        Set::empty(),
                    ),
                    variables,
                ),
                None => Ok(Scan { state, variables, cursor: after }),
            },
        },
        Statement::WhileLoop(l) => nested(
            register_scope(
                c,
                l.code_loc@,
                l.body.items@,
                scope,
                func,
                cursor,
                Map::empty(),
                Set::empty(),
            ),
            variables,
        ),
        Statement::DoWhileLoop(l) => nested(
            register_scope(
                c,
                l.code_loc@,
                l.body.items@,
                scope,
                func,
                cursor,
                Map::empty(),
                Set::empty(),
            ),
            variables,
        ),
        Statement::ForLoop(l) => {
            let init = match l.init {
                Some(i) => allot_declared(c.structs, i.items@, 0, Map::empty(), cursor),
                None => Ok(Allotment { variables: Map::empty(), cursor }),
            };
            match init {
                Err(e) => Err(e),
                Ok(a) => nested(
                    register_scope(
                        c,
                        l.code_loc@,
                        l.body.items@,
                        scope,
                        func,
                        a.cursor,
                        a.variables,
                        Set::empty(),
                    ),
                    variables,
                ),
            }
        },
        _ => Ok(Scan { state: c, variables, cursor }),
    }
}

/// The scan after a nested scope was registered: the variables of the
/// enclosing scope are as before.
pub open spec fn nested(
    r: Result<(CompilerView, nat), CompileError>,
    variables: Map<Seq<char>, VariableView>,
) -> Result<Scan, CompileError> {
    match r {
        Err(e) => Err(e),
        Ok((state, cursor)) => Ok(Scan { state, variables, cursor }),
    }
}

/// The registers that every function saves on entry and restores on exit.
pub open spec fn saved_registers() -> Seq<Register> {
    seq![Register::R1, Register::R2]
}

/// The signature that `decl` declares.
pub open spec fn signature(decl: FuncDecl) -> FuncView {
    FuncView {
        args_types: decl.args@.map_values(|d: Decl| decl_type(d)),
        return_type: decl.ret_type@,
        body: None,
    }
}

/// The tables after the function of `decl` was declared. The first
/// declaration of a name counts; later ones change nothing.
pub open spec fn register_func_decl(c: CompilerView, decl: FuncDecl) -> CompilerView {
    if c.funcs.contains_key(decl.name@) {
        c
    } else {
        CompilerView { funcs: c.funcs.insert(decl.name@, signature(decl)), ..c }
    }
}

/// The tables after the body of the function of `decl` was registered: the
/// arguments are allotted from offset 0 of the argument space, the scopes of
/// the body are registered with the local cursor starting at 0, the scope of
/// the function holds the arguments as declared variables, and the function
/// is given its saved registers and the number of its local words.
pub open spec fn register_func_body(
    c: CompilerView,
    body: Compound,
    decl: FuncDecl,
    parent: Seq<char>,
) -> Result<CompilerView, CompileError> {
    match allot_all(c.structs, decl.args@, 0, VarStorageType::Arg, Map::empty(), 0) {
        Err(e) => Err(e),
        Ok(args) => match register_scope(
            c,
            decl.name@,
            body.items@,
            parent,
            decl.name@,
            0,
            args.variables,
            args.variables.dom(),
        ) {
            Err(e) => Err(e),
            Ok((state, locals)) => if state.funcs.contains_key(decl.name@) {
                Ok(
                    CompilerView {
                        funcs: state.funcs.insert(
                            decl.name@,
                            FuncView {
                                body: Some(
                                    FuncBodyView {
                                        name: decl.name@,
                                        regs_used: saved_registers(),
                                        local_vars_size: locals,
                                    },
                                ),
                                ..state.funcs[decl.name@]
                            },
                        ),
                        ..state
                    },
                )
            } else {
                Err(CompileError::FunctionNotDeclared)
            },
        },
    }
}

/// The fields of a structure and its size.
pub struct Layout {
    pub fields: Seq<VariableView>,
    pub size: nat,
}

/// The layout that the fields `decls[from..]` give when they follow
/// `fields`, which occupy `size` words: each field starts where the one
/// before it ends.
pub open spec fn layout_from(
    structs: Map<Seq<char>, StructView>,
    decls: Seq<Decl>,
    from: int,
    fields: Seq<VariableView>,
    size: nat,
) -> Result<Layout, CompileError>
    decreases decls.len() - from,
{
    if from < 0 || from >= decls.len() {
        Ok(Layout { fields, size })
    } else {
        match allot(structs, decls[from], VarStorageType::Local, size) {
            Err(e) => Err(e),
            Ok(v) => layout_from(structs, decls, from + 1, put_field(fields, v), size + v.size),
        }
    }
}

/// The layout of the structure that `decl` declares.
pub open spec fn struct_layout(structs: Map<Seq<char>, StructView>, decl: StructDecl) -> Result<
    Layout,
    CompileError,
> {
    layout_from(structs, decl.items@, 0, Seq::empty(), 0)
}

/// The tables after the structure of `decl` was registered, in place of an
/// earlier one of the same name.
pub open spec fn register_struct(c: CompilerView, decl: StructDecl) -> Result<
    CompilerView,
    CompileError,
> {
    match struct_layout(c.structs, decl) {
        Err(e) => Err(e),
        Ok(l) => Ok(
            CompilerView {
                structs: c.structs.insert(
                    decl.name@,
                    StructView { name: decl.name@, size: l.size, fields: l.fields },
                ),
                ..c
            },
        ),
    }
}

/// The variables of `t`, by their views.
pub open spec fn variables_view(t: Table<VariableData>) -> Map<Seq<char>, VariableView> {
    t.view_as(|v: VariableData| v@)
}

impl Compiler {
    /// Allots the variable of `decl` at `cursor` and moves the cursor behind
    /// it.
    pub(crate) fn allot_variable(&self, decl: &Decl, storage: VarStorageType, cursor: &mut u32) -> (r: Result<
        VariableData,
        CompileError,
    >)
        ensures
            match r {
                Ok(v) => allot(self@.structs, *decl, storage, *old(cursor) as nat) == Ok::<
                    VariableView,
                    CompileError,
                >(v@) && *final(cursor) == *old(cursor) + v.size,
                Err(e) => allot(self@.structs, *decl, storage, *old(cursor) as nat) == Err::<
                    VariableView,
                    CompileError,
                >(e),
            },
    {
        let var_data = self.variable_data_from_decl(decl, storage, *cursor)?;
        match cursor.checked_add(var_data.size) {
            Some(next) => {
                *cursor = next;
                Ok(var_data)
            },
            None => Err(CompileError::Overflow),
        }
    }

    /// Allots the local variables that the declarations among `stmts`
    /// declare.
    fn allot_declared_variables(&self, stmts: &Vec<Statement>, cursor: &mut u32) -> (r: Result<
        Table<VariableData>,
        CompileError,
    >)
        ensures
            match r {
                Ok(t) => allot_declared(
                    self@.structs,
                    stmts@,
                    0,
                    Map::empty(),
                    *old(cursor) as nat,
                ) == Ok::<Allotment, CompileError>(
                    Allotment { variables: variables_view(t), cursor: *final(cursor) as nat },
                ),
                Err(e) => allot_declared(
                    self@.structs,
                    stmts@,
                    0,
                    Map::empty(),
                    *old(cursor) as nat,
                ) == Err::<Allotment, CompileError>(e),
            },
    {
        let mut variables: Table<VariableData> = Table::new();
        let ghost whole = allot_declared(
            self@.structs,
            stmts@,
            0,
            Map::empty(),
            *old(cursor) as nat,
        );
        assert(variables_view(variables) =~= Map::empty());
        let mut i: usize = 0;
        while i < stmts.len()
            invariant
                i <= stmts.len(),
                whole == allot_declared(
                    self@.structs,
                    stmts@,
                    0,
                    Map::empty(),
                    *old(cursor) as nat,
                ),
                allot_declared(
                    self@.structs,
                    stmts@,
                    i as int,
                    variables_view(variables),
                    *cursor as nat,
                ) == whole,
            decreases stmts.len() - i,
        {
            match &stmts[i] {
                Statement::Decl(decl) => {
                    let ghost before = variables_view(variables);
                    let var_data = self.allot_variable(decl, VarStorageType::Local, cursor)?;
                    let ghost v = var_data@;
                    variables.insert(var_data.name.clone(), var_data);
                    assert(variables_view(variables) =~= before.insert(v.name, v));
                },
                _ => {},
            }
            i += 1;
        }
        Ok(variables)
    }

    /// Allots the arguments that `decls` declare, from offset 0 on.
    fn allot_arguments(&self, decls: &Vec<Decl>) -> (r: Result<Table<VariableData>, CompileError>)
        ensures
            match r {
                Ok(t) => {
                    let a = allot_all(
                        self@.structs,
                        decls@,
                        0,
                        VarStorageType::Arg,
                        Map::empty(),
                        0,
                    );
                    a.is_ok() && a.unwrap().variables == variables_view(t)
                },
                Err(e) => allot_all(
                    self@.structs,
                    decls@,
                    0,
                    VarStorageType::Arg,
                    Map::empty(),
                    0,
                ) == Err::<Allotment, CompileError>(e),
            },
    {
        let mut variables: Table<VariableData> = Table::new();
        let mut cursor: u32 = 0;
        let ghost whole = allot_all(self@.structs, decls@, 0, VarStorageType::Arg, Map::empty(), 0);
        assert(variables_view(variables) =~= Map::empty());
        let mut i: usize = 0;
        while i < decls.len()
            invariant
                i <= decls.len(),
                whole == allot_all(self@.structs, decls@, 0, VarStorageType::Arg, Map::empty(), 0),
                allot_all(
                    self@.structs,
                    decls@,
                    i as int,
                    VarStorageType::Arg,
                    variables_view(variables),
                    cursor as nat,
                ) == whole,
            decreases decls.len() - i,
        {
            let ghost before = variables_view(variables);
            let var_data = self.allot_variable(&decls[i], VarStorageType::Arg, &mut cursor)?;
            let ghost v = var_data@;
            variables.insert(var_data.name.clone(), var_data);
            assert(variables_view(variables) =~= before.insert(v.name, v));
            i += 1;
        }
        Ok(variables)
    }

    /// Registers the scope `scope_name` of the function `parent_func_name`
    /// inside the scope `parent_scope_name`, and the scopes nested in it.
    /// Local variables are allotted from `current_var_offset` on, which is
    /// left behind the last of them. The scope gets the variables that
    /// `statements` declare and those of `extra`; the names in `declared`
    /// resolve from the start.
    pub fn register_scope(
        &mut self,
        scope_name: &str,
        statements: &Vec<Statement>,
        parent_scope_name: &str,
        parent_func_name: &str,
        current_var_offset: &mut u32,
        extra: Table<VariableData>,
        declared: NameSet,
    ) -> (r: Result<(), CompileError>)
        ensures
            match register_scope(
                old(self)@,
                scope_name@,
                statements@,
                parent_scope_name@,
                parent_func_name@,
                *old(current_var_offset) as nat,
                variables_view(extra),
                declared@,
            ) {
                Ok((state, cursor)) => r.is_ok() && final(self)@ == state
                    && *final(current_var_offset) == cursor,
                Err(e) => r == Err::<(), CompileError>(e),
            },
        decreases statements@, statements@.len() + 1,
    {
        let mut variables: Table<VariableData> = Table::new();
        let ghost whole = scan_statements(
            old(self)@,
            statements@,
            0,
            scope_name@,
            parent_func_name@,
            Map::empty(),
            *old(current_var_offset) as nat,
        );
        assert(variables_view(variables) =~= Map::empty());
        let mut i: usize = 0;
        while i < statements.len()
            invariant
                i <= statements.len(),
                whole == scan_statements(
                    old(self)@,
                    statements@,
                    0,
                    scope_name@,
                    parent_func_name@,
                    Map::empty(),
                    *old(current_var_offset) as nat,
                ),
                scan_statements(
                    self@,
                    statements@,
                    i as int,
                    scope_name@,
                    parent_func_name@,
                    variables_view(variables),
                    *current_var_offset as nat,
                ) == whole,
            decreases statements.len() - i,
        {
            self.register_statement(
                &statements[i],
                scope_name,
                parent_func_name,
                &mut variables,
                current_var_offset,
            )?;
            i += 1;
        }
        let ghost found = variables_view(variables);
        variables.extend(extra);
        assert(variables_view(variables) =~= found.union_prefer_right(variables_view(extra)));
        let scope_data = ScopeData {
            name: String::from_str(scope_name),
            parent_scope: String::from_str(parent_scope_name),
            parent_func: String::from_str(parent_func_name),
            variables,
            declared_variables: declared,
            labels: None,
        };
        let ghost before = self@.scopes;
        self.scope_to_data.insert(String::from_str(scope_name), scope_data);
        assert(self@.scopes =~= before.insert(scope_name@, scope_data@));
        Ok(())
    }

    /// Scans one statement of the scope `scope_name`: allots the variable of
    /// a declaration into `variables`, and registers the scopes of nested
    /// blocks.
    fn register_statement(
        &mut self,
        statement: &Statement,
        scope_name: &str,
        parent_func_name: &str,
        variables: &mut Table<VariableData>,
        current_var_offset: &mut u32,
    ) -> (r: Result<(), CompileError>)
        ensures
            match scan_statement(
                old(self)@,
                *statement,
                scope_name@,
                parent_func_name@,
                variables_view(*old(variables)),
                *old(current_var_offset) as nat,
            ) {
                Ok(s) => r.is_ok() && final(self)@ == s.state && variables_view(*final(variables))
                    == s.variables && *final(current_var_offset) == s.cursor,
                Err(e) => r == Err::<(), CompileError>(e),
            },
        decreases statement,
    {
        match statement {
            Statement::Decl(decl) => {
                let ghost before = variables_view(*variables);
                let var_data = self.allot_variable(
                    decl,
                    VarStorageType::Local,
                    current_var_offset,
                )?;
                let ghost v = var_data@;
                variables.insert(var_data.name.clone(), var_data);
                assert(variables_view(*variables) =~= before.insert(v.name, v));
                Ok(())
            },
            Statement::Compound(comp) => {
                let none: Table<VariableData> = Table::new();
                assert(variables_view(none) =~= Map::empty());
                self.register_scope(
                    comp.code_loc.as_str(),
                    &comp.items,
                    scope_name,
                    parent_func_name,
                    current_var_offset,
                    none,
                    NameSet::new(),
                )
            },
            Statement::If(if_stmt) => {
                let none: Table<VariableData> = Table::new();
                assert(variables_view(none) =~= Map::empty());
                self.register_scope(
                    if_stmt.if_true.code_loc.as_str(),
                    &if_stmt.if_true.items,
                    scope_name,
                    parent_func_name,
                    current_var_offset,
                    none,
                    NameSet::new(),
                )?;
                match &if_stmt.if_false {
                    Some(if_false) => {
                        let none: Table<VariableData> = Table::new();
                        assert(variables_view(none) =~= Map::empty());
                        self.register_scope(
                            if_false.code_loc.as_str(),
                            &if_false.items,
                            scope_name,
                            parent_func_name,
                            current_var_offset,
                            none,
                            NameSet::new(),
                        )
                    },
                    None => Ok(()),
                }
            },
            Statement::WhileLoop(wl) => {
                let none: Table<VariableData> = Table::new();
                assert(variables_view(none) =~= Map::empty());
                self.register_scope(
                    wl.code_loc.as_str(),
                    &wl.body.items,
                    scope_name,
                    parent_func_name,
                    current_var_offset,
                    none,
                    NameSet::new(),
                )
            },
            Statement::DoWhileLoop(dwl) => {
                let none: Table<VariableData> = Table::new();
                assert(variables_view(none) =~= Map::empty());
                self.register_scope(
                    dwl.code_loc.as_str(),
                    &dwl.body.items,
                    scope_name,
                    parent_func_name,
                    current_var_offset,
                    none,
                    NameSet::new(),
                )
            },
            Statement::ForLoop(fl) => {
                // The variables of the initializer belong to the scope of the
                // body, and are allotted before those of the body.
                let for_init_vars = match &fl.init {
                    Some(init) => self.allot_declared_variables(&init.items, current_var_offset)?,
                    None => {
                        let none: Table<VariableData> = Table::new();
                        assert(variables_view(none) =~= Map::empty());
                        none
                    },
                };
                self.register_scope(
                    fl.code_loc.as_str(),
                    &fl.body.items,
                    scope_name,
                    parent_func_name,
                    current_var_offset,
                    for_init_vars,
                    NameSet::new(),
                )
            },
            _ => Ok(()),
        }
    }

    /// Declares the function of `func_decl`. The first declaration of a name
    /// counts: declaring a known function changes nothing, so a prototype
    /// and a later definition do not disturb each other.
    pub fn register_func_decl(&mut self, func_decl: &FuncDecl)
        ensures
            final(self)@ == register_func_decl(old(self)@, *func_decl),
    {
        if self.func_to_data.contains_key(func_decl.name.as_str()) {
            return ;
        }
        let mut args_types: Vec<VariableType> = Vec::new();
        let mut i: usize = 0;
        while i < func_decl.args.len()
            invariant
                i <= func_decl.args.len(),
                args_types@.len() == i,
                forall|j: int| 0 <= j < i ==> (#[trigger] args_types@[j])@ == decl_type(
                    func_decl.args@[j],
                ),
            decreases func_decl.args.len() - i,
        {
            args_types.push(VariableType::from(&func_decl.args[i]));
            i += 1;
        }
        let func_data = FuncData {
            decl_data: FuncDeclData { args_types, return_type: func_decl.ret_type.clone() },
            body_data: None,
        };
        assert(func_data@.args_types =~= signature(*func_decl).args_types);
        let ghost before = self@.funcs;
        self.func_to_data.insert(func_decl.name.clone(), func_data);
        assert(self@.funcs =~= before.insert(func_decl.name@, func_data@));
    }

    /// Registers the body of the function of `func_decl`, which must have
    /// been declared: allots its arguments and its local variables,
    /// registers the scope of the function inside `parent_scope` and the
    /// scopes nested in it, and records the registers that the function
    /// saves and the number of words of its local variables.
    pub fn register_func_body(
        &mut self,
        func_body: &Compound,
        func_decl: &FuncDecl,
        parent_scope: &str,
    ) -> (r: Result<(), CompileError>)
        ensures
            match register_func_body(old(self)@, *func_body, *func_decl, parent_scope@) {
                Ok(state) => r.is_ok() && final(self)@ == state,
                Err(e) => r == Err::<(), CompileError>(e),
            },
    {
        let func_name = func_decl.name.as_str();
        let args_variables = self.allot_arguments(&func_decl.args)?;
        // The arguments resolve from the start.
        let mut declared = NameSet::new();
        let ghost arg_names = variables_view(args_variables).dom();
        args_variables.add_names_to(&mut declared);
        assert(declared@ =~= arg_names);
        let mut vars_size: u32 = 0;
        self.register_scope(
            func_name,
            &func_body.items,
            parent_scope,
            func_name,
            &mut vars_size,
            args_variables,
            declared,
        )?;
        let ghost state = self@;
        match self.func_to_data.remove(func_name) {
            None => Err(CompileError::FunctionNotDeclared),
            Some(func_data) => {
                let mut func_data = func_data;
                let mut regs_used: Vec<Register> = Vec::new();
                regs_used.push(Register::R1);
                regs_used.push(Register::R2);
                assert(regs_used@ =~= saved_registers());
                func_data.body_data = Some(
                    FuncBodyData {
                        name: func_decl.name.clone(),
                        regs_used,
                        local_vars_size: vars_size,
                    },
                );
                self.func_to_data.insert(func_decl.name.clone(), func_data);
                assert(self@.funcs =~= state.funcs.insert(func_decl.name@, func_data@));
                Ok(())
            },
        }
    }

    /// Registers the structure of `struct_decl`: its fields are laid out in
    /// the order of their declaration, each where the one before it ends,
    /// and the size of the structure is the sum of theirs. An earlier
    /// structure of the same name gives way.
    pub fn register_struct(&mut self, struct_decl: &StructDecl) -> (r: Result<(), CompileError>)
        ensures
            match register_struct(old(self)@, *struct_decl) {
                Ok(state) => r.is_ok() && final(self)@ == state,
                Err(e) => r == Err::<(), CompileError>(e) && final(self)@ == old(self)@,
            },
    {
        let mut items = FieldTable::new();
        let mut cur_offset: u32 = 0;
        let ghost whole = struct_layout(self@.structs, *struct_decl);
        let mut i: usize = 0;
        while i < struct_decl.items.len()
            invariant
                i <= struct_decl.items.len(),
                self@ == old(self)@,
                whole == struct_layout(self@.structs, *struct_decl),
                layout_from(
                    self@.structs,
                    struct_decl.items@,
                    i as int,
                    items@,
                    cur_offset as nat,
                ) == whole,
            decreases struct_decl.items.len() - i,
        {
            let var_data = self.allot_variable(
                &struct_decl.items[i],
                VarStorageType::Local,
                &mut cur_offset,
            )?;
            items.insert(var_data);
            i += 1;
        }
        let struct_data = StructData { name: struct_decl.name.clone(), size: cur_offset, items };
        let ghost before = self@.structs;
        self.struct_to_data.insert(struct_decl.name.clone(), struct_data);
        assert(self@.structs =~= before.insert(struct_decl.name@, struct_data@));
        Ok(())
    }
}

} // verus!
