//! No two variables of a function share a word.
//!
//! The scopes of a function are registered with one cursor that only moves
//! forward, and every variable gets the words at the cursor. The first
//! theorem of this file, [`lemma_function_variables_disjoint`], follows the
//! registration through the nesting of the blocks and shows that the
//! variables of all the scopes of the function, arguments included, are
//! pairwise disjoint. The second, [`lemma_program_variables_disjoint`],
//! shows that this is still so of every function when the whole program
//! has been compiled.

use vstd::prelude::*;
use crate::ast::{Compound, Decl, External, FuncDecl, FuncDef, RootAstNode, Statement};
use crate::compiler::{global_scope, CompilerView};
use crate::frame::slots;
use crate::program::{
    allot_globals,
    gen_external,
    gen_externals,
    gen_func_def,
    gen_root,
    global_scope_view,
};
use crate::registry::{
    allot,
    allot_all,
    allot_declared,
    register_func_body,
    register_func_decl,
    register_scope,
    scan_statement,
    scan_statements,
};
use crate::structs::StructView;
use crate::symbols::{ScopeView, VarStorageType, VariableView};

verus! {

/// Whether two variables lie apart: in different storage classes, one
/// wholly before the other, or one of them without any word.
pub open spec fn apart(a: VariableView, b: VariableView) -> bool {
    ||| a.storage != b.storage
    ||| a.size == 0
    ||| b.size == 0
    ||| a.offset + a.size <= b.offset
    ||| b.offset + b.size <= a.offset
}

/// Variables that lie apart share no word.
pub proof fn lemma_apart_is_disjoint(a: VariableView, b: VariableView)
    requires
        apart(a, b),
    ensures
        a.disjoint(b),
{
}

/// Variables by name.
pub type Variables = Map<Seq<char>, VariableView>;

/// A place where a variable of a function is recorded while the function
/// is registered: in a registered scope, or in one of the collections of
/// variables held for scopes whose registration is under way.
pub enum Place {
    Scoped { scope: Seq<char>, name: Seq<char> },
    Held { level: int, name: Seq<char> },
}

/// The variable of function `func` recorded at `place`, where there is one.
pub open spec fn variable_at(c: CompilerView, func: Seq<char>, held: Seq<Variables>, place: Place)
    -> Option<VariableView> {
    match place {
        Place::Scoped { scope, name } => if c.scopes.contains_key(scope)
            && c.scopes[scope].parent_func == func && c.scopes[scope].variables.contains_key(
            name,
        ) {
            Some(c.scopes[scope].variables[name])
        } else {
            None
        },
        Place::Held { level, name } => if 0 <= level < held.len() && held[level].contains_key(
            name,
        ) {
            Some(held[level][name])
        } else {
            None
        },
    }
}

/// Whether `v`, where it is a local variable, lies before `cursor`.
pub open spec fn before_cursor(v: VariableView, cursor: nat) -> bool {
    v.storage == VarStorageType::Local ==> v.offset + v.size <= cursor
}

/// Whether the variables of function `func`, registered and held, are in
/// order: the local ones lie before `cursor`, and any two at different
/// places lie apart.
pub open spec fn tidy(c: CompilerView, func: Seq<char>, held: Seq<Variables>, cursor: nat) -> bool {
    &&& forall|p: Place|
        (#[trigger] variable_at(c, func, held, p)).is_some() ==> before_cursor(
            variable_at(c, func, held, p).unwrap(),
            cursor,
        )
    &&& forall|p: Place, q: Place|
        #![trigger variable_at(c, func, held, p), variable_at(c, func, held, q)]
        p != q && variable_at(c, func, held, p).is_some() && variable_at(
            c,
            func,
            held,
            q,
        ).is_some() ==> apart(
            variable_at(c, func, held, p).unwrap(),
            variable_at(c, func, held, q).unwrap(),
        )
}

/// Holding one more collection, an empty one, changes nothing.
proof fn lemma_hold_nothing(c: CompilerView, func: Seq<char>, held: Seq<Variables>, cursor: nat)
    requires
        tidy(c, func, held, cursor),
    ensures
        tidy(c, func, held.push(Map::empty()), cursor),
{
    let more = held.push(Map::empty());
    assert forall|p: Place| #[trigger] variable_at(c, func, more, p) == variable_at(c, func, held, p) by {
        match p {
            Place::Held { level, name } => {
                if 0 <= level < held.len() {
                    assert(more[level] == held[level]);
                }
            },
            _ => {},
        }
    }
}

/// A local variable allotted at the cursor lies apart from everything
/// recorded so far, so it can join the collection held last.
proof fn lemma_hold_variable(
    c: CompilerView,
    func: Seq<char>,
    held: Seq<Variables>,
    vars: Variables,
    v: VariableView,
    cursor: nat,
)
    requires
        tidy(c, func, held.push(vars), cursor),
        v.storage == VarStorageType::Local,
        v.offset == cursor,
    ensures
        tidy(c, func, held.push(vars.insert(v.name, v)), cursor + v.size),
{
    let before = held.push(vars);
    let now = held.push(vars.insert(v.name, v));
    let fresh = Place::Held { level: held.len() as int, name: v.name };
    assert(variable_at(c, func, now, fresh) == Some(v));
    assert forall|p: Place| p != fresh implies #[trigger] variable_at(c, func, now, p)
        == variable_at(c, func, before, p) by {
        match p {
            Place::Held { level, name } => {
                if 0 <= level < held.len() {
                    assert(now[level] == held[level]);
                    assert(before[level] == held[level]);
                }
            },
            _ => {},
        }
    }
    assert forall|p: Place| (#[trigger] variable_at(c, func, now, p)).is_some() implies before_cursor(
        variable_at(c, func, now, p).unwrap(),
        cursor + v.size,
    ) by {
        if p != fresh {
            assert(variable_at(c, func, before, p) == variable_at(c, func, now, p));
        }
    }
    assert forall|p: Place, q: Place|
        #![trigger variable_at(c, func, now, p), variable_at(c, func, now, q)]
        p != q && variable_at(c, func, now, p).is_some() && variable_at(
            c,
            func,
            now,
            q,
        ).is_some() implies apart(
        variable_at(c, func, now, p).unwrap(),
        variable_at(c, func, now, q).unwrap(),
    ) by {
        if p != fresh {
            assert(variable_at(c, func, before, p) == variable_at(c, func, now, p));
        }
        if q != fresh {
            assert(variable_at(c, func, before, q) == variable_at(c, func, now, q));
        }
    }
}

/// When the registration of a scope of `func` ends, the variables held for
/// it, declared ones and extra ones, become the variables of the scope. In
/// place of the scope of the same name, if there was one, they are still in
/// order.
proof fn lemma_close_scope(
    c: CompilerView,
    func: Seq<char>,
    held: Seq<Variables>,
    extra: Variables,
    found: Variables,
    scope: ScopeView,
    cursor: nat,
)
    requires
        tidy(c, func, held.push(extra).push(found), cursor),
        scope.parent_func == func,
        scope.variables == found.union_prefer_right(extra),
    ensures
        tidy(CompilerView { scopes: c.scopes.insert(scope.name, scope), ..c }, func, held, cursor),
{
    let before = held.push(extra).push(found);
    let c2 = CompilerView { scopes: c.scopes.insert(scope.name, scope), ..c };
    // Where the variable at a place was recorded before the scope was
    // closed.
    let origin = |p: Place|
        match p {
            Place::Scoped { scope: s, name } => if s == scope.name {
                if extra.contains_key(name) {
                    Place::Held { level: held.len() as int, name }
                } else {
                    Place::Held { level: held.len() as int + 1, name }
                }
            } else {
                p
            },
            _ => p,
        };
    assert forall|p: Place| variable_at(c2, func, held, p).is_some() implies #[trigger] variable_at(
        c,
        func,
        before,
        origin(p),
    ) == variable_at(c2, func, held, p) by {
        match p {
            Place::Held { level, name } => {
                assert(before[level] == held[level]);
            },
            Place::Scoped { scope: s, name } => {
                assert(before[held.len() as int] == extra);
                assert(before[held.len() as int + 1] == found);
            },
        }
    }
    assert forall|p: Place| (#[trigger] variable_at(c2, func, held, p)).is_some() implies before_cursor(
        variable_at(c2, func, held, p).unwrap(),
        cursor,
    ) by {
        assert(variable_at(c, func, before, origin(p)) == variable_at(c2, func, held, p));
    }
    assert forall|p: Place, q: Place|
        #![trigger variable_at(c2, func, held, p), variable_at(c2, func, held, q)]
        p != q && variable_at(c2, func, held, p).is_some() && variable_at(
            c2,
            func,
            held,
            q,
        ).is_some() implies apart(
        variable_at(c2, func, held, p).unwrap(),
        variable_at(c2, func, held, q).unwrap(),
    ) by {
        assert(variable_at(c, func, before, origin(p)) == variable_at(c2, func, held, p));
        assert(variable_at(c, func, before, origin(q)) == variable_at(c2, func, held, q));
        assert(origin(p) != origin(q));
    }
}

/// The variables that the declarations of an initializer declare are
/// allotted one behind the other, so they stay in order.
proof fn lemma_allot_declared(
    c: CompilerView,
    func: Seq<char>,
    held: Seq<Variables>,
    structs: Map<Seq<char>, StructView>,
    stmts: Seq<Statement>,
    from: int,
    vars: Variables,
    cursor: nat,
)
    requires
        0 <= from,
        tidy(c, func, held.push(vars), cursor),
        allot_declared(structs, stmts, from, vars, cursor).is_ok(),
    ensures
        ({
            let a = allot_declared(structs, stmts, from, vars, cursor).unwrap();
            tidy(c, func, held.push(a.variables), a.cursor) && cursor <= a.cursor
        }),
    decreases stmts.len() - from,
{
    if from < stmts.len() {
        match stmts[from] {
            Statement::Decl(d) => {
                let v = allot(structs, d, VarStorageType::Local, cursor).unwrap();
                lemma_hold_variable(c, func, held, vars, v, cursor);
                lemma_allot_declared(
                    c,
                    func,
                    held,
                    structs,
                    stmts,
                    from + 1,
                    vars.insert(v.name, v),
                    cursor + v.size,
                );
            },
            _ => {
                lemma_allot_declared(c, func, held, structs, stmts, from + 1, vars, cursor);
            },
        }
    }
}

/// The registration of a scope of `func` keeps the variables of `func` in
/// order.
proof fn lemma_register_scope(
    c: CompilerView,
    name: Seq<char>,
    stmts: Seq<Statement>,
    parent: Seq<char>,
    func: Seq<char>,
    cursor: nat,
    extra: Variables,
    declared: Set<Seq<char>>,
    held: Seq<Variables>,
)
    requires
        tidy(c, func, held.push(extra), cursor),
        register_scope(c, name, stmts, parent, func, cursor, extra, declared).is_ok(),
    ensures
        ({
            let r = register_scope(c, name, stmts, parent, func, cursor, extra, declared).unwrap();
            tidy(r.0, func, held, r.1) && cursor <= r.1
        }),
    decreases stmts, stmts.len() + 1,
{
    lemma_hold_nothing(c, func, held.push(extra), cursor);
    lemma_scan_statements(c, stmts, 0, name, func, Map::empty(), cursor, held.push(extra));
    let s = scan_statements(c, stmts, 0, name, func, Map::empty(), cursor).unwrap();
    let scope = ScopeView {
        name,
        parent_scope: parent,
        parent_func: func,
        variables: s.variables.union_prefer_right(extra),
        declared,
        labels: None,
    };
    lemma_close_scope(s.state, func, held, extra, s.variables, scope, s.cursor);
}

/// The scan of the statements of a scope of `func` keeps the variables of
/// `func` in order.
proof fn lemma_scan_statements(
    c: CompilerView,
    stmts: Seq<Statement>,
    from: int,
    scope: Seq<char>,
    func: Seq<char>,
    vars: Variables,
    cursor: nat,
    held: Seq<Variables>,
)
    requires
        0 <= from,
        tidy(c, func, held.push(vars), cursor),
        scan_statements(c, stmts, from, scope, func, vars, cursor).is_ok(),
    ensures
        ({
            let s = scan_statements(c, stmts, from, scope, func, vars, cursor).unwrap();
            tidy(s.state, func, held.push(s.variables), s.cursor) && cursor <= s.cursor
        }),
    decreases stmts, stmts.len() - from,
{
    if from < stmts.len() {
        lemma_scan_statement(c, stmts[from], scope, func, vars, cursor, held);
        let s = scan_statement(c, stmts[from], scope, func, vars, cursor).unwrap();
        lemma_scan_statements(s.state, stmts, from + 1, scope, func, s.variables, s.cursor, held);
    }
}

/// The registration of a block nested in a scope of `func`, while the
/// variables `vars` of that scope are held.
proof fn lemma_nested_scope(
    c: CompilerView,
    block: Compound,
    name: Seq<char>,
    scope: Seq<char>,
    func: Seq<char>,
    vars: Variables,
    cursor: nat,
    held: Seq<Variables>,
)
    requires
        tidy(c, func, held.push(vars), cursor),
        register_scope(
            c,
            name,
            block.items@,
            scope,
            func,
            cursor,
            Map::empty(),
            Set::empty(),
        ).is_ok(),
    ensures
        ({
            let r = register_scope(
                c,
                name,
                block.items@,
                scope,
                func,
                cursor,
                Map::empty(),
                Set::empty(),
            ).unwrap();
            tidy(r.0, func, held.push(vars), r.1) && cursor <= r.1
        }),
    decreases block.items@, block.items@.len() + 2,
{
    lemma_hold_nothing(c, func, held.push(vars), cursor);
    lemma_register_scope(
        c,
        name,
        block.items@,
        scope,
        func,
        cursor,
        Map::empty(),
        Set::empty(),
        held.push(vars),
    );
}

/// The scan of one statement of a scope of `func` keeps the variables of
/// `func` in order.
proof fn lemma_scan_statement(
    c: CompilerView,
    stmt: Statement,
    scope: Seq<char>,
    func: Seq<char>,
    vars: Variables,
    cursor: nat,
    held: Seq<Variables>,
)
    requires
        tidy(c, func, held.push(vars), cursor),
        scan_statement(c, stmt, scope, func, vars, cursor).is_ok(),
    ensures
        ({
            let s = scan_statement(c, stmt, scope, func, vars, cursor).unwrap();
            tidy(s.state, func, held.push(s.variables), s.cursor) && cursor <= s.cursor
        }),
    decreases stmt,
{
    match stmt {
        Statement::Decl(d) => {
            let v = allot(c.structs, d, VarStorageType::Local, cursor).unwrap();
            lemma_hold_variable(c, func, held, vars, v, cursor);
        },
        Statement::Compound(comp) => {
            lemma_nested_scope(c, comp, comp.code_loc@, scope, func, vars, cursor, held);
        },
        Statement::If(s) => {
            lemma_nested_scope(c, s.if_true, s.if_true.code_loc@, scope, func, vars, cursor, held);
            let r = register_scope(
                c,
                s.if_true.code_loc@,
                s.if_true.items@,
                scope,
                func,
                cursor,
                Map::empty(),
                Set::empty(),
            ).unwrap();
            match s.if_false {
                Some(other) => {
                    lemma_nested_scope(r.0, other, other.code_loc@, scope, func, vars, r.1, held);
                },
                None => {},
            }
        },
        Statement::WhileLoop(l) => {
            lemma_nested_scope(c, l.body, l.code_loc@, scope, func, vars, cursor, held);
        },
        Statement::DoWhileLoop(l) => {
            lemma_nested_scope(c, l.body, l.code_loc@, scope, func, vars, cursor, held);
        },
        Statement::ForLoop(l) => {
            lemma_hold_nothing(c, func, held.push(vars), cursor);
            let a = match l.init {
                Some(i) => {
                    lemma_allot_declared(
                        c,
                        func,
                        held.push(vars),
                        c.structs,
                        i.items@,
                        0,
                        Map::empty(),
                        cursor,
                    );
                    allot_declared(c.structs, i.items@, 0, Map::empty(), cursor).unwrap()
                },
                None => crate::registry::Allotment { variables: Map::empty(), cursor },
            };
            lemma_register_scope(
                c,
                l.code_loc@,
                l.body.items@,
                scope,
                func,
                a.cursor,
                a.variables,
                Set::empty(),
                held.push(vars),
            );
        },
        _ => {},
    }
}

/// Whether the variables among `vars` all have the storage class `storage`
/// and lie before `cursor`, and any two of different names lie apart.
pub open spec fn in_a_row(vars: Variables, storage: VarStorageType, cursor: nat) -> bool {
    &&& forall|n: Seq<char>|
        vars.contains_key(n) ==> (#[trigger] vars[n]).storage == storage && vars[n].offset
            + vars[n].size <= cursor
    &&& forall|n: Seq<char>, m: Seq<char>|
        n != m && vars.contains_key(n) && vars.contains_key(m) ==> apart(
            #[trigger] vars[n],
            #[trigger] vars[m],
        )
}

/// Variables allotted one behind the other lie in a row.
pub proof fn lemma_allot_all(
    structs: Map<Seq<char>, StructView>,
    decls: Seq<Decl>,
    from: int,
    storage: VarStorageType,
    vars: Variables,
    cursor: nat,
)
    requires
        0 <= from,
        in_a_row(vars, storage, cursor),
        allot_all(structs, decls, from, storage, vars, cursor).is_ok(),
    ensures
        ({
            let a = allot_all(structs, decls, from, storage, vars, cursor).unwrap();
            in_a_row(a.variables, storage, a.cursor)
        }),
    decreases decls.len() - from,
{
    if from < decls.len() {
        let v = allot(structs, decls[from], storage, cursor).unwrap();
        lemma_allot_all(
            structs,
            decls,
            from + 1,
            storage,
            vars.insert(v.name, v),
            cursor + v.size,
        );
    }
}

/// Whether any two variables of the scopes of function `func` lie apart,
/// be they of one scope or of two.
pub open spec fn function_apart(c: CompilerView, func: Seq<char>) -> bool {
    forall|s1: Seq<char>, n1: Seq<char>, s2: Seq<char>, n2: Seq<char>|
        #![trigger c.scopes[s1].variables[n1], c.scopes[s2].variables[n2]]
        {
            &&& c.scopes.contains_key(s1)
            &&& c.scopes.contains_key(s2)
            &&& c.scopes[s1].parent_func == func
            &&& c.scopes[s2].parent_func == func
            &&& c.scopes[s1].variables.contains_key(n1)
            &&& c.scopes[s2].variables.contains_key(n2)
            &&& (s1 != s2 || n1 != n2)
        } ==> apart(c.scopes[s1].variables[n1], c.scopes[s2].variables[n2])
}

/// Whether any two variables of the scopes of function `func` share no
/// word.
pub open spec fn function_disjoint(c: CompilerView, func: Seq<char>) -> bool {
    forall|s1: Seq<char>, n1: Seq<char>, s2: Seq<char>, n2: Seq<char>|
        #![trigger c.scopes[s1].variables[n1], c.scopes[s2].variables[n2]]
        {
            &&& c.scopes.contains_key(s1)
            &&& c.scopes.contains_key(s2)
            &&& c.scopes[s1].parent_func == func
            &&& c.scopes[s2].parent_func == func
            &&& c.scopes[s1].variables.contains_key(n1)
            &&& c.scopes[s2].variables.contains_key(n2)
            &&& (s1 != s2 || n1 != n2)
        } ==> c.scopes[s1].variables[n1].disjoint(c.scopes[s2].variables[n2])
}

/// The variables of the scopes of a function share no word.
///
/// When the body of a function is registered for the first time, that is,
/// while no scope belongs to the function yet, then afterwards any two
/// variables of the scopes of the function lie apart, whether they are
/// local variables of the same block, of nested blocks or of blocks side by
/// side, or arguments: no two of them share a word of the frame.
pub proof fn lemma_function_variables_disjoint(
    c: CompilerView,
    body: Compound,
    decl: FuncDecl,
    parent: Seq<char>,
)
    requires
        forall|s: Seq<char>| c.scopes.contains_key(s) ==> c.scopes[s].parent_func != decl.name@,
        register_func_body(c, body, decl, parent).is_ok(),
    ensures
        function_apart(register_func_body(c, body, decl, parent).unwrap(), decl.name@),
{
    let func = decl.name@;
    let args = allot_all(c.structs, decl.args@, 0, VarStorageType::Arg, Map::empty(), 0).unwrap();
    lemma_allot_all(c.structs, decl.args@, 0, VarStorageType::Arg, Map::empty(), 0);
    let none = Seq::<Variables>::empty();
    let held = none.push(args.variables);
    assert(tidy(c, func, held, 0)) by {
        assert(held[0] == args.variables);
    }
    lemma_register_scope(
        c,
        func,
        body.items@,
        parent,
        func,
        0,
        args.variables,
        args.variables.dom(),
        none,
    );
    let r = register_scope(
        c,
        func,
        body.items@,
        parent,
        func,
        0,
        args.variables,
        args.variables.dom(),
    ).unwrap();
    let after = register_func_body(c, body, decl, parent).unwrap();
    assert(after.scopes == r.0.scopes);
    assert forall|s1: Seq<char>, n1: Seq<char>, s2: Seq<char>, n2: Seq<char>|
        #![trigger after.scopes[s1].variables[n1], after.scopes[s2].variables[n2]]
        {
            &&& after.scopes.contains_key(s1)
            &&& after.scopes.contains_key(s2)
            &&& after.scopes[s1].parent_func == func
            &&& after.scopes[s2].parent_func == func
            &&& after.scopes[s1].variables.contains_key(n1)
            &&& after.scopes[s2].variables.contains_key(n2)
            &&& (s1 != s2 || n1 != n2)
        } implies apart(after.scopes[s1].variables[n1], after.scopes[s2].variables[n2]) by {
        let p = Place::Scoped { scope: s1, name: n1 };
        let q = Place::Scoped { scope: s2, name: n2 };
        assert(variable_at(r.0, func, none, p) == Some(after.scopes[s1].variables[n1]));
        assert(variable_at(r.0, func, none, q) == Some(after.scopes[s2].variables[n2]));
        assert(p != q);
    }
}

/// Whether every scope of `after` either belongs to `func` or is a scope
/// of `before`, unchanged.
pub open spec fn touches_only(before: CompilerView, after: CompilerView, func: Seq<char>) -> bool {
    forall|s: Seq<char>|
        after.scopes.contains_key(s) ==> (#[trigger] after.scopes[s]).parent_func == func || (
        before.scopes.contains_key(s) && after.scopes[s] == before.scopes[s])
}

/// The registration of a scope of `func` touches the scopes of no other
/// function.
proof fn lemma_register_scope_touches(
    c: CompilerView,
    name: Seq<char>,
    stmts: Seq<Statement>,
    parent: Seq<char>,
    func: Seq<char>,
    cursor: nat,
    extra: Variables,
    declared: Set<Seq<char>>,
)
    requires
        register_scope(c, name, stmts, parent, func, cursor, extra, declared).is_ok(),
    ensures
        touches_only(
            c,
            register_scope(c, name, stmts, parent, func, cursor, extra, declared).unwrap().0,
            func,
        ),
    decreases stmts, stmts.len() + 1,
{
    lemma_scan_statements_touches(c, stmts, 0, name, func, Map::empty(), cursor);
}

proof fn lemma_scan_statements_touches(
    c: CompilerView,
    stmts: Seq<Statement>,
    from: int,
    scope: Seq<char>,
    func: Seq<char>,
    vars: Variables,
    cursor: nat,
)
    requires
        0 <= from,
        scan_statements(c, stmts, from, scope, func, vars, cursor).is_ok(),
    ensures
        touches_only(
            c,
            scan_statements(c, stmts, from, scope, func, vars, cursor).unwrap().state,
            func,
        ),
    decreases stmts, stmts.len() - from,
{
    if from < stmts.len() {
        lemma_scan_statement_touches(c, stmts[from], scope, func, vars, cursor);
        let s = scan_statement(c, stmts[from], scope, func, vars, cursor).unwrap();
        lemma_scan_statements_touches(s.state, stmts, from + 1, scope, func, s.variables, s.cursor);
    }
}

proof fn lemma_scan_statement_touches(
    c: CompilerView,
    stmt: Statement,
    scope: Seq<char>,
    func: Seq<char>,
    vars: Variables,
    cursor: nat,
)
    requires
        scan_statement(c, stmt, scope, func, vars, cursor).is_ok(),
    ensures
        touches_only(c, scan_statement(c, stmt, scope, func, vars, cursor).unwrap().state, func),
    decreases stmt,
{
    let none = Map::<Seq<char>, VariableView>::empty();
    let nothing = Set::<Seq<char>>::empty();
    match stmt {
        Statement::Compound(comp) => {
            lemma_register_scope_touches(
                c,
                comp.code_loc@,
                comp.items@,
                scope,
                func,
                cursor,
                none,
                nothing,
            );
        },
        Statement::If(s) => {
            lemma_register_scope_touches(
                c,
                s.if_true.code_loc@,
                s.if_true.items@,
                scope,
                func,
                cursor,
                none,
                nothing,
            );
            let r = register_scope(
                c,
                s.if_true.code_loc@,
                s.if_true.items@,
                scope,
                func,
                cursor,
                none,
                nothing,
            ).unwrap();
            match s.if_false {
                Some(other) => {
                    lemma_register_scope_touches(
                        r.0,
                        other.code_loc@,
                        other.items@,
                        scope,
                        func,
                        r.1,
                        none,
                        nothing,
                    );
                },
                None => {},
            }
        },
        Statement::WhileLoop(l) => {
            lemma_register_scope_touches(
                c,
                l.code_loc@,
                l.body.items@,
                scope,
                func,
                cursor,
                none,
                nothing,
            );
        },
        Statement::DoWhileLoop(l) => {
            lemma_register_scope_touches(
                c,
                l.code_loc@,
                l.body.items@,
                scope,
                func,
                cursor,
                none,
                nothing,
            );
        },
        Statement::ForLoop(l) => {
            let a = match l.init {
                Some(i) => allot_declared(c.structs, i.items@, 0, none, cursor).unwrap(),
                None => crate::registry::Allotment { variables: none, cursor },
            };
            lemma_register_scope_touches(
                c,
                l.code_loc@,
                l.body.items@,
                scope,
                func,
                a.cursor,
                a.variables,
                nothing,
            );
        },
        _ => {},
    }
}

/// Whether the variables of every function lie apart.
pub open spec fn all_apart(c: CompilerView) -> bool {
    forall|func: Seq<char>| #[trigger] function_apart(c, func)
}

/// Whether every scope belongs to one of the functions `names`.
pub open spec fn owned_by(c: CompilerView, names: Set<Seq<char>>) -> bool {
    forall|s: Seq<char>|
        c.scopes.contains_key(s) ==> names.contains((#[trigger] c.scopes[s]).parent_func)
}

/// States with the same slots agree on whether the variables of a function
/// lie apart, and on the functions that scopes belong to.
proof fn lemma_same_slots(a: CompilerView, b: CompilerView)
    requires
        slots(a) == slots(b),
    ensures
        forall|func: Seq<char>| function_apart(a, func) ==> #[trigger] function_apart(b, func),
        forall|names: Set<Seq<char>>| owned_by(a, names) ==> #[trigger] owned_by(b, names),
{
    assert forall|s: Seq<char>| #[trigger] b.scopes.contains_key(s) implies a.scopes.contains_key(s)
        && a.scopes[s].parent_func == b.scopes[s].parent_func && a.scopes[s].variables
        == b.scopes[s].variables by {
        assert(slots(b).dom().contains(s));
        assert(slots(a).dom().contains(s));
        assert(a.scopes.dom().contains(s));
        assert(slots(a)[s] == slots(b)[s]);
        assert(slots(a)[s].parent_func == a.scopes[s].parent_func);
        assert(slots(b)[s].parent_func == b.scopes[s].parent_func);
        assert(slots(a)[s].variables == a.scopes[s].variables);
        assert(slots(b)[s].variables == b.scopes[s].variables);
    }
    assert forall|func: Seq<char>| function_apart(a, func) implies #[trigger] function_apart(
        b,
        func,
    ) by {
        assert forall|s1: Seq<char>, n1: Seq<char>, s2: Seq<char>, n2: Seq<char>|
            #![trigger b.scopes[s1].variables[n1], b.scopes[s2].variables[n2]]
            {
                &&& b.scopes.contains_key(s1)
                &&& b.scopes.contains_key(s2)
                &&& b.scopes[s1].parent_func == func
                &&& b.scopes[s2].parent_func == func
                &&& b.scopes[s1].variables.contains_key(n1)
                &&& b.scopes[s2].variables.contains_key(n2)
                &&& (s1 != s2 || n1 != n2)
            } implies apart(b.scopes[s1].variables[n1], b.scopes[s2].variables[n2]) by {
            assert(a.scopes[s1].variables[n1] == b.scopes[s1].variables[n1]);
            assert(a.scopes[s2].variables[n2] == b.scopes[s2].variables[n2]);
        }
    }
    assert forall|names: Set<Seq<char>>| owned_by(a, names) implies #[trigger] owned_by(
        b,
        names,
    ) by {
        assert forall|s: Seq<char>| b.scopes.contains_key(s) implies names.contains(
            (#[trigger] b.scopes[s]).parent_func,
        ) by {
            assert(names.contains(a.scopes[s].parent_func));
        }
    }
}

/// The definition of a function that owns no scope yet keeps the variables
/// of every function apart.
proof fn lemma_func_def_keeps_apart(
    c: CompilerView,
    def: FuncDef,
    scope: Seq<char>,
    names: Set<Seq<char>>,
)
    requires
        all_apart(c),
        owned_by(c, names),
        !names.contains(def.decl.name@),
        gen_func_def(c, def, scope).is_ok(),
    ensures
        all_apart(gen_func_def(c, def, scope).unwrap().state),
        owned_by(gen_func_def(c, def, scope).unwrap().state, names.insert(def.decl.name@)),
{
    let name = def.decl.name@;
    let c1 = register_func_decl(c, def.decl);
    assert(c1.scopes == c.scopes);
    let c2 = register_func_body(c1, def.body, def.decl, scope).unwrap();
    assert forall|s: Seq<char>| c1.scopes.contains_key(s) implies c1.scopes[s].parent_func
        != name by {
        assert(names.contains(c.scopes[s].parent_func));
    }
    lemma_function_variables_disjoint(c1, def.body, def.decl, scope);
    let args = allot_all(c1.structs, def.decl.args@, 0, VarStorageType::Arg, Map::empty(), 0).unwrap();
    lemma_register_scope_touches(
        c1,
        name,
        def.body.items@,
        scope,
        name,
        0,
        args.variables,
        args.variables.dom(),
    );
    let r = register_scope(
        c1,
        name,
        def.body.items@,
        scope,
        name,
        0,
        args.variables,
        args.variables.dom(),
    ).unwrap();
    assert(c2.scopes == r.0.scopes);
    assert forall|func: Seq<char>| #[trigger] function_apart(c2, func) by {
        if func != name {
            assert(function_apart(c1, func)) by {
                assert(function_apart(c, func));
            }
            assert forall|s1: Seq<char>, n1: Seq<char>, s2: Seq<char>, n2: Seq<char>|
                #![trigger c2.scopes[s1].variables[n1], c2.scopes[s2].variables[n2]]
                {
                    &&& c2.scopes.contains_key(s1)
                    &&& c2.scopes.contains_key(s2)
                    &&& c2.scopes[s1].parent_func == func
                    &&& c2.scopes[s2].parent_func == func
                    &&& c2.scopes[s1].variables.contains_key(n1)
                    &&& c2.scopes[s2].variables.contains_key(n2)
                    &&& (s1 != s2 || n1 != n2)
                } implies apart(c2.scopes[s1].variables[n1], c2.scopes[s2].variables[n2]) by {
                assert(c2.scopes[s1] == c1.scopes[s1]);
                assert(c2.scopes[s2] == c1.scopes[s2]);
                assert(c1.scopes[s1].variables[n1] == c2.scopes[s1].variables[n1]);
                assert(c1.scopes[s2].variables[n2] == c2.scopes[s2].variables[n2]);
            }
        }
    }
    assert(owned_by(c2, names.insert(name))) by {
        assert forall|s: Seq<char>| c2.scopes.contains_key(s) implies names.insert(name).contains(
            (#[trigger] c2.scopes[s]).parent_func,
        ) by {
            if c2.scopes[s].parent_func != name {
                assert(c2.scopes[s] == c1.scopes[s]);
                assert(names.contains(c.scopes[s].parent_func));
            }
        }
    }
    crate::frame::lemma_gen_compound_keeps_slots(c2, def.body.items@, 0, name);
    let out = gen_func_def(c, def, scope).unwrap();
    lemma_same_slots(c2, out.state);
    assert forall|func: Seq<char>| #[trigger] function_apart(out.state, func) by {
        assert(function_apart(c2, func));
    }
}

/// The names of the functions that `externals[..n]` define, and the name
/// under which the global scope stands for a function.
pub open spec fn definitions(externals: Seq<External>, n: int) -> Set<Seq<char>>
    decreases n,
{
    if n <= 0 || n > externals.len() {
        set![global_scope()]
    } else {
        match externals[n - 1] {
            External::FuncDef(d) => definitions(externals, n - 1).insert(d.decl.name@),
            _ => definitions(externals, n - 1),
        }
    }
}

/// The name of the function that `ext` defines, where it defines one.
pub open spec fn defined_name(ext: External) -> Option<Seq<char>> {
    match ext {
        External::FuncDef(d) => Some(d.decl.name@),
        _ => None,
    }
}

/// Whether no function is defined twice among `externals`, and none under
/// the name of the global scope.
pub open spec fn defined_once(externals: Seq<External>) -> bool {
    &&& forall|i: int, j: int|
        0 <= i < j < externals.len() && defined_name(#[trigger] externals[i]).is_some()
            ==> defined_name(externals[i]) != defined_name(#[trigger] externals[j])
    &&& forall|i: int|
        0 <= i < externals.len() ==> defined_name(#[trigger] externals[i]) != Some(global_scope())
}

/// A function defined at `at` is not among the definitions before `at`.
proof fn lemma_not_defined_before(externals: Seq<External>, at: int, n: int)
    requires
        defined_once(externals),
        0 <= n <= at < externals.len(),
        externals[at] is FuncDef,
    ensures
        !definitions(externals, n).contains(externals[at]->FuncDef_0.decl.name@),
    decreases n,
{
    if n > 0 {
        lemma_not_defined_before(externals, at, n - 1);
    }
}

/// The items of the top level keep the variables of every function apart.
proof fn lemma_externals_keep_apart(c: CompilerView, externals: Seq<External>, from: int)
    requires
        0 <= from,
        defined_once(externals),
        all_apart(c),
        owned_by(c, definitions(externals, from)),
        gen_externals(c, externals, from).is_ok(),
    ensures
        all_apart(gen_externals(c, externals, from).unwrap().state),
    decreases externals.len() - from,
{
    if from < externals.len() {
        let first = gen_external(c, externals[from]).unwrap();
        match externals[from] {
            External::FuncDef(d) => {
                lemma_not_defined_before(externals, from, from);
                lemma_func_def_keeps_apart(c, d, global_scope(), definitions(externals, from));
            },
            _ => {
                assert(first.state.scopes == c.scopes);
                assert forall|func: Seq<char>| #[trigger] function_apart(first.state, func) by {
                    assert(function_apart(c, func));
                }
            },
        }
        lemma_externals_keep_apart(first.state, externals, from + 1);
    }
}

/// Global variables allotted one behind the other lie in a row.
proof fn lemma_allot_globals(
    structs: Map<Seq<char>, StructView>,
    externals: Seq<External>,
    from: int,
    vars: Variables,
    cursor: nat,
)
    requires
        0 <= from,
        in_a_row(vars, VarStorageType::Global, cursor),
        allot_globals(structs, externals, from, vars, cursor).is_ok(),
    ensures
        ({
            let a = allot_globals(structs, externals, from, vars, cursor).unwrap();
            in_a_row(a.variables, VarStorageType::Global, a.cursor)
        }),
    decreases externals.len() - from,
{
    if from < externals.len() {
        match externals[from] {
            External::VarDecl(d) => {
                let v = allot(structs, d, VarStorageType::Global, cursor).unwrap();
                lemma_allot_globals(
                    structs,
                    externals,
                    from + 1,
                    vars.insert(v.name, v),
                    cursor + v.size,
                );
            },
            _ => {
                lemma_allot_globals(structs, externals, from + 1, vars, cursor);
            },
        }
    }
}

/// No two variables that live together share a word.
///
/// When a compiler that has no scope yet compiles a program in which no
/// function is defined twice, then afterwards, for every function, any two
/// variables of the scopes of the function lie apart: two local variables
/// have disjoint offset ranges, wherever their blocks stand, two arguments
/// likewise, and a local variable and an argument lie in different storage
/// classes. The same holds of the global variables among themselves.
pub proof fn lemma_program_variables_disjoint(c: CompilerView, root: RootAstNode)
    requires
        c.scopes == Map::<Seq<char>, ScopeView>::empty(),
        defined_once(root.externals@),
        gen_root(c, root).is_ok(),
    ensures
        all_apart(gen_root(c, root).unwrap().state),
        forall|func: Seq<char>| #[trigger] function_disjoint(gen_root(c, root).unwrap().state, func),
{
    let g = allot_globals(c.structs, root.externals@, 0, Map::empty(), 0).unwrap();
    lemma_allot_globals(c.structs, root.externals@, 0, Map::empty(), 0);
    let c1 = CompilerView {
        scopes: c.scopes.insert(global_scope(), global_scope_view(g.variables)),
        ..c
    };
    assert forall|func: Seq<char>| #[trigger] function_apart(c1, func) by {
        assert forall|s: Seq<char>| c1.scopes.contains_key(s) implies s == global_scope() by {}
    }
    lemma_externals_keep_apart(c1, root.externals@, 0);
    let state = gen_root(c, root).unwrap().state;
    assert forall|func: Seq<char>| #[trigger] function_disjoint(state, func) by {
        assert(function_apart(state, func));
        assert forall|s1: Seq<char>, n1: Seq<char>, s2: Seq<char>, n2: Seq<char>|
            #![trigger state.scopes[s1].variables[n1], state.scopes[s2].variables[n2]]
            {
                &&& state.scopes.contains_key(s1)
                &&& state.scopes.contains_key(s2)
                &&& state.scopes[s1].parent_func == func
                &&& state.scopes[s2].parent_func == func
                &&& state.scopes[s1].variables.contains_key(n1)
                &&& state.scopes[s2].variables.contains_key(n2)
                &&& (s1 != s2 || n1 != n2)
            } implies state.scopes[s1].variables[n1].disjoint(state.scopes[s2].variables[n2]) by {
            lemma_apart_is_disjoint(
                state.scopes[s1].variables[n1],
                state.scopes[s2].variables[n2],
            );
        }
    }
}

} // verus!
