//! What code generation leaves alone.
//!
//! Expressions change the label counter and the table of string literals
//! and nothing else. Statements also mark names as declared and give loops
//! their labels, but they never touch the variables of a scope, nor the
//! function that a scope belongs to.

use vstd::prelude::*;
use crate::ast::{
    ArrayRef,
    Assignment,
    Decl,
    DoWhileLoop,
    Expression,
    ForLoop,
    FuncCall,
    If,
    NameRef,
    Statement,
    StructRef,
    TernaryOp,
    UnaryOp,
    UnaryOpKind,
    WhileLoop,
};
use crate::compiler::CompilerView;
use crate::error::CompileError;
use crate::instruction::{LabelKind, TempLabel};
use crate::lowering::{
    codegen_name,
    gen_args,
    gen_array_ref,
    gen_assignment,
    gen_call,
    gen_indices,
    gen_struct_ref,
    gen_ternary,
    gen_unary,
    left_gen,
    right_gen,
    Emitted,
};
use crate::names::type_of_name;
use crate::sizing::array_item_size;
use crate::statement::{
    gen_compound,
    gen_decl,
    gen_do_while,
    gen_for,
    gen_for_head,
    gen_if,
    gen_init_items,
    gen_statement,
    gen_while,
};
use crate::symbols::{LoopLabels, ScopeView, VariableView};
use crate::types::VariableTypeView;

verus! {

/// Whether `r`, where it succeeds from state `c`, leaves the scopes, the
/// functions and the structures of `c` as they are.
pub open spec fn keeps_tables(c: CompilerView, r: Result<Emitted, CompileError>) -> bool {
    r matches Ok(out) ==> {
        &&& out.state.scopes == c.scopes
        &&& out.state.funcs == c.funcs
        &&& out.state.structs == c.structs
        &&& out.state.program_index == c.program_index
    }
}

/// The value of an expression leaves the tables alone.
pub proof fn lemma_right_gen_keeps_tables(c: CompilerView, node: Expression, scope: Seq<char>)
    ensures
        keeps_tables(c, right_gen(c, node, scope)),
    decreases node,
{
    match node {
        Expression::BinaryOp(op) => {
            lemma_right_gen_keeps_tables(c, *op.left, scope);
            match right_gen(c, *op.left, scope) {
                Ok(l) => {
                    lemma_right_gen_keeps_tables(l.state, *op.right, scope);
                },
                Err(_) => {},
            }
        },
        Expression::UnaryOp(op) => {
            lemma_gen_unary_keeps_tables(c, op, scope);
        },
        Expression::Assignment(a) => {
            lemma_gen_assignment_keeps_tables(c, a, scope);
        },
        Expression::TernaryOp(t) => {
            lemma_gen_ternary_keeps_tables(c, t, scope);
        },
        Expression::FuncCall(f) => {
            lemma_gen_call_keeps_tables(c, f, scope);
        },
        Expression::NameRef(n) => {
            lemma_codegen_name_keeps_tables(c, n, scope);
        },
        Expression::Cast(cast) => {
            lemma_right_gen_keeps_tables(c, *cast.expr, scope);
        },
        _ => {},
    }
}

/// A unary operation leaves the tables alone.
pub proof fn lemma_gen_unary_keeps_tables(c: CompilerView, op: UnaryOp, scope: Seq<char>)
    ensures
        keeps_tables(c, gen_unary(c, op, scope)),
    decreases op,
{
    match op.op {
        UnaryOpKind::Negate | UnaryOpKind::Not | UnaryOpKind::Dereference => {
            lemma_right_gen_keeps_tables(c, *op.expr, scope);
        },
        UnaryOpKind::SizeOf => {},
        _ => {
            lemma_left_gen_keeps_tables(c, *op.expr, scope);
        },
    }
}

/// A conditional expression leaves the tables alone.
pub proof fn lemma_gen_ternary_keeps_tables(c: CompilerView, t: TernaryOp, scope: Seq<char>)
    ensures
        keeps_tables(c, gen_ternary(c, t, scope)),
    decreases t,
{
    match c.inc_tmp_label() {
        Ok(c1) => {
            lemma_right_gen_keeps_tables(c1, *t.cond, scope);
            match right_gen(c1, *t.cond, scope) {
                Ok(cond) => {
                    lemma_right_gen_keeps_tables(cond.state, *t.if_true, scope);
                    match right_gen(cond.state, *t.if_true, scope) {
                        Ok(yes) => {
                            lemma_right_gen_keeps_tables(yes.state, *t.if_false, scope);
                        },
                        Err(_) => {},
                    }
                },
                Err(_) => {},
            }
        },
        Err(_) => {},
    }
}

/// The arguments of a call leave the tables alone.
pub proof fn lemma_gen_args_keeps_tables(
    c: CompilerView,
    args: Seq<Expression>,
    upto: int,
    scope: Seq<char>,
)
    ensures
        keeps_tables(c, gen_args(c, args, upto, scope)),
    decreases args, upto,
{
    if 0 < upto <= args.len() {
        lemma_right_gen_keeps_tables(c, args[upto - 1], scope);
        match right_gen(c, args[upto - 1], scope) {
            Ok(v) => {
                lemma_gen_args_keeps_tables(v.state, args, upto - 1, scope);
            },
            Err(_) => {},
        }
    }
}

/// A call leaves the tables alone.
pub proof fn lemma_gen_call_keeps_tables(c: CompilerView, f: FuncCall, scope: Seq<char>)
    ensures
        keeps_tables(c, gen_call(c, f, scope)),
    decreases f,
{
    lemma_gen_args_keeps_tables(c, f.args@, f.args@.len() as int, scope);
}

/// An assignment leaves the tables alone.
pub proof fn lemma_gen_assignment_keeps_tables(c: CompilerView, a: Assignment, scope: Seq<char>)
    ensures
        keeps_tables(c, gen_assignment(c, a, scope)),
    decreases a,
{
    lemma_left_gen_keeps_tables(c, *a.lvalue, scope);
    match left_gen(c, *a.lvalue, scope) {
        Ok(l) => {
            lemma_right_gen_keeps_tables(l.state, *a.rvalue, scope);
        },
        Err(_) => {},
    }
}

/// The address of an expression leaves the tables alone.
pub proof fn lemma_left_gen_keeps_tables(c: CompilerView, node: Expression, scope: Seq<char>)
    ensures
        keeps_tables(c, left_gen(c, node, scope)),
    decreases node,
{
    match node {
        Expression::UnaryOp(uop) => {
            if uop.op == UnaryOpKind::Dereference {
                lemma_left_gen_keeps_tables(c, *uop.expr, scope);
            }
        },
        Expression::NameRef(name) => {
            lemma_codegen_name_keeps_tables(c, name, scope);
        },
        _ => {},
    }
}

/// The address of a name leaves the tables alone.
pub proof fn lemma_codegen_name_keeps_tables(c: CompilerView, node: NameRef, scope: Seq<char>)
    ensures
        keeps_tables(c, codegen_name(c, node, scope)),
    decreases node,
{
    match node {
        NameRef::Id(_) => {},
        NameRef::ArrayRef(array_ref) => {
            lemma_gen_array_ref_keeps_tables(c, array_ref, scope);
        },
        NameRef::StructRef(struct_ref) => {
            lemma_gen_struct_ref_keeps_tables(c, struct_ref, scope);
        },
    }
}

/// The address of a field leaves the tables alone.
pub proof fn lemma_gen_struct_ref_keeps_tables(c: CompilerView, s: StructRef, scope: Seq<char>)
    ensures
        keeps_tables(c, gen_struct_ref(c, s, scope)),
    decreases s,
{
    lemma_codegen_name_keeps_tables(c, *s.name, scope);
}

/// The indices of an array access leave the tables alone.
pub proof fn lemma_gen_indices_keeps_tables(
    c: CompilerView,
    indices: Seq<Expression>,
    dims: Seq<u32>,
    item_size: nat,
    upto: int,
    scope: Seq<char>,
)
    ensures
        keeps_tables(c, gen_indices(c, indices, dims, item_size, upto, scope)),
    decreases indices, upto,
{
    if 0 < upto <= indices.len() {
        lemma_right_gen_keeps_tables(c, indices[upto - 1], scope);
        match right_gen(c, indices[upto - 1], scope) {
            Ok(v) => {
                lemma_gen_indices_keeps_tables(v.state, indices, dims, item_size, upto - 1, scope);
            },
            Err(_) => {},
        }
    }
}

/// The address of an item of an array leaves the tables alone.
pub proof fn lemma_gen_array_ref_keeps_tables(c: CompilerView, a: ArrayRef, scope: Seq<char>)
    ensures
        keeps_tables(c, gen_array_ref(c, a, scope)),
    decreases a,
{
    lemma_codegen_name_keeps_tables(c, *a.name, scope);
    match codegen_name(c, *a.name, scope) {
        Ok(base) => {
            match type_of_name(base.state, *a.name, scope) {
                Ok(VariableTypeView::Array { item, dimensions }) => {
                    match array_item_size(base.state.structs, *item) {
                        Ok(item_size) => {
                            lemma_gen_indices_keeps_tables(
                                base.state,
                                a.indices@,
                                dimensions,
                                item_size,
                                a.indices@.len() as int,
                                scope,
                            );
                        },
                        Err(_) => {},
                    }
                },
                _ => {},
            }
        },
        Err(_) => {},
    }
}

/// What a scope holds for the layout of its function: the function that it
/// belongs to and its variables.
pub struct Slots {
    pub parent_func: Seq<char>,
    pub variables: Map<Seq<char>, VariableView>,
}

/// The slots of every scope.
pub open spec fn slots(c: CompilerView) -> Map<Seq<char>, Slots> {
    c.scopes.map_values(
        |s: ScopeView| Slots { parent_func: s.parent_func, variables: s.variables },
    )
}

/// Whether `r`, where it succeeds from state `c`, leaves the slots of every
/// scope, the functions and the structures of `c` as they are.
pub open spec fn keeps_slots(c: CompilerView, r: Result<Emitted, CompileError>) -> bool {
    r matches Ok(out) ==> {
        &&& slots(out.state) == slots(c)
        &&& out.state.funcs == c.funcs
        &&& out.state.structs == c.structs
        &&& out.state.program_index == c.program_index
    }
}

/// Marking a name as declared leaves the slots alone.
pub proof fn lemma_declaring_keeps_slots(c: CompilerView, name: Seq<char>, scope: Seq<char>)
    requires
        c.update_var_declared(name, scope).is_ok(),
    ensures
        slots(c.update_var_declared(name, scope).unwrap()) == slots(c),
{
    assert(slots(c.update_var_declared(name, scope).unwrap()) =~= slots(c));
}

/// Giving a loop its labels leaves the slots alone.
pub proof fn lemma_labelling_keeps_slots(c: CompilerView, scope: Seq<char>, labels: LoopLabels)
    requires
        c.update_scope_labels(scope, labels).is_ok(),
    ensures
        slots(c.update_scope_labels(scope, labels).unwrap()) == slots(c),
{
    assert(slots(c.update_scope_labels(scope, labels).unwrap()) =~= slots(c));
}

/// The initializers of an array leave the tables alone.
pub proof fn lemma_gen_init_items_keeps_tables(
    c: CompilerView,
    init: Seq<Expression>,
    from: int,
    item_size: nat,
    scope: Seq<char>,
)
    ensures
        keeps_tables(c, gen_init_items(c, init, from, item_size, scope)),
    decreases init.len() - from,
{
    if 0 <= from < init.len() {
        lemma_right_gen_keeps_tables(c, init[from], scope);
        match right_gen(c, init[from], scope) {
            Ok(v) => {
                lemma_gen_init_items_keeps_tables(v.state, init, from + 1, item_size, scope);
            },
            Err(_) => {},
        }
    }
}

/// A declaration leaves the slots alone.
pub proof fn lemma_gen_decl_keeps_slots(c: CompilerView, decl: Decl, scope: Seq<char>)
    ensures
        keeps_slots(c, gen_decl(c, decl, scope)),
{
    match c.update_var_declared(decl.name(), scope) {
        Ok(c1) => {
            lemma_declaring_keeps_slots(c, decl.name(), scope);
            match decl {
                Decl::VarDecl(d) => {
                    match d.init {
                        Some(expr) => {
                            lemma_right_gen_keeps_tables(c1, expr, scope);
                        },
                        None => {},
                    }
                },
                Decl::ArrayDecl(d) => {
                    match d.init {
                        Some(init) => {
                            match c1.find_variable(d.name@, scope) {
                                Ok(Some(v)) => {
                                    match v.var_type {
                                        VariableTypeView::Array { item, .. } => {
                                            match array_item_size(c1.structs, *item) {
                                                Ok(item_size) => {
                                                    lemma_gen_init_items_keeps_tables(
                                                        c1,
                                                        init@,
                                                        0,
                                                        item_size,
                                                        scope,
                                                    );
                                                },
                                                Err(_) => {},
                                            }
                                        },
                                        _ => {},
                                    }
                                },
                                _ => {},
                            }
                        },
                        None => {},
                    }
                },
            }
        },
        Err(_) => {},
    }
}

/// A sequence of statements leaves the slots alone.
pub proof fn lemma_gen_compound_keeps_slots(
    c: CompilerView,
    items: Seq<Statement>,
    from: int,
    scope: Seq<char>,
)
    ensures
        keeps_slots(c, gen_compound(c, items, from, scope)),
    decreases items, items.len() - from,
{
    if 0 <= from < items.len() {
        lemma_gen_statement_keeps_slots(c, items[from], scope);
        match gen_statement(c, items[from], scope) {
            Ok(first) => {
                lemma_gen_compound_keeps_slots(first.state, items, from + 1, scope);
            },
            Err(_) => {},
        }
    }
}

/// A statement leaves the slots alone.
pub proof fn lemma_gen_statement_keeps_slots(c: CompilerView, stmt: Statement, scope: Seq<char>)
    ensures
        keeps_slots(c, gen_statement(c, stmt, scope)),
    decreases stmt,
{
    match stmt {
        Statement::Return(ret) => {
            match ret.expr {
                Some(e) => {
                    lemma_right_gen_keeps_tables(c, e, scope);
                },
                None => {},
            }
        },
        Statement::Decl(decl) => {
            lemma_gen_decl_keeps_slots(c, decl, scope);
        },
        Statement::Assignment(a) => {
            lemma_gen_assignment_keeps_tables(c, a, scope);
        },
        Statement::Expression(e) => {
            lemma_right_gen_keeps_tables(c, e, scope);
        },
        Statement::If(s) => {
            lemma_gen_if_keeps_slots(c, s, scope);
        },
        Statement::Compound(comp) => {
            lemma_gen_compound_keeps_slots(c, comp.items@, 0, comp.code_loc@);
        },
        Statement::WhileLoop(l) => {
            lemma_gen_while_keeps_slots(c, l, scope);
        },
        Statement::DoWhileLoop(l) => {
            lemma_gen_do_while_keeps_slots(c, l, scope);
        },
        Statement::ForLoop(l) => {
            lemma_gen_for_keeps_slots(c, l, scope);
        },
        _ => {},
    }
}

/// An `if` leaves the slots alone.
pub proof fn lemma_gen_if_keeps_slots(c: CompilerView, s: If, scope: Seq<char>)
    ensures
        keeps_slots(c, gen_if(c, s, scope)),
    decreases s,
{
    match c.inc_tmp_label() {
        Ok(c1) => {
            lemma_right_gen_keeps_tables(c1, s.cond, scope);
            match right_gen(c1, s.cond, scope) {
                Ok(cond) => {
                    lemma_gen_compound_keeps_slots(
                        cond.state,
                        s.if_true.items@,
                        0,
                        s.if_true.code_loc@,
                    );
                    match gen_compound(cond.state, s.if_true.items@, 0, s.if_true.code_loc@) {
                        Ok(yes) => {
                            match s.if_false {
                                Some(other) => {
                                    lemma_gen_compound_keeps_slots(
                                        yes.state,
                                        other.items@,
                                        0,
                                        other.code_loc@,
                                    );
                                },
                                None => {},
                            }
                        },
                        Err(_) => {},
                    }
                },
                Err(_) => {},
            }
        },
        Err(_) => {},
    }
}

/// The condition and the body of a loop whose scope has just been given
/// its labels.
proof fn lemma_loop_keeps_slots(
    c: CompilerView,
    cond: Expression,
    body: Seq<Statement>,
    code_loc: Seq<char>,
    labels: LoopLabels,
    scope: Seq<char>,
)
    requires
        c.inc_tmp_label().is_ok(),
        c.inc_tmp_label().unwrap().update_scope_labels(code_loc, labels).is_ok(),
    ensures
        ({
            let c2 = c.inc_tmp_label().unwrap().update_scope_labels(code_loc, labels).unwrap();
            &&& slots(c2) == slots(c)
            &&& c2.funcs == c.funcs
            &&& c2.structs == c.structs
            &&& c2.program_index == c.program_index
            &&& keeps_tables(c2, right_gen(c2, cond, scope))
            &&& right_gen(c2, cond, scope) matches Ok(v) ==> keeps_slots(
                v.state,
                gen_compound(v.state, body, 0, code_loc),
            )
        }),
    decreases body, body.len() + 1,
{
    let c1 = c.inc_tmp_label().unwrap();
    lemma_labelling_keeps_slots(c1, code_loc, labels);
    let c2 = c1.update_scope_labels(code_loc, labels).unwrap();
    lemma_right_gen_keeps_tables(c2, cond, scope);
    match right_gen(c2, cond, scope) {
        Ok(v) => {
            lemma_gen_compound_keeps_slots(v.state, body, 0, code_loc);
        },
        Err(_) => {},
    }
}

/// A `while` loop leaves the slots alone.
pub proof fn lemma_gen_while_keeps_slots(c: CompilerView, l: WhileLoop, scope: Seq<char>)
    ensures
        keeps_slots(c, gen_while(c, l, scope)),
    decreases l,
{
    let labels = LoopLabels {
        break_label: c.tmp_label(LabelKind::WhileEnd),
        continue_label: c.tmp_label(LabelKind::WhileStart),
    };
    if c.inc_tmp_label().is_ok() && c.inc_tmp_label().unwrap().update_scope_labels(
        l.code_loc@,
        labels,
    ).is_ok() {
        lemma_loop_keeps_slots(c, l.cond, l.body.items@, l.code_loc@, labels, scope);
    }
}

/// A `do`-`while` loop leaves the slots alone.
pub proof fn lemma_gen_do_while_keeps_slots(c: CompilerView, l: DoWhileLoop, scope: Seq<char>)
    ensures
        keeps_slots(c, gen_do_while(c, l, scope)),
    decreases l,
{
    let labels = LoopLabels {
        break_label: c.tmp_label(LabelKind::DoWhileEnd),
        continue_label: c.tmp_label(LabelKind::DoWhileCond),
    };
    if c.inc_tmp_label().is_ok() && c.inc_tmp_label().unwrap().update_scope_labels(
        l.code_loc@,
        labels,
    ).is_ok() {
        lemma_loop_keeps_slots(c, l.cond, l.body.items@, l.code_loc@, labels, scope);
    }
}

/// The head of a `for` loop leaves the slots alone.
pub proof fn lemma_gen_for_head_keeps_slots(
    c: CompilerView,
    l: ForLoop,
    cond_label: TempLabel,
    end: TempLabel,
)
    ensures
        keeps_slots(c, gen_for_head(c, l, cond_label, end)),
    decreases l, 0nat,
{
    let init = match l.init {
        Some(i) => {
            lemma_gen_compound_keeps_slots(c, i.items@, 0, l.code_loc@);
            gen_compound(c, i.items@, 0, l.code_loc@)
        },
        None => Ok(Emitted::nothing(c)),
    };
    match init {
        Ok(init) => {
            match l.cond {
                Some(e) => {
                    lemma_right_gen_keeps_tables(init.state, e, l.code_loc@);
                },
                None => {},
            }
        },
        Err(_) => {},
    }
}

/// A `for` loop leaves the slots alone.
pub proof fn lemma_gen_for_keeps_slots(c: CompilerView, l: ForLoop, scope: Seq<char>)
    ensures
        keeps_slots(c, gen_for(c, l, scope)),
    decreases l, 1nat,
{
    let cond_label = c.tmp_label(LabelKind::ForCond);
    let end = c.tmp_label(LabelKind::ForEnd);
    let next_label = c.tmp_label(LabelKind::ForNext);
    let labels = LoopLabels { break_label: end, continue_label: next_label };
    match c.inc_tmp_label() {
        Ok(c1) => {
            match c1.update_scope_labels(l.code_loc@, labels) {
                Ok(c2) => {
                    lemma_labelling_keeps_slots(c1, l.code_loc@, labels);
                    lemma_gen_for_head_keeps_slots(c2, l, cond_label, end);
                    match gen_for_head(c2, l, cond_label, end) {
                        Ok(head) => {
                            lemma_gen_compound_keeps_slots(
                                head.state,
                                l.body.items@,
                                0,
                                l.code_loc@,
                            );
                            match gen_compound(head.state, l.body.items@, 0, l.code_loc@) {
                                Ok(body) => {
                                    match l.next {
                                        Some(n) => {
                                            lemma_gen_compound_keeps_slots(
                                                body.state,
                                                n.items@,
                                                0,
                                                l.code_loc@,
                                            );
                                        },
                                        None => {},
                                    }
                                },
                                Err(_) => {},
                            }
                        },
                        Err(_) => {},
                    }
                },
                Err(_) => {},
            }
        },
        Err(_) => {},
    }
}

} // verus!
