//! Theorems about name resolution, the layout of structures, and the code
//! that calls, pointer steps and array accesses lower to.

use vstd::prelude::*;
use crate::ast::{
    Decl,
    Expression,
    FuncCall,
    Id,
    NameRef,
    Statement,
    StructDecl,
    UnaryOp,
    UnaryOpKind,
};
use crate::compiler::{global_scope, CompilerView};
use crate::error::CompileError;
use crate::instruction::{repeat, AluOp, Instr, Label, Register};
use crate::lowering::{
    alu_imm,
    call_epilogue,
    codegen_name,
    gen_args,
    gen_call,
    gen_unary,
    left_gen,
    pop,
    push,
    right_gen,
    step_code,
    step_of,
    stride,
    Emitted,
};
use crate::names::{var_address, Code};
use crate::registry::{allot, layout_from, struct_layout};
use crate::sizing::{decl_size, lemma_product_first, type_size};
use crate::statement::gen_statement;
use crate::structs::{lemma_without_field, put_field, StructView};
use crate::symbols::{VarStorageType, VariableView};
use crate::types::{TypeView, VariableTypeView};

verus! {

/// A name resolves in the innermost scope: where `scope` itself has the
/// variable `name` and has seen its declaration, that variable is found,
/// whatever the enclosing scopes hold under the same name.
pub proof fn lemma_innermost_scope_wins(c: CompilerView, name: Seq<char>, scope: Seq<char>)
    requires
        c.scopes.dom().finite(),
        c.scopes.contains_key(scope),
        c.scopes[scope].variables.contains_key(name),
        c.scopes[scope].declared.contains(name),
    ensures
        c.find_variable(name, scope) == Ok::<Option<VariableView>, CompileError>(
            Some(c.scopes[scope].variables[name]),
        ),
{
    assert(c.scopes.dom().contains(scope));
    if c.scopes.dom().len() == 0 {
        assert(c.scopes.dom() =~= Set::empty());
    }
}

/// A scope in which `name` does not resolve hands the search to its parent.
pub proof fn lemma_search_goes_outwards(
    c: CompilerView,
    name: Seq<char>,
    scope: Seq<char>,
    fuel: nat,
)
    requires
        fuel > 0,
        c.scopes.contains_key(scope),
        scope != global_scope(),
        c.scopes[scope].resolve(name).is_none(),
    ensures
        c.find_variable_within(name, scope, fuel) == c.find_variable_within(
            name,
            c.scopes[scope].parent_scope,
            (fuel - 1) as nat,
        ),
{
}

/// A name does not resolve before its declaration: while no scope has seen
/// the declaration of `name`, no search finds a variable, though every
/// scope may already hold the slot of one. This is so for every bound on
/// the length of the search.
pub proof fn lemma_undeclared_name_is_not_found(
    c: CompilerView,
    name: Seq<char>,
    scope: Seq<char>,
    fuel: nat,
)
    requires
        forall|s: Seq<char>| c.scopes.contains_key(s) ==> !c.scopes[s].declared.contains(name),
    ensures
        !(c.find_variable_within(name, scope, fuel) matches Ok(Some(_))),
    decreases fuel,
{
    if fuel > 0 && c.scopes.contains_key(scope) && scope != global_scope() {
        lemma_undeclared_name_is_not_found(
            c,
            name,
            c.scopes[scope].parent_scope,
            (fuel - 1) as nat,
        );
    }
}

/// A variable cannot be used before its declaration: while no scope has
/// seen the declaration of the identifier, neither its address nor its
/// value can be generated.
pub proof fn lemma_use_before_declaration(c: CompilerView, id: Id, scope: Seq<char>)
    requires
        forall|s: Seq<char>| c.scopes.contains_key(s) ==> !c.scopes[s].declared.contains(id.name@),
    ensures
        var_address(c, id.name@, scope).is_err(),
        left_gen(c, Expression::NameRef(NameRef::Id(id)), scope).is_err(),
        right_gen(c, Expression::NameRef(NameRef::Id(id)), scope).is_err(),
{
    lemma_undeclared_name_is_not_found(c, id.name@, scope, c.scopes.dom().len());
    assert(codegen_name(c, NameRef::Id(id), scope).is_err());
}

/// Once the declaration of `name` in `scope` has been emitted, the name
/// resolves from `scope` to the variable of that scope.
pub proof fn lemma_declared_name_is_found(c: CompilerView, name: Seq<char>, scope: Seq<char>)
    requires
        c.scopes.dom().finite(),
        c.scopes.contains_key(scope),
        c.scopes[scope].variables.contains_key(name),
    ensures
        c.update_var_declared(name, scope).is_ok(),
        c.update_var_declared(name, scope).unwrap().find_variable(name, scope) == Ok::<
            Option<VariableView>,
            CompileError,
        >(Some(c.scopes[scope].variables[name])),
{
    let after = c.update_var_declared(name, scope).unwrap();
    assert(after.scopes.dom() =~= c.scopes.dom());
    lemma_innermost_scope_wins(after, name, scope);
}

/// Where no scope is the body of a loop, no search for the labels of a loop
/// finds any, however long it may go on.
pub proof fn lemma_no_loop_no_labels(c: CompilerView, scope: Seq<char>, fuel: nat)
    requires
        forall|s: Seq<char>| c.scopes.contains_key(s) ==> c.scopes[s].labels.is_none(),
    ensures
        !(c.find_labels_within(scope, fuel) matches Ok(Some(_))),
    decreases fuel,
{
    if fuel > 0 && c.scopes.contains_key(scope) && scope != global_scope() {
        lemma_no_loop_no_labels(c, c.scopes[scope].parent_scope, (fuel - 1) as nat);
    }
}

/// Where no scope is the body of a loop, `break` and `continue` are
/// rejected wherever they stand.
pub proof fn lemma_break_needs_a_loop(c: CompilerView, scope: Seq<char>)
    requires
        forall|s: Seq<char>| c.scopes.contains_key(s) ==> c.scopes[s].labels.is_none(),
    ensures
        gen_statement(c, Statement::Break, scope).is_err(),
        gen_statement(c, Statement::Continue, scope).is_err(),
{
    lemma_no_loop_no_labels(c, scope, c.scopes.dom().len());
}

/// `break` directly in the body of a function, outside every loop, fails
/// with [`CompileError::LoopScopeNotFound`], and so does `continue`.
pub proof fn lemma_break_outside_loop(c: CompilerView, scope: Seq<char>)
    requires
        c.scopes.dom().finite(),
        scope != global_scope(),
        c.scopes.contains_key(scope),
        c.scopes.contains_key(global_scope()),
        c.scopes[scope].parent_scope == global_scope(),
        c.scopes[scope].labels.is_none(),
        c.scopes[global_scope()].labels.is_none(),
    ensures
        gen_statement(c, Statement::Break, scope) == Err::<Emitted, CompileError>(
            CompileError::LoopScopeNotFound,
        ),
        gen_statement(c, Statement::Continue, scope) == Err::<Emitted, CompileError>(
            CompileError::LoopScopeNotFound,
        ),
{
    let dom = c.scopes.dom();
    let two = set![scope, global_scope()];
    assert(two.len() == 2) by {
        assert(set![scope].insert(global_scope()) =~= two);
    }
    vstd::set_lib::lemma_len_subset(two, dom);
    let fuel = dom.len();
    assert(c.find_labels_within(global_scope(), (fuel - 1) as nat) == Ok::<
        Option<crate::symbols::LoopLabels>,
        CompileError,
    >(None));
}

/// The sum of the sizes of the first `n` of `fields`.
pub open spec fn size_before(fields: Seq<VariableView>, n: int) -> nat
    decreases n,
{
    if n <= 0 || n > fields.len() {
        0
    } else {
        size_before(fields, n - 1) + fields[n - 1].size
    }
}

/// Whether `fields` are the fields that `decls` declare, in order, each at
/// the offset at which the one before it ends.
pub open spec fn laid_out(
    structs: Map<Seq<char>, StructView>,
    decls: Seq<Decl>,
    fields: Seq<VariableView>,
) -> bool {
    &&& fields.len() <= decls.len()
    &&& forall|i: int|
        0 <= i < fields.len() ==> {
            &&& (#[trigger] fields[i]).name == decls[i].name()
            &&& decl_size(structs, decls[i]) == Ok::<nat, CompileError>(fields[i].size)
            &&& fields[i].offset == size_before(fields, i)
        }
}

proof fn lemma_size_before_push(fields: Seq<VariableView>, v: VariableView, n: int)
    requires
        0 <= n <= fields.len(),
    ensures
        size_before(fields.push(v), n) == size_before(fields, n),
    decreases n,
{
    if n > 0 {
        lemma_size_before_push(fields, v, n - 1);
        assert(fields.push(v)[n - 1] == fields[n - 1]);
    }
}

proof fn lemma_layout_from(
    structs: Map<Seq<char>, StructView>,
    decls: Seq<Decl>,
    from: int,
    fields: Seq<VariableView>,
    size: nat,
)
    requires
        0 <= from <= decls.len(),
        fields.len() == from,
        laid_out(structs, decls, fields),
        size == size_before(fields, from),
        forall|i: int, j: int|
            0 <= i < decls.len() && 0 <= j < decls.len() && i != j ==> decls[i].name()
                != decls[j].name(),
        layout_from(structs, decls, from, fields, size).is_ok(),
    ensures
        ({
            let l = layout_from(structs, decls, from, fields, size).unwrap();
            &&& l.fields.len() == decls.len()
            &&& laid_out(structs, decls, l.fields)
            &&& l.size == size_before(l.fields, l.fields.len() as int)
        }),
    decreases decls.len() - from,
{
    if from < decls.len() {
        let v = allot(structs, decls[from], VarStorageType::Local, size).unwrap();
        lemma_without_field(fields, v.name);
        assert forall|i: int| 0 <= i < fields.len() implies fields[i].name != v.name by {
            assert(fields[i].name == decls[i].name());
        }
        let next = put_field(fields, v);
        assert(next == fields.push(v));
        assert forall|i: int| 0 <= i < next.len() implies {
            &&& (#[trigger] next[i]).name == decls[i].name()
            &&& decl_size(structs, decls[i]) == Ok::<nat, CompileError>(next[i].size)
            &&& next[i].offset == size_before(next, i)
        } by {
            lemma_size_before_push(fields, v, if i < from { i } else { from });
            if i < from {
                assert(next[i] == fields[i]);
            }
        }
        lemma_size_before_push(fields, v, from);
        lemma_layout_from(structs, decls, from + 1, next, size + v.size);
    }
}

/// The layout of a structure whose fields have distinct names: the fields
/// stand in the order of their declaration; the first has offset 0; the
/// offset of each is the sum of the sizes of those before it; and the size
/// of the structure is the sum of the sizes of all its fields. There is no
/// padding.
pub proof fn lemma_struct_layout(structs: Map<Seq<char>, StructView>, decl: StructDecl)
    requires
        struct_layout(structs, decl).is_ok(),
        forall|i: int, j: int|
            0 <= i < decl.items@.len() && 0 <= j < decl.items@.len() && i != j
                ==> decl.items@[i].name() != decl.items@[j].name(),
    ensures
        ({
            let l = struct_layout(structs, decl).unwrap();
            &&& l.fields.len() == decl.items@.len()
            &&& forall|i: int|
                0 <= i < l.fields.len() ==> {
                    &&& (#[trigger] l.fields[i]).name == decl.items@[i].name()
                    &&& decl_size(structs, decl.items@[i]) == Ok::<nat, CompileError>(
                        l.fields[i].size,
                    )
                    &&& l.fields[i].offset == size_before(l.fields, i)
                }
            &&& l.fields.len() > 0 ==> l.fields[0].offset == 0
            &&& l.size == size_before(l.fields, l.fields.len() as int)
        }),
{
    lemma_layout_from(structs, decl.items@, 0, Seq::empty(), 0);
}

/// Offsets grow with the sizes before them: a later field never starts
/// before an earlier one ends, and it starts strictly behind the start of
/// the earlier one where the earlier one has a size.
pub proof fn lemma_offsets_increase(fields: Seq<VariableView>, i: int, j: int)
    requires
        0 <= i < j <= fields.len(),
    ensures
        size_before(fields, i) + fields[i].size <= size_before(fields, j),
    decreases j - i,
{
    if j > i + 1 {
        lemma_offsets_increase(fields, i, j - 1);
    }
}

/// How often `instr` occurs in `code`.
pub open spec fn count(code: Code, instr: Instr<Seq<char>>) -> nat
    decreases code.len(),
{
    if code.len() == 0 {
        0
    } else {
        count(code.drop_last(), instr) + if code.last() == instr {
            1nat
        } else {
            0nat
        }
    }
}

proof fn lemma_count_repeat(other: Instr<Seq<char>>, n: nat, instr: Instr<Seq<char>>)
    requires
        other != instr,
    ensures
        count(repeat(other, n), instr) == 0,
    decreases n,
{
    if n > 0 {
        lemma_count_repeat(other, (n - 1) as nat, instr);
        assert(repeat(other, n).drop_last() =~= repeat(other, (n - 1) as nat));
    }
}

proof fn lemma_count_concat(a: Code, b: Code, instr: Instr<Seq<char>>)
    ensures
        count(a + b, instr) == count(a, instr) + count(b, instr),
    decreases b.len(),
{
    if b.len() == 0 {
        assert(a + b =~= a);
    } else {
        lemma_count_concat(a, b.drop_last(), instr);
        assert((a + b).drop_last() =~= a + b.drop_last());
        assert((a + b).last() == b.last());
    }
}

/// What follows a call instruction pops the result into `R1` exactly once
/// where the function returns a value, and never where it returns none.
pub proof fn lemma_result_popped_once(ret_size: nat, nargs: nat)
    ensures
        count(call_epilogue(ret_size, nargs), pop(Register::R1)) == (if ret_size > 0 {
            1nat
        } else {
            0nat
        }),
        ret_size > 0 ==> call_epilogue(ret_size, nargs)[0] == pop(Register::R1),
{
    let pops = repeat(pop(Register::ZR), nargs);
    lemma_count_repeat(pop(Register::ZR), nargs, pop(Register::R1));
    if ret_size > 0 {
        let first = seq![pop(Register::R1)];
        lemma_count_concat(first, pops, pop(Register::R1));
        assert(first.drop_last() =~= Seq::<Instr<Seq<char>>>::empty());
        assert(count(first.drop_last(), pop(Register::R1)) == 0);
    } else {
        assert(call_epilogue(ret_size, nargs) =~= pops);
    }
}

/// The code of a call ends with the call instruction and what follows it:
/// behind the call instruction the result is popped into `R1` exactly once
/// where the return type has a size, and never where it has none.
pub proof fn lemma_call_shape(c: CompilerView, f: FuncCall, scope: Seq<char>)
    requires
        gen_call(c, f, scope).is_ok(),
    ensures
        ({
            let out = gen_call(c, f, scope).unwrap();
            let args = gen_args(c, f.args@, f.args@.len() as int, scope).unwrap();
            let size = type_size(args.state.structs, c.funcs[f.name@].return_type).unwrap();
            let tail = call_epilogue(size, f.args@.len());
            &&& out.code == args.code + repeat(push(Register::ZR), size) + seq![
                Instr::Call(Label::Function(f.name@)),
            ] + tail
            &&& count(tail, pop(Register::R1)) == (if size > 0 {
                1nat
            } else {
                0nat
            })
        }),
{
    let args = gen_args(c, f.args@, f.args@.len() as int, scope).unwrap();
    let size = type_size(args.state.structs, c.funcs[f.name@].return_type).unwrap();
    lemma_result_popped_once(size, f.args@.len());
    let out = gen_call(c, f, scope).unwrap();
    assert(out.code =~= args.code + repeat(push(Register::ZR), size) + seq![
        Instr::Call(Label::Function(f.name@)),
    ] + call_epilogue(size, f.args@.len()));
}

/// A pointer steps by the size of what it points to: by 1 where that is an
/// integer, a character or a pointer, and by the size of the structure
/// where it is a structure. Everything else steps by 1.
pub proof fn lemma_pointer_step(structs: Map<Seq<char>, StructView>, pointee: TypeView)
    ensures
        step_of(structs, VariableTypeView::Regular { ty: TypeView::Ptr(Box::new(pointee)) })
            == type_size(structs, pointee),
        (pointee is Int || pointee is Char || pointee is Ptr) ==> type_size(structs, pointee)
            == Ok::<nat, CompileError>(1),
        forall|name: Seq<char>|
            pointee == TypeView::Struct(name) && structs.contains_key(name) ==> type_size(
                structs,
                pointee,
            ) == Ok::<nat, CompileError>(structs[name].size),
        forall|ty: TypeView|
            !(ty is Ptr) ==> #[trigger] step_of(structs, VariableTypeView::Regular { ty }) == Ok::<
                nat,
                CompileError,
            >(1),
{
}

/// The code of `p++` and of its siblings adds or subtracts the step of the
/// variable: after the address of the operand, the old value is loaded,
/// stepped by `delta` and stored.
pub proof fn lemma_step_in_code(c: CompilerView, op: UnaryOp, scope: Seq<char>)
    requires
        op.op == UnaryOpKind::PostIncrement || op.op == UnaryOpKind::PreIncrement || op.op
            == UnaryOpKind::PostDecrement || op.op == UnaryOpKind::PreDecrement,
        gen_unary(c, op, scope).is_ok(),
    ensures
        ({
            let address = left_gen(c, *op.expr, scope).unwrap();
            let v = address.state.find_variable(op.id.unwrap().name@, scope).unwrap().unwrap();
            let delta = step_of(address.state.structs, v.var_type).unwrap();
            let arith = if op.op == UnaryOpKind::PostIncrement || op.op
                == UnaryOpKind::PreIncrement {
                AluOp::Add
            } else {
                AluOp::Sub
            };
            &&& gen_unary(c, op, scope).unwrap().code == address.code + step_code(op.op, delta)
            &&& step_code(op.op, delta).contains(
                alu_imm(arith, Register::R2, Register::R2, delta as int),
            )
        }),
{
    let address = left_gen(c, *op.expr, scope).unwrap();
    let v = address.state.find_variable(op.id.unwrap().name@, scope).unwrap().unwrap();
    let delta = step_of(address.state.structs, v.var_type).unwrap();
    let code = step_code(op.op, delta);
    if op.op == UnaryOpKind::PreIncrement || op.op == UnaryOpKind::PreDecrement {
        assert(code[1] == alu_imm(
            if op.op == UnaryOpKind::PreIncrement {
                AluOp::Add
            } else {
                AluOp::Sub
            },
            Register::R2,
            Register::R2,
            delta as int,
        ));
    } else {
        assert(code[2] == alu_imm(
            if op.op == UnaryOpKind::PostIncrement {
                AluOp::Add
            } else {
                AluOp::Sub
            },
            Register::R2,
            Register::R2,
            delta as int,
        ));
    }
}

/// Arrays are laid out row by row: the last index moves by one item, and
/// each index before it by as many items as all the dimensions behind it
/// hold together.
pub proof fn lemma_row_major(dims: Seq<u32>, k: int)
    requires
        0 <= k < dims.len(),
    ensures
        stride(dims, dims.len() - 1) == 1,
        k > 0 ==> stride(dims, k - 1) == dims[k] * stride(dims, k),
{
    assert(dims.subrange(dims.len() as int, dims.len() as int) =~= Seq::<u32>::empty());
    if k > 0 {
        let tail = dims.subrange(k, dims.len() as int);
        lemma_product_first(tail);
        assert(tail.subrange(1, tail.len() as int) =~= dims.subrange(k + 1, dims.len() as int));
    }
}

} // verus!
