//! What expressions lower to.
//!
//! Every function here is a `spec` function: it gives the instructions that
//! an expression lowers to and the state of the compiler afterwards. An
//! expression is lowered in one of two modes: for its value, which the
//! instructions leave in `R1`, or for its address, likewise left in `R1`.

use vstd::prelude::*;
use crate::ast::{
    ArrayRef,
    Assignment,
    BinaryOpKind,
    Constant,
    Expression,
    FuncCall,
    NameRef,
    StructRef,
    TernaryOp,
    UnaryOp,
    UnaryOpKind,
};
use crate::compiler::CompilerView;
use crate::error::CompileError;
use crate::instruction::{repeat, AluOp, Instr, Label, LabelKind, Operand, Register, TestOp};
use crate::literal::{char_literal, string_literal};
use crate::names::{accessed_field, type_of_name, var_address, Code};
use crate::sizing::{array_item_size, product, type_size};
use crate::structs::StructView;
use crate::types::{TypeView, VariableTypeView};

verus! {

/// Instructions, and the state of the compiler after they were emitted.
pub struct Emitted {
    pub state: CompilerView,
    pub code: Code,
}

impl Emitted {
    /// Nothing emitted in state `state`.
    pub open spec fn nothing(state: CompilerView) -> Emitted {
        Emitted { state, code: Seq::empty() }
    }

    /// `self` with `code` emitted after it.
    pub open spec fn and(self, code: Code) -> Emitted {
        Emitted { state: self.state, code: self.code + code }
    }
}

/// `code` emitted in state `state`, where there is code.
pub open spec fn in_state(state: CompilerView, code: Result<Code, CompileError>) -> Result<
    Emitted,
    CompileError,
> {
    match code {
        Err(e) => Err(e),
        Ok(code) => Ok(Emitted { state, code }),
    }
}

/// `done` followed by what `rest` emits, where `rest` emits.
pub open spec fn after(done: Code, rest: Result<Emitted, CompileError>) -> Result<
    Emitted,
    CompileError,
> {
    match rest {
        Err(e) => Err(e),
        Ok(out) => Ok(Emitted { state: out.state, code: done + out.code }),
    }
}

/// Whether a run of the code generator did what `expected` says: on
/// success the compiler is in the expected state and the expected
/// instructions were appended to the code; on failure the expected error is
/// returned.
pub open spec fn generated(
    expected: Result<Emitted, CompileError>,
    r: Result<(), CompileError>,
    state: CompilerView,
    before: Seq<Instr<String>>,
    now: Seq<Instr<String>>,
) -> bool {
    match expected {
        Ok(out) => r.is_ok() && state == out.state && crate::instruction::lines(now)
            == crate::instruction::lines(before) + out.code,
        Err(e) => r == Err::<(), CompileError>(e),
    }
}

pub open spec fn push(r: Register) -> Instr<Seq<char>> {
    Instr::Push(r)
}

pub open spec fn pop(r: Register) -> Instr<Seq<char>> {
    Instr::Pop(r)
}

/// `LOAD dst addr`.
pub open spec fn load(dst: Register, addr: Register) -> Instr<Seq<char>> {
    Instr::Load { dst, addr }
}

/// `STR addr src`.
pub open spec fn store(addr: Register, src: Register) -> Instr<Seq<char>> {
    Instr::Store { addr, src }
}

/// `MOV dst src` for a register `src`.
pub open spec fn mov(dst: Register, src: Register) -> Instr<Seq<char>> {
    Instr::Mov { dst, src: Operand::Reg(src) }
}

/// `MOV dst v` for a number `v`.
pub open spec fn mov_imm(dst: Register, v: int) -> Instr<Seq<char>> {
    Instr::Mov { dst, src: Operand::Imm(v as i64) }
}

/// An arithmetic instruction on two registers.
pub open spec fn alu(op: AluOp, dst: Register, lhs: Register, rhs: Register) -> Instr<Seq<char>> {
    Instr::Alu { op, dst, lhs, rhs: Operand::Reg(rhs) }
}

/// An arithmetic instruction on a register and a number.
pub open spec fn alu_imm(op: AluOp, dst: Register, lhs: Register, v: int) -> Instr<Seq<char>> {
    Instr::Alu { op, dst, lhs, rhs: Operand::Imm(v as i64) }
}

/// A test of two registers.
pub open spec fn test(op: TestOp, lhs: Register, rhs: Register) -> Instr<Seq<char>> {
    Instr::Test { op, lhs, rhs: Operand::Reg(rhs) }
}

/// A test of a register against a number.
pub open spec fn test_imm(op: TestOp, lhs: Register, v: int) -> Instr<Seq<char>> {
    Instr::Test { op, lhs, rhs: Operand::Imm(v as i64) }
}

/// The instructions that combine the left operand, in `R2`, with the right
/// one, in `R1`, and leave the result in `R1`. The arithmetic and bitwise
/// operators take one instruction; a comparison or a logical connective is
/// made of tests, whose outcome `ZR` receives, and leaves 0 or 1.
pub open spec fn combine(op: BinaryOpKind) -> Code {
    match op.alu() {
        Some(a) => seq![alu(a, Register::R1, Register::R2, Register::R1)],
        None => match op {
            BinaryOpKind::Equal => seq![
                test(TestOp::Equal, Register::R1, Register::R2),
                mov(Register::R1, Register::ZR),
            ],
            BinaryOpKind::NotEqual => seq![
                test(TestOp::NotEqual, Register::R1, Register::R2),
                mov(Register::R1, Register::ZR),
            ],
            BinaryOpKind::LogicalAnd => seq![
                test_imm(TestOp::NotEqual, Register::R1, 0),
                mov(Register::R1, Register::ZR),
                test_imm(TestOp::NotEqual, Register::R2, 0),
                alu(AluOp::And, Register::R1, Register::R1, Register::ZR),
            ],
            BinaryOpKind::LogicalOr => seq![
                test_imm(TestOp::NotEqual, Register::R1, 0),
                mov(Register::R1, Register::ZR),
                test_imm(TestOp::NotEqual, Register::R2, 0),
                alu(AluOp::Or, Register::R1, Register::R1, Register::ZR),
            ],
            BinaryOpKind::Less => seq![
                test(TestOp::Less, Register::R2, Register::R1),
                mov(Register::R1, Register::ZR),
            ],
            BinaryOpKind::LessEqual => seq![
                test(TestOp::Greater, Register::R2, Register::R1),
                test_imm(TestOp::NotEqual, Register::ZR, 1),
                mov(Register::R1, Register::ZR),
            ],
            BinaryOpKind::Greater => seq![
                test(TestOp::Greater, Register::R2, Register::R1),
                mov(Register::R1, Register::ZR),
            ],
            _ => seq![
                test(TestOp::Less, Register::R2, Register::R1),
                test_imm(TestOp::NotEqual, Register::ZR, 1),
                mov(Register::R1, Register::ZR),
            ],
        },
    }
}

/// By how much an increment or decrement steps a variable of type `t`: a
/// pointer moves by the size of what it points to, anything else by 1.
pub open spec fn step_of(structs: Map<Seq<char>, StructView>, t: VariableTypeView) -> Result<
    nat,
    CompileError,
> {
    match t {
        VariableTypeView::Regular { ty: TypeView::Ptr(pointee) } => type_size(structs, *pointee),
        _ => Ok(1),
    }
}

/// The instructions that step the variable whose address is in `R1` by
/// `delta` and leave its new value in `R1` for the prefix forms, its old
/// value for the postfix forms.
pub open spec fn step_code(op: UnaryOpKind, delta: nat) -> Code {
    let arith = if op == UnaryOpKind::PreIncrement || op == UnaryOpKind::PostIncrement {
        AluOp::Add
    } else {
        AluOp::Sub
    };
    if op == UnaryOpKind::PreIncrement || op == UnaryOpKind::PreDecrement {
        seq![
            load(Register::R2, Register::R1),
            alu_imm(arith, Register::R2, Register::R2, delta as int),
            store(Register::R1, Register::R2),
            mov(Register::R1, Register::R2),
        ]
    } else {
        seq![
            load(Register::R2, Register::R1),
            push(Register::R2),
            alu_imm(arith, Register::R2, Register::R2, delta as int),
            store(Register::R1, Register::R2),
            pop(Register::R1),
        ]
    }
}

/// The label of the string literal of content `text`, the declaration of
/// the literal where this is its first occurrence, and the state
/// afterwards. Literals of the same content share one label.
pub struct Interned {
    pub state: CompilerView,
    pub label: crate::instruction::TempLabel,
    pub code: Code,
}

/// The interning of the string literal of content `text`.
pub open spec fn intern(c: CompilerView, text: Seq<char>) -> Result<Interned, CompileError> {
    if c.literals.contains_key(text) {
        Ok(Interned { state: c, label: c.literals[text], code: Seq::empty() })
    } else {
        let label = c.tmp_label(LabelKind::Str);
        match c.inc_tmp_label() {
            Err(e) => Err(e),
            Ok(next) => Ok(
                Interned {
                    state: CompilerView { literals: next.literals.insert(text, label), ..next },
                    label,
                    code: seq![Instr::Stringz { label: Label::Temp(label), text }],
                },
            ),
        }
    }
}

/// A constant: an integer literal is loaded as it is written, a character
/// literal by its value, and a string literal by the address of its
/// interned text.
pub open spec fn gen_constant(c: CompilerView, k: Constant) -> Result<Emitted, CompileError> {
    match k.ty@ {
        TypeView::Int => Ok(
            Emitted {
                state: c,
                code: seq![Instr::Mov { dst: Register::R1, src: Operand::Literal(k.value@) }],
            },
        ),
        TypeView::Char => match char_literal(k.value@) {
            Err(e) => Err(e),
            Ok(v) => Ok(Emitted { state: c, code: seq![mov_imm(Register::R1, v as int)] }),
        },
        TypeView::Str => match string_literal(k.value@) {
            Err(e) => Err(e),
            Ok(text) => match intern(c, text) {
                Err(e) => Err(e),
                Ok(i) => Ok(
                    Emitted {
                        state: i.state,
                        code: i.code + seq![
                            Instr::Lea { dst: Register::R1, label: Label::Temp(i.label) },
                        ],
                    },
                ),
            },
        },
        _ => Err(CompileError::InvalidConstant),
    }
}

/// The number of items between two neighbours along dimension `k` of an
/// array with the dimensions `dims`: the product of the dimensions behind
/// `k`.
pub open spec fn stride(dims: Seq<u32>, k: int) -> nat {
    product(dims.subrange(k + 1, dims.len() as int))
}

/// What follows the call instruction: the result is popped into `R1` where
/// the function returns one, then one word is dropped for every argument.
pub open spec fn call_epilogue(ret_size: nat, nargs: nat) -> Code {
    (if ret_size > 0 {
        seq![pop(Register::R1)]
    } else {
        Seq::<Instr<Seq<char>>>::empty()
    }) + repeat(pop(Register::ZR), nargs)
}

/// The value of an expression.
pub open spec fn right_gen(c: CompilerView, node: Expression, scope: Seq<char>) -> Result<
    Emitted,
    CompileError,
>
    decreases node,
{
    match node {
        Expression::Constant(k) => gen_constant(c, k),
        Expression::BinaryOp(op) => match right_gen(c, *op.left, scope) {
            Err(e) => Err(e),
            Ok(l) => match right_gen(l.state, *op.right, scope) {
                Err(e) => Err(e),
                Ok(r) => Ok(
                    Emitted {
                        state: r.state,
                        code: l.code + seq![push(Register::R1)] + r.code + seq![
                            pop(Register::R2),
                        ] + combine(op.op),
                    },
                ),
            },
        },
        Expression::UnaryOp(op) => gen_unary(c, op, scope),
        Expression::Assignment(a) => gen_assignment(c, a, scope),
        Expression::TernaryOp(t) => gen_ternary(c, t, scope),
        Expression::FuncCall(f) => gen_call(c, f, scope),
        Expression::NameRef(n) => match codegen_name(c, n, scope) {
            Err(e) => Err(e),
            Ok(a) => match name_decays(a.state, n, scope) {
                Err(e) => Err(e),
                Ok(decays) => if decays {
                    Ok(a)
                } else {
                    Ok(a.and(seq![load(Register::R1, Register::R1)]))
                },
            },
        },
        Expression::TypeName(_) => Err(CompileError::MisplacedTypeName),
        Expression::Cast(cast) => right_gen(c, *cast.expr, scope),
    }
}

/// Whether the value of the name `n` is its address: so it is for an
/// identifier that names an array.
pub open spec fn name_decays(c: CompilerView, n: NameRef, scope: Seq<char>) -> Result<
    bool,
    CompileError,
> {
    match n {
        NameRef::Id(_) => match type_of_name(c, n, scope) {
            Err(e) => Err(e),
            Ok(t) => Ok(t is Array),
        },
        _ => Ok(false),
    }
}

/// A unary operation.
pub open spec fn gen_unary(c: CompilerView, op: UnaryOp, scope: Seq<char>) -> Result<
    Emitted,
    CompileError,
>
    decreases op,
{
    match op.op {
        UnaryOpKind::Negate => match right_gen(c, *op.expr, scope) {
            Err(e) => Err(e),
            Ok(v) => Ok(v.and(seq![Instr::Neg(Register::R1)])),
        },
        UnaryOpKind::Not => match right_gen(c, *op.expr, scope) {
            Err(e) => Err(e),
            Ok(v) => Ok(
                v.and(
                    seq![
                        test_imm(TestOp::Equal, Register::R1, 0),
                        mov(Register::R1, Register::ZR),
                    ],
                ),
            ),
        },
        UnaryOpKind::AddressOf => left_gen(c, *op.expr, scope),
        UnaryOpKind::Dereference => match right_gen(c, *op.expr, scope) {
            Err(e) => Err(e),
            Ok(v) => Ok(v.and(seq![load(Register::R1, Register::R1)])),
        },
        UnaryOpKind::SizeOf => match *op.expr {
            Expression::TypeName(t) => match type_size(c.structs, t.ty@) {
                Err(e) => Err(e),
                Ok(size) => Ok(
                    Emitted { state: c, code: seq![mov_imm(Register::R1, size as int)] },
                ),
            },
            _ => Err(CompileError::SizeofNonType),
        },
        _ => match left_gen(c, *op.expr, scope) {
            Err(e) => Err(e),
            Ok(a) => match op.id {
                None => Err(CompileError::NotAVariable),
                Some(id) => match a.state.find_variable(id.name@, scope) {
                    Err(e) => Err(e),
                    Ok(None) => Err(CompileError::UndefinedVariable),
                    Ok(Some(v)) => match step_of(a.state.structs, v.var_type) {
                        Err(e) => Err(e),
                        Ok(delta) => Ok(a.and(step_code(op.op, delta))),
                    },
                },
            },
        },
    }
}

/// A conditional expression: the condition, then one of two arms between
/// fresh labels.
pub open spec fn gen_ternary(c: CompilerView, t: TernaryOp, scope: Seq<char>) -> Result<
    Emitted,
    CompileError,
>
    decreases t,
{
    let neg_label = Label::Temp(c.tmp_label(LabelKind::TernaryNo));
    let end_label = Label::Temp(c.tmp_label(LabelKind::TernaryYes));
    match c.inc_tmp_label() {
        Err(e) => Err(e),
        Ok(c1) => match right_gen(c1, *t.cond, scope) {
            Err(e) => Err(e),
            Ok(cond) => match right_gen(cond.state, *t.if_true, scope) {
                Err(e) => Err(e),
                Ok(yes) => match right_gen(yes.state, *t.if_false, scope) {
                    Err(e) => Err(e),
                    Ok(no) => Ok(
                        Emitted {
                            state: no.state,
                            code: cond.code + seq![
                                test_imm(TestOp::NotEqual, Register::R1, 0),
                                Instr::JumpIfFalse(neg_label),
                            ] + yes.code + seq![Instr::Jump(end_label), Instr::Mark(neg_label)]
                                + no.code + seq![Instr::Mark(end_label)],
                        },
                    ),
                },
            },
        },
    }
}

/// The arguments `args[..upto]` of a call, the last first: each is
/// evaluated and pushed.
pub open spec fn gen_args(c: CompilerView, args: Seq<Expression>, upto: int, scope: Seq<char>)
    -> Result<Emitted, CompileError>
    decreases args, upto,
{
    if upto <= 0 || upto > args.len() {
        Ok(Emitted::nothing(c))
    } else {
        match right_gen(c, args[upto - 1], scope) {
            Err(e) => Err(e),
            Ok(v) => match gen_args(v.state, args, upto - 1, scope) {
                Err(e) => Err(e),
                Ok(rest) => Ok(
                    Emitted {
                        state: rest.state,
                        code: v.code + seq![push(Register::R1)] + rest.code,
                    },
                ),
            },
        }
    }
}

/// A call: the arguments are pushed, the last first; room for the return
/// value is pushed; the function is called; the result is popped into `R1`
/// where the function returns one; the arguments are dropped.
pub open spec fn gen_call(c: CompilerView, f: FuncCall, scope: Seq<char>) -> Result<
    Emitted,
    CompileError,
>
    decreases f,
{
    if !c.funcs.contains_key(f.name@) {
        Err(CompileError::UnknownFunction)
    } else {
        let ret = c.funcs[f.name@].return_type;
        match gen_args(c, f.args@, f.args@.len() as int, scope) {
            Err(e) => Err(e),
            Ok(a) => match type_size(a.state.structs, ret) {
                Err(e) => Err(e),
                Ok(size) => Ok(
                    a.and(
                        repeat(push(Register::ZR), size) + seq![
                            Instr::Call(Label::Function(f.name@)),
                        ] + call_epilogue(size, f.args@.len()),
                    ),
                ),
            },
        }
    }
}

/// An assignment: the address of the target is saved across the evaluation
/// of the value; a compound assignment loads the old value through the
/// saved address and combines it with the new one; the value stored is left
/// in `R1`.
pub open spec fn gen_assignment(c: CompilerView, a: Assignment, scope: Seq<char>) -> Result<
    Emitted,
    CompileError,
>
    decreases a,
{
    match left_gen(c, *a.lvalue, scope) {
        Err(e) => Err(e),
        Ok(l) => match right_gen(l.state, *a.rvalue, scope) {
            Err(e) => Err(e),
            Ok(r) => match compound_code(a.op) {
                Err(e) => Err(e),
                Ok(update) => Ok(
                    Emitted {
                        state: r.state,
                        code: l.code + seq![push(Register::R1)] + r.code + seq![
                            pop(Register::R2),
                        ] + update + seq![store(Register::R2, Register::R1)],
                    },
                ),
            },
        },
    }
}

/// What a compound assignment does before it stores: with the address of
/// the target in `R2` and the new value in `R1`, the old value is combined
/// with the new one. A plain assignment does nothing here.
pub open spec fn compound_code(op: Option<BinaryOpKind>) -> Result<Code, CompileError> {
    match op {
        None => Ok(Seq::empty()),
        Some(bop) => match bop.alu() {
            None => Err(CompileError::UnsupportedOperator),
            Some(a) => Ok(
                seq![
                    push(Register::R2),
                    load(Register::R2, Register::R2),
                    alu(a, Register::R1, Register::R2, Register::R1),
                    pop(Register::R2),
                ],
            ),
        },
    }
}

/// The address of an expression. Only a name and a dereference have one.
pub open spec fn left_gen(c: CompilerView, node: Expression, scope: Seq<char>) -> Result<
    Emitted,
    CompileError,
>
    decreases node,
{
    match node {
        Expression::UnaryOp(uop) => if uop.op == UnaryOpKind::Dereference {
            match left_gen(c, *uop.expr, scope) {
                Err(e) => Err(e),
                Ok(a) => Ok(a.and(seq![load(Register::R1, Register::R1)])),
            }
        } else {
            Err(CompileError::NotAnLvalue)
        },
        Expression::NameRef(name) => codegen_name(c, name, scope),
        _ => Err(CompileError::NotAnLvalue),
    }
}

/// The address of a name.
pub open spec fn codegen_name(c: CompilerView, node: NameRef, scope: Seq<char>) -> Result<
    Emitted,
    CompileError,
>
    decreases node,
{
    match node {
        NameRef::Id(id) => in_state(c, var_address(c, id.name@, scope)),
        NameRef::ArrayRef(array_ref) => gen_array_ref(c, array_ref, scope),
        NameRef::StructRef(struct_ref) => gen_struct_ref(c, struct_ref, scope),
    }
}

/// The address of a field: the address of the structure, loaded once more
/// where the access goes through a pointer, plus the offset of the field.
pub open spec fn gen_struct_ref(c: CompilerView, s: StructRef, scope: Seq<char>) -> Result<
    Emitted,
    CompileError,
>
    decreases s,
{
    match codegen_name(c, *s.name, scope) {
        Err(e) => Err(e),
        Ok(base) => match type_of_name(base.state, *s.name, scope) {
            Err(e) => Err(e),
            Ok(t) => match accessed_field(base.state.structs, t, s.access, s.field@) {
                Err(e) => Err(e),
                Ok(target) => Ok(
                    base.and(
                        (if target.through_pointer {
                            seq![load(Register::R1, Register::R1)]
                        } else {
                            Seq::<Instr<Seq<char>>>::empty()
                        }) + seq![
                            alu_imm(
                                AluOp::Add,
                                Register::R1,
                                Register::R1,
                                target.field.offset as int,
                            ),
                        ],
                    ),
                ),
            },
        },
    }
}

/// The indices `indices[..upto]` of an array access, the last first: each
/// is evaluated, scaled by the stride of its dimension and by the size of an
/// item, and added to the address in `R2`.
pub open spec fn gen_indices(
    c: CompilerView,
    indices: Seq<Expression>,
    dims: Seq<u32>,
    item_size: nat,
    upto: int,
    scope: Seq<char>,
) -> Result<Emitted, CompileError>
    decreases indices, upto,
{
    if upto <= 0 || upto > indices.len() {
        Ok(Emitted::nothing(c))
    } else if stride(dims, upto - 1) > u32::MAX {
        Err(CompileError::Overflow)
    } else {
        match right_gen(c, indices[upto - 1], scope) {
            Err(e) => Err(e),
            Ok(v) => match gen_indices(v.state, indices, dims, item_size, upto - 1, scope) {
                Err(e) => Err(e),
                Ok(rest) => Ok(
                    Emitted {
                        state: rest.state,
                        code: seq![push(Register::R2)] + v.code + seq![
                            pop(Register::R2),
                            alu_imm(
                                AluOp::Mul,
                                Register::R1,
                                Register::R1,
                                stride(dims, upto - 1) as int,
                            ),
                            alu_imm(AluOp::Mul, Register::R1, Register::R1, item_size as int),
                            alu(AluOp::Add, Register::R2, Register::R2, Register::R1),
                        ] + rest.code,
                    },
                ),
            },
        }
    }
}

/// The address of an item of an array: the address of the array plus, for
/// every dimension, the index times the stride of the dimension times the
/// size of an item. There must be one index for every dimension.
pub open spec fn gen_array_ref(c: CompilerView, a: ArrayRef, scope: Seq<char>) -> Result<
    Emitted,
    CompileError,
>
    decreases a,
{
    match codegen_name(c, *a.name, scope) {
        Err(e) => Err(e),
        Ok(base) => match type_of_name(base.state, *a.name, scope) {
            Err(e) => Err(e),
            Ok(VariableTypeView::Array { item, dimensions }) => match array_item_size(
                base.state.structs,
                *item,
            ) {
                Err(e) => Err(e),
                Ok(item_size) => if a.indices@.len() != dimensions.len() {
                    Err(CompileError::ArrayRankMismatch)
                } else {
                    match gen_indices(
                        base.state,
                        a.indices@,
                        dimensions,
                        item_size,
                        a.indices@.len() as int,
                        scope,
                    ) {
                        Err(e) => Err(e),
                        Ok(i) => Ok(
                            Emitted {
                                state: i.state,
                                code: base.code + seq![mov(Register::R2, Register::R1)] + i.code
                                    + seq![mov(Register::R1, Register::R2)],
                            },
                        ),
                    }
                },
            },
            Ok(_) => Err(CompileError::NotAnArray),
        },
    }
}

} // verus!
