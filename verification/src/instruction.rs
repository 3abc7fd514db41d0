//! The symbolic assembly that the code generator emits: registers, labels,
//! instructions and data directives.
//!
//! Every type that holds a name is generic in the type of that name: the
//! compiler works on `String`s, contracts speak of the same value over
//! `Seq<char>`, and `view` takes the first to the second.

use vstd::prelude::*;

verus! {

/// A machine register. `R1` is the accumulator and `R2` the scratch register
/// of generated code; `ZR` receives the outcome of every test instruction.
#[derive(Clone, Copy, Debug, PartialEq, Eq, Structural)]
pub enum Register {
    R1,
    R2,
    ZR,
    BP,
    SP,
    IR,
}

/// The arithmetic and bitwise instructions with two sources.
#[derive(Clone, Copy, Debug, PartialEq, Eq, Structural)]
pub enum AluOp {
    Add,
    Sub,
    Mul,
    And,
    Or,
}

/// The comparisons that a test instruction can make.
#[derive(Clone, Copy, Debug, PartialEq, Eq, Structural)]
pub enum TestOp {
    Equal,
    NotEqual,
    Less,
    Greater,
}

/// What a generated label marks.
#[derive(Clone, Copy, Debug, PartialEq, Eq, Structural)]
pub enum LabelKind {
    TernaryNo,
    TernaryYes,
    IfElse,
    IfEnd,
    WhileStart,
    WhileEnd,
    DoWhileCond,
    DoWhileBody,
    DoWhileEnd,
    ForCond,
    ForEnd,
    ForNext,
    Str,
}

/// A generated label: its kind, the index of the program it belongs to, and
/// the value of that program's label counter when it was made.
#[derive(Clone, Copy, Debug, PartialEq, Eq, Structural)]
pub struct TempLabel {
    pub kind: LabelKind,
    pub program: u32,
    pub index: u32,
}

/// A symbolic address.
#[derive(Clone, Debug, PartialEq, Eq)]
pub enum Label<S> {
    /// The block that holds the global variables of a program.
    Global { program: u32 },
    /// A generated label.
    Temp(TempLabel),
    /// The entry of a function.
    Function(S),
    /// The single exit of a function.
    FunctionEnd(S),
}

/// The last operand of an instruction.
#[derive(Clone, Debug, PartialEq, Eq)]
pub enum Operand<S> {
    Reg(Register),
    Imm(i64),
    /// A literal in the notation of the source program.
    Literal(S),
}

/// One line of assembly.
#[derive(Clone, Debug, PartialEq, Eq)]
pub enum Instr<S> {
    Mov { dst: Register, src: Operand<S> },
    Lea { dst: Register, label: Label<S> },
    Load { dst: Register, addr: Register },
    Store { addr: Register, src: Register },
    Push(Register),
    Pop(Register),
    Alu { op: AluOp, dst: Register, lhs: Register, rhs: Operand<S> },
    Neg(Register),
    Test { op: TestOp, lhs: Register, rhs: Operand<S> },
    Jump(Label<S>),
    JumpIfFalse(Label<S>),
    Call(Label<S>),
    Ret,
    /// The definition of a label.
    Mark(Label<S>),
    /// A labelled block of reserved words.
    Block { label: Label<S>, size: u32 },
    /// A labelled string constant, terminated by a zero word.
    Stringz { label: Label<S>, text: S },
}

impl View for Label<String> {
    type V = Label<Seq<char>>;

    open spec fn view(&self) -> Label<Seq<char>> {
        match self {
            Label::Global { program } => Label::Global { program: *program },
            Label::Temp(t) => Label::Temp(*t),
            Label::Function(name) => Label::Function(name@),
            Label::FunctionEnd(name) => Label::FunctionEnd(name@),
        }
    }
}

impl View for Operand<String> {
    type V = Operand<Seq<char>>;

    open spec fn view(&self) -> Operand<Seq<char>> {
        match self {
            Operand::Reg(r) => Operand::Reg(*r),
            Operand::Imm(v) => Operand::Imm(*v),
            Operand::Literal(s) => Operand::Literal(s@),
        }
    }
}

impl View for Instr<String> {
    type V = Instr<Seq<char>>;

    open spec fn view(&self) -> Instr<Seq<char>> {
        match self {
            Instr::Mov { dst, src } => Instr::Mov { dst: *dst, src: src@ },
            Instr::Lea { dst, label } => Instr::Lea { dst: *dst, label: label@ },
            Instr::Load { dst, addr } => Instr::Load { dst: *dst, addr: *addr },
            Instr::Store { addr, src } => Instr::Store { addr: *addr, src: *src },
            Instr::Push(r) => Instr::Push(*r),
            Instr::Pop(r) => Instr::Pop(*r),
            Instr::Alu { op, dst, lhs, rhs } => Instr::Alu {
                op: *op,
                dst: *dst,
                lhs: *lhs,
                rhs: rhs@,
            },
            Instr::Neg(r) => Instr::Neg(*r),
            Instr::Test { op, lhs, rhs } => Instr::Test { op: *op, lhs: *lhs, rhs: rhs@ },
            Instr::Jump(l) => Instr::Jump(l@),
            Instr::JumpIfFalse(l) => Instr::JumpIfFalse(l@),
            Instr::Call(l) => Instr::Call(l@),
            Instr::Ret => Instr::Ret,
            Instr::Mark(l) => Instr::Mark(l@),
            Instr::Block { label, size } => Instr::Block { label: label@, size: *size },
            Instr::Stringz { label, text } => Instr::Stringz { label: label@, text: text@ },
        }
    }
}

/// The instructions of `code`, each by its view.
pub open spec fn lines(code: Seq<Instr<String>>) -> Seq<Instr<Seq<char>>> {
    code.map_values(|i: Instr<String>| i@)
}

/// Appends `instr` to `code`.
pub fn emit(code: &mut Vec<Instr<String>>, instr: Instr<String>)
    ensures
        lines(final(code)@) == lines(old(code)@).push(instr@),
{
    code.push(instr);
    assert(lines(code@) =~= lines(old(code)@).push(instr@));
}

/// `count` copies of `instr`.
pub open spec fn repeat(instr: Instr<Seq<char>>, count: nat) -> Seq<Instr<Seq<char>>> {
    Seq::new(count, |i: int| instr)
}

/// Appends `count` instructions that push `reg`.
pub fn emit_pushes(code: &mut Vec<Instr<String>>, reg: Register, count: u32)
    ensures
        lines(final(code)@) == lines(old(code)@) + repeat(Instr::Push(reg), count as nat),
{
    let mut i: u32 = 0;
    assert(lines(code@) =~= lines(old(code)@) + repeat(Instr::Push(reg), 0));
    while i < count
        invariant
            i <= count,
            lines(code@) == lines(old(code)@) + repeat(Instr::Push(reg), i as nat),
        decreases count - i,
    {
        emit(code, Instr::Push(reg));
        i += 1;
        assert(lines(code@) =~= lines(old(code)@) + repeat(Instr::Push(reg), i as nat));
    }
}

/// Appends `count` instructions that pop into `reg`.
pub fn emit_pops(code: &mut Vec<Instr<String>>, reg: Register, count: usize)
    ensures
        lines(final(code)@) == lines(old(code)@) + repeat(Instr::Pop(reg), count as nat),
{
    let mut i: usize = 0;
    assert(lines(code@) =~= lines(old(code)@) + repeat(Instr::Pop(reg), 0));
    while i < count
        invariant
            i <= count,
            lines(code@) == lines(old(code)@) + repeat(Instr::Pop(reg), i as nat),
        decreases count - i,
    {
        emit(code, Instr::Pop(reg));
        i += 1;
        assert(lines(code@) =~= lines(old(code)@) + repeat(Instr::Pop(reg), i as nat));
    }
}

} // verus!
