//! The textual form of assembly: one line per instruction, in the notation
//! that an assembler for the machine reads.

use vstd::prelude::*;
use crate::instruction::{AluOp, Instr, Label, LabelKind, Operand, Register, TempLabel, TestOp};
use crate::text::{decimal, signed_decimal, push_decimal, push_signed_decimal};

verus! {

/// The name of a register.
pub open spec fn register_text(r: Register) -> Seq<char> {
    match r {
        Register::R1 => "R1"@,
        Register::R2 => "R2"@,
        Register::ZR => "ZR"@,
        Register::BP => "BP"@,
        Register::SP => "SP"@,
        Register::IR => "IR"@,
    }
}

/// The mnemonic of an arithmetic or bitwise instruction.
pub open spec fn alu_text(op: AluOp) -> Seq<char> {
    match op {
        AluOp::Add => "ADD"@,
        AluOp::Sub => "SUB"@,
        AluOp::Mul => "MUL"@,
        AluOp::And => "AND"@,
        AluOp::Or => "OR"@,
    }
}

/// The mnemonic of a test instruction.
pub open spec fn test_text(op: TestOp) -> Seq<char> {
    match op {
        TestOp::Equal => "TSTE"@,
        TestOp::NotEqual => "TSTN"@,
        TestOp::Less => "TSTL"@,
        TestOp::Greater => "TSTG"@,
    }
}

/// What stands before the two numbers of a generated label.
pub open spec fn kind_prefix(kind: LabelKind) -> Seq<char> {
    match kind {
        LabelKind::TernaryNo | LabelKind::TernaryYes => "TERNARY_"@,
        LabelKind::IfElse | LabelKind::IfEnd => "IF_"@,
        LabelKind::WhileStart | LabelKind::WhileEnd => "WHILE_"@,
        LabelKind::DoWhileCond | LabelKind::DoWhileBody | LabelKind::DoWhileEnd => "DOWHILE_"@,
        LabelKind::ForCond | LabelKind::ForEnd | LabelKind::ForNext => "FOR_"@,
        LabelKind::Str => "STR_"@,
    }
}

/// What stands behind the two numbers of a generated label.
pub open spec fn kind_suffix(kind: LabelKind) -> Seq<char> {
    match kind {
        LabelKind::TernaryNo => "_NO"@,
        LabelKind::TernaryYes => "_YES"@,
        LabelKind::IfElse => "_ELSE"@,
        LabelKind::IfEnd | LabelKind::WhileEnd | LabelKind::DoWhileEnd | LabelKind::ForEnd => "_END"@,
        LabelKind::WhileStart => "_START"@,
        LabelKind::DoWhileCond | LabelKind::ForCond => "_COND"@,
        LabelKind::DoWhileBody => "_BODY"@,
        LabelKind::ForNext => "_NEXT"@,
        LabelKind::Str => ""@,
    }
}

/// The text of a generated label: prefix, program index, an underscore, the
/// counter value, suffix.
pub open spec fn temp_label_text(t: TempLabel) -> Seq<char> {
    kind_prefix(t.kind) + decimal(t.program as nat) + "_"@ + decimal(t.index as nat) + kind_suffix(
        t.kind,
    )
}

/// The text of a label.
pub open spec fn label_text(l: Label<Seq<char>>) -> Seq<char> {
    match l {
        Label::Global { program } => "GLOBAL_"@ + decimal(program as nat),
        Label::Temp(t) => temp_label_text(t),
        Label::Function(name) => name,
        Label::FunctionEnd(name) => "_"@ + name + "_END"@,
    }
}

/// The text of an operand.
pub open spec fn operand_text(o: Operand<Seq<char>>) -> Seq<char> {
    match o {
        Operand::Reg(r) => register_text(r),
        Operand::Imm(v) => signed_decimal(v as int),
        Operand::Literal(s) => s,
    }
}

/// The text of one line of assembly.
pub open spec fn instr_text(i: Instr<Seq<char>>) -> Seq<char> {
    match i {
        Instr::Mov { dst, src } => "MOV "@ + register_text(dst) + " "@ + operand_text(src),
        Instr::Lea { dst, label } => "LEA "@ + register_text(dst) + " "@ + label_text(label),
        Instr::Load { dst, addr } => "LOAD "@ + register_text(dst) + " "@ + register_text(addr),
        Instr::Store { addr, src } => "STR "@ + register_text(addr) + " "@ + register_text(src),
        Instr::Push(r) => "PUSH "@ + register_text(r),
        Instr::Pop(r) => "POP "@ + register_text(r),
        Instr::Alu { op, dst, lhs, rhs } => alu_text(op) + " "@ + register_text(dst) + " "@
            + register_text(lhs) + " "@ + operand_text(rhs),
        Instr::Neg(r) => "NEG "@ + register_text(r),
        Instr::Test { op, lhs, rhs } => test_text(op) + " "@ + register_text(lhs) + " "@
            + operand_text(rhs),
        Instr::Jump(l) => "JUMP "@ + label_text(l),
        Instr::JumpIfFalse(l) => "FJMP "@ + label_text(l),
        Instr::Call(l) => "CALL "@ + label_text(l),
        Instr::Ret => "RET"@,
        Instr::Mark(l) => label_text(l) + ":"@,
        Instr::Block { label, size } => ".block "@ + label_text(label) + " "@ + decimal(
            size as nat,
        ),
        Instr::Stringz { label, text } => ".stringz "@ + label_text(label) + " "@ + text,
    }
}

/// The lines of `code` joined by line feeds, with none after the last.
pub open spec fn listing_text(code: Seq<Instr<Seq<char>>>) -> Seq<char>
    decreases code.len(),
{
    if code.len() == 0 {
        Seq::empty()
    } else if code.len() == 1 {
        instr_text(code[0])
    } else {
        listing_text(code.drop_last()) + "\n"@ + instr_text(code.last())
    }
}

fn register_str(r: Register) -> (s: &'static str)
    ensures
        s@ == register_text(r),
{
    match r {
        Register::R1 => "R1",
        Register::R2 => "R2",
        Register::ZR => "ZR",
        Register::BP => "BP",
        Register::SP => "SP",
        Register::IR => "IR",
    }
}

fn alu_str(op: AluOp) -> (s: &'static str)
    ensures
        s@ == alu_text(op),
{
    match op {
        AluOp::Add => "ADD",
        AluOp::Sub => "SUB",
        AluOp::Mul => "MUL",
        AluOp::And => "AND",
        AluOp::Or => "OR",
    }
}

fn test_str(op: TestOp) -> (s: &'static str)
    ensures
        s@ == test_text(op),
{
    match op {
        TestOp::Equal => "TSTE",
        TestOp::NotEqual => "TSTN",
        TestOp::Less => "TSTL",
        TestOp::Greater => "TSTG",
    }
}

fn kind_prefix_str(kind: LabelKind) -> (s: &'static str)
    ensures
        s@ == kind_prefix(kind),
{
    match kind {
        LabelKind::TernaryNo | LabelKind::TernaryYes => "TERNARY_",
        LabelKind::IfElse | LabelKind::IfEnd => "IF_",
        LabelKind::WhileStart | LabelKind::WhileEnd => "WHILE_",
        LabelKind::DoWhileCond | LabelKind::DoWhileBody | LabelKind::DoWhileEnd => "DOWHILE_",
        LabelKind::ForCond | LabelKind::ForEnd | LabelKind::ForNext => "FOR_",
        LabelKind::Str => "STR_",
    }
}

fn kind_suffix_str(kind: LabelKind) -> (s: &'static str)
    ensures
        s@ == kind_suffix(kind),
{
    match kind {
        LabelKind::TernaryNo => "_NO",
        LabelKind::TernaryYes => "_YES",
        LabelKind::IfElse => "_ELSE",
        LabelKind::IfEnd | LabelKind::WhileEnd | LabelKind::DoWhileEnd | LabelKind::ForEnd => "_END",
        LabelKind::WhileStart => "_START",
        LabelKind::DoWhileCond | LabelKind::ForCond => "_COND",
        LabelKind::DoWhileBody => "_BODY",
        LabelKind::ForNext => "_NEXT",
        LabelKind::Str => "",
    }
}

/// Appends the text of `l` to `out`.
fn push_label(out: &mut String, l: &Label<String>)
    ensures
        final(out)@ == old(out)@ + label_text(l@),
{
    match l {
        Label::Global { program } => {
            out.append("GLOBAL_");
            push_decimal(out, *program as u64);
        },
        Label::Temp(t) => {
            out.append(kind_prefix_str(t.kind));
            push_decimal(out, t.program as u64);
            out.append("_");
            push_decimal(out, t.index as u64);
            out.append(kind_suffix_str(t.kind));
        },
        Label::Function(name) => {
            out.append(name.as_str());
        },
        Label::FunctionEnd(name) => {
            out.append("_");
            out.append(name.as_str());
            out.append("_END");
        },
    }
    assert(out@ =~= old(out)@ + label_text(l@));
}

/// Appends the text of `o` to `out`.
fn push_operand(out: &mut String, o: &Operand<String>)
    ensures
        final(out)@ == old(out)@ + operand_text(o@),
{
    match o {
        Operand::Reg(r) => {
            out.append(register_str(*r));
        },
        Operand::Imm(v) => {
            push_signed_decimal(out, *v);
        },
        Operand::Literal(s) => {
            out.append(s.as_str());
        },
    }
}

/// Appends the text of `i` to `out`.
pub fn push_instr(out: &mut String, i: &Instr<String>)
    ensures
        final(out)@ == old(out)@ + instr_text(i@),
{
    match i {
        Instr::Mov { dst, src } => {
            out.append("MOV ");
            out.append(register_str(*dst));
            out.append(" ");
            push_operand(out, src);
        },
        Instr::Lea { dst, label } => {
            out.append("LEA ");
            out.append(register_str(*dst));
            out.append(" ");
            push_label(out, label);
        },
        Instr::Load { dst, addr } => {
            out.append("LOAD ");
            out.append(register_str(*dst));
            out.append(" ");
            out.append(register_str(*addr));
        },
        Instr::Store { addr, src } => {
            out.append("STR ");
            out.append(register_str(*addr));
            out.append(" ");
            out.append(register_str(*src));
        },
        Instr::Push(r) => {
            out.append("PUSH ");
            out.append(register_str(*r));
        },
        Instr::Pop(r) => {
            out.append("POP ");
            out.append(register_str(*r));
        },
        Instr::Alu { op, dst, lhs, rhs } => {
            out.append(alu_str(*op));
            out.append(" ");
            out.append(register_str(*dst));
            out.append(" ");
            out.append(register_str(*lhs));
            out.append(" ");
            push_operand(out, rhs);
        },
        Instr::Neg(r) => {
            out.append("NEG ");
            out.append(register_str(*r));
        },
        Instr::Test { op, lhs, rhs } => {
            out.append(test_str(*op));
            out.append(" ");
            out.append(register_str(*lhs));
            out.append(" ");
            push_operand(out, rhs);
        },
        Instr::Jump(l) => {
            out.append("JUMP ");
            push_label(out, l);
        },
        Instr::JumpIfFalse(l) => {
            out.append("FJMP ");
            push_label(out, l);
        },
        Instr::Call(l) => {
            out.append("CALL ");
            push_label(out, l);
        },
        Instr::Ret => {
            out.append("RET");
        },
        Instr::Mark(l) => {
            push_label(out, l);
            out.append(":");
        },
        Instr::Block { label, size } => {
            out.append(".block ");
            push_label(out, label);
            out.append(" ");
            push_decimal(out, *size as u64);
        },
        Instr::Stringz { label, text } => {
            out.append(".stringz ");
            push_label(out, label);
            out.append(" ");
            out.append(text.as_str());
        },
    }
    assert(out@ =~= old(out)@ + instr_text(i@));
}

impl Instr<String> {
    /// The line of assembly that denotes this instruction.
    pub fn render(&self) -> (s: String)
        ensures
            s@ == instr_text(self@),
    {
        let mut out = String::new();
        push_instr(&mut out, self);
        assert(out@ =~= instr_text(self@));
        out
    }
}

/// The text of a program: its lines joined by line feeds.
pub fn render_listing(code: &Vec<Instr<String>>) -> (s: String)
    ensures
        s@ == listing_text(crate::instruction::lines(code@)),
{
    let ghost all = crate::instruction::lines(code@);
    let mut out = String::new();
    let mut i: usize = 0;
    while i < code.len()
        invariant
            i <= code.len(),
            all == crate::instruction::lines(code@),
            out@ == listing_text(all.subrange(0, i as int)),
        decreases code.len() - i,
    {
        let ghost before = out@;
        if i > 0 {
            out.append("\n");
        }
        push_instr(&mut out, &code[i]);
        proof {
            let prefix = all.subrange(0, i + 1);
            assert(prefix.drop_last() =~= all.subrange(0, i as int));
            assert(prefix.last() == code@[i as int]@);
            if i == 0 {
                assert(before =~= Seq::<char>::empty());
                assert(out@ =~= instr_text(prefix[0]));
            }
        }
        i += 1;
    }
    assert(all.subrange(0, i as int) =~= all);
    out
}

} // verus!
