use microcc::instruction::{
    emit, emit_pops, emit_pushes, AluOp, Instr, Label, LabelKind, Operand, Register, TempLabel,
    TestOp,
};
use microcc::listing::{push_instr, render_listing};
use microcc::text::{push_decimal, push_signed_decimal};

fn temp(kind: LabelKind, program: u32, index: u32) -> Label<String> {
    Label::Temp(TempLabel { kind, program, index })
}

#[test]
fn decimal_notation() {
    let mut out = String::new();
    push_decimal(&mut out, 0);
    out.push(' ');
    push_decimal(&mut out, 7);
    out.push(' ');
    push_decimal(&mut out, 10);
    out.push(' ');
    push_decimal(&mut out, 4294967295);
    out.push(' ');
    push_decimal(&mut out, u64::MAX);
    assert_eq!(out, "0 7 10 4294967295 18446744073709551615");
}

#[test]
fn signed_decimal_notation() {
    let mut out = String::from("x");
    push_signed_decimal(&mut out, -3);
    out.push(' ');
    push_signed_decimal(&mut out, 0);
    out.push(' ');
    push_signed_decimal(&mut out, 120);
    out.push(' ');
    push_signed_decimal(&mut out, i64::MIN);
    out.push(' ');
    push_signed_decimal(&mut out, i64::MAX);
    assert_eq!(out, "x-3 0 120 -9223372036854775808 9223372036854775807");
}

#[test]
fn every_instruction_has_its_line() {
    let r1 = Register::R1;
    let r2 = Register::R2;
    let cases: Vec<(Instr<String>, &str)> = vec![
        (Instr::Mov { dst: r1, src: Operand::Imm(5) }, "MOV R1 5"),
        (Instr::Mov { dst: r1, src: Operand::Reg(Register::ZR) }, "MOV R1 ZR"),
        (Instr::Mov { dst: r2, src: Operand::Literal("0x1F".to_string()) }, "MOV R2 0x1F"),
        (Instr::Lea { dst: r1, label: Label::Global { program: 3 } }, "LEA R1 GLOBAL_3"),
        (Instr::Load { dst: r2, addr: r1 }, "LOAD R2 R1"),
        (Instr::Store { addr: r2, src: r1 }, "STR R2 R1"),
        (Instr::Push(Register::BP), "PUSH BP"),
        (Instr::Pop(Register::SP), "POP SP"),
        (
            Instr::Alu { op: AluOp::Add, dst: r1, lhs: Register::BP, rhs: Operand::Imm(-12) },
            "ADD R1 BP -12",
        ),
        (Instr::Alu { op: AluOp::Sub, dst: r1, lhs: r2, rhs: Operand::Reg(r1) }, "SUB R1 R2 R1"),
        (Instr::Alu { op: AluOp::Mul, dst: r1, lhs: r1, rhs: Operand::Imm(3) }, "MUL R1 R1 3"),
        (Instr::Alu { op: AluOp::And, dst: r1, lhs: r1, rhs: Operand::Reg(r2) }, "AND R1 R1 R2"),
        (Instr::Alu { op: AluOp::Or, dst: r1, lhs: r1, rhs: Operand::Reg(r2) }, "OR R1 R1 R2"),
        (Instr::Neg(Register::IR), "NEG IR"),
        (Instr::Test { op: TestOp::Equal, lhs: r1, rhs: Operand::Imm(0) }, "TSTE R1 0"),
        (Instr::Test { op: TestOp::NotEqual, lhs: r1, rhs: Operand::Reg(r2) }, "TSTN R1 R2"),
        (Instr::Test { op: TestOp::Less, lhs: r2, rhs: Operand::Reg(r1) }, "TSTL R2 R1"),
        (Instr::Test { op: TestOp::Greater, lhs: r2, rhs: Operand::Reg(r1) }, "TSTG R2 R1"),
        (Instr::Jump(Label::FunctionEnd("main".to_string())), "JUMP _main_END"),
        (Instr::JumpIfFalse(temp(LabelKind::IfElse, 0, 4)), "FJMP IF_0_4_ELSE"),
        (Instr::Call(Label::Function("fact".to_string())), "CALL fact"),
        (Instr::Ret, "RET"),
        (Instr::Mark(Label::Function("fact".to_string())), "fact:"),
        (Instr::Block { label: Label::Global { program: 0 }, size: 12 }, ".block GLOBAL_0 12"),
        (
            Instr::Stringz { label: temp(LabelKind::Str, 1, 2), text: "a b".to_string() },
            ".stringz STR_1_2 a b",
        ),
    ];
    for (instr, line) in cases {
        assert_eq!(instr.render(), line);
    }
}

#[test]
fn every_kind_of_label_has_its_text() {
    let cases = vec![
        (LabelKind::TernaryNo, "TERNARY_2_10_NO:"),
        (LabelKind::TernaryYes, "TERNARY_2_10_YES:"),
        (LabelKind::IfElse, "IF_2_10_ELSE:"),
        (LabelKind::IfEnd, "IF_2_10_END:"),
        (LabelKind::WhileStart, "WHILE_2_10_START:"),
        (LabelKind::WhileEnd, "WHILE_2_10_END:"),
        (LabelKind::DoWhileCond, "DOWHILE_2_10_COND:"),
        (LabelKind::DoWhileBody, "DOWHILE_2_10_BODY:"),
        (LabelKind::DoWhileEnd, "DOWHILE_2_10_END:"),
        (LabelKind::ForCond, "FOR_2_10_COND:"),
        (LabelKind::ForEnd, "FOR_2_10_END:"),
        (LabelKind::ForNext, "FOR_2_10_NEXT:"),
        (LabelKind::Str, "STR_2_10:"),
    ];
    for (kind, line) in cases {
        assert_eq!(Instr::Mark(temp(kind, 2, 10)).render(), line);
    }
}

#[test]
fn listing_joins_lines_without_a_trailing_line_feed() {
    let mut code: Vec<Instr<String>> = Vec::new();
    assert_eq!(render_listing(&code), "");
    emit(&mut code, Instr::Ret);
    assert_eq!(render_listing(&code), "RET");
    emit_pushes(&mut code, Register::ZR, 2);
    emit_pops(&mut code, Register::R1, 1);
    emit_pushes(&mut code, Register::R2, 0);
    assert_eq!(render_listing(&code), "RET\nPUSH ZR\nPUSH ZR\nPOP R1");
    let mut out = String::from("> ");
    push_instr(&mut out, &code[3]);
    assert_eq!(out, "> POP R1");
}
