use std::collections::HashMap;

use microcc::ast::{
    ArrayDecl, ArrayRef, Assignment, BinaryOp, BinaryOpKind, Compound, Constant, Decl, Expression,
    External, FieldAccess, ForLoop, FuncCall, FuncDecl, FuncDef, Id, If, NameRef, Return,
    RootAstNode, Statement, StructDecl, StructRef, TernaryOp, UnaryOp, UnaryOpKind, VarDecl,
    WhileLoop,
};
use microcc::compiler::Compiler;
use microcc::instruction::{Instr, Label, Operand, Register};
use microcc::machine::{Instruction, MemEntry, Source};
use microcc::os::{OS, PROGRAM_INIT_ADDRESS};
use microcc::types::Type;

const DATA_ADDRESS: u32 = 500;

fn label_text(l: &Label<String>) -> String {
    let line = Instr::Mark(l.clone()).render();
    line[..line.len() - 1].to_string()
}

fn source(o: &Operand<String>) -> Source {
    match o {
        Operand::Reg(r) => Source::Reg(*r),
        Operand::Imm(v) => Source::Imm(*v as i32),
        Operand::Literal(s) => Source::Imm(s.parse().unwrap()),
    }
}

/// Resolves the labels of `code`: instructions stand from
/// `PROGRAM_INIT_ADDRESS` on and data from `DATA_ADDRESS` on.
fn assemble(code: &[Instr<String>]) -> (Vec<Instruction>, Vec<(u32, i32)>) {
    let mut symbols: HashMap<String, u32> = HashMap::new();
    let mut data: Vec<(u32, i32)> = Vec::new();
    let mut next_data = DATA_ADDRESS;
    let mut next_code = PROGRAM_INIT_ADDRESS;
    for instr in code {
        match instr {
            Instr::Mark(l) => {
                symbols.insert(label_text(l), next_code);
            }
            Instr::Block { label, size } => {
                symbols.insert(label_text(label), next_data);
                next_data += size;
            }
            Instr::Stringz { label, text } => {
                symbols.insert(label_text(label), next_data);
                for c in text.chars() {
                    data.push((next_data, c as i32));
                    next_data += 1;
                }
                data.push((next_data, 0));
                next_data += 1;
            }
            _ => next_code += 1,
        }
    }
    let at = |l: &Label<String>| symbols[&label_text(l)];
    let mut program = Vec::new();
    for instr in code {
        program.push(match instr {
            Instr::Mark(_) | Instr::Block { .. } | Instr::Stringz { .. } => continue,
            Instr::Mov { dst, src } => Instruction::Mov { dst: *dst, src: source(src) },
            Instr::Lea { dst, label } => Instruction::Lea { dst: *dst, addr: at(label) },
            Instr::Load { dst, addr } => Instruction::Load { dst: *dst, addr: *addr },
            Instr::Store { addr, src } => Instruction::Store { addr: *addr, src: *src },
            Instr::Push(r) => Instruction::Push(*r),
            Instr::Pop(r) => Instruction::Pop(*r),
            Instr::Alu { op, dst, lhs, rhs } => {
                Instruction::Alu { op: *op, dst: *dst, lhs: *lhs, rhs: source(rhs) }
            }
            Instr::Neg(r) => Instruction::Neg(*r),
            Instr::Test { op, lhs, rhs } => {
                Instruction::Test { op: *op, lhs: *lhs, rhs: source(rhs) }
            }
            Instr::Jump(l) => Instruction::Jump(at(l)),
            Instr::JumpIfFalse(l) => Instruction::JumpIfFalse(at(l)),
            Instr::Call(l) => Instruction::Call(at(l)),
            Instr::Ret => Instruction::Ret,
        });
    }
    (program, data)
}

/// Compiles the program, loads it, and runs it to its exit value.
fn run(externals: Vec<External>) -> i32 {
    let mut compiler = Compiler::new(0);
    let code = compiler.generate(&RootAstNode { externals }).unwrap();
    let (program, data) = assemble(&code);
    let mut os = OS::new();
    os.reset_cpu_state();
    os.load_program(&program, PROGRAM_INIT_ADDRESS).unwrap();
    for (addr, value) in data {
        os.cpu.mem.set(addr, MemEntry::Num(value)).unwrap();
    }
    os.cpu.regs.set(&Register::IR, PROGRAM_INIT_ADDRESS as i32);
    os.initialize_stackframe();
    os.cpu.start(1_000_000).unwrap();
    os.exit_value().unwrap()
}

fn name(n: &str) -> Expression {
    Expression::NameRef(NameRef::Id(Id { name: n.to_string() }))
}

fn num(v: i32) -> Expression {
    Expression::Constant(Constant { ty: Type::Int, value: v.to_string() })
}

fn var(n: &str, ty: Type) -> Decl {
    Decl::VarDecl(VarDecl { name: n.to_string(), ty, init: None })
}

fn local(n: &str, init: Expression) -> Statement {
    Statement::Decl(Decl::VarDecl(VarDecl {
        name: n.to_string(),
        ty: Type::Int,
        init: Some(init),
    }))
}

fn set(target: Expression, value: Expression) -> Statement {
    Statement::Assignment(Assignment { op: None, lvalue: Box::new(target), rvalue: Box::new(value) })
}

fn update(op: BinaryOpKind, target: &str, value: Expression) -> Statement {
    Statement::Assignment(Assignment {
        op: Some(op),
        lvalue: Box::new(name(target)),
        rvalue: Box::new(value),
    })
}

fn binary(op: BinaryOpKind, left: Expression, right: Expression) -> Expression {
    Expression::BinaryOp(BinaryOp { op, left: Box::new(left), right: Box::new(right) })
}

fn unary(op: UnaryOpKind, expr: Expression) -> Expression {
    let id = match &expr {
        Expression::NameRef(NameRef::Id(id)) => Some(Id { name: id.name.clone() }),
        _ => None,
    };
    Expression::UnaryOp(UnaryOp { op, expr: Box::new(expr), id })
}

fn call(n: &str, args: Vec<Expression>) -> Expression {
    Expression::FuncCall(FuncCall { name: n.to_string(), args })
}

fn ret(e: Expression) -> Statement {
    Statement::Return(Return { expr: Some(e) })
}

fn block(code_loc: &str, items: Vec<Statement>) -> Compound {
    Compound { items, code_loc: code_loc.to_string() }
}

fn function(n: &str, args: Vec<Decl>, ret_type: Type, items: Vec<Statement>) -> External {
    External::FuncDef(FuncDef {
        decl: FuncDecl { name: n.to_string(), args, ret_type },
        body: block(&format!("{}-body", n), items),
    })
}

fn main_returning(e: Expression) -> i32 {
    run(vec![function("main", vec![], Type::Int, vec![ret(e)])])
}

#[test]
fn arithmetic_keeps_the_order_of_its_operands() {
    let product = binary(BinaryOpKind::Mul, num(3), num(4));
    assert_eq!(main_returning(binary(BinaryOpKind::Add, num(2), product)), 14);
    assert_eq!(main_returning(binary(BinaryOpKind::Sub, num(10), num(3))), 7);
    let difference = binary(BinaryOpKind::Sub, num(10), num(3));
    assert_eq!(main_returning(binary(BinaryOpKind::Sub, difference, num(2))), 5);
    assert_eq!(main_returning(binary(BinaryOpKind::BitAnd, num(12), num(10))), 8);
    assert_eq!(main_returning(binary(BinaryOpKind::BitOr, num(12), num(10))), 14);
    assert_eq!(main_returning(unary(UnaryOpKind::Negate, num(5))), -5);
}

#[test]
fn comparisons_and_connectives_give_zero_or_one() {
    let cases = [
        (BinaryOpKind::Equal, [0, 1, 0]),
        (BinaryOpKind::NotEqual, [1, 0, 1]),
        (BinaryOpKind::Less, [1, 0, 0]),
        (BinaryOpKind::LessEqual, [1, 1, 0]),
        (BinaryOpKind::Greater, [0, 0, 1]),
        (BinaryOpKind::GreaterEqual, [0, 1, 1]),
    ];
    for (op, expected) in cases {
        assert_eq!(main_returning(binary(op, num(1), num(2))), expected[0]);
        assert_eq!(main_returning(binary(op, num(2), num(2))), expected[1]);
        assert_eq!(main_returning(binary(op, num(3), num(2))), expected[2]);
    }
    for (a, b) in [(0, 0), (0, 5), (7, 0), (7, 5)] {
        let and = (a != 0 && b != 0) as i32;
        let or = (a != 0 || b != 0) as i32;
        assert_eq!(main_returning(binary(BinaryOpKind::LogicalAnd, num(a), num(b))), and);
        assert_eq!(main_returning(binary(BinaryOpKind::LogicalOr, num(a), num(b))), or);
    }
    assert_eq!(main_returning(unary(UnaryOpKind::Not, num(0))), 1);
    assert_eq!(main_returning(unary(UnaryOpKind::Not, num(9))), 0);
}

#[test]
fn ternary_runs_exactly_one_arm() {
    let pick = |c: i32| {
        main_returning(Expression::TernaryOp(TernaryOp {
            cond: Box::new(num(c)),
            if_true: Box::new(num(10)),
            if_false: Box::new(num(20)),
        }))
    };
    assert_eq!(pick(1), 10);
    assert_eq!(pick(0), 20);
}

#[test]
fn locals_of_nested_blocks_keep_their_values() {
    let r = run(vec![function(
        "main",
        vec![],
        Type::Int,
        vec![
            local("a", num(1)),
            Statement::Compound(block(
                "inner",
                vec![local("b", num(10)), update(BinaryOpKind::Add, "a", name("b"))],
            )),
            Statement::Compound(block(
                "other",
                vec![local("c", num(100)), update(BinaryOpKind::Add, "a", name("c"))],
            )),
            local("d", num(1000)),
            ret(binary(BinaryOpKind::Add, name("a"), name("d"))),
        ],
    )]);
    assert_eq!(r, 1111);
}

#[test]
fn a_shadowing_variable_hides_the_outer_one_in_its_block_only() {
    let r = run(vec![function(
        "main",
        vec![],
        Type::Int,
        vec![
            local("x", num(1)),
            local("seen", num(0)),
            Statement::Compound(block(
                "inner",
                vec![
                    set(name("seen"), name("x")),
                    local("x", num(5)),
                    update(BinaryOpKind::Mul, "seen", num(10)),
                    update(BinaryOpKind::Add, "seen", name("x")),
                ],
            )),
            ret(binary(
                BinaryOpKind::Add,
                binary(BinaryOpKind::Mul, name("seen"), num(10)),
                name("x"),
            )),
        ],
    )]);
    assert_eq!(r, 151);
}

#[test]
fn calls_pass_arguments_and_return_values() {
    let sub = function(
        "sub",
        vec![var("a", Type::Int), var("b", Type::Int)],
        Type::Int,
        vec![ret(binary(BinaryOpKind::Sub, name("a"), name("b")))],
    );
    let main = function(
        "main",
        vec![],
        Type::Int,
        vec![ret(binary(
            BinaryOpKind::Add,
            call("sub", vec![num(50), num(8)]),
            call("sub", vec![num(1), call("sub", vec![num(3), num(2)])]),
        ))],
    );
    assert_eq!(run(vec![sub, main]), 42);
}

#[test]
fn recursion_and_early_return() {
    let fact = function(
        "fact",
        vec![var("n", Type::Int)],
        Type::Int,
        vec![
            Statement::If(If {
                cond: binary(BinaryOpKind::LessEqual, name("n"), num(1)),
                if_true: block("base", vec![ret(num(1))]),
                if_false: None,
            }),
            ret(binary(
                BinaryOpKind::Mul,
                name("n"),
                call("fact", vec![binary(BinaryOpKind::Sub, name("n"), num(1))]),
            )),
        ],
    );
    let main = function("main", vec![], Type::Int, vec![ret(call("fact", vec![num(5)]))]);
    assert_eq!(run(vec![fact, main]), 120);
}

#[test]
fn a_function_without_result_leaves_the_stack_balanced() {
    let bump = function(
        "bump",
        vec![var("by", Type::Int)],
        Type::Void,
        vec![update(BinaryOpKind::Add, "total", name("by"))],
    );
    let main = function(
        "main",
        vec![],
        Type::Int,
        vec![
            local("keep", num(7)),
            Statement::Expression(call("bump", vec![num(30)])),
            Statement::Expression(call("bump", vec![num(5)])),
            ret(binary(BinaryOpKind::Add, name("total"), name("keep"))),
        ],
    );
    assert_eq!(run(vec![External::VarDecl(var("total", Type::Int)), bump, main]), 42);
}

#[test]
fn running_a_while_loop_with_break_and_continue() {
    // Sums the odd numbers below 10.
    let r = run(vec![function(
        "main",
        vec![],
        Type::Int,
        vec![
            local("i", num(0)),
            local("sum", num(0)),
            Statement::WhileLoop(WhileLoop {
                cond: num(1),
                body: block(
                    "loop",
                    vec![
                        Statement::Expression(unary(UnaryOpKind::PostIncrement, name("i"))),
                        Statement::If(If {
                            cond: binary(BinaryOpKind::GreaterEqual, name("i"), num(10)),
                            if_true: block("stop", vec![Statement::Break]),
                            if_false: None,
                        }),
                        Statement::If(If {
                            cond: binary(
                                BinaryOpKind::Equal,
                                binary(BinaryOpKind::BitAnd, name("i"), num(1)),
                                num(0),
                            ),
                            if_true: block("skip", vec![Statement::Continue]),
                            if_false: None,
                        }),
                        update(BinaryOpKind::Add, "sum", name("i")),
                    ],
                ),
                code_loc: "loop".to_string(),
            }),
            ret(name("sum")),
        ],
    )]);
    assert_eq!(r, 25);
}

#[test]
fn for_loop_continue_reaches_the_step() {
    // Sums 0..10 without 5.
    let r = run(vec![function(
        "main",
        vec![],
        Type::Int,
        vec![
            local("sum", num(0)),
            Statement::ForLoop(ForLoop {
                init: Some(block("init", vec![local("i", num(0))])),
                cond: Some(binary(BinaryOpKind::Less, name("i"), num(10))),
                next: Some(block(
                    "next",
                    vec![Statement::Expression(unary(UnaryOpKind::PreIncrement, name("i")))],
                )),
                body: block(
                    "for",
                    vec![
                        Statement::If(If {
                            cond: binary(BinaryOpKind::Equal, name("i"), num(5)),
                            if_true: block("skip", vec![Statement::Continue]),
                            if_false: None,
                        }),
                        update(BinaryOpKind::Add, "sum", name("i")),
                    ],
                ),
                code_loc: "for".to_string(),
            }),
            ret(name("sum")),
        ],
    )]);
    assert_eq!(r, 40);
}

#[test]
fn increments_return_the_old_or_the_new_value() {
    let with = |op: UnaryOpKind| {
        run(vec![function(
            "main",
            vec![],
            Type::Int,
            vec![
                local("n", num(5)),
                local("got", unary(op, name("n"))),
                ret(binary(
                    BinaryOpKind::Add,
                    binary(BinaryOpKind::Mul, name("got"), num(100)),
                    name("n"),
                )),
            ],
        )])
    };
    assert_eq!(with(UnaryOpKind::PostIncrement), 506);
    assert_eq!(with(UnaryOpKind::PreIncrement), 606);
    assert_eq!(with(UnaryOpKind::PostDecrement), 504);
    assert_eq!(with(UnaryOpKind::PreDecrement), 404);
}

#[test]
fn pointers_reach_variables() {
    let r = run(vec![function(
        "main",
        vec![],
        Type::Int,
        vec![
            local("x", num(1)),
            Statement::Decl(var("p", Type::Ptr(Box::new(Type::Int)))),
            set(name("p"), unary(UnaryOpKind::AddressOf, name("x"))),
            set(unary(UnaryOpKind::Dereference, name("p")), num(41)),
            ret(binary(BinaryOpKind::Add, unary(UnaryOpKind::Dereference, name("p")), num(1))),
        ],
    )]);
    assert_eq!(r, 42);
}

fn item(n: &str, indices: Vec<Expression>) -> Expression {
    Expression::NameRef(NameRef::ArrayRef(ArrayRef {
        name: Box::new(NameRef::Id(Id { name: n.to_string() })),
        indices,
    }))
}

#[test]
fn global_array_is_indexed_row_by_row() {
    // grid[i][j] = 10 * i + j; the items are then read through a pointer.
    let fill = |i: i32, j: i32| set(item("grid", vec![num(i), num(j)]), num(10 * i + j));
    let read = |k: i32| {
        run(vec![
            External::VarDecl(Decl::ArrayDecl(ArrayDecl {
                name: "grid".to_string(),
                ty: Type::Int,
                dimensions: vec![2, 3],
                init: None,
            })),
            function(
                "main",
                vec![],
                Type::Int,
                vec![
                    fill(0, 0),
                    fill(0, 1),
                    fill(0, 2),
                    fill(1, 0),
                    fill(1, 1),
                    fill(1, 2),
                    Statement::Decl(var("p", Type::Ptr(Box::new(Type::Int)))),
                    set(name("p"), name("grid")),
                    update(BinaryOpKind::Add, "p", num(k)),
                    ret(unary(UnaryOpKind::Dereference, name("p"))),
                ],
            ),
        ])
    };
    assert_eq!([read(0), read(1), read(2), read(3), read(4), read(5)], [0, 1, 2, 10, 11, 12]);
}

#[test]
fn fields_are_reached_through_pointers() {
    let field = |f: &str| {
        Expression::NameRef(NameRef::StructRef(StructRef {
            name: Box::new(NameRef::Id(Id { name: "p".to_string() })),
            field: f.to_string(),
            access: FieldAccess::Arrow,
        }))
    };
    let r = run(vec![
        External::StructDecl(StructDecl {
            name: "P".to_string(),
            items: vec![var("x", Type::Int), var("y", Type::Int)],
        }),
        External::FuncDecl(FuncDecl {
            name: "unused".to_string(),
            args: vec![],
            ret_type: Type::Void,
        }),
        External::VarDecl(var("unit", Type::Int)),
        External::VarDecl(Decl::ArrayDecl(ArrayDecl {
            name: "words".to_string(),
            ty: Type::Int,
            dimensions: vec![2],
            init: None,
        })),
        function(
            "main",
            vec![],
            Type::Int,
            vec![
                Statement::Decl(var("p", Type::Ptr(Box::new(Type::Struct("P".to_string()))))),
                set(name("p"), name("words")),
                set(field("x"), num(4)),
                set(field("y"), num(1)),
                set(field("y"), binary(BinaryOpKind::Add, field("y"), field("y"))),
                ret(binary(
                    BinaryOpKind::Add,
                    binary(BinaryOpKind::Mul, item("words", vec![num(0)]), num(10)),
                    item("words", vec![num(1)]),
                )),
            ],
        ),
    ]);
    assert_eq!(r, 42);
}

#[test]
fn a_string_literal_is_the_address_of_its_text() {
    let text = Expression::Constant(Constant { ty: Type::Str, value: "\"hi\"".to_string() });
    let r = run(vec![function(
        "main",
        vec![],
        Type::Int,
        vec![
            Statement::Decl(var("s", Type::Ptr(Box::new(Type::Char)))),
            set(name("s"), text),
            Statement::Expression(unary(UnaryOpKind::PostIncrement, name("s"))),
            ret(unary(UnaryOpKind::Dereference, name("s"))),
        ],
    )]);
    assert_eq!(r, 'i' as i32);
}
