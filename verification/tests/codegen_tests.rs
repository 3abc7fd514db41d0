use microcc::ast::{
    ArrayDecl, ArrayRef, Assignment, BinaryOp, BinaryOpKind, Cast, Compound, Constant, Decl,
    DoWhileLoop, Expression, External, FieldAccess, ForLoop, FuncCall, FuncDecl, FuncDef, Id, If,
    NameRef, Return, RootAstNode, Statement, StructDecl, StructRef, TernaryOp, TypeName, UnaryOp,
    UnaryOpKind, VarDecl, WhileLoop,
};
use microcc::compiler::Compiler;
use microcc::error::CompileError;
use microcc::instruction::Instr;
use microcc::types::Type;

fn name(n: &str) -> Expression {
    Expression::NameRef(NameRef::Id(Id { name: n.to_string() }))
}

fn num(v: &str) -> Expression {
    Expression::Constant(Constant { ty: Type::Int, value: v.to_string() })
}

fn var(n: &str, ty: Type) -> Decl {
    Decl::VarDecl(VarDecl { name: n.to_string(), ty, init: None })
}

fn var_init(n: &str, ty: Type, init: Expression) -> Decl {
    Decl::VarDecl(VarDecl { name: n.to_string(), ty, init: Some(init) })
}

fn array(n: &str, ty: Type, dimensions: Vec<u32>) -> Decl {
    Decl::ArrayDecl(ArrayDecl { name: n.to_string(), ty, dimensions, init: None })
}

fn ptr(ty: Type) -> Type {
    Type::Ptr(Box::new(ty))
}

fn structure(n: &str) -> Type {
    Type::Struct(n.to_string())
}

fn assign_to(lvalue: Expression, value: Expression) -> Statement {
    Statement::Assignment(Assignment { op: None, lvalue: Box::new(lvalue), rvalue: Box::new(value) })
}

fn binary(op: BinaryOpKind, left: Expression, right: Expression) -> Expression {
    Expression::BinaryOp(BinaryOp { op, left: Box::new(left), right: Box::new(right) })
}

fn unary(op: UnaryOpKind, expr: Expression) -> Expression {
    let id = match &expr {
        Expression::NameRef(NameRef::Id(id)) => Some(Id { name: id.name.clone() }),
        _ => None,
    };
    Expression::UnaryOp(UnaryOp { op, expr: Box::new(expr), id })
}

fn call(n: &str, args: Vec<Expression>) -> Expression {
    Expression::FuncCall(FuncCall { name: n.to_string(), args })
}

fn block(code_loc: &str, items: Vec<Statement>) -> Compound {
    Compound { items, code_loc: code_loc.to_string() }
}

fn function(n: &str, args: Vec<Decl>, ret_type: Type, items: Vec<Statement>) -> External {
    External::FuncDef(FuncDef {
        decl: FuncDecl { name: n.to_string(), args, ret_type },
        body: block(&format!("{}-body", n), items),
    })
}

fn struct_decl(n: &str, items: Vec<Decl>) -> External {
    External::StructDecl(StructDecl { name: n.to_string(), items })
}

fn compile(externals: Vec<External>) -> Result<Vec<String>, CompileError> {
    let mut compiler = Compiler::new(0);
    let code = compiler.generate(&RootAstNode { externals })?;
    Ok(code.iter().map(|i: &Instr<String>| i.render()).collect())
}

/// The lines that the statements `items` give as the body of `main`, which
/// has `locals` words of local variables: what lies between the prologue
/// and the epilogue.
fn body_of_main(before: Vec<External>, items: Vec<Statement>, locals: usize) -> Vec<String> {
    let mut externals = before;
    externals.push(function("main", vec![], Type::Int, items));
    let all = compile(externals).unwrap();
    let start = all.iter().position(|l| l == "main:").unwrap() + 3 + locals;
    let end = all.iter().position(|l| l == "_main_END:").unwrap();
    all[start..end].to_vec()
}

fn error_of_main(before: Vec<External>, items: Vec<Statement>) -> CompileError {
    let mut externals = before;
    externals.push(function("main", vec![], Type::Int, items));
    compile(externals).unwrap_err()
}

#[test]
fn whole_program_with_one_local() {
    let lines = compile(vec![function(
        "main",
        vec![],
        Type::Int,
        vec![
            Statement::Decl(var("a", Type::Int)),
            assign_to(name("a"), num("5")),
            Statement::Return(Return { expr: Some(name("a")) }),
        ],
    )])
    .unwrap();
    assert_eq!(
        lines,
        vec![
            ".block GLOBAL_0 0",
            "JUMP main",
            "main:",
            "PUSH R1",
            "PUSH R2",
            "PUSH ZR",
            "ADD R1 BP -3",
            "PUSH R1",
            "MOV R1 5",
            "POP R2",
            "STR R2 R1",
            "ADD R1 BP -3",
            "LOAD R1 R1",
            "ADD R2 BP 2",
            "STR R2 R1",
            "JUMP _main_END",
            "_main_END:",
            "POP ZR",
            "POP R2",
            "POP R1",
            "RET",
        ]
    );
}

#[test]
fn compile_joins_the_lines_with_line_feeds() {
    let program = RootAstNode {
        externals: vec![function("main", vec![], Type::Void, vec![])],
    };
    let text = Compiler::compile(&program, 7).unwrap();
    assert_eq!(
        text,
        ".block GLOBAL_7 0\nJUMP main\nmain:\nPUSH R1\nPUSH R2\n_main_END:\nPOP R2\nPOP R1\nRET"
    );
}

#[test]
fn block_scoping_does_not_reuse_stack_slots() {
    let mut compiler = Compiler::new(0);
    let program = RootAstNode {
        externals: vec![function(
            "main",
            vec![],
            Type::Int,
            vec![
                Statement::Decl(var("a", Type::Int)),
                Statement::Compound(block("inner", vec![Statement::Decl(var("c", Type::Int))])),
                Statement::Decl(var("b", Type::Int)),
            ],
        )],
    };
    compiler.generate(&program).unwrap();
    let main = compiler.get_scope_data("main").unwrap();
    let inner = compiler.get_scope_data("inner").unwrap();
    let a = main.variables.get("a").unwrap();
    let b = main.variables.get("b").unwrap();
    let c = inner.variables.get("c").unwrap();
    assert_eq!((a.offset, a.size), (0, 1));
    assert_eq!((c.offset, c.size), (1, 1));
    assert_eq!((b.offset, b.size), (2, 1));
    let body = compiler.get_func_data("main").unwrap().body_data.as_ref().unwrap();
    assert_eq!(body.local_vars_size, 3);
    assert_eq!(inner.parent_scope, "main");
    assert_eq!(inner.parent_func, "main");
}

#[test]
fn variables_of_all_blocks_of_a_function_are_disjoint() {
    let mut compiler = Compiler::new(0);
    let program = RootAstNode {
        externals: vec![
            struct_decl("P", vec![var("x", Type::Int), var("y", Type::Int)]),
            function(
                "f",
                vec![var("n", Type::Int), var("p", structure("P"))],
                Type::Int,
                vec![
                    Statement::Decl(array("m", Type::Int, vec![2, 3])),
                    Statement::If(If {
                        cond: name("n"),
                        if_true: block("yes", vec![Statement::Decl(var("s", structure("P")))]),
                        if_false: Some(block("no", vec![Statement::Decl(var("t", Type::Char))])),
                    }),
                    Statement::ForLoop(ForLoop {
                        init: Some(block(
                            "for-init",
                            vec![Statement::Decl(var_init("i", Type::Int, num("0")))],
                        )),
                        cond: None,
                        next: None,
                        body: block("for", vec![Statement::Decl(var("u", Type::Int))]),
                        code_loc: "for".to_string(),
                    }),
                    Statement::Decl(var("last", Type::Int)),
                ],
            ),
        ],
    };
    compiler.generate(&program).unwrap();
    let mut locals: Vec<(u32, u32)> = Vec::new();
    for (scope, names) in [
        ("f", vec!["m", "last"]),
        ("yes", vec!["s"]),
        ("no", vec!["t"]),
        ("for", vec!["i", "u"]),
    ] {
        let data = compiler.get_scope_data(scope).unwrap();
        for n in names {
            let v = data.variables.get(n).unwrap();
            locals.push((v.offset, v.size));
        }
    }
    assert_eq!(locals, vec![(0, 6), (11, 1), (6, 2), (8, 1), (9, 1), (10, 1)]);
    for (i, a) in locals.iter().enumerate() {
        for (j, b) in locals.iter().enumerate() {
            if i != j {
                assert!(a.0 + a.1 <= b.0 || b.0 + b.1 <= a.0);
            }
        }
    }
    let f = compiler.get_scope_data("f").unwrap();
    let n = f.variables.get("n").unwrap();
    let p = f.variables.get("p").unwrap();
    assert_eq!((n.offset, n.size), (0, 1));
    assert_eq!((p.offset, p.size), (1, 2));
    let body = compiler.get_func_data("f").unwrap().body_data.as_ref().unwrap();
    assert_eq!(body.local_vars_size, 12);
}

#[test]
fn struct_fields_are_laid_out_without_padding() {
    let mut compiler = Compiler::new(0);
    compiler
        .register_struct(&StructDecl {
            name: "Inner".to_string(),
            items: vec![var("a", Type::Int), var("b", Type::Char)],
        })
        .unwrap();
    compiler
        .register_struct(&StructDecl {
            name: "Outer".to_string(),
            items: vec![
                var("head", Type::Int),
                var("inner", structure("Inner")),
                array("grid", Type::Int, vec![2, 3]),
                var("link", ptr(structure("Outer"))),
            ],
        })
        .unwrap();
    let outer = compiler.get_struct_data("Outer").unwrap();
    assert_eq!(outer.size, 10);
    let fields: Vec<(u32, u32)> = ["head", "inner", "grid", "link"]
        .iter()
        .map(|n| {
            let f = outer.items.get(n).unwrap();
            (f.offset, f.size)
        })
        .collect();
    assert_eq!(fields, vec![(0, 1), (1, 2), (3, 6), (9, 1)]);
    assert!(outer.items.get("missing").is_none());
}

#[test]
fn a_structure_registered_again_replaces_the_earlier_one() {
    let mut compiler = Compiler::new(0);
    compiler
        .register_struct(&StructDecl { name: "S".to_string(), items: vec![var("a", Type::Int)] })
        .unwrap();
    compiler
        .register_struct(&StructDecl {
            name: "S".to_string(),
            items: vec![var("b", Type::Int), var("c", Type::Int)],
        })
        .unwrap();
    let s = compiler.get_struct_data("S").unwrap();
    assert_eq!(s.size, 2);
    assert!(s.items.get("a").is_none());
    assert_eq!(s.items.get("c").unwrap().offset, 1);
}

#[test]
fn a_field_declared_twice_keeps_its_last_slot() {
    let mut compiler = Compiler::new(0);
    compiler
        .register_struct(&StructDecl {
            name: "S".to_string(),
            items: vec![var("a", Type::Int), var("b", Type::Int), var("a", Type::Int)],
        })
        .unwrap();
    let s = compiler.get_struct_data("S").unwrap();
    assert_eq!(s.size, 3);
    assert_eq!(s.items.get("a").unwrap().offset, 2);
    assert_eq!(s.items.get("b").unwrap().offset, 1);
}

#[test]
fn shadowed_name_resolves_to_the_innermost_scope() {
    let mut compiler = Compiler::new(0);
    let program = RootAstNode {
        externals: vec![function(
            "main",
            vec![],
            Type::Int,
            vec![
                Statement::Decl(var("x", Type::Int)),
                Statement::Compound(block("inner", vec![Statement::Decl(var("x", Type::Int))])),
            ],
        )],
    };
    let main = match &program.externals[0] {
        External::FuncDef(def) => def,
        _ => panic!(),
    };
    compiler.generate(&RootAstNode { externals: vec![] }).unwrap();
    compiler.register_func_decl(&main.decl);
    compiler.register_func_body(&main.body, &main.decl, "_GLOBAL").unwrap();
    // Nothing is declared yet.
    assert!(compiler.find_variable("x", "inner").unwrap().is_none());
    // The outer declaration is seen from the inner block.
    compiler.update_var_declared("x", "main").unwrap();
    assert_eq!(compiler.find_variable("x", "inner").unwrap().unwrap().offset, 0);
    // The inner declaration shadows it, in the inner block only.
    compiler.update_var_declared("x", "inner").unwrap();
    assert_eq!(compiler.find_variable("x", "inner").unwrap().unwrap().offset, 1);
    assert_eq!(compiler.find_variable("x", "main").unwrap().unwrap().offset, 0);
}

#[test]
fn use_before_declaration_is_rejected() {
    let e = error_of_main(
        vec![],
        vec![assign_to(name("a"), num("1")), Statement::Decl(var("a", Type::Int))],
    );
    assert_eq!(e, CompileError::UndefinedVariable);
}

#[test]
fn array_indexing_is_row_major() {
    let index = Expression::NameRef(NameRef::ArrayRef(ArrayRef {
        name: Box::new(NameRef::Id(Id { name: "m".to_string() })),
        indices: vec![num("1"), num("2")],
    }));
    let lines = body_of_main(
        vec![],
        vec![Statement::Decl(array("m", Type::Int, vec![2, 3])), Statement::Expression(index)],
        6,
    );
    assert_eq!(
        lines,
        vec![
            "ADD R1 BP -3",
            "MOV R2 R1",
            "PUSH R2",
            "MOV R1 2",
            "POP R2",
            "MUL R1 R1 1",
            "MUL R1 R1 1",
            "ADD R2 R2 R1",
            "PUSH R2",
            "MOV R1 1",
            "POP R2",
            "MUL R1 R1 3",
            "MUL R1 R1 1",
            "ADD R2 R2 R1",
            "MOV R1 R2",
            "LOAD R1 R1",
        ]
    );
}

#[test]
fn array_of_structures_scales_by_the_size_of_an_item() {
    let index = Expression::NameRef(NameRef::ArrayRef(ArrayRef {
        name: Box::new(NameRef::Id(Id { name: "v".to_string() })),
        indices: vec![name("i")],
    }));
    let lines = body_of_main(
        vec![struct_decl("P", vec![var("x", Type::Int), var("y", Type::Int)])],
        vec![
            Statement::Decl(var("i", Type::Int)),
            Statement::Decl(array("v", structure("P"), vec![4])),
            Statement::Expression(unary(UnaryOpKind::AddressOf, index)),
        ],
        9,
    );
    assert_eq!(
        lines,
        vec![
            "ADD R1 BP -4",
            "MOV R2 R1",
            "PUSH R2",
            "ADD R1 BP -3",
            "LOAD R1 R1",
            "POP R2",
            "MUL R1 R1 1",
            "MUL R1 R1 2",
            "ADD R2 R2 R1",
            "MOV R1 R2",
        ]
    );
}

#[test]
fn array_rank_mismatch_is_rejected() {
    let index = Expression::NameRef(NameRef::ArrayRef(ArrayRef {
        name: Box::new(NameRef::Id(Id { name: "m".to_string() })),
        indices: vec![num("1")],
    }));
    let e = error_of_main(
        vec![],
        vec![Statement::Decl(array("m", Type::Int, vec![2, 3])), Statement::Expression(index)],
    );
    assert_eq!(e, CompileError::ArrayRankMismatch);
}

#[test]
fn indexing_a_scalar_is_rejected() {
    let index = Expression::NameRef(NameRef::ArrayRef(ArrayRef {
        name: Box::new(NameRef::Id(Id { name: "a".to_string() })),
        indices: vec![num("1")],
    }));
    let e = error_of_main(
        vec![],
        vec![Statement::Decl(var("a", Type::Int)), Statement::Expression(index)],
    );
    assert_eq!(e, CompileError::NotAnArray);
}

#[test]
fn an_array_name_decays_to_its_address() {
    let lines = body_of_main(
        vec![],
        vec![
            Statement::Decl(array("m", Type::Int, vec![3])),
            Statement::Decl(var("p", ptr(Type::Int))),
            assign_to(name("p"), name("m")),
        ],
        4,
    );
    assert_eq!(
        lines,
        vec!["ADD R1 BP -6", "PUSH R1", "ADD R1 BP -3", "POP R2", "STR R2 R1"]
    );
}

#[test]
fn call_of_a_function_without_result_pops_nothing_into_the_accumulator() {
    let lines = body_of_main(
        vec![function("f", vec![var("a", Type::Int), var("b", Type::Int)], Type::Void, vec![])],
        vec![Statement::Expression(call("f", vec![num("1"), num("2")]))],
        0,
    );
    assert_eq!(
        lines,
        vec!["MOV R1 2", "PUSH R1", "MOV R1 1", "PUSH R1", "CALL f", "POP ZR", "POP ZR"]
    );
    assert!(!lines.contains(&"POP R1".to_string()));
}

#[test]
fn call_of_a_function_with_result_pops_it_exactly_once() {
    let lines = body_of_main(
        vec![function("f", vec![var("a", Type::Int)], Type::Int, vec![])],
        vec![Statement::Expression(call("f", vec![num("1")]))],
        0,
    );
    assert_eq!(lines, vec!["MOV R1 1", "PUSH R1", "PUSH ZR", "CALL f", "POP R1", "POP ZR"]);
    assert_eq!(lines.iter().filter(|l| *l == "POP R1").count(), 1);
}

#[test]
fn call_of_a_function_that_returns_a_structure_reserves_all_its_words() {
    let lines = body_of_main(
        vec![
            struct_decl("P", vec![var("x", Type::Int), var("y", Type::Int), var("z", Type::Int)]),
            function("f", vec![], structure("P"), vec![]),
        ],
        vec![Statement::Expression(call("f", vec![]))],
        0,
    );
    assert_eq!(lines, vec!["PUSH ZR", "PUSH ZR", "PUSH ZR", "CALL f", "POP R1"]);
}

#[test]
fn call_of_a_prototype_is_accepted_and_of_an_unknown_function_rejected() {
    let proto = External::FuncDecl(FuncDecl {
        name: "later".to_string(),
        args: vec![],
        ret_type: Type::Int,
    });
    let lines =
        body_of_main(vec![proto], vec![Statement::Expression(call("later", vec![]))], 0);
    assert_eq!(lines, vec!["PUSH ZR", "CALL later", "POP R1"]);
    let e = error_of_main(vec![], vec![Statement::Expression(call("nobody", vec![]))]);
    assert_eq!(e, CompileError::UnknownFunction);
}

#[test]
fn a_function_can_call_itself() {
    let lines = body_of_main(vec![], vec![Statement::Expression(call("main", vec![]))], 0);
    assert_eq!(lines, vec!["PUSH ZR", "CALL main", "POP R1"]);
}

#[test]
fn the_first_declaration_of_a_function_counts() {
    let mut compiler = Compiler::new(0);
    compiler.register_func_decl(&FuncDecl {
        name: "f".to_string(),
        args: vec![var("a", Type::Int)],
        ret_type: Type::Int,
    });
    compiler.register_func_decl(&FuncDecl {
        name: "f".to_string(),
        args: vec![],
        ret_type: Type::Void,
    });
    let f = compiler.get_func_data("f").unwrap();
    assert_eq!(f.decl_data.args_types.len(), 1);
    assert!(matches!(f.decl_data.return_type, Type::Int));
    assert!(f.body_data.is_none());
}

#[test]
fn a_body_needs_a_declared_function() {
    let mut compiler = Compiler::new(0);
    let decl = FuncDecl { name: "f".to_string(), args: vec![], ret_type: Type::Void };
    let r = compiler.register_func_body(&block("b", vec![]), &decl, "_GLOBAL");
    assert_eq!(r, Err(CompileError::FunctionNotDeclared));
}

#[test]
fn pointer_increment_steps_by_the_size_of_the_pointee() {
    let lines = body_of_main(
        vec![struct_decl("P", vec![var("x", Type::Int), var("y", Type::Int), var("z", Type::Int)])],
        vec![
            Statement::Decl(var("p", ptr(Type::Int))),
            Statement::Decl(var("q", ptr(structure("P")))),
            Statement::Decl(var("n", Type::Int)),
            Statement::Expression(unary(UnaryOpKind::PostIncrement, name("p"))),
            Statement::Expression(unary(UnaryOpKind::PostIncrement, name("q"))),
            Statement::Expression(unary(UnaryOpKind::PreDecrement, name("q"))),
            Statement::Expression(unary(UnaryOpKind::PreIncrement, name("n"))),
            Statement::Expression(unary(UnaryOpKind::PostDecrement, name("n"))),
        ],
        3,
    );
    assert_eq!(
        lines,
        vec![
            "ADD R1 BP -3",
            "LOAD R2 R1",
            "PUSH R2",
            "ADD R2 R2 1",
            "STR R1 R2",
            "POP R1",
            "ADD R1 BP -4",
            "LOAD R2 R1",
            "PUSH R2",
            "ADD R2 R2 3",
            "STR R1 R2",
            "POP R1",
            "ADD R1 BP -4",
            "LOAD R2 R1",
            "SUB R2 R2 3",
            "STR R1 R2",
            "MOV R1 R2",
            "ADD R1 BP -5",
            "LOAD R2 R1",
            "ADD R2 R2 1",
            "STR R1 R2",
            "MOV R1 R2",
            "ADD R1 BP -5",
            "LOAD R2 R1",
            "PUSH R2",
            "SUB R2 R2 1",
            "STR R1 R2",
            "POP R1",
        ]
    );
}

#[test]
fn increment_needs_a_named_variable() {
    let deref = unary(UnaryOpKind::Dereference, name("p"));
    let e = error_of_main(
        vec![],
        vec![
            Statement::Decl(var("p", ptr(Type::Int))),
            Statement::Expression(unary(UnaryOpKind::PostIncrement, deref)),
        ],
    );
    assert_eq!(e, CompileError::NotAVariable);
}

#[test]
fn assignment_through_a_pointer_to_a_structure() {
    let target = Expression::NameRef(NameRef::StructRef(StructRef {
        name: Box::new(NameRef::Id(Id { name: "a".to_string() })),
        field: "x".to_string(),
        access: FieldAccess::Arrow,
    }));
    let lines = body_of_main(
        vec![struct_decl("S", vec![var("w", Type::Int), var("x", Type::Int)])],
        vec![Statement::Decl(var("a", ptr(structure("S")))), assign_to(target, num("5"))],
        1,
    );
    assert_eq!(
        lines,
        vec![
            "ADD R1 BP -3",
            "LOAD R1 R1",
            "ADD R1 R1 1",
            "PUSH R1",
            "MOV R1 5",
            "POP R2",
            "STR R2 R1",
        ]
    );
}

#[test]
fn field_of_a_structure_is_reached_without_a_load() {
    let field = Expression::NameRef(NameRef::StructRef(StructRef {
        name: Box::new(NameRef::Id(Id { name: "s".to_string() })),
        field: "x".to_string(),
        access: FieldAccess::Dot,
    }));
    let lines = body_of_main(
        vec![struct_decl("S", vec![var("w", Type::Int), var("x", Type::Int)])],
        vec![Statement::Decl(var("s", structure("S"))), Statement::Expression(field)],
        2,
    );
    assert_eq!(lines, vec!["ADD R1 BP -3", "ADD R1 R1 1", "LOAD R1 R1"]);
}

#[test]
fn field_errors() {
    let field = |n: &str, f: &str, access: FieldAccess| {
        Statement::Expression(Expression::NameRef(NameRef::StructRef(StructRef {
            name: Box::new(NameRef::Id(Id { name: n.to_string() })),
            field: f.to_string(),
            access,
        })))
    };
    let s = || struct_decl("S", vec![var("x", Type::Int)]);
    assert_eq!(
        error_of_main(
            vec![s()],
            vec![Statement::Decl(var("s", structure("S"))), field("s", "y", FieldAccess::Dot)]
        ),
        CompileError::UnknownField
    );
    assert_eq!(
        error_of_main(
            vec![s()],
            vec![Statement::Decl(var("n", Type::Int)), field("n", "x", FieldAccess::Dot)]
        ),
        CompileError::NotAStruct
    );
    assert_eq!(
        error_of_main(
            vec![s()],
            vec![Statement::Decl(var("p", ptr(structure("S")))), field("p", "x", FieldAccess::Dot)]
        ),
        CompileError::NotAStruct
    );
    assert_eq!(
        error_of_main(
            vec![s()],
            vec![
                Statement::Decl(var("p", ptr(structure("T")))),
                field("p", "x", FieldAccess::Arrow)
            ]
        ),
        CompileError::UnknownStruct
    );
    assert_eq!(
        error_of_main(vec![], vec![Statement::Decl(var("t", structure("T")))]),
        CompileError::UnknownStruct
    );
}

#[test]
fn break_outside_any_loop_is_rejected() {
    assert_eq!(error_of_main(vec![], vec![Statement::Break]), CompileError::LoopScopeNotFound);
    assert_eq!(error_of_main(vec![], vec![Statement::Continue]), CompileError::LoopScopeNotFound);
    let in_block = Statement::Compound(block("b", vec![Statement::Break]));
    assert_eq!(error_of_main(vec![], vec![in_block]), CompileError::LoopScopeNotFound);
}

#[test]
fn while_loop_with_break_and_continue() {
    let lines = body_of_main(
        vec![],
        vec![Statement::WhileLoop(WhileLoop {
            cond: num("1"),
            body: block(
                "w",
                vec![
                    Statement::Compound(block("inner", vec![Statement::Break])),
                    Statement::Continue,
                ],
            ),
            code_loc: "w".to_string(),
        })],
        0,
    );
    assert_eq!(
        lines,
        vec![
            "WHILE_0_0_START:",
            "MOV R1 1",
            "TSTN R1 0",
            "FJMP WHILE_0_0_END",
            "JUMP WHILE_0_0_END",
            "JUMP WHILE_0_0_START",
            "JUMP WHILE_0_0_START",
            "WHILE_0_0_END:",
        ]
    );
}

#[test]
fn do_while_loop() {
    let lines = body_of_main(
        vec![],
        vec![Statement::DoWhileLoop(DoWhileLoop {
            cond: num("0"),
            body: block("d", vec![Statement::Continue, Statement::Break]),
            code_loc: "d".to_string(),
        })],
        0,
    );
    assert_eq!(
        lines,
        vec![
            "JUMP DOWHILE_0_0_BODY",
            "DOWHILE_0_0_COND:",
            "MOV R1 0",
            "TSTN R1 0",
            "FJMP DOWHILE_0_0_END",
            "DOWHILE_0_0_BODY:",
            "JUMP DOWHILE_0_0_COND",
            "JUMP DOWHILE_0_0_END",
            "JUMP DOWHILE_0_0_COND",
            "DOWHILE_0_0_END:",
        ]
    );
}

#[test]
fn for_loop_has_its_next_label_even_without_a_step() {
    let lines = body_of_main(
        vec![],
        vec![Statement::ForLoop(ForLoop {
            init: Some(block("init", vec![Statement::Decl(var_init("i", Type::Int, num("0")))])),
            cond: Some(binary(BinaryOpKind::Less, name("i"), num("3"))),
            next: None,
            body: block("f", vec![Statement::Continue]),
            code_loc: "f".to_string(),
        })],
        1,
    );
    assert_eq!(
        lines,
        vec![
            "ADD R1 BP -3",
            "PUSH R1",
            "MOV R1 0",
            "POP R2",
            "STR R2 R1",
            "FOR_0_0_COND:",
            "ADD R1 BP -3",
            "LOAD R1 R1",
            "PUSH R1",
            "MOV R1 3",
            "POP R2",
            "TSTL R2 R1",
            "MOV R1 ZR",
            "TSTN R1 0",
            "FJMP FOR_0_0_END",
            "JUMP FOR_0_0_NEXT",
            "FOR_0_0_NEXT:",
            "JUMP FOR_0_0_COND",
            "FOR_0_0_END:",
        ]
    );
}

#[test]
fn if_with_and_without_else_uses_fresh_labels() {
    let lines = body_of_main(
        vec![],
        vec![
            Statement::If(If {
                cond: num("1"),
                if_true: block("a", vec![Statement::Expression(num("2"))]),
                if_false: Some(block("b", vec![Statement::Expression(num("3"))])),
            }),
            Statement::If(If { cond: num("4"), if_true: block("c", vec![]), if_false: None }),
        ],
        0,
    );
    assert_eq!(
        lines,
        vec![
            "MOV R1 1",
            "TSTN R1 0",
            "FJMP IF_0_0_ELSE",
            "MOV R1 2",
            "JUMP IF_0_0_END",
            "IF_0_0_ELSE:",
            "MOV R1 3",
            "IF_0_0_END:",
            "MOV R1 4",
            "TSTN R1 0",
            "FJMP IF_0_1_ELSE",
            "JUMP IF_0_1_END",
            "IF_0_1_ELSE:",
            "IF_0_1_END:",
        ]
    );
}

#[test]
fn ternary_expression() {
    let e = Expression::TernaryOp(TernaryOp {
        cond: Box::new(num("1")),
        if_true: Box::new(num("2")),
        if_false: Box::new(num("3")),
    });
    let lines = body_of_main(vec![], vec![Statement::Expression(e)], 0);
    assert_eq!(
        lines,
        vec![
            "MOV R1 1",
            "TSTN R1 0",
            "FJMP TERNARY_0_0_NO",
            "MOV R1 2",
            "JUMP TERNARY_0_0_YES",
            "TERNARY_0_0_NO:",
            "MOV R1 3",
            "TERNARY_0_0_YES:",
        ]
    );
}

fn combined(op: BinaryOpKind) -> Vec<String> {
    let lines =
        body_of_main(vec![], vec![Statement::Expression(binary(op, num("1"), num("2")))], 0);
    assert_eq!(lines[..4], ["MOV R1 1", "PUSH R1", "MOV R1 2", "POP R2"]);
    lines[4..].to_vec()
}

#[test]
fn binary_operators() {
    assert_eq!(combined(BinaryOpKind::Add), vec!["ADD R1 R2 R1"]);
    assert_eq!(combined(BinaryOpKind::Sub), vec!["SUB R1 R2 R1"]);
    assert_eq!(combined(BinaryOpKind::Mul), vec!["MUL R1 R2 R1"]);
    assert_eq!(combined(BinaryOpKind::BitAnd), vec!["AND R1 R2 R1"]);
    assert_eq!(combined(BinaryOpKind::BitOr), vec!["OR R1 R2 R1"]);
    assert_eq!(combined(BinaryOpKind::Equal), vec!["TSTE R1 R2", "MOV R1 ZR"]);
    assert_eq!(combined(BinaryOpKind::NotEqual), vec!["TSTN R1 R2", "MOV R1 ZR"]);
    assert_eq!(combined(BinaryOpKind::Less), vec!["TSTL R2 R1", "MOV R1 ZR"]);
    assert_eq!(combined(BinaryOpKind::Greater), vec!["TSTG R2 R1", "MOV R1 ZR"]);
    assert_eq!(
        combined(BinaryOpKind::LessEqual),
        vec!["TSTG R2 R1", "TSTN ZR 1", "MOV R1 ZR"]
    );
    assert_eq!(
        combined(BinaryOpKind::GreaterEqual),
        vec!["TSTL R2 R1", "TSTN ZR 1", "MOV R1 ZR"]
    );
    assert_eq!(
        combined(BinaryOpKind::LogicalAnd),
        vec!["TSTN R1 0", "MOV R1 ZR", "TSTN R2 0", "AND R1 R1 ZR"]
    );
    assert_eq!(
        combined(BinaryOpKind::LogicalOr),
        vec!["TSTN R1 0", "MOV R1 ZR", "TSTN R2 0", "OR R1 R1 ZR"]
    );
}

#[test]
fn unary_operators_and_cast() {
    let lines = body_of_main(
        vec![],
        vec![
            Statement::Decl(var("a", Type::Int)),
            Statement::Expression(unary(UnaryOpKind::Negate, name("a"))),
            Statement::Expression(unary(UnaryOpKind::Not, name("a"))),
            Statement::Expression(unary(UnaryOpKind::AddressOf, name("a"))),
            Statement::Expression(unary(UnaryOpKind::Dereference, name("a"))),
            Statement::Expression(Expression::Cast(Cast {
                ty: Type::Char,
                expr: Box::new(name("a")),
            })),
        ],
        1,
    );
    assert_eq!(
        lines,
        vec![
            "ADD R1 BP -3",
            "LOAD R1 R1",
            "NEG R1",
            "ADD R1 BP -3",
            "LOAD R1 R1",
            "TSTE R1 0",
            "MOV R1 ZR",
            "ADD R1 BP -3",
            "ADD R1 BP -3",
            "LOAD R1 R1",
            "LOAD R1 R1",
            "ADD R1 BP -3",
            "LOAD R1 R1",
        ]
    );
}

#[test]
fn assignment_through_a_dereference_and_compound_assignment() {
    let lines = body_of_main(
        vec![],
        vec![
            Statement::Decl(var("p", ptr(Type::Int))),
            assign_to(unary(UnaryOpKind::Dereference, name("p")), num("7")),
            Statement::Assignment(Assignment {
                op: Some(BinaryOpKind::Add),
                lvalue: Box::new(name("p")),
                rvalue: Box::new(num("1")),
            }),
        ],
        1,
    );
    assert_eq!(
        lines,
        vec![
            "ADD R1 BP -3",
            "LOAD R1 R1",
            "PUSH R1",
            "MOV R1 7",
            "POP R2",
            "STR R2 R1",
            "ADD R1 BP -3",
            "PUSH R1",
            "MOV R1 1",
            "POP R2",
            "PUSH R2",
            "LOAD R2 R2",
            "ADD R1 R2 R1",
            "POP R2",
            "STR R2 R1",
        ]
    );
}

#[test]
fn lvalue_errors() {
    assert_eq!(
        error_of_main(vec![], vec![assign_to(num("1"), num("2"))]),
        CompileError::NotAnLvalue
    );
    assert_eq!(
        error_of_main(
            vec![],
            vec![
                Statement::Decl(var("a", Type::Int)),
                Statement::Expression(unary(
                    UnaryOpKind::AddressOf,
                    unary(UnaryOpKind::Negate, name("a"))
                )),
            ]
        ),
        CompileError::NotAnLvalue
    );
    assert_eq!(
        error_of_main(
            vec![],
            vec![
                Statement::Decl(var("a", Type::Int)),
                Statement::Assignment(Assignment {
                    op: Some(BinaryOpKind::Less),
                    lvalue: Box::new(name("a")),
                    rvalue: Box::new(num("1")),
                }),
            ]
        ),
        CompileError::UnsupportedOperator
    );
}

#[test]
fn sizeof_takes_a_type() {
    let size_of = |ty: Type| {
        Statement::Expression(Expression::UnaryOp(UnaryOp {
            op: UnaryOpKind::SizeOf,
            expr: Box::new(Expression::TypeName(TypeName { ty })),
            id: None,
        }))
    };
    let lines = body_of_main(
        vec![struct_decl("P", vec![var("x", Type::Int), array("y", Type::Char, vec![2, 2])])],
        vec![
            size_of(Type::Int),
            size_of(Type::Char),
            size_of(ptr(structure("P"))),
            size_of(structure("P")),
            size_of(Type::Void),
        ],
        0,
    );
    assert_eq!(lines, vec!["MOV R1 1", "MOV R1 1", "MOV R1 1", "MOV R1 5", "MOV R1 0"]);
    assert_eq!(
        error_of_main(vec![], vec![Statement::Expression(unary(UnaryOpKind::SizeOf, num("1")))]),
        CompileError::SizeofNonType
    );
    assert_eq!(
        error_of_main(
            vec![],
            vec![Statement::Expression(Expression::TypeName(TypeName { ty: Type::Int }))]
        ),
        CompileError::MisplacedTypeName
    );
    assert_eq!(error_of_main(vec![], vec![size_of(Type::Str)]), CompileError::UnsupportedType);
}

fn constant(ty: Type, text: &str) -> Statement {
    Statement::Expression(Expression::Constant(Constant { ty, value: text.to_string() }))
}

#[test]
fn character_constants() {
    let lines = body_of_main(
        vec![],
        vec![
            constant(Type::Char, "'a'"),
            constant(Type::Char, "'\\n'"),
            constant(Type::Char, "'\\t'"),
            constant(Type::Char, "'0'"),
        ],
        0,
    );
    assert_eq!(lines, vec!["MOV R1 97", "MOV R1 10", "MOV R1 9", "MOV R1 48"]);
    for bad in ["'\\r'", "'ab'", "'abc'", "''", "a", ""] {
        assert_eq!(
            error_of_main(vec![], vec![constant(Type::Char, bad)]),
            CompileError::InvalidCharLiteral
        );
    }
}

#[test]
fn string_constants_are_interned() {
    let all = compile(vec![function(
        "main",
        vec![],
        Type::Void,
        vec![
            constant(Type::Str, "\"hello\""),
            constant(Type::Str, "\"world\""),
            constant(Type::Str, "\"hello\""),
        ],
    )])
    .unwrap();
    assert_eq!(
        all[5..10],
        [
            ".stringz STR_0_0 hello",
            "LEA R1 STR_0_0",
            ".stringz STR_0_1 world",
            "LEA R1 STR_0_1",
            "LEA R1 STR_0_0",
        ]
    );
    assert_eq!(
        error_of_main(vec![], vec![constant(Type::Str, "hello")]),
        CompileError::InvalidStringLiteral
    );
    assert_eq!(
        error_of_main(vec![], vec![constant(Type::Str, "\"\"")]),
        CompileError::InvalidStringLiteral
    );
    assert_eq!(
        error_of_main(vec![], vec![constant(Type::Void, "x")]),
        CompileError::InvalidConstant
    );
}

#[test]
fn labels_of_different_programs_differ() {
    let program = || RootAstNode {
        externals: vec![function("main", vec![], Type::Void, vec![constant(Type::Str, "\"s\"")])],
    };
    let first = Compiler::compile(&program(), 1).unwrap();
    let second = Compiler::compile(&program(), 2).unwrap();
    assert!(first.contains(".stringz STR_1_0 s"));
    assert!(first.contains(".block GLOBAL_1 0"));
    assert!(second.contains(".stringz STR_2_0 s"));
    assert!(second.contains(".block GLOBAL_2 0"));
}

#[test]
fn arguments_and_globals_have_their_own_addressing() {
    let all = compile(vec![
        External::VarDecl(var("g", Type::Int)),
        External::VarDecl(array("table", Type::Int, vec![4])),
        External::VarDecl(var("h", Type::Int)),
        function(
            "f",
            vec![var("a", Type::Int), var("b", Type::Int)],
            Type::Int,
            vec![
                Statement::Expression(name("a")),
                Statement::Expression(name("b")),
                Statement::Expression(name("h")),
            ],
        ),
        function(
            "v",
            vec![var("a", Type::Int)],
            Type::Void,
            vec![Statement::Expression(name("a")), Statement::Return(Return { expr: None })],
        ),
    ])
    .unwrap();
    assert_eq!(
        all,
        vec![
            ".block GLOBAL_0 6",
            "JUMP main",
            "f:",
            "PUSH R1",
            "PUSH R2",
            "ADD R1 BP 3",
            "LOAD R1 R1",
            "ADD R1 BP 4",
            "LOAD R1 R1",
            "LEA R1 GLOBAL_0",
            "ADD R1 R1 5",
            "LOAD R1 R1",
            "_f_END:",
            "POP R2",
            "POP R1",
            "RET",
            "v:",
            "PUSH R1",
            "PUSH R2",
            "ADD R1 BP 2",
            "LOAD R1 R1",
            "JUMP _v_END",
            "_v_END:",
            "POP R2",
            "POP R1",
            "RET",
        ]
    );
}

#[test]
fn array_initializer_stores_the_given_items_only() {
    let lines = body_of_main(
        vec![],
        vec![Statement::Decl(Decl::ArrayDecl(ArrayDecl {
            name: "m".to_string(),
            ty: Type::Int,
            dimensions: vec![4],
            init: Some(vec![num("7"), num("8")]),
        }))],
        4,
    );
    assert_eq!(
        lines,
        vec![
            "ADD R1 BP -3",
            "MOV R2 R1",
            "PUSH R2",
            "MOV R1 7",
            "POP R2",
            "STR R2 R1",
            "ADD R2 R2 1",
            "PUSH R2",
            "MOV R1 8",
            "POP R2",
            "STR R2 R1",
            "ADD R2 R2 1",
        ]
    );
}

#[test]
fn sizes_that_exceed_32_bits_are_rejected() {
    assert_eq!(
        error_of_main(
            vec![],
            vec![Statement::Decl(array("m", Type::Int, vec![65536, 65536]))]
        ),
        CompileError::Overflow
    );
    assert_eq!(
        error_of_main(
            vec![],
            vec![
                Statement::Decl(array("m", Type::Int, vec![65536, 65535])),
                Statement::Decl(array("n", Type::Int, vec![65536])),
            ]
        ),
        CompileError::Overflow
    );
    let mut compiler = Compiler::new(0);
    assert_eq!(compiler.get_array_size(&Type::Int, &vec![65536, 65536, 0]), Ok(0));
    assert_eq!(compiler.get_array_size(&Type::Void, &vec![65536, 65536]), Ok(0));
    assert_eq!(compiler.get_array_size(&Type::Int, &vec![]), Ok(1));
    assert_eq!(compiler.get_array_size(&Type::Int, &vec![65535, 65537]), Ok(4294967295));
    compiler.cur_tmp_label = u32::MAX;
    assert_eq!(compiler.inc_tmp_label(), Err(CompileError::Overflow));
}

#[test]
fn code_outside_a_function_cannot_address_variables() {
    let mut compiler = Compiler::new(0);
    let program = RootAstNode { externals: vec![External::VarDecl(var("g", Type::Int))] };
    compiler.generate(&program).unwrap();
    let mut code = Vec::new();
    assert_eq!(
        compiler.right_gen(&name("g"), "_GLOBAL", &mut code),
        Err(CompileError::UnknownFunction)
    );
    assert_eq!(
        compiler.right_gen(&name("g"), "nowhere", &mut code),
        Err(CompileError::UnknownScope)
    );
    compiler.register_func_decl(&FuncDecl {
        name: "_GLOBAL".to_string(),
        args: vec![],
        ret_type: Type::Int,
    });
    assert_eq!(
        compiler.right_gen(&name("g"), "_GLOBAL", &mut code),
        Err(CompileError::FunctionNotDefined)
    );
}
