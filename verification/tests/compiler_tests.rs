use microcc::ast::{
    ArrayDecl, Assignment, AstNode, Compound, Constant, Decl, Expression, External, FieldAccess,
    FuncDecl, FuncDef, Id, NameRef, Return, RootAstNode, Statement, StructDecl, VarDecl,
    WhileLoop,
};
use microcc::compiler::Compiler;
use microcc::error::CompileError;
use microcc::instruction::{LabelKind, TempLabel};
use microcc::symbols::VarStorageType;
use microcc::table::{NameSet, Table};
use microcc::types::{Type, VariableType};

fn name(n: &str) -> Expression {
    Expression::NameRef(NameRef::Id(Id { name: n.to_string() }))
}

fn num(v: &str) -> Expression {
    Expression::Constant(Constant { ty: Type::Int, value: v.to_string() })
}

fn var(n: &str, ty: Type) -> Decl {
    Decl::VarDecl(VarDecl { name: n.to_string(), ty, init: None })
}

fn assign(target: &str, value: Expression) -> Statement {
    Statement::Assignment(Assignment {
        op: None,
        lvalue: Box::new(name(target)),
        rvalue: Box::new(value),
    })
}

fn block(code_loc: &str, items: Vec<Statement>) -> Compound {
    Compound { items, code_loc: code_loc.to_string() }
}

fn function(n: &str, args: Vec<Decl>, ret_type: Type, body: Compound) -> External {
    External::FuncDef(FuncDef { decl: FuncDecl { name: n.to_string(), args, ret_type }, body })
}

/// `int main() { int a; a = 5; return a; }`
fn assign_program() -> RootAstNode {
    RootAstNode {
        externals: vec![function(
            "main",
            vec![],
            Type::Int,
            block(
                "tests/compiler_test_data/variables/inputs/assign.c-1-11",
                vec![
                    Statement::Decl(var("a", Type::Int)),
                    assign("a", num("5")),
                    Statement::Return(Return { expr: Some(name("a")) }),
                ],
            ),
        )],
    }
}

#[test]
fn find_variable() {
    let mut compiler = Compiler::new(0);
    compiler.generate(&assign_program()).unwrap();
    let _a_var = compiler.find_variable(&"a".to_string(), &"main".to_string()).unwrap().unwrap();
    let b_var = compiler.find_variable(&"b".to_string(), &"main".to_string()).unwrap();
    assert!(b_var.is_none());
}

/// `int main() { { int i; i = 1; } return 0; }`
fn declare_block_program() -> RootAstNode {
    RootAstNode {
        externals: vec![function(
            "main",
            vec![],
            Type::Int,
            block(
                "tests/compiler_test_data/scopes/inputs/declare_block.c-1-11",
                vec![
                    Statement::Compound(block(
                        "tests/compiler_test_data/scopes/inputs/declare_block.c-2-1",
                        vec![Statement::Decl(var("i", Type::Int)), assign("i", num("1"))],
                    )),
                    Statement::Return(Return { expr: Some(num("0")) }),
                ],
            ),
        )],
    }
}

#[test]
fn find_nested_scope() {
    let mut compiler = Compiler::new(0);
    compiler.generate(&declare_block_program()).unwrap();
    assert_eq!(compiler.scope_to_data.len(), 3);
    let block_scope = compiler
        .scope_to_data
        .get("tests/compiler_test_data/scopes/inputs/declare_block.c-2-1")
        .unwrap();
    assert!(block_scope.variables.contains_key("i"));
}

/// `int main() { int i; while (i) { i = 0; break; } return 0; }`
fn while_program() -> RootAstNode {
    RootAstNode {
        externals: vec![function(
            "main",
            vec![],
            Type::Int,
            block(
                "while.c-1-11",
                vec![
                    Statement::Decl(var("i", Type::Int)),
                    Statement::WhileLoop(WhileLoop {
                        cond: name("i"),
                        body: block("while.c-5-5", vec![assign("i", num("0")), Statement::Break]),
                        code_loc: "while.c-5-5".to_string(),
                    }),
                    Statement::Return(Return { expr: Some(num("0")) }),
                ],
            ),
        )],
    }
}

#[test]
fn loop_labels_are_found_from_the_body_of_the_loop() {
    let mut compiler = Compiler::new(0);
    compiler.generate(&while_program()).unwrap();
    assert_eq!(compiler.scope_to_data.len(), 3);
    let labels = compiler.find_break_continue_labels("while.c-5-5").unwrap().unwrap();
    assert_eq!(
        labels.break_label,
        TempLabel { kind: LabelKind::WhileEnd, program: 0, index: 0 }
    );
    assert_eq!(
        labels.continue_label,
        TempLabel { kind: LabelKind::WhileStart, program: 0, index: 0 }
    );
    assert_eq!(compiler.find_break_continue_labels("main"), Ok(None));
    assert_eq!(
        compiler.find_break_continue_labels("nowhere"),
        Err(CompileError::UnknownScope)
    );
}

/// `int sub_3(int x, int y, int z) { return x; }  int main() { return 0; }`
fn multi_arg_program() -> RootAstNode {
    RootAstNode {
        externals: vec![
            function(
                "sub_3",
                vec![var("x", Type::Int), var("y", Type::Int), var("z", Type::Int)],
                Type::Int,
                block(
                    "tests/compiler_test_data/functions/inputs/multi_arg.c-1-1",
                    vec![Statement::Return(Return { expr: Some(name("x")) })],
                ),
            ),
            function(
                "main",
                vec![],
                Type::Int,
                block(
                    "tests/compiler_test_data/functions/inputs/multi_arg.c-5-1",
                    vec![Statement::Return(Return { expr: Some(num("0")) })],
                ),
            ),
        ],
    }
}

#[test]
fn function_args() {
    let mut compiler = Compiler::new(0);
    compiler.generate(&multi_arg_program()).unwrap();
    let func_data = compiler.get_func_data(&"sub_3".to_string()).unwrap();
    let scope_data = compiler.get_scope_data(&"sub_3".to_string()).unwrap();
    match &func_data.decl_data.args_types[0] {
        VariableType::Regular { ty } => {
            assert!(matches!(ty, Type::Int));
        }
        _ => panic!(),
    }
    match &func_data.decl_data.args_types[1] {
        VariableType::Regular { ty } => {
            assert!(matches!(ty, Type::Int));
        }
        _ => panic!(),
    }
    match &func_data.decl_data.args_types[2] {
        VariableType::Regular { ty } => {
            assert!(matches!(ty, Type::Int));
        }
        _ => panic!(),
    }
    let x = scope_data.variables.get(&"x".to_string()).unwrap();
    assert_eq!(x.offset, 0);
    let y = scope_data.variables.get(&"y".to_string()).unwrap();
    assert_eq!(y.offset, 1);
    let z = scope_data.variables.get(&"z".to_string()).unwrap();
    assert_eq!(z.offset, 2);
}

/// `struct A { int x; int y; int z; };  int main() { return 0; }`
fn struct_program() -> RootAstNode {
    RootAstNode {
        externals: vec![
            External::StructDecl(StructDecl {
                name: "A".to_string(),
                items: vec![var("x", Type::Int), var("y", Type::Int), var("z", Type::Int)],
            }),
            function(
                "main",
                vec![],
                Type::Int,
                block(
                    "tests/compiler_test_data/structs/inputs/1.c-7-1",
                    vec![Statement::Return(Return { expr: Some(num("0")) })],
                ),
            ),
        ],
    }
}

#[test]
fn struct_registration() {
    let mut compiler = Compiler::new(0);
    compiler.generate(&struct_program()).unwrap();
    let struct_data = compiler.struct_to_data.get("A").unwrap();
    assert_eq!(struct_data.name, "A");
    assert_eq!(struct_data.size, 3);
    let x = struct_data.items.get("x").unwrap();
    assert_eq!(x.name, "x");
    assert_eq!(x.offset, 0);
    assert_eq!(x.size, 1);
    if let VariableType::Regular { ty: t } = &x.var_type {
        assert!(matches!(t, Type::Int));
    } else {
        panic!();
    }
    assert_eq!(struct_data.items.get("y").unwrap().offset, 1);
    assert_eq!(struct_data.items.get("z").unwrap().offset, 2);
}

#[test]
fn arguments_are_declared_from_the_start_and_live_in_the_argument_space() {
    let mut compiler = Compiler::new(0);
    compiler.generate(&multi_arg_program()).unwrap();
    let y = compiler.find_variable("y", "sub_3").unwrap().unwrap();
    assert_eq!(y.storage, VarStorageType::Arg);
    assert_eq!(y.size, 1);
    let body = compiler.get_func_data("sub_3").unwrap().body_data.as_ref().unwrap();
    assert_eq!(body.local_vars_size, 0);
    assert_eq!(body.regs_used.len(), 2);
}

#[test]
fn a_variable_does_not_resolve_before_its_declaration() {
    let mut compiler = Compiler::new(0);
    compiler.generate(&RootAstNode { externals: vec![] }).unwrap();
    let program = assign_program();
    let main = match &program.externals[0] {
        External::FuncDef(def) => def,
        _ => panic!(),
    };
    compiler.register_func_decl(&main.decl);
    compiler.register_func_body(&main.body, &main.decl, "_GLOBAL").unwrap();
    // The slot exists, the name does not resolve yet.
    let scope = compiler.get_scope_data("main").unwrap();
    assert_eq!(scope.variables.get("a").unwrap().offset, 0);
    assert!(compiler.find_variable("a", "main").unwrap().is_none());
    compiler.update_var_declared("a", "main").unwrap();
    assert_eq!(compiler.find_variable("a", "main").unwrap().unwrap().offset, 0);
}

#[test]
fn a_chain_of_scopes_that_never_ends_is_reported() {
    let mut compiler = Compiler::new(0);
    let mut cursor = 0;
    compiler
        .register_scope("a", &vec![], "b", "f", &mut cursor, Table::new(), NameSet::new())
        .unwrap();
    compiler
        .register_scope("b", &vec![], "a", "f", &mut cursor, Table::new(), NameSet::new())
        .unwrap();
    assert_eq!(compiler.find_variable("x", "a").unwrap_err(), CompileError::ScopeCycle);
    assert_eq!(compiler.find_break_continue_labels("b"), Err(CompileError::ScopeCycle));
}

#[test]
fn arrays_do_not_hold_arrays() {
    let compiler = Compiler::new(0);
    let row = VariableType::Array {
        item: Box::new(VariableType::Regular { ty: Type::Int }),
        dimensions: vec![3],
    };
    assert_eq!(compiler.get_array_item_size(&row), Err(CompileError::ArrayOfArrays));
    assert_eq!(compiler.get_array_item_size(&VariableType::Regular { ty: Type::Char }), Ok(1));
    let grid = VariableType::Array { item: Box::new(row), dimensions: vec![2] };
    assert_eq!(
        compiler.accessed_field(&grid, FieldAccess::Dot, "x").unwrap_err(),
        CompileError::NotAStruct
    );
}

#[test]
fn sizes_of_types_and_declarations() {
    let mut compiler = Compiler::new(0);
    compiler
        .register_struct(&StructDecl {
            name: "P".to_string(),
            items: vec![var("x", Type::Int), var("y", Type::Int)],
        })
        .unwrap();
    let p = Type::Struct("P".to_string());
    assert_eq!(compiler.get_type_size(&Type::Int), Ok(1));
    assert_eq!(compiler.get_type_size(&Type::Char), Ok(1));
    assert_eq!(compiler.get_type_size(&Type::Ptr(Box::new(Type::Void))), Ok(1));
    assert_eq!(compiler.get_type_size(&Type::Void), Ok(0));
    assert_eq!(compiler.get_type_size(&p), Ok(2));
    assert_eq!(compiler.get_type_size(&Type::Str), Err(CompileError::UnsupportedType));
    assert_eq!(
        compiler.get_type_size(&Type::Struct("Q".to_string())),
        Err(CompileError::UnknownStruct)
    );
    assert_eq!(compiler.get_struct_data_from_type(&p).unwrap().size, 2);
    assert!(compiler.get_struct_data_from_type(&Type::Int).is_none());
    assert_eq!(compiler.get_array_size(&p, &vec![2, 3]), Ok(12));
    let points = Decl::ArrayDecl(ArrayDecl {
        name: "points".to_string(),
        ty: Type::Struct("P".to_string()),
        dimensions: vec![5],
        init: None,
    });
    assert_eq!(compiler.get_decl_size(&points), Ok(10));
    assert_eq!(compiler.get_decl_size(&var("c", Type::Char)), Ok(1));
    let v = compiler.variable_data_from_decl(&points, VarStorageType::Global, 7).unwrap();
    assert_eq!(v.name, "points");
    assert_eq!((v.storage, v.offset, v.size), (VarStorageType::Global, 7, 10));
    match VariableType::from(&points) {
        VariableType::Array { item, dimensions } => {
            assert_eq!(dimensions, vec![5]);
            assert!(matches!(*item, VariableType::Regular { ty: Type::Struct(_) }));
        }
        _ => panic!(),
    }
}

#[test]
fn code_generation_can_start_at_any_node() {
    let mut compiler = Compiler::new(0);
    let mut code = Vec::new();
    let program = assign_program();
    let empty = RootAstNode { externals: vec![] };
    compiler.code_gen(AstNode::RootAstNode(&empty), "_GLOBAL", &mut code).unwrap();
    let main = match &program.externals[0] {
        External::FuncDef(def) => def,
        _ => panic!(),
    };
    compiler.code_gen(AstNode::FuncDecl(&main.decl), "_GLOBAL", &mut code).unwrap();
    assert!(compiler.get_func_data("main").unwrap().body_data.is_none());
    assert_eq!(code.len(), 2);
    compiler.code_gen(AstNode::FuncDef(main), "_GLOBAL", &mut code).unwrap();
    assert_eq!(code.len(), 21);
    let again = Statement::Return(Return { expr: None });
    compiler.code_gen(AstNode::Statement(&again), "main", &mut code).unwrap();
    assert_eq!(code.last().unwrap().render(), "JUMP _main_END");
    let two =
        block("anywhere", vec![Statement::Return(Return { expr: None }), assign("a", num("1"))]);
    compiler.code_gen(AstNode::Compound(&two), "main", &mut code).unwrap();
    assert_eq!(code.len(), 28);
    assert_eq!(
        compiler.code_gen(AstNode::Statement(&Statement::Break), "main", &mut code),
        Err(CompileError::LoopScopeNotFound)
    );
}

#[test]
fn every_error_says_what_went_wrong() {
    assert_eq!(CompileError::UndefinedVariable.message(), "undefined variable");
    assert_eq!(CompileError::LoopScopeNotFound.message(), "break or continue outside a loop");
    assert_eq!(CompileError::ArrayOfArrays.message(), "arrays cannot hold arrays as items");
    assert_eq!(
        CompileError::SizeofNonType.message(),
        "expression inside sizeof() must be a type"
    );
}
