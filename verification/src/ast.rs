//! The syntax tree that the code generator consumes: a program after parsing
//! and after every macro and include has been expanded.

use vstd::prelude::*;
use crate::instruction::AluOp;
use crate::types::Type;

verus! {

/// An identifier.
#[derive(Debug)]
pub struct Id {
    pub name: String,
}

/// A literal, in the notation of the source program.
#[derive(Debug)]
pub struct Constant {
    pub ty: Type,
    pub value: String,
}

/// The operators with two operands.
#[derive(Clone, Copy, Debug, PartialEq, Eq, Structural)]
pub enum BinaryOpKind {
    Add,
    Sub,
    Mul,
    BitAnd,
    BitOr,
    Equal,
    NotEqual,
    Less,
    LessEqual,
    Greater,
    GreaterEqual,
    LogicalAnd,
    LogicalOr,
}

impl BinaryOpKind {
    /// The instruction that computes this operator, where one instruction does.
    pub open spec fn alu(self) -> Option<AluOp> {
        match self {
            BinaryOpKind::Add => Some(AluOp::Add),
            BinaryOpKind::Sub => Some(AluOp::Sub),
            BinaryOpKind::Mul => Some(AluOp::Mul),
            BinaryOpKind::BitAnd => Some(AluOp::And),
            BinaryOpKind::BitOr => Some(AluOp::Or),
            _ => None,
        }
    }

    /// The instruction that computes this operator, where one instruction does:
    /// the arithmetic and bitwise operators have one, the comparisons and the
    /// logical connectives have none.
    pub fn to_op(&self) -> (op: Option<AluOp>)
        ensures
            op == self.alu(),
    {
        match self {
            BinaryOpKind::Add => Some(AluOp::Add),
            BinaryOpKind::Sub => Some(AluOp::Sub),
            BinaryOpKind::Mul => Some(AluOp::Mul),
            BinaryOpKind::BitAnd => Some(AluOp::And),
            BinaryOpKind::BitOr => Some(AluOp::Or),
            _ => None,
        }
    }
}

/// The operators with one operand.
#[derive(Clone, Copy, Debug, PartialEq, Eq, Structural)]
pub enum UnaryOpKind {
    Negate,
    Not,
    PreIncrement,
    PreDecrement,
    PostIncrement,
    PostDecrement,
    AddressOf,
    Dereference,
    SizeOf,
}

#[derive(Debug)]
pub struct BinaryOp {
    pub op: BinaryOpKind,
    pub left: Box<Expression>,
    pub right: Box<Expression>,
}

/// A unary operation. `id` names the variable that an increment or a
/// decrement steps.
#[derive(Debug)]
pub struct UnaryOp {
    pub op: UnaryOpKind,
    pub expr: Box<Expression>,
    pub id: Option<Id>,
}

/// An assignment; `op` is the operator of a compound assignment.
#[derive(Debug)]
pub struct Assignment {
    pub op: Option<BinaryOpKind>,
    pub lvalue: Box<Expression>,
    pub rvalue: Box<Expression>,
}

#[derive(Debug)]
pub struct TernaryOp {
    pub cond: Box<Expression>,
    pub if_true: Box<Expression>,
    pub if_false: Box<Expression>,
}

#[derive(Debug)]
pub struct FuncCall {
    pub name: String,
    pub args: Vec<Expression>,
}

/// How a field is reached: from a structure or through a pointer to one.
#[derive(Clone, Copy, Debug, PartialEq, Eq, Structural)]
pub enum FieldAccess {
    Dot,
    Arrow,
}

/// An array access with one index per dimension.
#[derive(Debug)]
pub struct ArrayRef {
    pub name: Box<NameRef>,
    pub indices: Vec<Expression>,
}

#[derive(Debug)]
pub struct StructRef {
    pub name: Box<NameRef>,
    pub field: String,
    pub access: FieldAccess,
}

/// An expression that names a place in memory.
#[derive(Debug)]
pub enum NameRef {
    Id(Id),
    ArrayRef(ArrayRef),
    StructRef(StructRef),
}

#[derive(Debug)]
pub struct TypeName {
    pub ty: Type,
}

#[derive(Debug)]
pub struct Cast {
    pub ty: Type,
    pub expr: Box<Expression>,
}

#[derive(Debug)]
pub enum Expression {
    Constant(Constant),
    BinaryOp(BinaryOp),
    UnaryOp(UnaryOp),
    Assignment(Assignment),
    TernaryOp(TernaryOp),
    FuncCall(FuncCall),
    NameRef(NameRef),
    TypeName(TypeName),
    Cast(Cast),
}

#[derive(Debug)]
pub struct VarDecl {
    pub name: String,
    pub ty: Type,
    pub init: Option<Expression>,
}

#[derive(Debug)]
pub struct ArrayDecl {
    pub name: String,
    pub ty: Type,
    pub dimensions: Vec<u32>,
    pub init: Option<Vec<Expression>>,
}

/// The declaration of a variable, of an argument or of a field.
#[derive(Debug)]
pub enum Decl {
    VarDecl(VarDecl),
    ArrayDecl(ArrayDecl),
}

impl Decl {
    /// The declared name.
    pub open spec fn name(self) -> Seq<char> {
        match self {
            Decl::VarDecl(d) => d.name@,
            Decl::ArrayDecl(d) => d.name@,
        }
    }

    /// The declared name.
    pub fn name_str(&self) -> (s: &str)
        ensures
            s@ == self.name(),
    {
        match self {
            Decl::VarDecl(d) => d.name.as_str(),
            Decl::ArrayDecl(d) => d.name.as_str(),
        }
    }
}

/// A block. `code_loc` identifies it among all the blocks of the program and
/// names its scope.
#[derive(Debug)]
pub struct Compound {
    pub items: Vec<Statement>,
    pub code_loc: String,
}

#[derive(Debug)]
pub struct Return {
    pub expr: Option<Expression>,
}

#[derive(Debug)]
pub struct If {
    pub cond: Expression,
    pub if_true: Compound,
    pub if_false: Option<Compound>,
}

/// A `while` loop. `code_loc` names the scope of its body.
#[derive(Debug)]
pub struct WhileLoop {
    pub cond: Expression,
    pub body: Compound,
    pub code_loc: String,
}

/// A `do`-`while` loop. `code_loc` names the scope of its body.
#[derive(Debug)]
pub struct DoWhileLoop {
    pub cond: Expression,
    pub body: Compound,
    pub code_loc: String,
}

/// A `for` loop. `code_loc` names the one scope that its body shares with the
/// variables declared in `init`.
#[derive(Debug)]
pub struct ForLoop {
    pub init: Option<Compound>,
    pub cond: Option<Expression>,
    pub next: Option<Compound>,
    pub body: Compound,
    pub code_loc: String,
}

#[derive(Debug)]
pub enum Statement {
    Return(Return),
    Decl(Decl),
    Assignment(Assignment),
    Expression(Expression),
    If(If),
    Compound(Compound),
    WhileLoop(WhileLoop),
    DoWhileLoop(DoWhileLoop),
    ForLoop(ForLoop),
    Break,
    Continue,
}

/// The signature of a function.
#[derive(Debug)]
pub struct FuncDecl {
    pub name: String,
    pub args: Vec<Decl>,
    pub ret_type: Type,
}

#[derive(Debug)]
pub struct FuncDef {
    pub decl: FuncDecl,
    pub body: Compound,
}

/// The declaration of a structure: its fields in order.
#[derive(Debug)]
pub struct StructDecl {
    pub name: String,
    pub items: Vec<Decl>,
}

/// What can stand at the top level of a program.
#[derive(Debug)]
pub enum External {
    FuncDef(FuncDef),
    FuncDecl(FuncDecl),
    StructDecl(StructDecl),
    VarDecl(Decl),
}

/// A whole program.
#[derive(Debug)]
pub struct RootAstNode {
    pub externals: Vec<External>,
}

/// A node of the tree at which code generation can start.
#[derive(Debug)]
pub enum AstNode<'a> {
    RootAstNode(&'a RootAstNode),
    FuncDecl(&'a FuncDecl),
    FuncDef(&'a FuncDef),
    Compound(&'a Compound),
    Statement(&'a Statement),
}

} // verus!
