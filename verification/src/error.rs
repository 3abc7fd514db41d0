//! The failures of a compilation.

use vstd::prelude::*;

verus! {

/// Why a compilation was abandoned. The first failure ends the run.
#[derive(Clone, Copy, Debug, PartialEq, Eq, Structural)]
pub enum CompileError {
    /// A name resolves to no declared variable.
    UndefinedVariable,
    /// A call names a function that was never declared.
    UnknownFunction,
    /// A type names a structure that is not registered.
    UnknownStruct,
    /// A field access names a field that the structure does not have.
    UnknownField,
    /// A scope is not registered.
    UnknownScope,
    /// The chain of enclosing scopes never reaches the global scope.
    ScopeCycle,
    /// A character literal is malformed or uses an unsupported escape.
    InvalidCharLiteral,
    /// A string literal is malformed.
    InvalidStringLiteral,
    /// A constant has a type that no literal has.
    InvalidConstant,
    /// The target of an assignment or of `&` is not an lvalue.
    NotAnLvalue,
    /// An increment or decrement is not applied to a named variable.
    NotAVariable,
    /// The operand of `sizeof` is not a type.
    SizeofNonType,
    /// A type name stands outside `sizeof`.
    MisplacedTypeName,
    /// A compound assignment uses an operator that no instruction computes.
    UnsupportedOperator,
    /// An array access has more or fewer indices than the array has
    /// dimensions.
    ArrayRankMismatch,
    /// The items of an array are arrays.
    ArrayOfArrays,
    /// An indexed name is not an array.
    NotAnArray,
    /// A field is taken of what is not a structure.
    NotAStruct,
    /// `break` or `continue` stands outside every loop.
    LoopScopeNotFound,
    /// A type has no size.
    UnsupportedType,
    /// A body is registered for a function that was not declared.
    FunctionNotDeclared,
    /// Code refers to the frame of a function that has no body.
    FunctionNotDefined,
    /// A size, an offset or the label counter exceeds 32 bits.
    Overflow,
}

impl CompileError {
    /// What went wrong, in words.
    pub open spec fn text(self) -> Seq<char> {
        match self {
            CompileError::UndefinedVariable => "undefined variable"@,
            CompileError::UnknownFunction => "call to an unknown function"@,
            CompileError::UnknownStruct => "unknown structure"@,
            CompileError::UnknownField => "unknown field"@,
            CompileError::UnknownScope => "unknown scope"@,
            CompileError::ScopeCycle => "the enclosing scopes form a cycle"@,
            CompileError::InvalidCharLiteral => "invalid character literal"@,
            CompileError::InvalidStringLiteral => "invalid string literal"@,
            CompileError::InvalidConstant => "invalid type for a constant"@,
            CompileError::NotAnLvalue => "not supported as an lvalue"@,
            CompileError::NotAVariable => "increment and decrement need a variable"@,
            CompileError::SizeofNonType => "expression inside sizeof() must be a type"@,
            CompileError::MisplacedTypeName => "a type name must be inside sizeof()"@,
            CompileError::UnsupportedOperator => "operator not supported in an assignment"@,
            CompileError::ArrayRankMismatch => "wrong number of array indices"@,
            CompileError::ArrayOfArrays => "arrays cannot hold arrays as items"@,
            CompileError::NotAnArray => "not an array"@,
            CompileError::NotAStruct => "not a structure"@,
            CompileError::LoopScopeNotFound => "break or continue outside a loop"@,
            CompileError::UnsupportedType => "unsupported type"@,
            CompileError::FunctionNotDeclared => "function not yet declared"@,
            CompileError::FunctionNotDefined => "function must be defined"@,
            CompileError::Overflow => "size or counter exceeds 32 bits"@,
        }
    }

    /// What went wrong, in words.
    pub fn message(&self) -> (s: String)
        ensures
            s@ == self.text(),
    {
        let text = match self {
            CompileError::UndefinedVariable => "undefined variable",
            CompileError::UnknownFunction => "call to an unknown function",
            CompileError::UnknownStruct => "unknown structure",
            CompileError::UnknownField => "unknown field",
            CompileError::UnknownScope => "unknown scope",
            CompileError::ScopeCycle => "the enclosing scopes form a cycle",
            CompileError::InvalidCharLiteral => "invalid character literal",
            CompileError::InvalidStringLiteral => "invalid string literal",
            CompileError::InvalidConstant => "invalid type for a constant",
            CompileError::NotAnLvalue => "not supported as an lvalue",
            CompileError::NotAVariable => "increment and decrement need a variable",
            CompileError::SizeofNonType => "expression inside sizeof() must be a type",
            CompileError::MisplacedTypeName => "a type name must be inside sizeof()",
            CompileError::UnsupportedOperator => "operator not supported in an assignment",
            CompileError::ArrayRankMismatch => "wrong number of array indices",
            CompileError::ArrayOfArrays => "arrays cannot hold arrays as items",
            CompileError::NotAnArray => "not an array",
            CompileError::NotAStruct => "not a structure",
            CompileError::LoopScopeNotFound => "break or continue outside a loop",
            CompileError::UnsupportedType => "unsupported type",
            CompileError::FunctionNotDeclared => "function not yet declared",
            CompileError::FunctionNotDefined => "function must be defined",
            CompileError::Overflow => "size or counter exceeds 32 bits",
        };
        String::from_str(text)
    }
}

} // verus!
