//! The code generator for expressions.

use vstd::prelude::*;
use crate::ast::{
    ArrayRef,
    Assignment,
    BinaryOpKind,
    Constant,
    Expression,
    FuncCall,
    NameRef,
    StructRef,
    TernaryOp,
    UnaryOp,
    UnaryOpKind,
};
use crate::compiler::Compiler;
use crate::error::CompileError;
use crate::instruction::{
    emit,
    emit_pops,
    emit_pushes,
    lines,
    AluOp,
    Instr,
    Label,
    LabelKind,
    Operand,
    Register,
    TempLabel,
    TestOp,
};
use crate::literal::{parse_char_literal, parse_string_literal};
use crate::lowering::{
    after,
    codegen_name,
    combine,
    gen_args,
    gen_array_ref,
    gen_assignment,
    gen_call,
    gen_constant,
    gen_indices,
    gen_struct_ref,
    gen_ternary,
    gen_unary,
    generated,
    intern,
    left_gen,
    right_gen,
    step_code,
    stride,
    Emitted,
};
use crate::names::Code;
use crate::sizing::lemma_product_first;
use crate::types::{clone_dimensions, Type, VariableType};

verus! {

broadcast use vstd::std_specs::vec::axiom_vec_index_decreases;

/// Emits the instructions that combine the operands of `op`.
fn emit_combine(op: BinaryOpKind, code: &mut Vec<Instr<String>>)
    ensures
        lines(final(code)@) == lines(old(code)@) + combine(op),
{
    let r1 = Register::R1;
    let r2 = Register::R2;
    let zr = Register::ZR;
    match op.to_op() {
        Some(a) => {
            emit(code, Instr::Alu { op: a, dst: r1, lhs: r2, rhs: Operand::Reg(r1) });
        },
        None => match op {
            BinaryOpKind::Equal => {
                emit(code, Instr::Test { op: TestOp::Equal, lhs: r1, rhs: Operand::Reg(r2) });
                emit(code, Instr::Mov { dst: r1, src: Operand::Reg(zr) });
            },
            BinaryOpKind::NotEqual => {
                emit(code, Instr::Test { op: TestOp::NotEqual, lhs: r1, rhs: Operand::Reg(r2) });
                emit(code, Instr::Mov { dst: r1, src: Operand::Reg(zr) });
            },
            BinaryOpKind::LogicalAnd => {
                emit(code, Instr::Test { op: TestOp::NotEqual, lhs: r1, rhs: Operand::Imm(0) });
                emit(code, Instr::Mov { dst: r1, src: Operand::Reg(zr) });
                emit(code, Instr::Test { op: TestOp::NotEqual, lhs: r2, rhs: Operand::Imm(0) });
                emit(code, Instr::Alu { op: AluOp::And, dst: r1, lhs: r1, rhs: Operand::Reg(zr) });
            },
            BinaryOpKind::LogicalOr => {
                emit(code, Instr::Test { op: TestOp::NotEqual, lhs: r1, rhs: Operand::Imm(0) });
                emit(code, Instr::Mov { dst: r1, src: Operand::Reg(zr) });
                emit(code, Instr::Test { op: TestOp::NotEqual, lhs: r2, rhs: Operand::Imm(0) });
                emit(code, Instr::Alu { op: AluOp::Or, dst: r1, lhs: r1, rhs: Operand::Reg(zr) });
            },
            BinaryOpKind::Less => {
                emit(code, Instr::Test { op: TestOp::Less, lhs: r2, rhs: Operand::Reg(r1) });
                emit(code, Instr::Mov { dst: r1, src: Operand::Reg(zr) });
            },
            BinaryOpKind::LessEqual => {
                emit(code, Instr::Test { op: TestOp::Greater, lhs: r2, rhs: Operand::Reg(r1) });
                emit(code, Instr::Test { op: TestOp::NotEqual, lhs: zr, rhs: Operand::Imm(1) });
                emit(code, Instr::Mov { dst: r1, src: Operand::Reg(zr) });
            },
            BinaryOpKind::Greater => {
                emit(code, Instr::Test { op: TestOp::Greater, lhs: r2, rhs: Operand::Reg(r1) });
                emit(code, Instr::Mov { dst: r1, src: Operand::Reg(zr) });
            },
            _ => {
                emit(code, Instr::Test { op: TestOp::Less, lhs: r2, rhs: Operand::Reg(r1) });
                emit(code, Instr::Test { op: TestOp::NotEqual, lhs: zr, rhs: Operand::Imm(1) });
                emit(code, Instr::Mov { dst: r1, src: Operand::Reg(zr) });
            },
        },
    }
    assert(lines(code@) =~= lines(old(code)@) + combine(op));
}

/// Emits the instructions that step the variable whose address is in `R1`.
fn emit_step(op: UnaryOpKind, delta: u32, code: &mut Vec<Instr<String>>)
    ensures
        lines(final(code)@) == lines(old(code)@) + step_code(op, delta as nat),
{
    let r1 = Register::R1;
    let r2 = Register::R2;
    let arith = match op {
        UnaryOpKind::PreIncrement | UnaryOpKind::PostIncrement => AluOp::Add,
        _ => AluOp::Sub,
    };
    match op {
        UnaryOpKind::PreIncrement | UnaryOpKind::PreDecrement => {
            emit(code, Instr::Load { dst: r2, addr: r1 });
            emit(code, Instr::Alu { op: arith, dst: r2, lhs: r2, rhs: Operand::Imm(delta as i64) });
            emit(code, Instr::Store { addr: r1, src: r2 });
            emit(code, Instr::Mov { dst: r1, src: Operand::Reg(r2) });
        },
        _ => {
            emit(code, Instr::Load { dst: r2, addr: r1 });
            emit(code, Instr::Push(r2));
            emit(code, Instr::Alu { op: arith, dst: r2, lhs: r2, rhs: Operand::Imm(delta as i64) });
            emit(code, Instr::Store { addr: r1, src: r2 });
            emit(code, Instr::Pop(r1));
        },
    }
    assert(lines(code@) =~= lines(old(code)@) + step_code(op, delta as nat));
}

impl Compiler {
    /// The label of the string literal of content `s`. The first occurrence
    /// of a content emits the declaration of the literal under a fresh
    /// label; later ones share that label.
    pub fn maybe_add_string_data(&mut self, s: &str, code: &mut Vec<Instr<String>>) -> (r: Result<
        TempLabel,
        CompileError,
    >)
        ensures
            match intern(old(self)@, s@) {
                Ok(i) => r == Ok::<TempLabel, CompileError>(i.label) && final(self)@ == i.state
                    && lines(final(code)@) == lines(old(code)@) + i.code,
                Err(e) => r == Err::<TempLabel, CompileError>(e),
            },
    {
        match self.data_val_to_label.get(s) {
            Some(label) => {
                assert(lines(code@) =~= lines(old(code)@) + Seq::<Instr<Seq<char>>>::empty());
                Ok(*label)
            },
            None => {
                let label = self.get_tmp_label(LabelKind::Str);
                self.inc_tmp_label()?;
                emit(code, Instr::Stringz { label: Label::Temp(label), text: String::from_str(s) });
                self.data_val_to_label.insert(String::from_str(s), label);
                assert(lines(code@) =~= lines(old(code)@) + intern(old(self)@, s@).unwrap().code);
                Ok(label)
            },
        }
    }

    /// Emits the load of a constant into `R1`.
    fn gen_constant(&mut self, c: &Constant, code: &mut Vec<Instr<String>>) -> (r: Result<
        (),
        CompileError,
    >)
        ensures
            generated(gen_constant(old(self)@, *c), r, final(self)@, old(code)@, final(code)@),
    {
        match &c.ty {
            Type::Int => {
                emit(
                    code,
                    Instr::Mov { dst: Register::R1, src: Operand::Literal(c.value.clone()) },
                );
                assert(lines(code@) =~= lines(old(code)@) + gen_constant(
                    old(self)@,
                    *c,
                ).unwrap().code);
                Ok(())
            },
            Type::Char => {
                let val = parse_char_literal(c.value.as_str())?;
                emit(code, Instr::Mov { dst: Register::R1, src: Operand::Imm(val as i64) });
                assert(lines(code@) =~= lines(old(code)@) + gen_constant(
                    old(self)@,
                    *c,
                ).unwrap().code);
                Ok(())
            },
            Type::Str => {
                let s = parse_string_literal(c.value.as_str())?;
                let string_label = self.maybe_add_string_data(s.as_str(), code)?;
                emit(code, Instr::Lea { dst: Register::R1, label: Label::Temp(string_label) });
                assert(lines(code@) =~= lines(old(code)@) + gen_constant(
                    old(self)@,
                    *c,
                ).unwrap().code);
                Ok(())
            },
            _ => Err(CompileError::InvalidConstant),
        }
    }

    /// Emits the instructions that leave the value of `node` in `R1`.
    pub fn right_gen(&mut self, node: &Expression, scope: &str, code: &mut Vec<Instr<String>>) -> (r:
        Result<(), CompileError>)
        ensures
            generated(
                right_gen(old(self)@, *node, scope@),
                r,
                final(self)@,
                old(code)@,
                final(code)@,
            ),
        decreases node,
    {
        match node {
            Expression::Constant(c) => self.gen_constant(c, code),
            Expression::BinaryOp(op) => {
                self.right_gen(&op.left, scope, code)?;
                // The left value is saved across the evaluation of the right
                // operand.
                emit(code, Instr::Push(Register::R1));
                self.right_gen(&op.right, scope, code)?;
                emit(code, Instr::Pop(Register::R2));
                emit_combine(op.op, code);
                assert(lines(code@) =~= lines(old(code)@) + right_gen(
                    old(self)@,
                    *node,
                    scope@,
                ).unwrap().code);
                Ok(())
            },
            Expression::UnaryOp(op) => self.gen_unary(op, scope, code),
            Expression::Assignment(ass) => self.gen_assignment_code(ass, scope, code),
            Expression::TernaryOp(top) => self.gen_ternary(top, scope, code),
            Expression::FuncCall(func_call) => self.gen_call(func_call, scope, code),
            Expression::NameRef(name) => {
                self.codegen_name(name, scope, code)?;
                // An array decays to its address; everything else is loaded.
                let mut deref = true;
                match name {
                    NameRef::Id(_) => {
                        match self.get_type_of_name(name, scope)? {
                            VariableType::Array { .. } => {
                                deref = false;
                            },
                            _ => {},
                        }
                    },
                    _ => {},
                }
                if deref {
                    emit(code, Instr::Load { dst: Register::R1, addr: Register::R1 });
                }
                assert(lines(code@) =~= lines(old(code)@) + right_gen(
                    old(self)@,
                    *node,
                    scope@,
                ).unwrap().code);
                Ok(())
            },
            Expression::TypeName(_) => Err(CompileError::MisplacedTypeName),
            Expression::Cast(cast) => self.right_gen(&cast.expr, scope, code),
        }
    }

    /// Emits a unary operation.
    fn gen_unary(&mut self, op: &UnaryOp, scope: &str, code: &mut Vec<Instr<String>>) -> (r: Result<
        (),
        CompileError,
    >)
        ensures
            generated(
                gen_unary(old(self)@, *op, scope@),
                r,
                final(self)@,
                old(code)@,
                final(code)@,
            ),
        decreases op,
    {
        let ghost expected = gen_unary(old(self)@, *op, scope@);
        match op.op {
            UnaryOpKind::Negate => {
                self.right_gen(&op.expr, scope, code)?;
                emit(code, Instr::Neg(Register::R1));
                assert(lines(code@) =~= lines(old(code)@) + expected.unwrap().code);
                Ok(())
            },
            UnaryOpKind::Not => {
                self.right_gen(&op.expr, scope, code)?;
                emit(
                    code,
                    Instr::Test { op: TestOp::Equal, lhs: Register::R1, rhs: Operand::Imm(0) },
                );
                emit(code, Instr::Mov { dst: Register::R1, src: Operand::Reg(Register::ZR) });
                assert(lines(code@) =~= lines(old(code)@) + expected.unwrap().code);
                Ok(())
            },
            UnaryOpKind::AddressOf => self.left_gen(&op.expr, scope, code),
            UnaryOpKind::Dereference => {
                self.right_gen(&op.expr, scope, code)?;
                emit(code, Instr::Load { dst: Register::R1, addr: Register::R1 });
                assert(lines(code@) =~= lines(old(code)@) + expected.unwrap().code);
                Ok(())
            },
            UnaryOpKind::SizeOf => {
                match &*op.expr {
                    Expression::TypeName(t) => {
                        let size = self.get_type_size(&t.ty)?;
                        emit(
                            code,
                            Instr::Mov { dst: Register::R1, src: Operand::Imm(size as i64) },
                        );
                        assert(lines(code@) =~= lines(old(code)@) + expected.unwrap().code);
                        Ok(())
                    },
                    _ => Err(CompileError::SizeofNonType),
                }
            },
            _ => {
                self.left_gen(&op.expr, scope, code)?;
                let id = match &op.id {
                    None => {
                        return Err(CompileError::NotAVariable);
                    },
                    Some(id) => id,
                };
                let var = match self.find_variable(id.name.as_str(), scope)? {
                    None => {
                        return Err(CompileError::UndefinedVariable);
                    },
                    Some(v) => v,
                };
                // A pointer steps by the size of what it points to.
                let delta = match &var.var_type {
                    VariableType::Regular { ty: Type::Ptr(pointed) } => self.get_type_size(
                        pointed,
                    )?,
                    _ => 1,
                };
                proof {
                    reveal_with_fuel(Type::model, 2);
                    reveal_with_fuel(VariableType::model, 2);
                }
                emit_step(op.op, delta, code);
                assert(lines(code@) =~= lines(old(code)@) + expected.unwrap().code);
                Ok(())
            },
        }
    }

    /// Emits a conditional expression.
    fn gen_ternary(&mut self, top: &TernaryOp, scope: &str, code: &mut Vec<Instr<String>>) -> (r:
        Result<(), CompileError>)
        ensures
            generated(
                gen_ternary(old(self)@, *top, scope@),
                r,
                final(self)@,
                old(code)@,
                final(code)@,
            ),
        decreases top,
    {
        let neg_label = self.get_tmp_label(LabelKind::TernaryNo);
        let ternary_end_label = self.get_tmp_label(LabelKind::TernaryYes);
        self.inc_tmp_label()?;
        self.right_gen(&top.cond, scope, code)?;
        emit(
            code,
            Instr::Test { op: TestOp::NotEqual, lhs: Register::R1, rhs: Operand::Imm(0) },
        );
        emit(code, Instr::JumpIfFalse(Label::Temp(neg_label)));
        self.right_gen(&top.if_true, scope, code)?;
        emit(code, Instr::Jump(Label::Temp(ternary_end_label)));
        emit(code, Instr::Mark(Label::Temp(neg_label)));
        self.right_gen(&top.if_false, scope, code)?;
        emit(code, Instr::Mark(Label::Temp(ternary_end_label)));
        assert(lines(code@) =~= lines(old(code)@) + gen_ternary(
            old(self)@,
            *top,
            scope@,
        ).unwrap().code);
        Ok(())
    }

    /// Emits a call.
    fn gen_call(&mut self, func_call: &FuncCall, scope: &str, code: &mut Vec<Instr<String>>) -> (r:
        Result<(), CompileError>)
        ensures
            generated(
                gen_call(old(self)@, *func_call, scope@),
                r,
                final(self)@,
                old(code)@,
                final(code)@,
            ),
        decreases func_call,
    {
        let rettype = match self.get_func_data(func_call.name.as_str()) {
            None => {
                return Err(CompileError::UnknownFunction);
            },
            Some(func_data) => func_data.decl_data.return_type.clone(),
        };
        let ghost expected = gen_call(old(self)@, *func_call, scope@);
        let ghost whole = gen_args(
            old(self)@,
            func_call.args@,
            func_call.args@.len() as int,
            scope@,
        );
        let ghost done: Code = Seq::empty();
        // The arguments are pushed last first, so that the first lies
        // nearest to the frame of the callee.
        let mut i: usize = func_call.args.len();
        assert(lines(code@) =~= lines(old(code)@) + done);
        assert(decreases_to!(func_call => func_call.args));
        proof {
            let rest = gen_args(self@, func_call.args@, i as int, scope@);
            if rest.is_ok() {
                assert(done + rest.unwrap().code =~= rest.unwrap().code);
            }
        }
        while i > 0
            invariant
                i <= func_call.args.len(),
                decreases_to!(func_call => func_call.args),
                lines(code@) == lines(old(code)@) + done,
                whole == gen_args(
                    old(self)@,
                    func_call.args@,
                    func_call.args@.len() as int,
                    scope@,
                ),
                whole == after(done, gen_args(self@, func_call.args@, i as int, scope@)),
                expected == gen_call(old(self)@, *func_call, scope@),
                old(self)@.funcs.contains_key(func_call.name@),
            decreases i,
        {
            let ghost before = self@;
            let ghost arg = right_gen(before, func_call.args@[i - 1], scope@);
            self.right_gen(&func_call.args[i - 1], scope, code)?;
            emit(code, Instr::Push(Register::R1));
            proof {
                let rest = gen_args(self@, func_call.args@, i - 1, scope@);
                let next = done + arg.unwrap().code + seq![Instr::Push(Register::R1)];
                if rest.is_ok() {
                    assert(done + (arg.unwrap().code + seq![Instr::Push(Register::R1)]
                        + rest.unwrap().code) =~= next + rest.unwrap().code);
                }
                done = next;
            }
            i -= 1;
        }
        // Room for the return value.
        let ret_size = self.get_type_size(&rettype)?;
        emit_pushes(code, Register::ZR, ret_size);
        emit(code, Instr::Call(Label::Function(func_call.name.clone())));
        if ret_size > 0 {
            emit(code, Instr::Pop(Register::R1));
        }
        emit_pops(code, Register::ZR, func_call.args.len());
        proof {
            let args_out = gen_args(self@, func_call.args@, 0, scope@);
            assert(done + args_out.unwrap().code =~= done);
            assert(lines(code@) =~= lines(old(code)@) + expected.unwrap().code);
        }
        Ok(())
    }

    /// Emits an assignment. The value stored is left in `R1`.
    pub fn gen_assignment_code(
        &mut self,
        ass: &Assignment,
        scope: &str,
        code: &mut Vec<Instr<String>>,
    ) -> (r: Result<(), CompileError>)
        ensures
            generated(
                gen_assignment(old(self)@, *ass, scope@),
                r,
                final(self)@,
                old(code)@,
                final(code)@,
            ),
        decreases ass,
    {
        self.left_gen(&ass.lvalue, scope, code)?;
        emit(code, Instr::Push(Register::R1));
        self.right_gen(&ass.rvalue, scope, code)?;
        emit(code, Instr::Pop(Register::R2));
        // Here R1 holds the value and R2 the address of the target.
        match ass.op {
            Some(bop) => {
                let a = match bop.to_op() {
                    None => {
                        return Err(CompileError::UnsupportedOperator);
                    },
                    Some(a) => a,
                };
                emit(code, Instr::Push(Register::R2));
                emit(code, Instr::Load { dst: Register::R2, addr: Register::R2 });
                emit(
                    code,
                    Instr::Alu {
                        op: a,
                        dst: Register::R1,
                        lhs: Register::R2,
                        rhs: Operand::Reg(Register::R1),
                    },
                );
                emit(code, Instr::Pop(Register::R2));
            },
            None => {},
        }
        emit(code, Instr::Store { addr: Register::R2, src: Register::R1 });
        assert(lines(code@) =~= lines(old(code)@) + gen_assignment(
            old(self)@,
            *ass,
            scope@,
        ).unwrap().code);
        Ok(())
    }

    /// Emits the instructions that leave the address of `node` in `R1`.
    pub fn left_gen(&mut self, node: &Expression, scope: &str, code: &mut Vec<Instr<String>>) -> (r:
        Result<(), CompileError>)
        ensures
            generated(
                left_gen(old(self)@, *node, scope@),
                r,
                final(self)@,
                old(code)@,
                final(code)@,
            ),
        decreases node,
    {
        match node {
            Expression::UnaryOp(uop) => {
                match uop.op {
                    UnaryOpKind::Dereference => {
                        self.left_gen(&uop.expr, scope, code)?;
                        emit(code, Instr::Load { dst: Register::R1, addr: Register::R1 });
                        assert(lines(code@) =~= lines(old(code)@) + left_gen(
                            old(self)@,
                            *node,
                            scope@,
                        ).unwrap().code);
                        Ok(())
                    },
                    _ => Err(CompileError::NotAnLvalue),
                }
            },
            Expression::NameRef(name) => self.codegen_name(name, scope, code),
            _ => Err(CompileError::NotAnLvalue),
        }
    }

    /// Emits the instructions that leave the address of the name `node` in
    /// `R1`.
    pub fn codegen_name(&mut self, node: &NameRef, scope: &str, code: &mut Vec<Instr<String>>) -> (r:
        Result<(), CompileError>)
        ensures
            generated(
                codegen_name(old(self)@, *node, scope@),
                r,
                final(self)@,
                old(code)@,
                final(code)@,
            ),
        decreases node,
    {
        match node {
            NameRef::Id(id) => self.codegen_load_addr_of_var(id.name.as_str(), scope, code),
            NameRef::ArrayRef(array_ref) => self.codegen_load_addr_of_array_indexing(
                array_ref,
                scope,
                code,
            ),
            NameRef::StructRef(struct_ref) => self.codegen_load_addr_of_struct_ref(
                struct_ref,
                scope,
                code,
            ),
        }
    }

    /// Emits the instructions that leave the address of a field in `R1`.
    pub fn codegen_load_addr_of_struct_ref(
        &mut self,
        struct_ref: &StructRef,
        scope: &str,
        code: &mut Vec<Instr<String>>,
    ) -> (r: Result<(), CompileError>)
        ensures
            generated(
                gen_struct_ref(old(self)@, *struct_ref, scope@),
                r,
                final(self)@,
                old(code)@,
                final(code)@,
            ),
        decreases struct_ref,
    {
        self.codegen_name(&struct_ref.name, scope, code)?;
        let struct_vartype = self.get_type_of_name(&struct_ref.name, scope)?;
        let (field_var, through_pointer) = self.accessed_field(
            struct_vartype,
            struct_ref.access,
            struct_ref.field.as_str(),
        )?;
        let offset = field_var.offset;
        if through_pointer {
            emit(code, Instr::Load { dst: Register::R1, addr: Register::R1 });
        }
        emit(
            code,
            Instr::Alu {
                op: AluOp::Add,
                dst: Register::R1,
                lhs: Register::R1,
                rhs: Operand::Imm(offset as i64),
            },
        );
        assert(lines(code@) =~= lines(old(code)@) + gen_struct_ref(
            old(self)@,
            *struct_ref,
            scope@,
        ).unwrap().code);
        Ok(())
    }

    /// Emits the instructions that leave the address of an item of an array
    /// in `R1`.
    pub fn codegen_load_addr_of_array_indexing(
        &mut self,
        array_ref: &ArrayRef,
        scope: &str,
        code: &mut Vec<Instr<String>>,
    ) -> (r: Result<(), CompileError>)
        ensures
            generated(
                gen_array_ref(old(self)@, *array_ref, scope@),
                r,
                final(self)@,
                old(code)@,
                final(code)@,
            ),
        decreases array_ref,
    {
        let ghost expected = gen_array_ref(old(self)@, *array_ref, scope@);
        self.codegen_name(&array_ref.name, scope, code)?;
        let ghost base_state = self@;
        let ghost base_code = codegen_name(old(self)@, *array_ref.name, scope@).unwrap().code;
        let array_type = self.get_type_of_name(&array_ref.name, scope)?;
        let (dimensions, item_size) = match array_type {
            VariableType::Array { item, dimensions } => {
                let item_size = self.get_array_item_size(item)?;
                (clone_dimensions(dimensions), item_size)
            },
            _ => {
                return Err(CompileError::NotAnArray);
            },
        };
        if array_ref.indices.len() != dimensions.len() {
            return Err(CompileError::ArrayRankMismatch);
        }
        // R2 holds the address of the item.
        emit(code, Instr::Mov { dst: Register::R2, src: Operand::Reg(Register::R1) });
        let ghost whole = gen_indices(
            base_state,
            array_ref.indices@,
            dimensions@,
            item_size as nat,
            array_ref.indices@.len() as int,
            scope@,
        );
        let ghost start = lines(code@);
        let ghost done: Code = Seq::empty();
        let mut i: usize = array_ref.indices.len();
        let mut cur_dimensions_product: u64 = 1;
        assert(start =~= start + done);
        assert(start =~= lines(old(code)@) + base_code + seq![
            crate::lowering::mov(Register::R2, Register::R1),
        ]);
        assert(decreases_to!(array_ref => array_ref.indices));
        proof {
            let rest = gen_indices(
                self@,
                array_ref.indices@,
                dimensions@,
                item_size as nat,
                i as int,
                scope@,
            );
            if rest.is_ok() {
                assert(done + rest.unwrap().code =~= rest.unwrap().code);
            }
            if i > 0 {
                assert(dimensions@.subrange(i as int, dimensions@.len() as int) =~= Seq::<
                    u32,
                >::empty());
            }
        }
        while i > 0
            invariant
                i <= array_ref.indices.len(),
                array_ref.indices.len() == dimensions.len(),
                decreases_to!(array_ref => array_ref.indices),
                lines(code@) == start + done,
                whole == after(
                    done,
                    gen_indices(
                        self@,
                        array_ref.indices@,
                        dimensions@,
                        item_size as nat,
                        i as int,
                        scope@,
                    ),
                ),
                i > 0 ==> cur_dimensions_product == stride(dimensions@, i - 1),
                cur_dimensions_product <= 0xffff_ffff * 0xffff_ffff,
                start == lines(old(code)@) + base_code + seq![
                    crate::lowering::mov(Register::R2, Register::R1),
                ],
                match whole {
                    Err(e) => expected == Err::<Emitted, CompileError>(e),
                    Ok(out) => expected == Ok::<Emitted, CompileError>(
                        Emitted {
                            state: out.state,
                            code: base_code + seq![crate::lowering::mov(Register::R2, Register::R1)]
                                + out.code + seq![crate::lowering::mov(Register::R1, Register::R2)],
                        },
                    ),
                },
                expected == gen_array_ref(old(self)@, *array_ref, scope@),
            decreases i,
        {
            if cur_dimensions_product > u32::MAX as u64 {
                return Err(CompileError::Overflow);
            }
            let ghost before = self@;
            let ghost index = right_gen(before, array_ref.indices@[i - 1], scope@);
            emit(code, Instr::Push(Register::R2));
            self.right_gen(&array_ref.indices[i - 1], scope, code)?;
            emit(code, Instr::Pop(Register::R2));
            emit(
                code,
                Instr::Alu {
                    op: AluOp::Mul,
                    dst: Register::R1,
                    lhs: Register::R1,
                    rhs: Operand::Imm(cur_dimensions_product as i64),
                },
            );
            emit(
                code,
                Instr::Alu {
                    op: AluOp::Mul,
                    dst: Register::R1,
                    lhs: Register::R1,
                    rhs: Operand::Imm(item_size as i64),
                },
            );
            emit(
                code,
                Instr::Alu {
                    op: AluOp::Add,
                    dst: Register::R2,
                    lhs: Register::R2,
                    rhs: Operand::Reg(Register::R1),
                },
            );
            proof {
                let rest = gen_indices(
                    self@,
                    array_ref.indices@,
                    dimensions@,
                    item_size as nat,
                    i - 1,
                    scope@,
                );
                let step = seq![crate::lowering::push(Register::R2)] + index.unwrap().code + seq![
                    crate::lowering::pop(Register::R2),
                    crate::lowering::alu_imm(
                        AluOp::Mul,
                        Register::R1,
                        Register::R1,
                        stride(dimensions@, i - 1) as int,
                    ),
                    crate::lowering::alu_imm(
                        AluOp::Mul,
                        Register::R1,
                        Register::R1,
                        item_size as int,
                    ),
                    crate::lowering::alu(AluOp::Add, Register::R2, Register::R2, Register::R1),
                ];
                let next = done + step;
                assert(lines(code@) =~= start + next);
                if rest.is_ok() {
                    assert(done + (step + rest.unwrap().code) =~= next + rest.unwrap().code);
                }
                done = next;
            }
            i -= 1;
            if i > 0 {
                proof {
                    let tail = dimensions@.subrange(i as int, dimensions@.len() as int);
                    lemma_product_first(tail);
                    assert(tail.subrange(1, tail.len() as int) =~= dimensions@.subrange(
                        i + 1,
                        dimensions@.len() as int,
                    ));
                    assert(tail[0] == dimensions@[i as int]);
                    assert(dimensions@[i as int] * cur_dimensions_product <= 0xffff_ffff
                        * 0xffff_ffff) by (nonlinear_arith)
                        requires
                            dimensions@[i as int] <= 0xffff_ffff,
                            cur_dimensions_product <= 0xffff_ffff,
                    ;
                }
                cur_dimensions_product = (dimensions[i] as u64) * cur_dimensions_product;
            }
        }
        emit(code, Instr::Mov { dst: Register::R1, src: Operand::Reg(Register::R2) });
        proof {
            let rest = gen_indices(
                self@,
                array_ref.indices@,
                dimensions@,
                item_size as nat,
                0,
                scope@,
            );
            assert(done + rest.unwrap().code =~= done);
            assert(lines(code@) =~= lines(old(code)@) + expected.unwrap().code);
        }
        Ok(())
    }
}

} // verus!
