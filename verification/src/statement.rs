//! Statements: what they lower to, and the code generator for them.

use vstd::prelude::*;
use crate::ast::{Decl, DoWhileLoop, Expression, ForLoop, If, Return, Statement, WhileLoop};
use crate::compiler::{Compiler, CompilerView};
use crate::error::CompileError;
use crate::instruction::{
    emit,
    lines,
    AluOp,
    Instr,
    Label,
    LabelKind,
    Operand,
    Register,
    TempLabel,
    TestOp,
};
use crate::lowering::{
    after,
    alu_imm,
    gen_assignment,
    generated,
    mov,
    pop,
    push,
    right_gen,
    store,
    test_imm,
    Emitted,
};
use crate::names::{var_address, Code};
use crate::sizing::array_item_size;
use crate::symbols::LoopLabels;
use crate::types::{VariableType, VariableTypeView};

verus! {

broadcast use vstd::std_specs::vec::axiom_vec_index_decreases;

/// The test of the value in `R1` and the jump to `target` where it is zero.
pub open spec fn branch_if_zero(target: Label<Seq<char>>) -> Code {
    seq![test_imm(TestOp::NotEqual, Register::R1, 0), Instr::JumpIfFalse(target)]
}

/// The store of the value in `R1` into the slot of the return value.
pub open spec fn store_return_value() -> Code {
    seq![
        alu_imm(AluOp::Add, Register::R2, Register::BP, 2),
        store(Register::R2, Register::R1),
    ]
}

/// The initializers `init[from..]` of an array whose next item lies at the
/// address in `R2`: each is evaluated and stored, and the address moves on
/// by the size of an item. Items without an initializer are left as they
/// are.
pub open spec fn gen_init_items(
    c: CompilerView,
    init: Seq<Expression>,
    from: int,
    item_size: nat,
    scope: Seq<char>,
) -> Result<Emitted, CompileError>
    decreases init.len() - from,
{
    if from < 0 || from >= init.len() {
        Ok(Emitted::nothing(c))
    } else {
        match right_gen(c, init[from], scope) {
            Err(e) => Err(e),
            Ok(v) => match gen_init_items(v.state, init, from + 1, item_size, scope) {
                Err(e) => Err(e),
                Ok(rest) => Ok(
                    Emitted {
                        state: rest.state,
                        code: seq![push(Register::R2)] + v.code + seq![
                            pop(Register::R2),
                            store(Register::R2, Register::R1),
                            alu_imm(AluOp::Add, Register::R2, Register::R2, item_size as int),
                        ] + rest.code,
                    },
                ),
            },
        }
    }
}

/// The initialization of the array `name` with the values `init`.
pub open spec fn gen_arr_init(
    c: CompilerView,
    name: Seq<char>,
    init: Seq<Expression>,
    scope: Seq<char>,
) -> Result<Emitted, CompileError> {
    match c.find_variable(name, scope) {
        Err(e) => Err(e),
        Ok(None) => Err(CompileError::UndefinedVariable),
        Ok(Some(v)) => match v.var_type {
            VariableTypeView::Array { item, .. } => match array_item_size(c.structs, *item) {
                Err(e) => Err(e),
                Ok(item_size) => match var_address(c, name, scope) {
                    Err(e) => Err(e),
                    Ok(address) => after(
                        address + seq![mov(Register::R2, Register::R1)],
                        gen_init_items(c, init, 0, item_size, scope),
                    ),
                },
            },
            _ => Err(CompileError::NotAnArray),
        },
    }
}

/// A declaration: from here on the name resolves; an initializer is
/// evaluated and stored where the declaration stands.
pub open spec fn gen_decl(c: CompilerView, decl: Decl, scope: Seq<char>) -> Result<
    Emitted,
    CompileError,
> {
    match c.update_var_declared(decl.name(), scope) {
        Err(e) => Err(e),
        Ok(c1) => match decl {
            Decl::VarDecl(d) => match d.init {
                None => Ok(Emitted::nothing(c1)),
                Some(expr) => match var_address(c1, d.name@, scope) {
                    Err(e) => Err(e),
                    Ok(address) => match right_gen(c1, expr, scope) {
                        Err(e) => Err(e),
                        Ok(v) => Ok(
                            Emitted {
                                state: v.state,
                                code: address + seq![push(Register::R1)] + v.code + seq![
                                    pop(Register::R2),
                                    store(Register::R2, Register::R1),
                                ],
                            },
                        ),
                    },
                },
            },
            Decl::ArrayDecl(d) => match d.init {
                None => Ok(Emitted::nothing(c1)),
                Some(init) => gen_arr_init(c1, d.name@, init@, scope),
            },
        },
    }
}

/// The jump that `break` or `continue` makes from `scope`: to the label of
/// the nearest enclosing loop.
pub open spec fn loop_jump(c: CompilerView, scope: Seq<char>, is_break: bool) -> Result<
    Emitted,
    CompileError,
> {
    match c.find_break_continue_labels(scope) {
        Err(e) => Err(e),
        Ok(None) => Err(CompileError::LoopScopeNotFound),
        Ok(Some(l)) => Ok(
            Emitted {
                state: c,
                code: seq![
                    Instr::Jump(
                        Label::Temp(
                            if is_break {
                                l.break_label
                            } else {
                                l.continue_label
                            },
                        ),
                    ),
                ],
            },
        ),
    }
}

/// The statements `items[from..]`, one after the other, in `scope`.
pub open spec fn gen_compound(c: CompilerView, items: Seq<Statement>, from: int, scope: Seq<char>)
    -> Result<Emitted, CompileError>
    decreases items, items.len() - from,
{
    if from < 0 || from >= items.len() {
        Ok(Emitted::nothing(c))
    } else {
        match gen_statement(c, items[from], scope) {
            Err(e) => Err(e),
            Ok(first) => after(first.code, gen_compound(first.state, items, from + 1, scope)),
        }
    }
}

/// One statement in `scope`.
pub open spec fn gen_statement(c: CompilerView, stmt: Statement, scope: Seq<char>) -> Result<
    Emitted,
    CompileError,
>
    decreases stmt,
{
    match stmt {
        Statement::Return(ret) => gen_return(c, ret, scope),
        Statement::Decl(decl) => gen_decl(c, decl, scope),
        Statement::Assignment(a) => gen_assignment(c, a, scope),
        Statement::Expression(e) => right_gen(c, e, scope),
        Statement::If(s) => gen_if(c, s, scope),
        Statement::Compound(comp) => gen_compound(c, comp.items@, 0, comp.code_loc@),
        Statement::WhileLoop(l) => gen_while(c, l, scope),
        Statement::DoWhileLoop(l) => gen_do_while(c, l, scope),
        Statement::ForLoop(l) => gen_for(c, l, scope),
        Statement::Break => loop_jump(c, scope, true),
        Statement::Continue => loop_jump(c, scope, false),
    }
}

/// A `return`: the value, where there is one, is stored into the slot of the
/// return value; then comes the jump to the one exit of the function.
pub open spec fn gen_return(c: CompilerView, ret: Return, scope: Seq<char>) -> Result<
    Emitted,
    CompileError,
> {
    let value = match ret.expr {
        Some(e) => match right_gen(c, e, scope) {
            Err(e) => Err(e),
            Ok(v) => Ok(v.and(store_return_value())),
        },
        None => Ok(Emitted::nothing(c)),
    };
    match value {
        Err(e) => Err(e),
        Ok(v) => if v.state.scopes.contains_key(scope) {
            Ok(
                v.and(
                    seq![Instr::Jump(Label::FunctionEnd(v.state.scopes[scope].parent_func))],
                ),
            )
        } else {
            Err(CompileError::UnknownScope)
        },
    }
}

/// An `if`: the condition is evaluated in `scope`, each branch in its own
/// scope.
pub open spec fn gen_if(c: CompilerView, s: If, scope: Seq<char>) -> Result<Emitted, CompileError>
    decreases s,
{
    let else_label = Label::Temp(c.tmp_label(LabelKind::IfElse));
    let end_label = Label::Temp(c.tmp_label(LabelKind::IfEnd));
    match c.inc_tmp_label() {
        Err(e) => Err(e),
        Ok(c1) => match right_gen(c1, s.cond, scope) {
            Err(e) => Err(e),
            Ok(cond) => match gen_compound(cond.state, s.if_true.items@, 0, s.if_true.code_loc@) {
                Err(e) => Err(e),
                Ok(yes) => {
                    let no = match s.if_false {
                        Some(other) => gen_compound(yes.state, other.items@, 0, other.code_loc@),
                        None => Ok(Emitted::nothing(yes.state)),
                    };
                    match no {
                        Err(e) => Err(e),
                        Ok(no) => Ok(
                            Emitted {
                                state: no.state,
                                code: cond.code + branch_if_zero(else_label) + yes.code + seq![
                                    Instr::Jump(end_label),
                                    Instr::Mark(else_label),
                                ] + no.code + seq![Instr::Mark(end_label)],
                            },
                        ),
                    }
                },
            },
        },
    }
}

/// A `while` loop: `break` leaves by the end label, `continue` returns to
/// the test.
pub open spec fn gen_while(c: CompilerView, l: WhileLoop, scope: Seq<char>) -> Result<
    Emitted,
    CompileError,
>
    decreases l,
{
    let start = c.tmp_label(LabelKind::WhileStart);
    let end = c.tmp_label(LabelKind::WhileEnd);
    match c.inc_tmp_label() {
        Err(e) => Err(e),
        Ok(c1) => match c1.update_scope_labels(
            l.code_loc@,
            LoopLabels { break_label: end, continue_label: start },
        ) {
            Err(e) => Err(e),
            Ok(c2) => match right_gen(c2, l.cond, scope) {
                Err(e) => Err(e),
                Ok(cond) => match gen_compound(cond.state, l.body.items@, 0, l.code_loc@) {
                    Err(e) => Err(e),
                    Ok(body) => Ok(
                        Emitted {
                            state: body.state,
                            code: seq![Instr::Mark(Label::Temp(start))] + cond.code
                                + branch_if_zero(Label::Temp(end)) + body.code + seq![
                                Instr::Jump(Label::Temp(start)),
                                Instr::Mark(Label::Temp(end)),
                            ],
                        },
                    ),
                },
            },
        },
    }
}

/// A `do`-`while` loop: the body runs first; `continue` goes to the test.
pub open spec fn gen_do_while(c: CompilerView, l: DoWhileLoop, scope: Seq<char>) -> Result<
    Emitted,
    CompileError,
>
    decreases l,
{
    let cond_label = c.tmp_label(LabelKind::DoWhileCond);
    let body_label = c.tmp_label(LabelKind::DoWhileBody);
    let end = c.tmp_label(LabelKind::DoWhileEnd);
    match c.inc_tmp_label() {
        Err(e) => Err(e),
        Ok(c1) => match c1.update_scope_labels(
            l.code_loc@,
            LoopLabels { break_label: end, continue_label: cond_label },
        ) {
            Err(e) => Err(e),
            Ok(c2) => match right_gen(c2, l.cond, scope) {
                Err(e) => Err(e),
                Ok(cond) => match gen_compound(cond.state, l.body.items@, 0, l.code_loc@) {
                    Err(e) => Err(e),
                    Ok(body) => Ok(
                        Emitted {
                            state: body.state,
                            code: seq![
                                Instr::Jump(Label::Temp(body_label)),
                                Instr::Mark(Label::Temp(cond_label)),
                            ] + cond.code + branch_if_zero(Label::Temp(end)) + seq![
                                Instr::Mark(Label::Temp(body_label)),
                            ] + body.code + seq![
                                Instr::Jump(Label::Temp(cond_label)),
                                Instr::Mark(Label::Temp(end)),
                            ],
                        },
                    ),
                },
            },
        },
    }
}

/// The head of a `for` loop: the initializer, the label of the test, and
/// the test where there is one, all in the scope of the body.
pub open spec fn gen_for_head(
    c: CompilerView,
    l: ForLoop,
    cond_label: TempLabel,
    end: TempLabel,
) -> Result<Emitted, CompileError>
    decreases l, 0nat,
{
    let init = match l.init {
        Some(i) => gen_compound(c, i.items@, 0, l.code_loc@),
        None => Ok(Emitted::nothing(c)),
    };
    match init {
        Err(e) => Err(e),
        Ok(init) => {
            let cond = match l.cond {
                Some(e) => match right_gen(init.state, e, l.code_loc@) {
                    Err(e) => Err(e),
                    Ok(v) => Ok(v.and(branch_if_zero(Label::Temp(end)))),
                },
                None => Ok(Emitted::nothing(init.state)),
            };
            after(init.code + seq![Instr::Mark(Label::Temp(cond_label))], cond)
        },
    }
}

/// A `for` loop: `continue` goes to the label before the step, which is
/// there even where the loop has no step.
pub open spec fn gen_for(c: CompilerView, l: ForLoop, scope: Seq<char>) -> Result<
    Emitted,
    CompileError,
>
    decreases l, 1nat,
{
    let cond_label = c.tmp_label(LabelKind::ForCond);
    let end = c.tmp_label(LabelKind::ForEnd);
    let next_label = c.tmp_label(LabelKind::ForNext);
    match c.inc_tmp_label() {
        Err(e) => Err(e),
        Ok(c1) => match c1.update_scope_labels(
            l.code_loc@,
            LoopLabels { break_label: end, continue_label: next_label },
        ) {
            Err(e) => Err(e),
            Ok(c2) => match gen_for_head(c2, l, cond_label, end) {
                Err(e) => Err(e),
                Ok(head) => match gen_compound(head.state, l.body.items@, 0, l.code_loc@) {
                    Err(e) => Err(e),
                    Ok(body) => {
                        let next = match l.next {
                            Some(n) => gen_compound(body.state, n.items@, 0, l.code_loc@),
                            None => Ok(Emitted::nothing(body.state)),
                        };
                        match next {
                            Err(e) => Err(e),
                            Ok(next) => Ok(
                                Emitted {
                                    state: next.state,
                                    code: head.code + body.code + seq![
                                        Instr::Mark(Label::Temp(next_label)),
                                    ] + next.code + seq![
                                        Instr::Jump(Label::Temp(cond_label)),
                                        Instr::Mark(Label::Temp(end)),
                                    ],
                                },
                            ),
                        }
                    },
                },
            },
        },
    }
}

/// Emits the test of the value in `R1` and the jump to `target` where it is
/// zero.
fn emit_branch_if_zero(target: Label<String>, code: &mut Vec<Instr<String>>)
    ensures
        lines(final(code)@) == lines(old(code)@) + branch_if_zero(target@),
{
    emit(code, Instr::Test { op: TestOp::NotEqual, lhs: Register::R1, rhs: Operand::Imm(0) });
    emit(code, Instr::JumpIfFalse(target));
    assert(lines(code@) =~= lines(old(code)@) + branch_if_zero(target@));
}

impl Compiler {
    /// Emits the initialization of the array `arr_name` with the values
    /// `arr_init`.
    pub fn gen_arr_init_code(
        &mut self,
        arr_name: &str,
        arr_init: &Vec<Expression>,
        scope: &str,
        code: &mut Vec<Instr<String>>,
    ) -> (r: Result<(), CompileError>)
        ensures
            generated(
                gen_arr_init(old(self)@, arr_name@, arr_init@, scope@),
                r,
                final(self)@,
                old(code)@,
                final(code)@,
            ),
    {
        let ghost expected = gen_arr_init(old(self)@, arr_name@, arr_init@, scope@);
        let arr_var = match self.find_variable(arr_name, scope)? {
            None => {
                return Err(CompileError::UndefinedVariable);
            },
            Some(v) => v,
        };
        let item_size = match &arr_var.var_type {
            VariableType::Array { item, .. } => self.get_array_item_size(item)?,
            _ => {
                return Err(CompileError::NotAnArray);
            },
        };
        self.codegen_load_addr_of_var(arr_name, scope, code)?;
        emit(code, Instr::Mov { dst: Register::R2, src: Operand::Reg(Register::R1) });
        let ghost whole = gen_init_items(old(self)@, arr_init@, 0, item_size as nat, scope@);
        let ghost start = lines(code@);
        let ghost done: Code = Seq::empty();
        assert(start =~= start + done);
        proof {
            if whole.is_ok() {
                assert(done + whole.unwrap().code =~= whole.unwrap().code);
            }
        }
        let mut i: usize = 0;
        while i < arr_init.len()
            invariant
                i <= arr_init.len(),
                lines(code@) == start + done,
                whole == after(
                    done,
                    gen_init_items(self@, arr_init@, i as int, item_size as nat, scope@),
                ),
                expected == gen_arr_init(old(self)@, arr_name@, arr_init@, scope@),
                expected == after(
                    var_address(old(self)@, arr_name@, scope@).unwrap() + seq![
                        mov(Register::R2, Register::R1),
                    ],
                    whole,
                ),
            decreases arr_init.len() - i,
        {
            let ghost before = self@;
            let ghost value = right_gen(before, arr_init@[i as int], scope@);
            emit(code, Instr::Push(Register::R2));
            self.right_gen(&arr_init[i], scope, code)?;
            emit(code, Instr::Pop(Register::R2));
            emit(code, Instr::Store { addr: Register::R2, src: Register::R1 });
            emit(
                code,
                Instr::Alu {
                    op: AluOp::Add,
                    dst: Register::R2,
                    lhs: Register::R2,
                    rhs: Operand::Imm(item_size as i64),
                },
            );
            proof {
                let rest = gen_init_items(self@, arr_init@, i + 1, item_size as nat, scope@);
                let step = seq![push(Register::R2)] + value.unwrap().code + seq![
                    pop(Register::R2),
                    store(Register::R2, Register::R1),
                    alu_imm(AluOp::Add, Register::R2, Register::R2, item_size as int),
                ];
                let next = done + step;
                assert(lines(code@) =~= start + next);
                if rest.is_ok() {
                    assert(done + (step + rest.unwrap().code) =~= next + rest.unwrap().code);
                }
                done = next;
            }
            i += 1;
        }
        proof {
            let rest = gen_init_items(self@, arr_init@, i as int, item_size as nat, scope@);
            assert(done + rest.unwrap().code =~= done);
            assert(lines(code@) =~= lines(old(code)@) + expected.unwrap().code);
        }
        Ok(())
    }

    /// Emits a declaration.
    fn gen_decl(&mut self, decl: &Decl, scope: &str, code: &mut Vec<Instr<String>>) -> (r: Result<
        (),
        CompileError,
    >)
        ensures
            generated(
                gen_decl(old(self)@, *decl, scope@),
                r,
                final(self)@,
                old(code)@,
                final(code)@,
            ),
    {
        let ghost expected = gen_decl(old(self)@, *decl, scope@);
        match decl {
            Decl::VarDecl(var_decl) => {
                self.update_var_declared(var_decl.name.as_str(), scope)?;
                match &var_decl.init {
                    Some(expr) => {
                        self.codegen_load_addr_of_var(var_decl.name.as_str(), scope, code)?;
                        emit(code, Instr::Push(Register::R1));
                        self.right_gen(expr, scope, code)?;
                        emit(code, Instr::Pop(Register::R2));
                        emit(code, Instr::Store { addr: Register::R2, src: Register::R1 });
                        assert(lines(code@) =~= lines(old(code)@) + expected.unwrap().code);
                        Ok(())
                    },
                    None => {
                        assert(lines(code@) =~= lines(old(code)@) + expected.unwrap().code);
                        Ok(())
                    },
                }
            },
            Decl::ArrayDecl(arr_decl) => {
                self.update_var_declared(arr_decl.name.as_str(), scope)?;
                match &arr_decl.init {
                    Some(init) => self.gen_arr_init_code(
                        arr_decl.name.as_str(),
                        init,
                        scope,
                        code,
                    ),
                    None => {
                        assert(lines(code@) =~= lines(old(code)@) + expected.unwrap().code);
                        Ok(())
                    },
                }
            },
        }
    }

    /// Emits the jump of a `break` or of a `continue`.
    fn gen_loop_jump(&mut self, scope: &str, is_break: bool, code: &mut Vec<Instr<String>>) -> (r:
        Result<(), CompileError>)
        ensures
            generated(
                loop_jump(old(self)@, scope@, is_break),
                r,
                final(self)@,
                old(code)@,
                final(code)@,
            ),
    {
        match self.find_break_continue_labels(scope)? {
            None => Err(CompileError::LoopScopeNotFound),
            Some(labels) => {
                let target = if is_break {
                    labels.break_label
                } else {
                    labels.continue_label
                };
                emit(code, Instr::Jump(Label::Temp(target)));
                assert(lines(code@) =~= lines(old(code)@) + loop_jump(
                    old(self)@,
                    scope@,
                    is_break,
                ).unwrap().code);
                Ok(())
            },
        }
    }

    /// Emits the statements `items`, one after the other, in `scope`.
    pub fn gen_compound(
        &mut self,
        items: &Vec<Statement>,
        scope: &str,
        code: &mut Vec<Instr<String>>,
    ) -> (r: Result<(), CompileError>)
        ensures
            generated(
                gen_compound(old(self)@, items@, 0, scope@),
                r,
                final(self)@,
                old(code)@,
                final(code)@,
            ),
        decreases items@, items@.len() + 1,
    {
        let ghost whole = gen_compound(old(self)@, items@, 0, scope@);
        let ghost done: Code = Seq::empty();
        assert(lines(code@) =~= lines(old(code)@) + done);
        proof {
            if whole.is_ok() {
                assert(done + whole.unwrap().code =~= whole.unwrap().code);
            }
        }
        let mut i: usize = 0;
        while i < items.len()
            invariant
                i <= items.len(),
                lines(code@) == lines(old(code)@) + done,
                whole == gen_compound(old(self)@, items@, 0, scope@),
                whole == after(done, gen_compound(self@, items@, i as int, scope@)),
            decreases items.len() - i,
        {
            let ghost before = self@;
            let ghost first = gen_statement(before, items@[i as int], scope@);
            self.gen_statement(&items[i], scope, code)?;
            proof {
                let rest = gen_compound(self@, items@, i + 1, scope@);
                let next = done + first.unwrap().code;
                if rest.is_ok() {
                    assert(done + (first.unwrap().code + rest.unwrap().code) =~= next
                        + rest.unwrap().code);
                }
                done = next;
            }
            i += 1;
        }
        proof {
            let rest = gen_compound(self@, items@, i as int, scope@);
            assert(done + rest.unwrap().code =~= done);
        }
        Ok(())
    }

    /// Emits one statement in `scope`.
    pub fn gen_statement(
        &mut self,
        statement: &Statement,
        scope: &str,
        code: &mut Vec<Instr<String>>,
    ) -> (r: Result<(), CompileError>)
        ensures
            generated(
                gen_statement(old(self)@, *statement, scope@),
                r,
                final(self)@,
                old(code)@,
                final(code)@,
            ),
        decreases statement,
    {
        match statement {
            Statement::Return(ret) => self.gen_return(ret, scope, code),
            Statement::Decl(decl) => self.gen_decl(decl, scope, code),
            Statement::Assignment(ass) => self.gen_assignment_code(ass, scope, code),
            Statement::Expression(exp) => self.right_gen(exp, scope, code),
            Statement::If(if_stmt) => self.gen_if(if_stmt, scope, code),
            Statement::Compound(comp) => self.gen_compound(
                &comp.items,
                comp.code_loc.as_str(),
                code,
            ),
            Statement::WhileLoop(wl) => self.gen_while(wl, scope, code),
            Statement::DoWhileLoop(dwl) => self.gen_do_while(dwl, scope, code),
            Statement::ForLoop(fl) => self.gen_for(fl, scope, code),
            Statement::Break => self.gen_loop_jump(scope, true, code),
            Statement::Continue => self.gen_loop_jump(scope, false, code),
        }
    }

    /// Emits a `return`.
    fn gen_return(&mut self, ret: &Return, scope: &str, code: &mut Vec<Instr<String>>) -> (r: Result<
        (),
        CompileError,
    >)
        ensures
            generated(
                gen_return(old(self)@, *ret, scope@),
                r,
                final(self)@,
                old(code)@,
                final(code)@,
            ),
    {
        match &ret.expr {
            Some(ret_expr) => {
                self.right_gen(ret_expr, scope, code)?;
                emit(
                    code,
                    Instr::Alu {
                        op: AluOp::Add,
                        dst: Register::R2,
                        lhs: Register::BP,
                        rhs: Operand::Imm(2),
                    },
                );
                emit(code, Instr::Store { addr: Register::R2, src: Register::R1 });
            },
            None => {},
        }
        let func = match self.get_scope_data(scope) {
            None => {
                return Err(CompileError::UnknownScope);
            },
            Some(scope_data) => scope_data.parent_func.clone(),
        };
        emit(code, Instr::Jump(Label::FunctionEnd(func)));
        assert(lines(code@) =~= lines(old(code)@) + gen_return(
            old(self)@,
            *ret,
            scope@,
        ).unwrap().code);
        Ok(())
    }

    /// Emits an `if`.
    fn gen_if(&mut self, if_stmt: &If, scope: &str, code: &mut Vec<Instr<String>>) -> (r: Result<
        (),
        CompileError,
    >)
        ensures
            generated(
                gen_if(old(self)@, *if_stmt, scope@),
                r,
                final(self)@,
                old(code)@,
                final(code)@,
            ),
        decreases if_stmt,
    {
        let else_label = self.get_tmp_label(LabelKind::IfElse);
        let if_end_label = self.get_tmp_label(LabelKind::IfEnd);
        self.inc_tmp_label()?;
        self.right_gen(&if_stmt.cond, scope, code)?;
        emit_branch_if_zero(Label::Temp(else_label), code);
        self.gen_compound(&if_stmt.if_true.items, if_stmt.if_true.code_loc.as_str(), code)?;
        emit(code, Instr::Jump(Label::Temp(if_end_label)));
        emit(code, Instr::Mark(Label::Temp(else_label)));
        match &if_stmt.if_false {
            Some(if_false) => {
                self.gen_compound(&if_false.items, if_false.code_loc.as_str(), code)?;
            },
            None => {},
        }
        emit(code, Instr::Mark(Label::Temp(if_end_label)));
        assert(lines(code@) =~= lines(old(code)@) + gen_if(
            old(self)@,
            *if_stmt,
            scope@,
        ).unwrap().code);
        Ok(())
    }

    /// Emits a `while` loop.
    fn gen_while(&mut self, wl: &WhileLoop, scope: &str, code: &mut Vec<Instr<String>>) -> (r: Result<
        (),
        CompileError,
    >)
        ensures
            generated(
                gen_while(old(self)@, *wl, scope@),
                r,
                final(self)@,
                old(code)@,
                final(code)@,
            ),
        decreases wl,
    {
        let while_start = self.get_tmp_label(LabelKind::WhileStart);
        let while_end = self.get_tmp_label(LabelKind::WhileEnd);
        self.inc_tmp_label()?;
        self.update_scope_break_continue_labels(wl.code_loc.as_str(), while_end, while_start)?;
        emit(code, Instr::Mark(Label::Temp(while_start)));
        self.right_gen(&wl.cond, scope, code)?;
        emit_branch_if_zero(Label::Temp(while_end), code);
        self.gen_compound(&wl.body.items, wl.code_loc.as_str(), code)?;
        emit(code, Instr::Jump(Label::Temp(while_start)));
        emit(code, Instr::Mark(Label::Temp(while_end)));
        assert(lines(code@) =~= lines(old(code)@) + gen_while(
            old(self)@,
            *wl,
            scope@,
        ).unwrap().code);
        Ok(())
    }

    /// Emits a `do`-`while` loop.
    fn gen_do_while(&mut self, dwl: &DoWhileLoop, scope: &str, code: &mut Vec<Instr<String>>) -> (r:
        Result<(), CompileError>)
        ensures
            generated(
                gen_do_while(old(self)@, *dwl, scope@),
                r,
                final(self)@,
                old(code)@,
                final(code)@,
            ),
        decreases dwl,
    {
        let dowhile_cond = self.get_tmp_label(LabelKind::DoWhileCond);
        let dowhile_body = self.get_tmp_label(LabelKind::DoWhileBody);
        let dowhile_end = self.get_tmp_label(LabelKind::DoWhileEnd);
        self.inc_tmp_label()?;
        self.update_scope_break_continue_labels(dwl.code_loc.as_str(), dowhile_end, dowhile_cond)?;
        emit(code, Instr::Jump(Label::Temp(dowhile_body)));
        emit(code, Instr::Mark(Label::Temp(dowhile_cond)));
        self.right_gen(&dwl.cond, scope, code)?;
        emit_branch_if_zero(Label::Temp(dowhile_end), code);
        emit(code, Instr::Mark(Label::Temp(dowhile_body)));
        self.gen_compound(&dwl.body.items, dwl.code_loc.as_str(), code)?;
        emit(code, Instr::Jump(Label::Temp(dowhile_cond)));
        emit(code, Instr::Mark(Label::Temp(dowhile_end)));
        assert(lines(code@) =~= lines(old(code)@) + gen_do_while(
            old(self)@,
            *dwl,
            scope@,
        ).unwrap().code);
        Ok(())
    }

    /// Emits the head of a `for` loop.
    fn gen_for_head(
        &mut self,
        fl: &ForLoop,
        for_cond: TempLabel,
        for_end: TempLabel,
        code: &mut Vec<Instr<String>>,
    ) -> (r: Result<(), CompileError>)
        ensures
            generated(
                gen_for_head(old(self)@, *fl, for_cond, for_end),
                r,
                final(self)@,
                old(code)@,
                final(code)@,
            ),
        decreases fl, 0nat,
    {
        match &fl.init {
            Some(init) => {
                self.gen_compound(&init.items, fl.code_loc.as_str(), code)?;
            },
            None => {},
        }
        emit(code, Instr::Mark(Label::Temp(for_cond)));
        match &fl.cond {
            Some(cond) => {
                self.right_gen(cond, fl.code_loc.as_str(), code)?;
                emit_branch_if_zero(Label::Temp(for_end), code);
            },
            None => {},
        }
        assert(lines(code@) =~= lines(old(code)@) + gen_for_head(
            old(self)@,
            *fl,
            for_cond,
            for_end,
        ).unwrap().code);
        Ok(())
    }

    /// Emits a `for` loop.
    fn gen_for(&mut self, fl: &ForLoop, scope: &str, code: &mut Vec<Instr<String>>) -> (r: Result<
        (),
        CompileError,
    >)
        ensures
            generated(
                gen_for(old(self)@, *fl, scope@),
                r,
                final(self)@,
                old(code)@,
                final(code)@,
            ),
        decreases fl, 1nat,
    {
        let for_cond = self.get_tmp_label(LabelKind::ForCond);
        let for_end = self.get_tmp_label(LabelKind::ForEnd);
        let for_next = self.get_tmp_label(LabelKind::ForNext);
        self.inc_tmp_label()?;
        self.update_scope_break_continue_labels(fl.code_loc.as_str(), for_end, for_next)?;
        self.gen_for_head(fl, for_cond, for_end, code)?;
        self.gen_compound(&fl.body.items, fl.code_loc.as_str(), code)?;
        // `continue` jumps here even where nothing follows the body.
        emit(code, Instr::Mark(Label::Temp(for_next)));
        match &fl.next {
            Some(next) => {
                self.gen_compound(&next.items, fl.code_loc.as_str(), code)?;
            },
            None => {},
        }
        emit(code, Instr::Jump(Label::Temp(for_cond)));
        emit(code, Instr::Mark(Label::Temp(for_end)));
        assert(lines(code@) =~= lines(old(code)@) + gen_for(
            old(self)@,
            *fl,
            scope@,
        ).unwrap().code);
        Ok(())
    }
}

} // verus!
