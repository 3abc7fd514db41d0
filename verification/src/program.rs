//! Functions and whole programs: what they lower to, and the code generator
//! for them.

use vstd::prelude::*;
use crate::ast::{AstNode, External, FuncDef, RootAstNode};
use crate::compiler::{global_scope, Compiler, CompilerView};
use crate::error::CompileError;
use crate::instruction::{emit, emit_pops, emit_pushes, lines, repeat, Instr, Label, Register};
use crate::listing::{listing_text, render_listing};
use crate::lowering::{after, generated, pop, push, Emitted};
use crate::names::Code;
use crate::registry::{
    allot,
    register_func_body,
    register_func_decl,
    register_struct,
    variables_view,
    Allotment,
};
use crate::statement::{gen_compound, gen_statement};
use crate::structs::StructView;
use crate::symbols::{ScopeData, ScopeView, VarStorageType, VariableData, VariableView};
use crate::table::{NameSet, Table};

verus! {

/// The instructions that save `regs`, in order.
pub open spec fn save_registers(regs: Seq<Register>) -> Code {
    Seq::new(regs.len(), |i: int| push(regs[i]))
}

/// The instructions that restore `regs`, the last saved first.
pub open spec fn restore_registers(regs: Seq<Register>) -> Code {
    Seq::new(regs.len(), |i: int| pop(regs[regs.len() - 1 - i]))
}

/// What surrounds the body of a function that saves `regs` and has `locals`
/// words of local variables: before it, the entry label, the saved
/// registers and one pushed word for every local word; behind it, the exit
/// label, the local words dropped, the registers restored, and the return.
pub open spec fn prologue(name: Seq<char>, regs: Seq<Register>, locals: nat) -> Code {
    seq![Instr::Mark(Label::Function(name))] + save_registers(regs) + repeat(
        push(Register::ZR),
        locals,
    )
}

/// What follows the body of a function: see [`prologue`].
pub open spec fn epilogue(name: Seq<char>, regs: Seq<Register>, locals: nat) -> Code {
    seq![Instr::Mark(Label::FunctionEnd(name))] + repeat(pop(Register::ZR), locals)
        + restore_registers(regs) + seq![Instr::Ret]
}

/// The definition of a function inside `scope`: the function is declared,
/// its body is registered, and its body is emitted between prologue and
/// epilogue, in the scope that bears the name of the function.
pub open spec fn gen_func_def(c: CompilerView, def: FuncDef, scope: Seq<char>) -> Result<
    Emitted,
    CompileError,
> {
    let name = def.decl.name@;
    match register_func_body(register_func_decl(c, def.decl), def.body, def.decl, scope) {
        Err(e) => Err(e),
        Ok(c2) => if !c2.funcs.contains_key(name) {
            Err(CompileError::UnknownFunction)
        } else {
            match c2.funcs[name].body {
                None => Err(CompileError::FunctionNotDefined),
                Some(b) => match gen_compound(c2, def.body.items@, 0, name) {
                    Err(e) => Err(e),
                    Ok(body) => Ok(
                        Emitted {
                            state: body.state,
                            code: prologue(name, b.regs_used, b.local_vars_size) + body.code
                                + epilogue(name, b.regs_used, b.local_vars_size),
                        },
                    ),
                },
            }
        },
    }
}

/// The global variables that the declarations among `externals[from..]`
/// declare, allotted one after the other from `cursor` on, added to
/// `variables`.
pub open spec fn allot_globals(
    structs: Map<Seq<char>, StructView>,
    externals: Seq<External>,
    from: int,
    variables: Map<Seq<char>, VariableView>,
    cursor: nat,
) -> Result<Allotment, CompileError>
    decreases externals.len() - from,
{
    if from < 0 || from >= externals.len() {
        Ok(Allotment { variables, cursor })
    } else {
        match externals[from] {
            External::VarDecl(d) => match allot(structs, d, VarStorageType::Global, cursor) {
                Err(e) => Err(e),
                Ok(v) => allot_globals(
                    structs,
                    externals,
                    from + 1,
                    variables.insert(v.name, v),
                    cursor + v.size,
                ),
            },
            _ => allot_globals(structs, externals, from + 1, variables, cursor),
        }
    }
}

/// One item of the top level: a function definition is emitted, a function
/// declaration and a structure are registered, and a variable, allotted
/// before, needs nothing more.
pub open spec fn gen_external(c: CompilerView, ext: External) -> Result<Emitted, CompileError> {
    match ext {
        External::FuncDef(d) => gen_func_def(c, d, global_scope()),
        External::FuncDecl(d) => Ok(Emitted::nothing(register_func_decl(c, d))),
        External::StructDecl(d) => match register_struct(c, d) {
            Err(e) => Err(e),
            Ok(state) => Ok(Emitted::nothing(state)),
        },
        External::VarDecl(_) => Ok(Emitted::nothing(c)),
    }
}

/// The items `externals[from..]` of the top level, one after the other.
pub open spec fn gen_externals(c: CompilerView, externals: Seq<External>, from: int) -> Result<
    Emitted,
    CompileError,
>
    decreases externals.len() - from,
{
    if from < 0 || from >= externals.len() {
        Ok(Emitted::nothing(c))
    } else {
        match gen_external(c, externals[from]) {
            Err(e) => Err(e),
            Ok(first) => after(first.code, gen_externals(first.state, externals, from + 1)),
        }
    }
}

/// The scope of the global variables `variables`, all of them declared.
pub open spec fn global_scope_view(variables: Map<Seq<char>, VariableView>) -> ScopeView {
    ScopeView {
        name: global_scope(),
        parent_scope: global_scope(),
        parent_func: global_scope(),
        variables,
        declared: variables.dom(),
        labels: None,
    }
}

/// A whole program: the global variables are allotted and their scope is
/// registered; the global block is reserved; a jump leads to `main`; then
/// come the items of the top level.
pub open spec fn gen_root(c: CompilerView, root: RootAstNode) -> Result<Emitted, CompileError> {
    match allot_globals(c.structs, root.externals@, 0, Map::empty(), 0) {
        Err(e) => Err(e),
        Ok(g) => after(
            seq![
                Instr::Block {
                    label: Label::Global { program: c.program_index },
                    size: g.cursor as u32,
                },
                Instr::Jump(Label::Function("main"@)),
            ],
            gen_externals(
                CompilerView {
                    scopes: c.scopes.insert(global_scope(), global_scope_view(g.variables)),
                    ..c
                },
                root.externals@,
                0,
            ),
        ),
    }
}

/// What the node `node` lowers to in `scope`.
pub open spec fn code_gen(c: CompilerView, node: AstNode, scope: Seq<char>) -> Result<
    Emitted,
    CompileError,
> {
    match node {
        AstNode::RootAstNode(root) => gen_root(c, *root),
        AstNode::FuncDecl(d) => Ok(Emitted::nothing(register_func_decl(c, *d))),
        AstNode::FuncDef(d) => gen_func_def(c, *d, scope),
        AstNode::Compound(comp) => gen_compound(c, comp.items@, 0, scope),
        AstNode::Statement(s) => gen_statement(c, *s, scope),
    }
}

/// The text of the program `root` compiled as program `program_index`.
pub open spec fn compiled_text(root: RootAstNode, program_index: u32) -> Result<
    Seq<char>,
    CompileError,
> {
    match gen_root(CompilerView::initial(program_index), root) {
        Err(e) => Err(e),
        Ok(out) => Ok(listing_text(out.code)),
    }
}

impl Compiler {
    /// Emits the definition of a function inside `scope`.
    pub fn gen_func_def(&mut self, func_def: &FuncDef, scope: &str, code: &mut Vec<Instr<String>>)
        -> (r: Result<(), CompileError>)
        ensures
            generated(
                gen_func_def(old(self)@, *func_def, scope@),
                r,
                final(self)@,
                old(code)@,
                final(code)@,
            ),
    {
        let ghost expected = gen_func_def(old(self)@, *func_def, scope@);
        let func_name = func_def.decl.name.as_str();
        emit(code, Instr::Mark(Label::Function(func_def.decl.name.clone())));
        self.register_func_decl(&func_def.decl);
        self.register_func_body(&func_def.body, &func_def.decl, scope)?;
        let func_data = match self.get_func_data(func_name) {
            None => {
                return Err(CompileError::UnknownFunction);
            },
            Some(f) => f,
        };
        let body_data = match &func_data.body_data {
            None => {
                return Err(CompileError::FunctionNotDefined);
            },
            Some(b) => b,
        };
        let local_vars_size = body_data.local_vars_size;
        // The registers are kept aside: they are restored after the body
        // has been emitted.
        let mut regs_used: Vec<Register> = Vec::new();
        let ghost start = lines(code@);
        let mut i: usize = 0;
        assert(start =~= start + save_registers(body_data.regs_used@.subrange(0, 0)));
        while i < body_data.regs_used.len()
            invariant
                i <= body_data.regs_used.len(),
                regs_used@ == body_data.regs_used@.subrange(0, i as int),
                lines(code@) == start + save_registers(regs_used@),
            decreases body_data.regs_used.len() - i,
        {
            let reg = body_data.regs_used[i];
            regs_used.push(reg);
            emit(code, Instr::Push(reg));
            i += 1;
            assert(regs_used@ =~= body_data.regs_used@.subrange(0, i as int));
            assert(lines(code@) =~= start + save_registers(regs_used@));
        }
        assert(regs_used@ =~= body_data.regs_used@);
        // Room for the local variables; what the words hold does not matter.
        emit_pushes(code, Register::ZR, local_vars_size);
        assert(lines(code@) =~= lines(old(code)@) + prologue(
            func_def.decl.name@,
            regs_used@,
            local_vars_size as nat,
        ));
        self.gen_compound(&func_def.body.items, func_name, code)?;
        emit(code, Instr::Mark(Label::FunctionEnd(func_def.decl.name.clone())));
        emit_pops(code, Register::ZR, local_vars_size as usize);
        let ghost middle = lines(code@);
        let mut k: usize = regs_used.len();
        assert(middle =~= middle + Seq::<Instr<Seq<char>>>::empty());
        while k > 0
            invariant
                k <= regs_used.len(),
                lines(code@) == middle + restore_registers(regs_used@).subrange(
                    0,
                    regs_used.len() - k,
                ),
            decreases k,
        {
            k -= 1;
            emit(code, Instr::Pop(regs_used[k]));
            assert(lines(code@) =~= middle + restore_registers(regs_used@).subrange(
                0,
                regs_used.len() - k,
            ));
        }
        assert(restore_registers(regs_used@).subrange(0, regs_used.len() as int)
            =~= restore_registers(regs_used@));
        emit(code, Instr::Ret);
        assert(lines(code@) =~= lines(old(code)@) + expected.unwrap().code);
        Ok(())
    }

    /// Allots the global variables that `externals` declare.
    fn allot_global_variables(&self, externals: &Vec<External>) -> (r: Result<
        (Table<VariableData>, u32),
        CompileError,
    >)
        ensures
            match r {
                Ok((t, size)) => allot_globals(self@.structs, externals@, 0, Map::empty(), 0)
                    == Ok::<Allotment, CompileError>(
                    Allotment { variables: variables_view(t), cursor: size as nat },
                ),
                Err(e) => allot_globals(self@.structs, externals@, 0, Map::empty(), 0) == Err::<
                    Allotment,
                    CompileError,
                >(e),
            },
    {
        let mut glob_vars: Table<VariableData> = Table::new();
        let mut next_var_offset: u32 = 0;
        let ghost whole = allot_globals(self@.structs, externals@, 0, Map::empty(), 0);
        assert(variables_view(glob_vars) =~= Map::empty());
        let mut i: usize = 0;
        while i < externals.len()
            invariant
                i <= externals.len(),
                whole == allot_globals(self@.structs, externals@, 0, Map::empty(), 0),
                allot_globals(
                    self@.structs,
                    externals@,
                    i as int,
                    variables_view(glob_vars),
                    next_var_offset as nat,
                ) == whole,
            decreases externals.len() - i,
        {
            match &externals[i] {
                External::VarDecl(decl) => {
                    let ghost before = variables_view(glob_vars);
                    let var_data = self.allot_variable(
                        decl,
                        VarStorageType::Global,
                        &mut next_var_offset,
                    )?;
                    let ghost v = var_data@;
                    glob_vars.insert(var_data.name.clone(), var_data);
                    assert(variables_view(glob_vars) =~= before.insert(v.name, v));
                },
                _ => {},
            }
            i += 1;
        }
        Ok((glob_vars, next_var_offset))
    }

    /// Emits one item of the top level.
    fn gen_external(&mut self, ext: &External, code: &mut Vec<Instr<String>>) -> (r: Result<
        (),
        CompileError,
    >)
        ensures
            generated(gen_external(old(self)@, *ext), r, final(self)@, old(code)@, final(code)@),
    {
        match ext {
            External::FuncDef(func_def) => self.gen_func_def(func_def, "_GLOBAL", code),
            External::FuncDecl(func_decl) => {
                self.register_func_decl(func_decl);
                assert(lines(code@) =~= lines(old(code)@) + Seq::<Instr<Seq<char>>>::empty());
                Ok(())
            },
            External::StructDecl(struct_decl) => {
                self.register_struct(struct_decl)?;
                assert(lines(code@) =~= lines(old(code)@) + Seq::<Instr<Seq<char>>>::empty());
                Ok(())
            },
            External::VarDecl(_) => {
                assert(lines(code@) =~= lines(old(code)@) + Seq::<Instr<Seq<char>>>::empty());
                Ok(())
            },
        }
    }

    /// Emits a whole program.
    pub fn gen_root(&mut self, root_node: &RootAstNode, code: &mut Vec<Instr<String>>) -> (r: Result<
        (),
        CompileError,
    >)
        ensures
            generated(gen_root(old(self)@, *root_node), r, final(self)@, old(code)@, final(code)@),
    {
        let ghost expected = gen_root(old(self)@, *root_node);
        let (glob_vars, globals_size) = self.allot_global_variables(&root_node.externals)?;
        // The global variables resolve everywhere, from the start.
        let mut glob_var_names = NameSet::new();
        glob_vars.add_names_to(&mut glob_var_names);
        assert(glob_var_names@ =~= variables_view(glob_vars).dom());
        let scope_data = ScopeData {
            name: String::from_str("_GLOBAL"),
            parent_scope: String::from_str("_GLOBAL"),
            parent_func: String::from_str("_GLOBAL"),
            variables: glob_vars,
            declared_variables: glob_var_names,
            labels: None,
        };
        let ghost before = self@.scopes;
        self.scope_to_data.insert(String::from_str("_GLOBAL"), scope_data);
        assert(self@.scopes =~= before.insert(global_scope(), scope_data@));
        emit(code, Instr::Block { label: self.get_global_label(), size: globals_size });
        emit(code, Instr::Jump(Label::Function(String::from_str("main"))));
        let ghost start = lines(code@);
        let ghost head = seq![
            Instr::Block {
                label: Label::<Seq<char>>::Global { program: self.program_index },
                size: globals_size,
            },
            Instr::Jump(Label::Function("main"@)),
        ];
        assert(start =~= lines(old(code)@) + head);
        let ghost whole = gen_externals(self@, root_node.externals@, 0);
        let ghost done: Code = Seq::empty();
        assert(start =~= start + done);
        proof {
            if whole.is_ok() {
                assert(done + whole.unwrap().code =~= whole.unwrap().code);
            }
        }
        let mut i: usize = 0;
        while i < root_node.externals.len()
            invariant
                i <= root_node.externals.len(),
                lines(code@) == start + done,
                whole == after(done, gen_externals(self@, root_node.externals@, i as int)),
                expected == gen_root(old(self)@, *root_node),
                expected == after(head, whole),
            decreases root_node.externals.len() - i,
        {
            let ghost state = self@;
            let ghost first = gen_external(state, root_node.externals@[i as int]);
            self.gen_external(&root_node.externals[i], code)?;
            proof {
                let rest = gen_externals(self@, root_node.externals@, i + 1);
                let next = done + first.unwrap().code;
                if rest.is_ok() {
                    assert(done + (first.unwrap().code + rest.unwrap().code) =~= next
                        + rest.unwrap().code);
                }
                done = next;
            }
            i += 1;
        }
        proof {
            let rest = gen_externals(self@, root_node.externals@, i as int);
            assert(done + rest.unwrap().code =~= done);
            assert(lines(code@) =~= lines(old(code)@) + expected.unwrap().code);
        }
        Ok(())
    }

    /// Emits the code of `node`. A statement or a block is emitted in
    /// `scope`, and a function is defined inside it.
    pub fn code_gen(&mut self, node: AstNode, scope: &str, code: &mut Vec<Instr<String>>) -> (r:
        Result<(), CompileError>)
        ensures
            generated(
                code_gen(old(self)@, node, scope@),
                r,
                final(self)@,
                old(code)@,
                final(code)@,
            ),
    {
        match node {
            AstNode::RootAstNode(root_node) => self.gen_root(root_node, code),
            AstNode::FuncDecl(func_decl) => {
                self.register_func_decl(func_decl);
                assert(lines(code@) =~= lines(old(code)@) + Seq::<Instr<Seq<char>>>::empty());
                Ok(())
            },
            AstNode::FuncDef(func_def) => self.gen_func_def(func_def, scope, code),
            AstNode::Compound(compound) => self.gen_compound(&compound.items, scope, code),
            AstNode::Statement(statement) => self.gen_statement(statement, scope, code),
        }
    }

    /// Compiles `program` and returns its instructions.
    pub fn generate(&mut self, program: &RootAstNode) -> (r: Result<
        Vec<Instr<String>>,
        CompileError,
    >)
        ensures
            match gen_root(old(self)@, *program) {
                Ok(out) => r.is_ok() && final(self)@ == out.state && lines(r.unwrap()@) == out.code,
                Err(e) => r == Err::<Vec<Instr<String>>, CompileError>(e),
            },
    {
        let mut code: Vec<Instr<String>> = Vec::new();
        assert(lines(code@) =~= Seq::<Instr<Seq<char>>>::empty());
        self.code_gen(AstNode::RootAstNode(program), "_GLOBAL", &mut code)?;
        assert(lines(code@) =~= gen_root(old(self)@, *program).unwrap().code);
        Ok(code)
    }

    /// Compiles `program` as the program of index `program_index` and
    /// returns its assembly: one line for every instruction, the lines
    /// joined by line feeds.
    pub fn compile(program: &RootAstNode, program_index: u32) -> (r: Result<String, CompileError>)
        ensures
            match compiled_text(*program, program_index) {
                Ok(text) => r.is_ok() && r.unwrap()@ == text,
                Err(e) => r == Err::<String, CompileError>(e),
            },
    {
        let mut instance = Compiler::new(program_index);
        let instructions = instance.generate(program)?;
        Ok(render_listing(&instructions))
    }
}

} // verus!
