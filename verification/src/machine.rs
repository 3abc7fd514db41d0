//! The machine that runs assembled programs: six registers, a memory of
//! words, and one instruction per step.
//!
//! The stack grows downwards. `SP` is the address of the next free word:
//! a push writes there and then lowers `SP`, a pop raises `SP` and then
//! reads. `BP` is the address of the word that holds the frame pointer of
//! the caller; the return address lies one word above it, the return value
//! above that, and the arguments above the return value.

use vstd::prelude::*;
use crate::instruction::{AluOp, Register, TestOp};

verus! {

/// The number of words of memory.
pub const MEMORY_SIZE: usize = 10000;

/// The last operand of a machine instruction: a register or a number.
#[derive(Clone, Copy, Debug, PartialEq, Eq, Structural)]
pub enum Source {
    Reg(Register),
    Imm(i32),
}

/// An instruction of the machine. Every label is resolved to an address.
#[derive(Clone, Copy, Debug, PartialEq, Eq, Structural)]
pub enum Instruction {
    Mov { dst: Register, src: Source },
    Lea { dst: Register, addr: u32 },
    Load { dst: Register, addr: Register },
    Store { addr: Register, src: Register },
    Push(Register),
    Pop(Register),
    Alu { op: AluOp, dst: Register, lhs: Register, rhs: Source },
    Neg(Register),
    Test { op: TestOp, lhs: Register, rhs: Source },
    Jump(u32),
    JumpIfFalse(u32),
    Call(u32),
    Ret,
    Halt,
}

/// What a word of memory holds.
#[derive(Clone, Copy, Debug, PartialEq, Eq, Structural)]
pub enum MemEntry {
    Num(i32),
    Instruction(Instruction),
}

/// Why the machine cannot go on.
#[derive(Clone, Copy, Debug, PartialEq, Eq, Structural)]
pub enum MachineError {
    /// An address lies outside the memory.
    BadAddress,
    /// The word to execute holds a number.
    NotAnInstruction,
    /// The word to read holds an instruction.
    NotANumber,
    /// The program did not halt within the allowed number of steps.
    StepLimit,
}

/// The registers.
#[derive(Clone, Copy, Debug, PartialEq, Eq, Structural)]
pub struct Registers {
    pub r1: i32,
    pub r2: i32,
    pub zr: i32,
    pub bp: i32,
    pub sp: i32,
    pub ir: i32,
}

impl Registers {
    /// The value of `r`.
    pub open spec fn value(self, r: Register) -> i32 {
        match r {
            Register::R1 => self.r1,
            Register::R2 => self.r2,
            Register::ZR => self.zr,
            Register::BP => self.bp,
            Register::SP => self.sp,
            Register::IR => self.ir,
        }
    }

    /// The registers with `v` in `r`.
    pub open spec fn with(self, r: Register, v: i32) -> Registers {
        match r {
            Register::R1 => Registers { r1: v, ..self },
            Register::R2 => Registers { r2: v, ..self },
            Register::ZR => Registers { zr: v, ..self },
            Register::BP => Registers { bp: v, ..self },
            Register::SP => Registers { sp: v, ..self },
            Register::IR => Registers { ir: v, ..self },
        }
    }

    /// Registers that all hold zero.
    pub fn new() -> (r: Registers)
        ensures
            r == (Registers { r1: 0, r2: 0, zr: 0, bp: 0, sp: 0, ir: 0 }),
    {
        Registers { r1: 0, r2: 0, zr: 0, bp: 0, sp: 0, ir: 0 }
    }

    /// The value of `r`.
    pub fn get(&self, r: &Register) -> (v: i32)
        ensures
            v == self.value(*r),
    {
        match r {
            Register::R1 => self.r1,
            Register::R2 => self.r2,
            Register::ZR => self.zr,
            Register::BP => self.bp,
            Register::SP => self.sp,
            Register::IR => self.ir,
        }
    }

    /// Puts `v` into `r`.
    pub fn set(&mut self, r: &Register, v: i32)
        ensures
            *final(self) == old(self).with(*r, v),
    {
        match r {
            Register::R1 => {
                self.r1 = v;
            },
            Register::R2 => {
                self.r2 = v;
            },
            Register::ZR => {
                self.zr = v;
            },
            Register::BP => {
                self.bp = v;
            },
            Register::SP => {
                self.sp = v;
            },
            Register::IR => {
                self.ir = v;
            },
        }
    }
}

/// The memory: `MEMORY_SIZE` words.
#[derive(Debug)]
pub struct Memory {
    cells: Vec<MemEntry>,
}

impl View for Memory {
    type V = Seq<MemEntry>;

    closed spec fn view(&self) -> Seq<MemEntry> {
        self.cells@
    }
}

/// Whether `addr` is the address of a word.
pub open spec fn valid_address(addr: int) -> bool {
    0 <= addr < MEMORY_SIZE
}

impl Memory {
    #[verifier::type_invariant]
    spec fn sized(&self) -> bool {
        self.cells@.len() == MEMORY_SIZE
    }

    /// A memory whose words all hold the number zero.
    pub fn new() -> (m: Memory)
        ensures
            m@ == Seq::new(MEMORY_SIZE as nat, |i: int| MemEntry::Num(0)),
    {
        let mut cells: Vec<MemEntry> = Vec::new();
        let mut i: usize = 0;
        while i < MEMORY_SIZE
            invariant
                i <= MEMORY_SIZE,
                cells@ == Seq::new(i as nat, |i: int| MemEntry::Num(0)),
            decreases MEMORY_SIZE - i,
        {
            cells.push(MemEntry::Num(0));
            i += 1;
            assert(cells@ =~= Seq::new(i as nat, |i: int| MemEntry::Num(0)));
        }
        Memory { cells }
    }

    /// Every memory has `MEMORY_SIZE` words.
    pub fn size(&self) -> (n: usize)
        ensures
            n == MEMORY_SIZE,
            self@.len() == MEMORY_SIZE,
    {
        proof {
            use_type_invariant(self);
        }
        self.cells.len()
    }

    /// The word at `addr`.
    pub fn get(&self, addr: u32) -> (r: Result<MemEntry, MachineError>)
        ensures
            self@.len() == MEMORY_SIZE,
            r == (if valid_address(addr as int) {
                Ok::<MemEntry, MachineError>(self@[addr as int])
            } else {
                Err::<MemEntry, MachineError>(MachineError::BadAddress)
            }),
    {
        proof {
            use_type_invariant(self);
        }
        if (addr as usize) < MEMORY_SIZE {
            Ok(self.cells[addr as usize])
        } else {
            Err(MachineError::BadAddress)
        }
    }

    /// The number at `addr`.
    pub fn get_num(&self, addr: u32) -> (r: Result<i32, MachineError>)
        ensures
            r == read_num(self@, addr as int),
    {
        match self.get(addr)? {
            MemEntry::Num(n) => Ok(n),
            MemEntry::Instruction(_) => Err(MachineError::NotANumber),
        }
    }

    /// Writes `entry` at `addr`.
    pub fn set(&mut self, addr: u32, entry: MemEntry) -> (r: Result<(), MachineError>)
        ensures
            final(self)@.len() == MEMORY_SIZE,
            old(self)@.len() == MEMORY_SIZE,
            valid_address(addr as int) ==> r.is_ok() && final(self)@ == old(self)@.update(
                addr as int,
                entry,
            ),
            !valid_address(addr as int) ==> r == Err::<(), MachineError>(MachineError::BadAddress)
                && final(self)@ == old(self)@,
    {
        proof {
            use_type_invariant(&*self);
        }
        if (addr as usize) < MEMORY_SIZE {
            self.cells[addr as usize] = entry;
            Ok(())
        } else {
            Err(MachineError::BadAddress)
        }
    }
}

/// The number that the word at `addr` holds.
pub open spec fn read_num(mem: Seq<MemEntry>, addr: int) -> Result<i32, MachineError> {
    if !valid_address(addr) {
        Err(MachineError::BadAddress)
    } else {
        match mem[addr] {
            MemEntry::Num(n) => Ok(n),
            MemEntry::Instruction(_) => Err(MachineError::NotANumber),
        }
    }
}

/// The machine.
#[derive(Debug)]
pub struct Cpu {
    pub regs: Registers,
    pub mem: Memory,
}

/// The mathematical value of a [`Cpu`].
pub struct CpuView {
    pub regs: Registers,
    pub mem: Seq<MemEntry>,
}

impl View for Cpu {
    type V = CpuView;

    open spec fn view(&self) -> CpuView {
        CpuView { regs: self.regs, mem: self.mem@ }
    }
}

/// What one step leads to.
pub enum Step {
    /// The machine goes on in this state.
    Next(CpuView),
    /// The machine has reached `HALT`.
    Halt,
    /// The machine cannot go on.
    Fault(MachineError),
}

/// The result of an arithmetic instruction. Numbers wrap around.
pub open spec fn alu_result(op: AluOp, a: i32, b: i32) -> i32 {
    match op {
        AluOp::Add => a.wrapping_add(b),
        AluOp::Sub => a.wrapping_sub(b),
        AluOp::Mul => a.wrapping_mul(b),
        AluOp::And => a & b,
        AluOp::Or => a | b,
    }
}

/// The outcome of a test: 1 where the comparison holds, 0 where it does not.
pub open spec fn test_result(op: TestOp, a: i32, b: i32) -> i32 {
    let holds = match op {
        TestOp::Equal => a == b,
        TestOp::NotEqual => a != b,
        TestOp::Less => a < b,
        TestOp::Greater => a > b,
    };
    if holds {
        1i32
    } else {
        0i32
    }
}

impl CpuView {
    /// The value of an operand.
    pub open spec fn source(self, s: Source) -> i32 {
        match s {
            Source::Reg(r) => self.regs.value(r),
            Source::Imm(v) => v,
        }
    }

    /// The state with `v` in `r`.
    pub open spec fn with_reg(self, r: Register, v: i32) -> CpuView {
        CpuView { regs: self.regs.with(r, v), ..self }
    }

    /// The state with the number `v` at `addr`.
    pub open spec fn with_num(self, addr: int, v: i32) -> CpuView {
        CpuView { mem: self.mem.update(addr, MemEntry::Num(v)), ..self }
    }

    /// The state with `IR` moved to the next instruction.
    pub open spec fn advance(self) -> CpuView {
        self.with_reg(Register::IR, self.regs.ir.wrapping_add(1))
    }

    /// The state after `v` was pushed, where `SP` is the address of a word.
    pub open spec fn pushed(self, v: i32) -> CpuView {
        self.with_num(self.regs.sp as int, v).with_reg(Register::SP, self.regs.sp.wrapping_sub(1))
    }

    /// What the instruction `i` leads to.
    pub open spec fn execute(self, i: Instruction) -> Step {
        match i {
            Instruction::Mov { dst, src } => Step::Next(
                self.with_reg(dst, self.source(src)).advance(),
            ),
            Instruction::Lea { dst, addr } => Step::Next(self.with_reg(dst, addr as i32).advance()),
            Instruction::Load { dst, addr } => match read_num(
                self.mem,
                self.regs.value(addr) as int,
            ) {
                Err(e) => Step::Fault(e),
                Ok(v) => Step::Next(self.with_reg(dst, v).advance()),
            },
            Instruction::Store { addr, src } => if valid_address(self.regs.value(addr) as int) {
                Step::Next(
                    self.with_num(self.regs.value(addr) as int, self.regs.value(src)).advance(),
                )
            } else {
                Step::Fault(MachineError::BadAddress)
            },
            Instruction::Push(r) => if valid_address(self.regs.sp as int) {
                Step::Next(self.pushed(self.regs.value(r)).advance())
            } else {
                Step::Fault(MachineError::BadAddress)
            },
            Instruction::Pop(r) => {
                let top = self.regs.sp.wrapping_add(1);
                match read_num(self.mem, top as int) {
                    Err(e) => Step::Fault(e),
                    Ok(v) => Step::Next(self.with_reg(Register::SP, top).with_reg(r, v).advance()),
                }
            },
            Instruction::Alu { op, dst, lhs, rhs } => Step::Next(
                self.with_reg(
                    dst,
                    alu_result(op, self.regs.value(lhs), self.source(rhs)),
                ).advance(),
            ),
            Instruction::Neg(r) => Step::Next(
                self.with_reg(r, 0i32.wrapping_sub(self.regs.value(r))).advance(),
            ),
            Instruction::Test { op, lhs, rhs } => Step::Next(
                self.with_reg(
                    Register::ZR,
                    test_result(op, self.regs.value(lhs), self.source(rhs)),
                ).advance(),
            ),
            Instruction::Jump(addr) => Step::Next(self.with_reg(Register::IR, addr as i32)),
            Instruction::JumpIfFalse(addr) => if self.regs.zr == 0 {
                Step::Next(self.with_reg(Register::IR, addr as i32))
            } else {
                Step::Next(self.advance())
            },
            Instruction::Call(addr) => {
                // The return address, then the frame pointer of the caller.
                let below = self.regs.sp.wrapping_sub(1);
                if valid_address(self.regs.sp as int) && valid_address(below as int) {
                    Step::Next(
                        self.pushed(self.regs.ir.wrapping_add(1)).pushed(self.regs.bp).with_reg(
                            Register::BP,
                            below,
                        ).with_reg(Register::IR, addr as i32),
                    )
                } else {
                    Step::Fault(MachineError::BadAddress)
                }
            },
            Instruction::Ret => match read_num(self.mem, self.regs.bp as int) {
                Err(e) => Step::Fault(e),
                Ok(caller_bp) => match read_num(self.mem, self.regs.bp.wrapping_add(1) as int) {
                    Err(e) => Step::Fault(e),
                    Ok(ret_addr) => Step::Next(
                        self.with_reg(Register::SP, self.regs.bp.wrapping_add(1)).with_reg(
                            Register::BP,
                            caller_bp,
                        ).with_reg(Register::IR, ret_addr),
                    ),
                },
            },
            Instruction::Halt => Step::Halt,
        }
    }

    /// The instruction that `IR` points to.
    pub open spec fn fetch(self) -> Result<Instruction, MachineError> {
        if !valid_address(self.regs.ir as int) {
            Err(MachineError::BadAddress)
        } else {
            match self.mem[self.regs.ir as int] {
                MemEntry::Instruction(i) => Ok(i),
                MemEntry::Num(_) => Err(MachineError::NotAnInstruction),
            }
        }
    }

    /// What one step leads to.
    pub open spec fn step(self) -> Step {
        match self.fetch() {
            Err(e) => Step::Fault(e),
            Ok(i) => self.execute(i),
        }
    }

    /// The state in which a run of at most `fuel` steps ends, and how it
    /// ends: with `HALT`, with a fault, or at the limit.
    pub open spec fn run(self, fuel: nat) -> (CpuView, Result<(), MachineError>)
        decreases fuel,
    {
        if fuel == 0 {
            (self, Err(MachineError::StepLimit))
        } else {
            match self.step() {
                Step::Halt => (self, Ok(())),
                Step::Fault(e) => (self, Err(e)),
                Step::Next(next) => next.run((fuel - 1) as nat),
            }
        }
    }
}

/// The address that the number `v` denotes, where it denotes one.
fn address(v: i32) -> (r: Result<u32, MachineError>)
    ensures
        r == (if valid_address(v as int) {
            Ok::<u32, MachineError>(v as u32)
        } else {
            Err::<u32, MachineError>(MachineError::BadAddress)
        }),
{
    if 0 <= v && (v as usize) < MEMORY_SIZE {
        Ok(v as u32)
    } else {
        Err(MachineError::BadAddress)
    }
}

/// The result of an arithmetic instruction.
fn compute(op: AluOp, a: i32, b: i32) -> (v: i32)
    ensures
        v == alu_result(op, a, b),
{
    match op {
        AluOp::Add => a.wrapping_add(b),
        AluOp::Sub => a.wrapping_sub(b),
        AluOp::Mul => a.wrapping_mul(b),
        AluOp::And => a & b,
        AluOp::Or => a | b,
    }
}

/// The outcome of a test.
fn compare(op: TestOp, a: i32, b: i32) -> (v: i32)
    ensures
        v == test_result(op, a, b),
{
    let holds = match op {
        TestOp::Equal => a == b,
        TestOp::NotEqual => a != b,
        TestOp::Less => a < b,
        TestOp::Greater => a > b,
    };
    if holds {
        1
    } else {
        0
    }
}

impl Cpu {
    /// A machine whose registers and words all hold zero.
    pub fn new() -> (c: Cpu)
        ensures
            c@ == (CpuView {
                regs: Registers { r1: 0, r2: 0, zr: 0, bp: 0, sp: 0, ir: 0 },
                mem: Seq::new(MEMORY_SIZE as nat, |i: int| MemEntry::Num(0)),
            }),
    {
        Cpu { regs: Registers::new(), mem: Memory::new() }
    }

    /// The value of an operand.
    fn source(&self, s: Source) -> (v: i32)
        ensures
            v == self@.source(s),
    {
        match s {
            Source::Reg(r) => self.regs.get(&r),
            Source::Imm(v) => v,
        }
    }

    /// The instruction that `IR` points to.
    pub fn fetch(&self) -> (r: Result<Instruction, MachineError>)
        ensures
            r == self@.fetch(),
    {
        let addr = address(self.regs.ir)?;
        match self.mem.get(addr)? {
            MemEntry::Instruction(i) => Ok(i),
            MemEntry::Num(_) => Err(MachineError::NotAnInstruction),
        }
    }

    /// Moves `IR` to the next instruction.
    fn advance(&mut self)
        ensures
            final(self)@ == old(self)@.advance(),
    {
        self.regs.ir = self.regs.ir.wrapping_add(1);
    }

    /// Pushes `v`.
    fn push(&mut self, v: i32) -> (r: Result<(), MachineError>)
        ensures
            valid_address(old(self).regs.sp as int) ==> r.is_ok() && final(self)@ == old(
                self,
            )@.pushed(v),
            !valid_address(old(self).regs.sp as int) ==> r == Err::<(), MachineError>(
                MachineError::BadAddress,
            ) && final(self)@ == old(self)@,
    {
        let addr = address(self.regs.sp)?;
        self.mem.set(addr, MemEntry::Num(v))?;
        self.regs.sp = self.regs.sp.wrapping_sub(1);
        Ok(())
    }

    /// Executes the instruction `i`. The result tells whether the machine
    /// goes on; a fault leaves the machine as it was.
    pub fn execute(&mut self, i: Instruction) -> (r: Result<bool, MachineError>)
        ensures
            match old(self)@.execute(i) {
                Step::Next(next) => r == Ok::<bool, MachineError>(true) && final(self)@ == next,
                Step::Halt => r == Ok::<bool, MachineError>(false) && final(self)@ == old(self)@,
                Step::Fault(e) => r == Err::<bool, MachineError>(e) && final(self)@ == old(self)@,
            },
    {
        match i {
            Instruction::Mov { dst, src } => {
                let v = self.source(src);
                self.regs.set(&dst, v);
                self.advance();
            },
            Instruction::Lea { dst, addr } => {
                self.regs.set(&dst, addr as i32);
                self.advance();
            },
            Instruction::Load { dst, addr } => {
                let a = address(self.regs.get(&addr))?;
                let v = self.mem.get_num(a)?;
                self.regs.set(&dst, v);
                self.advance();
            },
            Instruction::Store { addr, src } => {
                let a = address(self.regs.get(&addr))?;
                let v = self.regs.get(&src);
                self.mem.set(a, MemEntry::Num(v))?;
                self.advance();
            },
            Instruction::Push(r) => {
                let v = self.regs.get(&r);
                self.push(v)?;
                self.advance();
            },
            Instruction::Pop(r) => {
                let top = self.regs.sp.wrapping_add(1);
                let a = address(top)?;
                let v = self.mem.get_num(a)?;
                self.regs.sp = top;
                self.regs.set(&r, v);
                self.advance();
            },
            Instruction::Alu { op, dst, lhs, rhs } => {
                let v = compute(op, self.regs.get(&lhs), self.source(rhs));
                self.regs.set(&dst, v);
                self.advance();
            },
            Instruction::Neg(r) => {
                let v = 0i32.wrapping_sub(self.regs.get(&r));
                self.regs.set(&r, v);
                self.advance();
            },
            Instruction::Test { op, lhs, rhs } => {
                let v = compare(op, self.regs.get(&lhs), self.source(rhs));
                self.regs.zr = v;
                self.advance();
            },
            Instruction::Jump(addr) => {
                self.regs.ir = addr as i32;
            },
            Instruction::JumpIfFalse(addr) => {
                if self.regs.zr == 0 {
                    self.regs.ir = addr as i32;
                } else {
                    self.advance();
                }
            },
            Instruction::Call(addr) => {
                let below = self.regs.sp.wrapping_sub(1);
                address(self.regs.sp)?;
                address(below)?;
                let ret_addr = self.regs.ir.wrapping_add(1);
                let caller_bp = self.regs.bp;
                self.push(ret_addr)?;
                self.push(caller_bp)?;
                self.regs.bp = below;
                self.regs.ir = addr as i32;
            },
            Instruction::Ret => {
                let frame = address(self.regs.bp)?;
                let caller_bp = self.mem.get_num(frame)?;
                let above = self.regs.bp.wrapping_add(1);
                let slot = address(above)?;
                let ret_addr = self.mem.get_num(slot)?;
                self.regs.sp = above;
                self.regs.bp = caller_bp;
                self.regs.ir = ret_addr;
            },
            Instruction::Halt => {
                return Ok(false);
            },
        }
        Ok(true)
    }

    /// Executes the instruction that `IR` points to. The result tells
    /// whether the machine goes on.
    pub fn step(&mut self) -> (r: Result<bool, MachineError>)
        ensures
            match old(self)@.step() {
                Step::Next(next) => r == Ok::<bool, MachineError>(true) && final(self)@ == next,
                Step::Halt => r == Ok::<bool, MachineError>(false) && final(self)@ == old(self)@,
                Step::Fault(e) => r == Err::<bool, MachineError>(e) && final(self)@ == old(self)@,
            },
    {
        let i = self.fetch()?;
        self.execute(i)
    }

    /// Runs the machine until it halts, for `max_steps` steps at most.
    pub fn start(&mut self, max_steps: u64) -> (r: Result<(), MachineError>)
        ensures
            (final(self)@, r) == old(self)@.run(max_steps as nat),
    {
        let mut left = max_steps;
        while left > 0
            invariant
                self@.run(left as nat) == old(self)@.run(max_steps as nat),
            decreases left,
        {
            let keep_running = self.step()?;
            if !keep_running {
                return Ok(());
            }
            left -= 1;
        }
        Err(MachineError::StepLimit)
    }
}

} // verus!
