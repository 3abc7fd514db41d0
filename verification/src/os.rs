//! The loader: it prepares the memory and the first stack frame of the
//! machine for a program, runs the program, and hands back its exit value.
//!
//! The memory is laid out as follows: word 0 holds `HALT`; a program is
//! loaded from `PROGRAM_INIT_ADDRESS` on; the stack grows downwards from
//! `INIT_SP_ADDRESS`. The first frame makes the program return to word 0.

use vstd::prelude::*;
use crate::instruction::Register;
use crate::machine::{
    read_num,
    Cpu,
    CpuView,
    Instruction,
    MachineError,
    MemEntry,
    Registers,
    MEMORY_SIZE,
};

verus! {

/// The address of the first instruction of a loaded program.
pub const PROGRAM_INIT_ADDRESS: u32 = 1000;

/// The address of the highest word of the stack.
pub const INIT_SP_ADDRESS: u32 = 9999;

/// The number of steps that a program may take unless told otherwise.
pub const DEFAULT_STEP_LIMIT: u64 = 100_000_000;

/// The machine together with what the loader needs to run programs on it.
pub struct OS {
    pub cpu: Cpu,
    /// The number of steps after which a run is given up.
    pub step_limit: u64,
}

/// The machine before a program is loaded: everything is zero, and word 0
/// holds `HALT`.
pub open spec fn fresh() -> CpuView {
    CpuView {
        regs: Registers { r1: 0, r2: 0, zr: 0, bp: 0, sp: 0, ir: 0 },
        mem: Seq::new(MEMORY_SIZE as nat, |i: int| MemEntry::Num(0)).update(
            0,
            MemEntry::Instruction(Instruction::Halt),
        ),
    }
}

/// `mem` with the instructions of `program` from `init_addr` on.
pub open spec fn with_program(mem: Seq<MemEntry>, program: Seq<Instruction>, init_addr: int) -> Seq<
    MemEntry,
> {
    Seq::new(
        mem.len(),
        |a: int|
            if init_addr <= a < init_addr + program.len() {
                MemEntry::Instruction(program[a - init_addr])
            } else {
                mem[a]
            },
    )
}

/// The machine with the first stack frame: the slot of the return value
/// holds -1, the return address is 0, where `HALT` lies, and the frame
/// pointer points to a word that holds its own address.
pub open spec fn with_stack_frame(c: CpuView) -> CpuView {
    CpuView {
        regs: c.regs.with(Register::SP, (INIT_SP_ADDRESS - 3) as i32).with(
            Register::BP,
            (INIT_SP_ADDRESS - 2) as i32,
        ),
        mem: c.mem.update(INIT_SP_ADDRESS - 1, MemEntry::Num(0)).update(
            INIT_SP_ADDRESS - 2,
            MemEntry::Num((INIT_SP_ADDRESS - 2) as i32),
        ).update(INIT_SP_ADDRESS as int, MemEntry::Num(-1i32)),
    }
}

/// The machine ready to run `program`.
pub open spec fn booted(program: Seq<Instruction>) -> CpuView {
    let loaded = CpuView {
        regs: fresh().regs.with(Register::IR, PROGRAM_INIT_ADDRESS as i32),
        mem: with_program(fresh().mem, program, PROGRAM_INIT_ADDRESS as int),
    };
    with_stack_frame(loaded)
}

/// The exit value of a program that has ended in state `c`: the number in
/// the slot of the return value of the current frame.
pub open spec fn exit_value(c: CpuView) -> Result<i32, MachineError> {
    read_num(c.mem, c.regs.bp.wrapping_add(2) as int)
}

/// Whether a program of `len` instructions fits into the memory from
/// `init_addr` on.
pub open spec fn fits(len: nat, init_addr: int) -> bool {
    init_addr + len <= MEMORY_SIZE
}

/// What running `program` for at most `limit` steps gives: its exit value,
/// where it fits into the memory, halts in time, and leaves a number in the
/// slot of the return value.
pub open spec fn run_result(program: Seq<Instruction>, limit: nat) -> Result<i32, MachineError> {
    if !fits(program.len(), PROGRAM_INIT_ADDRESS as int) {
        Err(MachineError::BadAddress)
    } else {
        let (end, outcome) = booted(program).run(limit);
        match outcome {
            Err(e) => Err(e),
            Ok(()) => exit_value(end),
        }
    }
}

impl OS {
    /// A machine without a program.
    pub fn new() -> (os: OS)
        ensures
            os.cpu@ == fresh(),
            os.step_limit == DEFAULT_STEP_LIMIT,
    {
        let mut instance = OS { cpu: Cpu::new(), step_limit: DEFAULT_STEP_LIMIT };
        instance.initialize_memory();
        instance
    }

    /// Puts `HALT` into word 0.
    pub fn initialize_memory(&mut self)
        ensures
            final(self).cpu@ == (CpuView {
                mem: old(self).cpu@.mem.update(0, MemEntry::Instruction(Instruction::Halt)),
                ..old(self).cpu@
            }),
            final(self).step_limit == old(self).step_limit,
    {
        let _ = self.cpu.mem.set(0, MemEntry::Instruction(Instruction::Halt));
    }

    /// Brings the machine back to the state before any program was loaded.
    pub fn reset_cpu_state(&mut self)
        ensures
            final(self).cpu@ == fresh(),
            final(self).step_limit == old(self).step_limit,
    {
        self.cpu = Cpu::new();
        self.initialize_memory();
    }

    /// Sets up the first stack frame.
    pub fn initialize_stackframe(&mut self)
        ensures
            final(self).cpu@ == with_stack_frame(old(self).cpu@),
            final(self).step_limit == old(self).step_limit,
    {
        self.cpu.regs.set(&Register::SP, (INIT_SP_ADDRESS - 3) as i32);
        self.cpu.regs.set(&Register::BP, (INIT_SP_ADDRESS - 2) as i32);
        // The program returns to word 0.
        let _ = self.cpu.mem.set(INIT_SP_ADDRESS - 1, MemEntry::Num(0));
        // There is no frame before the first: its pointer points to itself.
        let _ = self.cpu.mem.set(INIT_SP_ADDRESS - 2, MemEntry::Num((INIT_SP_ADDRESS - 2) as i32));
        // The exit value of a program that returns none.
        let _ = self.cpu.mem.set(INIT_SP_ADDRESS, MemEntry::Num(-1));
    }

    /// Copies `instructions` into the memory from `init_addr` on. A program
    /// that does not fit is not loaded at all.
    pub fn load_program(&mut self, instructions: &Vec<Instruction>, init_addr: u32) -> (r: Result<
        (),
        MachineError,
    >)
        ensures
            final(self).step_limit == old(self).step_limit,
            final(self).cpu.regs == old(self).cpu.regs,
            fits(instructions@.len(), init_addr as int) ==> r.is_ok() && final(self).cpu@.mem
                == with_program(old(self).cpu@.mem, instructions@, init_addr as int),
            !fits(instructions@.len(), init_addr as int) ==> r == Err::<(), MachineError>(
                MachineError::BadAddress,
            ) && final(self).cpu@ == old(self).cpu@,
    {
        let size = self.cpu.mem.size();
        if init_addr as usize > size || instructions.len() > size - init_addr as usize {
            return Err(MachineError::BadAddress);
        }
        let mut instr_i: usize = 0;
        assert(self.cpu@.mem =~= with_program(
            old(self).cpu@.mem,
            instructions@.subrange(0, 0),
            init_addr as int,
        ));
        while instr_i < instructions.len()
            invariant
                instr_i <= instructions.len(),
                init_addr + instructions.len() <= MEMORY_SIZE,
                self.step_limit == old(self).step_limit,
                self.cpu.regs == old(self).cpu.regs,
                old(self).cpu@.mem.len() == MEMORY_SIZE,
                self.cpu@.mem == with_program(
                    old(self).cpu@.mem,
                    instructions@.subrange(0, instr_i as int),
                    init_addr as int,
                ),
            decreases instructions.len() - instr_i,
        {
            let _ = self.cpu.mem.set(
                init_addr + instr_i as u32,
                MemEntry::Instruction(instructions[instr_i]),
            );
            instr_i += 1;
            assert(self.cpu@.mem =~= with_program(
                old(self).cpu@.mem,
                instructions@.subrange(0, instr_i as int),
                init_addr as int,
            ));
        }
        assert(instructions@.subrange(0, instr_i as int) =~= instructions@);
        Ok(())
    }

    /// Runs the program `instructions` and returns its exit value: the
    /// machine is reset, the program is loaded, the first stack frame is set
    /// up, and the machine runs until it halts or the step limit is
    /// reached.
    pub fn run_program(&mut self, instructions: Vec<Instruction>) -> (r: Result<i32, MachineError>)
        ensures
            r == run_result(instructions@, old(self).step_limit as nat),
            final(self).step_limit == old(self).step_limit,
            fits(instructions@.len(), PROGRAM_INIT_ADDRESS as int) ==> final(self).cpu@ == booted(
                instructions@,
            ).run(old(self).step_limit as nat).0,
            !fits(instructions@.len(), PROGRAM_INIT_ADDRESS as int) ==> final(self).cpu@ == fresh(),
    {
        self.reset_cpu_state();
        self.load_program(&instructions, PROGRAM_INIT_ADDRESS)?;
        self.cpu.regs.set(&Register::IR, PROGRAM_INIT_ADDRESS as i32);
        self.initialize_stackframe();
        assert(self.cpu@ == booted(instructions@));
        self.cpu.start(self.step_limit)?;
        self.exit_value()
    }

    /// The exit value of the program that has just ended.
    pub fn exit_value(&self) -> (r: Result<i32, MachineError>)
        ensures
            r == exit_value(self.cpu@),
    {
        let bp = self.cpu.regs.get(&Register::BP);
        let slot = bp.wrapping_add(2);
        if slot < 0 {
            return Err(MachineError::BadAddress);
        }
        self.cpu.mem.get_num(slot as u32)
    }
}

} // verus!
