use microcc::instruction::{AluOp, Register, TestOp};
use microcc::machine::{Cpu, Instruction, MachineError, MemEntry, Source, MEMORY_SIZE};
use microcc::os::{OS, INIT_SP_ADDRESS, PROGRAM_INIT_ADDRESS};

fn mov(dst: Register, v: i32) -> Instruction {
    Instruction::Mov { dst, src: Source::Imm(v) }
}

fn alu(op: AluOp, dst: Register, lhs: Register, rhs: Source) -> Instruction {
    Instruction::Alu { op, dst, lhs, rhs }
}

/// The instructions that store `R1` as the exit value and return.
fn exit_with_r1() -> Vec<Instruction> {
    vec![
        alu(AluOp::Add, Register::R2, Register::BP, Source::Imm(2)),
        Instruction::Store { addr: Register::R2, src: Register::R1 },
        Instruction::Ret,
    ]
}

fn run(mut program: Vec<Instruction>) -> Result<i32, MachineError> {
    program.extend(exit_with_r1());
    OS::new().run_program(program)
}

#[test]
fn program_that_returns_at_once_exits_with_minus_one() {
    let mut os = OS::new();
    let r = os.run_program(vec![Instruction::Ret]);
    assert_eq!(r, Ok(-1));
    assert_eq!(os.cpu.regs.ir, 0);
    assert_eq!(os.cpu.regs.bp, (INIT_SP_ADDRESS - 2) as i32);
    assert_eq!(os.cpu.regs.sp, (INIT_SP_ADDRESS - 1) as i32);
}

#[test]
fn program_stores_its_exit_value() {
    assert_eq!(run(vec![mov(Register::R1, 42)]), Ok(42));
}

#[test]
fn endless_program_reaches_the_step_limit() {
    let mut os = OS::new();
    os.step_limit = 1000;
    assert_eq!(
        os.run_program(vec![Instruction::Jump(PROGRAM_INIT_ADDRESS)]),
        Err(MachineError::StepLimit)
    );
}

#[test]
fn a_fresh_machine_holds_halt_at_zero() {
    let os = OS::new();
    assert_eq!(os.cpu.mem.get(0), Ok(MemEntry::Instruction(Instruction::Halt)));
    assert_eq!(os.cpu.mem.get(1), Ok(MemEntry::Num(0)));
    assert_eq!(os.cpu.mem.get(MEMORY_SIZE as u32), Err(MachineError::BadAddress));
    assert_eq!(os.cpu.mem.get_num(0), Err(MachineError::NotANumber));
    assert_eq!(os.cpu.regs.get(&Register::SP), 0);
}

#[test]
fn the_first_stack_frame() {
    let mut os = OS::new();
    os.initialize_stackframe();
    assert_eq!(os.cpu.regs.sp, 9996);
    assert_eq!(os.cpu.regs.bp, 9997);
    assert_eq!(os.cpu.mem.get_num(9997), Ok(9997));
    assert_eq!(os.cpu.mem.get_num(9998), Ok(0));
    assert_eq!(os.cpu.mem.get_num(9999), Ok(-1));
    assert_eq!(os.exit_value(), Ok(-1));
}

#[test]
fn a_program_that_does_not_fit_is_not_loaded() {
    let mut os = OS::new();
    let program = vec![Instruction::Ret; MEMORY_SIZE - 999];
    assert_eq!(os.load_program(&program, 1000), Err(MachineError::BadAddress));
    assert_eq!(os.cpu.mem.get(1000), Ok(MemEntry::Num(0)));
    assert_eq!(os.run_program(program), Err(MachineError::BadAddress));
    let program = vec![Instruction::Ret; 3];
    assert_eq!(os.load_program(&program, 9997), Ok(()));
    assert_eq!(os.cpu.mem.get(9999), Ok(MemEntry::Instruction(Instruction::Ret)));
    assert_eq!(os.cpu.mem.get(9996), Ok(MemEntry::Num(0)));
    assert_eq!(os.load_program(&program, 9998), Err(MachineError::BadAddress));
}

#[test]
fn arithmetic_wraps_around() {
    let r1 = Register::R1;
    assert_eq!(
        run(vec![mov(r1, i32::MAX), alu(AluOp::Add, r1, r1, Source::Imm(1))]),
        Ok(i32::MIN)
    );
    assert_eq!(run(vec![mov(r1, 7), alu(AluOp::Sub, r1, r1, Source::Imm(9))]), Ok(-2));
    assert_eq!(run(vec![mov(r1, 6), alu(AluOp::Mul, r1, r1, Source::Imm(7))]), Ok(42));
    assert_eq!(run(vec![mov(r1, 12), alu(AluOp::And, r1, r1, Source::Imm(10))]), Ok(8));
    assert_eq!(run(vec![mov(r1, 12), alu(AluOp::Or, r1, r1, Source::Imm(10))]), Ok(14));
    assert_eq!(run(vec![mov(r1, 5), Instruction::Neg(r1)]), Ok(-5));
    assert_eq!(run(vec![mov(r1, i32::MIN), Instruction::Neg(r1)]), Ok(i32::MIN));
}

#[test]
fn tests_set_the_flag_register() {
    let r1 = Register::R1;
    let flag = |op: TestOp, a: i32, b: i32| {
        run(vec![
            mov(r1, a),
            Instruction::Test { op, lhs: r1, rhs: Source::Imm(b) },
            Instruction::Mov { dst: r1, src: Source::Reg(Register::ZR) },
        ])
    };
    assert_eq!(flag(TestOp::Equal, 3, 3), Ok(1));
    assert_eq!(flag(TestOp::Equal, 3, 4), Ok(0));
    assert_eq!(flag(TestOp::NotEqual, 3, 4), Ok(1));
    assert_eq!(flag(TestOp::NotEqual, 3, 3), Ok(0));
    assert_eq!(flag(TestOp::Less, -1, 0), Ok(1));
    assert_eq!(flag(TestOp::Less, 0, 0), Ok(0));
    assert_eq!(flag(TestOp::Greater, 1, 0), Ok(1));
    assert_eq!(flag(TestOp::Greater, 0, 0), Ok(0));
}

#[test]
fn jump_if_false_follows_the_flag() {
    let r1 = Register::R1;
    let program = |a: i32| {
        vec![
            mov(r1, a),
            Instruction::Test { op: TestOp::NotEqual, lhs: r1, rhs: Source::Imm(0) },
            Instruction::JumpIfFalse(PROGRAM_INIT_ADDRESS + 5),
            mov(r1, 10),
            Instruction::Jump(PROGRAM_INIT_ADDRESS + 6),
            mov(r1, 20),
        ]
    };
    assert_eq!(run(program(1)), Ok(10));
    assert_eq!(run(program(0)), Ok(20));
}

#[test]
fn push_and_pop_move_the_stack_pointer() {
    let mut cpu = Cpu::new();
    cpu.regs.sp = 100;
    cpu.regs.r1 = 5;
    assert_eq!(cpu.execute(Instruction::Push(Register::R1)), Ok(true));
    assert_eq!(cpu.regs.sp, 99);
    assert_eq!(cpu.mem.get_num(100), Ok(5));
    assert_eq!(cpu.execute(Instruction::Pop(Register::R2)), Ok(true));
    assert_eq!(cpu.regs.sp, 100);
    assert_eq!(cpu.regs.r2, 5);
    assert_eq!(cpu.regs.ir, 2);
    assert_eq!(cpu.execute(Instruction::Lea { dst: Register::R1, addr: 500 }), Ok(true));
    assert_eq!(cpu.execute(Instruction::Load { dst: Register::R2, addr: Register::R1 }), Ok(true));
    assert_eq!(cpu.regs.r2, 0);
    assert_eq!(cpu.execute(Instruction::Halt), Ok(false));
    assert_eq!(cpu.regs.ir, 4);
}

#[test]
fn call_and_return_follow_the_calling_convention() {
    // main: push the argument, reserve the result, call, pop the result.
    // double: result = argument + argument.
    let base = PROGRAM_INIT_ADDRESS;
    let r1 = Register::R1;
    let r2 = Register::R2;
    let mut program = vec![
        mov(r1, 21),
        Instruction::Push(r1),
        Instruction::Push(Register::ZR),
        Instruction::Call(base + 9),
        Instruction::Pop(r1),
        Instruction::Pop(Register::ZR),
    ];
    program.extend(exit_with_r1());
    program.extend(vec![
        // The argument lies behind the saved frame pointer, the return
        // address and the one word of the result.
        alu(AluOp::Add, r1, Register::BP, Source::Imm(3)),
        Instruction::Load { dst: r1, addr: r1 },
        alu(AluOp::Add, r1, r1, Source::Reg(r1)),
        alu(AluOp::Add, r2, Register::BP, Source::Imm(2)),
        Instruction::Store { addr: r2, src: r1 },
        Instruction::Ret,
    ]);
    let mut os = OS::new();
    assert_eq!(os.run_program(program), Ok(42));
    assert_eq!(os.cpu.regs.sp, (INIT_SP_ADDRESS - 1) as i32);
}

#[test]
fn faults_leave_the_machine_as_it_was() {
    let mut cpu = Cpu::new();
    assert_eq!(cpu.step(), Err(MachineError::NotAnInstruction));
    cpu.regs.ir = -1;
    assert_eq!(cpu.fetch(), Err(MachineError::BadAddress));
    assert_eq!(cpu.step(), Err(MachineError::BadAddress));
    cpu.regs.sp = -1;
    assert_eq!(cpu.execute(Instruction::Push(Register::R1)), Err(MachineError::BadAddress));
    assert_eq!(cpu.regs.sp, -1);
    cpu.regs.sp = 0;
    assert_eq!(cpu.execute(Instruction::Call(5)), Err(MachineError::BadAddress));
    assert_eq!(cpu.regs.sp, 0);
    assert_eq!(cpu.mem.get_num(0), Ok(0));
    cpu.regs.sp = 9999;
    assert_eq!(cpu.execute(Instruction::Pop(Register::R1)), Err(MachineError::BadAddress));
    cpu.regs.r1 = 10000;
    assert_eq!(
        cpu.execute(Instruction::Store { addr: Register::R1, src: Register::R2 }),
        Err(MachineError::BadAddress)
    );
    assert_eq!(
        cpu.execute(Instruction::Load { dst: Register::R2, addr: Register::R1 }),
        Err(MachineError::BadAddress)
    );
    let _ = cpu.mem.set(7, MemEntry::Instruction(Instruction::Ret));
    cpu.regs.r1 = 7;
    assert_eq!(
        cpu.execute(Instruction::Load { dst: Register::R2, addr: Register::R1 }),
        Err(MachineError::NotANumber)
    );
    assert_eq!(cpu.mem.set(10000, MemEntry::Num(1)), Err(MachineError::BadAddress));
    assert_eq!(cpu.regs.ir, -1);
}
