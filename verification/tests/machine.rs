use embed::VM;

const BYE: u16 = 0x7b00;

fn lit(l: u16) -> u16 {
    assert!(l < 0x8000);
    l | 0x8000
}

fn run_program(program: &[u16]) -> (VM, Option<i32>) {
    let mut vm = VM::new();
    vm.install(&program.to_vec());
    let report = vm.run(&Vec::new(), 1000);
    (vm, report.exit)
}

#[test]
fn reset_restores_register_defaults() {
    let mut vm = VM::new();
    vm.pc = 123;
    vm.sp = 5;
    vm.rp = 7;
    vm.t = 9;
    vm.write_cell(100, 42);
    vm.reset();
    assert_eq!(vm.pc, 0);
    assert_eq!(vm.sp, 0x2200);
    assert_eq!(vm.rp, 0x7fff);
    assert_eq!(vm.t, 0);
    // The core is untouched.
    assert_eq!(vm.read_cell(100), 42);
}

#[test]
fn conditional_branch_pops_either_way() {
    // Taken: T = 0 jumps to the target; the stacked 7 is popped back
    // into T either way and SP drops by one.
    let (vm, exit) = run_program(&[lit(7), lit(0), 0x2004, BYE, BYE]);
    assert_eq!(exit, Some(7));
    assert_eq!(vm.sp, 0x2201);
    // The halting cycle still advanced the program counter.
    assert_eq!(vm.pc, 5);

    // Not taken: T = 1 falls through to the next cell.
    let (vm, exit) = run_program(&[lit(7), lit(1), 0x2004, BYE, BYE]);
    assert_eq!(exit, Some(7));
    assert_eq!(vm.sp, 0x2201);
    assert_eq!(vm.pc, 4);
}

#[test]
fn alu_order_overrides_and_write_backs() {
    // Operation 0 with both T-to-N and N-to-T set: the new T is the N
    // observed before the cycle, and the cell at the new SP gets the
    // old T.
    let (vm, exit) = run_program(&[lit(0x1111), lit(0x2222), 0x60a0, BYE]);
    assert_eq!(exit, Some(0x1111));
    assert_eq!(vm.read_cell(0x2202), 0x2222);
}

#[test]
fn divide_by_zero_traps_to_cell_one() {
    let (vm, exit) = run_program(&[0x0002, BYE, lit(10), lit(0), 0x7900]);
    assert_eq!(exit, Some(10));
    // The halt at cell 1 moved the program counter past it.
    assert_eq!(vm.pc, 2);
    assert_eq!(vm.t, 10);
}

#[test]
fn unsigned_divmod_quotient_and_remainder() {
    // 7 divided by 2; T-to-N parks the remainder at the current SP.
    let (vm, exit) = run_program(&[lit(7), lit(2), 0x7980, BYE]);
    assert_eq!(exit, Some(3));
    assert_eq!(vm.read_cell(0x2202), 1);
}

#[test]
fn signed_divmod_truncates_toward_zero() {
    // N = ~8 = -9, T = 2: the quotient is -4 (truncating), not -5.
    let (_, exit) = run_program(&[lit(8), 0x6a00, lit(2), 0x7a00, BYE]);
    assert_eq!(exit, Some(-4));
}

#[test]
fn signed_divmod_overflow_wraps() {
    // N = ~0x7fff = -32768, T = ~0 = -1: the quotient wraps back to
    // the largest negative cell.
    let (_, exit) = run_program(&[lit(0x7fff), 0x6a00, lit(0), 0x6a00, 0x7a00, BYE]);
    assert_eq!(exit, Some(-32768));
}

#[test]
fn signed_divide_by_zero_traps_too() {
    let (_, exit) = run_program(&[0x0002, BYE, lit(10), lit(0), 0x7a00]);
    assert_eq!(exit, Some(10));
}

#[test]
fn invert_is_ones_complement() {
    let (_, exit) = run_program(&[lit(0), 0x6a00, BYE]);
    assert_eq!(exit, Some(-1));
}

#[test]
fn zero_equals_test() {
    let (_, exit) = run_program(&[lit(0), 0x6c00, BYE]);
    assert_eq!(exit, Some(-1));
    let (_, exit) = run_program(&[lit(5), 0x6c00, BYE]);
    assert_eq!(exit, Some(0));
}

#[test]
fn equality_test() {
    let (_, exit) = run_program(&[lit(5), lit(5), 0x6d03, BYE]);
    assert_eq!(exit, Some(-1));
    let (_, exit) = run_program(&[lit(5), lit(6), 0x6d03, BYE]);
    assert_eq!(exit, Some(0));
}

#[test]
fn unsigned_less_than() {
    let (_, exit) = run_program(&[lit(1), lit(2), 0x6e03, BYE]);
    assert_eq!(exit, Some(-1));
    let (_, exit) = run_program(&[lit(2), lit(1), 0x6e03, BYE]);
    assert_eq!(exit, Some(0));
}

#[test]
fn signed_less_than() {
    // N = -1 (from inverting 0), T = 3: -1 < 3.
    let (_, exit) = run_program(&[lit(0), 0x6a00, lit(3), 0x6f03, BYE]);
    assert_eq!(exit, Some(-1));
    // N = 5, T = -1: 5 < -1 is false, though unsigned it would hold.
    let (_, exit) = run_program(&[lit(5), lit(0), 0x6a00, 0x6f03, BYE]);
    assert_eq!(exit, Some(0));
}

#[test]
fn logical_shifts() {
    let (_, exit) = run_program(&[lit(8), lit(2), 0x7003, BYE]);
    assert_eq!(exit, Some(2));
    let (_, exit) = run_program(&[lit(8), lit(2), 0x7103, BYE]);
    assert_eq!(exit, Some(32));
}

#[test]
fn bitwise_and_or_xor() {
    let (_, exit) = run_program(&[lit(0x0f0f), lit(0x00ff), 0x6703, BYE]);
    assert_eq!(exit, Some(0x000f));
    let (_, exit) = run_program(&[lit(0x0f0f), lit(0x00ff), 0x6803, BYE]);
    assert_eq!(exit, Some(0x0fff));
    let (_, exit) = run_program(&[lit(0x0f0f), lit(0x00ff), 0x6903, BYE]);
    assert_eq!(exit, Some(0x0ff0));
}

#[test]
fn double_cell_add_and_multiply() {
    // The low half of 300 * 300 comes through the N-to-T override.
    let (_, exit) = run_program(&[lit(300), lit(300), 0x6623, BYE]);
    assert_eq!(exit, Some(0x5f90));
    // Without the override, T gets the high half.
    let (_, exit) = run_program(&[lit(300), lit(300), 0x6603, BYE]);
    assert_eq!(exit, Some(1));
    // Adding 0x7fff to itself carries into the high half.
    let (_, exit) = run_program(&[lit(0x7fff), lit(0x7fff), 0x6503, BYE]);
    assert_eq!(exit, Some(0));
}

#[test]
fn store_and_load_cells() {
    // Store 0x1234 at byte address 0x100 (cell 0x80).
    let (vm, exit) = run_program(&[lit(0x1234), lit(0x100), 0x6403, BYE]);
    assert_eq!(exit, Some(0));
    assert_eq!(vm.read_cell(0x80), 0x1234);

    // Load it back through operation 3.
    let mut vm = VM::new();
    vm.install(&vec![lit(0x100), 0x6300, BYE]);
    vm.write_cell(0x80, 0x2a2a);
    let report = vm.run(&Vec::new(), 1000);
    assert_eq!(report.exit, Some(0x2a2a));
}

#[test]
fn call_and_return() {
    // Call cell 3; the return word jumps back to the byte address the
    // call pushed, and the return stack pointer comes back up.
    let (vm, exit) = run_program(&[0x4003, BYE, 0x0000, 0x601c]);
    assert_eq!(exit, Some(0));
    assert_eq!(vm.rp, 0x7fff);
    assert_eq!(vm.pc, 2);
}

#[test]
fn stack_pointer_exports() {
    // Operation 18 exports SP as a byte address.
    let (_, exit) = run_program(&[0x7200, BYE]);
    assert_eq!(exit, Some(0x4400));
    // Operation 19 exports RP as a byte address: 0x7fff << 1 wraps.
    let (_, exit) = run_program(&[0x7300, BYE]);
    assert_eq!(exit, Some(-2));
}

#[test]
fn stack_pointer_assignments() {
    // Operation 20 loads SP from the byte address in T, keeping T.
    let (vm, exit) = run_program(&[lit(0x4408), 0x7400, 0x7200, BYE]);
    assert_eq!(exit, Some(0x4408));
    assert_eq!(vm.sp, 0x2204);
    // Operation 21 loads RP the same way and pulls N into T.
    let (vm, exit) = run_program(&[lit(0x2000), 0x7500, 0x7300, BYE]);
    assert_eq!(exit, Some(0x2000));
    assert_eq!(vm.rp, 0x1000);
}

#[test]
fn unknown_operation_keeps_t() {
    let (_, exit) = run_program(&[lit(5), 0x7c00, BYE]);
    assert_eq!(exit, Some(5));
    let (_, exit) = run_program(&[lit(5), 0x7f00, BYE]);
    assert_eq!(exit, Some(5));
}

#[test]
fn shifts_by_sixteen_or_more_clear() {
    let (_, exit) = run_program(&[lit(1), lit(17), 0x7003, BYE]);
    assert_eq!(exit, Some(0));
    let (_, exit) = run_program(&[lit(1), lit(16), 0x7103, BYE]);
    assert_eq!(exit, Some(0));
}

#[test]
fn to_r_and_r_from() {
    let (vm, exit) = run_program(&[lit(42), 0x6147, 0x628d, BYE]);
    assert_eq!(exit, Some(42));
    assert_eq!(vm.rp, 0x7fff);
}
