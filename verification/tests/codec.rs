use embed::VM;

#[test]
fn image_round_trip() {
    let mut vm = VM::new();
    vm.write_cell(0, 0x1234);
    vm.write_cell(1, 0xffee);
    vm.write_cell(0x7fff, 0x0102);
    let image = vm.save().unwrap();
    assert_eq!(image.len(), 0x10000);

    let mut other = VM::new();
    other.write_cell(5, 0xdead);
    let count = other.load(&image).unwrap();
    assert_eq!(count, 0x8000);
    for i in [0u16, 1, 2, 5, 0x100, 0x7fff] {
        assert_eq!(other.read_cell(i), vm.read_cell(i));
    }
}

#[test]
fn save_encodes_little_endian() {
    let mut vm = VM::new();
    vm.write_cell(0, 0xabcd);
    let image = vm.save().unwrap();
    assert_eq!(image[0], 0xcd);
    assert_eq!(image[1], 0xab);
    assert_eq!(image[2], 0);
}

#[test]
fn save_block_range_violation() {
    let vm = VM::new();
    assert!(vm.save_block(0x8000, 0x8001).is_none());
    assert!(vm.save_block(0xffff, 1).is_none());
}

#[test]
fn save_block_end_index_not_count() {
    let mut vm = VM::new();
    vm.write_cell(2, 0xbeef);
    vm.write_cell(3, 0x0102);
    // The second argument is an end index: cells 2 and 3.
    let bytes = vm.save_block(2, 4).unwrap();
    assert_eq!(bytes, vec![0xef, 0xbe, 0x02, 0x01]);
    // An end index at or below the start writes nothing, successfully.
    assert_eq!(vm.save_block(5, 3).unwrap(), Vec::<u8>::new());
    assert_eq!(vm.save_block(5, 5).unwrap(), Vec::<u8>::new());
}

#[test]
fn load_resets_registers() {
    let mut vm = VM::new();
    vm.pc = 77;
    vm.sp = 1;
    vm.rp = 2;
    vm.t = 3;
    let count = vm.load(&vec![0x34, 0x12]).unwrap();
    assert_eq!(count, 1);
    assert_eq!(vm.pc, 0);
    assert_eq!(vm.sp, 0x2200);
    assert_eq!(vm.rp, 0x7fff);
    assert_eq!(vm.t, 0);
    assert_eq!(vm.read_cell(0), 0x1234);
}

#[test]
fn load_drops_trailing_lone_byte() {
    let mut vm = VM::new();
    vm.write_cell(1, 0x5555);
    let count = vm.load(&vec![0x01, 0x02, 0x03]).unwrap();
    assert_eq!(count, 1);
    assert_eq!(vm.read_cell(0), 0x0201);
    // The cell after the loaded prefix keeps its contents.
    assert_eq!(vm.read_cell(1), 0x5555);
}

#[test]
fn load_empty_image() {
    let mut vm = VM::new();
    vm.write_cell(0, 9);
    let count = vm.load(&Vec::new()).unwrap();
    assert_eq!(count, 0);
    assert_eq!(vm.read_cell(0), 9);
}

#[test]
fn load_oversized_image_fills_core() {
    let mut vm = VM::new();
    let mut image = vec![0u8; 0x10000];
    image[0] = 7;
    image.push(0xaa);
    image.push(0xbb);
    let count = vm.load(&image).unwrap();
    assert_eq!(count, 0x8000);
    assert_eq!(vm.read_cell(0), 7);
}
