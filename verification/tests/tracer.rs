use embed::VM;

const HEADER: &str = "\"pc[15:0]\",\"instruction[15:0]\",\"t[15:0]\",\"sp[7:0]\",\"rp[7:0]\",\"TIME\"\n";

#[test]
fn header_only_while_tracing() {
    let mut vm = VM::new();
    assert!(vm.header().is_none());
    vm.trace(true);
    assert_eq!(vm.header().unwrap(), HEADER.as_bytes().to_vec());
}

#[test]
fn csv_record_format() {
    let mut vm = VM::new();
    assert!(vm.csv(0, 0, 0, 0, 0).is_none());
    assert_eq!(vm.count, 0);

    vm.trace(true);
    let first = vm.csv(0x1234, 0xabcd, 0x000f, 0x22, 0x7f).unwrap();
    assert_eq!(first, b"1234,abcd,000f,22,7f,0s\n".to_vec());
    assert_eq!(vm.count, 1);

    let second = vm.csv(0, 0x8001, 0xffff, 0x2200, 0x7fff).unwrap();
    assert_eq!(second, b"0000,8001,ffff,2200,7fff,1ns\n".to_vec());
    assert_eq!(vm.count, 2);

    // Three hex digits, no leading zero, for a pointer under 0x1000.
    let third = vm.csv(1, 2, 3, 0x123, 0xfff).unwrap();
    assert_eq!(third, b"0001,0002,0003,123,fff,2ns\n".to_vec());
}

#[test]
fn run_trace_records() {
    let mut vm = VM::new();
    vm.trace(true);
    vm.install(&vec![0x8001, 0x7b00]);
    let report = vm.run(&Vec::new(), 1000);
    assert_eq!(report.exit, Some(1));
    assert_eq!(report.trace.len(), 3);
    assert_eq!(report.trace[0], HEADER.as_bytes().to_vec());
    assert_eq!(report.trace[1], b"0000,8001,0000,2200,7fff,0s\n".to_vec());
    assert_eq!(report.trace[2], b"0001,7b00,0001,2201,7fff,1ns\n".to_vec());
    assert_eq!(vm.count, 2);
}

#[test]
fn run_without_tracing_emits_nothing() {
    let mut vm = VM::new();
    vm.install(&vec![0x8001, 0x7b00]);
    let report = vm.run(&Vec::new(), 1000);
    assert!(report.trace.is_empty());
    assert_eq!(vm.count, 0);
}
