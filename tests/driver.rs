use i8080::cpm::{run_program, ConsoleEvent, MAX_RUN_OPS};
use i8080::loader::{parse_address, AddressError, App, LoadError};
use i8080::machine::SimpleMachine;

#[test]
fn bdos_prints_character() {
    // MVI A,'A'; MOV C,A; MVI C,2; MOV E,A; CALL 0005h; JMP 0000h
    let program = [0x3E, 0x41, 0x4F, 0x0E, 0x02, 0x5F, 0xCD, 0x05, 0x00, 0xC3, 0x00, 0x00];
    let run = run_program(&program, MAX_RUN_OPS);
    assert_eq!(run.output, vec![ConsoleEvent::Char(b'A')]);
    // six instructions, the RET at 0x0005, then the stop at 0x0000
    assert_eq!(run.ops, 7);
    assert_eq!(run.cycles, 7 + 5 + 7 + 5 + 17 + 10 + 10);
}

#[test]
fn bdos_prints_dollar_string() {
    // LXI D,0110h; MVI C,9; CALL 0005h; JMP 0000h; at 0110h "Hi\x01\n$"
    let mut program = vec![0x11, 0x10, 0x01, 0x0E, 0x09, 0xCD, 0x05, 0x00, 0xC3, 0x00, 0x00];
    program.resize(0x10, 0);
    program.extend_from_slice(b"Hi\x01\n$");
    let run = run_program(&program, MAX_RUN_OPS);
    assert_eq!(
        run.output,
        vec![ConsoleEvent::Char(b'H'), ConsoleEvent::Char(b'i'), ConsoleEvent::Char(b'\n')]
    );
}

#[test]
fn bdos_reports_unsupported_function() {
    // MVI C,1; CALL 0005h; HLT
    let run = run_program(&[0x0E, 0x01, 0xCD, 0x05, 0x00, 0x76], MAX_RUN_OPS);
    assert_eq!(run.output, vec![ConsoleEvent::Unsupported(0x01)]);
}

#[test]
fn run_stops_at_halt_and_budget() {
    let run = run_program(&[0x00, 0x00, 0x76], MAX_RUN_OPS);
    assert_eq!(run.ops, 3);
    assert_eq!(run.cycles, 12);
    // an endless loop stops when the budget is spent
    let run = run_program(&[0xC3, 0x00, 0x01], 5);
    assert_eq!(run.ops, 5);
    assert_eq!(run.cycles, 50);
    assert!(run.output.is_empty());
}

#[test]
fn machine_load_copies_bytes() {
    let mut m = SimpleMachine::new();
    m.load(0xFFFE, &[1, 2]);
    assert_eq!(m.bus.memory[0xFFFE], 1);
    assert_eq!(m.bus.memory[0xFFFF], 2);
    assert_eq!(m.bus.memory[0xFFFD], 0);
}

#[test]
fn address_parsing() {
    assert_eq!(parse_address("100"), Ok(0x100));
    assert_eq!(parse_address("+fF"), Ok(0xFF));
    assert_eq!(parse_address(""), Err(AddressError::Empty));
    assert_eq!(parse_address("+"), Err(AddressError::InvalidDigit));
    assert_eq!(parse_address("12g"), Err(AddressError::InvalidDigit));
    assert_eq!(parse_address("-1"), Err(AddressError::InvalidDigit));
    assert_eq!(parse_address("FFFFFFFFFFFFFFFF"), Ok(u64::MAX));
    assert_eq!(parse_address("10000000000000000"), Err(AddressError::TooLarge));
}

#[test]
fn loader_copies_and_reports() {
    let mut app = App::default();
    assert_eq!(app.memory.len(), 0x10000);
    app.address_text = "FFFE".to_string();
    app.load(Ok(vec![7, 8]));
    assert_eq!(app.error, None);
    assert_eq!(app.memory[0xFFFE], 7);
    assert_eq!(app.memory[0xFFFF], 8);

    app.load(Ok(vec![1, 2, 3]));
    assert_eq!(app.error, Some(LoadError::OutOfRange));
    assert_eq!(app.memory[0xFFFE], 7);

    app.load(Err("no such file".to_string()));
    assert_eq!(app.error, Some(LoadError::File("no such file".to_string())));

    app.address_text = "xyz".to_string();
    assert_eq!(app.load_data(Ok(vec![1])), Err(LoadError::Address(AddressError::InvalidDigit)));
}
