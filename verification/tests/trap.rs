use trap_core::Trap;
use trap_core::TrapCode;
use trap_core::UserError;

#[test]
fn wasm_trap_echoes_its_fields() {
    let bt = backtrace::Backtrace::new_unresolved();
    let trap = Trap::wasm(0x1000, bt, Some(TrapCode::HeapAccessOutOfBounds));
    match &trap {
        Trap::Wasm { pc, signal_trap, .. } => {
            assert_eq!(*pc, 0x1000);
            assert_eq!(*signal_trap, Some(TrapCode::HeapAccessOutOfBounds));
        }
        _ => panic!("expected a wasm trap"),
    }
    assert_eq!(trap.pc(), Some(0x1000));
    let code = trap.trap_code().expect("a signal-attributed code");
    assert_eq!(code.message(), "out of bounds memory access");
    assert_eq!(code.to_string(), "heap_get_oob");
}

#[test]
fn wasm_trap_may_carry_no_signal_code() {
    let bt = backtrace::Backtrace::new_unresolved();
    let trap = Trap::wasm(0x2a, bt, None);
    assert_eq!(trap.pc(), Some(0x2a));
    assert_eq!(trap.trap_code(), None);
}

#[test]
fn lib_trap_exposes_code_and_populated_backtrace() {
    let trap = Trap::lib(TrapCode::IntegerDivisionByZero);
    assert_eq!(trap.trap_code(), Some(TrapCode::IntegerDivisionByZero));
    let code = trap.trap_code().unwrap();
    assert_eq!(code.to_string(), "int_divz");
    let frames = trap.backtrace_frame_count().expect("a lib trap carries a backtrace");
    assert!(frames > 0, "the backtrace must be captured eagerly, even if unresolved");
}

#[test]
fn oom_trap_has_backtrace_and_no_code() {
    let trap = Trap::oom();
    assert_eq!(trap.trap_code(), None);
    assert_eq!(trap.pc(), None);
    let frames = trap.backtrace_frame_count().expect("an OOM trap carries a backtrace");
    assert!(frames > 0);
}

#[test]
fn user_trap_stores_the_error_opaquely() {
    let trap = Trap::user(UserError { description: String::from("embedder says no") });
    match &trap {
        Trap::User(e) => assert_eq!(e.description, "embedder says no"),
        _ => panic!("expected a user trap"),
    }
    assert_eq!(trap.trap_code(), None);
    assert_eq!(trap.backtrace_frame_count(), None);
}
