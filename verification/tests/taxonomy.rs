use trap_core::TrapCode;

fn all_codes() -> [TrapCode; 12] {
    [
        TrapCode::StackOverflow,
        TrapCode::HeapAccessOutOfBounds,
        TrapCode::HeapMisaligned,
        TrapCode::TableAccessOutOfBounds,
        TrapCode::OutOfBounds,
        TrapCode::IndirectCallToNull,
        TrapCode::BadSignature,
        TrapCode::IntegerOverflow,
        TrapCode::IntegerDivisionByZero,
        TrapCode::BadConversionToInteger,
        TrapCode::UnreachableCodeReached,
        TrapCode::UnalignedAtomic,
    ]
}

#[test]
fn display() {
    for r in &all_codes() {
        let tc = *r;
        assert_eq!(tc.to_string().parse(), Ok(tc));
    }
    assert_eq!("bogus".parse::<TrapCode>(), Err(()));

    assert_eq!("user".parse::<TrapCode>(), Err(()));
    assert_eq!("user-1".parse::<TrapCode>(), Err(()));
    assert_eq!("users".parse::<TrapCode>(), Err(()));
}

#[test]
fn exact_tags() {
    assert_eq!(TrapCode::StackOverflow.to_string(), "stk_ovf");
    assert_eq!(TrapCode::HeapAccessOutOfBounds.to_string(), "heap_get_oob");
    assert_eq!(TrapCode::HeapMisaligned.to_string(), "heap_misaligned");
    assert_eq!(TrapCode::TableAccessOutOfBounds.to_string(), "table_get_oob");
    assert_eq!(TrapCode::OutOfBounds.to_string(), "oob");
    assert_eq!(TrapCode::IndirectCallToNull.to_string(), "icall_null");
    assert_eq!(TrapCode::BadSignature.to_string(), "bad_sig");
    assert_eq!(TrapCode::IntegerOverflow.to_string(), "int_ovf");
    assert_eq!(TrapCode::IntegerDivisionByZero.to_string(), "int_divz");
    assert_eq!(TrapCode::BadConversionToInteger.to_string(), "bad_toint");
    assert_eq!(TrapCode::UnreachableCodeReached.to_string(), "unreachable");
    assert_eq!(TrapCode::UnalignedAtomic.to_string(), "unalign_atom");
}

#[test]
fn exact_messages() {
    assert_eq!(TrapCode::StackOverflow.message(), "call stack exhausted");
    assert_eq!(TrapCode::HeapAccessOutOfBounds.message(), "out of bounds memory access");
    assert_eq!(TrapCode::HeapMisaligned.message(), "misaligned heap");
    assert_eq!(
        TrapCode::TableAccessOutOfBounds.message(),
        "undefined element: out of bounds table access"
    );
    assert_eq!(TrapCode::OutOfBounds.message(), "out of bounds");
    assert_eq!(TrapCode::IndirectCallToNull.message(), "uninitialized element");
    assert_eq!(TrapCode::BadSignature.message(), "indirect call type mismatch");
    assert_eq!(TrapCode::IntegerOverflow.message(), "integer overflow");
    assert_eq!(TrapCode::IntegerDivisionByZero.message(), "integer divide by zero");
    assert_eq!(TrapCode::BadConversionToInteger.message(), "invalid conversion to integer");
    assert_eq!(TrapCode::UnreachableCodeReached.message(), "unreachable");
    assert_eq!(TrapCode::UnalignedAtomic.message(), "unaligned atomic access");
}

#[test]
fn messages_and_tags_nonempty_and_unique() {
    let codes = all_codes();
    for a in &codes {
        assert!(!a.message().is_empty());
        assert!(!a.to_string().is_empty());
        for b in &codes {
            if a != b {
                assert_ne!(a.message(), b.message());
                assert_ne!(a.to_string(), b.to_string());
            }
        }
    }
}

#[test]
fn parse_is_exact() {
    assert_eq!(TrapCode::from_tag("int_divz"), Ok(TrapCode::IntegerDivisionByZero));
    assert_eq!(TrapCode::from_tag("stk_ovf"), Ok(TrapCode::StackOverflow));
    // No case folding, no prefix matching, no surrounding noise.
    assert_eq!(TrapCode::from_tag("STK_OVF"), Err(()));
    assert_eq!(TrapCode::from_tag("stk_ov"), Err(()));
    assert_eq!(TrapCode::from_tag("stk_ovf "), Err(()));
    assert_eq!(TrapCode::from_tag(""), Err(()));
}

#[test]
fn discriminants_are_stable() {
    let codes = all_codes();
    for (i, c) in codes.iter().enumerate() {
        assert_eq!(c.discriminant(), i as u32);
        assert_eq!(TrapCode::from_discriminant(i as u32), Some(*c));
    }
    assert_eq!(TrapCode::from_discriminant(12), None);
    assert_eq!(TrapCode::from_discriminant(u32::MAX), None);
}
