use wasm2c_bridge::{describe, host_trap, strerror, BridgeError, PendingTrap, ScopeExit, TrapCode};

const ALL: [TrapCode; 8] = [
    TrapCode::NoTrap,
    TrapCode::OutOfBounds,
    TrapCode::IntOverflow,
    TrapCode::DivByZero,
    TrapCode::InvalidConversion,
    TrapCode::Unreachable,
    TrapCode::CallIndirect,
    TrapCode::Exhaustion,
];

#[test]
fn descriptions_are_non_empty_and_distinct() {
    for (i, a) in ALL.iter().enumerate() {
        assert!(!describe(*a).is_empty());
        for b in ALL.iter().skip(i + 1) {
            assert_ne!(describe(*a), describe(*b));
        }
    }
}

#[test]
fn description_texts() {
    assert_eq!(describe(TrapCode::NoTrap), "No error");
    assert_eq!(describe(TrapCode::OutOfBounds), "Memory out of bounds");
    assert_eq!(describe(TrapCode::DivByZero), "Division by zero");
    assert_eq!(describe(TrapCode::CallIndirect), "Invalid indirect calling");
    assert_eq!(describe(TrapCode::Exhaustion), "Memory exhaustion");
}

#[test]
fn strerror_is_nul_terminated() {
    for c in ALL {
        let s = strerror(c);
        assert!(s.ends_with('\0'));
        assert_eq!(&s[..s.len() - 1], describe(c));
    }
    assert_eq!(strerror(TrapCode::IntOverflow), "Integer overflow\0");
}

#[test]
fn host_trap_kinds() {
    assert_eq!(host_trap(TrapCode::NoTrap), None);
    assert_eq!(host_trap(TrapCode::OutOfBounds), Some(wasmtime::Trap::MemoryOutOfBounds));
    assert_eq!(host_trap(TrapCode::IntOverflow), Some(wasmtime::Trap::IntegerOverflow));
    assert_eq!(host_trap(TrapCode::DivByZero), Some(wasmtime::Trap::IntegerDivisionByZero));
    assert_eq!(
        host_trap(TrapCode::InvalidConversion),
        Some(wasmtime::Trap::BadConversionToInteger)
    );
    assert_eq!(host_trap(TrapCode::Unreachable), Some(wasmtime::Trap::UnreachableCodeReached));
    assert_eq!(host_trap(TrapCode::CallIndirect), Some(wasmtime::Trap::BadSignature));
    assert_eq!(host_trap(TrapCode::Exhaustion), Some(wasmtime::Trap::StackOverflow));
}

#[test]
fn raised_trap_is_intercepted_and_cleared() {
    for c in ALL.iter().skip(1) {
        let mut p = PendingTrap::new();
        assert_eq!(p.raise(*c), Ok(()));
        assert_eq!(p.pending(), Some(*c));
        assert!(matches!(p.close_scope::<u32>(None), ScopeExit::Trapped(t) if t == *c));
        assert_eq!(p.pending(), None);
        // a later call that returns normally sees no stale trap
        assert!(matches!(p.close_scope(Some(7u32)), ScopeExit::Returned(7)));
        // nor does a later unwind that is not a trap
        assert!(matches!(p.close_scope::<u32>(None), ScopeExit::Propagate));
    }
}

#[test]
fn raising_the_sentinel_is_refused() {
    let mut p = PendingTrap::new();
    assert_eq!(p.raise(TrapCode::NoTrap), Err(BridgeError::SentinelRaised));
    assert_eq!(p.pending(), None);
    p.raise(TrapCode::Unreachable).unwrap();
    assert_eq!(p.raise(TrapCode::NoTrap), Err(BridgeError::SentinelRaised));
    assert_eq!(p.pending(), Some(TrapCode::Unreachable));
}

#[test]
fn normal_return_clears_a_stale_trap() {
    let mut p = PendingTrap::new();
    p.raise(TrapCode::IntOverflow).unwrap();
    assert!(matches!(p.close_scope(Some("done")), ScopeExit::Returned("done")));
    assert_eq!(p.pending(), None);
}

#[test]
fn nested_scopes_catch_their_own_traps() {
    let mut p = PendingTrap::new();
    // outer scope opens, its body opens the inner scope
    p.raise(TrapCode::OutOfBounds).unwrap();
    let inner = p.close_scope::<()>(None);
    assert!(matches!(inner, ScopeExit::Trapped(TrapCode::OutOfBounds)));
    // back in the outer body
    p.raise(TrapCode::DivByZero).unwrap();
    let outer = p.close_scope::<()>(None);
    assert!(matches!(outer, ScopeExit::Trapped(TrapCode::DivByZero)));
    assert_eq!(p.pending(), None);
}
