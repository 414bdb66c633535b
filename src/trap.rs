use vstd::prelude::*;

verus! {

/// A failure category that compiled module code can raise.
///
/// `NoTrap` is a sentinel meaning "no trap pending"; it is never raised.
#[derive(Clone, Copy, Debug, PartialEq, Eq, Structural)]
pub enum TrapCode {
    NoTrap,
    OutOfBounds,
    IntOverflow,
    DivByZero,
    InvalidConversion,
    Unreachable,
    CallIndirect,
    Exhaustion,
}

/// The human-readable description of a trap code.
pub open spec fn description(trap: TrapCode) -> Seq<char> {
    match trap {
        TrapCode::NoTrap => "No error"@,
        TrapCode::OutOfBounds => "Memory out of bounds"@,
        TrapCode::IntOverflow => "Integer overflow"@,
        TrapCode::DivByZero => "Division by zero"@,
        TrapCode::InvalidConversion => "Invalid conversion"@,
        TrapCode::Unreachable => "Unreachable code"@,
        TrapCode::CallIndirect => "Invalid indirect calling"@,
        TrapCode::Exhaustion => "Memory exhaustion"@,
    }
}

/// Returns the description of `trap`.
pub fn describe(trap: TrapCode) -> (r: &'static str)
    ensures
        r@ == description(trap),
{
    match trap {
        TrapCode::NoTrap => "No error",
        TrapCode::OutOfBounds => "Memory out of bounds",
        TrapCode::IntOverflow => "Integer overflow",
        TrapCode::DivByZero => "Division by zero",
        TrapCode::InvalidConversion => "Invalid conversion",
        TrapCode::Unreachable => "Unreachable code",
        TrapCode::CallIndirect => "Invalid indirect calling",
        TrapCode::Exhaustion => "Memory exhaustion",
    }
}

/// Returns the description of `trap` followed by a NUL character, ready to be
/// handed to native code as a C string. Strip the last character to get the
/// plain text.
pub fn strerror(trap: TrapCode) -> (r: &'static str)
    ensures
        r@ == description(trap).push('\0'),
{
    let err = match trap {
        TrapCode::NoTrap => "No error\0",
        TrapCode::OutOfBounds => "Memory out of bounds\0",
        TrapCode::IntOverflow => "Integer overflow\0",
        TrapCode::DivByZero => "Division by zero\0",
        TrapCode::InvalidConversion => "Invalid conversion\0",
        TrapCode::Unreachable => "Unreachable code\0",
        TrapCode::CallIndirect => "Invalid indirect calling\0",
        TrapCode::Exhaustion => "Memory exhaustion\0",
    };
    proof {
        reveal_strlit("No error");
        reveal_strlit("No error\0");
        reveal_strlit("Memory out of bounds");
        reveal_strlit("Memory out of bounds\0");
        reveal_strlit("Integer overflow");
        reveal_strlit("Integer overflow\0");
        reveal_strlit("Division by zero");
        reveal_strlit("Division by zero\0");
        reveal_strlit("Invalid conversion");
        reveal_strlit("Invalid conversion\0");
        reveal_strlit("Unreachable code");
        reveal_strlit("Unreachable code\0");
        reveal_strlit("Invalid indirect calling");
        reveal_strlit("Invalid indirect calling\0");
        reveal_strlit("Memory exhaustion");
        reveal_strlit("Memory exhaustion\0");
        assert(err@ =~= description(trap).push('\0'));
    }
    err
}

/// How a call into the library's support layer can fail.
#[derive(Clone, Copy, Debug, PartialEq, Eq, Structural)]
pub enum BridgeError {
    /// Module code raised this trap during the call.
    Trapped(TrapCode),
    /// The arguments or results do not fit the function signature; found
    /// before native code runs (or, for results, after it returned).
    ArityOrTypeMismatch,
    /// A memory or table could not be set up as requested.
    AllocationFailure,
    /// The "no trap" sentinel was raised as if it were a trap.
    SentinelRaised,
}

/// How a protected scope ended.
#[derive(Debug)]
pub enum ScopeExit<R> {
    /// The body returned this value.
    Returned(R),
    /// The body exited abruptly because this trap was raised.
    Trapped(TrapCode),
    /// The body exited abruptly for another reason; the unwind goes on.
    Propagate,
}

/// The slot after `trap` is raised on a thread whose slot was `slot`:
/// raising the sentinel leaves it as it was.
pub open spec fn raised(slot: Option<TrapCode>, trap: TrapCode) -> Option<TrapCode> {
    if trap == TrapCode::NoTrap {
        slot
    } else {
        Some(trap)
    }
}

/// How a protected scope ends, given the pending slot when control left the
/// body and the body's value if it returned normally.
pub open spec fn scope_exit<R>(slot: Option<TrapCode>, body: Option<R>) -> ScopeExit<R> {
    match body {
        Some(v) => ScopeExit::Returned(v),
        None => match slot {
            Some(c) => ScopeExit::Trapped(c),
            None => ScopeExit::Propagate,
        },
    }
}

/// The pending trap of one thread: at most one trap code between the moment
/// module code raises it and the moment the innermost protected scope takes
/// it.
pub struct PendingTrap {
    slot: Option<TrapCode>,
}

impl View for PendingTrap {
    type V = Option<TrapCode>;

    closed spec fn view(&self) -> Option<TrapCode> {
        self.slot
    }
}

impl PendingTrap {
    /// An empty slot.
    pub fn new() -> (r: PendingTrap)
        ensures
            r@ == Option::<TrapCode>::None,
    {
        PendingTrap { slot: None }
    }

    /// The trap now pending, if any.
    pub fn pending(&self) -> (r: Option<TrapCode>)
        ensures
            r == self@,
    {
        self.slot
    }

    /// Records `trap` as pending, just before module code starts its abrupt
    /// exit. The sentinel is refused and leaves the slot as it was.
    pub fn raise(&mut self, trap: TrapCode) -> (r: Result<(), BridgeError>)
        ensures
            final(self)@ == raised(old(self)@, trap),
            r == (if trap == TrapCode::NoTrap {
                Err::<(), BridgeError>(BridgeError::SentinelRaised)
            } else {
                Ok::<(), BridgeError>(())
            }),
    {
        if trap == TrapCode::NoTrap {
            Err(BridgeError::SentinelRaised)
        } else {
            self.slot = Some(trap);
            Ok(())
        }
    }

    /// Closes a protected scope: `body` is the body's value if it returned
    /// normally and `None` if it exited abruptly. A trap that is pending when
    /// the body exits abruptly is the scope's result. The slot is empty
    /// afterwards in every case, so no later scope sees a stale trap.
    pub fn close_scope<R>(&mut self, body: Option<R>) -> (r: ScopeExit<R>)
        ensures
            r == scope_exit(old(self)@, body),
            final(self)@ == Option::<TrapCode>::None,
    {
        let slot = self.slot;
        self.slot = None;
        match body {
            Some(v) => ScopeExit::Returned(v),
            None => match slot {
                Some(c) => ScopeExit::Trapped(c),
                None => ScopeExit::Propagate,
            },
        }
    }
}

/// Every trap code, the sentinel included, has a non-empty description, and
/// no two codes share one.
pub proof fn lemma_descriptions_distinct(a: TrapCode, b: TrapCode)
    ensures
        description(a).len() > 0,
        a != b ==> description(a) != description(b),
{
    reveal_strlit("No error");
    reveal_strlit("Memory out of bounds");
    reveal_strlit("Integer overflow");
    reveal_strlit("Division by zero");
    reveal_strlit("Invalid conversion");
    reveal_strlit("Unreachable code");
    reveal_strlit("Invalid indirect calling");
    reveal_strlit("Memory exhaustion");
    if a != b {
        assert(description(a)[0] != description(b)[0] || description(a).len()
            != description(b).len() || description(a)[1] != description(b)[1]
            || description(a)[8] != description(b)[8]);
    }
}

/// A protected scope whose body raises a trap other than the sentinel ends
/// with exactly that trap, whatever was pending before. The slot is then
/// empty, so a later scope whose body returns gets its value, and a later
/// scope left by some other abrupt exit sees no stale trap.
pub proof fn lemma_raise_is_intercepted<R>(slot: Option<TrapCode>, trap: TrapCode, later: R)
    requires
        trap != TrapCode::NoTrap,
    ensures
        scope_exit::<R>(raised(slot, trap), None) == ScopeExit::<R>::Trapped(trap),
        scope_exit(Option::<TrapCode>::None, Some(later)) == ScopeExit::Returned(later),
        scope_exit::<R>(Option::<TrapCode>::None, None) == ScopeExit::<R>::Propagate,
{
}

/// Scopes nest: when an inner scope has caught `inner`, leaving the slot
/// empty, a trap `outer` raised afterwards in the enclosing body is what the
/// enclosing scope catches.
pub proof fn lemma_nested_scopes<R, S>(slot: Option<TrapCode>, inner: TrapCode, outer: TrapCode)
    requires
        inner != TrapCode::NoTrap,
        outer != TrapCode::NoTrap,
    ensures
        scope_exit::<R>(raised(slot, inner), None) == ScopeExit::<R>::Trapped(inner),
        scope_exit::<S>(raised(Option::<TrapCode>::None, outer), None)
            == ScopeExit::<S>::Trapped(outer),
{
}

/// wasmtime's `Trap` (defined in wasmtime-environ), declared so that its
/// variants can be named here. Verus reads the enum's own definition: a list
/// of variants without fields.
#[verifier::external_type_specification]
pub struct ExHostTrap(wasmtime::Trap);

/// The host trap that stands for `trap`; the sentinel has none.
pub open spec fn host_trap_of(trap: TrapCode) -> Option<wasmtime::Trap> {
    match trap {
        TrapCode::NoTrap => Option::None,
        TrapCode::OutOfBounds => Option::Some(wasmtime::Trap::MemoryOutOfBounds),
        TrapCode::IntOverflow => Option::Some(wasmtime::Trap::IntegerOverflow),
        TrapCode::DivByZero => Option::Some(wasmtime::Trap::IntegerDivisionByZero),
        TrapCode::InvalidConversion => Option::Some(wasmtime::Trap::BadConversionToInteger),
        TrapCode::Unreachable => Option::Some(wasmtime::Trap::UnreachableCodeReached),
        TrapCode::CallIndirect => Option::Some(wasmtime::Trap::BadSignature),
        TrapCode::Exhaustion => Option::Some(wasmtime::Trap::StackOverflow),
    }
}

/// Converts a trap code into the host's trap kind.
pub fn host_trap(trap: TrapCode) -> (r: Option<wasmtime::Trap>)
    ensures
        r == host_trap_of(trap),
{
    match trap {
        TrapCode::NoTrap => None,
        TrapCode::OutOfBounds => Some(wasmtime::Trap::MemoryOutOfBounds),
        TrapCode::IntOverflow => Some(wasmtime::Trap::IntegerOverflow),
        TrapCode::DivByZero => Some(wasmtime::Trap::IntegerDivisionByZero),
        TrapCode::InvalidConversion => Some(wasmtime::Trap::BadConversionToInteger),
        TrapCode::Unreachable => Some(wasmtime::Trap::UnreachableCodeReached),
        TrapCode::CallIndirect => Some(wasmtime::Trap::BadSignature),
        TrapCode::Exhaustion => Some(wasmtime::Trap::StackOverflow),
    }
}

} // verus!
