use vstd::prelude::*;

verus! {

/// The native shape of one value crossing the boundary.
#[derive(Clone, Copy, Debug, PartialEq, Eq, Structural)]
pub enum ValueType {
    I32,
    I64,
    F32,
    F64,
}

/// A host value of one of the four native shapes. Floats are carried as
/// their IEEE 754 bit patterns, so that every value, NaN payloads included,
/// crosses the boundary unchanged and compares by its bits.
#[derive(Clone, Copy, Debug, PartialEq, Eq, Structural)]
pub enum Value {
    I32(i32),
    I64(i64),
    F32(u32),
    F64(u64),
}

pub open spec fn type_of(v: Value) -> ValueType {
    match v {
        Value::I32(_) => ValueType::I32,
        Value::I64(_) => ValueType::I64,
        Value::F32(_) => ValueType::F32,
        Value::F64(_) => ValueType::F64,
    }
}

/// The native slot that carries `v`: the value's bits, zero-extended to 64.
pub open spec fn raw_of(v: Value) -> u64 {
    match v {
        Value::I32(x) => (x as u32) as u64,
        Value::I64(x) => x as u64,
        Value::F32(b) => b as u64,
        Value::F64(b) => b,
    }
}

/// The value of type `ty` read from a native slot: the low bits of the
/// slot's width for `ty`.
pub open spec fn value_of(ty: ValueType, raw: u64) -> Value {
    match ty {
        ValueType::I32 => Value::I32((raw as u32) as i32),
        ValueType::I64 => Value::I64(raw as i64),
        ValueType::F32 => Value::F32(raw as u32),
        ValueType::F64 => Value::F64(raw),
    }
}

/// Whether `args` fit `params`: as many values as parameters, each of the
/// parameter's type.
pub open spec fn args_match(params: Seq<ValueType>, args: Seq<Value>) -> bool {
    &&& params.len() == args.len()
    &&& forall|i: int| 0 <= i < args.len() ==> type_of(#[trigger] args[i]) == params[i]
}

/// The native slots that carry `args`, in order.
pub open spec fn raw_args(args: Seq<Value>) -> Seq<u64> {
    args.map_values(|v: Value| raw_of(v))
}

/// The values read from `raws` with the types `tys`, slot by slot.
pub open spec fn values_of(tys: Seq<ValueType>, raws: Seq<u64>) -> Seq<Value> {
    Seq::new(tys.len(), |i: int| value_of(tys[i], raws[i]))
}

impl Value {
    /// The type of this value.
    pub fn value_type(&self) -> (r: ValueType)
        ensures
            r == type_of(*self),
    {
        match self {
            Value::I32(_) => ValueType::I32,
            Value::I64(_) => ValueType::I64,
            Value::F32(_) => ValueType::F32,
            Value::F64(_) => ValueType::F64,
        }
    }

    /// Marshals this value into a native slot.
    pub fn to_raw(&self) -> (r: u64)
        ensures
            r == raw_of(*self),
    {
        match self {
            Value::I32(x) => (*x as u32) as u64,
            Value::I64(x) => *x as u64,
            Value::F32(b) => *b as u64,
            Value::F64(b) => *b,
        }
    }

    /// Reads a value of type `ty` back from a native slot.
    pub fn from_raw(ty: ValueType, raw: u64) -> (r: Value)
        ensures
            r == value_of(ty, raw),
    {
        match ty {
            ValueType::I32 => Value::I32((raw as u32) as i32),
            ValueType::I64 => Value::I64(raw as i64),
            ValueType::F32 => Value::F32(raw as u32),
            ValueType::F64 => Value::F64(raw),
        }
    }
}

/// Marshaling a value out to its native slot and reading it back with its own
/// type gives the value again, bit for bit.
pub proof fn lemma_round_trip(v: Value)
    ensures
        value_of(type_of(v), raw_of(v)) == v,
{
    match v {
        Value::I32(x) => {
            assert((((x as u32) as u64) as u32) as i32 == x) by (bit_vector);
        },
        Value::I64(x) => {
            assert(((x as u64) as i64) == x) by (bit_vector);
        },
        Value::F32(b) => {
            assert(((b as u64) as u32) == b) by (bit_vector);
        },
        Value::F64(_) => {},
    }
}

/// Arguments that fit a list of types come back unchanged when their slots are
/// read with those types.
pub proof fn lemma_round_trip_all(tys: Seq<ValueType>, args: Seq<Value>)
    requires
        args_match(tys, args),
    ensures
        values_of(tys, raw_args(args)) == args,
{
    assert forall|i: int| 0 <= i < args.len() implies values_of(tys, raw_args(args))[i]
        == args[i] by {
        lemma_round_trip(args[i]);
    }
    assert(values_of(tys, raw_args(args)) =~= args);
}

/// Whether `args` fit `params`.
pub fn check_args(params: &Vec<ValueType>, args: &Vec<Value>) -> (r: bool)
    ensures
        r == args_match(params@, args@),
{
    if params.len() != args.len() {
        return false;
    }
    let mut i: usize = 0;
    while i < args.len()
        invariant
            params@.len() == args@.len(),
            i <= args@.len(),
            forall|j: int| 0 <= j < i ==> type_of(#[trigger] args@[j]) == params@[j],
        decreases args.len() - i,
    {
        if args[i].value_type() != params[i] {
            return false;
        }
        i = i + 1;
    }
    true
}

/// The native slots for `args`, in order.
pub fn marshal_args(args: &Vec<Value>) -> (r: Vec<u64>)
    ensures
        r@ == raw_args(args@),
{
    let mut out: Vec<u64> = Vec::new();
    let mut i: usize = 0;
    while i < args.len()
        invariant
            i <= args@.len(),
            out@ == raw_args(args@.subrange(0, i as int)),
        decreases args.len() - i,
    {
        let raw = args[i].to_raw();
        proof {
            assert(args@.subrange(0, i + 1) =~= args@.subrange(0, i as int).push(args@[i as int]));
        }
        out.push(raw);
        i = i + 1;
    }
    assert(args@.subrange(0, args@.len() as int) =~= args@);
    out
}

/// The values read from `raws` with the types `tys`.
pub fn unmarshal_results(tys: &Vec<ValueType>, raws: &Vec<u64>) -> (r: Vec<Value>)
    requires
        tys@.len() == raws@.len(),
    ensures
        r@ == values_of(tys@, raws@),
{
    let mut out: Vec<Value> = Vec::new();
    let mut i: usize = 0;
    while i < raws.len()
        invariant
            tys@.len() == raws@.len(),
            i <= raws@.len(),
            out@ == values_of(tys@.subrange(0, i as int), raws@.subrange(0, i as int)),
        decreases raws.len() - i,
    {
        let v = Value::from_raw(tys[i], raws[i]);
        out.push(v);
        i = i + 1;
        proof {
            assert(out@ =~= values_of(tys@.subrange(0, i as int), raws@.subrange(0, i as int)));
        }
    }
    assert(out@ =~= values_of(tys@, raws@));
    out
}

} // verus!
