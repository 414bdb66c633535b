use vstd::prelude::*;
use crate::trap::{BridgeError, TrapCode};
use crate::value::{
    args_match, check_args, marshal_args, raw_args, type_of, unmarshal_results, values_of, Value,
    ValueType,
};

verus! {

/// The parameter and result types of an exported function, in order.
#[derive(Debug)]
pub struct Signature {
    pub params: Vec<ValueType>,
    pub results: Vec<ValueType>,
}

impl Signature {
    pub fn new(params: Vec<ValueType>, results: Vec<ValueType>) -> (r: Signature)
        ensures
            r.params@ == params@,
            r.results@ == results@,
    {
        Signature { params, results }
    }
}

/// A native outcome with its slots as a sequence.
pub open spec fn native_view(out: Result<Vec<u64>, TrapCode>) -> Result<Seq<u64>, TrapCode> {
    match out {
        Ok(raws) => Ok(raws@),
        Err(c) => Err(c),
    }
}

/// A call's result with its values as a sequence.
pub open spec fn call_view(r: Result<Vec<Value>, BridgeError>) -> Result<Seq<Value>, BridgeError> {
    match r {
        Ok(vals) => Ok(vals@),
        Err(e) => Err(e),
    }
}

/// What the host receives once native code has finished with outcome `out`
/// for a function whose result types are `results`: the values read from the
/// result slots, the trap that was raised, or a mismatch if native code gave
/// back another number of slots than the signature has results.
pub open spec fn completion(results: Seq<ValueType>, out: Result<Seq<u64>, TrapCode>) -> Result<
    Seq<Value>,
    BridgeError,
> {
    match out {
        Err(c) => Err(BridgeError::Trapped(c)),
        Ok(raws) => if raws.len() == results.len() {
            Ok(values_of(results, raws))
        } else {
            Err(BridgeError::ArityOrTypeMismatch)
        },
    }
}

/// Turns the outcome of a native call into the host's result.
pub fn complete(results: &Vec<ValueType>, out: Result<Vec<u64>, TrapCode>) -> (r: Result<
    Vec<Value>,
    BridgeError,
>)
    ensures
        call_view(r) == completion(results@, native_view(out)),
{
    match out {
        Err(c) => Err(BridgeError::Trapped(c)),
        Ok(raws) => {
            if raws.len() == results.len() {
                Ok(unmarshal_results(results, &raws))
            } else {
                Err(BridgeError::ArityOrTypeMismatch)
            }
        },
    }
}

/// Calls an exported function on host values.
///
/// `entry` runs the native code inside a protected scope: it takes the
/// argument slots and gives back the result slots, or the trap that ended
/// the call. Arguments that do not fit the signature are refused and
/// `entry` is not called: its precondition is needed only for arguments that
/// fit, and then only on their slots.
pub fn invoke<F>(sig: &Signature, entry: F, args: &Vec<Value>) -> (r: Result<
    Vec<Value>,
    BridgeError,
>) where F: FnOnce(Vec<u64>) -> Result<Vec<u64>, TrapCode>
    requires
        args_match(sig.params@, args@) ==> forall|raws: Vec<u64>|
            raws@ == raw_args(args@) ==> #[trigger] entry.requires((raws,)),
    ensures
        !args_match(sig.params@, args@) ==> r == Err::<Vec<Value>, BridgeError>(
            BridgeError::ArityOrTypeMismatch,
        ),
        args_match(sig.params@, args@) ==> exists|raws: Vec<u64>, out: Result<Vec<u64>, TrapCode>|
            {
                &&& raws@ == raw_args(args@)
                &&& #[trigger] entry.ensures((raws,), out)
                &&& call_view(r) == completion(sig.results@, native_view(out))
            },
{
    if !check_args(&sig.params, args) {
        return Err(BridgeError::ArityOrTypeMismatch);
    }
    let raws = marshal_args(args);
    let ghost sent = raws;
    let out = entry(raws);
    let r = complete(&sig.results, out);
    assert(entry.ensures((sent,), out));
    r
}

/// A call with no parameters and no results, on no arguments, whose native
/// code returns normally, succeeds with no values.
pub proof fn lemma_empty_call()
    ensures
        args_match(Seq::<ValueType>::empty(), Seq::<Value>::empty()),
        raw_args(Seq::<Value>::empty()) == Seq::<u64>::empty(),
        completion(Seq::<ValueType>::empty(), Ok(Seq::<u64>::empty())) == Ok::<
            Seq<Value>,
            BridgeError,
        >(Seq::<Value>::empty()),
{
    assert(raw_args(Seq::<Value>::empty()) =~= Seq::<u64>::empty());
    assert(values_of(Seq::<ValueType>::empty(), Seq::<u64>::empty()) =~= Seq::<Value>::empty());
}

/// Arguments of the wrong number, or with one of the wrong type, do not fit
/// the signature, so a call on them is refused before native code runs.
pub proof fn lemma_mismatch_refused(params: Seq<ValueType>, args: Seq<Value>)
    requires
        params.len() != args.len() || exists|i: int|
            0 <= i < args.len() && type_of(#[trigger] args[i]) != params[i],
    ensures
        !args_match(params, args),
{
}

/// A native call that hands back, as results of the same types, the slots it
/// was given returns the arguments themselves.
pub proof fn lemma_echo_call(sig_params: Seq<ValueType>, args: Seq<Value>)
    requires
        args_match(sig_params, args),
    ensures
        completion(sig_params, Ok(raw_args(args))) == Ok::<Seq<Value>, BridgeError>(args),
{
    crate::value::lemma_round_trip_all(sig_params, args);
}

} // verus!
