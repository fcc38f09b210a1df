//! The adapter the host invokes to run one business function: it reads and
//! decodes the two inbound buffers, runs the business function once, encodes
//! its result and hands the host a pointer to it. Any failure on the way is
//! reported once on the console log, and the instance is to be terminated.
use vstd::prelude::*;
use vstd::string::*;
use vstd::utf8::{encode_utf8, valid_utf8};

use crate::io::{host_log, line_bytes, Context};
use crate::memory::{leak_to_shared_memory, leak_spec, read_spec, encode, FatPointer, SharedMemory};

verus! {

/// Relies on std::str::from_utf8: it succeeds exactly on valid UTF-8, and the
/// text it returns is made of those very bytes.
#[verifier::external_body]
fn text_of(bytes: &[u8]) -> (r: Option<&str>)
    ensures
        r is Some <==> valid_utf8(bytes@),
        r matches Some(t) ==> t.spec_bytes() == bytes@,
{
    std::str::from_utf8(bytes).ok()
}

/// The step at which a call of the adapter was given up.
#[derive(Debug, Clone, Copy, PartialEq, Eq, Structural)]
pub enum AbortStage {
    /// The input pointer reaches past the end of the shared memory.
    InputPointer,
    /// The secret pointer reaches past the end of the shared memory.
    SecretPointer,
    /// The input bytes are not UTF-8.
    InputText,
    /// The secret bytes are not UTF-8.
    SecretText,
    /// The secret deserializer refused the secret text.
    SecretDecoding,
    /// The input deserializer refused the input text.
    InputDecoding,
    /// The output serializer refused the business function's result.
    OutputEncoding,
    /// The serialized output does not fit in the shared memory.
    OutputSpace,
}

/// How a call of the adapter ended.
pub enum EntryOutcome {
    /// The call finished: the pointer describes the serialized output.
    Returned(FatPointer),
    /// The call was given up at `stage`. `report`, when there was room for it,
    /// describes the message already written for the console log: hand it to
    /// the console-log sink, then terminate the instance.
    Aborted { stage: AbortStage, report: Option<FatPointer> },
}

/// The fixed part of the console message for each stage.
pub open spec fn stage_message(stage: AbortStage) -> Seq<char> {
    match stage {
        AbortStage::InputPointer => "input pointer is out of bounds"@,
        AbortStage::SecretPointer => "secret pointer is out of bounds"@,
        AbortStage::InputText => "input is not valid UTF-8"@,
        AbortStage::SecretText => "secrets are not valid UTF-8"@,
        AbortStage::SecretDecoding => "Failed to deserialize secrets: "@,
        AbortStage::InputDecoding => "Failed to deserialize input: "@,
        AbortStage::OutputEncoding => "Failed to serialize output: "@,
        AbortStage::OutputSpace => "no room in shared memory for the output"@,
    }
}

fn message_of(stage: AbortStage) -> (r: &'static str)
    ensures
        r@ == stage_message(stage),
{
    match stage {
        AbortStage::InputPointer => "input pointer is out of bounds",
        AbortStage::SecretPointer => "secret pointer is out of bounds",
        AbortStage::InputText => "input is not valid UTF-8",
        AbortStage::SecretText => "secrets are not valid UTF-8",
        AbortStage::SecretDecoding => "Failed to deserialize secrets: ",
        AbortStage::InputDecoding => "Failed to deserialize input: ",
        AbortStage::OutputEncoding => "Failed to serialize output: ",
        AbortStage::OutputSpace => "no room in shared memory for the output",
    }
}

/// The stage at which the adapter stops before any deserializer runs, if it does.
pub open spec fn boundary_failure(mem: Seq<u8>, input_ptr: FatPointer, secret_ptr: FatPointer) -> Option<AbortStage> {
    if input_ptr.offset_spec() + input_ptr.size_spec() > mem.len() {
        Some(AbortStage::InputPointer)
    } else if secret_ptr.offset_spec() + secret_ptr.size_spec() > mem.len() {
        Some(AbortStage::SecretPointer)
    } else if !valid_utf8(read_spec(mem, input_ptr)) {
        Some(AbortStage::InputText)
    } else if !valid_utf8(read_spec(mem, secret_ptr)) {
        Some(AbortStage::SecretText)
    } else {
        None
    }
}

/// What the memory holds after the adapter gave up at `stage`: the console
/// message when `report` is given, nothing new otherwise.
pub open spec fn reported(old_mem: Seq<u8>, new_mem: Seq<u8>, stage: AbortStage, detail: Seq<char>, report: Option<FatPointer>) -> bool {
    match report {
        Some(p) => (new_mem, p) == leak_spec(old_mem, line_bytes(stage_message(stage) + detail)),
        None => new_mem == old_mem && !(old_mem.len() <= u32::MAX && line_bytes(stage_message(stage) + detail).len() <= u32::MAX),
    }
}

/// Why a call of the adapter was given up: the step, and what the failing
/// codec said, if one failed.
pub struct Abort {
    pub stage: AbortStage,
    pub detail: String,
}

/// Writes the console message for an abort. Gives the pointer to hand to the
/// console-log sink, or `None` when the message does not fit in the memory.
pub fn report_abort(mem: &mut SharedMemory, abort: &Abort) -> (r: Option<FatPointer>)
    ensures
        reported(old(mem)@, final(mem)@, abort.stage, abort.detail@, r),
{
    let mut text = String::from_str(message_of(abort.stage));
    text.append(abort.detail.as_str());
    let n = text.as_str().as_bytes().len();
    if n < usize::MAX && mem.has_room(n + 1) {
        Some(host_log(mem, text.as_str()))
    } else {
        None
    }
}

fn abort_at(stage: AbortStage, detail: &str) -> (r: Abort)
    ensures
        r.stage == stage,
        r.detail@ == detail@,
{
    Abort { stage, detail: String::from_str(detail) }
}

/// Reads the input and secret buffers, decodes them as UTF-8 and deserializes
/// the secrets, then the input, into the context for the business function.
pub fn decode_context<I, S, DI, DS>(
    mem: &SharedMemory,
    input_ptr: FatPointer,
    secret_ptr: FatPointer,
    input_deserializer: DI,
    secret_deserializer: DS,
) -> (r: Result<Context<I, S>, Abort>) where
    DI: Fn(&str) -> Result<I, String>,
    DS: Fn(&str) -> Result<S, String>,

    requires
        forall|t: &str| input_deserializer.requires((t,)),
        forall|t: &str| secret_deserializer.requires((t,)),
    ensures
        // The checks before any codec runs decide alone.
        boundary_failure(mem@, input_ptr, secret_ptr) matches Some(stage) ==> (
            r matches Err(a) && a.stage == stage && a.detail@ == Seq::<char>::empty()),
        boundary_failure(mem@, input_ptr, secret_ptr) is None ==> ({
            let input_bytes = read_spec(mem@, input_ptr);
            let secret_bytes = read_spec(mem@, secret_ptr);
            match r {
                Ok(ctx) => exists|ti: &str, ts: &str|
                    ti.spec_bytes() == input_bytes && ts.spec_bytes() == secret_bytes
                    && secret_deserializer.ensures((ts,), Ok::<S, String>(ctx.secrets))
                    && input_deserializer.ensures((ti,), Ok::<I, String>(ctx.input)),
                Err(a) => {
                    ||| a.stage == AbortStage::SecretDecoding && exists|ts: &str|
                        ts.spec_bytes() == secret_bytes
                        && secret_deserializer.ensures((ts,), Err::<S, String>(a.detail))
                    ||| a.stage == AbortStage::InputDecoding && exists|ti: &str, ts: &str, sec: S|
                        ti.spec_bytes() == input_bytes && ts.spec_bytes() == secret_bytes
                        && secret_deserializer.ensures((ts,), Ok::<S, String>(sec))
                        && input_deserializer.ensures((ti,), Err::<I, String>(a.detail))
                },
            }
        }),
{
    proof {
        reveal_strlit("");
    }
    if !mem.holds(input_ptr) {
        return Err(abort_at(AbortStage::InputPointer, ""));
    }
    if !mem.holds(secret_ptr) {
        return Err(abort_at(AbortStage::SecretPointer, ""));
    }
    let input_data = input_ptr.copy_data(mem);
    let secret_data = secret_ptr.copy_data(mem);
    let input_text = match text_of(input_data.as_slice()) {
        Some(t) => t,
        None => {
            return Err(abort_at(AbortStage::InputText, ""));
        },
    };
    let secret_text = match text_of(secret_data.as_slice()) {
        Some(t) => t,
        None => {
            return Err(abort_at(AbortStage::SecretText, ""));
        },
    };
    let secrets = match secret_deserializer(secret_text) {
        Ok(v) => v,
        Err(e) => {
            return Err(Abort { stage: AbortStage::SecretDecoding, detail: e });
        },
    };
    let input = match input_deserializer(input_text) {
        Ok(v) => v,
        Err(e) => {
            return Err(Abort { stage: AbortStage::InputDecoding, detail: e });
        },
    };
    Ok(Context { input, secrets })
}

/// Serializes the business function's result and leaks it for the host.
/// On failure the memory is left as it was.
pub fn encode_output<O, SO>(mem: &mut SharedMemory, output: &O, output_serializer: SO) -> (r: Result<FatPointer, Abort>) where
    SO: Fn(&O) -> Result<String, String>,

    requires
        output_serializer.requires((output,)),
    ensures
        match r {
            Ok(p) => exists|out: String|
                output_serializer.ensures((output,), Ok::<String, String>(out))
                && (final(mem)@, p) == leak_spec(old(mem)@, encode_utf8(out@)),
            Err(a) => final(mem)@ == old(mem)@ && {
                ||| a.stage == AbortStage::OutputEncoding
                    && output_serializer.ensures((output,), Err::<String, String>(a.detail))
                ||| a.stage == AbortStage::OutputSpace && a.detail@ == Seq::<char>::empty()
                    && exists|out: String|
                    output_serializer.ensures((output,), Ok::<String, String>(out))
                    && !old(mem).has_room_spec(encode_utf8(out@).len())
            },
        },
{
    proof {
        reveal_strlit("");
    }
    let encoded = match output_serializer(output) {
        Ok(v) => v,
        Err(e) => {
            return Err(Abort { stage: AbortStage::OutputEncoding, detail: e });
        },
    };
    let bytes = encoded.as_str().as_bytes();
    if !mem.has_room(bytes.len()) {
        return Err(abort_at(AbortStage::OutputSpace, ""));
    }
    Ok(leak_to_shared_memory(mem, bytes))
}

/// Runs one business function for the host.
///
/// Reads the input and secret buffers, decodes each as UTF-8, deserializes
/// the secrets and then the input with the given codecs, calls `business`
/// once on the resulting context, serializes its result with
/// `output_serializer` and leaks it. Each failure ends the call with an
/// `Aborted` outcome, after writing one message for the console log; the
/// business function runs only once both deserializers have succeeded.
pub fn run_entrypoint<I, S, O, DI, DS, SO, B>(
    mem: &mut SharedMemory,
    input_ptr: FatPointer,
    secret_ptr: FatPointer,
    input_deserializer: DI,
    secret_deserializer: DS,
    output_serializer: SO,
    business: B,
) -> (r: EntryOutcome) where
    DI: Fn(&str) -> Result<I, String>,
    DS: Fn(&str) -> Result<S, String>,
    SO: Fn(&O) -> Result<String, String>,
    B: FnOnce(Context<I, S>) -> O,

    requires
        forall|t: &str| input_deserializer.requires((t,)),
        forall|t: &str| secret_deserializer.requires((t,)),
        forall|o: &O| output_serializer.requires((o,)),
        forall|c: Context<I, S>| business.requires((c,)),
    ensures
        // The checks before any codec runs decide alone.
        boundary_failure(old(mem)@, input_ptr, secret_ptr) matches Some(stage) ==> (
            r matches EntryOutcome::Aborted { stage: s, report } && s == stage
                && reported(old(mem)@, final(mem)@, stage, Seq::empty(), report)),
        boundary_failure(old(mem)@, input_ptr, secret_ptr) is None ==> ({
            let input_bytes = read_spec(old(mem)@, input_ptr);
            let secret_bytes = read_spec(old(mem)@, secret_ptr);
            match r {
                EntryOutcome::Returned(p) => exists|ti: &str, ts: &str, i: I, sec: S, o: O, out: String|
                    ti.spec_bytes() == input_bytes && ts.spec_bytes() == secret_bytes
                    && secret_deserializer.ensures((ts,), Ok::<S, String>(sec))
                    && input_deserializer.ensures((ti,), Ok::<I, String>(i))
                    && business.ensures((Context { input: i, secrets: sec },), o)
                    && output_serializer.ensures((&o,), Ok::<String, String>(out))
                    && (final(mem)@, p) == leak_spec(old(mem)@, encode_utf8(out@)),
                EntryOutcome::Aborted { stage, report } => match stage {
                    AbortStage::SecretDecoding => exists|ts: &str, e: String|
                        ts.spec_bytes() == secret_bytes
                        && secret_deserializer.ensures((ts,), Err::<S, String>(e))
                        && reported(old(mem)@, final(mem)@, stage, e@, report),
                    AbortStage::InputDecoding => exists|ti: &str, ts: &str, sec: S, e: String|
                        ti.spec_bytes() == input_bytes && ts.spec_bytes() == secret_bytes
                        && secret_deserializer.ensures((ts,), Ok::<S, String>(sec))
                        && input_deserializer.ensures((ti,), Err::<I, String>(e))
                        && reported(old(mem)@, final(mem)@, stage, e@, report),
                    AbortStage::OutputEncoding => exists|ti: &str, ts: &str, i: I, sec: S, o: O, e: String|
                        ti.spec_bytes() == input_bytes && ts.spec_bytes() == secret_bytes
                        && secret_deserializer.ensures((ts,), Ok::<S, String>(sec))
                        && input_deserializer.ensures((ti,), Ok::<I, String>(i))
                        && business.ensures((Context { input: i, secrets: sec },), o)
                        && output_serializer.ensures((&o,), Err::<String, String>(e))
                        && reported(old(mem)@, final(mem)@, stage, e@, report),
                    AbortStage::OutputSpace => exists|ti: &str, ts: &str, i: I, sec: S, o: O, out: String|
                        ti.spec_bytes() == input_bytes && ts.spec_bytes() == secret_bytes
                        && secret_deserializer.ensures((ts,), Ok::<S, String>(sec))
                        && input_deserializer.ensures((ti,), Ok::<I, String>(i))
                        && business.ensures((Context { input: i, secrets: sec },), o)
                        && output_serializer.ensures((&o,), Ok::<String, String>(out))
                        && !old(mem).has_room_spec(encode_utf8(out@).len())
                        && reported(old(mem)@, final(mem)@, stage, Seq::empty(), report),
                    _ => false,
                },
            }
        }),
{
    let ctx = match decode_context(mem, input_ptr, secret_ptr, input_deserializer, secret_deserializer) {
        Ok(c) => c,
        Err(a) => {
            let report = report_abort(mem, &a);
            return EntryOutcome::Aborted { stage: a.stage, report };
        },
    };
    let ghost gi = ctx.input;
    let ghost gs = ctx.secrets;
    let output = business(ctx);
    assert(business.ensures((Context { input: gi, secrets: gs },), output));
    match encode_output(mem, &output, output_serializer) {
        Ok(p) => EntryOutcome::Returned(p),
        Err(a) => {
            let report = report_abort(mem, &a);
            EntryOutcome::Aborted { stage: a.stage, report }
        },
    }
}

} // verus!
