//! The boundary functions: input validation, delegation decisions, and
//! result marshaling.
//!
//! Every operation a foreign caller can reach degrades to a sentinel value
//! instead of letting a native failure cross the boundary: a null handle or
//! argument yields the null sentinel (or `false`) before anything is
//! touched, a construction failure yields the null handle, and an
//! invocation failure comes back as diagnostic text on the ordinary result
//! channel. The host process performs the runtime calls themselves and
//! reports each outcome back to the library, which accounts for every value
//! the host can report.

use vstd::prelude::*;
use vstd::string::StringExecFns;
use vstd::utf8::{decode_utf8, encode_utf8, valid_utf8};

use crate::context::{Assembly, ConstructionError, Context};
use crate::text::{
    buffer_matches, c_buffer_spec, decode_foreign_text, encode_result_text, encode_text,
    lossy_decoded, owned_buffer_spec, strip_trailing_nuls_spec,
};

verus! {

/// The sentinel a failed call returns in place of a handle.
pub const NULL_HANDLE: usize = 0;

/// Hands out the opaque handles that name runtime instances across the
/// boundary. A handle is never the null sentinel and is never reused; the
/// host keeps the instance each handle names.
pub struct HandleRegistry {
    /// How many handles have been handed out so far.
    pub issued: usize,
}

impl HandleRegistry {
    /// Whether `h` is a handle this registry has handed out.
    pub open spec fn valid_handle(self, h: usize) -> bool {
        1 <= h <= self.issued
    }

    /// A registry that has handed out no handle yet.
    pub fn new() -> (r: HandleRegistry)
        ensures
            r.issued == 0,
    {
        HandleRegistry { issued: 0 }
    }

    /// Hands out a fresh handle: never null, never one seen before.
    pub fn issue(&mut self) -> (h: usize)
        requires
            old(self).issued < usize::MAX,
        ensures
            h != NULL_HANDLE,
            h == old(self).issued + 1,
            final(self).issued == old(self).issued + 1,
            final(self).valid_handle(h),
            forall|g: usize|
                old(self).valid_handle(g) ==> final(self).valid_handle(g) && g != h,
    {
        self.issued = self.issued + 1;
        self.issued
    }
}

/// What the boundary does once context assembly has finished: hand the
/// context to runtime construction, or abort the call to the null sentinel.
pub enum ConstructStep {
    /// Construct the runtime instance around this context.
    Construct { context: Context },
    /// Assembly failed; the call returns the null sentinel.
    Abort,
}

/// Opens a create call: the storage path is decoded leniently and context
/// assembly begins on it. The descriptor is not touched until the host has
/// passed it through `descriptor_gate`.
pub fn begin_create(path: &Vec<u8>) -> (a: Assembly)
    ensures
        a matches Assembly::NeedCas { base } && base@ == lossy_decoded(path@),
{
    Assembly::begin(decode_foreign_text(path))
}

/// Whether a create call may take ownership of its descriptor: only a
/// non-null descriptor is accepted, whatever else the call carries.
pub open spec fn create_accepted(descriptor_present: bool) -> bool {
    descriptor_present
}

/// The precondition check of a create call, asked before the descriptor is
/// touched. The caller owes a non-null descriptor; on a refusal the host
/// must fail loudly on the spot rather than go on.
pub fn descriptor_gate(descriptor_present: bool) -> (accept: bool)
    ensures
        accept == create_accepted(descriptor_present),
{
    descriptor_present
}

/// Opens a load call: the decoded storage path, which the runtime is loaded
/// from, and the context assembly begun on it.
pub fn begin_load(path: &Vec<u8>) -> (r: (String, Assembly))
    ensures
        r.0@ == lossy_decoded(path@),
        r.1 matches Assembly::NeedCas { base } && base@ == lossy_decoded(path@),
{
    let base = decode_foreign_text(path);
    let assembly = Assembly::begin(base.clone());
    (base, assembly)
}

/// Decides whether runtime construction may proceed: only a fully assembled
/// context reaches it, and the error detail of a failed assembly is
/// discarded here, at the boundary itself.
pub fn construct_decision(assembled: Result<Context, ConstructionError>) -> (r: ConstructStep)
    ensures
        assembled matches Result::Ok(c) ==> (r matches ConstructStep::Construct { context }
            && context == c),
        assembled is Err ==> r is Abort,
{
    match assembled {
        Result::Ok(context) => ConstructStep::Construct { context },
        Result::Err(_) => ConstructStep::Abort,
    }
}

/// The handle a create or load call returns: a newly allocated handle when
/// the host constructed the runtime instance — the next one the registry
/// hands out, never one seen before — or the null sentinel on any failure,
/// with the registry untouched in that case.
pub fn handle_for_outcome(reg: &mut HandleRegistry, constructed: bool) -> (h: usize)
    requires
        constructed ==> old(reg).issued < usize::MAX,
    ensures
        constructed ==> h != NULL_HANDLE && h == old(reg).issued + 1 && final(reg).issued
            == old(reg).issued + 1 && final(reg).valid_handle(h),
        constructed ==> forall|g: usize|
            old(reg).valid_handle(g) ==> final(reg).valid_handle(g) && g != h,
        !constructed ==> h == NULL_HANDLE && *final(reg) == *old(reg),
{
    if constructed {
        reg.issue()
    } else {
        NULL_HANDLE
    }
}

/// Whether a start or stop call may be delegated to the runtime: only on a
/// non-null handle.
pub open spec fn lifecycle_proceeds(h: usize) -> bool {
    h != NULL_HANDLE
}

/// Gates a start or stop call: on the null sentinel nothing is delegated
/// and nothing is touched.
pub fn lifecycle_gate(h: usize) -> (proceed: bool)
    ensures
        proceed == lifecycle_proceeds(h),
{
    h != NULL_HANDLE
}

/// The boolean a start or stop call returns: `true` exactly when the call
/// was delegated and the runtime reported success. No error detail crosses.
pub open spec fn lifecycle_reply_spec(delegated: Option<bool>) -> bool {
    delegated == Option::Some(true)
}

/// Maps the delegation outcome of a start or stop call to its boundary
/// result: `None` stands for a call that was never delegated.
pub fn finish_lifecycle(delegated: Option<bool>) -> (r: bool)
    ensures
        r == lifecycle_reply_spec(delegated),
{
    match delegated {
        Option::Some(ok) => ok,
        Option::None => false,
    }
}

/// The four decoded arguments handed to the runtime's invocation operation.
pub struct InvokeRequest {
    /// The executable unit addressed.
    pub zome: String,
    /// The capability within it.
    pub capability: String,
    /// The function within the capability.
    pub function: String,
    /// The call's parameter text.
    pub params: String,
}

/// Whether the boundary accepts an invoke call: the handle and all four
/// text arguments must be non-null.
pub open spec fn invoke_accepted(
    h: usize,
    zome_present: bool,
    capability_present: bool,
    function_present: bool,
    params_present: bool,
) -> bool {
    &&& h != NULL_HANDLE
    &&& zome_present
    &&& capability_present
    &&& function_present
    &&& params_present
}

/// Validates an invoke call and decodes its arguments. A null handle or a
/// null argument yields no request: nothing is decoded, nothing is
/// delegated, and the call degrades to the null sentinel.
pub fn prepare_invoke(
    h: usize,
    zome: Option<&Vec<u8>>,
    capability: Option<&Vec<u8>>,
    function: Option<&Vec<u8>>,
    params: Option<&Vec<u8>>,
) -> (r: Option<InvokeRequest>)
    ensures
        r is Some <==> invoke_accepted(
            h,
            zome is Some,
            capability is Some,
            function is Some,
            params is Some,
        ),
        r matches Option::Some(q) ==> ({
            &&& q.zome@ == lossy_decoded(zome.unwrap()@)
            &&& q.capability@ == lossy_decoded(capability.unwrap()@)
            &&& q.function@ == lossy_decoded(function.unwrap()@)
            &&& q.params@ == lossy_decoded(params.unwrap()@)
        }),
{
    if h == NULL_HANDLE {
        return Option::None;
    }
    match (zome, capability, function, params) {
        (Option::Some(z), Option::Some(c), Option::Some(f), Option::Some(p)) => Option::Some(
            InvokeRequest {
                zome: decode_foreign_text(z),
                capability: decode_foreign_text(c),
                function: decode_foreign_text(f),
                params: decode_foreign_text(p),
            },
        ),
        _ => Option::None,
    }
}

/// The diagnostic text returned when an invocation fails, wrapping the
/// runtime error's debug text. It travels on the ordinary result channel:
/// a failure is distinguishable from a success only by its content.
pub open spec fn diagnostic_spec(detail: Seq<char>) -> Seq<char> {
    "Error calling zome function: "@ + detail
}

/// Formats the failure diagnostic for the given error detail.
pub fn format_diagnostic(detail: &String) -> (r: String)
    ensures
        r@ == diagnostic_spec(detail@),
{
    let mut r = "Error calling zome function: ".to_owned();
    r.append(detail.as_str());
    r
}

/// The buffer an invoke call returns for a delegation outcome: on success
/// the result text, stripped of trailing zero padding and terminated; on
/// failure the diagnostic text, terminated the same way. Either way, text
/// that cannot be terminated degrades to the null sentinel.
pub open spec fn invoke_reply_spec(outcome: Result<Seq<char>, Seq<char>>) -> Option<Seq<u8>> {
    match outcome {
        Result::Ok(t) => owned_buffer_spec(t),
        Result::Err(d) => c_buffer_spec(encode_utf8(diagnostic_spec(d))),
    }
}

/// Marshals the runtime's invocation outcome back across the boundary.
/// `Err` carries the debug text of the runtime's error.
pub fn finish_invoke(outcome: Result<String, String>) -> (r: Option<Vec<u8>>)
    ensures
        outcome matches Result::Ok(t) ==> buffer_matches(r, invoke_reply_spec(Result::Ok(t@))),
        outcome matches Result::Err(d) ==> buffer_matches(
            r,
            invoke_reply_spec(Result::Err(d@)),
        ),
{
    match outcome {
        Result::Ok(t) => encode_result_text(&t),
        Result::Err(d) => {
            let msg = format_diagnostic(&d);
            encode_text(&msg)
        },
    }
}

/// A null handle is refused before anything is touched: no start or stop
/// call on it proceeds to the runtime, and an undelegated call returns
/// `false`.
pub proof fn lemma_null_handle_refused()
    ensures
        !lifecycle_proceeds(NULL_HANDLE),
        lifecycle_reply_spec(Option::None) == false,
{
}

/// A create call with the null descriptor fails its precondition check
/// deterministically, whatever the rest of the call holds: it is refused
/// before the descriptor is touched, and no handle path is open to it.
pub proof fn lemma_null_descriptor_refused()
    ensures
        !create_accepted(false),
        create_accepted(true),
{
}

/// An invoke call with the null sentinel in any of its five positions is
/// not accepted: no request is built and nothing is delegated.
pub proof fn lemma_invoke_null_rejected(
    h: usize,
    zome_present: bool,
    capability_present: bool,
    function_present: bool,
    params_present: bool,
)
    requires
        h == NULL_HANDLE || !zome_present || !capability_present || !function_present
            || !params_present,
    ensures
        !invoke_accepted(h, zome_present, capability_present, function_present, params_present),
{
}

/// Round trip: parameter text that is valid UTF-8 without zero bytes,
/// decoded at the boundary and echoed unchanged by the invoked capability,
/// comes back byte for byte, with exactly one terminator appended.
pub proof fn lemma_invoke_round_trip(params: Seq<u8>)
    requires
        valid_utf8(params),
        !params.contains(0u8),
    ensures
        invoke_reply_spec(Result::Ok(decode_utf8(params))) == Option::Some(params.push(0u8)),
{
    vstd::utf8::decode_utf8_encode_utf8(params);
    assert(encode_utf8(decode_utf8(params)) == params);
    if params.len() > 0 {
        assert(params[params.len() - 1] != 0u8);
    }
    assert(strip_trailing_nuls_spec(params) == params);
}

/// The boundary adds no nondeterminism to invoke: equal delegation outcomes
/// produce equal reply buffers, so two calls whose underlying capability is
/// pure return textually equal results.
pub proof fn lemma_invoke_repeatable(
    o1: Result<Seq<char>, Seq<char>>,
    o2: Result<Seq<char>, Seq<char>>,
)
    requires
        o1 == o2,
    ensures
        invoke_reply_spec(o1) == invoke_reply_spec(o2),
{
}

} // verus!
