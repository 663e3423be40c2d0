//! The dynamic-linked call.
//!
//! A call crosses the boundary as a set of byte buffers (function name,
//! checksum, call stack, environment, argument list) plus the read-only flag
//! and the caller-provided output slots.  `call_callable_point` decodes the
//! envelope and opens a [`CallFlow`]: a step machine that owns every decision
//! of the call sequence — context installation, permission, parameter order,
//! result marshaling, event collection and gas reporting — while an unverified
//! driver merely performs each [`EngineCommand`] against the execution engine
//! and hands the outcome back as an [`EngineEvent`].
//!
//! The machine's contract fixes the sequence phase by phase — resolution,
//! context installation, permission, parameter regions (environment as
//! parameter zero, then the arguments in order), invocation, event
//! collection, gas reading — together with the call-wide guarantees: a call
//! that created an instance finishes only from the gas reading, with the
//! observed value; events and attributes are delivered exactly for
//! successful mutating calls, as the serialization of the collected records.

use vstd::prelude::*;
use vstd::string::StringExecFns;
use crate::checksum::Checksum;
use crate::checksum::CHECKSUM_LENGTH;
use crate::envelope::dec_binary_list;
use crate::envelope::dec_string;
use crate::envelope::dec_string_list;
use crate::envelope::decode_binary_list;
use crate::envelope::decode_string_list;
use crate::errors::LinkError;
use crate::errors::is_empty_slot;
use crate::errors::is_serialization;
use crate::errors::is_unset;
use crate::events::AttributeRecord;
use crate::events::EventRecord;
use crate::events::attrs_fit;
use crate::events::enc_attributes;
use crate::events::enc_events;
use crate::events::encode_attributes;
use crate::events::encode_events;
use crate::events::events_fit;
use crate::memory::copy_bytes;

verus! {

/// Upper bound on the combined byte length of all regions returned by one
/// invocation: 64 MiB.
pub const MAX_REGIONS_LENGTH_OUTPUT: usize = 64 * 1024 * 1024;

/// A fully decoded request for one dynamic-linked call.
#[derive(Debug)]
pub struct CallRequest {
    /// Name of the callable point to invoke.
    pub name: String,
    /// Checksum of the callee module.
    pub checksum: Checksum,
    /// Opaque binary arguments, in call order.
    pub args: Vec<Vec<u8>>,
    /// Caller addresses, outermost first; the direct caller is last.
    pub callstack: Vec<String>,
    /// The caller's serialized execution environment, kept opaque.
    pub env: Vec<u8>,
    /// Whether the callee must be denied state mutation.
    pub is_readonly: bool,
    /// Gas limit the callee instance is created with.
    pub gas_limit: u64,
    /// Whether the callee instance may print debug output.
    pub print_debug: bool,
}

/// View of an optional input buffer.
pub open spec fn opt_bytes(o: Option<&Vec<u8>>) -> Option<Seq<u8>> {
    match o {
        Some(b) => Some(b@),
        None => None,
    }
}

/// The name buffer is present and decodes.
pub open spec fn name_ok(name: Option<Seq<u8>>) -> bool {
    name matches Some(b) && dec_string(b) is Some
}

/// The argument buffer is present and decodes.
pub open spec fn args_ok(args: Option<Seq<u8>>) -> bool {
    args matches Some(b) && dec_binary_list(b) is Some
}

/// The checksum buffer is present and has the exact hash length.
pub open spec fn checksum_ok(checksum: Option<Seq<u8>>) -> bool {
    checksum matches Some(b) && b.len() == CHECKSUM_LENGTH
}

/// The call-stack buffer is present and decodes.
pub open spec fn callstack_ok(callstack: Option<Seq<u8>>) -> bool {
    callstack matches Some(b) && dec_string_list(b) is Some
}

/// Decodes the envelope of a `call_callable_point` request.  The fields are
/// examined in a fixed order — name, arguments, the mandatory `gas_used`
/// output slot, checksum, call stack, environment — and the first violation
/// is reported; the `gas_used` check therefore fails before any instance
/// exists.
pub fn decode_call_request(
    name: Option<&Vec<u8>>,
    checksum: Option<&Vec<u8>>,
    callstack: Option<&Vec<u8>>,
    env: Option<&Vec<u8>>,
    args: Option<&Vec<u8>>,
    is_readonly: bool,
    gas_limit: u64,
    print_debug: bool,
    has_gas_used: bool,
) -> (r: Result<CallRequest, LinkError>)
    ensures
        name is None ==> is_unset(r, "name"@),
        name matches Some(b) && dec_string(b@) is None ==> is_serialization(r, "name"@),
        name_ok(opt_bytes(name)) ==> {
            &&& args is None ==> is_unset(r, "args"@)
            &&& (args matches Some(b) && dec_binary_list(b@) is None ==> is_serialization(
                r,
                "args"@,
            ))
        },
        name_ok(opt_bytes(name)) && args_ok(opt_bytes(args)) ==> {
            &&& !has_gas_used ==> is_empty_slot(r, "gas_used"@)
            &&& has_gas_used ==> {
                &&& checksum is None ==> is_unset(r, "checksum"@)
                &&& (checksum matches Some(b) && b@.len() != CHECKSUM_LENGTH ==> (r matches Err(e)
                    && e is InvalidChecksum))
            }
        },
        name_ok(opt_bytes(name)) && args_ok(opt_bytes(args)) && has_gas_used && checksum_ok(
            opt_bytes(checksum),
        ) ==> {
            &&& callstack is None ==> is_unset(r, "callstack"@)
            &&& (callstack matches Some(b) && dec_string_list(b@) is None ==> is_serialization(
                r,
                "callstack"@,
            ))
        },
        name_ok(opt_bytes(name)) && args_ok(opt_bytes(args)) && has_gas_used && checksum_ok(
            opt_bytes(checksum),
        ) && callstack_ok(opt_bytes(callstack)) ==> {
            &&& env is None ==> is_unset(r, "env"@)
            &&& (env matches Some(eb) ==> (r matches Ok(req) && {
                &&& Some(req.name@) == dec_string(name.unwrap()@)
                &&& Some(req.args.deep_view()) == dec_binary_list(args.unwrap()@)
                &&& Some(req.callstack.deep_view()) == dec_string_list(callstack.unwrap()@)
                &&& req.checksum@ == checksum.unwrap()@
                &&& req.env@ == eb@
                &&& req.is_readonly == is_readonly
                &&& req.gas_limit == gas_limit
                &&& req.print_debug == print_debug
            }))
        },
{
    let name_buf = match name {
        Some(b) => b,
        None => {
            return Err(LinkError::UnsetArgument { field: String::from_str("name") });
        },
    };
    let name_bytes = match crate::envelope::decode_binary(name_buf) {
        Some(v) => v,
        None => {
            return Err(
                LinkError::SerializationError {
                    field: String::from_str("name"),
                    cause: String::from_str("malformed envelope"),
                },
            );
        },
    };
    let name_str = match crate::envelope::string_from_utf8(&name_bytes) {
        Some(s) => s,
        None => {
            return Err(
                LinkError::SerializationError {
                    field: String::from_str("name"),
                    cause: String::from_str("the bytes are not valid UTF-8"),
                },
            );
        },
    };
    let args_buf = match args {
        Some(b) => b,
        None => {
            return Err(LinkError::UnsetArgument { field: String::from_str("args") });
        },
    };
    let args_list = match decode_binary_list(args_buf) {
        Some(v) => v,
        None => {
            return Err(
                LinkError::SerializationError {
                    field: String::from_str("args"),
                    cause: String::from_str("malformed envelope"),
                },
            );
        },
    };
    if !has_gas_used {
        return Err(LinkError::EmptyArgument { field: String::from_str("gas_used") });
    }
    let checksum_buf = match checksum {
        Some(b) => b,
        None => {
            return Err(LinkError::UnsetArgument { field: String::from_str("checksum") });
        },
    };
    let checksum_val = match Checksum::from_bytes(checksum_buf) {
        Ok(c) => c,
        Err(e) => {
            return Err(e);
        },
    };
    let callstack_buf = match callstack {
        Some(b) => b,
        None => {
            return Err(LinkError::UnsetArgument { field: String::from_str("callstack") });
        },
    };
    if decode_binary_list(callstack_buf).is_none() {
        return Err(
            LinkError::SerializationError {
                field: String::from_str("callstack"),
                cause: String::from_str("malformed envelope"),
            },
        );
    }
    let callstack_list = match decode_string_list(callstack_buf) {
        Some(v) => v,
        None => {
            return Err(
                LinkError::SerializationError {
                    field: String::from_str("callstack"),
                    cause: String::from_str("an address is not valid UTF-8"),
                },
            );
        },
    };
    let env_buf = match env {
        Some(b) => b,
        None => {
            return Err(LinkError::UnsetArgument { field: String::from_str("env") });
        },
    };
    Ok(
        CallRequest {
            name: name_str,
            checksum: checksum_val,
            args: args_list,
            callstack: callstack_list,
            env: copy_bytes(env_buf),
            is_readonly,
            gas_limit,
            print_debug,
        },
    )
}

/// Combined byte length of a sequence of regions.
pub open spec fn total_len(rs: Seq<Seq<u8>>) -> int
    decreases rs.len(),
{
    if rs.len() == 0 {
        0
    } else {
        rs[0].len() + total_len(rs.drop_first())
    }
}

/// The combined length is never negative.
pub proof fn lemma_total_len_nonneg(rs: Seq<Seq<u8>>)
    ensures
        total_len(rs) >= 0,
    decreases rs.len(),
{
    if rs.len() > 0 {
        lemma_total_len_nonneg(rs.drop_first());
    }
}

/// The combined length distributes over concatenation.
pub proof fn lemma_total_len_concat(a: Seq<Seq<u8>>, b: Seq<Seq<u8>>)
    ensures
        total_len(a + b) == total_len(a) + total_len(b),
    decreases a.len(),
{
    if a.len() == 0 {
        assert(a + b =~= b);
    } else {
        assert((a + b).drop_first() =~= a.drop_first() + b);
        lemma_total_len_concat(a.drop_first(), b);
    }
}

/// Taking one more region adds exactly its length.
pub proof fn lemma_total_len_take_succ(rs: Seq<Seq<u8>>, i: int)
    requires
        0 <= i < rs.len(),
    ensures
        total_len(rs.subrange(0, i + 1)) == total_len(rs.subrange(0, i)) + rs[i].len(),
{
    assert(rs.subrange(0, i + 1) =~= rs.subrange(0, i) + seq![rs[i]]);
    lemma_total_len_concat(rs.subrange(0, i), seq![rs[i]]);
    assert(seq![rs[i]].drop_first() =~= Seq::<Seq<u8>>::empty());
    assert(seq![rs[i]][0] == rs[i]);
    assert(total_len(Seq::<Seq<u8>>::empty()) == 0);
    assert(total_len(seq![rs[i]]) == rs[i].len());
}

/// A prefix never exceeds the whole.
pub proof fn lemma_total_len_prefix(rs: Seq<Seq<u8>>, i: int)
    requires
        0 <= i <= rs.len(),
    ensures
        total_len(rs.subrange(0, i)) <= total_len(rs),
{
    assert(rs =~= rs.subrange(0, i) + rs.subrange(i, rs.len() as int));
    lemma_total_len_concat(rs.subrange(0, i), rs.subrange(i, rs.len() as int));
    lemma_total_len_nonneg(rs.subrange(i, rs.len() as int));
}

/// The regions are within the byte budget and respect the single-value ABI.
pub open spec fn marshal_succeeds(rs: Seq<Seq<u8>>) -> bool {
    total_len(rs) <= MAX_REGIONS_LENGTH_OUTPUT && rs.len() <= 1
}

/// `r` is the marshaling of the returned regions `rs`: the 64 MiB budget is
/// enforced first; within budget, zero regions are the void return, one
/// region is the single returned value, and two or more violate the
/// single-value ABI.
pub open spec fn is_marshal_result(rs: Seq<Seq<u8>>, r: Result<Option<Vec<u8>>, LinkError>) -> bool {
    &&& total_len(rs) > MAX_REGIONS_LENGTH_OUTPUT ==> (r matches Err(e) && e matches
        LinkError::DynamicLinkError { cause } && cause@
        == "exceeded the maximum total length of returned regions"@)
    &&& total_len(rs) <= MAX_REGIONS_LENGTH_OUTPUT && rs.len() == 0 ==> (r matches Ok(v)
        && v is None)
    &&& total_len(rs) <= MAX_REGIONS_LENGTH_OUTPUT && rs.len() == 1 ==> (r matches Ok(v)
        && v matches Some(b) && b@ == rs[0])
    &&& total_len(rs) <= MAX_REGIONS_LENGTH_OUTPUT && rs.len() >= 2 ==> (r matches Err(e)
        && e matches LinkError::DynamicLinkError { cause } && cause@
        == "unexpected more than 1 returning values"@)
}

/// Maps the regions a callee returned to the call's value.  The combined
/// byte budget of 64 MiB is enforced first; within budget, zero regions mean
/// a void return, one region is the single returned value, and anything more
/// violates the single-value ABI.
pub fn marshal_results(regions: &Vec<Vec<u8>>) -> (r: Result<Option<Vec<u8>>, LinkError>)
    ensures
        is_marshal_result(regions.deep_view(), r),
{
    let ghost rs = regions.deep_view();
    let mut total: usize = 0;
    let mut i: usize = 0;
    while i < regions.len()
        invariant
            i <= regions@.len(),
            rs == regions.deep_view(),
            rs.len() == regions@.len(),
            total == total_len(rs.subrange(0, i as int)),
            total <= MAX_REGIONS_LENGTH_OUTPUT,
        decreases regions@.len() - i,
    {
        proof {
            assert(rs[i as int] == regions@[i as int]@);
            lemma_total_len_take_succ(rs, i as int);
        }
        let l = regions[i].len();
        if l > MAX_REGIONS_LENGTH_OUTPUT - total {
            proof {
                lemma_total_len_prefix(rs, i + 1);
            }
            return Err(
                LinkError::DynamicLinkError {
                    cause: String::from_str(
                        "exceeded the maximum total length of returned regions",
                    ),
                },
            );
        }
        total = total + l;
        i = i + 1;
    }
    proof {
        assert(rs.subrange(0, rs.len() as int) =~= rs);
    }
    if regions.len() == 0 {
        Ok(None)
    } else if regions.len() == 1 {
        let value = copy_bytes(&regions[0]);
        proof {
            assert(rs[0] == regions@[0]@);
        }
        Ok(Some(value))
    } else {
        Err(
            LinkError::DynamicLinkError {
                cause: String::from_str("unexpected more than 1 returning values"),
            },
        )
    }
}

/// Message of a failed invocation, carrying the function name and the
/// engine-reported cause.
pub open spec fn invoke_error_text(name: Seq<char>, cause: Seq<char>) -> Seq<char> {
    "Error during calling callable point \""@ + name + "\": "@ + cause
}

/// Builds the message of a failed invocation.
pub fn invoke_error_message(name: &String, cause: &String) -> (r: String)
    ensures
        r@ == invoke_error_text(name@, cause@),
{
    let mut r = String::from_str("Error during calling callable point \"");
    r.append(name.as_str());
    r.append("\": ");
    r.append(cause.as_str());
    r
}

/// Copies a string.
pub fn clone_string(s: &String) -> (r: String)
    ensures
        r@ == s@,
{
    s.clone()
}

/// Copies a list of strings.
pub fn copy_strings(v: &Vec<String>) -> (r: Vec<String>)
    ensures
        r.deep_view() == v.deep_view(),
        r@.len() == v@.len(),
{
    let mut r: Vec<String> = Vec::new();
    let mut i: usize = 0;
    while i < v.len()
        invariant
            i <= v@.len(),
            r@.len() == i,
            forall|j: int| 0 <= j < i ==> r.deep_view()[j] == v.deep_view()[j],
        decreases v@.len() - i,
    {
        r.push(clone_string(&v[i]));
        i = i + 1;
    }
    proof {
        assert(r.deep_view() =~~= v.deep_view());
    }
    r
}

/// Builds the parameter values of an invocation: the environment first, then
/// every argument in its original order.
pub fn build_param_values(env: &Vec<u8>, args: &Vec<Vec<u8>>) -> (values: Vec<Vec<u8>>)
    ensures
        values.deep_view() == seq![env@] + args.deep_view(),
        values@.len() == args@.len() + 1,
{
    let mut values: Vec<Vec<u8>> = Vec::new();
    values.push(copy_bytes(env));
    let mut i: usize = 0;
    while i < args.len()
        invariant
            i <= args@.len(),
            values@.len() == i + 1,
            values.deep_view()[0] == env@,
            forall|j: int| 0 <= j < i ==> values.deep_view()[j + 1] == args.deep_view()[j],
        decreases args@.len() - i,
    {
        values.push(copy_bytes(&args[i]));
        i = i + 1;
    }
    proof {
        assert(values.deep_view() =~~= seq![env@] + args.deep_view());
    }
    values
}

/// Where the call sequence stands.
#[derive(Clone, Copy, Debug, PartialEq, Eq, Structural)]
pub enum Phase {
    /// Waiting for the callee instance to be resolved from its checksum.
    Resolving,
    /// Waiting for environment and call stack to be installed.
    Installing,
    /// Waiting for the permission guard to be applied.
    SettingPermission,
    /// Waiting for the parameter regions to be written.
    WritingParams,
    /// Waiting for the named export to return.
    Invoking,
    /// Waiting for the callee's event and attribute records.
    CollectingEvents,
    /// Waiting for the cumulative gas reading.
    ReadingGas,
    /// The call is finished.
    Done,
}

/// One observation the driver hands back after performing a command.
pub enum EngineEvent {
    /// Instance resolution ended; `error` carries the engine's message.
    Resolved { error: Option<String> },
    /// Environment and call-stack installation ended.
    ContextInstalled { error: Option<String> },
    /// Permission installation ended.
    PermissionSet { error: Option<String> },
    /// Writing the parameter regions ended.
    ParamsWritten { error: Option<String> },
    /// The invocation returned the contents of its result regions, or failed.
    Invoked { outcome: Result<Vec<Vec<u8>>, String> },
    /// The callee's side-effect records were extracted.
    EventsCollected { events: Vec<EventRecord>, attributes: Vec<AttributeRecord> },
    /// The instance's cumulative internal gas use was read.
    GasObserved { gas: u64 },
}

/// Everything a finished call hands back to the boundary.
pub struct CallOutput {
    /// The call's value, or the first error encountered.
    pub result: Result<Option<Vec<u8>>, LinkError>,
    /// Cumulative internal gas use; present whenever an instance was created.
    pub gas_used: Option<u64>,
    /// Serialized events; present exactly for successful mutating calls.
    pub events: Option<Vec<u8>>,
    /// Serialized attributes; present exactly for successful mutating calls.
    pub attributes: Option<Vec<u8>>,
}

/// What the driver must do next against the execution engine.
pub enum EngineCommand {
    /// Resolve the callee instance for the request's checksum.
    Resolve,
    /// Install the caller's environment and the call stack on the instance.
    InstallContext { env: Vec<u8>, callstack: Vec<String> },
    /// Install the callee's mutation authority before any guest code runs.
    SetPermission { name: String, is_readonly: bool },
    /// Write these values into callee memory as the parameter regions, in
    /// this order.
    WriteParams { values: Vec<Vec<u8>> },
    /// Invoke the named export with the written parameter regions.
    Invoke { name: String },
    /// Extract the callee's event and attribute records.
    CollectEvents,
    /// Read the instance's cumulative internal gas use.
    ReadGas,
    /// The call is over; surface this output to the caller.
    Finish { output: CallOutput },
}

/// The step machine of one dynamic-linked call.
pub struct CallFlow {
    /// The decoded request this call is serving.
    pub req: CallRequest,
    /// Whether the caller provided an `events` output slot.
    pub has_events: bool,
    /// Whether the caller provided an `attributes` output slot.
    pub has_attributes: bool,
    /// Where the sequence stands.
    pub phase: Phase,
    /// Whether instance resolution has succeeded.
    pub instance_created: bool,
    /// The decided result, once known, awaiting the gas report.
    pub outcome: Option<Result<Option<Vec<u8>>, LinkError>>,
    /// Serialized events of a successful mutating call.
    pub events_payload: Option<Vec<u8>>,
    /// Serialized attributes of a successful mutating call.
    pub attributes_payload: Option<Vec<u8>>,
}

impl CallFlow {
    /// Internal consistency of the machine.
    pub open spec fn wf(&self) -> bool {
        &&& (self.phase != Phase::Resolving && self.phase != Phase::Done
            ==> self.instance_created)
        &&& (self.phase == Phase::Resolving ==> !self.instance_created)
        &&& (self.phase == Phase::CollectingEvents || self.phase == Phase::ReadingGas
            ==> self.outcome is Some)
        &&& (self.req.is_readonly ==> self.events_payload is None && self.attributes_payload
            is None)
        &&& (self.phase == Phase::ReadingGas && !self.req.is_readonly ==> (self.outcome matches
            Some(Ok(_)) ==> self.events_payload is Some && self.attributes_payload is Some))
        &&& (self.phase == Phase::CollectingEvents ==> !self.req.is_readonly
            && self.outcome matches Some(Ok(_)))
    }

    /// The event kind the machine can consume in its current phase.
    pub open spec fn accepts(&self, ev: EngineEvent) -> bool {
        match self.phase {
            Phase::Resolving => ev matches EngineEvent::Resolved { .. },
            Phase::Installing => ev matches EngineEvent::ContextInstalled { .. },
            Phase::SettingPermission => ev matches EngineEvent::PermissionSet { .. },
            Phase::WritingParams => ev matches EngineEvent::ParamsWritten { .. },
            Phase::Invoking => ev matches EngineEvent::Invoked { .. },
            Phase::CollectingEvents => ev matches EngineEvent::EventsCollected { .. },
            Phase::ReadingGas => ev matches EngineEvent::GasObserved { .. },
            Phase::Done => false,
        }
    }

    /// Opens the flow for a decoded request; the first command resolves the
    /// callee instance.
    pub fn start(req: CallRequest, has_events: bool, has_attributes: bool) -> (r: (
        CallFlow,
        EngineCommand,
    ))
        ensures
            r.0.wf(),
            r.0.phase == Phase::Resolving,
            !r.0.instance_created,
            r.0.req == req,
            r.0.has_events == has_events,
            r.0.has_attributes == has_attributes,
            r.0.outcome is None,
            r.0.events_payload is None,
            r.0.attributes_payload is None,
            r.1 == EngineCommand::Resolve,
    {
        let flow = CallFlow {
            req,
            has_events,
            has_attributes,
            phase: Phase::Resolving,
            instance_created: false,
            outcome: None,
            events_payload: None,
            attributes_payload: None,
        };
        (flow, EngineCommand::Resolve)
    }

    /// Consumes one engine observation and decides the next command.
    ///
    /// The contract fixes the whole call sequence.  Phase by phase it states
    /// which command answers which observation, with the data it must carry:
    /// context installation after resolution, the permission guard next, then
    /// the parameter regions (environment first, the arguments in their
    /// original order), the invocation, event collection exactly for in-budget
    /// successful mutating calls with both slots present, and the gas reading
    /// before any finish once an instance exists.  Every failure is pinned to
    /// its error kind and cause, and the finish carries exactly the stored
    /// outcome, the observed gas, and the side-effect payloads of a
    /// successful mutating call.
    pub fn step(&mut self, ev: EngineEvent) -> (cmd: EngineCommand)
        requires
            old(self).wf(),
            old(self).accepts(ev),
        ensures
            final(self).wf(),
            final(self).req == old(self).req,
            final(self).has_events == old(self).has_events,
            final(self).has_attributes == old(self).has_attributes,
            old(self).instance_created ==> final(self).instance_created,
            cmd matches EngineCommand::Finish { output } ==> {
                &&& final(self).phase == Phase::Done
                &&& (output.gas_used is Some <==> old(self).instance_created)
                &&& (old(self).instance_created ==> old(self).phase == Phase::ReadingGas)
                &&& (!old(self).req.is_readonly ==> (output.result matches Ok(_)
                    ==> output.events is Some && output.attributes is Some))
                &&& (old(self).req.is_readonly ==> output.events is None && output.attributes
                    is None)
            },
            old(self).phase == Phase::ReadingGas ==> (ev matches EngineEvent::GasObserved { gas }
                ==> (cmd matches EngineCommand::Finish { output } && output.gas_used == Some(gas)
                && Some(output.result) == old(self).outcome && output.events == old(
                self,
            ).events_payload && output.attributes == old(self).attributes_payload)),
            cmd matches EngineCommand::WriteParams { values } ==> {
                &&& values.deep_view() == seq![old(self).req.env@] + old(self).req.args.deep_view()
                &&& values@.len() == old(self).req.args@.len() + 1
            },
            !(cmd matches EngineCommand::Finish { .. }) ==> final(self).phase != Phase::Done,
            old(self).phase == Phase::Resolving ==> (ev matches EngineEvent::Resolved { error }
                ==> (match error {
                None => {
                    &&& cmd matches EngineCommand::InstallContext { env, callstack } && env@ == old(
                        self,
                    ).req.env@ && callstack.deep_view() == old(self).req.callstack.deep_view()
                    &&& final(self).phase == Phase::Installing
                    &&& final(self).instance_created
                },
                Some(c) => {
                    &&& cmd matches EngineCommand::Finish { output } && output.result matches Err(
                        e,
                    ) && e matches LinkError::DynamicLinkError { cause } && cause@ == c@
                    &&& final(self).phase == Phase::Done
                },
            })),
            old(self).phase == Phase::Installing ==> (ev matches EngineEvent::ContextInstalled {
                error,
            } ==> (match error {
                None => {
                    &&& cmd matches EngineCommand::SetPermission { name, is_readonly } && name@
                        == old(self).req.name@ && is_readonly == old(self).req.is_readonly
                    &&& final(self).phase == Phase::SettingPermission
                },
                Some(c) => {
                    &&& final(self).outcome matches Some(res) && res matches Err(e) && e matches
                        LinkError::DynamicLinkError { cause } && cause@ == c@
                    &&& cmd == EngineCommand::ReadGas
                    &&& final(self).phase == Phase::ReadingGas
                },
            })),
            old(self).phase == Phase::SettingPermission ==> (ev matches EngineEvent::PermissionSet {
                error,
            } ==> (match error {
                None => {
                    &&& cmd matches EngineCommand::WriteParams { .. }
                    &&& final(self).phase == Phase::WritingParams
                },
                Some(c) => {
                    &&& final(self).outcome matches Some(res) && res matches Err(e) && e matches
                        LinkError::PermissionError { cause } && cause@ == c@
                    &&& cmd == EngineCommand::ReadGas
                    &&& final(self).phase == Phase::ReadingGas
                },
            })),
            old(self).phase == Phase::WritingParams ==> (ev matches EngineEvent::ParamsWritten {
                error,
            } ==> (match error {
                None => {
                    &&& cmd matches EngineCommand::Invoke { name } && name@ == old(self).req.name@
                    &&& final(self).phase == Phase::Invoking
                },
                Some(c) => {
                    &&& final(self).outcome matches Some(res) && res matches Err(e) && e matches
                        LinkError::DynamicLinkError { cause } && cause@ == c@
                    &&& cmd == EngineCommand::ReadGas
                    &&& final(self).phase == Phase::ReadingGas
                },
            })),
            old(self).phase == Phase::Invoking ==> (ev matches EngineEvent::Invoked { outcome }
                ==> (match outcome {
                Ok(regions) => ({
                    let rs = regions.deep_view();
                    &&& (marshal_succeeds(rs) && old(self).req.is_readonly) ==> {
                        &&& final(self).outcome matches Some(res) && is_marshal_result(rs, res)
                        &&& cmd == EngineCommand::ReadGas
                        &&& final(self).phase == Phase::ReadingGas
                    }
                    &&& (marshal_succeeds(rs) && !old(self).req.is_readonly && old(
                        self,
                    ).has_events && old(self).has_attributes) ==> {
                        &&& final(self).outcome matches Some(res) && is_marshal_result(rs, res)
                        &&& cmd == EngineCommand::CollectEvents
                        &&& final(self).phase == Phase::CollectingEvents
                    }
                    &&& (marshal_succeeds(rs) && !old(self).req.is_readonly && !old(
                        self,
                    ).has_events) ==> {
                        &&& final(self).outcome matches Some(res) && is_empty_slot(res, "events"@)
                        &&& cmd == EngineCommand::ReadGas
                        &&& final(self).phase == Phase::ReadingGas
                    }
                    &&& (marshal_succeeds(rs) && !old(self).req.is_readonly && old(
                        self,
                    ).has_events && !old(self).has_attributes) ==> {
                        &&& final(self).outcome matches Some(res) && is_empty_slot(
                            res,
                            "attributes"@,
                        )
                        &&& cmd == EngineCommand::ReadGas
                        &&& final(self).phase == Phase::ReadingGas
                    }
                    &&& !marshal_succeeds(rs) ==> {
                        &&& final(self).outcome matches Some(res) && is_marshal_result(rs, res)
                        &&& cmd == EngineCommand::ReadGas
                        &&& final(self).phase == Phase::ReadingGas
                    }
                }),
                Err(c) => {
                    &&& final(self).outcome matches Some(res) && res matches Err(e) && e matches
                        LinkError::DynamicLinkError { cause } && cause@ == invoke_error_text(
                        old(self).req.name@,
                        c@,
                    )
                    &&& cmd == EngineCommand::ReadGas
                    &&& final(self).phase == Phase::ReadingGas
                },
            })),
            old(self).phase == Phase::CollectingEvents ==> (ev matches
                EngineEvent::EventsCollected { events, attributes } ==> ({
                let evs = events.deep_view();
                let ats = attributes.deep_view();
                &&& cmd == EngineCommand::ReadGas
                &&& final(self).phase == Phase::ReadingGas
                &&& (events_fit(evs) && attrs_fit(ats)) ==> {
                    &&& final(self).events_payload matches Some(ep) && ep@ == enc_events(evs)
                    &&& final(self).attributes_payload matches Some(ap) && ap@ == enc_attributes(
                        ats,
                    )
                    &&& final(self).outcome == old(self).outcome
                }
                &&& !events_fit(evs) ==> (final(self).outcome matches Some(res) && res matches Err(
                    e,
                ) && e is InvalidEvents)
                &&& (events_fit(evs) && !attrs_fit(ats)) ==> (final(self).outcome matches Some(
                    res,
                ) && res matches Err(e) && e is InvalidAttributes)
            })),
    {
        match ev {
            EngineEvent::Resolved { error } => match error {
                None => {
                    self.phase = Phase::Installing;
                    self.instance_created = true;
                    EngineCommand::InstallContext {
                        env: copy_bytes(&self.req.env),
                        callstack: copy_strings(&self.req.callstack),
                    }
                },
                Some(cause) => {
                    self.phase = Phase::Done;
                    EngineCommand::Finish {
                        output: CallOutput {
                            result: Err(LinkError::DynamicLinkError { cause }),
                            gas_used: None,
                            events: None,
                            attributes: None,
                        },
                    }
                },
            },
            EngineEvent::ContextInstalled { error } => match error {
                None => {
                    self.phase = Phase::SettingPermission;
                    EngineCommand::SetPermission {
                        name: clone_string(&self.req.name),
                        is_readonly: self.req.is_readonly,
                    }
                },
                Some(cause) => {
                    self.outcome = Some(Err(LinkError::DynamicLinkError { cause }));
                    self.phase = Phase::ReadingGas;
                    EngineCommand::ReadGas
                },
            },
            EngineEvent::PermissionSet { error } => match error {
                None => {
                    self.phase = Phase::WritingParams;
                    let values = build_param_values(&self.req.env, &self.req.args);
                    EngineCommand::WriteParams { values }
                },
                Some(cause) => {
                    self.outcome = Some(Err(LinkError::PermissionError { cause }));
                    self.phase = Phase::ReadingGas;
                    EngineCommand::ReadGas
                },
            },
            EngineEvent::ParamsWritten { error } => match error {
                None => {
                    self.phase = Phase::Invoking;
                    EngineCommand::Invoke { name: clone_string(&self.req.name) }
                },
                Some(cause) => {
                    self.outcome = Some(Err(LinkError::DynamicLinkError { cause }));
                    self.phase = Phase::ReadingGas;
                    EngineCommand::ReadGas
                },
            },
            EngineEvent::Invoked { outcome } => match outcome {
                Ok(regions) => match marshal_results(&regions) {
                    Ok(value) => {
                        if self.req.is_readonly {
                            self.outcome = Some(Ok(value));
                            self.phase = Phase::ReadingGas;
                            EngineCommand::ReadGas
                        } else if !self.has_events {
                            self.outcome = Some(
                                Err(
                                    LinkError::EmptyArgument {
                                        field: String::from_str("events"),
                                    },
                                ),
                            );
                            self.phase = Phase::ReadingGas;
                            EngineCommand::ReadGas
                        } else if !self.has_attributes {
                            self.outcome = Some(
                                Err(
                                    LinkError::EmptyArgument {
                                        field: String::from_str("attributes"),
                                    },
                                ),
                            );
                            self.phase = Phase::ReadingGas;
                            EngineCommand::ReadGas
                        } else {
                            self.outcome = Some(Ok(value));
                            self.phase = Phase::CollectingEvents;
                            EngineCommand::CollectEvents
                        }
                    },
                    Err(e) => {
                        self.outcome = Some(Err(e));
                        self.phase = Phase::ReadingGas;
                        EngineCommand::ReadGas
                    },
                },
                Err(cause) => {
                    self.outcome = Some(
                        Err(
                            LinkError::DynamicLinkError {
                                cause: invoke_error_message(&self.req.name, &cause),
                            },
                        ),
                    );
                    self.phase = Phase::ReadingGas;
                    EngineCommand::ReadGas
                },
            },
            EngineEvent::EventsCollected { events, attributes } => {
                match encode_events(&events) {
                    Some(events_bytes) => match encode_attributes(&attributes) {
                        Some(attributes_bytes) => {
                            self.events_payload = Some(events_bytes);
                            self.attributes_payload = Some(attributes_bytes);
                            self.phase = Phase::ReadingGas;
                            EngineCommand::ReadGas
                        },
                        None => {
                            self.outcome = Some(
                                Err(
                                    LinkError::InvalidAttributes {
                                        cause: String::from_str(
                                            "the attributes do not fit the envelope format",
                                        ),
                                    },
                                ),
                            );
                            self.phase = Phase::ReadingGas;
                            EngineCommand::ReadGas
                        },
                    },
                    None => {
                        self.outcome = Some(
                            Err(
                                LinkError::InvalidEvents {
                                    cause: String::from_str(
                                        "the events do not fit the envelope format",
                                    ),
                                },
                            ),
                        );
                        self.phase = Phase::ReadingGas;
                        EngineCommand::ReadGas
                    },
                }
            },
            EngineEvent::GasObserved { gas } => {
                self.phase = Phase::Done;
                let result = match self.outcome.take() {
                    Some(r) => r,
                    None => unreached(),
                };
                EngineCommand::Finish {
                    output: CallOutput {
                        result,
                        gas_used: Some(gas),
                        events: self.events_payload.take(),
                        attributes: self.attributes_payload.take(),
                    },
                }
            },
        }
    }
}

/// Decodes a `call_callable_point` request and opens its call flow.  The
/// mandatory `gas_used` output slot is checked during decoding, before any
/// instance is created; the flow's first command then resolves the callee.
pub fn call_callable_point(
    name: Option<&Vec<u8>>,
    checksum: Option<&Vec<u8>>,
    is_readonly: bool,
    callstack: Option<&Vec<u8>>,
    env: Option<&Vec<u8>>,
    args: Option<&Vec<u8>>,
    gas_limit: u64,
    print_debug: bool,
    has_gas_used: bool,
    has_events: bool,
    has_attributes: bool,
) -> (r: Result<(CallFlow, EngineCommand), LinkError>)
    ensures
        r matches Ok((flow, cmd)) ==> {
            &&& flow.wf()
            &&& flow.phase == Phase::Resolving
            &&& !flow.instance_created
            &&& cmd == EngineCommand::Resolve
            &&& flow.has_events == has_events
            &&& flow.has_attributes == has_attributes
            &&& flow.req.is_readonly == is_readonly
            &&& name matches Some(nb) && Some(flow.req.name@) == dec_string(nb@)
            &&& args matches Some(ab) && Some(flow.req.args.deep_view()) == dec_binary_list(ab@)
            &&& callstack matches Some(cb) && Some(flow.req.callstack.deep_view())
                == dec_string_list(cb@)
            &&& checksum matches Some(kb) && flow.req.checksum@ == kb@
            &&& env matches Some(eb) && flow.req.env@ == eb@
            &&& flow.req.gas_limit == gas_limit
            &&& flow.req.print_debug == print_debug
            &&& has_gas_used
        },
        !has_gas_used && name_ok(opt_bytes(name)) && args_ok(opt_bytes(args)) ==> is_empty_slot(
            r,
            "gas_used"@,
        ),
        name is None ==> is_unset(r, "name"@),
        r is Ok <==> (name_ok(opt_bytes(name)) && args_ok(opt_bytes(args)) && has_gas_used
            && checksum_ok(opt_bytes(checksum)) && callstack_ok(opt_bytes(callstack))
            && env is Some),
{
    let req = match decode_call_request(
        name,
        checksum,
        callstack,
        env,
        args,
        is_readonly,
        gas_limit,
        print_debug,
        has_gas_used,
    ) {
        Ok(req) => req,
        Err(e) => {
            return Err(e);
        },
    };
    Ok(CallFlow::start(req, has_events, has_attributes))
}

} // verus!
