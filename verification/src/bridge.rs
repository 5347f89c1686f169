//! The synchronous call bridge.
//!
//! A call schedules one unit of work on the host thread and blocks on a
//! one-shot rendezvous until exactly one result arrives. The host side is
//! reflected here as data: what the scheduled unit saw in the registry,
//! what shape the callback's return took, and how a deferred return
//! settled. Every decision of the protocol is a function below; the host
//! plumbing only performs the scheduling and reports back.

use crate::errors::BridgeError;
use crate::json::sp_response;
use crate::text::spec_trim;
use crate::text::trim_str;
use crate::wire::encode_request;
use crate::wire::parse_outcome_ok;
use crate::wire::parse_wire_response;
use crate::wire::spec_encode_request;
use crate::wire::ClaudeAgentRequest;
use crate::wire::ClaudeAgentResponse;
use crate::wire::Message;
use vstd::prelude::*;

verus! {

/// What the scheduled unit found when it re-read the registry under lock.
/// A poisoned lock degrades to "no callback available".
#[derive(Clone, Copy, Debug, PartialEq, Eq, Structural)]
pub enum RegistrySight {
    /// The lock was poisoned by a panic elsewhere.
    Poisoned,
    /// The lock was healthy but no callback is registered.
    Empty,
    /// A callback is registered and was invoked.
    Present,
}

/// The shape of the value the callback returned, as the host side saw it.
pub enum Resolution {
    /// An immediate string: the wire response text.
    Immediate(String),
    /// A deferred value that will settle later.
    Deferred,
    /// Neither a string nor a deferred value.
    OtherShape,
    /// The invocation itself raised an error with this text.
    Raised(String),
}

/// How a deferred return eventually settled.
pub enum Settlement {
    /// It resolved to a string: the wire response text.
    Value(String),
    /// It resolved, but not to a string.
    NonString,
    /// It settled with an error carrying this text.
    Rejected(String),
}

/// What the scheduled unit does after inspecting the callback's return:
/// either it completes the rendezvous now, or it waits for a settlement.
pub enum HostStep {
    /// Send this result into the completion channel immediately.
    Completed(Result<ClaudeAgentResponse, BridgeError>),
    /// Attach a settlement observer; the observer sends instead.
    AwaitSettlement,
}

/// One call's exchange with the host thread, reported back as data.
pub struct HostExchange {
    /// What the unit saw in the registry under lock.
    pub sight: RegistrySight,
    /// The shape of the callback's return, when one was invoked.
    pub resolution: Resolution,
    /// The settlement of a deferred return, if one ever arrived.
    pub settlement: Option<Settlement>,
}

/// The one-shot rendezvous: at most one value is ever sent, and the
/// receiving side reads it exactly once.
pub struct CompletionSlot {
    value: Option<Result<ClaudeAgentResponse, BridgeError>>,
}

impl CompletionSlot {
    /// What the slot holds.
    pub closed spec fn spec_value(&self) -> Option<Result<ClaudeAgentResponse, BridgeError>> {
        self.value
    }

    /// A fresh, unfulfilled slot.
    pub fn new() -> (r: Self)
        ensures
            r.spec_value() is None,
    {
        CompletionSlot { value: None }
    }

    /// Fulfil the slot. A slot is fulfilled at most once: a second send is
    /// ruled out, not silently dropped.
    pub fn send(&mut self, v: Result<ClaudeAgentResponse, BridgeError>)
        requires
            old(self).spec_value() is None,
        ensures
            final(self).spec_value() == Some(v),
    {
        self.value = Some(v);
    }

    /// The single consumer read: whatever was sent, if anything was.
    pub fn receive(self) -> (r: Option<Result<ClaudeAgentResponse, BridgeError>>)
        ensures
            r == self.spec_value(),
    {
        self.value
    }
}

/// Whether the registry sight counts as an available callback: a poisoned
/// lock is treated as absent rather than propagated.
pub fn effective_presence(sight: RegistrySight) -> (r: bool)
    ensures
        r == (sight is Present),
{
    match sight {
        RegistrySight::Present => true,
        RegistrySight::Empty => false,
        RegistrySight::Poisoned => false,
    }
}

/// The scheduled unit's first decision: with no callback available it must
/// still fulfil the rendezvous, with this error.
pub fn invoke_precheck(sight: RegistrySight) -> (r: Option<BridgeError>)
    ensures
        (sight is Present) <==> r is None,
        !(sight is Present) ==> r == Some(BridgeError::NotRegistered),
{
    if effective_presence(sight) {
        None
    } else {
        Some(BridgeError::NotRegistered)
    }
}

/// The scheduled unit's decision on the callback's return: an immediate
/// string is parsed and completes the rendezvous now; a deferred value
/// waits for its settlement; anything else completes with the matching
/// error. Exactly one of these holds per call.
pub fn resolution_step(res: Resolution) -> (step: HostStep)
    ensures
        match res {
            Resolution::Immediate(s) => step matches HostStep::Completed(out) && parse_outcome_ok(
                out,
                s@,
            ),
            Resolution::Deferred => step is AwaitSettlement,
            Resolution::OtherShape => step == HostStep::Completed(
                Err::<ClaudeAgentResponse, BridgeError>(BridgeError::InvalidResponseShape),
            ),
            Resolution::Raised(m) => step matches HostStep::Completed(out) && out matches Err(e)
                && e matches BridgeError::CallFailed(t) && t@ == m@,
        },
{
    match res {
        Resolution::Immediate(s) => HostStep::Completed(parse_wire_response(s.as_str())),
        Resolution::Deferred => HostStep::AwaitSettlement,
        Resolution::OtherShape => HostStep::Completed(Err(BridgeError::InvalidResponseShape)),
        Resolution::Raised(m) => HostStep::Completed(Err(BridgeError::CallFailed(m))),
    }
}

/// The settlement observer's decision: a string settlement is parsed; a
/// non-string settlement is a shape error; a rejection carries its text.
pub fn settlement_step(st: Settlement) -> (r: Result<ClaudeAgentResponse, BridgeError>)
    ensures
        match st {
            Settlement::Value(s) => parse_outcome_ok(r, s@),
            Settlement::NonString => r == Err::<ClaudeAgentResponse, BridgeError>(
                BridgeError::InvalidResponseShape,
            ),
            Settlement::Rejected(m) => r matches Err(e) && e matches BridgeError::BridgeRejected(t)
                && t@ == m@,
        },
{
    match st {
        Settlement::Value(s) => parse_wire_response(s.as_str()),
        Settlement::NonString => Err(BridgeError::InvalidResponseShape),
        Settlement::Rejected(m) => Err(BridgeError::BridgeRejected(m)),
    }
}

/// The caller side of the rendezvous: an abandoned channel is reported as
/// closed, an error passes through, and a response is translated, a
/// present error field taking precedence over the output.
pub fn deliver(received: Option<Result<ClaudeAgentResponse, BridgeError>>) -> (r: Result<
    String,
    BridgeError,
>)
    ensures
        match received {
            None => r == Err::<String, BridgeError>(BridgeError::ChannelClosed),
            Some(Err(e)) => r == Err::<String, BridgeError>(e),
            Some(Ok(resp)) => match resp.error {
                Some(m) => r matches Err(e) && e matches BridgeError::RemoteError(t) && t@ == m@,
                None => r matches Ok(o) && o@ == resp.output@,
            },
        },
{
    match received {
        None => Err(BridgeError::ChannelClosed),
        Some(Err(e)) => Err(e),
        Some(Ok(resp)) => resp.into_result(),
    }
}

/// How a delivered wire text determines the caller's result: invalid wire
/// format is a parse error; a carried error field is surfaced; otherwise
/// the output is returned.
pub open spec fn delivered_outcome(
    q: Option<(Seq<char>, Option<Seq<char>>)>,
    r: Result<String, BridgeError>,
) -> bool {
    match q {
        None => r == Err::<String, BridgeError>(BridgeError::ParseError),
        Some(p) => match p.1 {
            Some(m) => r matches Err(e) && e matches BridgeError::RemoteError(t) && t@ == m,
            None => r matches Ok(o) && o@ == p.0,
        },
    }
}

/// The complete outcome relation of one call: what the caller receives for
/// every state of the registry and every behaviour of the host side.
pub open spec fn call_outcome_ok(
    registered: bool,
    host: Option<HostExchange>,
    r: Result<String, BridgeError>,
) -> bool {
    if !registered {
        r == Err::<String, BridgeError>(BridgeError::NotRegistered)
    } else {
        match host {
            None => r == Err::<String, BridgeError>(BridgeError::ChannelClosed),
            Some(h) => if !(h.sight is Present) {
                r == Err::<String, BridgeError>(BridgeError::NotRegistered)
            } else {
                match h.resolution {
                    Resolution::Immediate(s) => delivered_outcome(sp_response(s@), r),
                    Resolution::Deferred => match h.settlement {
                        None => r == Err::<String, BridgeError>(BridgeError::ChannelClosed),
                        Some(Settlement::Value(s)) => delivered_outcome(sp_response(s@), r),
                        Some(Settlement::NonString) => r == Err::<String, BridgeError>(
                            BridgeError::InvalidResponseShape,
                        ),
                        Some(Settlement::Rejected(m)) => r matches Err(e)
                            && e matches BridgeError::BridgeRejected(t) && t@ == m@,
                    },
                    Resolution::OtherShape => r == Err::<String, BridgeError>(
                        BridgeError::InvalidResponseShape,
                    ),
                    Resolution::Raised(m) => r matches Err(e) && e matches BridgeError::CallFailed(
                        t,
                    ) && t@ == m@,
                }
            },
        }
    }
}

/// The runtime a caller holds: whether a runner callback is registered,
/// and the working directory every request is stamped with.
pub struct ClaudeAgentRuntime {
    runner_registered: bool,
    default_cwd: String,
}

impl ClaudeAgentRuntime {
    /// Whether a runner callback is registered.
    pub closed spec fn spec_runner_registered(&self) -> bool {
        self.runner_registered
    }

    /// The working directory stamped into every request.
    pub closed spec fn spec_default_cwd(&self) -> Seq<char> {
        self.default_cwd@
    }

    pub fn new(runner_registered: bool, default_cwd: String) -> (r: Self)
        ensures
            r.spec_runner_registered() == runner_registered,
            r.spec_default_cwd() == default_cwd@,
    {
        ClaudeAgentRuntime { runner_registered, default_cwd }
    }

    pub fn has_runner(&self) -> (r: bool)
        ensures
            r == self.spec_runner_registered(),
    {
        self.runner_registered
    }

    pub fn update_default_cwd(&mut self, cwd: String)
        ensures
            final(self).spec_default_cwd() == cwd@,
            final(self).spec_runner_registered() == old(self).spec_runner_registered(),
    {
        self.default_cwd = cwd;
    }

    /// Build the wire request: messages and model pass through; a caller
    /// credential is trimmed and dropped entirely when nothing remains;
    /// the working directory is always this runtime's.
    pub fn build_request(
        &self,
        messages: Vec<Message>,
        custom_key: Option<String>,
        model: Option<String>,
    ) -> (r: ClaudeAgentRequest)
        ensures
            r.messages == messages,
            match custom_key {
                None => r.custom_key is None,
                Some(k) => if spec_trim(k@).len() == 0 {
                    r.custom_key is None
                } else {
                    r.custom_key matches Some(t) && t@ == spec_trim(k@)
                },
            },
            r.cwd matches Some(c) && c@ == self.spec_default_cwd(),
            r.model == model,
    {
        let custom_key = match custom_key {
            None => None,
            Some(k) => {
                let trimmed = trim_str(k.as_str());
                if trimmed.as_str().unicode_len() == 0 {
                    None
                } else {
                    Some(trimmed)
                }
            },
        };
        ClaudeAgentRequest {
            messages,
            custom_key,
            cwd: Some(self.default_cwd.clone()),
            model,
        }
    }

    /// The caller-side decisions made before anything is scheduled: with
    /// no runner registered the call fails at once, otherwise the request
    /// is framed for the wire. Nothing is scheduled and nothing blocks on
    /// the failing path.
    pub fn plan_call(&self, request: &ClaudeAgentRequest) -> (r: Result<String, BridgeError>)
        ensures
            self.spec_runner_registered() ==> (r matches Ok(p) && p@ == spec_encode_request(
                request,
            )),
            !self.spec_runner_registered() ==> r == Err::<String, BridgeError>(
                BridgeError::NotRegistered,
            ),
    {
        if !self.has_runner() {
            return Err(BridgeError::NotRegistered);
        }
        Ok(encode_request(request))
    }

    /// One complete call, with the host side's behaviour reported back as
    /// an exchange: with no runner registered it fails at once with
    /// `NotRegistered`, whatever the host would have done; otherwise the
    /// scheduled unit, or the settlement observer it attached, fulfils the
    /// rendezvous exactly once, and the caller receives that one result.
    /// An exchange that never fulfilled the rendezvous is a closed channel.
    pub fn run_completion(&self, request: &ClaudeAgentRequest, host: Option<HostExchange>) -> (r:
        Result<String, BridgeError>)
        ensures
            call_outcome_ok(self.spec_runner_registered(), host, r),
            !self.spec_runner_registered() ==> r == Err::<String, BridgeError>(
                BridgeError::NotRegistered,
            ),
    {
        // The framed payload is what the scheduled unit hands to the
        // callback; the exchange reports what the host made of it.
        let _payload = match self.plan_call(request) {
            Err(e) => {
                return Err(e);
            },
            Ok(p) => p,
        };
        let mut slot = CompletionSlot::new();
        match host {
            None => {},
            Some(h) => {
                let HostExchange { sight, resolution, settlement } = h;
                match invoke_precheck(sight) {
                    Some(e) => slot.send(Err(e)),
                    None => {
                        match resolution_step(resolution) {
                            HostStep::Completed(out) => slot.send(out),
                            HostStep::AwaitSettlement => {
                                match settlement {
                                    None => {},
                                    Some(st) => slot.send(settlement_step(st)),
                                }
                            },
                        }
                    },
                }
            },
        }
        deliver(slot.receive())
    }
}

/// Two results that read the same to the caller: same success text, or the
/// same error with the same text.
pub open spec fn result_text_eq(r1: Result<String, BridgeError>, r2: Result<
    String,
    BridgeError,
>) -> bool {
    match (r1, r2) {
        (Ok(a), Ok(b)) => a@ == b@,
        (Err(a), Err(b)) => err_text_eq(a, b),
        _ => false,
    }
}

/// Two errors of the same kind carrying the same text.
pub open spec fn err_text_eq(a: BridgeError, b: BridgeError) -> bool {
    match (a, b) {
        (BridgeError::NotRegistered, BridgeError::NotRegistered) => true,
        (BridgeError::SerializationError, BridgeError::SerializationError) => true,
        (BridgeError::ParseError, BridgeError::ParseError) => true,
        (BridgeError::InvalidResponseShape, BridgeError::InvalidResponseShape) => true,
        (BridgeError::BridgeRejected(x), BridgeError::BridgeRejected(y)) => x@ == y@,
        (BridgeError::RemoteError(x), BridgeError::RemoteError(y)) => x@ == y@,
        (BridgeError::CallFailed(x), BridgeError::CallFailed(y)) => x@ == y@,
        (BridgeError::ChannelClosed, BridgeError::ChannelClosed) => true,
        _ => false,
    }
}

/// Each call's rendezvous is its own: the result a caller observes is
/// fully determined by the registry state and that call's own exchange
/// with the host. In particular, no part of another call's request or
/// exchange can appear in it: calls running concurrently each receive the
/// response correlated with their own invocation.
pub proof fn lemma_call_outcome_determined(
    registered: bool,
    host: Option<HostExchange>,
    r1: Result<String, BridgeError>,
    r2: Result<String, BridgeError>,
)
    requires
        call_outcome_ok(registered, host, r1),
        call_outcome_ok(registered, host, r2),
    ensures
        result_text_eq(r1, r2),
{
}

} // verus!
