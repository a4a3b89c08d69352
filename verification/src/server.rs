use vstd::prelude::*;

use crate::codec::{
    decode_message, encode_message, spec_decode_message, spec_encode_message, DecodeError,
};
use crate::id_gen::{hands_out, IdGenerator};
use crate::json::{spec_field, JsonModel};
use crate::models::{
    wf_message, Body, BodyModel, Echo, EchoModel, EchoRequest, EchoResponse, EchoResponseModel,
    InitRequest, InitResponse, InitResponseModel, Message, MessageModel, Payload, PayloadModel,
};
use crate::wire::{parse_json, parsed, render_json, rendered};

verus! {

// ---------------------------------------------------------------------------
// Routing, specification.
// ---------------------------------------------------------------------------

/// The reply body for the request `m`, if `m` is routable, together with
/// the identifier counter after handling: `init` is answered with
/// `init_ok`, `echo` with `echo_ok` carrying the fresh identifier `c0`.
/// Every other message — inbound replies, errors, and unknown types —
/// gets no response.
pub open spec fn spec_route(m: MessageModel, c0: u64) -> Option<(BodyModel, u64)> {
    match m.body.payload {
        PayloadModel::Init(r) => Some(
            (
                BodyModel {
                    msg_type: "init_ok"@,
                    payload: PayloadModel::InitOk(InitResponseModel { in_reply_to: r.msg_id }),
                },
                c0,
            ),
        ),
        PayloadModel::Workload(EchoModel::Echo(r)) => Some(
            (
                BodyModel {
                    msg_type: "echo_ok"@,
                    payload: PayloadModel::Workload(
                        EchoModel::EchoOk(
                            EchoResponseModel { msg_id: c0, in_reply_to: r.msg_id, echo: r.echo },
                        ),
                    ),
                },
                (c0 + 1) as u64,
            ),
        ),
        _ => None,
    }
}

/// The response envelope: the reply body under the request's addresses
/// reversed — the response leaves from where the request arrived.
pub open spec fn spec_respond(m: MessageModel, b: BodyModel) -> MessageModel {
    MessageModel { src: m.dest, dest: m.src, body: b }
}

/// What one input line does to the node, as a function of the line and
/// the identifier counter: the outcome the dispatch loop acts on, and the
/// counter afterwards.
pub open spec fn spec_process(line: Seq<char>, c0: u64) -> (OutcomeModel, u64) {
    match parsed(line) {
        None => (OutcomeModel::Malformed, c0),
        Some(j) => match spec_decode_message(j) {
            Err(DecodeError::Syntax) => (OutcomeModel::Malformed, c0),
            Err(DecodeError::Shape) => (OutcomeModel::Malformed, c0),
            Err(DecodeError::Fields) => (OutcomeModel::Invalid, c0),
            Ok(m) => match spec_route(m, c0) {
                None => (OutcomeModel::Ignored, c0),
                Some((b, c1)) => (
                    OutcomeModel::Respond(rendered(spec_encode_message(spec_respond(m, b)))),
                    c1,
                ),
            },
        },
    }
}

// ---------------------------------------------------------------------------
// Outcomes.
// ---------------------------------------------------------------------------

/// Model of [`Outcome`].
pub enum OutcomeModel {
    Respond(Seq<char>),
    Malformed,
    Invalid,
    Ignored,
}

/// What the dispatch loop should do with one input line.  The loop itself
/// only performs the effect: write the line, log a warning, log an error,
/// or nothing.
#[derive(Debug, PartialEq, Eq)]
pub enum Outcome {
    /// Write this line to standard output: the response to a routable
    /// request.
    Respond(String),
    /// Malformed input — unparseable JSON, or JSON that matches no known
    /// envelope or body shape.  Log a warning, drop, continue.
    Malformed,
    /// A recognized discriminator with invalid or missing payload fields.
    /// Log an error, drop, continue.
    Invalid,
    /// A well-formed message this node does not route: an unknown type or
    /// an inbound reply.  Drop silently, continue.
    Ignored,
}

impl View for Outcome {
    type V = OutcomeModel;

    open spec fn view(&self) -> OutcomeModel {
        match self {
            Outcome::Respond(s) => OutcomeModel::Respond(s@),
            Outcome::Malformed => OutcomeModel::Malformed,
            Outcome::Invalid => OutcomeModel::Invalid,
            Outcome::Ignored => OutcomeModel::Ignored,
        }
    }
}

// ---------------------------------------------------------------------------
// The server.
// ---------------------------------------------------------------------------

/// The dispatcher's state: the identifier generator it owns.  Transport
/// stays outside — the loop around the server reads the lines and writes
/// the responses this server computes.
pub struct Server {
    id_gen: IdGenerator,
}

impl View for Server {
    type V = u64;

    closed spec fn view(&self) -> u64 {
        self.id_gen@
    }
}

impl Default for Server {
    /// A fresh server whose identifier counter starts at 0.
    fn default() -> (s: Server)
        ensures
            s@ == 0,
    {
        Server { id_gen: IdGenerator::default() }
    }
}

impl Server {
    /// The identifier counter's current value: the next identifier to be
    /// handed out.
    pub fn current_id(&self) -> (c: u64)
        ensures
            c == self@,
    {
        self.id_gen.current()
    }

    /// Draws a fresh message identifier from the server's generator.
    pub fn get_next_id(&mut self) -> (id: u64)
        requires
            old(self)@ < u64::MAX,
        ensures
            hands_out(old(self)@, id, final(self)@),
    {
        self.id_gen.next()
    }

    /// The reply body for an `init` request: `init_ok`, correlated to the
    /// request's identifier.  Draws no identifier.
    pub fn handle_init(&mut self, payload: &InitRequest) -> (b: Body)
        ensures
            final(self)@ == old(self)@,
            b@ == (BodyModel {
                msg_type: "init_ok"@,
                payload: PayloadModel::InitOk(InitResponseModel { in_reply_to: payload@.msg_id }),
            }),
    {
        Body::new("init_ok", Payload::InitOk(InitResponse { in_reply_to: payload.msg_id }))
    }

    /// The reply body for an `echo` request: `echo_ok` with the echoed
    /// text, a fresh message identifier, and the correlation to the
    /// request's identifier.
    pub fn handle_echo(&mut self, payload: &EchoRequest) -> (b: Body)
        requires
            old(self)@ < u64::MAX,
        ensures
            final(self)@ == old(self)@ + 1,
            b@ == (BodyModel {
                msg_type: "echo_ok"@,
                payload: PayloadModel::Workload(
                    EchoModel::EchoOk(
                        EchoResponseModel {
                            msg_id: old(self)@,
                            in_reply_to: payload@.msg_id,
                            echo: payload@.echo,
                        },
                    ),
                ),
            }),
    {
        let msg_id = self.get_next_id();
        Body::new(
            "echo_ok",
            Payload::Workload(
                Echo::EchoOk(
                    EchoResponse { msg_id, in_reply_to: payload.msg_id, echo: payload.echo.clone() },
                ),
            ),
        )
    }

    /// One full dispatch step: parse the line, decode the envelope, route
    /// it, and render the response if there is one.  The outcome tells the
    /// loop around the server what to do; the server state changes exactly
    /// when an identifier was consumed.
    pub fn process_line(&mut self, line: &str) -> (out: Outcome)
        requires
            old(self)@ < u64::MAX,
        ensures
            (out@, final(self)@) == spec_process(line@, old(self)@),
    {
        let j = match parse_json(line) {
            Some(j) => j,
            None => {
                return Outcome::Malformed;
            },
        };
        let request = match decode_message(&j) {
            Ok(m) => m,
            Err(DecodeError::Fields) => {
                return Outcome::Invalid;
            },
            Err(_) => {
                return Outcome::Malformed;
            },
        };
        let body = match &request.body.payload {
            Payload::Init(r) => self.handle_init(r),
            Payload::Workload(Echo::Echo(r)) => self.handle_echo(r),
            _ => {
                return Outcome::Ignored;
            },
        };
        let response = request.respond_with(body);
        Outcome::Respond(message_to_line(&response))
    }
}

impl Message {
    /// The response envelope for this request: the given body, addressed
    /// back to where the request came from.
    pub fn respond_with(&self, body: Body) -> (r: Message)
        ensures
            r@ == spec_respond(self@, body@),
    {
        Message { src: self.dest.clone(), dest: self.src.clone(), body }
    }
}

// ---------------------------------------------------------------------------
// The transport's two halves, minus the I/O.
// ---------------------------------------------------------------------------

/// Parses and decodes one input line into a message.  This is the
/// computing half of reading a request; the loop around the server reads
/// the raw line.
pub fn line_to_message(line: &str) -> (r: Result<Message, DecodeError>)
    ensures
        match r {
            Ok(m) => parsed(line@) matches Some(j) && spec_decode_message(j) == Ok::<
                MessageModel,
                DecodeError,
            >(m@),
            Err(DecodeError::Syntax) => parsed(line@) is None,
            Err(e) => parsed(line@) matches Some(j) && spec_decode_message(j) == Err::<
                MessageModel,
                DecodeError,
            >(e),
        },
{
    match parse_json(line) {
        Some(j) => decode_message(&j),
        None => Err(DecodeError::Syntax),
    }
}

/// Encodes and renders one message as one line of output text.  This is
/// the computing half of writing a response; the loop around the server
/// writes the line out.
pub fn message_to_line(m: &Message) -> (s: String)
    ensures
        s@ == rendered(spec_encode_message(m@)),
{
    proof {
        crate::codec::lemma_encoded_serializable(m@);
    }
    let j = encode_message(m);
    render_json(&j)
}

// ---------------------------------------------------------------------------
// Laws of the dispatcher.
// ---------------------------------------------------------------------------

/// Address reversal: every response the router emits carries the
/// request's addresses swapped — it is sent from the node the request was
/// addressed to, back to the node the request came from.
pub proof fn lemma_response_reverses_addresses(m: MessageModel, c0: u64)
    ensures
        spec_route(m, c0) matches Some((b, c1)) ==> {
            &&& spec_respond(m, b).src == m.dest
            &&& spec_respond(m, b).dest == m.src
        },
{
}

/// A well-formed object whose `type` is outside the known discriminator
/// set decodes without failure — to an `Unknown` payload — and the router
/// drops it without a response.
pub proof fn lemma_unknown_type_dropped(j: JsonModel, t: Seq<char>, c0: u64)
    requires
        spec_field(j, "type"@) == Some(JsonModel::Str(t)),
        !crate::models::known_type(t),
    ensures
        crate::codec::spec_decode_body(j) == Ok::<BodyModel, DecodeError>(
            BodyModel { msg_type: t, payload: PayloadModel::Unknown },
        ),
        forall|m: MessageModel| m.body.payload is Unknown ==> spec_route(m, c0) is None,
{
}

/// Responses carry well-formed bodies: whatever the router replies, its
/// discriminator string agrees with its payload variant, so the response
/// re-decodes to itself (see the codec's round-trip laws).
pub proof fn lemma_responses_well_formed(m: MessageModel, c0: u64)
    ensures
        spec_route(m, c0) matches Some((b, c1)) ==> wf_message(spec_respond(m, b)),
{
}

} // verus!
