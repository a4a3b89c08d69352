use vstd::prelude::*;

verus! {

// ---------------------------------------------------------------------------
// Mathematical models: the shapes the contracts speak about.
// ---------------------------------------------------------------------------

/// The views of a sequence of strings, element by element.
pub open spec fn strings_model(ss: Seq<String>) -> Seq<Seq<char>> {
    Seq::new(ss.len(), |i: int| ss[i]@)
}

/// Model of [`Error`].
pub struct ErrorModel {
    pub in_reply_to: u64,
    pub code: u64,
    pub text: Seq<char>,
}

/// Model of [`InitRequest`].
pub struct InitRequestModel {
    pub msg_id: u64,
    pub node_id: Seq<char>,
    pub node_ids: Seq<Seq<char>>,
}

/// Model of [`InitResponse`].
pub struct InitResponseModel {
    pub in_reply_to: u64,
}

/// Model of [`EchoRequest`].
pub struct EchoRequestModel {
    pub msg_id: u64,
    pub echo: Seq<char>,
}

/// Model of [`EchoResponse`].
pub struct EchoResponseModel {
    pub msg_id: u64,
    pub in_reply_to: u64,
    pub echo: Seq<char>,
}

/// Model of [`Echo`].
pub enum EchoModel {
    Echo(EchoRequestModel),
    EchoOk(EchoResponseModel),
}

/// Model of [`Payload`].
pub enum PayloadModel {
    Error(ErrorModel),
    Init(InitRequestModel),
    InitOk(InitResponseModel),
    Workload(EchoModel),
    Unknown,
}

/// Model of [`Body`].
pub struct BodyModel {
    pub msg_type: Seq<char>,
    pub payload: PayloadModel,
}

/// Model of [`Message`].
pub struct MessageModel {
    pub src: Seq<char>,
    pub dest: Seq<char>,
    pub body: BodyModel,
}

// ---------------------------------------------------------------------------
// Wire-level data types.
// ---------------------------------------------------------------------------

/// An `error` payload: a failure report correlated to an earlier request.
#[derive(Debug, PartialEq, Eq)]
pub struct Error {
    pub in_reply_to: u64,
    pub code: u64,
    pub text: String,
}

/// An `init` payload: the harness names this node and its peers.
#[derive(Debug, PartialEq, Eq)]
pub struct InitRequest {
    pub msg_id: u64,
    pub node_id: String,
    pub node_ids: Vec<String>,
}

/// An `init_ok` payload: the reply to an `init` request.
#[derive(Debug, PartialEq, Eq)]
pub struct InitResponse {
    pub in_reply_to: u64,
}

/// An `echo` payload: the harness asks for its text back.
#[derive(Debug, PartialEq, Eq)]
pub struct EchoRequest {
    pub msg_id: u64,
    pub echo: String,
}

/// An `echo_ok` payload: the reply to an `echo` request.
#[derive(Debug, PartialEq, Eq)]
pub struct EchoResponse {
    pub msg_id: u64,
    pub in_reply_to: u64,
    pub echo: String,
}

/// The workload slot of this node: the echo service.
#[derive(Debug, PartialEq, Eq)]
pub enum Echo {
    Echo(EchoRequest),
    EchoOk(EchoResponse),
}

/// The closed set of payload shapes a message body can carry.  A body whose
/// `type` is outside the known discriminator set decodes to [`Payload::Unknown`]
/// and is dropped by the dispatcher without a response.
#[derive(Debug, PartialEq, Eq)]
pub enum Payload {
    Error(Error),
    Init(InitRequest),
    InitOk(InitResponse),
    Workload(Echo),
    Unknown,
}

/// One message body: the wire discriminator together with the payload it
/// selected.  On output the discriminator is derived from the payload variant,
/// never from the stored string (which only records what was read).
#[derive(Debug, PartialEq, Eq)]
pub struct Body {
    pub msg_type: String,
    pub payload: Payload,
}

/// One wire envelope: addressing plus a body.
#[derive(Debug, PartialEq, Eq)]
pub struct Message {
    pub src: String,
    pub dest: String,
    pub body: Body,
}

// ---------------------------------------------------------------------------
// Views.
// ---------------------------------------------------------------------------

impl View for Error {
    type V = ErrorModel;

    open spec fn view(&self) -> ErrorModel {
        ErrorModel { in_reply_to: self.in_reply_to, code: self.code, text: self.text@ }
    }
}

impl View for InitRequest {
    type V = InitRequestModel;

    open spec fn view(&self) -> InitRequestModel {
        InitRequestModel {
            msg_id: self.msg_id,
            node_id: self.node_id@,
            node_ids: strings_model(self.node_ids@),
        }
    }
}

impl View for InitResponse {
    type V = InitResponseModel;

    open spec fn view(&self) -> InitResponseModel {
        InitResponseModel { in_reply_to: self.in_reply_to }
    }
}

impl View for EchoRequest {
    type V = EchoRequestModel;

    open spec fn view(&self) -> EchoRequestModel {
        EchoRequestModel { msg_id: self.msg_id, echo: self.echo@ }
    }
}

impl View for EchoResponse {
    type V = EchoResponseModel;

    open spec fn view(&self) -> EchoResponseModel {
        EchoResponseModel {
            msg_id: self.msg_id,
            in_reply_to: self.in_reply_to,
            echo: self.echo@,
        }
    }
}

impl View for Echo {
    type V = EchoModel;

    open spec fn view(&self) -> EchoModel {
        match self {
            Echo::Echo(r) => EchoModel::Echo(r@),
            Echo::EchoOk(r) => EchoModel::EchoOk(r@),
        }
    }
}

impl View for Payload {
    type V = PayloadModel;

    open spec fn view(&self) -> PayloadModel {
        match self {
            Payload::Error(e) => PayloadModel::Error(e@),
            Payload::Init(r) => PayloadModel::Init(r@),
            Payload::InitOk(r) => PayloadModel::InitOk(r@),
            Payload::Workload(w) => PayloadModel::Workload(w@),
            Payload::Unknown => PayloadModel::Unknown,
        }
    }
}

impl View for Body {
    type V = BodyModel;

    open spec fn view(&self) -> BodyModel {
        BodyModel { msg_type: self.msg_type@, payload: self.payload@ }
    }
}

impl View for Message {
    type V = MessageModel;

    open spec fn view(&self) -> MessageModel {
        MessageModel { src: self.src@, dest: self.dest@, body: self.body@ }
    }
}

// ---------------------------------------------------------------------------
// Discriminators and well-formedness.
// ---------------------------------------------------------------------------

/// Whether `t` is one of the discriminator strings this node can decode.
pub open spec fn known_type(t: Seq<char>) -> bool {
    ||| t == "error"@
    ||| t == "init"@
    ||| t == "init_ok"@
    ||| t == "echo"@
    ||| t == "echo_ok"@
}

/// The wire discriminator that the payload variant `p` serializes under.
/// `Unknown` payloads are never encoded from their variant tag; they keep
/// the discriminator string that was read, so this gives them no name.
pub open spec fn spec_discriminator(p: PayloadModel) -> Seq<char> {
    match p {
        PayloadModel::Error(_) => "error"@,
        PayloadModel::Init(_) => "init"@,
        PayloadModel::InitOk(_) => "init_ok"@,
        PayloadModel::Workload(EchoModel::Echo(_)) => "echo"@,
        PayloadModel::Workload(EchoModel::EchoOk(_)) => "echo_ok"@,
        PayloadModel::Unknown => Seq::empty(),
    }
}

/// A body is well formed when its stored discriminator agrees with its
/// payload variant: the variant's own tag for the known shapes, and a string
/// outside the known set for `Unknown`.
pub open spec fn wf_body(b: BodyModel) -> bool {
    if b.payload is Unknown {
        !known_type(b.msg_type)
    } else {
        b.msg_type == spec_discriminator(b.payload)
    }
}

/// A message is well formed when its body is.
pub open spec fn wf_message(m: MessageModel) -> bool {
    wf_body(m.body)
}

impl Body {
    /// A body under the given wire discriminator.
    pub fn new(msg_type: &str, payload: Payload) -> (b: Body)
        ensures
            b@ == (BodyModel { msg_type: msg_type@, payload: payload@ }),
    {
        Body { msg_type: msg_type.to_owned(), payload }
    }
}

} // verus!
