//! The requesting side of one command: send it, then read responses until a
//! terminal one, turning each non-terminal one into an effect for the host.

use crate::frame::{
    after_first, first_payload, frame_incomplete, frame_of, header_over, FrameReader,
    MAX_FRAME_LEN,
};
use crate::protocol::{is_terminal, LogLevel, Response};
use vstd::prelude::*;

verus! {

/// What the host does for a non-terminal response.
#[derive(Debug, PartialEq)]
pub enum Effect {
    /// Hand a log line to the diagnostic sink at `level`, stamped `ts`.
    Log { level: LogLevel, msg: String, ts: String },
    /// Write the value, pretty-printed, to the primary output.
    Output(serde_json::Value),
}

/// Why a command failed.
#[derive(Debug, PartialEq)]
pub enum AdminError {
    /// The stream closed before any terminal response.
    NoResponse,
    /// The stream closed in the middle of a frame.
    Truncated,
    /// A frame, outgoing or incoming, is longer than `MAX_FRAME_LEN`.
    FrameTooLarge,
    /// A frame did not hold a valid response.
    Decode { msg: String },
    /// Reading from or writing to the transport failed.
    Transport { msg: String },
    /// The service answered with an error.
    Remote { msg: String },
    /// A data payload could not be written out as JSON text.
    Render,
}

/// The result of handling one event.
#[derive(Debug, PartialEq)]
pub enum Step {
    /// Carry out the effect, then read on.
    Emit(Effect),
    /// The command is over, with this outcome.
    Done(Result<(), AdminError>),
}

/// Where a session stands.
#[derive(Debug, Clone, Copy, PartialEq, Eq, Structural)]
pub enum Phase {
    /// No command has been sent.
    Idle,
    /// A command was sent and its terminal response has not come.
    Awaiting,
    /// The command is over; the connection is not to be used again.
    Finished,
}

/// What one response leads to.
pub open spec fn step_of(r: Response) -> Step {
    match r {
        Response::Log { level, msg, ts } => Step::Emit(Effect::Log { level, msg, ts }),
        Response::Data(v) => Step::Emit(Effect::Output(v)),
        Response::Error { msg } => Step::Done(Err(AdminError::Remote { msg })),
        Response::Success => Step::Done(Ok(())),
    }
}

/// What closing the stream leads to, with `pending` bytes still unread.
pub open spec fn closed_outcome(pending: Seq<u8>) -> Result<(), AdminError> {
    if pending.len() == 0 {
        Err(AdminError::NoResponse)
    } else {
        Err(AdminError::Truncated)
    }
}

/// One command's exchange on one connection.
pub struct AdminSession {
    phase: Phase,
    reader: FrameReader,
}

impl AdminSession {
    /// Where the session stands.
    pub closed spec fn state(&self) -> Phase {
        self.phase
    }

    /// The bytes received and not yet taken as a frame.
    pub closed spec fn pending(&self) -> Seq<u8> {
        self.reader@
    }

    /// A session on a fresh connection.
    pub fn new() -> (r: AdminSession)
        ensures
            r.state() == Phase::Idle,
            r.pending() == Seq::<u8>::empty(),
    {
        AdminSession { phase: Phase::Idle, reader: FrameReader::new() }
    }

    /// Where the session stands.
    pub fn phase(&self) -> (r: Phase)
        ensures
            r == self.state(),
    {
        self.phase
    }

    /// Frames the encoded command for sending; the session then awaits the reply.
    pub fn start(&mut self, command: &[u8]) -> (r: Result<Vec<u8>, AdminError>)
        requires
            old(self).state() == Phase::Idle,
        ensures
            r is Ok <==> command@.len() <= MAX_FRAME_LEN,
            r matches Ok(f) ==> f@ == frame_of(command@) && final(self).state() == Phase::Awaiting,
            r matches Err(e) ==> e == AdminError::FrameTooLarge && final(self).state()
                == Phase::Finished,
            final(self).pending() == old(self).pending(),
    {
        match crate::frame::encode_frame(command) {
            Ok(f) => {
                self.phase = Phase::Awaiting;
                Ok(f)
            },
            Err(_) => {
                self.phase = Phase::Finished;
                Err(AdminError::FrameTooLarge)
            },
        }
    }

    /// Keeps bytes that arrived from the transport.
    pub fn receive(&mut self, bytes: &[u8])
        ensures
            final(self).pending() == old(self).pending() + bytes@,
            final(self).state() == old(self).state(),
    {
        self.reader.push(bytes);
    }

    /// Takes the next whole frame's payload, or `None` until more bytes come.
    /// An oversized header ends the command before its payload is read.
    pub fn next_frame(&mut self) -> (r: Result<Option<Vec<u8>>, AdminError>)
        requires
            old(self).state() == Phase::Awaiting,
        ensures
            r is Err <==> header_over(old(self).pending(), MAX_FRAME_LEN as nat),
            r matches Err(e) ==> e == AdminError::FrameTooLarge && final(self).state()
                == Phase::Finished,
            r is Ok ==> final(self).state() == Phase::Awaiting,
            r matches Ok(None) <==> frame_incomplete(old(self).pending(), MAX_FRAME_LEN as nat),
            r matches Ok(Some(p)) ==> p@ == first_payload(old(self).pending()),
            r matches Ok(Some(_)) ==> final(self).pending() == after_first(old(self).pending()),
            !(r matches Ok(Some(_))) ==> final(self).pending() == old(self).pending(),
    {
        match self.reader.next_frame() {
            Ok(f) => Ok(f),
            Err(_) => {
                self.phase = Phase::Finished;
                Err(AdminError::FrameTooLarge)
            },
        }
    }

    /// Handles one decoded response.
    pub fn on_response(&mut self, resp: Response) -> (s: Step)
        requires
            old(self).state() == Phase::Awaiting,
        ensures
            s == step_of(resp),
            final(self).state() == (if is_terminal(resp) {
                Phase::Finished
            } else {
                Phase::Awaiting
            }),
            final(self).pending() == old(self).pending(),
    {
        match resp {
            Response::Log { level, msg, ts } => Step::Emit(Effect::Log { level, msg, ts }),
            Response::Data(v) => Step::Emit(Effect::Output(v)),
            Response::Error { msg } => {
                self.phase = Phase::Finished;
                Step::Done(Err(AdminError::Remote { msg }))
            },
            Response::Success => {
                self.phase = Phase::Finished;
                Step::Done(Ok(()))
            },
        }
    }

    /// Handles the end of the inbound stream.
    pub fn on_closed(&mut self) -> (s: Step)
        requires
            old(self).state() == Phase::Awaiting,
        ensures
            s == Step::Done(closed_outcome(old(self).pending())),
            final(self).state() == Phase::Finished,
            final(self).pending() == old(self).pending(),
    {
        self.phase = Phase::Finished;
        if self.reader.is_empty() {
            Step::Done(Err(AdminError::NoResponse))
        } else {
            Step::Done(Err(AdminError::Truncated))
        }
    }

    /// Handles a failure met outside the session: a transport error, or a
    /// payload that did not decode.
    pub fn on_failure(&mut self, err: AdminError) -> (s: Step)
        ensures
            s == Step::Done(Err(err)),
            final(self).state() == Phase::Finished,
            final(self).pending() == old(self).pending(),
    {
        self.phase = Phase::Finished;
        Step::Done(Err(err))
    }
}

/// serde_json's error type, only told apart from success.
#[verifier::external_type_specification]
#[verifier::external_body]
pub struct ExJsonError(serde_json::Error);

/// The indented JSON text that serde_json writes for `v`.
pub uninterp spec fn pretty_json_of(v: serde_json::Value) -> Seq<char>;

/// Relies on serde_json::to_string_pretty: the value as indented JSON text,
/// which depends on the value alone. It never fails on a `Value`: map keys are
/// strings, `Value`'s serializer has no failing case, and writing to memory
/// cannot fail.
#[verifier::external_body]
fn to_pretty_json(v: &serde_json::Value) -> (r: Result<String, serde_json::Error>)
    ensures
        r is Ok,
        r matches Ok(t) ==> t@ == pretty_json_of(*v),
{
    serde_json::to_string_pretty(v)
}

/// The text to write to the primary output for a data payload: the value as
/// indented JSON.
pub fn render_output(v: &serde_json::Value) -> (r: Result<String, AdminError>)
    ensures
        r is Ok,
        r matches Ok(t) ==> t@ == pretty_json_of(*v),
{
    match to_pretty_json(v) {
        Ok(text) => Ok(text),
        Err(_) => Err(AdminError::Render),
    }
}

/// The outcome of a reply stream read to its first terminal response:
/// the effects in order, how many responses were read, and the result.
/// A stream that runs out first has closed without a reply.
pub open spec fn run_spec(rs: Seq<Response>) -> (Seq<Effect>, nat, Result<(), AdminError>)
    decreases rs.len(),
{
    if rs.len() == 0 {
        (Seq::empty(), 0, Err(AdminError::NoResponse))
    } else {
        match step_of(rs[0]) {
            Step::Emit(e) => {
                let t = run_spec(rs.drop_first());
                (seq![e] + t.0, t.1 + 1, t.2)
            },
            Step::Done(r) => (Seq::empty(), 1, r),
        }
    }
}

/// What a whole reply stream led to.
#[derive(Debug, PartialEq)]
pub struct Outcome {
    pub effects: Vec<Effect>,
    pub consumed: usize,
    pub result: Result<(), AdminError>,
}

/// Runs a session that has sent its command through the replies the far end
/// sends, in order, up to the first terminal one; if the list runs out first,
/// the stream has closed.
pub fn run_responses(responses: Vec<Response>) -> (o: Outcome)
    ensures
        o.effects@ == run_spec(responses@).0,
        o.consumed as nat == run_spec(responses@).1,
        o.result == run_spec(responses@).2,
{
    let mut session = AdminSession { phase: Phase::Awaiting, reader: FrameReader::new() };
    let total: usize = responses.len();
    let mut rest = responses;
    let mut effects: Vec<Effect> = Vec::new();
    let mut consumed: usize = 0;
    while rest.len() > 0
        invariant
            session.state() == Phase::Awaiting,
            consumed + rest@.len() == responses@.len(),
            responses@.len() == total,
            run_spec(responses@).0 == effects@ + run_spec(rest@).0,
            run_spec(responses@).1 == consumed + run_spec(rest@).1,
            run_spec(responses@).2 == run_spec(rest@).2,
        decreases rest@.len(),
    {
        let ghost before = rest@;
        let r = rest.remove(0);
        assert(rest@ == before.drop_first());
        consumed = consumed + 1;
        match session.on_response(r) {
            Step::Emit(e) => {
                let ghost prev = effects@;
                effects.push(e);
                assert(effects@ + run_spec(rest@).0 == prev + (seq![e] + run_spec(rest@).0));
            },
            Step::Done(res) => {
                return Outcome { effects, consumed, result: res };
            },
        }
    }
    Outcome { effects, consumed, result: Err(AdminError::NoResponse) }
}

/// A well-formed reply stream (non-terminal responses, then one terminal one)
/// is read to its end and no further, whatever the far end sends after it: it
/// yields one effect per non-terminal response, in order, and ends with the
/// outcome of its terminal response.
pub proof fn lemma_well_formed_run(rs: Seq<Response>, tail: Seq<Response>)
    requires
        rs.len() > 0,
        is_terminal(rs.last()),
        forall|i: int| 0 <= i < rs.len() - 1 ==> !is_terminal(#[trigger] rs[i]),
    ensures
        run_spec(rs + tail) == run_spec(rs),
        run_spec(rs).1 == rs.len(),
        run_spec(rs).0.len() == rs.len() - 1,
        forall|i: int| 0 <= i < rs.len() - 1 ==> step_of(#[trigger] rs[i]) == Step::Emit(run_spec(rs).0[i]),
        step_of(rs.last()) == Step::Done(run_spec(rs).2),
    decreases rs.len(),
{
    let all = rs + tail;
    assert(all[0] == rs[0]);
    if rs.len() > 1 {
        let rest = rs.drop_first();
        assert forall|i: int| 0 <= i < rest.len() - 1 implies !is_terminal(#[trigger] rest[i]) by {
            assert(rest[i] == rs[i + 1]);
        }
        lemma_well_formed_run(rest, tail);
        assert(all.drop_first() == rest + tail);
        assert(!is_terminal(rs[0]));
        assert forall|i: int| 0 <= i < rs.len() - 1 implies step_of(#[trigger] rs[i]) == Step::Emit(
            run_spec(rs).0[i],
        ) by {
            if i > 0 {
                assert(rs[i] == rest[i - 1]);
            }
        }
    }
}

} // verus!
