//! The session: one logical connection that performs the handshake and then
//! issues one-way update and close commands.
//!
//! The session owns no transport. It produces the exact frames to write and
//! judges the one response frame the handshake reads back; the embedding
//! program moves those bytes over its socket or pipe. The states run
//! `Handshaking` to `Ready` to `Closed`, with `Errored` absorbing every
//! failure; after `Closed` or `Errored` no operation is accepted.

use vstd::prelude::*;
use vstd::string::StrSliceExecFns;
use vstd::string::StringExecFns;
use vstd::utf8::encode_utf8;
use crate::activities::{activity_json, Activity};
use crate::error::Error;
use crate::frame::{encode_frame, frame_bytes, OP_CLOSE, OP_HANDSHAKE, OP_MESSAGE};
use crate::json::{dec_digits, json_string, push_dec_u64, push_json_string};

verus! {

/// The JSON text of the handshake request: the protocol version, which is
/// always 1, and the client identifier.
pub open spec fn handshake_json(client_id: Seq<char>) -> Seq<char> {
    "{\"v\":1,\"client_id\":"@ + json_string(client_id) + "}"@
}

/// The JSON text of the update command: the set-activity command name, the
/// process identifier and the activity under `args`, and a nonce.
pub open spec fn set_activity_json(pid: u32, nonce: Seq<char>, a: Activity) -> Seq<char> {
    "{\"cmd\":\"SET_ACTIVITY\",\"args\":{\"pid\":"@ + dec_digits(pid as int) + ",\"activity\":"@
        + activity_json(a) + "},\"nonce\":"@ + json_string(nonce) + "}"@
}

/// Builds the handshake request payload for a client identifier.
pub fn build_handshake_payload(client_id: &str) -> (r: String)
    ensures
        r@ == handshake_json(client_id@),
{
    let mut out = String::from_str("{\"v\":1,\"client_id\":");
    push_json_string(&mut out, client_id);
    out.append("}");
    proof {
        assert(out@ =~= handshake_json(client_id@));
    }
    out
}

/// Builds the update command payload from the process identifier, the nonce
/// to embed, and the activity to publish.
pub fn build_set_activity_payload(pid: u32, nonce: &str, activity: &Activity) -> (r: String)
    ensures
        r@ == set_activity_json(pid, nonce@, *activity),
{
    let mut out = String::from_str("{\"cmd\":\"SET_ACTIVITY\",\"args\":{\"pid\":");
    push_dec_u64(&mut out, pid as u64);
    out.append(",\"activity\":");
    let body = activity.to_json();
    out.append(body.as_str());
    out.append("},\"nonce\":");
    push_json_string(&mut out, nonce);
    out.append("}");
    proof {
        assert(out@ =~= set_activity_json(pid, nonce@, *activity));
    }
    out
}

/// A character that can appear in a freshly drawn nonce: a lower-case
/// hexadecimal digit or a hyphen.
pub open spec fn is_nonce_char(c: char) -> bool {
    c == '-' || (48 <= c as u32 && c as u32 <= 57) || (97 <= c as u32 && c as u32 <= 102)
}

/// A well-formed nonce: the 36-character hyphenated text of a fresh token.
pub open spec fn is_nonce(n: Seq<char>) -> bool {
    n.len() == 36 && forall|i: int| 0 <= i < 36 ==> is_nonce_char(#[trigger] n[i])
}

/// Relies on `uuid::Uuid::new_v4` and its hyphenated text form: 36
/// characters, lower-case hexadecimal digits and hyphens, drawn fresh at
/// random, so nothing more than its shape can be promised.
#[verifier::external_body]
fn fresh_nonce() -> (r: String)
    ensures
        is_nonce(r@),
{
    uuid::Uuid::new_v4().to_string()
}

/// Whether a handshake response payload is a JSON document at all.
pub uninterp spec fn json_ok(payload: Seq<u8>) -> bool;

/// The top-level `cmd` string field of a handshake response payload, absent
/// when the document has none or it is not a string.
pub uninterp spec fn cmd_field(payload: Seq<u8>) -> Option<Seq<char>>;

/// The top-level `evt` string field of a handshake response payload, absent
/// when the document has none or it is not a string.
pub uninterp spec fn evt_field(payload: Seq<u8>) -> Option<Seq<char>>;

/// The view of an optional owned string.
pub open spec fn opt_view(v: Option<String>) -> Option<Seq<char>> {
    match v {
        Some(s) => Some(s@),
        None => None,
    }
}

/// A response payload that closes the handshake: a JSON document whose
/// `cmd` field reads `DISPATCH` and whose `evt` field reads `READY`.
pub open spec fn handshake_accepted(payload: Seq<u8>) -> bool {
    json_ok(payload) && cmd_field(payload) == Some("DISPATCH"@) && evt_field(payload) == Some(
        "READY"@,
    )
}

/// Relies on `serde_json::from_slice`, `serde_json::Value::get` and
/// `serde_json::Value::as_str`: parses the payload as a JSON document and
/// hands out its top-level `cmd` and `evt` string fields, or a
/// serialization error when the payload is not JSON.
#[verifier::external_body]
fn parse_dispatch_fields(payload: &[u8]) -> (r: Result<(Option<String>, Option<String>), Error>)
    ensures
        (r is Ok) == json_ok(payload@),
        r matches Ok(f) ==> opt_view(f.0) == cmd_field(payload@) && opt_view(f.1) == evt_field(
            payload@,
        ),
        r matches Err(e) ==> e == Error::Serialization,
{
    let value: serde_json::Value = match serde_json::from_slice(payload) {
        Ok(v) => v,
        Err(_) => return Err(Error::Serialization),
    };
    let cmd = match value.get("cmd") {
        Some(field) => field.as_str().map(String::from),
        None => None,
    };
    let evt = match value.get("evt") {
        Some(field) => field.as_str().map(String::from),
        None => None,
    };
    Ok((cmd, evt))
}

/// Judges the two fields of a parsed handshake response: accepted exactly
/// when `cmd` reads `DISPATCH` and `evt` reads `READY`.
pub fn handshake_verdict(cmd: Option<String>, evt: Option<String>) -> (r: Result<(), Error>)
    ensures
        (r is Ok) == (opt_view(cmd) == Some("DISPATCH"@) && opt_view(evt) == Some("READY"@)),
        r matches Err(e) ==> e == Error::HandshakeFailed,
{
    let accepted = match (&cmd, &evt) {
        (Some(c), Some(e)) => {
            c.eq(&String::from_str("DISPATCH")) && e.eq(&String::from_str("READY"))
        },
        _ => false,
    };
    if accepted {
        Ok(())
    } else {
        Err(Error::HandshakeFailed)
    }
}

/// Judges a whole handshake response payload: accepted exactly when it is a
/// JSON document carrying `cmd` `DISPATCH` and `evt` `READY`; a payload that
/// is not JSON fails as a serialization error, any other document as a
/// failed handshake.
pub fn check_handshake_response(payload: &[u8]) -> (r: Result<(), Error>)
    ensures
        (r is Ok) == handshake_accepted(payload@),
        !json_ok(payload@) ==> r == Err::<(), Error>(Error::Serialization),
        json_ok(payload@) && !handshake_accepted(payload@) ==> r == Err::<(), Error>(
            Error::HandshakeFailed,
        ),
{
    match parse_dispatch_fields(payload) {
        Ok((cmd, evt)) => handshake_verdict(cmd, evt),
        Err(e) => Err(e),
    }
}

/// Where a session stands in its life.
#[derive(Clone, Copy, Debug, PartialEq, Eq, Structural)]
pub enum SessionState {
    /// The handshake frame may be sent and its response judged.
    Handshaking,
    /// The handshake was acknowledged; update and close are accepted.
    Ready,
    /// The close frame was produced; nothing further is accepted.
    Closed,
    /// A failure absorbed the session; nothing further is accepted.
    Errored,
}

/// One logical connection: the client identifier it was created for and
/// where it stands in its life.
pub struct Session {
    /// The client identifier sent in the handshake.
    pub client_id: String,
    /// Where the session stands.
    pub state: SessionState,
}

impl Session {
    /// Creates a session about to handshake for the given client.
    pub fn new(client_id: String) -> (s: Session)
        ensures
            s.client_id == client_id,
            s.state == SessionState::Handshaking,
    {
        Session { client_id, state: SessionState::Handshaking }
    }

    /// The handshake frame to write first: a handshake-opcode frame whose
    /// payload is the handshake request JSON. Fails only when that payload
    /// cannot fit the frame's length field.
    pub fn handshake_frame(&self) -> (r: Result<Vec<u8>, Error>)
        ensures
            encode_utf8(handshake_json(self.client_id@)).len() <= u32::MAX ==> (r matches Ok(f)
                && f@ == frame_bytes(
                OP_HANDSHAKE,
                encode_utf8(handshake_json(self.client_id@)),
            )),
            encode_utf8(handshake_json(self.client_id@)).len() > u32::MAX ==> r == Err::<
                Vec<u8>,
                Error,
            >(Error::Serialization),
    {
        let text = build_handshake_payload(self.client_id.as_str());
        let payload = text.as_str().as_bytes_vec();
        encode_frame(OP_HANDSHAKE, &payload)
    }

    /// Feeds the one response frame's payload back into the session. The
    /// session becomes ready exactly when the response is accepted; any
    /// rejection is absorbing.
    pub fn on_handshake_response(&mut self, payload: &[u8]) -> (r: Result<(), Error>)
        requires
            old(self).state == SessionState::Handshaking,
        ensures
            final(self).client_id == old(self).client_id,
            (r is Ok) == handshake_accepted(payload@),
            r is Ok ==> final(self).state == SessionState::Ready,
            r is Err ==> final(self).state == SessionState::Errored,
            !json_ok(payload@) ==> r == Err::<(), Error>(Error::Serialization),
            json_ok(payload@) && !handshake_accepted(payload@) ==> r == Err::<(), Error>(
                Error::HandshakeFailed,
            ),
    {
        match check_handshake_response(payload) {
            Ok(()) => {
                self.state = SessionState::Ready;
                Ok(())
            },
            Err(e) => {
                self.state = SessionState::Errored;
                Err(e)
            },
        }
    }

    /// The update frame for one set-activity command: a message-opcode frame
    /// whose payload is the command JSON around a freshly drawn nonce. Only
    /// a ready session accepts the operation; afterwards it is still ready.
    /// The command is one-way by design: no response frame is consumed for
    /// it, so any acknowledgement the peer sends stays unread in the
    /// transport's receive buffer. That is a known limitation kept here
    /// deliberately.
    pub fn set_activity_frame(&mut self, activity: &Activity, pid: u32) -> (r: Result<
        Vec<u8>,
        Error,
    >)
        ensures
            final(self).client_id == old(self).client_id,
            final(self).state == old(self).state,
            old(self).state != SessionState::Ready ==> r == Err::<Vec<u8>, Error>(Error::Io),
            old(self).state == SessionState::Ready ==> match r {
                Ok(f) => exists|n: Seq<char>|
                    is_nonce(n) && f@ == frame_bytes(
                        OP_MESSAGE,
                        encode_utf8(set_activity_json(pid, n, *activity)),
                    ),
                Err(e) => e == Error::Serialization,
            },
            old(self).state == SessionState::Ready && (forall|n: Seq<char>|
                is_nonce(n) ==> #[trigger] encode_utf8(set_activity_json(pid, n, *activity)).len()
                    <= u32::MAX) ==> r is Ok,
    {
        match self.state {
            SessionState::Ready => {},
            _ => {
                return Err(Error::Io);
            },
        }
        let nonce = fresh_nonce();
        let text = build_set_activity_payload(pid, nonce.as_str(), activity);
        let payload = text.as_str().as_bytes_vec();
        let r = encode_frame(OP_MESSAGE, &payload);
        match r {
            Ok(f) => {
                proof {
                    assert(is_nonce(nonce@) && f@ == frame_bytes(
                        OP_MESSAGE,
                        encode_utf8(set_activity_json(pid, nonce@, *activity)),
                    ));
                }
                Ok(f)
            },
            Err(e) => Err(e),
        }
    }

    /// The close frame: a close-opcode frame with an empty payload. Only a
    /// ready session accepts the operation, and it is closed afterwards,
    /// accepting nothing further.
    pub fn close_frame(&mut self) -> (r: Result<Vec<u8>, Error>)
        ensures
            final(self).client_id == old(self).client_id,
            old(self).state != SessionState::Ready ==> r == Err::<Vec<u8>, Error>(Error::Io)
                && final(self).state == old(self).state,
            old(self).state == SessionState::Ready ==> final(self).state == SessionState::Closed
                && (r matches Ok(f) && f@ == frame_bytes(OP_CLOSE, Seq::<u8>::empty())),
    {
        match self.state {
            SessionState::Ready => {},
            _ => {
                return Err(Error::Io);
            },
        }
        let payload: Vec<u8> = Vec::new();
        let r = encode_frame(OP_CLOSE, &payload);
        self.state = SessionState::Closed;
        proof {
            assert(payload@ =~= Seq::<u8>::empty());
        }
        r
    }

    /// Absorbs a transport failure reported by the embedding program; the
    /// session accepts nothing further.
    pub fn record_transport_failure(&mut self)
        ensures
            final(self).client_id == old(self).client_id,
            final(self).state == SessionState::Errored,
    {
        self.state = SessionState::Errored;
    }
}

} // verus!
