use vstd::prelude::*;
use crate::clock::{utc_now_rfc3339, is_utc_rfc3339};
use crate::address::{address_of, address_text};
use crate::framing::{frame_message, framed};
use crate::registry::ConnectionRegistry;
use crate::types::{TcpError, TcpMessageOnConnection, TcpSendResult, not_found_detail};

verus! {

/// How writing a framed message to the socket went.
#[derive(Debug)]
pub enum WriteOutcome {
    /// Every byte was written and flushed.
    Written,
    /// Writing failed, with the error's text.
    WriteFailed(String),
    /// Flushing failed, with the error's text.
    FlushFailed(String),
}

/// A message ready to go out on a connection: the bytes to write, and the time
/// the send began.
#[derive(Debug)]
pub struct OutgoingMessage {
    pub bytes: String,
    pub timestamp: String,
}

/// The text of the result of a send, for each outcome of the write.
pub open spec fn send_message_text(outcome: WriteOutcome) -> Seq<char> {
    match outcome {
        WriteOutcome::Written => "Message sent successfully"@,
        WriteOutcome::WriteFailed(e) => "Failed to send message: "@ + e@,
        WriteOutcome::FlushFailed(e) => "Failed to flush message: "@ + e@,
    }
}

/// The error detail of the result of a failed send.
pub open spec fn send_error_text(outcome: WriteOutcome) -> Option<Seq<char>> {
    match outcome {
        WriteOutcome::Written => None,
        WriteOutcome::WriteFailed(e) => Some("Send failed: "@ + e@),
        WriteOutcome::FlushFailed(e) => Some("Flush failed: "@ + e@),
    }
}

/// The acknowledgement of a one-shot send to `host:port`.
pub open spec fn delivery_ack_text(host: Seq<char>, port: u16) -> Seq<char> {
    "Message sent successfully to "@ + address_text(host, port)
}

/// The acknowledgement of stopping the listener, by whether one was running.
pub open spec fn server_stopped_text(was_running: bool) -> Seq<char> {
    if was_running {
        "TCP server stopped"@
    } else {
        "No server was running"@
    }
}

/// The acknowledgement of a listener started on `address`.
pub open spec fn server_started_text(address: Seq<char>) -> Seq<char> {
    "TCP server started on "@ + address
}

impl<C> ConnectionRegistry<C> {
    /// Looks up the connection a send goes to and frames its text with one
    /// trailing newline, stamped with `timestamp`; an unknown id is
    /// `ConnectionNotFound`.
    pub fn prepare_send_at(&self, request: &TcpMessageOnConnection, timestamp: String) -> (r: Result<(&C, OutgoingMessage), TcpError>)
        requires
            self.wf(),
        ensures
            r is Ok <==> self@.contains_key(request.connection_id@),
            r matches Ok((c, out)) ==> *c == self@[request.connection_id@] && out.bytes@ == framed(request.message@)
                && out.timestamp@ == timestamp@,
            r matches Err(e) ==> e is ConnectionNotFound && e->ConnectionNotFound_0@ == not_found_detail(request.connection_id@),
    {
        let c = self.get(request.connection_id.as_str())?;
        Ok((c, OutgoingMessage { bytes: frame_message(request.message.as_str()), timestamp }))
    }

    /// Looks up the connection a send goes to and frames its text, stamped with
    /// the current UTC time; an unknown id is `ConnectionNotFound`.
    pub fn prepare_send(&self, request: &TcpMessageOnConnection) -> (r: Result<(&C, OutgoingMessage), TcpError>)
        requires
            self.wf(),
        ensures
            r is Ok <==> self@.contains_key(request.connection_id@),
            r matches Ok((c, out)) ==> *c == self@[request.connection_id@] && out.bytes@ == framed(request.message@)
                && is_utc_rfc3339(out.timestamp@),
            r matches Err(e) ==> e is ConnectionNotFound && e->ConnectionNotFound_0@ == not_found_detail(request.connection_id@),
    {
        let c = self.get(request.connection_id.as_str())?;
        let timestamp = utc_now_rfc3339();
        Ok((c, OutgoingMessage { bytes: frame_message(request.message.as_str()), timestamp }))
    }
}

/// The structured result of a send whose write went as `outcome`: a failed
/// write or flush is reported here, not as an error.
pub fn send_result(out: OutgoingMessage, outcome: &WriteOutcome) -> (r: TcpSendResult)
    ensures
        r.success == (outcome is Written),
        r.message@ == send_message_text(*outcome),
        r.timestamp matches Some(t) && t@ == out.timestamp@,
        match send_error_text(*outcome) {
            Some(t) => r.error matches Some(e) && e@ == t,
            None => r.error is None,
        },
{
    match outcome {
        WriteOutcome::Written => TcpSendResult {
            success: true,
            message: String::from_str("Message sent successfully"),
            timestamp: Some(out.timestamp),
            error: None,
        },
        WriteOutcome::WriteFailed(e) => TcpSendResult {
            success: false,
            message: String::from_str("Failed to send message: ").concat(e.as_str()),
            timestamp: Some(out.timestamp),
            error: Some(String::from_str("Send failed: ").concat(e.as_str())),
        },
        WriteOutcome::FlushFailed(e) => TcpSendResult {
            success: false,
            message: String::from_str("Failed to flush message: ").concat(e.as_str()),
            timestamp: Some(out.timestamp),
            error: Some(String::from_str("Flush failed: ").concat(e.as_str())),
        },
    }
}

/// The acknowledgement of a one-shot send to `host:port`.
pub fn delivery_ack(host: &str, port: u16) -> (r: String)
    ensures
        r@ == delivery_ack_text(host@, port),
{
    String::from_str("Message sent successfully to ").concat(address_of(host, port).as_str())
}

/// The acknowledgement of a listener started on `address`.
pub fn server_started(address: &str) -> (r: String)
    ensures
        r@ == server_started_text(address@),
{
    String::from_str("TCP server started on ").concat(address)
}

/// The acknowledgement of stopping the listener, by whether one was running.
pub fn server_stopped(was_running: bool) -> (r: String)
    ensures
        r@ == server_stopped_text(was_running),
{
    if was_running {
        String::from_str("TCP server stopped")
    } else {
        String::from_str("No server was running")
    }
}

} // verus!
