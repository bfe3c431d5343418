use vstd::prelude::*;

verus! {

/// A one-shot message for a host and port.
#[derive(Debug)]
pub struct TcpMessage {
    pub host: String,
    pub port: u16,
    pub message: String,
}

/// Where a listening server binds.
#[derive(Debug)]
pub struct TcpServerConfig {
    pub host: String,
    pub port: u16,
}

/// The externally visible descriptor of a live connection.
#[derive(Debug, Clone)]
pub struct TcpConnection {
    pub id: String,
    pub host: String,
    pub port: u16,
    pub connected: bool,
    pub connected_at: String,
}

/// What `connect` hands back on success.
#[derive(Debug)]
pub struct TcpConnectionResult {
    pub success: bool,
    pub connection: Option<TcpConnection>,
    pub error: Option<String>,
}

/// A request to open a connection.
#[derive(Debug)]
pub struct TcpConnectionRequest {
    pub host: String,
    pub port: u16,
}

/// A request to send text over an open connection.
#[derive(Debug)]
pub struct TcpMessageOnConnection {
    pub connection_id: String,
    pub message: String,
}

/// One line received from a peer, with its delimiters stripped.
#[derive(Debug, Clone)]
pub struct TcpReceivedMessage {
    pub message: String,
    pub timestamp: String,
    pub client_addr: String,
}

/// The outcome of a send on an open connection.
#[derive(Debug)]
pub struct TcpSendResult {
    pub success: bool,
    pub message: String,
    pub timestamp: Option<String>,
    pub error: Option<String>,
}

/// A snapshot of received history.
#[derive(Debug)]
pub struct TcpReceiveResult {
    pub success: bool,
    pub messages: Vec<TcpReceivedMessage>,
    pub error: Option<String>,
}

/// The notification pushed to the subscriber for each history entry.
#[derive(Debug, Clone)]
pub struct TcpMessageReceivedEvent {
    pub connection_id: String,
    pub message: TcpReceivedMessage,
}

/// The model of a received message: its text, arrival time and source label.
pub struct ReceivedRecord {
    pub text: Seq<char>,
    pub timestamp: Seq<char>,
    pub source: Seq<char>,
}

/// The model of a notification event.
pub struct EventRecord {
    pub connection_id: Seq<char>,
    pub message: ReceivedRecord,
}

impl View for TcpReceivedMessage {
    type V = ReceivedRecord;

    open spec fn view(&self) -> ReceivedRecord {
        ReceivedRecord {
            text: self.message@,
            timestamp: self.timestamp@,
            source: self.client_addr@,
        }
    }
}

impl View for TcpMessageReceivedEvent {
    type V = EventRecord;

    open spec fn view(&self) -> EventRecord {
        EventRecord { connection_id: self.connection_id@, message: self.message@ }
    }
}

impl TcpReceivedMessage {
    /// A copy whose fields hold the same text.
    pub fn duplicate(&self) -> (r: TcpReceivedMessage)
        ensures
            r@ == self@,
    {
        TcpReceivedMessage {
            message: self.message.clone(),
            timestamp: self.timestamp.clone(),
            client_addr: self.client_addr.clone(),
        }
    }
}

/// The failures that the command surface reports.
#[derive(Debug)]
pub enum TcpError {
    ConnectionFailed(String),
    SendFailed(String),
    InvalidAddress(String),
    ServerStartFailed(String),
    ConnectionNotFound(String),
}

/// The human-readable rendering of an error: a prefix naming its kind, then its detail.
pub open spec fn error_text(e: TcpError) -> Seq<char> {
    match e {
        TcpError::ConnectionFailed(m) => "Connection failed: "@ + m@,
        TcpError::SendFailed(m) => "Send failed: "@ + m@,
        TcpError::InvalidAddress(m) => "Invalid address: "@ + m@,
        TcpError::ServerStartFailed(m) => "Server start failed: "@ + m@,
        TcpError::ConnectionNotFound(m) => "Connection not found: "@ + m@,
    }
}

impl TcpError {
    /// The error rendered as text.
    pub fn to_string(&self) -> (r: String)
        ensures
            r@ == error_text(*self),
    {
        match self {
            TcpError::ConnectionFailed(m) => String::from_str("Connection failed: ").concat(m.as_str()),
            TcpError::SendFailed(m) => String::from_str("Send failed: ").concat(m.as_str()),
            TcpError::InvalidAddress(m) => String::from_str("Invalid address: ").concat(m.as_str()),
            TcpError::ServerStartFailed(m) => String::from_str("Server start failed: ").concat(
                m.as_str(),
            ),
            TcpError::ConnectionNotFound(m) => String::from_str("Connection not found: ").concat(
                m.as_str(),
            ),
        }
    }
}

/// The detail of an address that fails validation.
pub open spec fn invalid_address_detail() -> Seq<char> {
    "Host and port must be valid"@
}

/// The detail of a failed connection attempt to `address`.
pub open spec fn connection_failed_detail(address: Seq<char>, reason: Seq<char>) -> Seq<char> {
    "Failed to connect to "@ + address + ": "@ + reason
}

/// The detail of a lookup of an id that no live connection holds.
pub open spec fn not_found_detail(id: Seq<char>) -> Seq<char> {
    "Connection with ID "@ + id + " not found"@
}

/// The detail of a registration whose id a live connection already holds.
pub open spec fn id_taken_detail(id: Seq<char>) -> Seq<char> {
    "Connection ID "@ + id + " is already in use"@
}

/// The detail of a one-shot send whose write failed.
pub open spec fn send_failed_detail(reason: Seq<char>) -> Seq<char> {
    "Failed to send message: "@ + reason
}

/// The detail of a listener that could not bind `address`.
pub open spec fn bind_failed_detail(address: Seq<char>, reason: Seq<char>) -> Seq<char> {
    "Failed to bind to "@ + address + ": "@ + reason
}

impl TcpError {
    /// The error for a host or port that fails validation.
    pub fn invalid_address() -> (r: TcpError)
        ensures
            r is InvalidAddress,
            r->InvalidAddress_0@ == invalid_address_detail(),
    {
        TcpError::InvalidAddress(String::from_str("Host and port must be valid"))
    }

    /// The error for a connection attempt to `address` that failed for `reason`.
    pub fn connection_failed(address: &str, reason: &str) -> (r: TcpError)
        ensures
            r is ConnectionFailed,
            r->ConnectionFailed_0@ == connection_failed_detail(address@, reason@),
    {
        let m = String::from_str("Failed to connect to ").concat(address).concat(": ").concat(reason);
        TcpError::ConnectionFailed(m)
    }

    /// The error for an id that no live connection holds.
    pub fn not_found(id: &str) -> (r: TcpError)
        ensures
            r is ConnectionNotFound,
            r->ConnectionNotFound_0@ == not_found_detail(id@),
    {
        TcpError::ConnectionNotFound(String::from_str("Connection with ID ").concat(id).concat(" not found"))
    }

    /// The error for a registration whose id a live connection already holds.
    pub fn id_taken(id: &str) -> (r: TcpError)
        ensures
            r is ConnectionFailed,
            r->ConnectionFailed_0@ == id_taken_detail(id@),
    {
        TcpError::ConnectionFailed(String::from_str("Connection ID ").concat(id).concat(" is already in use"))
    }

    /// The error for a one-shot send whose write failed for `reason`.
    pub fn send_failed(reason: &str) -> (r: TcpError)
        ensures
            r is SendFailed,
            r->SendFailed_0@ == send_failed_detail(reason@),
    {
        TcpError::SendFailed(String::from_str("Failed to send message: ").concat(reason))
    }

    /// The error for a listener that could not bind `address` for `reason`.
    pub fn bind_failed(address: &str, reason: &str) -> (r: TcpError)
        ensures
            r is ServerStartFailed,
            r->ServerStartFailed_0@ == bind_failed_detail(address@, reason@),
    {
        let m = String::from_str("Failed to bind to ").concat(address).concat(": ").concat(reason);
        TcpError::ServerStartFailed(m)
    }
}

} // verus!
