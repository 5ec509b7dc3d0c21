//! The failures of the client, their kinds and their texts.

use vstd::prelude::*;
use vstd::string::*;
use vstd::utf8::{decode_utf8, valid_utf8};

verus! {

/// A status that the transport reports for a call. The client carries it
/// along, reads its text, and reads its metadata through [`metadata_value`].
#[verifier::external_type_specification]
#[verifier::external_body]
pub struct ExStatus(tonic::Status);

/// Metadata key under which the server puts its own diagnostic.
pub const INNER_ERROR_MSG: &'static str = "INNER_ERROR_MSG";

/// The kinds of failure that a caller tells apart.
#[derive(Clone, Copy, Debug, PartialEq, Eq, Structural)]
pub enum ErrorKind {
    /// The local configuration is wrong.
    Configuration,
    /// No peer is there to select.
    NoEndpointAvailable,
    /// A channel could not be set up.
    Connection,
    /// A message lacks a required part or has an unexpected shape.
    ProtocolViolation,
    /// The server reported a status.
    Server,
    /// A streaming session broke.
    Streaming,
}

impl ErrorKind {
    /// Whether trying again may succeed with no more than another choice of
    /// peer, or a new session for a broken stream.
    pub open spec fn spec_is_retriable(self) -> bool {
        self == ErrorKind::Connection || self == ErrorKind::Server || self == ErrorKind::Streaming
    }

    #[verifier::when_used_as_spec(spec_is_retriable)]
    pub fn is_retriable(self) -> (retriable: bool)
        ensures
            retriable == self.spec_is_retriable(),
    {
        match self {
            ErrorKind::Connection | ErrorKind::Server | ErrorKind::Streaming => true,
            _ => false,
        }
    }
}

/// A failure of the client.
#[derive(Debug)]
pub enum Error {
    /// The settings of the secured channels are wrong; `msg` says how.
    InvalidTlsConfig { msg: String },
    /// A file of the configuration could not be read; `source` says why.
    InvalidConfigFilePath { source: String },
    /// The transport could not set up a channel; `source` says why.
    CreateChannel { source: String },
    /// A column names a type by a number that stands for none.
    UnknownColumnDataType { datatype: i32 },
    /// The client is in no state to make a call; `err_msg` says why.
    IllegalGrpcClientState { err_msg: String },
    /// A message lacks the required part `field`.
    MissingField { field: String },
    /// A status of the server, with the diagnostic found in it.
    Server { status: tonic::Status, msg: String },
    /// A response has not the shape that the protocol asks for.
    IllegalDatabaseResponse { err_msg: String },
    /// A streaming session takes no more messages, or ended without result.
    ClientStreaming { err_msg: String },
}

pub type Result<T> = std::result::Result<T, Error>;

/// The bytes of the text value that a status holds under `key` in its
/// metadata, if it holds one there.
pub uninterp spec fn status_metadata(status: tonic::Status, key: Seq<char>) -> Option<Seq<u8>>;

/// `tonic::Status::metadata` followed by `MetadataMap::get`: the bytes of the
/// text value stored under `key` in the status's metadata, if there is one.
/// They depend on the status and the key alone.
#[verifier::external_body]
fn metadata_value(status: &tonic::Status, key: &str) -> (value: Option<Vec<u8>>)
    ensures
        bytes_view(value) == status_metadata(*status, key@),
{
    match status.metadata().get(key) {
        Some(value) => Some(value.as_bytes().to_vec()),
        None => None,
    }
}

/// `String::from_utf8`: the string that the bytes encode, where they are
/// valid UTF-8, and nothing where they are not.
#[verifier::external_body]
fn string_from_utf8(bytes: Vec<u8>) -> (text: Option<String>)
    ensures
        text is Some <==> valid_utf8(bytes@),
        text is Some ==> text->Some_0@ == decode_utf8(bytes@),
{
    String::from_utf8(bytes).ok()
}

/// The diagnostic of a server status: what the server stored for it, where
/// that is readable text, and the status's own text otherwise.
pub open spec fn spec_server_message(inner: Option<Seq<u8>>, text: Seq<char>) -> Seq<char> {
    match inner {
        Some(bytes) => if valid_utf8(bytes) {
            decode_utf8(bytes)
        } else {
            text
        },
        None => text,
    }
}

/// The bytes of an optional buffer.
pub open spec fn bytes_view(inner: Option<Vec<u8>>) -> Option<Seq<u8>> {
    match inner {
        Some(bytes) => Some(bytes@),
        None => None,
    }
}

/// Whether `msg` is the diagnostic of `status`: what the status holds under
/// [`INNER_ERROR_MSG`], where that is readable text, and else the text that
/// the status writes of itself.
pub open spec fn is_diagnostic_of(status: tonic::Status, msg: Seq<char>) -> bool {
    exists|text: String| #[trigger]
        to_string_from_display_ensures::<tonic::Status>(&status, text) && msg
            == spec_server_message(status_metadata(status, INNER_ERROR_MSG@), text@)
}

/// The diagnostic of a server status that holds `inner` for it and whose own
/// text is `text`.
pub fn server_message(inner: Option<Vec<u8>>, text: String) -> (msg: String)
    ensures
        msg@ == spec_server_message(bytes_view(inner), text@),
{
    match inner {
        Some(bytes) => match string_from_utf8(bytes) {
            Some(decoded) => decoded,
            None => text,
        },
        None => text,
    }
}

/// The diagnostic of a status.
pub fn diagnostic(status: &tonic::Status) -> (msg: String)
    ensures
        is_diagnostic_of(*status, msg@),
{
    let inner = metadata_value(status, INNER_ERROR_MSG);
    let text = status.to_string();
    server_message(inner, text)
}

/// `prefix` followed by `rest`.
fn prefixed(prefix: &str, rest: &str) -> (text: String)
    ensures
        text@ == prefix@ + rest@,
{
    let mut text = prefix.to_owned();
    text.append(rest);
    text
}

impl Error {
    pub open spec fn spec_kind(&self) -> ErrorKind {
        match self {
            Error::InvalidTlsConfig { .. } => ErrorKind::Configuration,
            Error::InvalidConfigFilePath { .. } => ErrorKind::Configuration,
            Error::CreateChannel { .. } => ErrorKind::Connection,
            Error::UnknownColumnDataType { .. } => ErrorKind::ProtocolViolation,
            Error::IllegalGrpcClientState { .. } => ErrorKind::NoEndpointAvailable,
            Error::MissingField { .. } => ErrorKind::ProtocolViolation,
            Error::Server { .. } => ErrorKind::Server,
            Error::IllegalDatabaseResponse { .. } => ErrorKind::ProtocolViolation,
            Error::ClientStreaming { .. } => ErrorKind::Streaming,
        }
    }

    /// The kind of this failure.
    #[verifier::when_used_as_spec(spec_kind)]
    pub fn kind(&self) -> (kind: ErrorKind)
        ensures
            kind == self.spec_kind(),
    {
        match self {
            Error::InvalidTlsConfig { .. } => ErrorKind::Configuration,
            Error::InvalidConfigFilePath { .. } => ErrorKind::Configuration,
            Error::CreateChannel { .. } => ErrorKind::Connection,
            Error::UnknownColumnDataType { .. } => ErrorKind::ProtocolViolation,
            Error::IllegalGrpcClientState { .. } => ErrorKind::NoEndpointAvailable,
            Error::MissingField { .. } => ErrorKind::ProtocolViolation,
            Error::Server { .. } => ErrorKind::Server,
            Error::IllegalDatabaseResponse { .. } => ErrorKind::ProtocolViolation,
            Error::ClientStreaming { .. } => ErrorKind::Streaming,
        }
    }

    /// Indicate if the error is retriable.
    pub fn is_retriable(&self) -> (retriable: bool)
        ensures
            retriable == self.spec_kind().spec_is_retriable(),
            retriable <==> (self is CreateChannel || self is Server || self is ClientStreaming),
    {
        self.kind().is_retriable()
    }

    /// Whether this is the failure of wrong settings of secured channels that
    /// says `msg`.
    pub open spec fn is_invalid_tls_config(&self, msg: Seq<char>) -> bool {
        self matches Error::InvalidTlsConfig { msg: said } && said@ == msg
    }

    /// Whether this is the failure of a client in no state to call that says
    /// `err_msg`.
    pub open spec fn is_illegal_state(&self, err_msg: Seq<char>) -> bool {
        self matches Error::IllegalGrpcClientState { err_msg: said } && said@ == err_msg
    }

    /// Whether this is the failure of a misshapen response that says
    /// `err_msg`.
    pub open spec fn is_illegal_response(&self, err_msg: Seq<char>) -> bool {
        self matches Error::IllegalDatabaseResponse { err_msg: said } && said@ == err_msg
    }

    /// Whether this is the failure of a streaming session that says `err_msg`.
    pub open spec fn is_streaming(&self, err_msg: Seq<char>) -> bool {
        self matches Error::ClientStreaming { err_msg: said } && said@ == err_msg
    }

    /// Whether this is the failure that stands for the server status `status`.
    pub open spec fn is_server(&self, status: tonic::Status) -> bool {
        self matches Error::Server { status: kept, .. } && kept == status
    }

    /// What this failure holds as text: its message, the cause it names or
    /// the part it misses. A failure that holds a number holds no text.
    pub open spec fn said(&self) -> Seq<char> {
        match self {
            Error::InvalidTlsConfig { msg } => msg@,
            Error::InvalidConfigFilePath { source } => source@,
            Error::CreateChannel { source } => source@,
            Error::UnknownColumnDataType { .. } => Seq::<char>::empty(),
            Error::IllegalGrpcClientState { err_msg } => err_msg@,
            Error::MissingField { field } => field@,
            Error::Server { msg, .. } => msg@,
            Error::IllegalDatabaseResponse { err_msg } => err_msg@,
            Error::ClientStreaming { err_msg } => err_msg@,
        }
    }

    /// The words that open the text of this failure.
    pub open spec fn message_prefix(&self) -> Seq<char> {
        match self {
            Error::InvalidTlsConfig { .. } => "Invalid client tls config, "@,
            Error::InvalidConfigFilePath { .. } => "Invalid config file path, "@,
            Error::CreateChannel { .. } => "Failed to create gRPC channel, source: "@,
            Error::UnknownColumnDataType { .. } => "Unknown proto column datatype: "@,
            Error::IllegalGrpcClientState { .. } => "Illegal GRPC client state: "@,
            Error::MissingField { .. } => "Missing required field in protobuf, field: "@,
            Error::Server { .. } => Seq::<char>::empty(),
            Error::IllegalDatabaseResponse { .. } => "Illegal Database response: "@,
            Error::ClientStreaming { .. } => "Failed to send request with streaming: "@,
        }
    }

    /// Whether `detail` is what the text of this failure says after its opening
    /// words. For a failure that holds a text it is that text. For one that
    /// holds a number it is the number as `to_string` writes it.
    pub open spec fn has_detail(&self, detail: Seq<char>) -> bool {
        match self {
            Error::InvalidTlsConfig { msg } => detail == msg@,
            Error::InvalidConfigFilePath { source } => detail == source@,
            Error::CreateChannel { source } => detail == source@,
            Error::UnknownColumnDataType { datatype } => exists|written: String|
                #[trigger] to_string_from_display_ensures::<i32>(datatype, written) && detail
                    == written@,
            Error::IllegalGrpcClientState { err_msg } => detail == err_msg@,
            Error::MissingField { field } => detail == field@,
            Error::Server { msg, .. } => detail == msg@,
            Error::IllegalDatabaseResponse { err_msg } => detail == err_msg@,
            Error::ClientStreaming { err_msg } => detail == err_msg@,
        }
    }

    /// The text of this failure, for a reader.
    pub fn message(&self) -> (text: String)
        ensures
            exists|detail: Seq<char>|
                #[trigger] self.has_detail(detail) && text@ == self.message_prefix() + detail,
    {
        match self {
            Error::InvalidTlsConfig { msg } => {
                let text = prefixed("Invalid client tls config, ", msg.as_str());
                assert(self.has_detail(msg@));
                text
            },
            Error::InvalidConfigFilePath { source } => {
                let text = prefixed("Invalid config file path, ", source.as_str());
                assert(self.has_detail(source@));
                text
            },
            Error::CreateChannel { source } => {
                let text = prefixed("Failed to create gRPC channel, source: ", source.as_str());
                assert(self.has_detail(source@));
                text
            },
            Error::UnknownColumnDataType { datatype } => {
                let detail = datatype.to_string();
                let text = prefixed("Unknown proto column datatype: ", detail.as_str());
                assert(self.has_detail(detail@));
                text
            },
            Error::IllegalGrpcClientState { err_msg } => {
                let text = prefixed("Illegal GRPC client state: ", err_msg.as_str());
                assert(self.has_detail(err_msg@));
                text
            },
            Error::MissingField { field } => {
                let text = prefixed("Missing required field in protobuf, field: ", field.as_str());
                assert(self.has_detail(field@));
                text
            },
            Error::Server { msg, .. } => {
                let text = msg.clone();
                assert(self.has_detail(msg@));
                text
            },
            Error::IllegalDatabaseResponse { err_msg } => {
                let text = prefixed("Illegal Database response: ", err_msg.as_str());
                assert(self.has_detail(err_msg@));
                text
            },
            Error::ClientStreaming { err_msg } => {
                let text = prefixed("Failed to send request with streaming: ", err_msg.as_str());
                assert(self.has_detail(err_msg@));
                text
            },
        }
    }

    /// The failure that stands for a server status: it keeps the status and
    /// says the diagnostic of it.
    pub fn from_status(status: tonic::Status) -> (error: Error)
        ensures
            error.is_server(status),
            error.spec_kind() == ErrorKind::Server,
            is_diagnostic_of(status, error.said()),
    {
        let msg = diagnostic(&status);
        Error::Server { status, msg }
    }
}

} // verus!
