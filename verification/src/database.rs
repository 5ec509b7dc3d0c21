//! Writes to one database: the envelope of a request and the reading of the
//! answer.

use vstd::prelude::*;
use crate::api::v1::{
    AuthHeader, AuthScheme, DeleteRequests, GreptimeRequest, GreptimeResponse, InsertRequest,
    InsertRequests, Request, RequestHeader, Response, RowInsertRequests,
};
use crate::client::{no_peer_message, Client, Compression, DatabaseClient};
use crate::load_balance::Loadbalancer;
use crate::error::{is_diagnostic_of, Error};
use crate::stream_insert::StreamInsertor;

verus! {

/// The catalog that a database lies in, unless told otherwise.
pub const DEFAULT_CATALOG_NAME: &'static str = "greptime";

/// The database that is written to, unless told otherwise.
pub const DEFAULT_SCHEMA_NAME: &'static str = "public";

/// Number of messages that a streaming session holds at most, unless told
/// otherwise.
pub const DEFAULT_STREAMING_INSERTER_BUFFER_SIZE: usize = 1024;

/// The header of every request of a session that writes to `dbname` in the
/// name of `auth_header`.
pub open spec fn header_of(auth_header: Option<AuthHeader>, dbname: String) -> RequestHeader {
    RequestHeader { authorization: auth_header, dbname }
}

/// The envelope of a payload: the header of the session and the payload.
pub open spec fn envelope(
    auth_header: Option<AuthHeader>,
    dbname: String,
    request: Request,
) -> GreptimeRequest {
    GreptimeRequest { header: Some(header_of(auth_header, dbname)), request: Some(request) }
}

/// The credential that an envelope carries, as its receiver reads it.
pub open spec fn credential_of(request: GreptimeRequest) -> Option<AuthScheme> {
    match request.header {
        Some(header) => match header.authorization {
            Some(auth_header) => auth_header.auth_scheme,
            None => None,
        },
        None => None,
    }
}

/// The database that an envelope names, as its receiver reads it.
pub open spec fn dbname_of(request: GreptimeRequest) -> Option<String> {
    match request.header {
        Some(header) => Some(header.dbname),
        None => None,
    }
}

/// Reads the credential of an envelope.
pub fn read_credential(request: &GreptimeRequest) -> (credential: Option<&AuthScheme>)
    ensures
        match credential {
            Some(scheme) => credential_of(*request) == Some(*scheme),
            None => credential_of(*request) is None,
        },
{
    match &request.header {
        Some(header) => match &header.authorization {
            Some(auth_header) => match &auth_header.auth_scheme {
                Some(scheme) => Some(scheme),
                None => None,
            },
            None => None,
        },
        None => None,
    }
}

/// Reads the database name of an envelope.
pub fn read_dbname(request: &GreptimeRequest) -> (dbname: Option<&String>)
    ensures
        match dbname {
            Some(name) => dbname_of(*request) == Some(*name),
            None => dbname_of(*request) is None,
        },
{
    match &request.header {
        Some(header) => Some(&header.dbname),
        None => None,
    }
}

/// Puts a payload in its envelope.
pub fn to_rpc_request(auth_header: &Option<AuthHeader>, dbname: &String, request: Request) -> (sealed:
    GreptimeRequest)
    ensures
        sealed == envelope(*auth_header, *dbname, request),
{
    let authorization = match auth_header {
        Some(header) => Some(header.clone()),
        None => None,
    };
    GreptimeRequest {
        header: Some(RequestHeader { authorization, dbname: dbname.clone() }),
        request: Some(request),
    }
}

/// What is put in an envelope is what is read from it: the credential, the
/// database name and the payload cross unchanged.
pub proof fn lemma_envelope_round_trip(
    auth_header: Option<AuthHeader>,
    dbname: String,
    request: Request,
)
    ensures
        credential_of(envelope(auth_header, dbname, request)) == match auth_header {
            Some(header) => header.auth_scheme,
            None => None,
        },
        dbname_of(envelope(auth_header, dbname, request)) == Some(dbname),
        envelope(auth_header, dbname, request).request == Some(request),
{
}

/// The text of the failure to find a payload in a response.
pub open spec fn empty_response_message() -> Seq<char> {
    "GreptimeResponse is empty"@
}

/// Number of rows that a response reports, if it reports any.
pub open spec fn spec_affected_rows(response: GreptimeResponse) -> Option<u32> {
    match response.response {
        Some(Response::AffectedRows(rows)) => Some(rows.value),
        None => None,
    }
}

/// Number of rows that a response reports. A response without a payload is a
/// failure, never a count of zero.
pub fn affected_rows(response: GreptimeResponse) -> (rows: Result<u32, Error>)
    ensures
        match spec_affected_rows(response) {
            Some(value) => rows == Ok::<u32, Error>(value),
            None => rows matches Err(error) && error.is_illegal_response(
                empty_response_message(),
            ),
        },
{
    match response.response {
        Some(Response::AffectedRows(rows)) => Ok(rows.value),
        None => Err(
            Error::IllegalDatabaseResponse { err_msg: "GreptimeResponse is empty".to_owned() },
        ),
    }
}

/// What a call comes to: the count of the response, or the failure that
/// stands for the status of the transport.
pub fn resolve(reply: Result<GreptimeResponse, tonic::Status>) -> (rows: Result<u32, Error>)
    ensures
        match reply {
            Ok(response) => match spec_affected_rows(response) {
                Some(value) => rows == Ok::<u32, Error>(value),
                None => rows matches Err(error) && error.is_illegal_response(
                    empty_response_message(),
                ),
            },
            Err(status) => rows matches Err(error) && error.is_server(status)
                && is_diagnostic_of(status, error.said()),
        },
{
    match reply {
        Ok(response) => affected_rows(response),
        Err(status) => Err(Error::from_status(status)),
    }
}

/// One call to make: the envelope to send, and what it takes to send it.
#[derive(Clone, Debug, PartialEq)]
pub struct UnaryCall {
    pub client: DatabaseClient,
    pub request: GreptimeRequest,
}

/// A database at the peers of a client.
#[derive(Clone, Debug)]
pub struct Database {
    // The dbname follows naming rule as out mysql, postgres and http
    // protocol. The server treat dbname in priority of catalog/schema.
    dbname: String,
    client: Client,
    auth_header: Option<AuthHeader>,
}

impl Default for Database {
    /// The database without a name at a client that knows no peer.
    fn default() -> (database: Database)
        ensures
            database.spec_dbname()@.len() == 0,
            database.spec_auth_header() is None,
            database.spec_client().spec_channel_manager().is_plain_default(),
            database.spec_client().spec_load_balance() == Loadbalancer::Random(
                crate::load_balance::Random,
            ),
            database.spec_client().spec_compression() == Compression::Gzip,
            database.spec_client().spec_first_peers().len() == 0,
    {
        Database { dbname: String::new(), client: Client::new(), auth_header: None }
    }
}

impl Database {
    pub closed spec fn spec_dbname(&self) -> String {
        self.dbname
    }

    pub closed spec fn spec_client(&self) -> Client {
        self.client
    }

    pub closed spec fn spec_auth_header(&self) -> Option<AuthHeader> {
        self.auth_header
    }

    /// Whether `client` is what it takes to talk to a peer of this database's
    /// client.
    pub open spec fn is_client(&self, client: DatabaseClient) -> bool {
        self.spec_client().is_client_at(client, client.addr@)
    }

    /// Whether `opened` is a session newly opened for this database, with a
    /// queue of `capacity` slots.
    pub open spec fn is_new_session(&self, opened: StreamInsertor, capacity: nat) -> bool {
        &&& opened.wf()
        &&& self.is_client(opened.spec_client())
        &&& opened.spec_dbname() == self.spec_dbname()
        &&& opened.spec_auth_header() == self.spec_auth_header()
        &&& opened.spec_capacity() == capacity
        &&& opened.sent().len() == 0
        &&& opened.forwarded().len() == 0
        &&& opened.pending().len() == 0
        &&& opened.is_open()
    }

    /// The database `dbname` at the peers of `client`, with no credential yet.
    pub fn new_with_dbname(dbname: &str, client: Client) -> (database: Database)
        ensures
            database.spec_dbname()@ == dbname@,
            database.spec_client() == client,
            database.spec_auth_header() is None,
    {
        Database { dbname: dbname.to_owned(), client, auth_header: None }
    }

    /// The client whose peers this database is at.
    pub fn client(&self) -> (client: &Client)
        ensures
            *client == self.spec_client(),
    {
        &self.client
    }

    /// Get associated dbname of this client
    pub fn dbname(&self) -> (dbname: &String)
        ensures
            *dbname == self.spec_dbname(),
    {
        &self.dbname
    }

    /// Update dbname of this client
    pub fn set_dbname(&mut self, dbname: &str)
        ensures
            final(self).spec_dbname()@ == dbname@,
            final(self).spec_client() == old(self).spec_client(),
            final(self).spec_auth_header() == old(self).spec_auth_header(),
    {
        self.dbname = dbname.to_owned();
    }

    /// Set authentication information
    pub fn set_auth(&mut self, auth: AuthScheme)
        ensures
            final(self).spec_auth_header() == Some((AuthHeader { auth_scheme: Some(auth) })),
            final(self).spec_dbname() == old(self).spec_dbname(),
            final(self).spec_client() == old(self).spec_client(),
    {
        self.auth_header = Some(AuthHeader { auth_scheme: Some(auth) });
    }

    /// Puts a payload in the envelope of this database.
    pub fn to_rpc_request(&self, request: Request) -> (sealed: GreptimeRequest)
        ensures
            sealed == envelope(self.spec_auth_header(), self.spec_dbname(), request),
    {
        to_rpc_request(&self.auth_header, &self.dbname, request)
    }

    /// The call that sends `request` through `client`.
    pub fn call_through(&self, client: DatabaseClient, request: Request) -> (call: UnaryCall)
        ensures
            call.client == client,
            call.request == envelope(self.spec_auth_header(), self.spec_dbname(), request),
    {
        UnaryCall { client, request: self.to_rpc_request(request) }
    }

    /// The call that writes `request`: to a peer selected now, with the
    /// envelope of this database. Fails only where no peer was found.
    pub fn handle(&self, request: Request) -> (call: Result<UnaryCall, Error>)
        ensures
            call matches Ok(made) ==> self.is_client(made.client) && made.request == envelope(
                self.spec_auth_header(),
                self.spec_dbname(),
                request,
            ),
            call matches Err(error) ==> error.is_illegal_state(no_peer_message()),
    {
        match self.client.make_database_client() {
            Ok(client) => Ok(self.call_through(client, request)),
            Err(error) => Err(error),
        }
    }

    /// The call that writes column-oriented inserts.
    pub fn insert(&self, requests: Vec<InsertRequest>) -> (call: Result<UnaryCall, Error>)
        ensures
            call matches Ok(made) ==> self.is_client(made.client) && made.request == envelope(
                self.spec_auth_header(),
                self.spec_dbname(),
                Request::Inserts((InsertRequests { inserts: requests })),
            ),
            call matches Err(error) ==> error.is_illegal_state(no_peer_message()),
    {
        self.handle(Request::Inserts(InsertRequests { inserts: requests }))
    }

    /// The call that writes row-oriented inserts.
    pub fn row_insert(&self, requests: RowInsertRequests) -> (call: Result<UnaryCall, Error>)
        ensures
            call matches Ok(made) ==> self.is_client(made.client) && made.request == envelope(
                self.spec_auth_header(),
                self.spec_dbname(),
                Request::RowInserts(requests),
            ),
            call matches Err(error) ==> error.is_illegal_state(no_peer_message()),
    {
        self.handle(Request::RowInserts(requests))
    }

    /// The call that deletes rows.
    pub fn delete(&self, request: DeleteRequests) -> (call: Result<UnaryCall, Error>)
        ensures
            call matches Ok(made) ==> self.is_client(made.client) && made.request == envelope(
                self.spec_auth_header(),
                self.spec_dbname(),
                Request::Deletes(request),
            ),
            call matches Err(error) ==> error.is_illegal_state(no_peer_message()),
    {
        self.handle(Request::Deletes(request))
    }

    /// Initialise a streaming insert handle, using default buffer size `1024`
    pub fn streaming_inserter(&self) -> (session: Result<StreamInsertor, Error>)
        ensures
            session matches Ok(opened) ==> self.is_new_session(
                opened,
                DEFAULT_STREAMING_INSERTER_BUFFER_SIZE as nat,
            ),
            session matches Err(error) ==> error.is_illegal_state(no_peer_message()),
    {
        self.streaming_inserter_with_channel_size(DEFAULT_STREAMING_INSERTER_BUFFER_SIZE)
    }

    /// Initialise a stream insert handle using custom buffer size
    ///
    /// The stream insert mechanism uses gRPC client streaming to reduce latency
    /// for each write. It is recommended if you have a batch of inserts and do
    /// not need intermediate results.
    pub fn streaming_inserter_with_channel_size(&self, channel_size: usize) -> (session: Result<
        StreamInsertor,
        Error,
    >)
        requires
            channel_size > 0,
        ensures
            session matches Ok(opened) ==> self.is_new_session(opened, channel_size as nat),
            session matches Err(error) ==> error.is_illegal_state(no_peer_message()),
    {
        match self.client.make_database_client() {
            Ok(client) => {
                let auth_header = match &self.auth_header {
                    Some(header) => Some(header.clone()),
                    None => None,
                };
                Ok(StreamInsertor::new(client, self.dbname.clone(), auth_header, channel_size))
            },
            Err(error) => Err(error),
        }
    }
}

} // verus!
