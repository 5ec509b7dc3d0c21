use greptimedb_client::api::v1::{
    AffectedRows, AuthHeader, AuthScheme, Basic, ColumnDataType, DeleteRequest, DeleteRequests,
    GreptimeRequest, GreptimeResponse, InsertRequest, InsertRequests, Request, RequestHeader,
    Response, Row, RowInsertRequest, RowInsertRequests, Rows, Token,
};
use greptimedb_client::database::{affected_rows, read_credential, read_dbname, resolve, to_rpc_request};
use greptimedb_client::helpers::schema::{field, tag, timestamp};
use greptimedb_client::helpers::values::{
    i32_value, string_value, timestamp_millisecond_value,
};
use greptimedb_client::{
    Client, CompressionEncoding, Database, Error, ErrorKind, DEFAULT_CATALOG_NAME,
    DEFAULT_SCHEMA_NAME, DEFAULT_STREAMING_INSERTER_BUFFER_SIZE,
};

fn weather_rows() -> RowInsertRequests {
    RowInsertRequests {
        inserts: vec![RowInsertRequest {
            table_name: "weather_demo".to_string(),
            rows: Some(Rows {
                schema: vec![
                    timestamp("ts", ColumnDataType::TimestampMillisecond),
                    tag("collector", ColumnDataType::String),
                    field("humidity", ColumnDataType::Int32),
                ],
                rows: vec![
                    Row {
                        values: vec![
                            timestamp_millisecond_value(1686109527000),
                            string_value("c1".to_string()),
                            i32_value(15),
                        ],
                    },
                    Row {
                        values: vec![
                            timestamp_millisecond_value(1686023127000),
                            string_value("c2".to_string()),
                            i32_value(67),
                        ],
                    },
                ],
            }),
        }],
    }
}

fn basic(username: &str, password: &str) -> AuthScheme {
    AuthScheme::Basic(Basic { username: username.to_string(), password: password.to_string() })
}

#[test]
fn default_names() {
    assert_eq!(DEFAULT_SCHEMA_NAME, "public");
    assert_eq!(DEFAULT_CATALOG_NAME, "greptime");
    assert_eq!(DEFAULT_STREAMING_INSERTER_BUFFER_SIZE, 1024);
}

#[test]
fn database_keeps_its_name() {
    let mut database = Database::new_with_dbname("public", Client::new());
    assert_eq!(database.dbname(), "public");
    database.set_dbname("metrics");
    assert_eq!(database.dbname(), "metrics");
    assert_eq!(Database::default().dbname(), "");
}

#[test]
fn envelope_without_credential() {
    let database = Database::new_with_dbname("public", Client::new());
    let sealed = database.to_rpc_request(Request::RowInserts(weather_rows()));
    assert_eq!(
        sealed,
        GreptimeRequest {
            header: Some(RequestHeader { authorization: None, dbname: "public".to_string() }),
            request: Some(Request::RowInserts(weather_rows())),
        }
    );
    assert_eq!(read_credential(&sealed), None);
    assert_eq!(read_dbname(&sealed), Some(&"public".to_string()));
}

#[test]
fn envelope_round_trip_with_basic_credential() {
    let mut database = Database::new_with_dbname("tenant-7", Client::new());
    database.set_auth(basic("user", "s3cret"));
    let sealed = database.to_rpc_request(Request::RowInserts(weather_rows()));
    assert_eq!(read_credential(&sealed), Some(&basic("user", "s3cret")));
    assert_eq!(read_dbname(&sealed), Some(&"tenant-7".to_string()));
    assert_eq!(sealed.request, Some(Request::RowInserts(weather_rows())));
    assert_eq!(
        sealed.header,
        Some(RequestHeader {
            authorization: Some(AuthHeader { auth_scheme: Some(basic("user", "s3cret")) }),
            dbname: "tenant-7".to_string(),
        })
    );
}

#[test]
fn envelope_round_trip_with_token() {
    let mut database = Database::new_with_dbname("", Client::new());
    let token = AuthScheme::Token(Token { token: "t0k3n".to_string() });
    database.set_auth(token.clone());
    let sealed = database.to_rpc_request(Request::Deletes(DeleteRequests { deletes: vec![] }));
    assert_eq!(read_credential(&sealed), Some(&token));
    assert_eq!(read_dbname(&sealed), Some(&"".to_string()));
}

#[test]
fn set_auth_replaces_the_credential() {
    let mut database = Database::new_with_dbname("public", Client::new());
    database.set_auth(basic("a", "b"));
    database.set_auth(basic("c", "d"));
    let sealed = database.to_rpc_request(Request::RowInserts(weather_rows()));
    assert_eq!(read_credential(&sealed), Some(&basic("c", "d")));
}

#[test]
fn free_envelope_function_seals_like_the_database() {
    let auth = Some(AuthHeader { auth_scheme: Some(basic("u", "p")) });
    let sealed = to_rpc_request(&auth, &"db".to_string(), Request::RowInserts(weather_rows()));
    assert_eq!(sealed.header, Some(RequestHeader { authorization: auth, dbname: "db".to_string() }));
    let empty = to_rpc_request(
        &Some(AuthHeader { auth_scheme: None }),
        &"db".to_string(),
        Request::RowInserts(weather_rows()),
    );
    assert_eq!(read_credential(&empty), None);
}

#[test]
fn reading_an_envelope_without_header() {
    let bare = GreptimeRequest { header: None, request: None };
    assert_eq!(read_credential(&bare), None);
    assert_eq!(read_dbname(&bare), None);
}

#[test]
fn calls_fail_without_a_peer() {
    let database = Database::new_with_dbname("public", Client::new());
    let failed = database.row_insert(weather_rows()).unwrap_err();
    assert!(matches!(
        &failed,
        Error::IllegalGrpcClientState { err_msg } if err_msg == "No available peer found"
    ));
    assert!(!failed.is_retriable());
    assert!(database.insert(vec![]).is_err());
    assert!(database.delete(DeleteRequests { deletes: vec![] }).is_err());
    assert!(database.handle(Request::RowInserts(weather_rows())).is_err());
    assert!(database.streaming_inserter().is_err());
    assert!(database.streaming_inserter_with_channel_size(8).is_err());
}

#[test]
fn row_insert_makes_the_call_to_a_peer() {
    let mut database = Database::new_with_dbname("public", Client::with_urls(&["db:4001"]));
    database.set_auth(basic("user", "pw"));
    let call = database.row_insert(weather_rows()).unwrap();
    assert_eq!(call.client.addr, "db:4001");
    assert_eq!(call.client.uri, "http://db:4001");
    assert_eq!(call.client.max_decoding_message_size, 536870912);
    assert_eq!(call.client.send_compressed, Some(CompressionEncoding::Gzip));
    assert_eq!(call.request, database.to_rpc_request(Request::RowInserts(weather_rows())));
    assert_eq!(call.request.request, Some(Request::RowInserts(weather_rows())));
    assert_eq!(read_credential(&call.request), Some(&basic("user", "pw")));
}

#[test]
fn insert_and_delete_make_calls_with_their_payload() {
    let database = Database::new_with_dbname("public", Client::with_urls(&["db:4001"]));
    let inserts = vec![InsertRequest {
        table_name: "t".to_string(),
        columns: vec![greptime_proto::v1::Column {
            column_name: "c".to_string(),
            ..Default::default()
        }],
        row_count: 0,
    }];
    let call = database.insert(inserts.clone()).unwrap();
    assert_eq!(call.request.request, Some(Request::Inserts(InsertRequests { inserts })));
    let deletes = DeleteRequests {
        deletes: vec![DeleteRequest {
            table_name: "t".to_string(),
            key_columns: vec![],
            row_count: 2,
        }],
    };
    let call = database.delete(deletes.clone()).unwrap();
    assert_eq!(call.request.request, Some(Request::Deletes(deletes)));
    assert_eq!(read_dbname(&call.request), Some(&"public".to_string()));
}

#[test]
fn affected_rows_of_a_response() {
    let response =
        GreptimeResponse { response: Some(Response::AffectedRows(AffectedRows { value: 3 })) };
    assert_eq!(affected_rows(response).unwrap(), 3);
    let zero =
        GreptimeResponse { response: Some(Response::AffectedRows(AffectedRows { value: 0 })) };
    assert_eq!(affected_rows(zero).unwrap(), 0);
    let most = GreptimeResponse {
        response: Some(Response::AffectedRows(AffectedRows { value: u32::MAX })),
    };
    assert_eq!(affected_rows(most).unwrap(), u32::MAX);
}

#[test]
fn empty_response_is_a_failure_not_zero() {
    let failed = affected_rows(GreptimeResponse { response: None }).unwrap_err();
    assert!(matches!(
        &failed,
        Error::IllegalDatabaseResponse { err_msg } if err_msg == "GreptimeResponse is empty"
    ));
    assert_eq!(failed.kind(), ErrorKind::ProtocolViolation);
    assert!(!failed.is_retriable());
    assert_eq!(failed.message(), "Illegal Database response: GreptimeResponse is empty");
}

#[test]
fn resolve_a_reply() {
    let response =
        GreptimeResponse { response: Some(Response::AffectedRows(AffectedRows { value: 42 })) };
    assert_eq!(resolve(Ok(response)).unwrap(), 42);
    assert!(matches!(
        resolve(Ok(GreptimeResponse { response: None })),
        Err(Error::IllegalDatabaseResponse { .. })
    ));
    let failed = resolve(Err(tonic::Status::new(tonic::Code::Unavailable, "down"))).unwrap_err();
    assert_eq!(failed.kind(), ErrorKind::Server);
    match failed {
        Error::Server { status, msg } => {
            assert_eq!(status.code(), tonic::Code::Unavailable);
            assert!(msg.contains("down"));
        }
        other => panic!("unexpected error {:?}", other),
    }
}

#[test]
fn streaming_inserter_opens_at_a_peer() {
    let mut database = Database::new_with_dbname("public", Client::with_urls(&["db:4001"]));
    database.set_auth(basic("user", "pw"));
    let session = database.streaming_inserter().unwrap();
    assert_eq!(session.capacity(), 1024);
    assert_eq!(session.pending_len(), 0);
    assert!(session.is_running());
    assert!(!session.is_closing());
    assert_eq!(session.client().addr, "db:4001");
    let small = database.streaming_inserter_with_channel_size(2).unwrap();
    assert_eq!(small.capacity(), 2);
}
