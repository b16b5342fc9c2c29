use bevy_firebase::bridge::{
    complete, create_document_event_handler, delete_document_event_handler, issue,
    read_document_event_handler, run_query_event_handler, update_document_event_handler,
    CreateDocumentEvent, CreateDocumentResponseEvent, DeleteDocumentEvent,
    DeleteDocumentResponseEvent, PendingOperation, QueryResponseEvent, ReadDocumentEvent,
    ReadDocumentResponseEvent, RunQueryEvent, RunQueryResponse, StoreCall, StoreOutcome,
    StoreRequest, StoreResponse, UpdateDocumentEvent, UpdateDocumentResponseEvent,
};
use bevy_firebase::document::{
    write_database_path, write_document_name, write_documents_root, write_query_parent, Document,
    Fields, Status, Value, ValueType,
};
use bevy_firebase::store::{
    add_listener, assemble_client, client_step, create_client, create_document, delete_document, init, logged_in,
    read_document, run_query, update_document, ClientTrigger, Endpoint, FirestorePlugin,
    FirestoreState, QueryDirection,
};
use bevy_firebase::stream::{
    create_listener_event_handler, drain_query, listener_step, CreateListenerEvent, DrainStep,
    ListenResponse, ListenerStep, QueryDrain, ResponseType,
};

fn integer(n: i64) -> Value {
    Value { value_type: Some(ValueType::IntegerValue(n)) }
}

fn score_fields(score: i64) -> Fields {
    let mut fields = Fields::new();
    fields.insert("score".to_string(), integer(score));
    fields
}

fn scored(name: &str, score: i64) -> RunQueryResponse {
    RunQueryResponse {
        document: Some(Document { name: name.to_string(), fields: score_fields(score) }),
        continuation_selector: None,
    }
}

fn unavailable() -> Status {
    Status { code: 14, message: "transport error".to_string() }
}

const ALL_CLIENT_STATES: [FirestoreState; 4] = [
    FirestoreState::Start,
    FirestoreState::Init,
    FirestoreState::CreateClient,
    FirestoreState::Ready,
];

#[test]
fn resource_paths() {
    assert_eq!(write_database_path("p1"), "projects/p1/databases/(default)");
    assert_eq!(write_documents_root("p1"), "projects/p1/databases/(default)/documents");
    assert_eq!(
        write_document_name("p1", "lobbies/u1"),
        "projects/p1/databases/(default)/documents/lobbies/u1"
    );
    assert_eq!(write_query_parent("p1", ""), "projects/p1/databases/(default)/documents");
    assert_eq!(
        write_query_parent("p1", "lobbies/u1"),
        "projects/p1/databases/(default)/documents/lobbies/u1"
    );
}

#[test]
fn fields_keep_one_value_for_each_name() {
    let mut fields = Fields::new();
    assert_eq!(fields.len(), 0);
    fields.insert("a".to_string(), integer(1));
    fields.insert("b".to_string(), integer(2));
    fields.insert("a".to_string(), integer(3));
    assert_eq!(fields.len(), 2);
    assert_eq!(fields.keys(), vec!["a".to_string(), "b".to_string()]);
    assert_eq!(fields.get(&"a".to_string()), Some(&integer(3)));
    assert_eq!(fields.get(&"b".to_string()), Some(&integer(2)));
    assert_eq!(fields.get(&"c".to_string()), None);
}

#[test]
fn client_state_starts_at_start() {
    assert_eq!(FirestoreState::default(), FirestoreState::Start);
    assert_eq!(FirestorePlugin::default().emulator_url, None);
}

#[test]
fn client_goes_from_login_to_ready() {
    let mut state = FirestoreState::default();
    state = client_step(state, ClientTrigger::LoggedIn);
    assert_eq!(state, FirestoreState::Init);
    assert_eq!(state, logged_in());
    state = client_step(state, ClientTrigger::Advance);
    assert_eq!(state, FirestoreState::CreateClient);
    assert_eq!(state, init());
    state = client_step(state, ClientTrigger::Advance);
    assert_eq!(state, FirestoreState::CreateClient);
    state = client_step(state, ClientTrigger::ClientCreated);
    assert_eq!(state, FirestoreState::Ready);
    state = client_step(state, ClientTrigger::ClientCreated);
    assert_eq!(state, FirestoreState::Ready);
}

#[test]
fn client_triggers_that_do_not_fit_change_nothing() {
    for state in ALL_CLIENT_STATES {
        assert_eq!(client_step(state, ClientTrigger::LoggedIn), FirestoreState::Init);
        if state != FirestoreState::Init {
            assert_eq!(client_step(state, ClientTrigger::Advance), state);
        }
        if state != FirestoreState::CreateClient {
            assert_eq!(client_step(state, ClientTrigger::ClientCreated), state);
        }
    }
}

#[test]
fn client_for_the_store_uses_tls() {
    let config = create_client("Ftok", "p1", &None).unwrap();
    match config.endpoint {
        Endpoint::Tls { uri, domain_name } => {
            assert_eq!(uri, "https://firestore.googleapis.com");
            assert_eq!(domain_name, "firestore.googleapis.com");
        }
        other => panic!("unexpected {:?}", other),
    }
    assert_eq!(config.interceptor.bearer_token, "Bearer Ftok");
    assert_eq!(config.interceptor.db, "projects/p1/databases/(default)");
    assert_eq!(
        config.interceptor.headers(),
        vec![
            ("authorization".to_string(), "Bearer Ftok".to_string()),
            (
                "google-cloud-resource-prefix".to_string(),
                "projects/p1/databases/(default)".to_string()
            ),
        ]
    );
}

#[test]
fn client_for_the_emulator_uses_a_plain_channel() {
    let config = create_client("Ftok", "p1", &Some("http://127.0.0.1:8080".to_string())).unwrap();
    match config.endpoint {
        Endpoint::Plain { uri } => assert_eq!(uri, "http://127.0.0.1:8080"),
        other => panic!("unexpected {:?}", other),
    }
}

#[test]
fn client_needs_values_that_can_stand_in_a_header() {
    assert!(create_client("F\ntok", "p1", &None).is_none());
    assert!(create_client("Ftok", "p\r1", &None).is_none());
    assert!(create_client("F\u{7f}tok", "p1", &None).is_none());
    assert!(create_client("F\u{0}tok", "p1", &None).is_none());
    assert!(create_client("F\ttok", "p 1", &None).is_some());
    assert!(create_client("F\u{e9}tok", "p1", &None).is_some());
    assert!(create_client("", "", &None).is_some());
}

#[test]
fn client_is_assembled_only_from_accepted_values() {
    let bearer = || "Bearer t".to_string();
    let db = || "projects/p/databases/(default)".to_string();
    assert!(assemble_client(bearer(), false, db(), true, &None).is_none());
    assert!(assemble_client(bearer(), true, db(), false, &None).is_none());
    assert!(assemble_client(bearer(), false, db(), false, &None).is_none());
    let config = assemble_client(bearer(), true, db(), true, &None).unwrap();
    assert_eq!(config.interceptor.bearer_token, bearer());
    assert_eq!(config.interceptor.db, db());
    assert!(matches!(config.endpoint, Endpoint::Tls { .. }));
}

#[test]
fn create_call_names_parent_collection_and_document() {
    let call = create_document("p1", "u1", "lobbies", score_fields(69));
    assert_eq!(call.parent, "projects/p1/databases/(default)/documents");
    assert_eq!(call.collection_id, "lobbies");
    assert_eq!(call.document_id, "u1");
    assert_eq!(call.fields, score_fields(69));
}

#[test]
fn update_mask_is_the_key_set_of_the_fields() {
    let call = update_document("p1", "lobbies/u1", score_fields(5));
    assert_eq!(call.name, "projects/p1/databases/(default)/documents/lobbies/u1");
    assert_eq!(call.field_paths, vec!["score".to_string()]);
    assert_eq!(call.fields, score_fields(5));

    let mut fields = Fields::new();
    fields.insert("score".to_string(), integer(1));
    fields.insert("name".to_string(), Value { value_type: Some(ValueType::StringValue("x".to_string())) });
    fields.insert("score".to_string(), integer(2));
    let call = update_document("p1", "lobbies/u1", fields);
    assert_eq!(call.field_paths, vec!["score".to_string(), "name".to_string()]);

    let call = update_document("p1", "lobbies/u1", Fields::new());
    assert!(call.field_paths.is_empty());
}

#[test]
fn read_and_delete_calls_name_the_document() {
    assert_eq!(
        read_document("p1", "lobbies/u1").name,
        "projects/p1/databases/(default)/documents/lobbies/u1"
    );
    assert_eq!(
        delete_document("p1", "lobbies/u1").name,
        "projects/p1/databases/(default)/documents/lobbies/u1"
    );
}

#[test]
fn direction_codes() {
    assert_eq!(QueryDirection::Unspecified.to_code(), 0);
    assert_eq!(QueryDirection::Ascending.to_code(), 1);
    assert_eq!(QueryDirection::Descending.to_code(), 2);
}

#[test]
fn query_call_carries_limit_and_order() {
    let call = run_query("p1", "", "scores", Some(10), "score", QueryDirection::Descending);
    assert_eq!(call.parent, "projects/p1/databases/(default)/documents");
    assert_eq!(call.collection_id, "scores");
    assert!(!call.all_descendants);
    assert_eq!(call.limit, Some(10));
    assert_eq!(call.order_field, "score");
    assert_eq!(call.direction, 2);
    let nested = run_query("p1", "lobbies/u1", "scores", None, "name", QueryDirection::Ascending);
    assert_eq!(nested.parent, "projects/p1/databases/(default)/documents/lobbies/u1");
    assert_eq!(nested.limit, None);
    assert_eq!(nested.direction, 1);
}

#[test]
fn listen_call_names_one_document() {
    let call = add_listener("p1", "lobbies/u1");
    assert_eq!(call.database, "projects/p1/databases/(default)");
    assert_eq!(call.target_id, 0x52757374);
    assert!(!call.once);
    assert_eq!(
        call.documents,
        vec!["projects/p1/databases/(default)/documents/lobbies/u1".to_string()]
    );
}

#[test]
fn handlers_keep_the_correlation_id() {
    let create = create_document_event_handler(
        "p1",
        CreateDocumentEvent {
            document_id: "u1".to_string(),
            collection_id: "lobbies".to_string(),
            document_data: score_fields(1),
            id: 11,
        },
    );
    assert_eq!(create.id, 11);
    assert_eq!(create.call, StoreCall::Create(create_document("p1", "u1", "lobbies", score_fields(1))));
    let update = update_document_event_handler(
        "p1",
        UpdateDocumentEvent { document_path: "lobbies/u1".to_string(), document_data: score_fields(2), id: 12 },
    );
    assert_eq!(update.id, 12);
    assert_eq!(update.call, StoreCall::Update(update_document("p1", "lobbies/u1", score_fields(2))));
    let read = read_document_event_handler(
        "p1",
        ReadDocumentEvent { document_path: "lobbies/u1".to_string(), id: 13 },
    );
    assert_eq!(read.id, 13);
    assert_eq!(read.call, StoreCall::Get(read_document("p1", "lobbies/u1")));
    let delete = delete_document_event_handler(
        "p1",
        DeleteDocumentEvent { document_path: "lobbies/u1".to_string(), id: 14 },
    );
    assert_eq!(delete.id, 14);
    assert_eq!(delete.call, StoreCall::Delete(delete_document("p1", "lobbies/u1")));
    let query = run_query_event_handler(
        "p1",
        RunQueryEvent {
            parent: String::new(),
            collection_id: "scores".to_string(),
            limit: Some(10),
            order_by: ("score".to_string(), QueryDirection::Descending),
            id: 1337,
        },
    );
    assert_eq!(query.id, 1337);
    assert_eq!(
        query.call,
        StoreCall::RunQuery(run_query("p1", "", "scores", Some(10), "score", QueryDirection::Descending))
    );
}

fn read_request(id: usize) -> StoreRequest {
    StoreRequest::Read(ReadDocumentEvent { document_path: "lobbies/u1".to_string(), id })
}

#[test]
fn requests_are_dropped_until_the_client_is_ready() {
    for state in ALL_CLIENT_STATES {
        let pending = issue(state, "p1", read_request(5));
        assert_eq!(pending.is_some(), state == FirestoreState::Ready);
    }
}

#[test]
fn every_kind_of_answer_carries_the_id_of_its_request() {
    let document = || Document { name: "n".to_string(), fields: score_fields(1) };
    let requests = vec![
        (
            StoreRequest::Create(CreateDocumentEvent {
                document_id: "u1".to_string(),
                collection_id: "lobbies".to_string(),
                document_data: score_fields(1),
                id: 0,
            }),
            StoreOutcome::Document(Ok(document())),
            0usize,
        ),
        (
            StoreRequest::Update(UpdateDocumentEvent {
                document_path: "lobbies/u1".to_string(),
                document_data: score_fields(2),
                id: 2,
            }),
            StoreOutcome::Document(Err(unavailable())),
            2,
        ),
        (read_request(usize::MAX), StoreOutcome::Document(Ok(document())), usize::MAX),
        (
            StoreRequest::Delete(DeleteDocumentEvent { document_path: "lobbies/u1".to_string(), id: 3 }),
            StoreOutcome::Deleted(Ok(())),
            3,
        ),
        (
            StoreRequest::Query(RunQueryEvent {
                parent: String::new(),
                collection_id: "scores".to_string(),
                limit: None,
                order_by: ("score".to_string(), QueryDirection::Ascending),
                id: 1337,
            }),
            StoreOutcome::Query(Ok(vec![scored("a", 1)])),
            1337,
        ),
    ];
    for (request, outcome, id) in requests {
        let pending = issue(FirestoreState::Ready, "p1", request).unwrap();
        assert_eq!(pending.id, id);
        let response = complete(&pending, outcome).unwrap();
        assert_eq!(response.correlation_id(), id);
    }
}

#[test]
fn answers_hand_the_outcome_back() {
    let pending = issue(FirestoreState::Ready, "p1", read_request(8)).unwrap();
    let document = Document { name: "n".to_string(), fields: score_fields(9) };
    match complete(&pending, StoreOutcome::Document(Ok(document))) {
        Some(StoreResponse::Read(event)) => {
            assert_eq!(event.id, 8);
            assert_eq!(event.result, Ok(Document { name: "n".to_string(), fields: score_fields(9) }));
        }
        other => panic!("unexpected {:?}", other),
    }
    match complete(&pending, StoreOutcome::Document(Err(unavailable()))) {
        Some(StoreResponse::Read(event)) => {
            assert_eq!(event.id, 8);
            assert_eq!(event.result, Err(unavailable()));
        }
        other => panic!("unexpected {:?}", other),
    }
}

#[test]
fn outcome_of_another_kind_gives_no_answer() {
    let read = issue(FirestoreState::Ready, "p1", read_request(8)).unwrap();
    assert_eq!(complete(&read, StoreOutcome::Deleted(Ok(()))), None);
    assert_eq!(complete(&read, StoreOutcome::Query(Ok(Vec::new()))), None);
    let delete = PendingOperation { call: StoreCall::Delete(delete_document("p1", "a/b")), id: 1 };
    assert_eq!(complete(&delete, StoreOutcome::Document(Err(unavailable()))), None);
    assert_eq!(
        complete(&delete, StoreOutcome::Deleted(Err(unavailable()))),
        Some(StoreResponse::Delete(DeleteDocumentResponseEvent { result: Err(unavailable()), id: 1 }))
    );
}

#[test]
fn response_events_are_built_from_result_and_id() {
    let document = || Document { name: "n".to_string(), fields: Fields::new() };
    assert_eq!(
        CreateDocumentResponseEvent::new(Ok(document()), 1),
        CreateDocumentResponseEvent { result: Ok(document()), id: 1 }
    );
    assert_eq!(
        UpdateDocumentResponseEvent::new(Err(unavailable()), 2),
        UpdateDocumentResponseEvent { result: Err(unavailable()), id: 2 }
    );
    assert_eq!(
        ReadDocumentResponseEvent::new(Ok(document()), 3),
        ReadDocumentResponseEvent { result: Ok(document()), id: 3 }
    );
    assert_eq!(
        DeleteDocumentResponseEvent::new(Ok(()), 4),
        DeleteDocumentResponseEvent { result: Ok(()), id: 4 }
    );
    assert_eq!(
        QueryResponseEvent::new(Ok(Vec::new()), 5),
        QueryResponseEvent { query_response: Ok(Vec::new()), id: 5 }
    );
}

#[test]
fn query_of_ten_documents_in_descending_order() {
    let call = run_query("p1", "", "scores", Some(10), "score", QueryDirection::Descending);
    assert_eq!(call.limit, Some(10));
    assert_eq!(call.direction, QueryDirection::Descending.to_code());
    let mut streamed = Vec::new();
    let mut score: i64 = 15;
    while score > 5 {
        streamed.push(Ok(scored("d", score)));
        score -= 1;
    }
    let all = drain_query(streamed).unwrap();
    assert_eq!(all.len(), 10);
    assert!(all.len() <= 10);
    let mut expected: i64 = 15;
    for message in &all {
        assert_eq!(message.document.as_ref().unwrap().fields, score_fields(expected));
        expected -= 1;
    }
}

#[test]
fn failure_in_mid_stream_drops_what_came_before() {
    let streamed = vec![Ok(scored("a", 3)), Ok(scored("b", 2)), Err(unavailable()), Ok(scored("c", 1))];
    assert_eq!(drain_query(streamed), Err(unavailable()));
    assert_eq!(drain_query(vec![Err(unavailable())]), Err(unavailable()));
}

#[test]
fn marker_ends_the_query_with_its_message() {
    let done = RunQueryResponse { document: None, continuation_selector: Some(true) };
    let streamed = vec![
        Ok(scored("a", 3)),
        Ok(RunQueryResponse { document: None, continuation_selector: Some(true) }),
        Err(unavailable()),
    ];
    assert_eq!(drain_query(streamed), Ok(vec![scored("a", 3), done]));
}

#[test]
fn empty_stream_is_an_empty_answer() {
    assert_eq!(drain_query(Vec::new()), Ok(Vec::new()));
}

#[test]
fn drain_takes_one_item_at_a_time() {
    let drain = QueryDrain::new();
    assert!(drain.responses.is_empty());
    let drain = match drain.take(Some(Ok(scored("a", 1)))) {
        DrainStep::Continue(drain) => drain,
        other => panic!("unexpected {:?}", other),
    };
    assert_eq!(drain.responses, vec![scored("a", 1)]);
    match drain.take(None) {
        DrainStep::Finished(response) => assert_eq!(response, Ok(vec![scored("a", 1)])),
        other => panic!("unexpected {:?}", other),
    }
    let drain = QueryDrain { responses: vec![scored("a", 1)] };
    match drain.take(Some(Err(unavailable()))) {
        DrainStep::Finished(response) => assert_eq!(response, Err(unavailable())),
        other => panic!("unexpected {:?}", other),
    }
    let drain = QueryDrain { responses: vec![scored("a", 1)] };
    let last = || RunQueryResponse { document: None, continuation_selector: Some(false) };
    match drain.take(Some(Ok(last()))) {
        DrainStep::Finished(response) => assert_eq!(response, Ok(vec![scored("a", 1), last()])),
        other => panic!("unexpected {:?}", other),
    }
}

#[test]
fn listener_is_opened_under_its_label() {
    let subscription = create_listener_event_handler(
        "p1",
        CreateListenerEvent { target: "lobbies/u1".to_string(), label: "test".to_string() },
    );
    assert_eq!(subscription.label, "test");
    assert_eq!(subscription.request, add_listener("p1", "lobbies/u1"));
}

#[test]
fn every_change_is_handed_on_under_the_label() {
    let label = "test".to_string();
    let changes = vec![
        ResponseType::TargetChange(1),
        ResponseType::DocumentChange(Document {
            name: "projects/p1/databases/(default)/documents/lobbies/u1".to_string(),
            fields: score_fields(420),
        }),
        ResponseType::DocumentDelete("projects/p1/databases/(default)/documents/lobbies/u1".to_string()),
        ResponseType::DocumentRemove("x".to_string()),
        ResponseType::Filter(0),
    ];
    let mut seen = 0;
    for change in changes {
        let expected = format!("{:?}", change);
        match listener_step(&label, Some(Ok(ListenResponse { response_type: Some(change) }))) {
            ListenerStep::Emit(event) => {
                assert_eq!(event.label, "test");
                assert_eq!(format!("{:?}", event.msg.response_type.unwrap()), expected);
                seen += 1;
            }
            other => panic!("unexpected {:?}", other),
        }
    }
    assert_eq!(seen, 5);
}

#[test]
fn listener_stops_when_its_stream_ends_or_fails() {
    let label = "test".to_string();
    assert_eq!(listener_step(&label, None), ListenerStep::Stop(None));
    assert_eq!(listener_step(&label, Some(Err(unavailable()))), ListenerStep::Stop(Some(unavailable())));
}

#[test]
fn request_events_hand_out_what_they_hold() {
    let create = CreateDocumentEvent::new(CreateDocumentEvent {
        document_id: "u1".to_string(),
        collection_id: "lobbies".to_string(),
        document_data: score_fields(1),
        id: 7,
    });
    assert_eq!(create.document_id(), "u1");
    assert_eq!(create.collection_id(), "lobbies");
    assert_eq!(create.document_data(), &score_fields(1));
    assert_eq!(create.id(), 7);
    let update = UpdateDocumentEvent::new(UpdateDocumentEvent {
        document_path: "lobbies/u1".to_string(),
        document_data: score_fields(2),
        id: 8,
    });
    assert_eq!(update.document_path(), "lobbies/u1");
    assert_eq!(update.document_data(), &score_fields(2));
    assert_eq!(update.id(), 8);
    let read = ReadDocumentEvent::new(ReadDocumentEvent { document_path: "a/b".to_string(), id: 9 });
    assert_eq!(read.document_path(), "a/b");
    assert_eq!(read.id(), 9);
    let delete =
        DeleteDocumentEvent::new(DeleteDocumentEvent { document_path: "c/d".to_string(), id: 10 });
    assert_eq!(delete.document_path(), "c/d");
    assert_eq!(delete.id(), 10);
    let query = RunQueryEvent {
        parent: "lobbies/u1".to_string(),
        collection_id: "scores".to_string(),
        limit: Some(10),
        order_by: ("price".to_string(), QueryDirection::Ascending),
        id: 1337,
    };
    assert_eq!(query.parent(), "lobbies/u1");
    assert_eq!(query.collection_id(), "scores");
    assert_eq!(query.limit(), Some(10));
    assert_eq!(query.order_by(), ("price".to_string(), QueryDirection::Ascending));
    assert_eq!(query.id(), 1337);
}

#[test]
fn response_events_hand_out_what_they_hold() {
    let answer = QueryResponseEvent::new(Ok(vec![scored("a", 1)]), 3);
    assert_eq!(answer.query_response(), &Ok(vec![scored("a", 1)]));
    let listener = CreateListenerEvent { target: "lobbies/u1".to_string(), label: "l".to_string() };
    assert_eq!(listener.target(), "lobbies/u1");
    match listener_step(&"l".to_string(), Some(Ok(ListenResponse { response_type: Some(ResponseType::Filter(3)) }))) {
        ListenerStep::Emit(event) => {
            assert_eq!(event.msg(), &ListenResponse { response_type: Some(ResponseType::Filter(3)) });
        }
        other => panic!("unexpected {:?}", other),
    }
}
