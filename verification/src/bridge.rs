//! What the application asks of the store and what it gets back. A request
//! carries a correlation id of the caller's choice; the answer to it carries
//! the same id, and nothing else ties the two together.

use vstd::prelude::*;
use vstd::string::*;
use crate::document::{document_name, Document, DocumentResult, Fields, Status};
use crate::store::{
    create_document, delete_document, read_document, run_query, update_document,
    CreateDocumentRequest, DeleteDocumentRequest, FirestoreState, GetDocumentRequest,
    QueryDirection, RunQueryRequest, UpdateDocumentRequest,
};

verus! {

/// Asks for a new document.
#[derive(Debug, PartialEq, Eq)]
pub struct CreateDocumentEvent {
    pub document_id: String,
    pub collection_id: String,
    pub document_data: Fields,
    pub id: usize,
}

/// Asks for some fields of a document to be set.
#[derive(Debug, PartialEq, Eq)]
pub struct UpdateDocumentEvent {
    pub document_path: String,
    pub document_data: Fields,
    pub id: usize,
}

/// Asks for a document.
#[derive(Debug, PartialEq, Eq)]
pub struct ReadDocumentEvent {
    pub document_path: String,
    pub id: usize,
}

/// Asks for a document to be deleted.
#[derive(Debug, PartialEq, Eq)]
pub struct DeleteDocumentEvent {
    pub document_path: String,
    pub id: usize,
}

/// Asks for the documents of a collection: at most `limit` of them, ordered
/// by the field and in the direction of `order_by`, from the collection below
/// the document `parent` where that is not empty.
#[derive(Debug, PartialEq, Eq)]
pub struct RunQueryEvent {
    pub parent: String,
    pub collection_id: String,
    pub limit: Option<i32>,
    pub order_by: (String, QueryDirection),
    pub id: usize,
}

/// The answer to a [`CreateDocumentEvent`].
#[derive(Debug, PartialEq, Eq)]
pub struct CreateDocumentResponseEvent {
    pub result: DocumentResult,
    pub id: usize,
}

/// The answer to an [`UpdateDocumentEvent`].
#[derive(Debug, PartialEq, Eq)]
pub struct UpdateDocumentResponseEvent {
    pub result: DocumentResult,
    pub id: usize,
}

/// The answer to a [`ReadDocumentEvent`].
#[derive(Debug, PartialEq, Eq)]
pub struct ReadDocumentResponseEvent {
    pub result: DocumentResult,
    pub id: usize,
}

/// The answer to a [`DeleteDocumentEvent`].
#[derive(Debug, PartialEq, Eq)]
pub struct DeleteDocumentResponseEvent {
    pub result: Result<(), Status>,
    pub id: usize,
}

/// One message of the stream that answers a query: a document, and the
/// marker by which the store says that no more will follow.
#[derive(Debug, PartialEq, Eq)]
pub struct RunQueryResponse {
    pub document: Option<Document>,
    pub continuation_selector: Option<bool>,
}

/// All messages of a query, or the failure that ended it.
pub type QueryResponse = Result<Vec<RunQueryResponse>, Status>;

/// The answer to a [`RunQueryEvent`].
#[derive(Debug, PartialEq, Eq)]
pub struct QueryResponseEvent {
    pub query_response: QueryResponse,
    pub id: usize,
}

impl CreateDocumentEvent {
    pub fn new(event: Self) -> (made: Self)
        ensures
            made == event,
    {
        event
    }

    pub fn document_id(&self) -> (document_id: String)
        ensures
            document_id@ == self.document_id@,
    {
        self.document_id.clone()
    }

    pub fn collection_id(&self) -> (collection_id: String)
        ensures
            collection_id@ == self.collection_id@,
    {
        self.collection_id.clone()
    }

    pub fn document_data(&self) -> (document_data: &Fields)
        ensures
            *document_data == self.document_data,
    {
        &self.document_data
    }

    pub fn id(&self) -> (id: usize)
        ensures
            id == self.id,
    {
        self.id
    }
}

impl UpdateDocumentEvent {
    pub fn new(event: Self) -> (made: Self)
        ensures
            made == event,
    {
        event
    }

    pub fn document_path(&self) -> (document_path: String)
        ensures
            document_path@ == self.document_path@,
    {
        self.document_path.clone()
    }

    pub fn document_data(&self) -> (document_data: &Fields)
        ensures
            *document_data == self.document_data,
    {
        &self.document_data
    }

    pub fn id(&self) -> (id: usize)
        ensures
            id == self.id,
    {
        self.id
    }
}

impl ReadDocumentEvent {
    pub fn new(event: Self) -> (made: Self)
        ensures
            made == event,
    {
        event
    }

    pub fn document_path(&self) -> (document_path: String)
        ensures
            document_path@ == self.document_path@,
    {
        self.document_path.clone()
    }

    pub fn id(&self) -> (id: usize)
        ensures
            id == self.id,
    {
        self.id
    }
}

impl DeleteDocumentEvent {
    pub fn new(event: Self) -> (made: Self)
        ensures
            made == event,
    {
        event
    }

    pub fn document_path(&self) -> (document_path: String)
        ensures
            document_path@ == self.document_path@,
    {
        self.document_path.clone()
    }

    pub fn id(&self) -> (id: usize)
        ensures
            id == self.id,
    {
        self.id
    }
}

impl RunQueryEvent {
    pub fn parent(&self) -> (parent: String)
        ensures
            parent@ == self.parent@,
    {
        self.parent.clone()
    }

    pub fn collection_id(&self) -> (collection_id: String)
        ensures
            collection_id@ == self.collection_id@,
    {
        self.collection_id.clone()
    }

    pub fn limit(&self) -> (limit: Option<i32>)
        ensures
            limit == self.limit,
    {
        self.limit
    }

    pub fn order_by(&self) -> (order_by: (String, QueryDirection))
        ensures
            order_by.0@ == self.order_by.0@,
            order_by.1 == self.order_by.1,
    {
        (self.order_by.0.clone(), self.order_by.1)
    }

    pub fn id(&self) -> (id: usize)
        ensures
            id == self.id,
    {
        self.id
    }
}

impl CreateDocumentResponseEvent {
    pub fn new(result: DocumentResult, id: usize) -> (event: Self)
        ensures
            event.result == result,
            event.id == id,
    {
        CreateDocumentResponseEvent { result, id }
    }
}

impl UpdateDocumentResponseEvent {
    pub fn new(result: DocumentResult, id: usize) -> (event: Self)
        ensures
            event.result == result,
            event.id == id,
    {
        UpdateDocumentResponseEvent { result, id }
    }
}

impl ReadDocumentResponseEvent {
    pub fn new(result: DocumentResult, id: usize) -> (event: Self)
        ensures
            event.result == result,
            event.id == id,
    {
        ReadDocumentResponseEvent { result, id }
    }
}

impl DeleteDocumentResponseEvent {
    pub fn new(result: Result<(), Status>, id: usize) -> (event: Self)
        ensures
            event.result == result,
            event.id == id,
    {
        DeleteDocumentResponseEvent { result, id }
    }
}

impl QueryResponseEvent {
    pub fn new(query_response: QueryResponse, id: usize) -> (event: Self)
        ensures
            event.query_response == query_response,
            event.id == id,
    {
        QueryResponseEvent { query_response, id }
    }

    pub fn query_response(&self) -> (query_response: &QueryResponse)
        ensures
            *query_response == self.query_response,
    {
        &self.query_response
    }
}

/// A call to the store, of one of the five kinds.
#[derive(Debug, PartialEq, Eq)]
pub enum StoreCall {
    Create(CreateDocumentRequest),
    Update(UpdateDocumentRequest),
    Get(GetDocumentRequest),
    Delete(DeleteDocumentRequest),
    RunQuery(RunQueryRequest),
}

/// A call that is under way, with the correlation id of the request that it
/// was made for.
#[derive(Debug, PartialEq, Eq)]
pub struct PendingOperation {
    pub call: StoreCall,
    pub id: usize,
}

/// Turns a request for a new document into the call that creates it.
pub fn create_document_event_handler(project_id: &str, event: CreateDocumentEvent) -> (pending:
    PendingOperation)
    ensures
        pending.id == event.id,
        pending.call matches StoreCall::Create(call) && call.fits(
            project_id@,
            event.document_id@,
            event.collection_id@,
            event.document_data,
        ),
{
    let call = create_document(
        project_id,
        event.document_id.as_str(),
        event.collection_id.as_str(),
        event.document_data,
    );
    PendingOperation { call: StoreCall::Create(call), id: event.id }
}

/// Turns a request for an update into the call that makes it.
pub fn update_document_event_handler(project_id: &str, event: UpdateDocumentEvent) -> (pending:
    PendingOperation)
    ensures
        pending.id == event.id,
        pending.call matches StoreCall::Update(call) && call.fits(
            project_id@,
            event.document_path@,
            event.document_data,
        ),
{
    let call = update_document(project_id, event.document_path.as_str(), event.document_data);
    PendingOperation { call: StoreCall::Update(call), id: event.id }
}

/// Turns a request for a document into the call that reads it.
pub fn read_document_event_handler(project_id: &str, event: ReadDocumentEvent) -> (pending:
    PendingOperation)
    ensures
        pending.id == event.id,
        pending.call matches StoreCall::Get(call) && call.name@ == document_name(
            project_id@,
            event.document_path@,
        ),
{
    let call = read_document(project_id, event.document_path.as_str());
    PendingOperation { call: StoreCall::Get(call), id: event.id }
}

/// Turns a request for a deletion into the call that makes it.
pub fn delete_document_event_handler(project_id: &str, event: DeleteDocumentEvent) -> (pending:
    PendingOperation)
    ensures
        pending.id == event.id,
        pending.call matches StoreCall::Delete(call) && call.name@ == document_name(
            project_id@,
            event.document_path@,
        ),
{
    let call = delete_document(project_id, event.document_path.as_str());
    PendingOperation { call: StoreCall::Delete(call), id: event.id }
}

/// Turns a request for a query into the call that runs it.
pub fn run_query_event_handler(project_id: &str, event: RunQueryEvent) -> (pending: PendingOperation)
    ensures
        pending.id == event.id,
        pending.call matches StoreCall::RunQuery(call) && call.fits(
            project_id@,
            event.parent@,
            event.collection_id@,
            event.limit,
            event.order_by.0@,
            event.order_by.1,
        ),
{
    let call = run_query(
        project_id,
        event.parent.as_str(),
        event.collection_id.as_str(),
        event.limit,
        event.order_by.0.as_str(),
        event.order_by.1,
    );
    PendingOperation { call: StoreCall::RunQuery(call), id: event.id }
}

/// A request to the store, of one of the five kinds.
#[derive(Debug, PartialEq, Eq)]
pub enum StoreRequest {
    Create(CreateDocumentEvent),
    Update(UpdateDocumentEvent),
    Read(ReadDocumentEvent),
    Delete(DeleteDocumentEvent),
    Query(RunQueryEvent),
}

impl StoreRequest {
    /// The correlation id that the caller chose.
    pub open spec fn id(&self) -> usize {
        match *self {
            StoreRequest::Create(event) => event.id,
            StoreRequest::Update(event) => event.id,
            StoreRequest::Read(event) => event.id,
            StoreRequest::Delete(event) => event.id,
            StoreRequest::Query(event) => event.id,
        }
    }
}

/// What a call to the store came to.
#[derive(Debug, PartialEq, Eq)]
pub enum StoreOutcome {
    /// The document that a create, update or get returned, or its failure.
    Document(DocumentResult),
    /// The success or failure of a delete.
    Deleted(Result<(), Status>),
    /// The drained stream of a query, or its failure.
    Query(QueryResponse),
}

/// The answer to a request, of the kind of the request.
#[derive(Debug, PartialEq, Eq)]
pub enum StoreResponse {
    Create(CreateDocumentResponseEvent),
    Update(UpdateDocumentResponseEvent),
    Read(ReadDocumentResponseEvent),
    Delete(DeleteDocumentResponseEvent),
    Query(QueryResponseEvent),
}

impl StoreResponse {
    /// The correlation id that the answer carries.
    pub open spec fn id(&self) -> usize {
        match *self {
            StoreResponse::Create(event) => event.id,
            StoreResponse::Update(event) => event.id,
            StoreResponse::Read(event) => event.id,
            StoreResponse::Delete(event) => event.id,
            StoreResponse::Query(event) => event.id,
        }
    }

    /// Executable form of [`Self::id`].
    pub fn correlation_id(&self) -> (id: usize)
        ensures
            id == self.id(),
    {
        match self {
            StoreResponse::Create(event) => event.id,
            StoreResponse::Update(event) => event.id,
            StoreResponse::Read(event) => event.id,
            StoreResponse::Delete(event) => event.id,
            StoreResponse::Query(event) => event.id,
        }
    }
}

/// Whether `pending` is the call that `request` asks for in the project
/// `project_id`, under the id of the request.
pub open spec fn issued(project_id: Seq<char>, request: StoreRequest, pending: PendingOperation) -> bool {
    &&& pending.id == request.id()
    &&& match request {
        StoreRequest::Create(event) => pending.call matches StoreCall::Create(call) && call.fits(
            project_id,
            event.document_id@,
            event.collection_id@,
            event.document_data,
        ),
        StoreRequest::Update(event) => pending.call matches StoreCall::Update(call) && call.fits(
            project_id,
            event.document_path@,
            event.document_data,
        ),
        StoreRequest::Read(event) => pending.call matches StoreCall::Get(call) && call.name@
            == document_name(project_id, event.document_path@),
        StoreRequest::Delete(event) => pending.call matches StoreCall::Delete(call) && call.name@
            == document_name(project_id, event.document_path@),
        StoreRequest::Query(event) => pending.call matches StoreCall::RunQuery(call) && call.fits(
            project_id,
            event.parent@,
            event.collection_id@,
            event.limit,
            event.order_by.0@,
            event.order_by.1,
        ),
    }
}

/// Turns a request into the call to make. There is a call only once the
/// client is `Ready`; a request that comes earlier is dropped.
pub fn issue(state: FirestoreState, project_id: &str, request: StoreRequest) -> (pending: Option<
    PendingOperation,
>)
    ensures
        pending is Some <==> state == FirestoreState::Ready,
        pending matches Some(operation) ==> issued(project_id@, request, operation),
{
    if state != FirestoreState::Ready {
        return None;
    }
    Some(
        match request {
            StoreRequest::Create(event) => create_document_event_handler(project_id, event),
            StoreRequest::Update(event) => update_document_event_handler(project_id, event),
            StoreRequest::Read(event) => read_document_event_handler(project_id, event),
            StoreRequest::Delete(event) => delete_document_event_handler(project_id, event),
            StoreRequest::Query(event) => run_query_event_handler(project_id, event),
        },
    )
}

/// Whether `outcome` is of the kind that a call of the kind of `call` comes to.
pub open spec fn answers(call: StoreCall, outcome: StoreOutcome) -> bool {
    match call {
        StoreCall::Create(_) | StoreCall::Update(_) | StoreCall::Get(_) => outcome is Document,
        StoreCall::Delete(_) => outcome is Deleted,
        StoreCall::RunQuery(_) => outcome is Query,
    }
}

/// Whether `response` hands `outcome` back under the id of `pending`, as the
/// answer of the kind of its call.
pub open spec fn completed(pending: PendingOperation, outcome: StoreOutcome, response: StoreResponse) -> bool {
    &&& response.id() == pending.id
    &&& match pending.call {
        StoreCall::Create(_) => response matches StoreResponse::Create(event) && outcome
            == StoreOutcome::Document(event.result),
        StoreCall::Update(_) => response matches StoreResponse::Update(event) && outcome
            == StoreOutcome::Document(event.result),
        StoreCall::Get(_) => response matches StoreResponse::Read(event) && outcome
            == StoreOutcome::Document(event.result),
        StoreCall::Delete(_) => response matches StoreResponse::Delete(event) && outcome
            == StoreOutcome::Deleted(event.result),
        StoreCall::RunQuery(_) => response matches StoreResponse::Query(event) && outcome
            == StoreOutcome::Query(event.query_response),
    }
}

/// Makes the answer to the request behind `pending` from what its call came
/// to. A failure of the call is handed back like a success, as the result in
/// the answer. There is no answer where the outcome is not of the kind of the
/// call.
pub fn complete(pending: &PendingOperation, outcome: StoreOutcome) -> (response: Option<StoreResponse>)
    ensures
        response is Some <==> answers(pending.call, outcome),
        response matches Some(r) ==> completed(*pending, outcome, r),
{
    let id = pending.id;
    match (&pending.call, outcome) {
        (StoreCall::Create(_), StoreOutcome::Document(result)) => Some(
            StoreResponse::Create(CreateDocumentResponseEvent::new(result, id)),
        ),
        (StoreCall::Update(_), StoreOutcome::Document(result)) => Some(
            StoreResponse::Update(UpdateDocumentResponseEvent::new(result, id)),
        ),
        (StoreCall::Get(_), StoreOutcome::Document(result)) => Some(
            StoreResponse::Read(ReadDocumentResponseEvent::new(result, id)),
        ),
        (StoreCall::Delete(_), StoreOutcome::Deleted(result)) => Some(
            StoreResponse::Delete(DeleteDocumentResponseEvent::new(result, id)),
        ),
        (StoreCall::RunQuery(_), StoreOutcome::Query(result)) => Some(
            StoreResponse::Query(QueryResponseEvent::new(result, id)),
        ),
        _ => None,
    }
}

/// The answer to a request carries the correlation id of the request: for
/// every request, every call made for it and every answer made from what the
/// call came to.
pub proof fn lemma_correlation_id_kept(
    project_id: Seq<char>,
    request: StoreRequest,
    pending: PendingOperation,
    outcome: StoreOutcome,
    response: StoreResponse,
)
    requires
        issued(project_id, request, pending),
        completed(pending, outcome, response),
    ensures
        response.id() == request.id(),
{
}

} // verus!
