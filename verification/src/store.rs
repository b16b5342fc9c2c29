//! The bridge to the document store: the state of its client, the requests
//! that are made from what the application asks, and the answers that are
//! handed back under the same correlation id.

use vstd::prelude::*;
use vstd::string::*;
use crate::document::{
    database_path, document_name, documents_root, key_list, query_parent, strings_view,
    write_database_path, write_document_name, write_documents_root, write_query_parent, Fields,
};
use crate::headers::{header_value, is_header_value};
use crate::text::{join2, pairs_view};

verus! {

/// How far the client of the store is. The store can be used once it is
/// `Ready`.
#[derive(Clone, Copy, Debug, PartialEq, Eq, Structural, Hash)]
pub enum FirestoreState {
    Start,
    Init,
    CreateClient,
    Ready,
}

impl Default for FirestoreState {
    fn default() -> (state: Self)
        ensures
            state == FirestoreState::Start,
    {
        FirestoreState::Start
    }
}

/// What moves the client towards `Ready`.
#[derive(Clone, Copy, Debug, PartialEq, Eq, Structural)]
pub enum ClientTrigger {
    /// A session began.
    LoggedIn,
    /// A frame passed.
    Advance,
    /// The client was built and published.
    ClientCreated,
}

/// The state that follows `state` on `trigger`: a new session starts the
/// client over, `Init` passes to `CreateClient` by itself, and `CreateClient`
/// ends when the client is there.
pub open spec fn next_client_state(state: FirestoreState, trigger: ClientTrigger) -> FirestoreState {
    match trigger {
        ClientTrigger::LoggedIn => FirestoreState::Init,
        ClientTrigger::Advance => if state == FirestoreState::Init {
            FirestoreState::CreateClient
        } else {
            state
        },
        ClientTrigger::ClientCreated => if state == FirestoreState::CreateClient {
            FirestoreState::Ready
        } else {
            state
        },
    }
}

/// The state that a new session puts the client in.
pub fn logged_in() -> (next: FirestoreState)
    ensures
        next == FirestoreState::Init,
{
    FirestoreState::Init
}

/// The state that follows `Init`.
pub fn init() -> (next: FirestoreState)
    ensures
        next == FirestoreState::CreateClient,
{
    FirestoreState::CreateClient
}

/// Moves the client on `trigger`.
pub fn client_step(state: FirestoreState, trigger: ClientTrigger) -> (next: FirestoreState)
    ensures
        next == next_client_state(state, trigger),
{
    match trigger {
        ClientTrigger::LoggedIn => logged_in(),
        ClientTrigger::Advance => if state == FirestoreState::Init {
            init()
        } else {
            state
        },
        ClientTrigger::ClientCreated => if state == FirestoreState::CreateClient {
            FirestoreState::Ready
        } else {
            state
        },
    }
}

/// The configuration of the store: the address of an emulator that stands in
/// for it, if any.
#[derive(Debug)]
pub struct FirestorePlugin {
    pub emulator_url: Option<String>,
}

impl Default for FirestorePlugin {
    fn default() -> (plugin: Self)
        ensures
            plugin.emulator_url is None,
    {
        FirestorePlugin { emulator_url: None }
    }
}

/// Where the client connects to.
#[derive(Debug)]
pub enum Endpoint {
    /// The store itself, over TLS, with the certificate checked for
    /// `domain_name`.
    Tls { uri: String, domain_name: String },
    /// An emulator, over a plain channel.
    Plain { uri: String },
}

/// The two headers that every call to the store carries.
#[derive(Debug)]
pub struct FirebaseInterceptor {
    pub bearer_token: String,
    pub db: String,
}

impl FirebaseInterceptor {
    /// The headers by name and value: the authorization and the resource
    /// prefix.
    pub fn headers(&self) -> (headers: Vec<(String, String)>)
        ensures
            pairs_view(headers@) == seq![
                ("authorization"@, self.bearer_token@),
                ("google-cloud-resource-prefix"@, self.db@),
            ],
    {
        let mut headers: Vec<(String, String)> = Vec::new();
        headers.push((String::from_str("authorization"), self.bearer_token.clone()));
        headers.push((String::from_str("google-cloud-resource-prefix"), self.db.clone()));
        assert(pairs_view(headers@) =~= seq![
            ("authorization"@, self.bearer_token@),
            ("google-cloud-resource-prefix"@, self.db@),
        ]);
        headers
    }
}

/// What is needed to build the client.
#[derive(Debug)]
pub struct ClientConfig {
    pub endpoint: Endpoint,
    pub interceptor: FirebaseInterceptor,
}

/// Puts the configuration of a client together from the two header values
/// and from what `tonic` said of each. There is a configuration where both
/// were accepted; it connects to the emulator where one is configured and to
/// the store itself otherwise.
pub fn assemble_client(
    bearer_token: String,
    bearer_accepted: bool,
    db: String,
    db_accepted: bool,
    emulator_url: &Option<String>,
) -> (config: Option<ClientConfig>)
    ensures
        config is Some <==> bearer_accepted && db_accepted,
        config matches Some(c) ==> {
            &&& c.interceptor.bearer_token == bearer_token
            &&& c.interceptor.db == db
            &&& match *emulator_url {
                Some(url) => c.endpoint matches Endpoint::Plain { uri } && uri@ == url@,
                None => c.endpoint matches Endpoint::Tls { uri, domain_name } && uri@
                    == "https://firestore.googleapis.com"@ && domain_name@
                    == "firestore.googleapis.com"@,
            }
        },
{
    if !bearer_accepted || !db_accepted {
        return None;
    }
    let endpoint = match emulator_url {
        Some(url) => Endpoint::Plain { uri: url.clone() },
        None => Endpoint::Tls {
            uri: String::from_str("https://firestore.googleapis.com"),
            domain_name: String::from_str("firestore.googleapis.com"),
        },
    };
    Some(ClientConfig { endpoint, interceptor: FirebaseInterceptor { bearer_token, db } })
}

/// The value of the authorization header for the session of `id_token`.
pub open spec fn bearer(id_token: Seq<char>) -> Seq<char> {
    "Bearer "@ + id_token
}

/// The client for the session of `id_token` on the default database of
/// `project_id`: it stamps every call with the session's token as bearer and
/// with the database as resource prefix. There is none where the token or
/// the project id holds what cannot stand in a header.
pub fn create_client(id_token: &str, project_id: &str, emulator_url: &Option<String>) -> (config:
    Option<ClientConfig>)
    ensures
        config is Some <==> header_value(bearer(id_token@)) && header_value(
            database_path(project_id@),
        ),
        config matches Some(c) ==> {
            &&& c.interceptor.bearer_token@ == bearer(id_token@)
            &&& c.interceptor.db@ == database_path(project_id@)
            &&& match *emulator_url {
                Some(url) => c.endpoint matches Endpoint::Plain { uri } && uri@ == url@,
                None => c.endpoint matches Endpoint::Tls { uri, domain_name } && uri@
                    == "https://firestore.googleapis.com"@ && domain_name@
                    == "firestore.googleapis.com"@,
            }
        },
{
    let bearer_token = join2("Bearer ", id_token);
    let db = write_database_path(project_id);
    let bearer_accepted = is_header_value(bearer_token.as_str());
    let db_accepted = is_header_value(db.as_str());
    assemble_client(bearer_token, bearer_accepted, db, db_accepted, emulator_url)
}

/// The call that creates a document.
#[derive(Debug, PartialEq, Eq)]
pub struct CreateDocumentRequest {
    pub parent: String,
    pub collection_id: String,
    pub document_id: String,
    pub fields: Fields,
}

/// The call that updates the fields named in `field_paths`, and no others.
#[derive(Debug, PartialEq, Eq)]
pub struct UpdateDocumentRequest {
    pub name: String,
    pub fields: Fields,
    pub field_paths: Vec<String>,
}

/// The call that reads a document.
#[derive(Debug, PartialEq, Eq)]
pub struct GetDocumentRequest {
    pub name: String,
}

/// The call that deletes a document.
#[derive(Debug, PartialEq, Eq)]
pub struct DeleteDocumentRequest {
    pub name: String,
}

/// The order in which a query returns its documents.
#[derive(Clone, Copy, Debug, PartialEq, Eq, Structural, Hash)]
pub enum QueryDirection {
    Unspecified,
    Ascending,
    Descending,
}

impl QueryDirection {
    /// The number that stands for the direction in a call.
    pub open spec fn code(self) -> i32 {
        match self {
            QueryDirection::Unspecified => 0,
            QueryDirection::Ascending => 1,
            QueryDirection::Descending => 2,
        }
    }

    /// Executable form of [`Self::code`].
    pub fn to_code(self) -> (code: i32)
        ensures
            code == self.code(),
    {
        match self {
            QueryDirection::Unspecified => 0,
            QueryDirection::Ascending => 1,
            QueryDirection::Descending => 2,
        }
    }
}

/// The call that runs a query on one collection, ordered by one field.
#[derive(Debug, PartialEq, Eq)]
pub struct RunQueryRequest {
    pub parent: String,
    pub collection_id: String,
    pub all_descendants: bool,
    pub limit: Option<i32>,
    pub order_field: String,
    pub direction: i32,
}

/// The call that opens a listener on the documents named in `documents`.
#[derive(Debug, PartialEq, Eq)]
pub struct ListenRequest {
    pub database: String,
    pub target_id: i32,
    pub once: bool,
    pub documents: Vec<String>,
}

impl CreateDocumentRequest {
    /// Whether this call creates the document `document_id` in the collection
    /// `collection_id` of the project with exactly the given fields.
    pub open spec fn fits(
        &self,
        project_id: Seq<char>,
        document_id: Seq<char>,
        collection_id: Seq<char>,
        fields: Fields,
    ) -> bool {
        &&& self.parent@ == documents_root(project_id)
        &&& self.collection_id@ == collection_id
        &&& self.document_id@ == document_id
        &&& self.fields == fields
    }
}

impl UpdateDocumentRequest {
    /// Whether this call updates the document at `document_path` with the
    /// given fields, under a mask that names those fields, each once and in
    /// their order.
    pub open spec fn fits(&self, project_id: Seq<char>, document_path: Seq<char>, fields: Fields) -> bool {
        &&& self.name@ == document_name(project_id, document_path)
        &&& self.fields == fields
        &&& strings_view(self.field_paths@) == key_list(fields@)
    }
}

impl RunQueryRequest {
    /// Whether this call queries the collection `collection_id` below
    /// `parent`, never deeper, with the given limit and order.
    pub open spec fn fits(
        &self,
        project_id: Seq<char>,
        parent: Seq<char>,
        collection_id: Seq<char>,
        limit: Option<i32>,
        order_field: Seq<char>,
        order_direction: QueryDirection,
    ) -> bool {
        &&& self.parent@ == query_parent(project_id, parent)
        &&& self.collection_id@ == collection_id
        &&& !self.all_descendants
        &&& self.limit == limit
        &&& self.order_field@ == order_field
        &&& self.direction == order_direction.code()
    }
}

impl ListenRequest {
    /// Whether this call listens, until further notice, to the one document
    /// at `target`.
    pub open spec fn fits(&self, project_id: Seq<char>, target: Seq<char>) -> bool {
        &&& self.database@ == database_path(project_id)
        &&& self.target_id == listener_target_id()
        &&& !self.once
        &&& strings_view(self.documents@) == seq![document_name(project_id, target)]
    }
}

/// Makes the call that creates the document `document_id` in the collection
/// `collection_id` with the given fields.
pub fn create_document(project_id: &str, document_id: &str, collection_id: &str, fields: Fields) -> (request:
    CreateDocumentRequest)
    ensures
        request.fits(project_id@, document_id@, collection_id@, fields),
{
    CreateDocumentRequest {
        parent: write_documents_root(project_id),
        collection_id: String::from_str(collection_id),
        document_id: String::from_str(document_id),
        fields,
    }
}

/// Makes the call that updates the document at `document_path`. The update
/// mask names exactly the fields that are supplied, so that the other fields
/// of the document stay as they are.
pub fn update_document(project_id: &str, document_path: &str, fields: Fields) -> (request:
    UpdateDocumentRequest)
    ensures
        request.fits(project_id@, document_path@, fields),
        strings_view(request.field_paths@).no_duplicates(),
        forall|key: Seq<char>|
            strings_view(request.field_paths@).contains(key) <==> crate::document::has_key(
                fields@,
                key,
            ),
{
    let field_paths = fields.keys();
    UpdateDocumentRequest { name: write_document_name(project_id, document_path), fields, field_paths }
}

/// Makes the call that reads the document at `document_path`.
pub fn read_document(project_id: &str, document_path: &str) -> (request: GetDocumentRequest)
    ensures
        request.name@ == document_name(project_id@, document_path@),
{
    GetDocumentRequest { name: write_document_name(project_id, document_path) }
}

/// Makes the call that deletes the document at `document_path`.
pub fn delete_document(project_id: &str, document_path: &str) -> (request: DeleteDocumentRequest)
    ensures
        request.name@ == document_name(project_id@, document_path@),
{
    DeleteDocumentRequest { name: write_document_name(project_id, document_path) }
}

/// Makes the call that queries the collection `collection_id`, directly below
/// the documents of the project or below the document `parent`, for at most
/// `limit` documents in the order of one field.
pub fn run_query(
    project_id: &str,
    parent: &str,
    collection_id: &str,
    limit: Option<i32>,
    order_field: &str,
    order_direction: QueryDirection,
) -> (request: RunQueryRequest)
    ensures
        request.fits(project_id@, parent@, collection_id@, limit, order_field@, order_direction),
{
    RunQueryRequest {
        parent: write_query_parent(project_id, parent),
        collection_id: String::from_str(collection_id),
        all_descendants: false,
        limit,
        order_field: String::from_str(order_field),
        direction: order_direction.to_code(),
    }
}

/// The number under which every listener registers its target.
pub open spec fn listener_target_id() -> i32 {
    0x52757374
}

/// Makes the call that listens, until further notice, to the document at
/// `target`.
pub fn add_listener(project_id: &str, target: &str) -> (request: ListenRequest)
    ensures
        request.fits(project_id@, target@),
{
    let mut documents: Vec<String> = Vec::new();
    documents.push(write_document_name(project_id, target));
    assert(strings_view(documents@) =~= seq![document_name(project_id@, target@)]);
    ListenRequest {
        database: write_database_path(project_id),
        target_id: 0x52757374,
        once: false,
        documents,
    }
}

} // verus!
