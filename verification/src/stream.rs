//! The two streams that the store answers with: the messages of a query,
//! which are gathered until the store says that it is done, and the changes
//! that a listener reports for as long as it lives.

use vstd::prelude::*;
use vstd::string::*;
use crate::bridge::{QueryResponse, RunQueryResponse};
use crate::document::{Document, Status};
use crate::store::{add_listener, ListenRequest};

verus! {

/// One item of the stream of a query: a message, or the failure that ends the
/// stream.
pub type QueryItem = Result<RunQueryResponse, Status>;

/// Whether nothing is read after `item`: it is a failure, or a message with
/// the marker by which the store says that it is done.
pub open spec fn ends_stream(item: QueryItem) -> bool {
    match item {
        Ok(message) => message.continuation_selector is Some,
        Err(_) => true,
    }
}

/// The place of the first item that ends the stream, or the number of items
/// where none does.
pub open spec fn first_end(items: Seq<QueryItem>) -> int
    decreases items.len(),
{
    if items.len() == 0 || ends_stream(items[0]) {
        0
    } else {
        1 + first_end(items.drop_first())
    }
}

/// The messages of a run of items that are all messages.
pub open spec fn messages_of(items: Seq<QueryItem>) -> Seq<RunQueryResponse> {
    Seq::new(items.len(), |i: int| items[i]->Ok_0)
}

/// What a query comes to when the store streams `items`: the failure, and
/// none of the messages before it, where the first item that ends the stream
/// is a failure; otherwise the messages up to and with the one that carries
/// the marker, or all of them where none does.
pub open spec fn drained(items: Seq<QueryItem>) -> Result<Seq<RunQueryResponse>, Status> {
    let end = first_end(items);
    if end < items.len() {
        match items[end] {
            Err(status) => Err(status),
            Ok(_) => Ok(messages_of(items.subrange(0, end + 1))),
        }
    } else {
        Ok(messages_of(items))
    }
}

/// [`first_end`] is the place before which no item ends the stream and at
/// which one does, if it is a place in the stream at all.
pub proof fn lemma_first_end(items: Seq<QueryItem>, end: int)
    requires
        0 <= end <= items.len(),
        forall|i: int| 0 <= i < end ==> !ends_stream(#[trigger] items[i]),
        end < items.len() ==> ends_stream(items[end]),
    ensures
        first_end(items) == end,
    decreases items.len(),
{
    if items.len() == 0 || ends_stream(items[0]) {
    } else {
        let rest = items.drop_first();
        assert forall|i: int| 0 <= i < end - 1 implies !ends_stream(#[trigger] rest[i]) by {
            assert(rest[i] == items[i + 1]);
        }
        lemma_first_end(rest, end - 1);
    }
}

/// The messages of a query that were read so far.
#[derive(Debug)]
pub struct QueryDrain {
    pub responses: Vec<RunQueryResponse>,
}

/// What follows an item of the stream of a query.
#[derive(Debug)]
pub enum DrainStep {
    /// Read the next item.
    Continue(QueryDrain),
    /// Stop reading: this is what the query came to.
    Finished(QueryResponse),
}

impl QueryDrain {
    /// Nothing read yet.
    pub fn new() -> (drain: Self)
        ensures
            drain.responses@ == Seq::<RunQueryResponse>::empty(),
    {
        QueryDrain { responses: Vec::new() }
    }

    /// Takes the next item of the stream, or its end, in. A message is kept;
    /// reading goes on unless it carries the marker. A failure ends the query
    /// as failed, and what was kept is dropped. At the end of the stream the
    /// query comes to what was kept.
    pub fn take(self, item: Option<QueryItem>) -> (step: DrainStep)
        ensures
            match item {
                None => step matches DrainStep::Finished(Ok(all)) && all@ == self.responses@,
                Some(Err(status)) => step == DrainStep::Finished(Err(status)),
                Some(Ok(message)) => if message.continuation_selector is Some {
                    step matches DrainStep::Finished(Ok(all)) && all@ == self.responses@.push(message)
                } else {
                    step matches DrainStep::Continue(drain) && drain.responses@
                        == self.responses@.push(message)
                },
            },
    {
        let mut responses = self.responses;
        match item {
            None => DrainStep::Finished(Ok(responses)),
            Some(Err(status)) => DrainStep::Finished(Err(status)),
            Some(Ok(message)) => {
                let done = message.continuation_selector.is_some();
                responses.push(message);
                if done {
                    DrainStep::Finished(Ok(responses))
                } else {
                    DrainStep::Continue(QueryDrain { responses })
                }
            },
        }
    }
}

/// Gathers the answer to a query from the items that the store streamed.
/// Items after the first that ends the stream are not looked at.
pub fn drain_query(items: Vec<QueryItem>) -> (response: QueryResponse)
    ensures
        match response {
            Ok(all) => drained(items@) == Ok::<Seq<RunQueryResponse>, Status>(all@),
            Err(status) => drained(items@) == Err::<Seq<RunQueryResponse>, Status>(status),
        },
{
    let mut left = items;
    let mut drain = QueryDrain::new();
    let ghost read: Seq<QueryItem> = Seq::empty();
    assert(drain.responses@ =~= messages_of(read));
    assert(read + left@ =~= items@);
    loop
        invariant
            read + left@ == items@,
            forall|i: int| 0 <= i < read.len() ==> !ends_stream(#[trigger] read[i]),
            drain.responses@ == messages_of(read),
        decreases left@.len(),
    {
        if left.len() == 0 {
            proof {
                assert(read =~= items@);
                lemma_first_end(items@, items@.len() as int);
            }
            return Ok(drain.responses);
        }
        let item = left.remove(0);
        proof {
            let end = read.len() as int;
            assert(items@[end] == item);
            assert forall|i: int| 0 <= i < end implies !ends_stream(#[trigger] items@[i]) by {
                assert(items@[i] == read[i]);
            }
            if ends_stream(item) {
                lemma_first_end(items@, end);
                assert(messages_of(items@.subrange(0, end + 1)) =~= messages_of(read).push(item->Ok_0));
            } else {
                assert(messages_of(read.push(item)) =~= messages_of(read).push(item->Ok_0));
                assert(read.push(item) + left@ =~= items@);
            }
        }
        match drain.take(Some(item)) {
            DrainStep::Finished(response) => {
                return response;
            },
            DrainStep::Continue(next) => {
                drain = next;
                proof {
                    read = read.push(item);
                }
            },
        }
    }
}

/// A failure in the stream of a query, with nothing that ends the stream
/// before it, makes the whole query fail with it: no message that came
/// before is handed on.
pub proof fn lemma_failure_drops_messages(items: Seq<QueryItem>, at: int)
    requires
        0 <= at < items.len(),
        items[at] is Err,
        forall|i: int| 0 <= i < at ==> !ends_stream(#[trigger] items[i]),
    ensures
        drained(items) == Err::<Seq<RunQueryResponse>, Status>(items[at]->Err_0),
{
    lemma_first_end(items, at);
}

/// A query never comes to more messages than the stream held, and where it
/// succeeds it comes to the messages from the first one on, in their order.
pub proof fn lemma_drained_is_prefix(items: Seq<QueryItem>)
    ensures
        drained(items) matches Ok(all) ==> all.len() <= items.len() && forall|i: int|
            0 <= i < all.len() ==> items[i] == Ok::<RunQueryResponse, Status>(#[trigger] all[i]),
{
    lemma_first_end_bounds(items);
    let end = first_end(items);
    assert forall|i: int| 0 <= i < end implies (#[trigger] items[i]) is Ok by {
        lemma_before_first_end(items, i);
    }
}

/// [`first_end`] is a place in the stream or its length.
pub proof fn lemma_first_end_bounds(items: Seq<QueryItem>)
    ensures
        0 <= first_end(items) <= items.len(),
        first_end(items) < items.len() ==> ends_stream(items[first_end(items)]),
    decreases items.len(),
{
    if items.len() == 0 || ends_stream(items[0]) {
    } else {
        lemma_first_end_bounds(items.drop_first());
    }
}

/// No item before [`first_end`] ends the stream.
pub proof fn lemma_before_first_end(items: Seq<QueryItem>, i: int)
    requires
        0 <= i < first_end(items),
    ensures
        i < items.len(),
        !ends_stream(items[i]),
    decreases items.len(),
{
    if items.len() == 0 || ends_stream(items[0]) {
    } else if i > 0 {
        lemma_before_first_end(items.drop_first(), i - 1);
    }
}

/// What a change message of a listener reports.
#[derive(Debug, PartialEq, Eq)]
pub enum ResponseType {
    /// The target itself changed: the number says how.
    TargetChange(i32),
    /// A document changed: its new content.
    DocumentChange(Document),
    /// A document was deleted: its name.
    DocumentDelete(String),
    /// A document no longer belongs to the target: its name.
    DocumentRemove(String),
    /// The number of documents that belong to the target.
    Filter(i32),
}

/// One message of a listener.
#[derive(Debug, PartialEq, Eq)]
pub struct ListenResponse {
    pub response_type: Option<ResponseType>,
}

/// Asks for a listener on the document at `target`; what the listener
/// reports is handed on under `label`.
#[derive(Debug, PartialEq, Eq)]
pub struct CreateListenerEvent {
    pub target: String,
    pub label: String,
}

/// A message of a listener, under the label of the request that opened it.
#[derive(Debug, PartialEq, Eq)]
pub struct ListenerResponseEvent {
    pub msg: ListenResponse,
    pub label: String,
}

impl ListenerResponseEvent {
    pub fn new(msg: ListenResponse, label: String) -> (event: Self)
        ensures
            event.msg == msg,
            event.label == label,
    {
        ListenerResponseEvent { msg, label }
    }

    pub fn msg(&self) -> (msg: &ListenResponse)
        ensures
            *msg == self.msg,
    {
        &self.msg
    }
}

impl CreateListenerEvent {
    pub fn target(&self) -> (target: String)
        ensures
            target@ == self.target@,
    {
        self.target.clone()
    }
}

/// A listener that is to be opened: the call that opens it, and the label
/// for what it reports.
#[derive(Debug, PartialEq, Eq)]
pub struct ListenerSubscription {
    pub request: ListenRequest,
    pub label: String,
}

/// Turns a request for a listener into the call that opens it.
pub fn create_listener_event_handler(project_id: &str, event: CreateListenerEvent) -> (subscription:
    ListenerSubscription)
    ensures
        subscription.request.fits(project_id@, event.target@),
        subscription.label == event.label,
{
    let request = add_listener(project_id, event.target.as_str());
    ListenerSubscription { request, label: event.label }
}

/// What follows an item of the stream of a listener.
#[derive(Debug, PartialEq, Eq)]
pub enum ListenerStep {
    /// Hand the event on, and read the next item.
    Emit(ListenerResponseEvent),
    /// The listener is over: the stream ended, or failed with the status.
    Stop(Option<Status>),
}

/// Takes the next item of the stream of a listener, or its end, in. Every
/// message is handed on, as it came and under the label of the listener; the
/// listener lives until its stream ends or fails.
pub fn listener_step(label: &String, item: Option<Result<ListenResponse, Status>>) -> (step:
    ListenerStep)
    ensures
        match item {
            Some(Ok(msg)) => step matches ListenerStep::Emit(event) && event.msg == msg
                && event.label@ == label@,
            Some(Err(status)) => step == ListenerStep::Stop(Some(status)),
            None => step == ListenerStep::Stop(None),
        },
{
    match item {
        Some(Ok(msg)) => ListenerStep::Emit(ListenerResponseEvent::new(msg, label.clone())),
        Some(Err(status)) => ListenerStep::Stop(Some(status)),
        None => ListenerStep::Stop(None),
    }
}

} // verus!
