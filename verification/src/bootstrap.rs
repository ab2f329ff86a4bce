//! One-time creation of the vector collection, as a state machine.
//!
//! The caller performs each [`BootstrapAction`] on the vector index and
//! hands the answer back as a [`BootstrapEvent`]; [`bootstrap_step`] decides
//! what follows. The collection is created with the schema of
//! [`crate::schema`], then the payload indexes are created one by one.

use vstd::prelude::*;
use crate::errors::ServiceError;
use crate::schema::{
    collection_schema, field_indexes, payload_indexes, schema_of, CollectionSchema,
    CollectionSchemaView, FieldIndex,
};
use crate::text::{contains_text, occurs_in};

verus! {

/// Why the collection was not set up.
#[derive(Debug, PartialEq, Eq, Structural, Clone, Copy)]
pub enum BootstrapError {
    ConnectionFailed,
    CollectionAlreadyExists,
    CreateCollectionFailed,
    CreateIndexFailed,
    /// An answer arrived that was not waited for.
    UnexpectedAnswer,
}

/// Where the setup stands, by the answer it waits for.
#[derive(Debug, PartialEq, Eq, Structural, Clone, Copy)]
pub enum BootstrapPhase {
    /// Nothing has been asked yet.
    Ready,
    /// Waiting for the client of the vector index.
    Connecting,
    /// Waiting to learn whether the collection exists.
    Checking,
    /// Waiting for the collection to be created.
    Creating,
    /// Waiting for the payload index `next` to be created.
    Indexing { next: usize },
    /// The collection and its indexes exist.
    Created,
    /// Given up.
    Failed,
}

/// The state of a setup.
#[derive(Debug, PartialEq, Eq, Structural, Clone, Copy)]
pub struct BootstrapState {
    pub phase: BootstrapPhase,
    pub error: Option<BootstrapError>,
}

/// What the caller is asked to do next.
#[derive(Debug, PartialEq, Eq)]
pub enum BootstrapAction {
    /// Make a client for the vector index.
    Connect,
    /// Ask whether the collection exists.
    CheckExists,
    /// Create the collection.
    CreateCollection { schema: CollectionSchema },
    /// Create a payload index.
    CreateFieldIndex { index: FieldIndex },
    /// The setup is over, with this result.
    Conclude { result: Result<(), BootstrapError> },
    /// Nothing: the setup was over before.
    Idle,
}

/// The mathematical content of a [`BootstrapAction`].
pub enum BootstrapActionView {
    Connect,
    CheckExists,
    CreateCollection { schema: CollectionSchemaView },
    CreateFieldIndex { index: FieldIndex },
    Conclude { result: Result<(), BootstrapError> },
    Idle,
}

impl View for BootstrapAction {
    type V = BootstrapActionView;

    open spec fn view(&self) -> BootstrapActionView {
        match self {
            BootstrapAction::Connect => BootstrapActionView::Connect,
            BootstrapAction::CheckExists => BootstrapActionView::CheckExists,
            BootstrapAction::CreateCollection { schema } => BootstrapActionView::CreateCollection {
                schema: schema@,
            },
            BootstrapAction::CreateFieldIndex { index } => BootstrapActionView::CreateFieldIndex {
                index: *index,
            },
            BootstrapAction::Conclude { result } => BootstrapActionView::Conclude {
                result: *result,
            },
            BootstrapAction::Idle => BootstrapActionView::Idle,
        }
    }
}

/// The answer to the action asked last.
#[derive(Debug, PartialEq, Eq)]
pub enum BootstrapEvent {
    /// No action was asked yet.
    Start,
    /// Whether a client could be made.
    Connected(bool),
    /// Whether the index knows the collection; nothing when the question
    /// failed.
    Info(Option<bool>),
    /// The collection was created, or the text of the index's refusal.
    Created(Result<(), String>),
    /// Whether the payload index was created.
    Indexed(bool),
}

/// The words by which the index says that a collection exists already.
pub open spec fn already_exists() -> Seq<char> {
    "already exists"@
}

/// What the service reports for an error.
pub open spec fn error_message(error: BootstrapError) -> Seq<char> {
    match error {
        BootstrapError::ConnectionFailed => "Failed to connect to Qdrant"@,
        BootstrapError::CollectionAlreadyExists => "Collection already exists"@,
        BootstrapError::CreateCollectionFailed => "Failed to create Collection"@,
        BootstrapError::CreateIndexFailed => "Failed to create index"@,
        BootstrapError::UnexpectedAnswer => "Unexpected answer"@,
    }
}

/// The setup fails.
pub open spec fn refuse(error: BootstrapError) -> (BootstrapState, BootstrapActionView) {
    (
        BootstrapState { phase: BootstrapPhase::Failed, error: Some(error) },
        BootstrapActionView::Conclude { result: Err(error) },
    )
}

/// The payload indexes from number `i` on: the next one is created; after
/// the last the setup concludes.
pub open spec fn index_from(i: int) -> (BootstrapState, BootstrapActionView) {
    if 0 <= i < field_indexes().len() {
        (
            BootstrapState { phase: BootstrapPhase::Indexing { next: i as usize }, error: None },
            BootstrapActionView::CreateFieldIndex { index: field_indexes()[i] },
        )
    } else {
        (
            BootstrapState { phase: BootstrapPhase::Created, error: None },
            BootstrapActionView::Conclude { result: Ok(()) },
        )
    }
}

/// The collection is created next.
pub open spec fn create(name: Seq<char>) -> (BootstrapState, BootstrapActionView) {
    (
        BootstrapState { phase: BootstrapPhase::Creating, error: None },
        BootstrapActionView::CreateCollection { schema: schema_of(name) },
    )
}

/// The decision of the setup of the collection `name`: the next state and
/// the next action, from the state and the answer to the action asked last.
///
/// A collection that the index knows is not created again. Where the
/// question fails, creation is tried, and a refusal that speaks of an
/// existing collection is reported as such.
pub open spec fn step(name: Seq<char>, s: BootstrapState, event: BootstrapEvent) -> (
    BootstrapState,
    BootstrapActionView,
) {
    match s.phase {
        BootstrapPhase::Ready => match event {
            BootstrapEvent::Start => (
                BootstrapState { phase: BootstrapPhase::Connecting, error: None },
                BootstrapActionView::Connect,
            ),
            _ => refuse(BootstrapError::UnexpectedAnswer),
        },
        BootstrapPhase::Connecting => match event {
            BootstrapEvent::Connected(true) => (
                BootstrapState { phase: BootstrapPhase::Checking, error: None },
                BootstrapActionView::CheckExists,
            ),
            BootstrapEvent::Connected(false) => refuse(BootstrapError::ConnectionFailed),
            _ => refuse(BootstrapError::UnexpectedAnswer),
        },
        BootstrapPhase::Checking => match event {
            BootstrapEvent::Info(Some(true)) => refuse(BootstrapError::CollectionAlreadyExists),
            BootstrapEvent::Info(_) => create(name),
            _ => refuse(BootstrapError::UnexpectedAnswer),
        },
        BootstrapPhase::Creating => match event {
            BootstrapEvent::Created(Ok(_)) => index_from(0),
            BootstrapEvent::Created(Err(text)) => if occurs_in(already_exists(), text@) {
                refuse(BootstrapError::CollectionAlreadyExists)
            } else {
                refuse(BootstrapError::CreateCollectionFailed)
            },
            _ => refuse(BootstrapError::UnexpectedAnswer),
        },
        BootstrapPhase::Indexing { next } => match event {
            BootstrapEvent::Indexed(true) => index_from(next + 1),
            BootstrapEvent::Indexed(false) => refuse(BootstrapError::CreateIndexFailed),
            _ => refuse(BootstrapError::UnexpectedAnswer),
        },
        BootstrapPhase::Created | BootstrapPhase::Failed => (s, BootstrapActionView::Idle),
    }
}

impl BootstrapError {
    /// The message of the error.
    pub fn message(&self) -> (message: &'static str)
        ensures
            message@ == error_message(*self),
    {
        match self {
            BootstrapError::ConnectionFailed => "Failed to connect to Qdrant",
            BootstrapError::CollectionAlreadyExists => "Collection already exists",
            BootstrapError::CreateCollectionFailed => "Failed to create Collection",
            BootstrapError::CreateIndexFailed => "Failed to create index",
            BootstrapError::UnexpectedAnswer => "Unexpected answer",
        }
    }

    /// The error as the service reports it: a rejected request with the
    /// error's message.
    pub fn to_service_error(&self) -> (error: ServiceError)
        ensures
            error matches ServiceError::BadRequest(m) && m@ == error_message(*self),
    {
        ServiceError::BadRequest(String::from_str(self.message()))
    }
}

impl BootstrapState {
    /// The state before anything was asked.
    pub fn new() -> (state: BootstrapState)
        ensures
            state == (BootstrapState { phase: BootstrapPhase::Ready, error: None }),
    {
        BootstrapState { phase: BootstrapPhase::Ready, error: None }
    }
}

fn refused(error: BootstrapError) -> (next: (BootstrapState, BootstrapAction))
    ensures
        (next.0, next.1@) == refuse(error),
{
    (
        BootstrapState { phase: BootstrapPhase::Failed, error: Some(error) },
        BootstrapAction::Conclude { result: Err(error) },
    )
}

fn indexes_from(i: usize) -> (next: (BootstrapState, BootstrapAction))
    ensures
        (next.0, next.1@) == index_from(i as int),
{
    let indexes = payload_indexes();
    if i < indexes.len() {
        (
            BootstrapState { phase: BootstrapPhase::Indexing { next: i }, error: None },
            BootstrapAction::CreateFieldIndex { index: indexes[i] },
        )
    } else {
        (
            BootstrapState { phase: BootstrapPhase::Created, error: None },
            BootstrapAction::Conclude { result: Ok(()) },
        )
    }
}

/// Decides the next state and the next action of the setup of the
/// collection `name`, as [`step`] says.
pub fn bootstrap_step(name: &str, state: BootstrapState, event: BootstrapEvent) -> (next: (
    BootstrapState,
    BootstrapAction,
))
    ensures
        (next.0, next.1@) == step(name@, state, event),
{
    match state.phase {
        BootstrapPhase::Ready => match event {
            BootstrapEvent::Start => (
                BootstrapState { phase: BootstrapPhase::Connecting, error: None },
                BootstrapAction::Connect,
            ),
            _ => refused(BootstrapError::UnexpectedAnswer),
        },
        BootstrapPhase::Connecting => match event {
            BootstrapEvent::Connected(true) => (
                BootstrapState { phase: BootstrapPhase::Checking, error: None },
                BootstrapAction::CheckExists,
            ),
            BootstrapEvent::Connected(false) => refused(BootstrapError::ConnectionFailed),
            _ => refused(BootstrapError::UnexpectedAnswer),
        },
        BootstrapPhase::Checking => match event {
            BootstrapEvent::Info(Some(true)) => refused(BootstrapError::CollectionAlreadyExists),
            BootstrapEvent::Info(_) => (
                BootstrapState { phase: BootstrapPhase::Creating, error: None },
                BootstrapAction::CreateCollection { schema: collection_schema(name) },
            ),
            _ => refused(BootstrapError::UnexpectedAnswer),
        },
        BootstrapPhase::Creating => match event {
            BootstrapEvent::Created(Ok(_)) => indexes_from(0),
            BootstrapEvent::Created(Err(text)) => {
                if contains_text(text.as_str(), "already exists") {
                    refused(BootstrapError::CollectionAlreadyExists)
                } else {
                    refused(BootstrapError::CreateCollectionFailed)
                }
            },
            _ => refused(BootstrapError::UnexpectedAnswer),
        },
        BootstrapPhase::Indexing { next } => match event {
            BootstrapEvent::Indexed(true) => {
                if next < usize::MAX {
                    indexes_from(next + 1)
                } else {
                    (
                        BootstrapState { phase: BootstrapPhase::Created, error: None },
                        BootstrapAction::Conclude { result: Ok(()) },
                    )
                }
            },
            BootstrapEvent::Indexed(false) => refused(BootstrapError::CreateIndexFailed),
            _ => refused(BootstrapError::UnexpectedAnswer),
        },
        BootstrapPhase::Created | BootstrapPhase::Failed => (state, BootstrapAction::Idle),
    }
}

/// Whether `event` can be the answer to `action` on an index that knows the
/// collections `before`, leaving it with the collections `after`.
///
/// The index answers the question for a collection truthfully when it
/// answers it. It creates a collection only when it does not know the name,
/// and refuses a known name in words that say so.
pub open spec fn index_answers(
    before: Set<Seq<char>>,
    name: Seq<char>,
    action: BootstrapActionView,
    event: BootstrapEvent,
    after: Set<Seq<char>>,
) -> bool {
    match action {
        BootstrapActionView::Connect => event is Connected && after == before,
        BootstrapActionView::CheckExists => {
            &&& event is Info
            &&& after == before
            &&& event matches BootstrapEvent::Info(Some(known)) ==> known == before.contains(name)
        },
        BootstrapActionView::CreateCollection { schema } => match event {
            BootstrapEvent::Created(Ok(_)) => !before.contains(schema.collection_name) && after
                == before.insert(schema.collection_name),
            BootstrapEvent::Created(Err(text)) => after == before && (before.contains(
                schema.collection_name,
            ) ==> occurs_in(already_exists(), text@)),
            _ => false,
        },
        BootstrapActionView::CreateFieldIndex { .. } => event is Indexed && after == before,
        BootstrapActionView::Conclude { .. } | BootstrapActionView::Idle => after == before,
    }
}

/// The action that a setup in the state `s` waits for.
pub open spec fn pending(name: Seq<char>, s: BootstrapState) -> BootstrapActionView {
    match s.phase {
        BootstrapPhase::Connecting => BootstrapActionView::Connect,
        BootstrapPhase::Checking => BootstrapActionView::CheckExists,
        BootstrapPhase::Creating => BootstrapActionView::CreateCollection { schema: schema_of(name) },
        BootstrapPhase::Indexing { next } => BootstrapActionView::CreateFieldIndex {
            index: field_indexes()[next as int],
        },
        _ => BootstrapActionView::Idle,
    }
}

/// The action that a step hands out is the one its state waits for.
pub proof fn lemma_step_hands_out_pending(name: Seq<char>, s: BootstrapState, event: BootstrapEvent)
    ensures
        ({
            let (after, action) = step(name, s, event);
            action is Conclude || action == pending(name, after)
        }),
{
}

/// A setup that creates the collection leaves the index knowing it.
pub proof fn lemma_created_collection_is_known(
    name: Seq<char>,
    s: BootstrapState,
    event: BootstrapEvent,
    before: Set<Seq<char>>,
    after: Set<Seq<char>>,
)
    requires
        s.phase == BootstrapPhase::Creating,
        event matches BootstrapEvent::Created(Ok(_)),
        index_answers(before, name, pending(name, s), event, after),
    ensures
        after.contains(name),
        !before.contains(name),
{
}

/// The setup is not idempotent: on an index that knows the collection, a
/// setup that gets as far as asking for it fails with
/// `CollectionAlreadyExists`. The question settles it when it is answered;
/// when it is not, the refused creation does. The index is left as it was.
pub proof fn lemma_known_collection_is_refused(
    name: Seq<char>,
    s: BootstrapState,
    event: BootstrapEvent,
    before: Set<Seq<char>>,
    after: Set<Seq<char>>,
)
    requires
        before.contains(name),
        s.phase == BootstrapPhase::Checking || s.phase == BootstrapPhase::Creating,
        index_answers(before, name, pending(name, s), event, after),
    ensures
        after == before,
        ({
            let (next, action) = step(name, s, event);
            ||| (s.phase == BootstrapPhase::Checking && event == BootstrapEvent::Info(None)
                && next.phase == BootstrapPhase::Creating)
            ||| (next.phase == BootstrapPhase::Failed && next.error == Some(
                BootstrapError::CollectionAlreadyExists,
            ) && action == (BootstrapActionView::Conclude {
                result: Err(BootstrapError::CollectionAlreadyExists),
            }))
        }),
{
}

/// A setup in which every call succeeds, on an index that does not know the
/// collection, creates it with the schema of its name and then creates the
/// seven payload indexes in order.
pub proof fn lemma_indexes_follow_in_order(name: Seq<char>, i: int)
    requires
        0 <= i < field_indexes().len(),
    ensures
        step(
            name,
            BootstrapState { phase: BootstrapPhase::Checking, error: None },
            BootstrapEvent::Info(Some(false)),
        ).1 == (BootstrapActionView::CreateCollection { schema: schema_of(name) }),
        step(
            name,
            BootstrapState { phase: BootstrapPhase::Creating, error: None },
            BootstrapEvent::Created(Ok(())),
        ).1 == (BootstrapActionView::CreateFieldIndex { index: field_indexes()[0] }),
        step(
            name,
            BootstrapState { phase: BootstrapPhase::Indexing { next: i as usize }, error: None },
            BootstrapEvent::Indexed(true),
        ).1 == if i + 1 < field_indexes().len() {
            BootstrapActionView::CreateFieldIndex { index: field_indexes()[i + 1] }
        } else {
            BootstrapActionView::Conclude { result: Ok(()) }
        },
{
}


/// The state of a setup, and the action it waits for, after it was started
/// and took the answers `events` in turn.
pub open spec fn after_answers(name: Seq<char>, events: Seq<BootstrapEvent>) -> (
    BootstrapState,
    BootstrapActionView,
)
    decreases events.len(),
{
    if events.len() == 0 {
        step(
            name,
            BootstrapState { phase: BootstrapPhase::Ready, error: None },
            BootstrapEvent::Start,
        )
    } else {
        step(name, after_answers(name, events.drop_last()).0, events.last())
    }
}

/// Whether `indexes` is a history of the collections that the index knows
/// along a setup: one more entry than there are answers, and each answer
/// leads from one entry to the next.
pub open spec fn is_index_history(
    name: Seq<char>,
    events: Seq<BootstrapEvent>,
    indexes: Seq<Set<Seq<char>>>,
) -> bool {
    &&& indexes.len() == events.len() + 1
    &&& forall|i: int|
        0 <= i < events.len() ==> index_answers(
            #[trigger] indexes[i],
            name,
            after_answers(name, events.take(i)).1,
            events[i],
            indexes[i + 1],
        )
}

/// What holds along a setup on an index that knows the collection: the
/// setup has not got past the creation, and where it has failed, it has
/// failed for want of a connection or because the collection exists.
pub open spec fn stopped_by_known_collection(
    name: Seq<char>,
    s: BootstrapState,
    action: BootstrapActionView,
) -> bool {
    match s.phase {
        BootstrapPhase::Connecting | BootstrapPhase::Checking | BootstrapPhase::Creating => {
            action == pending(name, s)
        },
        BootstrapPhase::Failed => {
            &&& s.error == Some(BootstrapError::ConnectionFailed) || s.error == Some(
                BootstrapError::CollectionAlreadyExists,
            )
            &&& action is Conclude || action is Idle
        },
        _ => false,
    }
}

/// A second setup fails: on an index that knows the collection, whatever the
/// index answers, a setup never creates anything, never reaches the payload
/// indexes, and where it ends, it ends with `CollectionAlreadyExists`,
/// unless it found no connection. The index is left as it was.
pub proof fn lemma_second_setup_fails(
    name: Seq<char>,
    events: Seq<BootstrapEvent>,
    indexes: Seq<Set<Seq<char>>>,
)
    requires
        is_index_history(name, events, indexes),
        indexes[0].contains(name),
    ensures
        indexes.last() == indexes[0],
        stopped_by_known_collection(
            name,
            after_answers(name, events).0,
            after_answers(name, events).1,
        ),
    decreases events.len(),
{
    if events.len() > 0 {
        let n = events.len() - 1;
        let earlier = events.drop_last();
        let before = indexes.drop_last();
        assert(events.take(n) == earlier);
        assert forall|i: int| 0 <= i < earlier.len() implies index_answers(
            #[trigger] before[i],
            name,
            after_answers(name, earlier.take(i)).1,
            earlier[i],
            before[i + 1],
        ) by {
            assert(earlier.take(i) == events.take(i));
            assert(before[i] == indexes[i]);
        }
        lemma_second_setup_fails(name, earlier, before);
        assert(before.last() == indexes[n]);
        assert(before[0] == indexes[0]);
        assert(index_answers(
            indexes[n],
            name,
            after_answers(name, earlier).1,
            events[n],
            indexes[n + 1],
        ));
    }
}

/// What holds along a setup once the collection is created: the index
/// knows it.
pub open spec fn created_is_known(name: Seq<char>, s: BootstrapState, action: BootstrapActionView, index: Set<
    Seq<char>,
>) -> bool {
    &&& match s.phase {
        BootstrapPhase::Indexing { .. } | BootstrapPhase::Created => index.contains(name),
        BootstrapPhase::Creating => action == pending(name, s),
        _ => true,
    }
    &&& action is CreateCollection ==> s.phase == BootstrapPhase::Creating
}

/// A setup that succeeds has created the collection: at its end the index
/// knows it.
pub proof fn lemma_successful_setup_creates(
    name: Seq<char>,
    events: Seq<BootstrapEvent>,
    indexes: Seq<Set<Seq<char>>>,
)
    requires
        is_index_history(name, events, indexes),
    ensures
        created_is_known(
            name,
            after_answers(name, events).0,
            after_answers(name, events).1,
            indexes.last(),
        ),
        after_answers(name, events).0.phase == BootstrapPhase::Created ==> indexes.last().contains(
            name,
        ),
    decreases events.len(),
{
    if events.len() > 0 {
        let n = events.len() - 1;
        let earlier = events.drop_last();
        let before = indexes.drop_last();
        assert(events.take(n) == earlier);
        assert forall|i: int| 0 <= i < earlier.len() implies index_answers(
            #[trigger] before[i],
            name,
            after_answers(name, earlier.take(i)).1,
            earlier[i],
            before[i + 1],
        ) by {
            assert(earlier.take(i) == events.take(i));
            assert(before[i] == indexes[i]);
        }
        lemma_successful_setup_creates(name, earlier, before);
        assert(before.last() == indexes[n]);
        assert(index_answers(
            indexes[n],
            name,
            after_answers(name, earlier).1,
            events[n],
            indexes[n + 1],
        ));
    }
}

} // verus!
