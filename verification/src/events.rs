//! Events handed to the event sink.

use vstd::prelude::*;

verus! {

/// What happened to a chunk.
#[derive(Debug, Clone, PartialEq, Eq)]
pub enum EventType {
    CardUploaded { chunk_id: u128 },
    CardUploadFailed { chunk_id: u128, error: String },
}

/// An event of a dataset.
#[derive(Debug, Clone, PartialEq, Eq)]
pub struct Event {
    pub dataset_id: u128,
    pub event_type: EventType,
}

/// The mathematical content of an [`EventType`].
pub enum EventTypeView {
    CardUploaded { chunk_id: u128 },
    CardUploadFailed { chunk_id: u128, error: Seq<char> },
}

/// The mathematical content of an [`Event`].
pub struct EventView {
    pub dataset_id: u128,
    pub event_type: EventTypeView,
}

impl View for EventType {
    type V = EventTypeView;

    open spec fn view(&self) -> EventTypeView {
        match self {
            EventType::CardUploaded { chunk_id } => EventTypeView::CardUploaded {
                chunk_id: *chunk_id,
            },
            EventType::CardUploadFailed { chunk_id, error } => EventTypeView::CardUploadFailed {
                chunk_id: *chunk_id,
                error: error@,
            },
        }
    }
}

impl View for Event {
    type V = EventView;

    open spec fn view(&self) -> EventView {
        EventView { dataset_id: self.dataset_id, event_type: self.event_type@ }
    }
}

impl Event {
    /// An event of the dataset `dataset_id`.
    pub fn from_details(dataset_id: u128, event_type: EventType) -> (event: Event)
        ensures
            event.dataset_id == dataset_id,
            event.event_type == event_type,
    {
        Event { dataset_id, event_type }
    }
}

} // verus!
