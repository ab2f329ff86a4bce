//! Ingestion core of a vector-search backend.
//!
//! Document chunks arrive as ingestion messages, are classified into a
//! single-item or a bulk path, embedded, checked for near-duplicates and
//! written to a relational metadata store and a vector index. The decisions
//! of that pipeline live here, each with a contract; performing the remote
//! calls is left to the caller.
//!
//! The modules, along the way of a message:
//!
//! - [`model`], [`score`], [`vectors`], [`ids`]: the data. Identifiers are
//!   128-bit integers, vector components and thresholds are single-precision
//!   bit patterns.
//! - [`queue`]: the replies of the queue become a batch of messages.
//! - [`classifier`]: a batch is split into the single-item and the bulk set.
//! - [`embedding`], [`chunker`]: retries of the embedding service, splitting
//!   of long contents, and the shape rule of averaging.
//! - [`upload`]: the single-item pipeline as a state machine.
//! - [`bulk`]: the decisions of the bulk pipeline.
//! - [`gateway`], [`stores`], [`linkage`]: decisions of the two gateways, a
//!   model of the two stores, and the proof that the pipelines keep every
//!   metadata row linked to a point.
//! - [`schema`], [`bootstrap`]: the shape of the vector collection and its
//!   one-time creation.
//! - [`events`], [`errors`], [`text`]: what leaves the library.
//! - [`credentials`], [`invitation`], [`email`], [`user`]: the rules of the
//!   surrounding service for API keys, invitations, mails and users.

pub mod score;
pub mod text;
pub mod vectors;
pub mod errors;
pub mod ids;
pub mod events;
pub mod model;
pub mod queue;
pub mod classifier;
pub mod embedding;
pub mod chunker;
pub mod upload;
pub mod bulk;
pub mod gateway;
pub mod stores;
pub mod linkage;
pub mod schema;
pub mod bootstrap;
pub mod credentials;
pub mod invitation;
pub mod email;
pub mod user;
