//! A durable FIFO message queue backed by a transactional relational table.
//!
//! One named queue is one table. Enqueue appends a row whose identity and
//! insertion timestamp the engine generates; dequeue atomically selects the
//! oldest unclaimed row, locks it (skipping rows locked by concurrent
//! claims), deletes it, and returns it, so that no two concurrent consumers
//! ever receive the same message.

mod client;
mod error;
mod message;
mod model;
mod pg;
mod statements;

pub use client::claim_from_rows;
pub use client::spec_anomaly_message;
pub use client::QueueClient;
pub use error::Failure;
pub use message::QueueMessage;
pub use model::contains_id;
pub use model::ordered_ids;
pub use model::ModelMessage;
pub use model::QueueModel;
pub use statements::create_statement;
pub use statements::dequeue_statement;
pub use statements::insert_statement;
pub use statements::spec_create_statement;
pub use statements::spec_dequeue_statement;
pub use statements::spec_insert_statement;
