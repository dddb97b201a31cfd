//! Session- and epoch-scoped coordinator for consuming a partitioned,
//! offset-addressed message log.
//!
//! A consumption lineage is identified by an opaque [`session::NodeStreamSessionId`],
//! which maps deterministically to a consumer-group identifier. A
//! [`consumer::NodeStreamConsumer`] binds a broker address, a session, an
//! epoch and a topic capability, and drives the poll protocol: fetch,
//! per-batch decode, local marking, and a single commit once every batch of
//! the call decoded and was marked cleanly. The network transport itself is
//! the embedding shell's affair; this crate states and verifies the protocol
//! decisions.

pub mod consumer;
pub mod decimal;
pub mod session;
pub mod topic;

pub use session::NodeStreamSessionId;
