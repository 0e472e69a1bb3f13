//! Core of a HotStuff-family Byzantine fault tolerant consensus engine:
//! the shared consensus state, vote accumulation into threshold
//! certificates, the data-availability and quorum-proposal task logic, the
//! request/response layer for catch-up, and the versioned wire codec.

pub mod accumulator;
pub mod bytes;
pub mod channel;
pub mod codec;
pub mod consensus;
pub mod crypto;
pub mod da;
pub mod data;
pub mod membership;
pub mod message;
pub mod network;
pub mod node_types;
pub mod quorum_proposal;
pub mod quorum_proposal_recv;
pub mod quorum_vote;
pub mod request;
pub mod response;
pub mod safety;
pub mod storage;
pub mod view_change;
pub mod vmap;
