//! A peer-to-peer chat relay: it merges messages from a local web client and
//! from remote peers into one archive per counterparty, forwards local sends to
//! their target, and tells the local UI of new messages.
pub mod archive;
pub mod protocol;
pub mod relay;
pub mod bridge;
pub mod laws;
