//! Client-side logic for negotiating, monitoring and retrieving transcoded
//! renditions of media items from a Plex-style media server.
//!
//! The crate covers the four core components of that workflow: encoding
//! abstract transcode preferences into the server's client-profile
//! mini-language, interpreting the server's negotiation decisions, driving a
//! synchronous transcode session, and managing the server-side download
//! queue. All operations are modelled as pure request builders and response
//! interpreters: an unverified driver performs the actual HTTP round trips
//! and hands the plain status codes, headers and decoded bodies back to the
//! functions here.

pub mod client;
pub mod decision;
pub mod error;
pub mod media;
pub mod profile;
pub mod query;
pub mod queue;
pub mod request;
pub mod session;
pub mod text;
