//! The rules of a chat service with servers, channels, direct messages and
//! reactions: who may do what, what each request stores and answers, and
//! which notices reach which clients.  The database, the HTTP layer and the
//! websocket plumbing call these functions and carry out what they decide.
pub mod text;
pub mod domain;
pub mod application;
pub mod infrastructure;
pub mod properties;
