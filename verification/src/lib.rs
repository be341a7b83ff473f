//! The core of a programmable HTTP gateway.
//!
//! Operators store snippets of JavaScript, the request processors, each
//! under an identifier. A client invokes a processor by sending any HTTP
//! request to a path that names it. The processor's code sees the request,
//! may issue outbound HTTP calls, write log entries and set the final
//! response; every step is recorded as an audit item of the invocation's
//! conversation.
//!
//! This crate holds the rules of the gateway and performs no I/O:
//!
//! - the data model: [`request`], [`response`], [`headers`], [`processor`],
//!   [`conversation`], [`audit`], and the order in which audit items are
//!   shown, [`chronology`];
//! - the store of processors, conversations and audit items, [`storage`],
//!   with the rows that it keeps, [`rows`], and the commands that it
//!   accepts, [`command`];
//! - the state of one invocation and the operations that the processor's
//!   code reaches it by, [`runtime`], with what is checked before an outbound
//!   call, [`outbound`];
//! - the engine actor's protocol, [`engine`];
//! - the wire format, [`wire`], over JSON documents, [`json`];
//! - the HTTP surface, [`route`], the error taxonomy, [`error`], and what the
//!   HTTP front end does with a request and with the reply to it,
//!   [`frontend`];
//! - texts that show values to a reader, [`show`];
//! - what holds across these, [`laws`].
//!
//! Identifiers are 128-bit values, written as hyphenated lower-case
//! hexadecimal text. Times are nanoseconds since the Unix epoch, in UTC.

pub mod audit;
pub mod chronology;
pub mod command;
pub mod conversation;
pub mod engine;
pub mod error;
pub mod frontend;
pub mod headers;
pub mod ident;
pub mod json;
pub mod laws;
pub mod lookup;
pub mod outbound;
pub mod processor;
pub mod request;
pub mod response;
pub mod route;
pub mod rows;
pub mod runtime;
pub mod show;
pub mod storage;
pub mod text;
pub mod wire;
