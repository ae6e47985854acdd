//! A gateway library for a read-only sports-statistics service.
//!
//! The service answers HTTP requests by running textual queries against a
//! remote database over a secure shell session and converting the
//! pipe-delimited output into named records.  This crate holds the verified
//! core of that pipeline: building the query text from optional filters,
//! parsing the delimited result text under a fixed column schema, and
//! mapping transport outcomes to a uniform response envelope.  The network
//! transport itself (TCP, handshake, authentication, remote execution) is
//! ordinary I/O and lives outside the library.

pub mod numeral;
pub mod parser;
pub mod repository;
pub mod response;
pub mod text;
