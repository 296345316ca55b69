//! Core of a small HTTP gateway: a reverse proxy that routes requests by
//! path prefix to one of several upstream services, and the stateless
//! token-based authentication scheme those services share.
//!
//! The proxy side is pure request/response transformation: matching a path
//! against an ordered prefix table, rewriting the target URL, copying
//! headers (except `Host`) and the body verbatim, and relaying the
//! upstream's answer back. The authentication side issues signed identity
//! tokens, decodes and checks them, and extracts a caller identity from an
//! `Authorization: Bearer` header. All network, clock, database and crypto
//! effects sit behind narrow, documented boundaries; everything that
//! decides is specified and verified.

pub mod account;
pub mod auth;
pub mod bytestr;
pub mod http;
pub mod ids;
pub mod proxy;
pub mod routes;
pub mod tasks;
pub mod token;
