//! An embeddable HTTP/HTTPS server core driven by a block-structured
//! directive language (`server`, `listen`, `server_name`, `location`, `ssl`).
//!
//! The crate performs no I/O. It turns a tree of configuration blocks into a
//! run-ready [`http_server::HttpServer`], decides what an accept loop does
//! next, and computes the reply to the bytes read from a connection. Sockets,
//! threads and the TLS record layer are driven by the embedding program.

pub mod config;
pub mod connection;
pub mod directive;
pub mod http_location;
pub mod http_server;
pub mod http_ssl;
pub mod http_type;
pub mod processor;
pub mod text;
