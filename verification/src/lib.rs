//! A small static file server, modelled as verified pure logic: request
//! parsing, bearer-token authorization, content-type lookup and the
//! per-connection decision procedure. All I/O is left to the caller, which
//! performs the actions this crate asks for and reports what happened.

pub mod text;
pub mod content_type;
pub mod request;
pub mod auth;
pub mod response;
pub mod handler;
pub mod world;
