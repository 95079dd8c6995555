//! A minimal line-oriented file-transfer protocol, as a library of
//! decisions.
//!
//! A server exposes a directory tree. A client sends one line, a method and
//! a virtual path, and gets back a status line, a header line that holds a
//! JSON object, and for some requests a payload. Each connection carries
//! one such exchange.
//!
//! The library holds everything that is decided on the way: how a request
//! line is read ([`request`]), which paths are fit to be resolved
//! ([`utils`]) and where they lie under the served root ([`location`]),
//! which response a request gets for what the file system says
//! ([`resolver`]), and which bytes go on the wire for it ([`response`],
//! [`header`]), together with the client's side of the same format
//! ([`client`]). It opens no socket and no file: the caller reads and
//! writes, and hands the library plain values.

use vstd::prelude::*;

pub mod client;
pub mod header;
pub mod location;
pub mod request;
pub mod resolver;
pub mod response;
pub mod utils;
pub mod wire;

verus! {

/// Outcome class that opens every response on the wire.
#[derive(Debug, Clone, Copy, PartialEq, Eq, Structural)]
pub enum StatusCode {
    OK,
    NotExist,
    NotDirectory,
    NotFile,
    ServerError,
    BadRequest,
}

impl StatusCode {
    /// The canonical token of the status on the wire.
    pub open spec fn token(self) -> Seq<char> {
        match self {
            StatusCode::OK => "OK"@,
            StatusCode::NotExist => "NOT-EXIST"@,
            StatusCode::NotDirectory => "NOT-DIRECTORY"@,
            StatusCode::NotFile => "NOT-FILE"@,
            StatusCode::ServerError => "SERVER-ERROR"@,
            StatusCode::BadRequest => "BAD-REQUEST"@,
        }
    }

    /// The canonical token of the status on the wire.
    pub fn as_str(&self) -> (token: &'static str)
        ensures
            token@ == self.token(),
            token.is_ascii(),
    {
        proof {
            reveal_strlit("OK");
            reveal_strlit("NOT-EXIST");
            reveal_strlit("NOT-DIRECTORY");
            reveal_strlit("NOT-FILE");
            reveal_strlit("SERVER-ERROR");
            reveal_strlit("BAD-REQUEST");
        }
        match self {
            StatusCode::OK => "OK",
            StatusCode::NotExist => "NOT-EXIST",
            StatusCode::NotDirectory => "NOT-DIRECTORY",
            StatusCode::NotFile => "NOT-FILE",
            StatusCode::ServerError => "SERVER-ERROR",
            StatusCode::BadRequest => "BAD-REQUEST",
        }
    }

    /// The canonical token of the status, as an owned string.
    pub fn to_string(&self) -> (token: String)
        ensures
            token@ == self.token(),
    {
        self.as_str().to_owned()
    }
}

} // verus!
