//! The request line: what a client asks for, and how the server reads it.

use vstd::prelude::*;
use vstd::slice::{slice_subrange, slice_to_vec};
use crate::wire::{ascii_bytes, same_ignoring_case, spells, upper_all, NEWLINE, SPACE};

verus! {

/// The three things a client can ask for.
#[derive(Debug, Clone, Copy, PartialEq, Eq, Structural)]
pub enum Method {
    /// Fetch the contents of a file.
    Get,
    /// Tell what kind of entry a path names, and how large it is.
    Info,
    /// List the entries of a directory.
    Dir,
}

/// A request as read off the wire. The path is the client's, unchecked.
#[derive(Debug, Clone, PartialEq, Eq)]
pub enum Request {
    Get(Vec<u8>),
    Info(Vec<u8>),
    Dir(Vec<u8>),
}

/// Why no request could be read from a connection.
#[derive(Debug, Clone, Copy, PartialEq, Eq, Structural)]
pub enum RequestError {
    /// The line could not be read from the connection.
    Read,
    /// The line holds no space, so it has no method and path.
    BadRequest,
    /// The token before the first space names no method.
    BadMethod,
}

impl Method {
    /// The token that names the method on the wire.
    pub open spec fn token(self) -> Seq<char> {
        match self {
            Method::Get => "GET"@,
            Method::Info => "INFO"@,
            Method::Dir => "DIR"@,
        }
    }

    /// The token that names the method on the wire.
    pub fn as_str(&self) -> (s: &'static str)
        ensures
            s@ == self.token(),
            s.is_ascii(),
    {
        proof {
            reveal_strlit("GET");
            reveal_strlit("INFO");
            reveal_strlit("DIR");
        }
        match self {
            Method::Get => "GET",
            Method::Info => "INFO",
            Method::Dir => "DIR",
        }
    }
}

impl View for Request {
    type V = (Method, Seq<u8>);

    /// The method, and the path byte for byte.
    open spec fn view(&self) -> (Method, Seq<u8>) {
        match self {
            Request::Get(path) => (Method::Get, path@),
            Request::Info(path) => (Method::Info, path@),
            Request::Dir(path) => (Method::Dir, path@),
        }
    }
}

impl Request {
    /// A request for `path` by the given method.
    pub fn new(method: Method, path: Vec<u8>) -> (request: Request)
        ensures
            request@ == (method, path@),
    {
        match method {
            Method::Get => Request::Get(path),
            Method::Info => Request::Info(path),
            Method::Dir => Request::Dir(path),
        }
    }

    /// Which of the three requests this is.
    pub fn method(&self) -> (method: Method)
        ensures
            method == self@.0,
    {
        match self {
            Request::Get(_) => Method::Get,
            Request::Info(_) => Method::Info,
            Request::Dir(_) => Method::Dir,
        }
    }

    /// The virtual path that all three kinds of request carry.
    pub fn path(&self) -> (path: &Vec<u8>)
        ensures
            path@ == self@.1,
    {
        match self {
            Request::Get(path) => path,
            Request::Info(path) => path,
            Request::Dir(path) => path,
        }
    }
}

/// The method that a token names, whatever the case of its letters.
pub open spec fn method_named(token: Seq<u8>) -> Option<Method> {
    if upper_all(token) == ascii_bytes(Method::Get.token()) {
        Some(Method::Get)
    } else if upper_all(token) == ascii_bytes(Method::Info.token()) {
        Some(Method::Info)
    } else if upper_all(token) == ascii_bytes(Method::Dir.token()) {
        Some(Method::Dir)
    } else {
        None
    }
}

/// The first space of `line` is at `i`.
pub open spec fn first_space_at(line: Seq<u8>, i: int) -> bool {
    &&& 0 <= i < line.len()
    &&& line[i] == SPACE
    &&& forall|k: int| 0 <= k < i ==> line[k] != SPACE
}

/// What a line without its terminator asks for. The token before the first
/// space names the method; all that follows that space is the path, further
/// spaces included.
pub open spec fn parse_line(line: Seq<u8>) -> Result<(Method, Seq<u8>), RequestError> {
    if exists|i: int| first_space_at(line, i) {
        let i = choose|i: int| first_space_at(line, i);
        match method_named(line.take(i)) {
            Some(method) => Ok((method, line.skip(i + 1))),
            None => Err(RequestError::BadMethod),
        }
    } else {
        Err(RequestError::BadRequest)
    }
}

/// A line as read, without its last byte, the terminator.
pub open spec fn without_terminator(raw: Seq<u8>) -> Seq<u8> {
    if raw.len() > 0 {
        raw.drop_last()
    } else {
        raw
    }
}

/// What the outcome of reading one line from a connection asks for.
pub open spec fn parse_request(raw: Option<Seq<u8>>) -> Result<(Method, Seq<u8>), RequestError> {
    match raw {
        None => Err(RequestError::Read),
        Some(raw) => parse_line(without_terminator(raw)),
    }
}

/// The view of what `get_request` returns.
pub open spec fn request_view(r: Result<Request, RequestError>) -> Result<
    (Method, Seq<u8>),
    RequestError,
> {
    match r {
        Ok(request) => Ok(request@),
        Err(e) => Err(e),
    }
}

/// Only one position is that of the first space.
pub proof fn first_space_is_unique(line: Seq<u8>, i: int, j: int)
    requires
        first_space_at(line, i),
        first_space_at(line, j),
    ensures
        i == j,
{
}

/// The request line that carries `token` and `path`, terminator included.
pub open spec fn line_of(token: Seq<u8>, path: Seq<u8>) -> Seq<u8> {
    token + seq![SPACE] + path + seq![NEWLINE]
}

/// A line is split at the space that follows a token without spaces.
proof fn splits_after_token(token: Seq<u8>, path: Seq<u8>)
    requires
        !token.contains(SPACE),
    ensures
        parse_line(token + seq![SPACE] + path) == match method_named(token) {
            Some(method) => Ok::<(Method, Seq<u8>), RequestError>((method, path)),
            None => Err(RequestError::BadMethod),
        },
{
    let line = token + seq![SPACE] + path;
    let at = token.len() as int;
    assert(first_space_at(line, at));
    let chosen = choose|i: int| first_space_at(line, i);
    first_space_is_unique(line, at, chosen);
    assert(line.take(at) =~= token);
    assert(line.skip(at + 1) =~= path);
}

/// The name of a method, in any letter case, holds no space and names that
/// method alone.
proof fn names_are_distinct(method: Method, token: Seq<u8>)
    requires
        same_ignoring_case(token, ascii_bytes(method.token())),
    ensures
        !token.contains(SPACE),
        method_named(token) == Some(method),
{
    reveal_strlit("GET");
    reveal_strlit("INFO");
    reveal_strlit("DIR");
    let name = ascii_bytes(method.token());
    assert(upper_all(name) =~= name);
    if token.contains(SPACE) {
        let k = choose|k: int| 0 <= k < token.len() && token[k] == SPACE;
        assert(name[k] == SPACE);
    }
    let get = ascii_bytes(Method::Get.token());
    let info = ascii_bytes(Method::Info.token());
    let dir = ascii_bytes(Method::Dir.token());
    assert(get[0] != dir[0]);
}

/// A request line whose method token is none of GET, INFO and DIR, whatever
/// the case of its letters, is refused.
pub proof fn unknown_method_is_refused(token: Seq<u8>, path: Seq<u8>)
    requires
        !token.contains(SPACE),
        !same_ignoring_case(token, ascii_bytes(Method::Get.token())),
        !same_ignoring_case(token, ascii_bytes(Method::Info.token())),
        !same_ignoring_case(token, ascii_bytes(Method::Dir.token())),
    ensures
        parse_request(Some(line_of(token, path))) == Err::<(Method, Seq<u8>), RequestError>(
            RequestError::BadMethod,
        ),
{
    reveal_strlit("GET");
    reveal_strlit("INFO");
    reveal_strlit("DIR");
    assert(upper_all(ascii_bytes(Method::Get.token())) =~= ascii_bytes(Method::Get.token()));
    assert(upper_all(ascii_bytes(Method::Info.token())) =~= ascii_bytes(Method::Info.token()));
    assert(upper_all(ascii_bytes(Method::Dir.token())) =~= ascii_bytes(Method::Dir.token()));
    assert(without_terminator(line_of(token, path)) =~= token + seq![SPACE] + path);
    splits_after_token(token, path);
}

/// A request line whose method token is GET, INFO or DIR in any letter case
/// yields the request of that method, with the rest of the line as its path.
pub proof fn method_in_any_case_is_accepted(method: Method, token: Seq<u8>, path: Seq<u8>)
    requires
        same_ignoring_case(token, ascii_bytes(method.token())),
    ensures
        parse_request(Some(line_of(token, path))) == Ok::<(Method, Seq<u8>), RequestError>(
            (method, path),
        ),
{
    names_are_distinct(method, token);
    assert(without_terminator(line_of(token, path)) =~= token + seq![SPACE] + path);
    splits_after_token(token, path);
}

/// A line without any space is refused, whatever else it holds.
pub proof fn line_without_space_is_refused(text: Seq<u8>)
    requires
        !text.contains(SPACE),
    ensures
        parse_request(Some(text + seq![NEWLINE])) == Err::<(Method, Seq<u8>), RequestError>(
            RequestError::BadRequest,
        ),
{
    let line = without_terminator(text + seq![NEWLINE]);
    assert forall|i: int| !first_space_at(line, i) by {}
}

/// Tells which method a token names.
pub fn method_of(token: &[u8]) -> (method: Option<Method>)
    ensures
        method == method_named(token@),
{
    if spells(token, Method::Get.as_str()) {
        Some(Method::Get)
    } else if spells(token, Method::Info.as_str()) {
        Some(Method::Info)
    } else if spells(token, Method::Dir.as_str()) {
        Some(Method::Dir)
    } else {
        None
    }
}

/// Turns the outcome of reading one line from a fresh connection into a
/// request. `line` is `None` where the read failed; otherwise it holds the
/// bytes up to and including the terminator.
pub fn get_request(line: Option<Vec<u8>>) -> (request: Result<Request, RequestError>)
    ensures
        request_view(request) == parse_request(
            match line {
                Some(raw) => Some(raw@),
                None => None,
            },
        ),
{
    let mut raw = match line {
        Some(raw) => raw,
        None => { return Err(RequestError::Read); },
    };
    let ghost read = raw@;
    raw.pop();
    let bytes = raw.as_slice();
    let n: usize = bytes.len();
    let mut i: usize = 0;
    while i < n && bytes[i] != SPACE
        invariant
            n == bytes.len(),
            i <= n,
            forall|k: int| 0 <= k < i ==> bytes@[k] != SPACE,
        decreases n - i,
    {
        i += 1;
    }
    if i == n {
        assert forall|j: int| !first_space_at(bytes@, j) by {}
        return Err(RequestError::BadRequest);
    }
    proof {
        let chosen = choose|j: int| first_space_at(bytes@, j);
        first_space_is_unique(bytes@, i as int, chosen);
    }
    let token = slice_subrange(bytes, 0, i);
    match method_of(token) {
        Some(method) => {
            let path = slice_to_vec(slice_subrange(bytes, i + 1, n));
            Ok(Request::new(method, path))
        },
        None => Err(RequestError::BadMethod),
    }
}

} // verus!
