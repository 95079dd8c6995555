//! The client's side of the exchange: the request line it sends, and the
//! status line it gets back.

use vstd::prelude::*;
use vstd::slice::slice_subrange;
use crate::request::{line_of, method_in_any_case_is_accepted, parse_request, Method, RequestError};
use crate::response::PendingModel;
use crate::utils::{is_sanitary, sanitize_request_path};
use crate::wire::{
    ascii_bytes, first_line, is_blank, line_is_read_whole, push_text, spells, upper_all, NEWLINE,
    SPACE,
};
use crate::StatusCode;

verus! {

/// Why the client gave up on an exchange.
#[derive(Debug, Clone, Copy, PartialEq, Eq, Structural)]
pub enum ClientError {
    /// The path to ask for is not sanitary; nothing was sent.
    BadRequestPath,
    /// The first line of the response names no status.
    UnknownStatusCode,
}

/// The request line that asks for `path` by `method`.
pub open spec fn request_line(method: Method, path: Seq<u8>) -> Seq<u8> {
    line_of(ascii_bytes(method.token()), path)
}

/// Builds the line that asks for `path` by `method`. A path that the server
/// would refuse is refused here, before anything is sent.
pub fn request(method: Method, path: &[u8]) -> (line: Result<Vec<u8>, ClientError>)
    ensures
        match line {
            Ok(bytes) => is_sanitary(path@) && bytes@ == request_line(method, path@),
            Err(e) => !is_sanitary(path@) && e == ClientError::BadRequestPath,
        },
{
    if !sanitize_request_path(path) {
        return Err(ClientError::BadRequestPath);
    }
    let mut line: Vec<u8> = Vec::new();
    push_text(&mut line, method.as_str());
    line.push(SPACE);
    line.extend_from_slice(path);
    line.push(NEWLINE);
    assert(line@ =~= request_line(method, path@));
    Ok(line)
}

/// What the client sends for a request is read by the server as that
/// request, same method and same path, provided that the path holds no
/// newline. What the client may send after the line does not matter.
pub proof fn request_is_read_back(method: Method, path: Seq<u8>, rest: Seq<u8>)
    requires
        !path.contains(NEWLINE),
    ensures
        parse_request(Some(first_line(request_line(method, path) + rest))) == Ok::<
            (Method, Seq<u8>),
            RequestError,
        >((method, path)),
{
    reveal_strlit("GET");
    reveal_strlit("INFO");
    reveal_strlit("DIR");
    let token = ascii_bytes(method.token());
    let text = token + seq![SPACE] + path;
    assert forall|k: int| 0 <= k < text.len() implies text[k] != NEWLINE by {
        if k > token.len() {
            assert(path.contains(path[k - token.len() - 1]));
        }
    }
    assert(request_line(method, path) + rest =~= text + seq![NEWLINE] + rest);
    line_is_read_whole(text, rest);
    method_in_any_case_is_accepted(method, token, path);
}

/// A line without the white space at its end.
pub open spec fn trimmed(line: Seq<u8>) -> Seq<u8>
    decreases line.len(),
{
    if line.len() > 0 && is_blank(line.last()) {
        trimmed(line.drop_last())
    } else {
        line
    }
}

/// The status that a token names, whatever the case of its letters.
pub open spec fn status_named(token: Seq<u8>) -> Option<StatusCode> {
    if upper_all(token) == ascii_bytes(StatusCode::OK.token()) {
        Some(StatusCode::OK)
    } else if upper_all(token) == ascii_bytes(StatusCode::NotExist.token()) {
        Some(StatusCode::NotExist)
    } else if upper_all(token) == ascii_bytes(StatusCode::NotFile.token()) {
        Some(StatusCode::NotFile)
    } else if upper_all(token) == ascii_bytes(StatusCode::NotDirectory.token()) {
        Some(StatusCode::NotDirectory)
    } else if upper_all(token) == ascii_bytes(StatusCode::ServerError.token()) {
        Some(StatusCode::ServerError)
    } else if upper_all(token) == ascii_bytes(StatusCode::BadRequest.token()) {
        Some(StatusCode::BadRequest)
    } else {
        None
    }
}

/// The status that the first line of a response gives: the line is taken
/// without the white space at its end, and the case of its letters is
/// ignored.
pub open spec fn status_of_line(line: Seq<u8>) -> Option<StatusCode> {
    status_named(trimmed(line))
}

/// Reads the status from the first line of a response.
pub fn read_status_code(line: &[u8]) -> (status: Result<StatusCode, ClientError>)
    ensures
        status == match status_of_line(line@) {
            Some(code) => Ok::<StatusCode, ClientError>(code),
            None => Err(ClientError::UnknownStatusCode),
        },
{
    let mut end: usize = line.len();
    assert(line@.take(end as int) =~= line@);
    while end > 0 && blank(line[end - 1])
        invariant
            end <= line.len(),
            trimmed(line@) == trimmed(line@.take(end as int)),
        decreases end,
    {
        assert(line@.take(end as int).drop_last() =~= line@.take(end - 1));
        end -= 1;
    }
    let token = slice_subrange(line, 0, end);
    assert(trimmed(line@) == token@);
    if spells(token, StatusCode::OK.as_str()) {
        Ok(StatusCode::OK)
    } else if spells(token, StatusCode::NotExist.as_str()) {
        Ok(StatusCode::NotExist)
    } else if spells(token, StatusCode::NotFile.as_str()) {
        Ok(StatusCode::NotFile)
    } else if spells(token, StatusCode::NotDirectory.as_str()) {
        Ok(StatusCode::NotDirectory)
    } else if spells(token, StatusCode::ServerError.as_str()) {
        Ok(StatusCode::ServerError)
    } else if spells(token, StatusCode::BadRequest.as_str()) {
        Ok(StatusCode::BadRequest)
    } else {
        Err(ClientError::UnknownStatusCode)
    }
}

/// Tests for the white space that may end a line.
fn blank(b: u8) -> (r: bool)
    ensures
        r == is_blank(b),
{
    b == 0x20 || (0x09 <= b && b <= 0x0d)
}

/// The first line of a response that opens with `code`.
pub open spec fn status_line(code: StatusCode) -> Seq<u8> {
    ascii_bytes(code.token()) + seq![NEWLINE]
}

/// The status line that the server writes for a status is read by the
/// client as that status, and no newline stands before its end.
pub proof fn status_is_read_back(code: StatusCode)
    ensures
        status_of_line(status_line(code)) == Some(code),
        !ascii_bytes(code.token()).contains(NEWLINE),
{
    reveal_strlit("OK");
    reveal_strlit("NOT-EXIST");
    reveal_strlit("NOT-DIRECTORY");
    reveal_strlit("NOT-FILE");
    reveal_strlit("SERVER-ERROR");
    reveal_strlit("BAD-REQUEST");
    let token = ascii_bytes(code.token());
    let line = token + seq![NEWLINE];
    assert(line.drop_last() =~= token);
    assert(trimmed(token) == token);
    assert(upper_all(token) =~= token);
    let ok = ascii_bytes(StatusCode::OK.token());
    let not_exist = ascii_bytes(StatusCode::NotExist.token());
    let not_file = ascii_bytes(StatusCode::NotFile.token());
    let not_directory = ascii_bytes(StatusCode::NotDirectory.token());
    let server_error = ascii_bytes(StatusCode::ServerError.token());
    let bad_request = ascii_bytes(StatusCode::BadRequest.token());
    assert(ok.len() == 2 && not_exist.len() == 9 && not_file.len() == 8 && not_directory.len()
        == 13 && server_error.len() == 12 && bad_request.len() == 11);
}

/// What the library writes for a response is read by the client as two
/// lines and a payload: the first line is that of the status, and is read
/// back as that status; the second is the header; what follows the two is
/// the payload, from its first byte on.
pub proof fn response_is_framed(response: PendingModel)
    requires
        response.header_is_one_line(),
    ensures
        first_line(response.wire()) == status_line(response.status()),
        status_of_line(first_line(response.wire())) == Some(response.status()),
        first_line(response.wire().skip(status_line(response.status()).len() as int))
            == response.header() + seq![NEWLINE],
        response.wire().skip(
            (status_line(response.status()).len() + response.header().len() + 1) as int,
        ) == response.payload(),
{
    let token = ascii_bytes(response.status().token());
    let first = status_line(response.status());
    let header = response.header();
    let payload = response.payload();
    let wire = response.wire();
    status_is_read_back(response.status());
    assert(wire =~= token + seq![NEWLINE] + (header + seq![NEWLINE] + payload));
    line_is_read_whole(token, header + seq![NEWLINE] + payload);
    assert(wire.skip(first.len() as int) =~= header + seq![NEWLINE] + payload);
    line_is_read_whole(header, payload);
}

} // verus!
