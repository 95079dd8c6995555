//! A response that has been decided on and not yet written.

use vstd::prelude::*;
use crate::header::{empty_object, insert_number, insert_text, no_members, render, rendered, Field};
use crate::wire::{ascii_bytes, push_text, NEWLINE, SEPARATOR};
use crate::StatusCode;

verus! {

/// What an entry of the file system is.
#[derive(Debug, Clone, Copy, PartialEq, Eq, Structural)]
pub enum FileKind {
    /// A regular file.
    File,
    /// A directory.
    Directory,
    /// Anything else.
    Other,
}

/// What the file system tells of one entry.
#[derive(Debug, Clone, Copy, PartialEq, Eq, Structural)]
pub struct Metadata {
    pub kind: FileKind,
    /// Size in bytes.
    pub len: u64,
}

/// One item met while a directory is enumerated. A field is `None` where
/// the item could not be inspected that far.
#[derive(Debug, Clone, PartialEq, Eq)]
pub struct DirEntry {
    /// The kind of the entry itself.
    pub kind: Option<FileKind>,
    /// The entry's name, where it is text.
    pub name: Option<Vec<u8>>,
}

/// A `DirEntry` as a mathematical value.
pub struct EntryModel {
    pub kind: Option<FileKind>,
    pub name: Option<Seq<u8>>,
}

/// The answer to one request, decided and not yet on the wire.
#[derive(Debug, Clone, PartialEq, Eq)]
pub enum PendingResponse {
    /// A file is open for sending; this is its size in bytes.
    Get(u64),
    /// The entry exists; this is what the file system tells of it.
    Info(Metadata),
    /// A directory is open; these are the items enumerated from it, in the
    /// order in which the file system gave them.
    Dir(Vec<DirEntry>),
    /// The request was understood and cannot be served.
    Error(StatusCode),
    /// The request was not understood, or its path was refused.
    BadRequest,
}

/// A `PendingResponse` as a mathematical value.
pub enum PendingModel {
    Get(u64),
    Info(Metadata),
    Dir(Seq<EntryModel>),
    Error(StatusCode),
    BadRequest,
}

impl View for DirEntry {
    type V = EntryModel;

    open spec fn view(&self) -> EntryModel {
        EntryModel {
            kind: self.kind,
            name: match self.name {
                Some(name) => Some(name@),
                None => None,
            },
        }
    }
}

/// The items of a listing as mathematical values, in their order.
pub open spec fn entry_models(entries: Seq<DirEntry>) -> Seq<EntryModel> {
    Seq::new(entries.len(), |i: int| entries[i]@)
}

impl View for PendingResponse {
    type V = PendingModel;

    open spec fn view(&self) -> PendingModel {
        match self {
            PendingResponse::Get(len) => PendingModel::Get(*len),
            PendingResponse::Info(metadata) => PendingModel::Info(*metadata),
            PendingResponse::Dir(entries) => PendingModel::Dir(entry_models(entries@)),
            PendingResponse::Error(status) => PendingModel::Error(*status),
            PendingResponse::BadRequest => PendingModel::BadRequest,
        }
    }
}

impl PendingModel {
    /// The status that opens the response.
    pub open spec fn status(self) -> StatusCode {
        match self {
            PendingModel::Get(_) => StatusCode::OK,
            PendingModel::Info(_) => StatusCode::OK,
            PendingModel::Dir(_) => StatusCode::OK,
            PendingModel::Error(status) => status,
            PendingModel::BadRequest => StatusCode::BadRequest,
        }
    }
}

/// The line that an entry gets in a listing: its name, with a separator
/// behind it where it is a directory. An item whose kind or name is not
/// known gets none.
pub open spec fn shown(entry: EntryModel) -> Option<Seq<u8>> {
    match (entry.kind, entry.name) {
        (Some(FileKind::Directory), Some(name)) => Some(name + seq![SEPARATOR]),
        (Some(_), Some(name)) => Some(name),
        _ => None,
    }
}

/// The lines of a listing, in the order of the items.
pub open spec fn listing(entries: Seq<EntryModel>) -> Seq<Seq<u8>>
    decreases entries.len(),
{
    if entries.len() == 0 {
        Seq::empty()
    } else {
        let before = listing(entries.drop_last());
        match shown(entries.last()) {
            Some(line) => before.push(line),
            None => before,
        }
    }
}

/// Lines joined by newlines, with none after the last.
pub open spec fn joined(lines: Seq<Seq<u8>>) -> Seq<u8>
    decreases lines.len(),
{
    if lines.len() == 0 {
        Seq::empty()
    } else if lines.len() == 1 {
        lines[0]
    } else {
        joined(lines.drop_last()) + seq![NEWLINE] + lines.last()
    }
}

/// The payload of a listing.
pub open spec fn dir_payload(entries: Seq<EntryModel>) -> Seq<u8> {
    joined(listing(entries))
}

/// The header of a response that sends a file of `len` bytes.
pub open spec fn get_header(len: u64) -> Map<Seq<char>, Field> {
    no_members().insert("content-length"@, Field::Number(len))
}

/// The header of a response that describes an entry. Only a directory is
/// called one; anything else is reported as a file, with its size.
pub open spec fn info_header(metadata: Metadata) -> Map<Seq<char>, Field> {
    if metadata.kind == FileKind::Directory {
        no_members().insert("type"@, Field::Text("directory"@))
    } else {
        no_members().insert("type"@, Field::Text("file"@)).insert(
            "content-length"@,
            Field::Number(metadata.len),
        )
    }
}

/// The header of a listing: the length of the payload in bytes, and the
/// number of its lines.
pub open spec fn dir_header(entries: Seq<EntryModel>) -> Map<Seq<char>, Field> {
    no_members().insert(
        "content-length"@,
        Field::Number(dir_payload(entries).len() as u64),
    ).insert("count"@, Field::Number(listing(entries).len() as u64))
}

/// The header of a response that carries nothing: the empty object.
pub open spec fn empty_header() -> Seq<u8> {
    ascii_bytes("{}"@)
}

/// What opens every response: the status line, then the header line.
pub open spec fn head(status: StatusCode, header: Seq<u8>) -> Seq<u8> {
    ascii_bytes(status.token()) + seq![NEWLINE] + header + seq![NEWLINE]
}

impl PendingModel {
    /// The header line of the response, without its newline.
    pub open spec fn header(self) -> Seq<u8> {
        match self {
            PendingModel::Get(len) => rendered(get_header(len)),
            PendingModel::Info(metadata) => rendered(info_header(metadata)),
            PendingModel::Dir(entries) => rendered(dir_header(entries)),
            PendingModel::Error(_) => empty_header(),
            PendingModel::BadRequest => empty_header(),
        }
    }

    /// The payload that the library writes itself: the listing of a
    /// directory. The payload of a `Get` is the file, which the library
    /// never sees.
    pub open spec fn payload(self) -> Seq<u8> {
        match self {
            PendingModel::Dir(entries) => dir_payload(entries),
            _ => Seq::empty(),
        }
    }

    /// The bytes that the library puts on the wire for the response: the
    /// status line, the header line, and the payload that is its own.
    pub open spec fn wire(self) -> Seq<u8> {
        head(self.status(), self.header()) + self.payload()
    }

    /// The header stays on one line.
    pub open spec fn header_is_one_line(self) -> bool {
        !self.header().contains(NEWLINE)
    }
}

/// Writes the status line and the header line.
fn write_head(status: StatusCode, header: &Vec<u8>) -> (out: Vec<u8>)
    ensures
        out@ == head(status, header@),
{
    let mut out: Vec<u8> = Vec::new();
    push_text(&mut out, status.as_str());
    out.push(NEWLINE);
    out.extend_from_slice(header.as_slice());
    out.push(NEWLINE);
    out
}

/// Writes the header that carries nothing.
fn write_empty_header() -> (header: Vec<u8>)
    ensures
        header@ == empty_header(),
        !header@.contains(NEWLINE),
{
    let mut header: Vec<u8> = Vec::new();
    proof {
        reveal_strlit("{}");
    }
    push_text(&mut header, "{}");
    header
}

/// One more item extends a listing by its line, if it has one.
proof fn listing_step(entries: Seq<EntryModel>, k: int)
    requires
        0 <= k < entries.len(),
    ensures
        listing(entries.take(k + 1)) == match shown(entries[k]) {
            Some(line) => listing(entries.take(k)).push(line),
            None => listing(entries.take(k)),
        },
{
    assert(entries.take(k + 1).drop_last() =~= entries.take(k));
}

/// One more line extends the joined text by a newline and the line, or by
/// the line alone where it is the first.
proof fn joined_step(lines: Seq<Seq<u8>>, line: Seq<u8>)
    ensures
        joined(lines.push(line)) == if lines.len() == 0 {
            line
        } else {
            joined(lines) + seq![NEWLINE] + line
        },
{
    assert(lines.push(line).drop_last() =~= lines);
}

/// The response that announces a file of `content_length` bytes. The
/// contents of the file are to follow it on the wire.
pub fn perform_get_response(content_length: u64) -> (out: Vec<u8>)
    ensures
        out@ == PendingModel::Get(content_length).wire(),
        PendingModel::Get(content_length).header_is_one_line(),
{
    let mut object = empty_object();
    insert_number(&mut object, "content-length", content_length);
    let header = render(object);
    write_head(StatusCode::OK, &header)
}

/// The response that describes an entry.
pub fn perform_info_response(metadata: Metadata) -> (out: Vec<u8>)
    ensures
        out@ == PendingModel::Info(metadata).wire(),
        PendingModel::Info(metadata).header_is_one_line(),
{
    let mut object = empty_object();
    match metadata.kind {
        FileKind::Directory => {
            insert_text(&mut object, "type", "directory");
        },
        _ => {
            insert_text(&mut object, "type", "file");
            insert_number(&mut object, "content-length", metadata.len);
        },
    }
    let header = render(object);
    write_head(StatusCode::OK, &header)
}

/// The response that lists a directory: head and payload. Items that could
/// not be inspected are left out and not counted.
pub fn perform_dir_response(entries: &Vec<DirEntry>) -> (out: Vec<u8>)
    ensures
        out@ == PendingModel::Dir(entry_models(entries@)).wire(),
        PendingModel::Dir(entry_models(entries@)).header_is_one_line(),
{
    let ghost all = entry_models(entries@);
    let mut payload: Vec<u8> = Vec::new();
    let mut count: usize = 0;
    let mut i: usize = 0;
    while i < entries.len()
        invariant
            i <= entries.len(),
            all == entry_models(entries@),
            count == listing(all.take(i as int)).len(),
            count <= i,
            payload@ == joined(listing(all.take(i as int))),
        decreases entries.len() - i,
    {
        let entry = &entries[i];
        proof {
            listing_step(all, i as int);
        }
        match (&entry.kind, &entry.name) {
            (Some(kind), Some(name)) => {
                proof {
                    joined_step(listing(all.take(i as int)), shown(entry@).unwrap());
                }
                if count > 0 {
                    payload.push(NEWLINE);
                }
                payload.extend_from_slice(name.as_slice());
                match kind {
                    FileKind::Directory => {
                        payload.push(SEPARATOR);
                    },
                    _ => {},
                }
                count += 1;
            },
            _ => {},
        }
        i += 1;
    }
    assert(all.take(i as int) =~= all);
    let mut object = empty_object();
    insert_number(&mut object, "content-length", payload.len() as u64);
    insert_number(&mut object, "count", count as u64);
    let header = render(object);
    let mut out = write_head(StatusCode::OK, &header);
    out.extend_from_slice(payload.as_slice());
    out
}

/// The response to a request that was understood and cannot be served.
pub fn perform_error_response(status_code: StatusCode) -> (out: Vec<u8>)
    ensures
        out@ == PendingModel::Error(status_code).wire(),
        PendingModel::Error(status_code).header_is_one_line(),
{
    let header = write_empty_header();
    write_head(status_code, &header)
}

/// The response to a request that was not understood.
pub fn perform_bad_request_response() -> (out: Vec<u8>)
    ensures
        out@ == PendingModel::BadRequest.wire(),
        PendingModel::BadRequest.header_is_one_line(),
{
    let header = write_empty_header();
    write_head(StatusCode::BadRequest, &header)
}

/// Renders a response for the wire: the status line, the header line and,
/// for a listing, the payload.
pub fn perform_response(response: &PendingResponse) -> (out: Vec<u8>)
    ensures
        out@ == response@.wire(),
        response@.header_is_one_line(),
{
    match response {
        PendingResponse::Get(content_length) => perform_get_response(*content_length),
        PendingResponse::Info(metadata) => perform_info_response(*metadata),
        PendingResponse::Dir(entries) => perform_dir_response(entries),
        PendingResponse::Error(status_code) => perform_error_response(*status_code),
        PendingResponse::BadRequest => perform_bad_request_response(),
    }
}

} // verus!
