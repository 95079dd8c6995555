use ssftp::response::{
    perform_bad_request_response, perform_dir_response, perform_error_response,
    perform_get_response, perform_info_response, perform_response, DirEntry, FileKind, Metadata,
    PendingResponse,
};
use ssftp::StatusCode;

fn entry(kind: FileKind, name: &[u8]) -> DirEntry {
    DirEntry { kind: Some(kind), name: Some(name.to_vec()) }
}

#[test]
fn get_announces_the_length() {
    assert_eq!(perform_get_response(2), b"OK\n{\"content-length\":2}\n");
    assert_eq!(perform_get_response(0), b"OK\n{\"content-length\":0}\n");
    assert_eq!(
        perform_get_response(u64::MAX),
        b"OK\n{\"content-length\":18446744073709551615}\n"
    );
}

#[test]
fn info_of_a_file_gives_type_and_length() {
    let out = perform_info_response(Metadata { kind: FileKind::File, len: 1234 });
    assert_eq!(out, b"OK\n{\"content-length\":1234,\"type\":\"file\"}\n");
}

#[test]
fn info_of_a_directory_gives_the_type_only() {
    let out = perform_info_response(Metadata { kind: FileKind::Directory, len: 4096 });
    assert_eq!(out, b"OK\n{\"type\":\"directory\"}\n");
}

#[test]
fn info_of_anything_else_reads_as_a_file() {
    let out = perform_info_response(Metadata { kind: FileKind::Other, len: 0 });
    assert_eq!(out, b"OK\n{\"content-length\":0,\"type\":\"file\"}\n");
}

#[test]
fn a_listing_joins_the_names() {
    let entries = vec![entry(FileKind::File, b"a.txt"), entry(FileKind::Directory, b"b")];
    assert_eq!(
        perform_dir_response(&entries),
        b"OK\n{\"content-length\":8,\"count\":2}\na.txt\nb/"
    );
}

#[test]
fn a_listing_keeps_the_order_it_was_given() {
    let entries = vec![
        entry(FileKind::Directory, b"z"),
        entry(FileKind::File, b"m"),
        entry(FileKind::Other, b"a"),
    ];
    assert_eq!(
        perform_dir_response(&entries),
        b"OK\n{\"content-length\":6,\"count\":3}\nz/\nm\na"
    );
}

#[test]
fn an_empty_listing_has_no_payload() {
    assert_eq!(perform_dir_response(&Vec::new()), b"OK\n{\"content-length\":0,\"count\":0}\n");
}

#[test]
fn a_listing_of_one_has_no_newline() {
    let entries = vec![entry(FileKind::File, b"only")];
    assert_eq!(perform_dir_response(&entries), b"OK\n{\"content-length\":4,\"count\":1}\nonly");
}

#[test]
fn items_that_could_not_be_inspected_are_left_out() {
    let entries = vec![
        DirEntry { kind: None, name: None },
        entry(FileKind::File, b"a"),
        DirEntry { kind: None, name: Some(b"gone".to_vec()) },
        DirEntry { kind: Some(FileKind::Directory), name: None },
        entry(FileKind::Directory, b"d"),
        DirEntry { kind: Some(FileKind::File), name: None },
    ];
    assert_eq!(perform_dir_response(&entries), b"OK\n{\"content-length\":4,\"count\":2}\na\nd/");
}

#[test]
fn a_listing_of_lost_items_only_is_empty() {
    let entries = vec![DirEntry { kind: None, name: None }, DirEntry { kind: None, name: None }];
    assert_eq!(perform_dir_response(&entries), b"OK\n{\"content-length\":0,\"count\":0}\n");
}

#[test]
fn an_empty_name_still_counts() {
    let entries = vec![entry(FileKind::File, b""), entry(FileKind::File, b"")];
    assert_eq!(perform_dir_response(&entries), b"OK\n{\"content-length\":1,\"count\":2}\n\n");
}

#[test]
fn errors_carry_the_empty_header() {
    assert_eq!(perform_error_response(StatusCode::NotExist), b"NOT-EXIST\n{}\n");
    assert_eq!(perform_error_response(StatusCode::NotFile), b"NOT-FILE\n{}\n");
    assert_eq!(perform_error_response(StatusCode::NotDirectory), b"NOT-DIRECTORY\n{}\n");
    assert_eq!(perform_error_response(StatusCode::ServerError), b"SERVER-ERROR\n{}\n");
    assert_eq!(perform_error_response(StatusCode::BadRequest), b"BAD-REQUEST\n{}\n");
    assert_eq!(perform_error_response(StatusCode::OK), b"OK\n{}\n");
    assert_eq!(perform_bad_request_response(), b"BAD-REQUEST\n{}\n");
}

#[test]
fn every_response_goes_to_its_own_form() {
    let metadata = Metadata { kind: FileKind::File, len: 7 };
    let entries = vec![entry(FileKind::Directory, b"x")];
    assert_eq!(perform_response(&PendingResponse::Get(7)), perform_get_response(7));
    assert_eq!(perform_response(&PendingResponse::Info(metadata)), perform_info_response(metadata));
    assert_eq!(
        perform_response(&PendingResponse::Dir(entries.clone())),
        perform_dir_response(&entries)
    );
    assert_eq!(
        perform_response(&PendingResponse::Error(StatusCode::ServerError)),
        b"SERVER-ERROR\n{}\n"
    );
    assert_eq!(perform_response(&PendingResponse::BadRequest), b"BAD-REQUEST\n{}\n");
}

#[test]
fn status_tokens_are_the_canonical_ones() {
    assert_eq!(StatusCode::OK.to_string(), "OK");
    assert_eq!(StatusCode::NotExist.to_string(), "NOT-EXIST");
    assert_eq!(StatusCode::NotDirectory.to_string(), "NOT-DIRECTORY");
    assert_eq!(StatusCode::NotFile.to_string(), "NOT-FILE");
    assert_eq!(StatusCode::ServerError.to_string(), "SERVER-ERROR");
    assert_eq!(StatusCode::BadRequest.to_string(), "BAD-REQUEST");
    assert_eq!(StatusCode::NotExist.as_str(), "NOT-EXIST");
}

#[test]
fn the_head_is_two_lines() {
    let entries = vec![entry(FileKind::File, b"line\nbreak"), entry(FileKind::Directory, b"d")];
    let responses = [
        PendingResponse::Get(10),
        PendingResponse::Info(Metadata { kind: FileKind::File, len: 10 }),
        PendingResponse::Info(Metadata { kind: FileKind::Directory, len: 10 }),
        PendingResponse::Dir(entries),
        PendingResponse::Error(StatusCode::NotExist),
        PendingResponse::BadRequest,
    ];
    for response in responses {
        let wire = perform_response(&response);
        let first = wire.iter().position(|b| *b == b'\n').unwrap();
        let second = first + 1 + wire[first + 1..].iter().position(|b| *b == b'\n').unwrap();
        let header: serde_json::Value = serde_json::from_slice(&wire[first + 1..second]).unwrap();
        assert!(header.is_object());
        if let PendingResponse::Dir(_) = response {
            let length = header.get("content-length").unwrap().as_u64().unwrap();
            assert_eq!(length as usize, wire.len() - second - 1);
            assert_eq!(&wire[second + 1..], b"line\nbreak\nd/");
        } else {
            assert_eq!(second + 1, wire.len());
        }
    }
}
