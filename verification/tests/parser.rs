use ssftp::request::{get_request, method_of, Method, Request, RequestError};

fn read(line: &[u8]) -> Result<Request, RequestError> {
    get_request(Some(line.to_vec()))
}

#[test]
fn each_method_yields_its_request() {
    assert_eq!(read(b"GET /hello.txt\n"), Ok(Request::Get(b"/hello.txt".to_vec())));
    assert_eq!(read(b"INFO /hello.txt\n"), Ok(Request::Info(b"/hello.txt".to_vec())));
    assert_eq!(read(b"DIR /sub\n"), Ok(Request::Dir(b"/sub".to_vec())));
}

#[test]
fn the_case_of_the_method_does_not_matter() {
    assert_eq!(read(b"get /a\n"), Ok(Request::Get(b"/a".to_vec())));
    assert_eq!(read(b"Get /a\n"), Ok(Request::Get(b"/a".to_vec())));
    assert_eq!(read(b"gEt /a\n"), Ok(Request::Get(b"/a".to_vec())));
    assert_eq!(read(b"info /a\n"), Ok(Request::Info(b"/a".to_vec())));
    assert_eq!(read(b"InFo /a\n"), Ok(Request::Info(b"/a".to_vec())));
    assert_eq!(read(b"dir /a\n"), Ok(Request::Dir(b"/a".to_vec())));
    assert_eq!(read(b"dIR /a\n"), Ok(Request::Dir(b"/a".to_vec())));
}

#[test]
fn other_tokens_are_no_method() {
    assert_eq!(read(b"PUT /a\n"), Err(RequestError::BadMethod));
    assert_eq!(read(b"GETS /a\n"), Err(RequestError::BadMethod));
    assert_eq!(read(b"GE /a\n"), Err(RequestError::BadMethod));
    assert_eq!(read(b"G@T /a\n"), Err(RequestError::BadMethod));
    assert_eq!(read(b"LIST /a\n"), Err(RequestError::BadMethod));
    assert_eq!(read(b" GET /a\n"), Err(RequestError::BadMethod));
    assert_eq!(read(b" /a\n"), Err(RequestError::BadMethod));
}

#[test]
fn a_line_without_space_is_no_request() {
    assert_eq!(read(b"GARBAGE\n"), Err(RequestError::BadRequest));
    assert_eq!(read(b"GET\n"), Err(RequestError::BadRequest));
    assert_eq!(read(b"\n"), Err(RequestError::BadRequest));
    assert_eq!(read(b""), Err(RequestError::BadRequest));
}

#[test]
fn a_failed_read_is_no_request() {
    assert_eq!(get_request(None), Err(RequestError::Read));
}

#[test]
fn the_path_is_the_rest_of_the_line() {
    assert_eq!(read(b"GET /a b  c\n"), Ok(Request::Get(b"/a b  c".to_vec())));
    assert_eq!(read(b"GET  /a\n"), Ok(Request::Get(b" /a".to_vec())));
    assert_eq!(read(b"GET \n"), Ok(Request::Get(Vec::new())));
    assert_eq!(read(b"DIR relative\n"), Ok(Request::Dir(b"relative".to_vec())));
}

#[test]
fn only_the_last_byte_is_dropped() {
    assert_eq!(read(b"GET /a\r\n"), Ok(Request::Get(b"/a\r".to_vec())));
    assert_eq!(read(b"GET /ab"), Ok(Request::Get(b"/a".to_vec())));
    assert_eq!(read(b"GET "), Err(RequestError::BadRequest));
}

#[test]
fn bytes_that_are_no_text_stay_in_the_path() {
    assert_eq!(
        read(&[0x47, 0x45, 0x54, 0x20, 0x2f, 0xff, 0x0a]),
        Ok(Request::Get(vec![0x2f, 0xff]))
    );
    assert_eq!(read(&[0x47, 0xff, 0x54, 0x20, 0x2f, 0x0a]), Err(RequestError::BadMethod));
}

#[test]
fn tokens_name_methods() {
    assert_eq!(method_of(b"GET"), Some(Method::Get));
    assert_eq!(method_of(b"info"), Some(Method::Info));
    assert_eq!(method_of(b"Dir"), Some(Method::Dir));
    assert_eq!(method_of(b""), None);
    assert_eq!(method_of(b"DIRS"), None);
    assert_eq!(Method::Get.as_str(), "GET");
    assert_eq!(Method::Info.as_str(), "INFO");
    assert_eq!(Method::Dir.as_str(), "DIR");
}

#[test]
fn a_request_tells_its_method_and_path() {
    let request = Request::new(Method::Info, b"/x".to_vec());
    assert_eq!(request, Request::Info(b"/x".to_vec()));
    assert_eq!(request.method(), Method::Info);
    assert_eq!(request.path(), &b"/x".to_vec());
    assert_eq!(Request::new(Method::Get, Vec::new()).method(), Method::Get);
    assert_eq!(Request::new(Method::Dir, Vec::new()).method(), Method::Dir);
}

#[test]
fn std_folds_ascii_tokens_alike() {
    let tokens = [
        "GET", "get", "GeT", "INFO", "info", "iNfO", "DIR", "dir", "DiR", "", "G", "GETT", "PUT",
        "POST", "LIST", "DIRS", "INF", "G3T", "GET\t", "get ", "-", "Info.", "dIr", "gEt",
    ];
    for token in tokens {
        let upper = token.to_uppercase();
        let by_std = match upper.as_str() {
            "GET" => Some(Method::Get),
            "INFO" => Some(Method::Info),
            "DIR" => Some(Method::Dir),
            _ => None,
        };
        assert_eq!(method_of(token.as_bytes()), by_std, "token {:?}", token);
    }
}

#[test]
fn only_ascii_letters_have_a_case() {
    assert_eq!(method_of("d\u{131}r".as_bytes()), None);
    assert_eq!(method_of("\u{131}nfo".as_bytes()), None);
    assert_eq!(method_of("g\u{e9}t".as_bytes()), None);
    assert_eq!(read("d\u{131}r /sub\n".as_bytes()), Err(RequestError::BadMethod));
}
