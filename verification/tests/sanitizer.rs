use ssftp::utils::sanitize_request_path;

#[test]
fn rooted_paths_are_accepted() {
    assert!(sanitize_request_path(b"/a/valid/request/path"));
    assert!(sanitize_request_path(b"/a/valid/request/dir/path/"));
    assert!(sanitize_request_path(b"/"));
    assert!(sanitize_request_path(b"/hello.txt"));
    assert!(sanitize_request_path(b"/with space/in it"));
}

#[test]
fn parent_segments_are_refused() {
    assert!(!sanitize_request_path(b"/an/invalid/../path"));
    assert!(!sanitize_request_path(b"/.."));
    assert!(!sanitize_request_path(b"/../etc/passwd"));
    assert!(!sanitize_request_path(b"/a/.."));
    assert!(!sanitize_request_path(b"/a/../"));
    assert!(!sanitize_request_path(b"//.."));
}

#[test]
fn unrooted_paths_are_refused() {
    assert!(!sanitize_request_path(b""));
    assert!(!sanitize_request_path(b"relative/path"));
    assert!(!sanitize_request_path(b"hello.txt"));
    assert!(!sanitize_request_path(b"./hello.txt"));
    assert!(!sanitize_request_path(b".."));
    assert!(!sanitize_request_path(b" /leading/space"));
}

#[test]
fn dots_inside_names_are_no_parent_segment() {
    assert!(sanitize_request_path(b"/a/..b"));
    assert!(sanitize_request_path(b"/a/b../c"));
    assert!(sanitize_request_path(b"/a/.../c"));
    assert!(sanitize_request_path(b"/a/./c"));
    assert!(sanitize_request_path(b"/a/.hidden"));
    assert!(sanitize_request_path(b"/a.b..c"));
}

#[test]
fn bytes_that_are_no_text_are_judged_like_any_other() {
    assert!(sanitize_request_path(&[0x2f, 0xff, 0xfe]));
    assert!(!sanitize_request_path(&[0x2f, 0xff, 0x2f, 0x2e, 0x2e]));
    assert!(!sanitize_request_path(&[0xff, 0x2f]));
}

#[test]
fn std_judges_paths_alike() {
    let paths = [
        "", "/", "//", "/a", "a", "a/b", "/a/b", "/a/b/", "..", "/..", "/../", "../a", "/a/..",
        "/a/../b", "/a/..b", "/a/b..", "/a/.../b", "/a/./b", "/.", "/./..", "/a//..", "/a/..//b",
        "/a/. ./b", "/..a/..", ".", "./a", "/a b/c", "/a/..\t", " /a", "/...", "/a/..../b",
    ];
    for path in paths {
        let by_std = std::path::Path::new(path).has_root()
            && std::path::Path::new(path)
                .components()
                .all(|part| part != std::path::Component::ParentDir);
        assert_eq!(sanitize_request_path(path.as_bytes()), by_std, "path {:?}", path);
    }
}

#[test]
fn bytes_that_are_no_text_are_judged_like_the_text_they_are_shown_as() {
    let paths: [&[u8]; 8] = [
        b"/\xff",
        b"/\xff/..",
        b"/..\xff",
        b"/\xc3/../a",
        b"\xff/a",
        b"/a/\xe2\x82..",
        b"/.\xff.",
        b"/\xf0\x9f/../",
    ];
    for path in paths {
        let shown = String::from_utf8_lossy(path).into_owned();
        let by_std = std::path::Path::new(&shown).has_root()
            && std::path::Path::new(&shown)
                .components()
                .all(|part| part != std::path::Component::ParentDir);
        assert_eq!(sanitize_request_path(path), by_std, "path {:?}", path);
    }
}

/// Short paths over a small alphabet, in a fixed order.
fn short_paths(count: usize) -> Vec<String> {
    let alphabet = ['/', '.', 'a', '.', '/', '.'];
    let mut state: u64 = 0x9e3779b97f4a7c15;
    let mut out = Vec::new();
    for _ in 0..count {
        let mut path = String::new();
        state = state.wrapping_mul(6364136223846793005).wrapping_add(1442695040888963407);
        let len = (state >> 60) as usize % 10;
        for _ in 0..len {
            state = state.wrapping_mul(6364136223846793005).wrapping_add(1442695040888963407);
            path.push(alphabet[(state >> 33) as usize % alphabet.len()]);
        }
        out.push(path);
    }
    out
}

#[test]
fn std_judges_many_short_paths_alike() {
    let mut accepted = 0;
    for path in short_paths(20000) {
        let by_std = std::path::Path::new(&path).has_root()
            && std::path::Path::new(&path)
                .components()
                .all(|part| part != std::path::Component::ParentDir);
        assert_eq!(sanitize_request_path(path.as_bytes()), by_std, "path {:?}", path);
        if by_std {
            accepted += 1;
        }
    }
    assert!(accepted > 1000);
    assert!(accepted < 19000);
}
