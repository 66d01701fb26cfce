use static_server::path::sanitize_path;

#[test]
fn plain_file_resolves() {
    let segs = sanitize_path(&b"/index.html".to_vec()).unwrap();
    assert_eq!(segs, vec![b"index.html".to_vec()]);
}

#[test]
fn nested_path_resolves() {
    let segs = sanitize_path(&b"/assets/app/main.js".to_vec()).unwrap();
    assert_eq!(
        segs,
        vec![b"assets".to_vec(), b"app".to_vec(), b"main.js".to_vec()]
    );
}

#[test]
fn empty_and_dot_segments_are_dropped() {
    let segs = sanitize_path(&b"//a/./b///c.txt/".to_vec()).unwrap();
    assert_eq!(segs, vec![b"a".to_vec(), b"b".to_vec(), b"c.txt".to_vec()]);
}

#[test]
fn root_path_resolves_to_no_segments() {
    let segs = sanitize_path(&b"/".to_vec()).unwrap();
    assert!(segs.is_empty());
}

#[test]
fn parent_segment_is_rejected() {
    assert!(sanitize_path(&b"/../etc/passwd".to_vec()).is_none());
    assert!(sanitize_path(&b"/a/../../b".to_vec()).is_none());
    assert!(sanitize_path(&b"/a/..".to_vec()).is_none());
}

#[test]
fn backslash_is_rejected() {
    assert!(sanitize_path(&b"/a\\b".to_vec()).is_none());
}

#[test]
fn nul_byte_is_rejected() {
    assert!(sanitize_path(&b"/a\0b".to_vec()).is_none());
}

#[test]
fn percent_escapes_are_decoded() {
    let segs = sanitize_path(&b"/hello%20world.txt".to_vec()).unwrap();
    assert_eq!(segs, vec![b"hello world.txt".to_vec()]);
    let segs = sanitize_path(&b"/caf%C3%A9.html".to_vec()).unwrap();
    assert_eq!(segs, vec![b"caf\xc3\xa9.html".to_vec()]);
    let segs = sanitize_path(&b"/50%25.txt".to_vec()).unwrap();
    assert_eq!(segs, vec![b"50%.txt".to_vec()]);
}

#[test]
fn encoded_slash_is_a_separator() {
    let segs = sanitize_path(&b"/a%2Fb".to_vec()).unwrap();
    assert_eq!(segs, vec![b"a".to_vec(), b"b".to_vec()]);
}

#[test]
fn malformed_escape_stays_literal() {
    let segs = sanitize_path(&b"/100%.txt".to_vec()).unwrap();
    assert_eq!(segs, vec![b"100%.txt".to_vec()]);
    let segs = sanitize_path(&b"/%zz".to_vec()).unwrap();
    assert_eq!(segs, vec![b"%zz".to_vec()]);
}

#[test]
fn encoded_traversal_is_rejected() {
    assert!(sanitize_path(&b"/%2e%2e/secret".to_vec()).is_none());
    assert!(sanitize_path(&b"/a/%2E%2E/b".to_vec()).is_none());
    assert!(sanitize_path(&b"/%2e%2e%2fsecret".to_vec()).is_none());
    assert!(sanitize_path(&b"/a%5Cb".to_vec()).is_none());
}

#[test]
fn drive_prefixed_segment_is_rejected() {
    assert!(sanitize_path(&b"/C:Windows/win.ini".to_vec()).is_none());
    assert!(sanitize_path(&b"/foo/c:/bar/baz".to_vec()).is_none());
    assert!(sanitize_path(&b"/c%3A/x".to_vec()).is_none());
}

#[test]
fn dotted_names_are_not_traversal() {
    let segs = sanitize_path(&b"/..a/a../...".to_vec()).unwrap();
    assert_eq!(
        segs,
        vec![b"..a".to_vec(), b"a..".to_vec(), b"...".to_vec()]
    );
}
