use static_server::accept::{negotiate, parse_accept_encoding};
use static_server::http::{Encoding, Encodings};

#[test]
fn plain_list_is_parsed() {
    let acc = parse_accept_encoding(&b"gzip, br".to_vec());
    assert!(acc.br);
    assert!(acc.gzip);
}

#[test]
fn nonzero_quality_is_acceptable() {
    let acc = parse_accept_encoding(&b"br;q=0.9, gzip;q=0.1".to_vec());
    assert!(acc.br);
    assert!(acc.gzip);
}

#[test]
fn zero_quality_is_excluded() {
    let acc = parse_accept_encoding(&b"gzip;q=0".to_vec());
    assert!(!acc.gzip);
    let acc = parse_accept_encoding(&b"br;q=0, gzip".to_vec());
    assert!(!acc.br);
    assert!(acc.gzip);
    let acc = parse_accept_encoding(&b"br; q=0.000".to_vec());
    assert!(!acc.br);
}

#[test]
fn tokens_fold_ascii_case() {
    let acc = parse_accept_encoding(&b"GZip, BR".to_vec());
    assert!(acc.br);
    assert!(acc.gzip);
}

#[test]
fn x_gzip_is_an_alias_of_gzip() {
    let acc = parse_accept_encoding(&b"x-gzip".to_vec());
    assert!(acc.gzip);
    assert!(!acc.br);
    let acc = parse_accept_encoding(&b"X-GZIP".to_vec());
    assert!(acc.gzip);
}

#[test]
fn wildcard_stands_for_unlisted_codings() {
    let acc = parse_accept_encoding(&b"*".to_vec());
    assert!(acc.br);
    assert!(acc.gzip);
    let acc = parse_accept_encoding(&b"*, gzip;q=0".to_vec());
    assert!(acc.br);
    assert!(!acc.gzip);
    let acc = parse_accept_encoding(&b"*;q=0".to_vec());
    assert!(!acc.br);
    assert!(!acc.gzip);
    let acc = parse_accept_encoding(&b"br;q=0, *".to_vec());
    assert!(!acc.br);
    assert!(acc.gzip);
}

#[test]
fn blanks_are_trimmed() {
    let acc = parse_accept_encoding(&b"  br \t,   gzip ".to_vec());
    assert!(acc.br);
    assert!(acc.gzip);
}

#[test]
fn other_codings_are_not_ours() {
    let acc = parse_accept_encoding(&b"identity, deflate, zstd".to_vec());
    assert!(!acc.br);
    assert!(!acc.gzip);
}

#[test]
fn single_coding_is_found() {
    let acc = parse_accept_encoding(&b"gzip".to_vec());
    assert!(!acc.br);
    assert!(acc.gzip);
}

#[test]
fn empty_header_accepts_nothing() {
    let acc = parse_accept_encoding(&b"".to_vec());
    assert!(!acc.br);
    assert!(!acc.gzip);
}

#[test]
fn near_misses_do_not_match() {
    let acc = parse_accept_encoding(&b"bro, gzi, xgzip, brr".to_vec());
    assert!(!acc.br);
    assert!(!acc.gzip);
}

#[test]
fn brotli_preferred_when_both_possible() {
    let both = Encodings { br: true, gzip: true };
    assert_eq!(negotiate(true, true, both), Some(Encoding::Brotli));
}

#[test]
fn gzip_when_brotli_disabled() {
    let both = Encodings { br: true, gzip: true };
    assert_eq!(negotiate(false, true, both), Some(Encoding::Gzip));
}

#[test]
fn gzip_when_client_lacks_brotli() {
    let only_gzip = Encodings { br: false, gzip: true };
    assert_eq!(negotiate(true, true, only_gzip), Some(Encoding::Gzip));
}

#[test]
fn nothing_when_client_accepts_neither() {
    let neither = Encodings { br: false, gzip: false };
    assert_eq!(negotiate(true, true, neither), None);
}

#[test]
fn nothing_when_both_disabled() {
    let both = Encodings { br: true, gzip: true };
    assert_eq!(negotiate(false, false, both), None);
}
