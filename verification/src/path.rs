//! Resolution of a request path to a relative sequence of segments.
//!
//! The path bytes are first percent-decoded (a `%` followed by two hex
//! digits becomes that byte; a malformed escape stays literal), then
//! split on `/`; empty segments and `.` are dropped. A `..` segment, a
//! backslash, a colon or a NUL byte anywhere after decoding makes the
//! whole path invalid, so a resolved path can only name an entry below
//! the root: nothing survives that a path join could treat as a parent
//! directory, a separator, a root or a drive prefix.

use vstd::prelude::*;

verus! {

/// Byte values the scanner distinguishes.
pub const SLASH: u8 = 47;

pub const BACKSLASH: u8 = 92;

pub const DOT: u8 = 46;

pub const COLON: u8 = 58;

pub const PERCENT: u8 = 37;

/// The value of a hex digit byte, if it is one.
pub open spec fn hex_val(b: u8) -> Option<u8> {
    if 48 <= b <= 57 {
        Some((b - 48) as u8)
    } else if 65 <= b <= 70 {
        Some((b - 55) as u8)
    } else if 97 <= b <= 102 {
        Some((b - 87) as u8)
    } else {
        None
    }
}

/// Whether a well-formed percent escape starts at `i`.
pub open spec fn can_decode(s: Seq<u8>, i: int) -> bool {
    &&& i + 3 <= s.len()
    &&& s[i] == PERCENT
    &&& hex_val(s[i + 1]) is Some
    &&& hex_val(s[i + 2]) is Some
}

/// The percent-decoded form of the path bytes: each well-formed escape
/// becomes its byte, everything else is kept as it is.
pub open spec fn spec_percent_decode(s: Seq<u8>) -> Seq<u8>
    decreases s.len(),
{
    if s.len() == 0 {
        Seq::empty()
    } else if can_decode(s, 0) {
        seq![(hex_val(s[1])->Some_0 * 16 + hex_val(s[2])->Some_0) as u8] + spec_percent_decode(
            s.skip(3),
        )
    } else {
        seq![s[0]] + spec_percent_decode(s.skip(1))
    }
}

/// Reads one hex digit.
fn hex_digit(b: u8) -> (r: Option<u8>)
    ensures
        r == hex_val(b),
        r matches Some(v) ==> v <= 15,
{
    if 48 <= b && b <= 57 {
        Some(b - 48)
    } else if 65 <= b && b <= 70 {
        Some(b - 55)
    } else if 97 <= b && b <= 102 {
        Some(b - 87)
    } else {
        None
    }
}

/// Percent-decodes the path bytes; malformed escapes stay literal.
pub fn percent_decode(path: &Vec<u8>) -> (r: Vec<u8>)
    ensures
        r@ == spec_percent_decode(path@),
{
    let ghost s = path@;
    let mut out: Vec<u8> = Vec::new();
    let mut i: usize = 0;
    proof {
        assert(s.skip(0) =~= s);
        assert(out@ + spec_percent_decode(s) =~= spec_percent_decode(s));
    }
    while i < path.len()
        invariant
            0 <= i <= path.len(),
            s == path@,
            spec_percent_decode(s) == out@ + spec_percent_decode(s.skip(i as int)),
        decreases path.len() - i,
    {
        let b = path[i];
        let ghost rest = s.skip(i as int);
        proof {
            assert(rest[0] == s[i as int]);
            if path.len() - i >= 3 {
                assert(rest[1] == s[i as int + 1]);
                assert(rest[2] == s[i as int + 2]);
            }
        }
        if b == PERCENT && path.len() - i >= 3 {
            let h1 = hex_digit(path[i + 1]);
            let h2 = hex_digit(path[i + 2]);
            if h1.is_some() && h2.is_some() {
                let ghost old_out = out@;
                out.push(h1.unwrap() * 16 + h2.unwrap());
                proof {
                    assert(can_decode(rest, 0));
                    assert(rest.skip(3) =~= s.skip(i as int + 3));
                    assert(out@ + spec_percent_decode(s.skip(i as int + 3)) =~= old_out
                        + spec_percent_decode(rest));
                }
                i += 3;
            } else {
                let ghost old_out = out@;
                out.push(b);
                proof {
                    assert(!can_decode(rest, 0));
                    assert(rest.skip(1) =~= s.skip(i as int + 1));
                    assert(out@ + spec_percent_decode(s.skip(i as int + 1)) =~= old_out
                        + spec_percent_decode(rest));
                }
                i += 1;
            }
        } else {
            let ghost old_out = out@;
            out.push(b);
            proof {
                assert(!can_decode(rest, 0));
                assert(rest.skip(1) =~= s.skip(i as int + 1));
                assert(out@ + spec_percent_decode(s.skip(i as int + 1)) =~= old_out
                    + spec_percent_decode(rest));
            }
            i += 1;
        }
    }
    proof {
        assert(s.skip(s.len() as int) =~= Seq::<u8>::empty());
        assert(out@ + spec_percent_decode(Seq::empty()) =~= out@);
    }
    out
}

/// The state of the scanner after some prefix of the decoded path: the
/// segments closed so far, the bytes of the still-open segment, and
/// whether the path has already been found invalid.
#[verifier::ext_equal]
pub struct PathScan {
    pub segs: Seq<Seq<u8>>,
    pub cur: Seq<u8>,
    pub bad: bool,
}

pub open spec fn scan_init() -> PathScan {
    PathScan { segs: Seq::empty(), cur: Seq::empty(), bad: false }
}

/// Ends the open segment: nothing or `.` is dropped, `..` invalidates the
/// path, anything else becomes a resolved segment.
pub open spec fn close_segment(st: PathScan) -> PathScan {
    if st.cur.len() == 0 || st.cur == seq![DOT] {
        PathScan { cur: Seq::empty(), ..st }
    } else if st.cur == seq![DOT, DOT] {
        PathScan { cur: Seq::empty(), bad: true, ..st }
    } else {
        PathScan { segs: st.segs.push(st.cur), cur: Seq::empty(), ..st }
    }
}

/// Feeds one decoded byte to the scanner.
pub open spec fn scan_push(st: PathScan, b: u8) -> PathScan {
    if b == SLASH {
        close_segment(st)
    } else {
        PathScan {
            cur: st.cur.push(b),
            bad: st.bad || b == BACKSLASH || b == COLON || b == 0,
            ..st
        }
    }
}

/// The scanner state after the first `n` bytes of `s`.
pub open spec fn scan(s: Seq<u8>, n: int) -> PathScan
    decreases n,
{
    if n <= 0 {
        scan_init()
    } else {
        scan_push(scan(s, n - 1), s[n - 1])
    }
}

/// The segments of an already-decoded path, or `None` when it is invalid
/// (a `..` segment, a backslash, a colon or a NUL byte).
pub open spec fn spec_split(s: Seq<u8>) -> Option<Seq<Seq<u8>>> {
    let st = close_segment(scan(s, s.len() as int));
    if st.bad {
        None
    } else {
        Some(st.segs)
    }
}

/// What a request path resolves to: the relative segments under the
/// root, read from the percent-decoded bytes, or `None` when the decoded
/// path is invalid.
pub open spec fn spec_segments(s: Seq<u8>) -> Option<Seq<Seq<u8>>> {
    spec_split(spec_percent_decode(s))
}

/// A resolved segment is a plain entry name: non-empty, not `.` or `..`,
/// and free of slash, backslash, colon and NUL.
pub open spec fn good_seg(g: Seq<u8>) -> bool {
    &&& g.len() > 0
    &&& g != seq![DOT]
    &&& g != seq![DOT, DOT]
    &&& !g.contains(SLASH)
    &&& !g.contains(BACKSLASH)
    &&& !g.contains(COLON)
    &&& !g.contains(0u8)
}

proof fn lemma_scan_good(s: Seq<u8>, n: int)
    requires
        0 <= n <= s.len(),
    ensures
        !scan(s, n).bad ==> {
            &&& forall|i: int|
                0 <= i < scan(s, n).segs.len() ==> good_seg(#[trigger] scan(s, n).segs[i])
            &&& !scan(s, n).cur.contains(SLASH)
            &&& !scan(s, n).cur.contains(BACKSLASH)
            &&& !scan(s, n).cur.contains(COLON)
            &&& !scan(s, n).cur.contains(0u8)
        },
    decreases n,
{
    if n > 0 {
        lemma_scan_good(s, n - 1);
        let st = scan(s, n - 1);
        let b = s[n - 1];
        let st2 = scan(s, n);
        if !st2.bad {
            assert(!st.bad);
            if b == SLASH {
                if st.cur.len() == 0 || st.cur == seq![DOT] {
                } else {
                    assert(st.cur != seq![DOT, DOT]);
                    assert(good_seg(st.cur));
                    assert(st2.segs == st.segs.push(st.cur));
                    assert forall|i: int| 0 <= i < st2.segs.len() implies good_seg(
                        #[trigger] st2.segs[i],
                    ) by {
                        if i < st.segs.len() {
                            assert(st2.segs[i] == st.segs[i]);
                        } else {
                            assert(st2.segs[i] == st.cur);
                        }
                    }
                }
            } else {
                assert(b != BACKSLASH && b != COLON && b != 0);
                assert(st2.cur == st.cur.push(b));
                assert forall|j: int| 0 <= j < st2.cur.len() implies #[trigger] st2.cur[j]
                    != SLASH by {
                    if j < st.cur.len() {
                        assert(!st.cur.contains(SLASH));
                    }
                }
                assert forall|j: int| 0 <= j < st2.cur.len() implies #[trigger] st2.cur[j]
                    != BACKSLASH by {
                    if j < st.cur.len() {
                        assert(!st.cur.contains(BACKSLASH));
                    }
                }
                assert forall|j: int| 0 <= j < st2.cur.len() implies #[trigger] st2.cur[j]
                    != COLON by {
                    if j < st.cur.len() {
                        assert(!st.cur.contains(COLON));
                    }
                }
                assert forall|j: int| 0 <= j < st2.cur.len() implies #[trigger] st2.cur[j]
                    != 0u8 by {
                    if j < st.cur.len() {
                        assert(!st.cur.contains(0u8));
                    }
                }
            }
        }
    }
}

/// Law: every segment a successful resolution yields satisfies
/// [`good_seg`] — it is non-empty and contains no parent-directory name,
/// slash, backslash, colon or NUL, the checks running on the decoded
/// bytes, after any percent escape could have produced one of them.
/// A path that attempts traversal resolves to `None` and is answered as
/// a miss.
pub proof fn lemma_no_traversal(s: Seq<u8>)
    ensures
        spec_segments(s) matches Some(segs) ==> forall|i: int|
            0 <= i < segs.len() ==> good_seg(#[trigger] segs[i]),
{
    let d = spec_percent_decode(s);
    lemma_scan_good(d, d.len() as int);
    let st = scan(d, d.len() as int);
    let st2 = close_segment(st);
    if !st2.bad {
        assert(!st.bad);
        if st.cur.len() == 0 || st.cur == seq![DOT] {
        } else if st.cur == seq![DOT, DOT] {
        } else {
            assert(good_seg(st.cur));
            assert forall|i: int| 0 <= i < st2.segs.len() implies good_seg(
                #[trigger] st2.segs[i],
            ) by {
                if i < st.segs.len() {
                    assert(st2.segs[i] == st.segs[i]);
                } else {
                    assert(st2.segs[i] == st.cur);
                }
            }
        }
    }
}

/// Percent-decodes a request path and splits it into segments under the
/// root, or returns `None` for a path that is invalid or attempts
/// traversal.
pub fn sanitize_path(path: &Vec<u8>) -> (r: Option<Vec<Vec<u8>>>)
    ensures
        (r is Some) == (spec_segments(path@) is Some),
        r matches Some(v) ==> spec_segments(path@) matches Some(g) && g.len() == v@.len()
            && forall|k: int| 0 <= k < v@.len() ==> g[k] == #[trigger] v@[k]@,
{
    let decoded = percent_decode(path);
    let ghost s = decoded@;
    let mut segs: Vec<Vec<u8>> = Vec::new();
    let ghost mut gsegs: Seq<Seq<u8>> = Seq::empty();
    let mut cur: Vec<u8> = Vec::new();
    let mut bad = false;
    let mut i: usize = 0;
    while i < decoded.len()
        invariant
            0 <= i <= decoded.len(),
            s == decoded@,
            scan(s, i as int) == (PathScan { segs: gsegs, cur: cur@, bad: bad }),
            gsegs.len() == segs@.len(),
            forall|k: int| 0 <= k < gsegs.len() ==> gsegs[k] == #[trigger] segs@[k]@,
        decreases decoded.len() - i,
    {
        let b = decoded[i];
        let ghost st = scan(s, i as int);
        if b == SLASH {
            if cur.len() == 0 || (cur.len() == 1 && cur[0] == DOT) {
                proof {
                    if cur@.len() == 1 && cur@[0] == DOT {
                        assert(cur@ =~= seq![DOT]);
                    }
                }
                cur.clear();
            } else if cur.len() == 2 && cur[0] == DOT && cur[1] == DOT {
                proof {
                    assert(cur@ =~= seq![DOT, DOT]);
                }
                bad = true;
                cur.clear();
            } else {
                proof {
                    assert(st.cur != seq![DOT]) by {
                        if st.cur == seq![DOT] {
                            assert(cur@.len() == 1 && cur@[0] == DOT);
                        }
                    }
                    assert(st.cur != seq![DOT, DOT]) by {
                        if st.cur == seq![DOT, DOT] {
                            assert(cur@.len() == 2 && cur@[0] == DOT && cur@[1] == DOT);
                        }
                    }
                    gsegs = gsegs.push(cur@);
                }
                segs.push(cur);
                cur = Vec::new();
            }
            proof {
                assert(scan(s, i + 1 as int) =~= (PathScan {
                    segs: gsegs,
                    cur: cur@,
                    bad: bad,
                }));
            }
        } else {
            if b == BACKSLASH || b == COLON || b == 0 {
                bad = true;
            }
            cur.push(b);
            proof {
                assert(scan(s, i + 1 as int) =~= (PathScan {
                    segs: gsegs,
                    cur: cur@,
                    bad: bad,
                }));
            }
        }
        i += 1;
    }
    let ghost st = scan(s, s.len() as int);
    if cur.len() == 0 || (cur.len() == 1 && cur[0] == DOT) {
        proof {
            if cur@.len() == 1 && cur@[0] == DOT {
                assert(cur@ =~= seq![DOT]);
            }
        }
    } else if cur.len() == 2 && cur[0] == DOT && cur[1] == DOT {
        proof {
            assert(cur@ =~= seq![DOT, DOT]);
        }
        bad = true;
    } else {
        proof {
            assert(st.cur != seq![DOT]) by {
                if st.cur == seq![DOT] {
                    assert(cur@.len() == 1 && cur@[0] == DOT);
                }
            }
            assert(st.cur != seq![DOT, DOT]) by {
                if st.cur == seq![DOT, DOT] {
                    assert(cur@.len() == 2 && cur@[0] == DOT && cur@[1] == DOT);
                }
            }
            gsegs = gsegs.push(cur@);
        }
        segs.push(cur);
    }
    if bad {
        None
    } else {
        Some(segs)
    }
}

} // verus!
