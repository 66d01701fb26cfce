//! Parsing of the `Accept-Encoding` request header and selection of the
//! response encoding.
//!
//! The header is a comma-separated list of entries. An entry's coding
//! name is what stands before its first `;`, trimmed of blanks and
//! matched case-insensitively; `x-gzip` is an alias of `gzip`, and `*`
//! stands for any coding not explicitly listed. What follows the first
//! `;` is the entry's parameter text: the entry is unacceptable exactly
//! when that text, trimmed and case-folded, is a zero quality value
//! (`q=0` with up to three zero decimals); any other parameter text
//! leaves the entry acceptable.

use vstd::prelude::*;
use crate::ascii::{fold_lower, lower_byte, spec_lower};
use crate::http::{Encoding, Encodings};

verus! {

pub const COMMA: u8 = 44;

pub const SEMI: u8 = 59;

pub const SPACE: u8 = 32;

pub const TAB: u8 = 9;

pub open spec fn is_blank(b: u8) -> bool {
    b == SPACE || b == TAB
}

/// The bytes of `s` with leading blanks removed.
pub open spec fn trim_front(s: Seq<u8>) -> Seq<u8>
    decreases s.len(),
{
    if s.len() == 0 {
        s
    } else if is_blank(s[0]) {
        trim_front(s.skip(1))
    } else {
        s
    }
}

/// The bytes of `s` with trailing blanks removed.
pub open spec fn trim_back(s: Seq<u8>) -> Seq<u8>
    decreases s.len(),
{
    if s.len() == 0 {
        s
    } else if is_blank(s[s.len() - 1]) {
        trim_back(s.take(s.len() - 1))
    } else {
        s
    }
}

/// An entry's coding name: the bytes before its first `;`, trimmed and
/// case-folded.
pub open spec fn entry_token(tok: Seq<u8>) -> Seq<u8> {
    fold_lower(trim_back(trim_front(tok)))
}

/// The bytes of the token `br`.
pub open spec fn br_token() -> Seq<u8> {
    seq![98u8, 114u8]
}

/// The bytes of the token `gzip`.
pub open spec fn gzip_token() -> Seq<u8> {
    seq![103u8, 122u8, 105u8, 112u8]
}

/// The bytes of the token `x-gzip`, an alias of `gzip`.
pub open spec fn xgzip_token() -> Seq<u8> {
    seq![120u8, 45u8, 103u8, 122u8, 105u8, 112u8]
}

/// The bytes of the wildcard token `*`.
pub open spec fn star_token() -> Seq<u8> {
    seq![42u8]
}

/// The zero quality values: `q=0` with up to three zero decimals.
pub open spec fn is_zero_q(f: Seq<u8>) -> bool {
    ||| f == seq![113u8, 61u8, 48u8]
    ||| f == seq![113u8, 61u8, 48u8, 46u8]
    ||| f == seq![113u8, 61u8, 48u8, 46u8, 48u8]
    ||| f == seq![113u8, 61u8, 48u8, 46u8, 48u8, 48u8]
    ||| f == seq![113u8, 61u8, 48u8, 46u8, 48u8, 48u8, 48u8]
}

/// Whether an entry's parameter text declares it unacceptable.
pub open spec fn entry_rejected(rest: Seq<u8>, in_params: bool) -> bool {
    in_params && is_zero_q(fold_lower(trim_back(trim_front(rest))))
}

/// The parser state after some prefix of the header: for each coding,
/// whether some entry listed it and whether some entry listed it as
/// acceptable; plus the open entry's name bytes, parameter bytes, and
/// whether its first `;` has been seen.
#[verifier::ext_equal]
pub struct AeScan {
    pub br_listed: bool,
    pub br_ok: bool,
    pub gz_listed: bool,
    pub gz_ok: bool,
    pub star_ok: bool,
    pub tok: Seq<u8>,
    pub rest: Seq<u8>,
    pub in_params: bool,
}

pub open spec fn ae_init() -> AeScan {
    AeScan {
        br_listed: false,
        br_ok: false,
        gz_listed: false,
        gz_ok: false,
        star_ok: false,
        tok: Seq::empty(),
        rest: Seq::empty(),
        in_params: false,
    }
}

/// Ends the open entry and records what it declares.
pub open spec fn ae_close(st: AeScan) -> AeScan {
    let t = entry_token(st.tok);
    let ok = !entry_rejected(st.rest, st.in_params);
    AeScan {
        br_listed: st.br_listed || t == br_token(),
        br_ok: st.br_ok || (t == br_token() && ok),
        gz_listed: st.gz_listed || t == gzip_token() || t == xgzip_token(),
        gz_ok: st.gz_ok || ((t == gzip_token() || t == xgzip_token()) && ok),
        star_ok: st.star_ok || (t == star_token() && ok),
        tok: Seq::empty(),
        rest: Seq::empty(),
        in_params: false,
    }
}

/// Feeds one byte to the parser.
pub open spec fn ae_push(st: AeScan, b: u8) -> AeScan {
    if b == COMMA {
        ae_close(st)
    } else if b == SEMI && !st.in_params {
        AeScan { in_params: true, ..st }
    } else if st.in_params {
        AeScan { rest: st.rest.push(b), ..st }
    } else {
        AeScan { tok: st.tok.push(b), ..st }
    }
}

/// The parser state after the first `n` bytes of `s`.
pub open spec fn ae_scan(s: Seq<u8>, n: int) -> AeScan
    decreases n,
{
    if n <= 0 {
        ae_init()
    } else {
        ae_push(ae_scan(s, n - 1), s[n - 1])
    }
}

/// Which of the two offered encodings an `Accept-Encoding` value makes
/// acceptable: a coding explicitly listed is acceptable when some entry
/// for it has a nonzero quality; a coding not listed is acceptable when
/// an acceptable `*` entry stands for it.
pub open spec fn spec_accepts(s: Seq<u8>) -> Encodings {
    let st = ae_close(ae_scan(s, s.len() as int));
    Encodings {
        br: if st.br_listed {
            st.br_ok
        } else {
            st.star_ok
        },
        gzip: if st.gz_listed {
            st.gz_ok
        } else {
            st.star_ok
        },
    }
}

/// As [`spec_accepts`], for a request that may carry no header: without
/// the header, no encoding is acceptable.
pub open spec fn spec_accepts_opt(h: Option<Seq<u8>>) -> Encodings {
    match h {
        None => Encodings { br: false, gzip: false },
        Some(s) => spec_accepts(s),
    }
}

proof fn lemma_trim_front_at(s: Seq<u8>, a: int)
    requires
        0 <= a <= s.len(),
        forall|k: int| 0 <= k < a ==> is_blank(#[trigger] s[k]),
        a < s.len() ==> !is_blank(s[a]),
    ensures
        trim_front(s) == s.skip(a),
    decreases s.len(),
{
    if s.len() == 0 {
        assert(s.skip(0) =~= s);
    } else if is_blank(s[0]) {
        assert(a > 0);
        let t = s.skip(1);
        assert(forall|k: int| 0 <= k < a - 1 ==> #[trigger] t[k] == s[k + 1]);
        lemma_trim_front_at(t, a - 1);
        assert(t.skip(a - 1) =~= s.skip(a));
    } else {
        assert(a == 0);
        assert(s.skip(0) =~= s);
    }
}

proof fn lemma_trim_back_at(s: Seq<u8>, b: int)
    requires
        0 <= b <= s.len(),
        forall|k: int| b <= k < s.len() ==> is_blank(#[trigger] s[k]),
        b > 0 ==> !is_blank(s[b - 1]),
    ensures
        trim_back(s) == s.take(b),
    decreases s.len(),
{
    if s.len() == 0 {
        assert(s.take(0) =~= s);
    } else if is_blank(s[s.len() - 1]) {
        assert(b < s.len());
        let t = s.take(s.len() - 1);
        assert(forall|k: int| b <= k < t.len() ==> #[trigger] t[k] == s[k]);
        lemma_trim_back_at(t, b);
        assert(t.take(b) =~= s.take(b));
    } else {
        assert(b == s.len());
        assert(s.take(s.len() as int) =~= s);
    }
}

/// Classifies one entry's coding name: whether it is `br`, `gzip` (or
/// the alias), or `*`.
fn token_flags(tok: &Vec<u8>) -> (r: (bool, bool, bool))
    ensures
        r.0 == (entry_token(tok@) == br_token()),
        r.1 == (entry_token(tok@) == gzip_token() || entry_token(tok@) == xgzip_token()),
        r.2 == (entry_token(tok@) == star_token()),
{
    let n = tok.len();
    let mut a: usize = 0;
    while a < n && (tok[a] == SPACE || tok[a] == TAB)
        invariant
            0 <= a <= n,
            n == tok@.len(),
            forall|k: int| 0 <= k < a ==> is_blank(#[trigger] tok@[k]),
        decreases n - a,
    {
        a += 1;
    }
    let mut b: usize = n;
    while b > a && (tok[b - 1] == SPACE || tok[b - 1] == TAB)
        invariant
            0 <= a <= b <= n,
            n == tok@.len(),
            forall|k: int| b <= k < n ==> is_blank(#[trigger] tok@[k]),
        decreases b,
    {
        b -= 1;
    }
    proof {
        lemma_trim_front_at(tok@, a as int);
        let t1 = tok@.skip(a as int);
        assert(forall|k: int|
            b - a <= k < t1.len() ==> is_blank(#[trigger] t1[k]));
        lemma_trim_back_at(t1, b as int - a as int);
        assert(t1.take(b as int - a as int) =~= tok@.subrange(a as int, b as int));
        assert(entry_token(tok@) == fold_lower(tok@.subrange(a as int, b as int)));
    }
    let is_br = b - a == 2 && lower_byte(tok[a]) == 98 && lower_byte(tok[a + 1]) == 114;
    let is_gzip = b - a == 4 && lower_byte(tok[a]) == 103 && lower_byte(tok[a + 1]) == 122
        && lower_byte(tok[a + 2]) == 105 && lower_byte(tok[a + 3]) == 112;
    let is_xgzip = b - a == 6 && lower_byte(tok[a]) == 120 && lower_byte(tok[a + 1]) == 45
        && lower_byte(tok[a + 2]) == 103 && lower_byte(tok[a + 3]) == 122 && lower_byte(
        tok[a + 4],
    ) == 105 && lower_byte(tok[a + 5]) == 112;
    let is_star = b - a == 1 && lower_byte(tok[a]) == 42;
    proof {
        let ft = fold_lower(tok@.subrange(a as int, b as int));
        assert(ft.len() == b - a);
        assert(forall|i: int|
            0 <= i < ft.len() ==> #[trigger] ft[i] == spec_lower(tok@[a + i]));
        if is_br {
            assert(ft =~= br_token());
        }
        if ft == br_token() {
            assert(ft[0] == 98 && ft[1] == 114);
            assert(spec_lower(tok@[a as int + 0]) == 98 && spec_lower(tok@[a as int + 1]) == 114);
        }
        if is_gzip {
            assert(ft =~= gzip_token());
        }
        if ft == gzip_token() {
            assert(ft[0] == 103 && ft[1] == 122 && ft[2] == 105 && ft[3] == 112);
            assert(spec_lower(tok@[a as int + 0]) == 103 && spec_lower(tok@[a as int + 1]) == 122
                && spec_lower(tok@[a as int + 2]) == 105 && spec_lower(tok@[a as int + 3]) == 112);
        }
        if is_xgzip {
            assert(ft =~= xgzip_token());
        }
        if ft == xgzip_token() {
            assert(ft[0] == 120 && ft[1] == 45 && ft[2] == 103 && ft[3] == 122 && ft[4] == 105
                && ft[5] == 112);
            assert(spec_lower(tok@[a as int + 0]) == 120 && spec_lower(tok@[a as int + 1]) == 45
                && spec_lower(tok@[a as int + 2]) == 103 && spec_lower(tok@[a as int + 3]) == 122
                && spec_lower(tok@[a as int + 4]) == 105 && spec_lower(tok@[a as int + 5]) == 112);
        }
        if is_star {
            assert(ft =~= star_token());
        }
        if ft == star_token() {
            assert(ft[0] == 42);
            assert(spec_lower(tok@[a as int + 0]) == 42);
        }
    }
    (is_br, is_gzip || is_xgzip, is_star)
}

/// Decides whether an entry's parameter text leaves it acceptable.
fn params_ok(rest: &Vec<u8>, in_params: bool) -> (r: bool)
    ensures
        r == !entry_rejected(rest@, in_params),
{
    if !in_params {
        return true;
    }
    let m = rest.len();
    let mut c: usize = 0;
    while c < m && (rest[c] == SPACE || rest[c] == TAB)
        invariant
            0 <= c <= m,
            m == rest@.len(),
            forall|k: int| 0 <= k < c ==> is_blank(#[trigger] rest@[k]),
        decreases m - c,
    {
        c += 1;
    }
    let mut d: usize = m;
    while d > c && (rest[d - 1] == SPACE || rest[d - 1] == TAB)
        invariant
            0 <= c <= d <= m,
            m == rest@.len(),
            forall|k: int| d <= k < m ==> is_blank(#[trigger] rest@[k]),
        decreases d,
    {
        d -= 1;
    }
    proof {
        lemma_trim_front_at(rest@, c as int);
        let t1 = rest@.skip(c as int);
        assert(forall|k: int|
            d - c <= k < t1.len() ==> is_blank(#[trigger] t1[k]));
        lemma_trim_back_at(t1, d as int - c as int);
        assert(t1.take(d as int - c as int) =~= rest@.subrange(c as int, d as int));
    }
    let len = d - c;
    let zq = len >= 3 && len <= 7 && lower_byte(rest[c]) == 113 && lower_byte(rest[c + 1]) == 61
        && lower_byte(rest[c + 2]) == 48 && (len < 4 || lower_byte(rest[c + 3]) == 46) && (len < 5
        || lower_byte(rest[c + 4]) == 48) && (len < 6 || lower_byte(rest[c + 5]) == 48) && (len < 7
        || lower_byte(rest[c + 6]) == 48);
    proof {
        let fr = fold_lower(rest@.subrange(c as int, d as int));
        assert(fr.len() == d - c);
        assert(forall|i: int|
            0 <= i < fr.len() ==> #[trigger] fr[i] == spec_lower(rest@[c + i]));
        if zq {
            if len == 3 {
                assert(fr =~= seq![113u8, 61u8, 48u8]);
            } else if len == 4 {
                assert(fr =~= seq![113u8, 61u8, 48u8, 46u8]);
            } else if len == 5 {
                assert(fr =~= seq![113u8, 61u8, 48u8, 46u8, 48u8]);
            } else if len == 6 {
                assert(fr =~= seq![113u8, 61u8, 48u8, 46u8, 48u8, 48u8]);
            } else {
                assert(fr =~= seq![113u8, 61u8, 48u8, 46u8, 48u8, 48u8, 48u8]);
            }
        }
        if is_zero_q(fr) {
            assert(fr[0] == 113 && fr[1] == 61 && fr[2] == 48);
            assert(spec_lower(rest@[c as int + 0]) == 113 && spec_lower(rest@[c as int + 1]) == 61
                && spec_lower(rest@[c as int + 2]) == 48);
            if fr.len() >= 4 {
                assert(fr[3] == 46);
                assert(spec_lower(rest@[c as int + 3]) == 46);
            }
            if fr.len() >= 5 {
                assert(fr[4] == 48);
                assert(spec_lower(rest@[c as int + 4]) == 48);
            }
            if fr.len() >= 6 {
                assert(fr[5] == 48);
                assert(spec_lower(rest@[c as int + 5]) == 48);
            }
            if fr.len() >= 7 {
                assert(fr[6] == 48);
                assert(spec_lower(rest@[c as int + 6]) == 48);
            }
        }
    }
    !zq
}

/// Reads an `Accept-Encoding` value and reports which of the offered
/// encodings the client accepts.
pub fn parse_accept_encoding(header: &Vec<u8>) -> (r: Encodings)
    ensures
        r == spec_accepts(header@),
{
    let ghost s = header@;
    let mut br_listed = false;
    let mut br_ok = false;
    let mut gz_listed = false;
    let mut gz_ok = false;
    let mut star_ok = false;
    let mut tok: Vec<u8> = Vec::new();
    let mut rest: Vec<u8> = Vec::new();
    let mut in_params = false;
    let mut i: usize = 0;
    while i < header.len()
        invariant
            0 <= i <= header.len(),
            s == header@,
            ae_scan(s, i as int) == (AeScan {
                br_listed,
                br_ok,
                gz_listed,
                gz_ok,
                star_ok,
                tok: tok@,
                rest: rest@,
                in_params,
            }),
        decreases header.len() - i,
    {
        let b = header[i];
        if b == COMMA {
            let (t_br, t_gz, t_star) = token_flags(&tok);
            let ok = params_ok(&rest, in_params);
            br_listed = br_listed || t_br;
            br_ok = br_ok || (t_br && ok);
            gz_listed = gz_listed || t_gz;
            gz_ok = gz_ok || (t_gz && ok);
            star_ok = star_ok || (t_star && ok);
            tok.clear();
            rest.clear();
            in_params = false;
        } else if b == SEMI && !in_params {
            in_params = true;
        } else if in_params {
            rest.push(b);
        } else {
            tok.push(b);
        }
        proof {
            assert(ae_scan(s, i + 1 as int) =~= (AeScan {
                br_listed,
                br_ok,
                gz_listed,
                gz_ok,
                star_ok,
                tok: tok@,
                rest: rest@,
                in_params,
            }));
        }
        i += 1;
    }
    let (t_br, t_gz, t_star) = token_flags(&tok);
    let ok = params_ok(&rest, in_params);
    br_listed = br_listed || t_br;
    br_ok = br_ok || (t_br && ok);
    gz_listed = gz_listed || t_gz;
    gz_ok = gz_ok || (t_gz && ok);
    star_ok = star_ok || (t_star && ok);
    Encodings {
        br: if br_listed {
            br_ok
        } else {
            star_ok
        },
        gzip: if gz_listed {
            gz_ok
        } else {
            star_ok
        },
    }
}

/// Selects at most one encoding the client accepts and the server offers;
/// when both are possible, brotli is preferred for its stronger ratio.
pub open spec fn spec_negotiate(brotli_on: bool, gzip_on: bool, acc: Encodings) -> Option<
    Encoding,
> {
    if brotli_on && acc.br {
        Some(Encoding::Brotli)
    } else if gzip_on && acc.gzip {
        Some(Encoding::Gzip)
    } else {
        None
    }
}

/// Picks the response encoding from the enabled set and the client's
/// acceptable set.
pub fn negotiate(brotli_on: bool, gzip_on: bool, acc: Encodings) -> (r: Option<Encoding>)
    ensures
        r == spec_negotiate(brotli_on, gzip_on, acc),
{
    if brotli_on && acc.br {
        Some(Encoding::Brotli)
    } else if gzip_on && acc.gzip {
        Some(Encoding::Gzip)
    } else {
        None
    }
}

/// Law: when both encodings are enabled and the client accepts both,
/// negotiation selects brotli, never gzip.
pub proof fn lemma_brotli_preferred(acc: Encodings)
    requires
        acc.br,
        acc.gzip,
    ensures
        spec_negotiate(true, true, acc) == Some(Encoding::Brotli),
{
}

} // verus!
