//! Content types inferred from the served file's extension.

use vstd::prelude::*;
use crate::ascii::{fold_lower, lower_byte, spec_lower};
use crate::http::ContentType;
use crate::path::DOT;

verus! {

/// The extension of a file name: the bytes after the last `.`, or `None`
/// when the name has no dot at all.
pub open spec fn ext_of(name: Seq<u8>) -> Option<Seq<u8>>
    decreases name.len(),
{
    if name.len() == 0 {
        None
    } else if name[name.len() - 1] == DOT {
        Some(Seq::empty())
    } else {
        match ext_of(name.take(name.len() - 1)) {
            None => None,
            Some(e) => Some(e.push(name[name.len() - 1])),
        }
    }
}

// The recognized extensions, in folded (lowercase) form.
pub open spec fn ext_html() -> Seq<u8> {
    seq![104u8, 116u8, 109u8, 108u8]
}

pub open spec fn ext_css() -> Seq<u8> {
    seq![99u8, 115u8, 115u8]
}

pub open spec fn ext_js() -> Seq<u8> {
    seq![106u8, 115u8]
}

pub open spec fn ext_json() -> Seq<u8> {
    seq![106u8, 115u8, 111u8, 110u8]
}

pub open spec fn ext_png() -> Seq<u8> {
    seq![112u8, 110u8, 103u8]
}

pub open spec fn ext_jpg() -> Seq<u8> {
    seq![106u8, 112u8, 103u8]
}

pub open spec fn ext_jpeg() -> Seq<u8> {
    seq![106u8, 112u8, 101u8, 103u8]
}

pub open spec fn ext_gif() -> Seq<u8> {
    seq![103u8, 105u8, 102u8]
}

pub open spec fn ext_svg() -> Seq<u8> {
    seq![115u8, 118u8, 103u8]
}

pub open spec fn ext_ico() -> Seq<u8> {
    seq![105u8, 99u8, 111u8]
}

pub open spec fn ext_txt() -> Seq<u8> {
    seq![116u8, 120u8, 116u8]
}

pub open spec fn ext_wasm() -> Seq<u8> {
    seq![119u8, 97u8, 115u8, 109u8]
}

/// The content type for an extension; an unknown or missing extension is
/// served as an opaque byte stream.
pub open spec fn mime_of_ext(e: Option<Seq<u8>>) -> ContentType {
    match e {
        None => ContentType::OctetStream,
        Some(x) => if x == ext_html() {
            ContentType::Html
        } else if x == ext_css() {
            ContentType::Css
        } else if x == ext_js() {
            ContentType::JavaScript
        } else if x == ext_json() {
            ContentType::Json
        } else if x == ext_png() {
            ContentType::Png
        } else if x == ext_jpg() {
            ContentType::Jpeg
        } else if x == ext_jpeg() {
            ContentType::Jpeg
        } else if x == ext_gif() {
            ContentType::Gif
        } else if x == ext_svg() {
            ContentType::Svg
        } else if x == ext_ico() {
            ContentType::Icon
        } else if x == ext_txt() {
            ContentType::Text
        } else if x == ext_wasm() {
            ContentType::Wasm
        } else {
            ContentType::OctetStream
        },
    }
}

/// The content type a file name is served with: the extension is
/// matched case-insensitively.
pub open spec fn spec_content_type(name: Seq<u8>) -> ContentType {
    mime_of_ext(match ext_of(name) {
        None => None,
        Some(e) => Some(fold_lower(e)),
    })
}

proof fn lemma_ext_at(s: Seq<u8>, j: int)
    requires
        0 <= j < s.len(),
        s[j] == DOT,
        forall|k: int| j < k < s.len() ==> #[trigger] s[k] != DOT,
    ensures
        ext_of(s) == Some(s.skip(j + 1)),
    decreases s.len(),
{
    if j == s.len() - 1 {
        assert(s.skip(j + 1) =~= Seq::<u8>::empty());
    } else {
        let t = s.take(s.len() - 1);
        assert(forall|k: int| j < k < t.len() ==> #[trigger] t[k] == s[k]);
        lemma_ext_at(t, j);
        assert(t.skip(j + 1).push(s[s.len() - 1]) =~= s.skip(j + 1));
    }
}

proof fn lemma_ext_none(s: Seq<u8>)
    requires
        forall|k: int| 0 <= k < s.len() ==> #[trigger] s[k] != DOT,
    ensures
        ext_of(s) is None,
    decreases s.len(),
{
    if s.len() > 0 {
        let t = s.take(s.len() - 1);
        assert(forall|k: int| 0 <= k < t.len() ==> #[trigger] t[k] == s[k]);
        lemma_ext_none(t);
    }
}

/// Infers the content type of a file name from its extension.
#[verifier::rlimit(60)]
pub fn content_type_of_name(name: &Vec<u8>) -> (c: ContentType)
    ensures
        c == spec_content_type(name@),
{
    let n = name.len();
    let mut k: usize = n;
    while k > 0 && name[k - 1] != DOT
        invariant
            0 <= k <= n,
            n == name@.len(),
            forall|t: int| k <= t < n ==> #[trigger] name@[t] != DOT,
        decreases k,
    {
        k -= 1;
    }
    if k == 0 {
        proof {
            lemma_ext_none(name@);
        }
        return ContentType::OctetStream;
    }
    proof {
        lemma_ext_at(name@, k - 1);
        assert(name@.skip(k as int) =~= name@.subrange(k as int, n as int));
    }
    let e = n - k;
    let is_html = e == 4 && lower_byte(name[k + 0]) == 104 && lower_byte(name[k + 1]) == 116 && lower_byte(name[k + 2]) == 109 && lower_byte(name[k + 3]) == 108;
    let is_css = e == 3 && lower_byte(name[k + 0]) == 99 && lower_byte(name[k + 1]) == 115 && lower_byte(name[k + 2]) == 115;
    let is_js = e == 2 && lower_byte(name[k + 0]) == 106 && lower_byte(name[k + 1]) == 115;
    let is_json = e == 4 && lower_byte(name[k + 0]) == 106 && lower_byte(name[k + 1]) == 115 && lower_byte(name[k + 2]) == 111 && lower_byte(name[k + 3]) == 110;
    let is_png = e == 3 && lower_byte(name[k + 0]) == 112 && lower_byte(name[k + 1]) == 110 && lower_byte(name[k + 2]) == 103;
    let is_jpg = e == 3 && lower_byte(name[k + 0]) == 106 && lower_byte(name[k + 1]) == 112 && lower_byte(name[k + 2]) == 103;
    let is_jpeg = e == 4 && lower_byte(name[k + 0]) == 106 && lower_byte(name[k + 1]) == 112 && lower_byte(name[k + 2]) == 101 && lower_byte(name[k + 3]) == 103;
    let is_gif = e == 3 && lower_byte(name[k + 0]) == 103 && lower_byte(name[k + 1]) == 105 && lower_byte(name[k + 2]) == 102;
    let is_svg = e == 3 && lower_byte(name[k + 0]) == 115 && lower_byte(name[k + 1]) == 118 && lower_byte(name[k + 2]) == 103;
    let is_ico = e == 3 && lower_byte(name[k + 0]) == 105 && lower_byte(name[k + 1]) == 99 && lower_byte(name[k + 2]) == 111;
    let is_txt = e == 3 && lower_byte(name[k + 0]) == 116 && lower_byte(name[k + 1]) == 120 && lower_byte(name[k + 2]) == 116;
    let is_wasm = e == 4 && lower_byte(name[k + 0]) == 119 && lower_byte(name[k + 1]) == 97 && lower_byte(name[k + 2]) == 115 && lower_byte(name[k + 3]) == 109;
    proof {
        let tokf = fold_lower(name@.subrange(k as int, n as int));
        assert(tokf.len() == n - k);
        assert(forall|i: int| 0 <= i < tokf.len() ==> #[trigger] tokf[i] == spec_lower(name@[k + i]));
        if is_html {
            assert(tokf =~= ext_html());
        }
        if tokf == ext_html() {
            assert(tokf[0] == 104 && tokf[1] == 116 && tokf[2] == 109 && tokf[3] == 108);
            assert(spec_lower(name@[k as int + 0]) == 104 && spec_lower(name@[k as int + 1]) == 116 && spec_lower(name@[k as int + 2]) == 109 && spec_lower(name@[k as int + 3]) == 108);
        }
        if is_css {
            assert(tokf =~= ext_css());
        }
        if tokf == ext_css() {
            assert(tokf[0] == 99 && tokf[1] == 115 && tokf[2] == 115);
            assert(spec_lower(name@[k as int + 0]) == 99 && spec_lower(name@[k as int + 1]) == 115 && spec_lower(name@[k as int + 2]) == 115);
        }
        if is_js {
            assert(tokf =~= ext_js());
        }
        if tokf == ext_js() {
            assert(tokf[0] == 106 && tokf[1] == 115);
            assert(spec_lower(name@[k as int + 0]) == 106 && spec_lower(name@[k as int + 1]) == 115);
        }
        if is_json {
            assert(tokf =~= ext_json());
        }
        if tokf == ext_json() {
            assert(tokf[0] == 106 && tokf[1] == 115 && tokf[2] == 111 && tokf[3] == 110);
            assert(spec_lower(name@[k as int + 0]) == 106 && spec_lower(name@[k as int + 1]) == 115 && spec_lower(name@[k as int + 2]) == 111 && spec_lower(name@[k as int + 3]) == 110);
        }
        if is_png {
            assert(tokf =~= ext_png());
        }
        if tokf == ext_png() {
            assert(tokf[0] == 112 && tokf[1] == 110 && tokf[2] == 103);
            assert(spec_lower(name@[k as int + 0]) == 112 && spec_lower(name@[k as int + 1]) == 110 && spec_lower(name@[k as int + 2]) == 103);
        }
        if is_jpg {
            assert(tokf =~= ext_jpg());
        }
        if tokf == ext_jpg() {
            assert(tokf[0] == 106 && tokf[1] == 112 && tokf[2] == 103);
            assert(spec_lower(name@[k as int + 0]) == 106 && spec_lower(name@[k as int + 1]) == 112 && spec_lower(name@[k as int + 2]) == 103);
        }
        if is_jpeg {
            assert(tokf =~= ext_jpeg());
        }
        if tokf == ext_jpeg() {
            assert(tokf[0] == 106 && tokf[1] == 112 && tokf[2] == 101 && tokf[3] == 103);
            assert(spec_lower(name@[k as int + 0]) == 106 && spec_lower(name@[k as int + 1]) == 112 && spec_lower(name@[k as int + 2]) == 101 && spec_lower(name@[k as int + 3]) == 103);
        }
        if is_gif {
            assert(tokf =~= ext_gif());
        }
        if tokf == ext_gif() {
            assert(tokf[0] == 103 && tokf[1] == 105 && tokf[2] == 102);
            assert(spec_lower(name@[k as int + 0]) == 103 && spec_lower(name@[k as int + 1]) == 105 && spec_lower(name@[k as int + 2]) == 102);
        }
        if is_svg {
            assert(tokf =~= ext_svg());
        }
        if tokf == ext_svg() {
            assert(tokf[0] == 115 && tokf[1] == 118 && tokf[2] == 103);
            assert(spec_lower(name@[k as int + 0]) == 115 && spec_lower(name@[k as int + 1]) == 118 && spec_lower(name@[k as int + 2]) == 103);
        }
        if is_ico {
            assert(tokf =~= ext_ico());
        }
        if tokf == ext_ico() {
            assert(tokf[0] == 105 && tokf[1] == 99 && tokf[2] == 111);
            assert(spec_lower(name@[k as int + 0]) == 105 && spec_lower(name@[k as int + 1]) == 99 && spec_lower(name@[k as int + 2]) == 111);
        }
        if is_txt {
            assert(tokf =~= ext_txt());
        }
        if tokf == ext_txt() {
            assert(tokf[0] == 116 && tokf[1] == 120 && tokf[2] == 116);
            assert(spec_lower(name@[k as int + 0]) == 116 && spec_lower(name@[k as int + 1]) == 120 && spec_lower(name@[k as int + 2]) == 116);
        }
        if is_wasm {
            assert(tokf =~= ext_wasm());
        }
        if tokf == ext_wasm() {
            assert(tokf[0] == 119 && tokf[1] == 97 && tokf[2] == 115 && tokf[3] == 109);
            assert(spec_lower(name@[k as int + 0]) == 119 && spec_lower(name@[k as int + 1]) == 97 && spec_lower(name@[k as int + 2]) == 115 && spec_lower(name@[k as int + 3]) == 109);
        }
    }
    if is_html {
        ContentType::Html
    } else if is_css {
        ContentType::Css
    } else if is_js {
        ContentType::JavaScript
    } else if is_json {
        ContentType::Json
    } else if is_png {
        ContentType::Png
    } else if is_jpg {
        ContentType::Jpeg
    } else if is_jpeg {
        ContentType::Jpeg
    } else if is_gif {
        ContentType::Gif
    } else if is_svg {
        ContentType::Svg
    } else if is_ico {
        ContentType::Icon
    } else if is_txt {
        ContentType::Text
    } else if is_wasm {
        ContentType::Wasm
    } else {
        ContentType::OctetStream
    }
}

} // verus!
