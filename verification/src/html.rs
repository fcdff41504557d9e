//! Preparation of the bundled control page: the stylesheet is spliced into
//! the page at a fixed marker comment, so the page can be served from one
//! self-contained string.

use vstd::prelude::*;
use vstd::string::StringExecFns;
use vstd::string::StrSliceExecFns;

verus! {

/// The comment the page carries where its stylesheet belongs.
pub open spec fn spec_css_marker() -> Seq<char> {
    "<!-- pure-min.css -->"@
}

/// The position of the first occurrence of `needle` in `hay` at or after
/// `i`, if any.
pub open spec fn spec_find_from(hay: Seq<char>, needle: Seq<char>, i: nat) -> Option<int>
    decreases hay.len() + 1 - i,
{
    if i + needle.len() > hay.len() {
        None
    } else if hay.subrange(i as int, i + needle.len() as int) == needle {
        Some(i as int)
    } else {
        spec_find_from(hay, needle, i + 1)
    }
}

/// The page with the stylesheet spliced in at the first marker, wrapped in
/// a style element; a page without the marker is returned unchanged.
pub open spec fn spec_spliced(index: Seq<char>, css: Seq<char>) -> Seq<char> {
    match spec_find_from(index, spec_css_marker(), 0) {
        None => index,
        Some(i) => index.subrange(0, i) + "<style>"@ + css + "</style>"@ + index.subrange(
            i + spec_css_marker().len(),
            index.len() as int,
        ),
    }
}

/// Whether `needle` occurs in `hay` starting at `i`.
spec fn spec_matches_at(hay: Seq<char>, needle: Seq<char>, i: int) -> bool {
    i + needle.len() <= hay.len() && hay.subrange(i, i + needle.len()) == needle
}

/// Whether `needle` occurs in `hay` starting at `i`, by comparing the
/// characters.
fn matches_at(hay: &str, needle: &str, i: usize, hay_len: usize, needle_len: usize) -> (r: bool)
    requires
        hay_len == hay@.len(),
        needle_len == needle@.len(),
        i + needle_len <= hay_len,
    ensures
        r <==> spec_matches_at(hay@, needle@, i as int),
{
    let mut j: usize = 0;
    while j < needle_len
        invariant
            hay_len == hay@.len(),
            needle_len == needle@.len(),
            i + needle_len <= hay_len,
            j <= needle_len,
            forall|k: int| 0 <= k < j ==> hay@[i + k] == needle@[k],
        decreases needle_len - j,
    {
        if hay.get_char(i + j) != needle.get_char(j) {
            proof {
                assert(hay@.subrange(i as int, i + needle@.len())[j as int] != needle@[j as int]);
            }
            return false;
        }
        j += 1;
    }
    proof {
        assert(hay@.subrange(i as int, i + needle@.len()) =~= needle@);
    }
    true
}

/// Build the control page: splice the stylesheet into the page at the first
/// marker comment; a page without the marker comes back unchanged.
pub fn get_html(index: &str, css: &str) -> (r: String)
    ensures
        r@ == spec_spliced(index@, css@),
{
    let marker = "<!-- pure-min.css -->";
    let index_len = index.unicode_len();
    let marker_len = marker.unicode_len();
    proof {
        reveal_strlit("<!-- pure-min.css -->");
        assert(marker@.len() == 21);
    }
    if marker_len > index_len {
        return index.to_owned();
    }
    let mut i: usize = 0;
    while i <= index_len - marker_len
        invariant
            index_len == index@.len(),
            marker_len == marker@.len(),
            marker@ == spec_css_marker(),
            1 <= marker_len <= index_len,
            i <= index_len - marker_len + 1,
            spec_find_from(index@, marker@, 0) == spec_find_from(index@, marker@, i as nat),
        decreases index_len - i,
    {
        if matches_at(index, marker, i, index_len, marker_len) {
            let prefix = index.substring_char(0, i);
            let suffix = index.substring_char(i + marker_len, index_len);
            let mut out = String::new();
            out.append(prefix);
            out.append("<style>");
            out.append(css);
            out.append("</style>");
            out.append(suffix);
            proof {
                assert(spec_find_from(index@, marker@, i as nat) == Some(i as int));
                assert(out@ =~= spec_spliced(index@, css@));
            }
            return out;
        }
        proof {
            assert(spec_find_from(index@, marker@, i as nat) == spec_find_from(
                index@,
                marker@,
                (i + 1) as nat,
            ));
        }
        i += 1;
    }
    proof {
        assert(spec_find_from(index@, marker@, i as nat) is None);
    }
    index.to_owned()
}

} // verus!
