use vstd::prelude::*;
use vstd::string::*;

verus! {

/// What `slug::slugify` returns for a given text. The result depends on the
/// characters of the text alone.
pub uninterp spec fn slug_of(s: Seq<char>) -> Seq<char>;

/// A character that may appear in a slug: a lowercase ASCII letter, an ASCII
/// digit, or a dash.
pub open spec fn slug_char(c: char) -> bool {
    ('a' <= c && c <= 'z') || ('0' <= c && c <= '9') || c == '-'
}

/// Relies on `slug::slugify`: derives a filesystem-safe slug from free text.
/// The crate documents that the result consists of `a-z`, `0-9` and `-` alone.
#[verifier::external_body]
fn slugify_text(s: &String) -> (r: String)
    ensures
        r@ == slug_of(s@),
        forall|i: int| 0 <= i < r@.len() ==> slug_char(#[trigger] r@[i]),
{
    slug::slugify(s)
}

/// A slug cut down to at most 50 characters: the first 50 where it is longer.
pub open spec fn truncated_slug(s: Seq<char>) -> Seq<char> {
    if s.len() > 50 {
        s.subrange(0, 50)
    } else {
        s
    }
}

/// The filename slug of a prompt: the prompt slugified, truncated to at most
/// 50 characters.
pub fn file_slug(prompt: &String) -> (r: String)
    ensures
        r@ == truncated_slug(slug_of(prompt@)),
        forall|i: int| 0 <= i < r@.len() ==> slug_char(#[trigger] r@[i]),
{
    let s = slugify_text(prompt);
    if s.as_str().unicode_len() > 50 {
        let t = s.as_str().substring_char(0, 50);
        t.to_owned()
    } else {
        s
    }
}

} // verus!
