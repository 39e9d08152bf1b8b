//! The URL composer: appends path segments to a root URL and has the result
//! parsed as an absolute URL.

use vstd::prelude::*;

use crate::error::{result_view, ErrorView, PasteError};

verus! {

/// `base` with one more path segment. An empty segment adds nothing; a
/// segment after a `base` that ends in `/` adds no second slash.
pub open spec fn with_segment(base: Seq<char>, seg: Seq<char>) -> Seq<char> {
    if seg.len() == 0 {
        base
    } else if base.len() > 0 && base.last() == '/' {
        base + seg
    } else {
        base + seq!['/'] + seg
    }
}

/// `root` with each of `segments` appended in order.
pub open spec fn joined_path(root: Seq<char>, segments: Seq<Seq<char>>) -> Seq<char>
    decreases segments.len(),
{
    if segments.len() == 0 {
        root
    } else {
        with_segment(joined_path(root, segments.drop_last()), segments.last())
    }
}

/// The character views of a slice of string slices.
pub open spec fn str_texts(v: Seq<&str>) -> Seq<Seq<char>> {
    v.map_values(|s: &str| s@)
}

/// The serialization of the absolute URL that `text` parses to, if it parses.
pub uninterp spec fn parsed_url(text: Seq<char>) -> Option<Seq<char>>;

/// The result of parsing `text` as an absolute URL.
pub open spec fn url_model(text: Seq<char>) -> Result<Seq<char>, ErrorView> {
    match parsed_url(text) {
        Some(u) => Ok(u),
        None => Err(ErrorView::InvalidUrl { url: text }),
    }
}

#[verifier::external_type_specification]
#[verifier::external_body]
pub struct ExUrlParseError(url::ParseError);

/// Relies on url's `Url::parse` and its conversion into `String`: the
/// serialization of the parsed URL, or the parse error.
#[verifier::external_body]
fn parse_absolute_url(text: &str) -> (r: Result<String, url::ParseError>)
    ensures
        r is Ok <==> parsed_url(text@) is Some,
        r matches Ok(u) ==> parsed_url(text@) == Some(u@),
{
    url::Url::parse(text).map(String::from)
}

/// Parses `text` as an absolute URL and gives its serialization.
pub fn to_url(text: &str) -> (r: Result<String, PasteError>)
    ensures
        result_view(r) == url_model(text@),
{
    match parse_absolute_url(text) {
        Ok(u) => Ok(u),
        Err(_) => Err(PasteError::InvalidUrl { url: text.to_owned() }),
    }
}

/// Appends one path segment to `base`.
pub fn append_segment(base: &mut String, seg: &str)
    ensures
        final(base)@ == with_segment(old(base)@, seg@),
{
    if seg.unicode_len() == 0 {
        return;
    }
    let n = base.as_str().unicode_len();
    if !(n > 0 && base.as_str().get_char(n - 1) == '/') {
        base.append("/");
        proof {
            reveal_strlit("/");
        }
    }
    base.append(seg);
}

/// `root` with each of `segments` appended as a path segment.
pub fn join_path(root: &str, segments: &[&str]) -> (r: String)
    ensures
        r@ == joined_path(root@, str_texts(segments@)),
{
    let mut path = root.to_owned();
    let mut i: usize = 0;
    while i < segments.len()
        invariant
            i <= segments@.len(),
            path@ == joined_path(root@, str_texts(segments@.subrange(0, i as int))),
        decreases segments@.len() - i,
    {
        assert(str_texts(segments@.subrange(0, i + 1)).drop_last() =~= str_texts(
            segments@.subrange(0, i as int),
        ));
        append_segment(&mut path, segments[i]);
        i = i + 1;
    }
    assert(segments@.subrange(0, segments@.len() as int) =~= segments@);
    path
}

/// The absolute URL made of `root` and `segments`.
pub fn join(root: &str, segments: &[&str]) -> (r: Result<String, PasteError>)
    ensures
        result_view(r) == url_model(joined_path(root@, str_texts(segments@))),
{
    let path = join_path(root, segments);
    to_url(path.as_str())
}

} // verus!
