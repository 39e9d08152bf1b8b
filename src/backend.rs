//! The paste backend adapter: tells the two kinds of backend apart by their
//! root URL, and reads their answers into one uniform result.

use vstd::prelude::*;

use crate::compose::{join, joined_path, url_model};
use crate::error::{result_view, ErrorView, PasteError};
use crate::text::{begins_with, has_prefix, trim_both, trim_quotes};

verus! {

/// The root that the backends answering an upload with the paste's URL as
/// the whole body share.
pub const PLAIN_BODY_ROOT: &'static str = "https://paste.rs";

/// How a backend answers an upload.
#[derive(Debug, Clone, Copy, PartialEq, Eq, Structural)]
pub enum BackendShape {
    /// A JSON object whose string member `key` names the paste.
    JsonKeyed,
    /// The paste's absolute URL, as the whole body.
    PlainBodyUrl,
}

/// The shape of the backend at `root`, by the prefix of the root.
pub open spec fn shape_of(root: Seq<char>) -> BackendShape {
    if begins_with(root, PLAIN_BODY_ROOT@) {
        BackendShape::PlainBodyUrl
    } else {
        BackendShape::JsonKeyed
    }
}

/// Chooses the shape of the backend at `root`.
pub fn backend_for(root: &str) -> (r: BackendShape)
    ensures
        r == shape_of(root@),
{
    if has_prefix(root, PLAIN_BODY_ROOT) {
        BackendShape::PlainBodyUrl
    } else {
        BackendShape::JsonKeyed
    }
}

/// Whether an HTTP status is a success.
pub open spec fn is_success(status: u16) -> bool {
    200 <= status <= 299
}

/// The text of the URL at which a paste is viewed: under `read_root`, in the
/// `raw` directory when raw output is asked for.
pub open spec fn view_path(read_root: Seq<char>, raw: bool, key: Seq<char>) -> Seq<char> {
    joined_path(read_root, seq![if raw { "raw"@ } else { ""@ }, key])
}

/// The text of the URL from which a paste's content is fetched: a
/// plain-body backend serves it under its root, the others under `raw`.
pub open spec fn fetch_path(shape: BackendShape, read_root: Seq<char>, key: Seq<char>) -> Seq<
    char,
> {
    match shape {
        BackendShape::PlainBodyUrl => joined_path(read_root, seq![key]),
        BackendShape::JsonKeyed => joined_path(read_root, seq!["raw"@, key]),
    }
}

/// The URL at which the paste `key` is viewed.
pub fn view_url(read_root: &str, raw: bool, key: &str) -> (r: Result<String, PasteError>)
    ensures
        result_view(r) == url_model(view_path(read_root@, raw, key@)),
{
    let dir = if raw {
        "raw"
    } else {
        ""
    };
    let segments = [dir, key];
    let r = join(read_root, &segments);
    assert(crate::compose::str_texts(segments@) =~= seq![if raw { "raw"@ } else { ""@ }, key@]);
    r
}

/// The URL from which the content of the paste `key` is fetched.
pub fn fetch_url(shape: BackendShape, read_root: &str, key: &str) -> (r: Result<
    String,
    PasteError,
>)
    ensures
        result_view(r) == url_model(fetch_path(shape, read_root@, key@)),
{
    match shape {
        BackendShape::PlainBodyUrl => {
            let segments = [key];
            let r = join(read_root, &segments);
            assert(crate::compose::str_texts(segments@) =~= seq![key@]);
            r
        },
        BackendShape::JsonKeyed => {
            let segments = ["raw", key];
            let r = join(read_root, &segments);
            assert(crate::compose::str_texts(segments@) =~= seq!["raw"@, key@]);
            r
        },
    }
}

/// The outcome of an upload: the paste's identifier, where the backend gave
/// one, and the URL at which it is viewed.
#[derive(Debug)]
pub struct UploadResult {
    pub identifier: Option<String>,
    pub viewable_url: String,
}

/// The view of an [`UploadResult`].
pub struct UploadView {
    pub identifier: Option<Seq<char>>,
    pub viewable_url: Seq<char>,
}

impl View for UploadResult {
    type V = UploadView;

    open spec fn view(&self) -> UploadView {
        UploadView {
            identifier: match self.identifier {
                Some(k) => Some(k@),
                None => None,
            },
            viewable_url: self.viewable_url@,
        }
    }
}

/// The string value of the member `name` of the JSON object that `body`
/// holds, if `body` is JSON, an object, and has such a member with a string.
pub uninterp spec fn json_string_member(body: Seq<char>, name: Seq<char>) -> Option<Seq<char>>;

/// Relies on serde_json's `from_str` into a `serde_json::Value`, then
/// `Value::get` and `Value::as_str`: the string held by the member `name` of
/// the object in `body`.
#[verifier::external_body]
fn string_member(body: &str, name: &str) -> (r: Option<String>)
    ensures
        r is Some <==> json_string_member(body@, name@) is Some,
        r matches Some(v) ==> json_string_member(body@, name@) == Some(v@),
{
    match serde_json::from_str::<serde_json::Value>(body) {
        Ok(v) => v.get(name).and_then(|m| m.as_str()).map(String::from),
        Err(_) => None,
    }
}

/// The identifier that a `key` member gives, with its stray quotes trimmed;
/// a missing or empty one fails, and the error holds the body.
pub open spec fn key_model(member: Option<Seq<char>>, body: Seq<char>) -> Result<
    Seq<char>,
    ErrorView,
> {
    match member {
        Some(m) => if trim_both(m, '"').len() > 0 {
            Ok(trim_both(m, '"'))
        } else {
            Err(ErrorView::ResponseParseFailed { raw_body: body })
        },
        None => Err(ErrorView::ResponseParseFailed { raw_body: body }),
    }
}

/// The result of a JSON-keyed upload whose body gave `member` as its `key`.
pub open spec fn keyed_model(
    read_root: Seq<char>,
    raw: bool,
    member: Option<Seq<char>>,
    body: Seq<char>,
) -> Result<UploadView, ErrorView> {
    match key_model(member, body) {
        Ok(k) => match url_model(view_path(read_root, raw, k)) {
            Ok(u) => Ok(UploadView { identifier: Some(k), viewable_url: u }),
            Err(e) => Err(e),
        },
        Err(e) => Err(e),
    }
}

/// What [`interpret_upload`] gives for an answer to an upload.
pub open spec fn upload_model(
    shape: BackendShape,
    read_root: Seq<char>,
    raw: bool,
    status: u16,
    status_text: Seq<char>,
    body: Seq<char>,
) -> Result<UploadView, ErrorView> {
    if !is_success(status) {
        Err(ErrorView::UploadFailed { status, status_text })
    } else {
        match shape {
            BackendShape::PlainBodyUrl => match url_model(body) {
                Ok(u) => Ok(UploadView { identifier: None, viewable_url: u }),
                Err(e) => Err(e),
            },
            BackendShape::JsonKeyed => keyed_model(
                read_root,
                raw,
                json_string_member(body, "key"@),
                body,
            ),
        }
    }
}

/// The option's character view.
pub open spec fn opt_text(o: Option<String>) -> Option<Seq<char>> {
    match o {
        Some(s) => Some(s@),
        None => None,
    }
}

/// Reads the identifier out of the `key` member of a JSON-keyed answer.
pub fn key_from_member(member: Option<String>, body: &str) -> (r: Result<String, PasteError>)
    ensures
        result_view(r) == key_model(opt_text(member), body@),
{
    match member {
        Some(m) => {
            let key = trim_quotes(m.as_str());
            if key.as_str().unicode_len() > 0 {
                Ok(key)
            } else {
                Err(PasteError::ResponseParseFailed { raw_body: body.to_owned() })
            }
        },
        None => Err(PasteError::ResponseParseFailed { raw_body: body.to_owned() }),
    }
}

/// The result of a JSON-keyed upload whose body gave `member` as its `key`:
/// the identifier, and the URL at which it is viewed under `read_root`.
pub fn keyed_upload(read_root: &str, raw: bool, member: Option<String>, body: &str) -> (r: Result<
    UploadResult,
    PasteError,
>)
    ensures
        result_view(r) == keyed_model(read_root@, raw, opt_text(member), body@),
{
    let key = match key_from_member(member, body) {
        Ok(k) => k,
        Err(e) => return Err(e),
    };
    match view_url(read_root, raw, key.as_str()) {
        Ok(u) => Ok(UploadResult { identifier: Some(key), viewable_url: u }),
        Err(e) => Err(e),
    }
}

/// Reads the answer to an upload made to a backend of the given shape. A
/// status other than 2xx fails and the body is left unread; a plain-body
/// backend's body is the paste's URL itself; a JSON-keyed backend's `key`
/// names the paste, which is then viewed under `read_root`.
pub fn interpret_upload(
    shape: BackendShape,
    read_root: &str,
    raw: bool,
    status: u16,
    status_text: &str,
    body: &str,
) -> (r: Result<UploadResult, PasteError>)
    ensures
        result_view(r) == upload_model(shape, read_root@, raw, status, status_text@, body@),
{
    if !(200 <= status && status <= 299) {
        return Err(PasteError::UploadFailed { status, status_text: status_text.to_owned() });
    }
    match shape {
        BackendShape::PlainBodyUrl => match crate::compose::to_url(body) {
            Ok(u) => Ok(UploadResult { identifier: None, viewable_url: u }),
            Err(e) => Err(e),
        },
        BackendShape::JsonKeyed => {
            let member = string_member(body, "key");
            keyed_upload(read_root, raw, member, body)
        },
    }
}

/// What [`interpret_fetch`] gives for an answer to a fetch.
pub open spec fn fetch_model(status: u16, status_text: Seq<char>, body: Seq<char>) -> Result<
    Seq<char>,
    ErrorView,
> {
    if is_success(status) {
        Ok(body)
    } else {
        Err(ErrorView::FetchFailed { status, status_text })
    }
}

/// Reads the answer to a fetch: on a 2xx status the body, as it came, is the
/// paste's content.
pub fn interpret_fetch(status: u16, status_text: &str, body: String) -> (r: Result<
    String,
    PasteError,
>)
    ensures
        result_view(r) == fetch_model(status, status_text@, body@),
{
    if 200 <= status && status <= 299 {
        Ok(body)
    } else {
        Err(PasteError::FetchFailed { status, status_text: status_text.to_owned() })
    }
}

} // verus!

verus! {

/// Upload then fetch, on a JSON-keyed backend: the identifier that a
/// successful upload reports, handed to a fetch, addresses exactly the raw
/// view URL that the upload reports with raw output, and a successful fetch
/// hands back the body it was sent, unchanged.
pub proof fn lemma_upload_then_fetch(
    read_root: Seq<char>,
    status: u16,
    status_text: Seq<char>,
    body: Seq<char>,
    fetch_status: u16,
    fetch_text: Seq<char>,
    content: Seq<char>,
)
    requires
        shape_of(read_root) == BackendShape::JsonKeyed,
        upload_model(BackendShape::JsonKeyed, read_root, true, status, status_text, body) is Ok,
        is_success(fetch_status),
    ensures
        ({
            let u = upload_model(
                BackendShape::JsonKeyed,
                read_root,
                true,
                status,
                status_text,
                body,
            )->Ok_0;
            &&& u.identifier is Some
            &&& url_model(fetch_path(shape_of(read_root), read_root, u.identifier->0)) == Ok::<
                Seq<char>,
                ErrorView,
            >(u.viewable_url)
        }),
        fetch_model(fetch_status, fetch_text, content) == Ok::<Seq<char>, ErrorView>(content),
{
}

/// A failed upload status is reported with that status and its text, whatever
/// the body holds: the body is not read.
pub proof fn lemma_failed_upload_ignores_body(
    shape: BackendShape,
    read_root: Seq<char>,
    raw: bool,
    status: u16,
    status_text: Seq<char>,
    body: Seq<char>,
)
    requires
        !is_success(status),
    ensures
        upload_model(shape, read_root, raw, status, status_text, body) == Err::<
            UploadView,
            ErrorView,
        >(ErrorView::UploadFailed { status, status_text }),
{
}

/// A JSON-keyed answer without a string `key` fails, and the error holds the
/// body as it came.
pub proof fn lemma_missing_key_keeps_body(read_root: Seq<char>, raw: bool, body: Seq<char>)
    ensures
        keyed_model(read_root, raw, None, body) == Err::<UploadView, ErrorView>(
            ErrorView::ResponseParseFailed { raw_body: body },
        ),
{
}

} // verus!
