//! Response assembly and framing.
//!
//! A resolved request target is one of three outcomes — a directory, a
//! regular file, or nothing — and each outcome maps to one response: a
//! `200 OK` carrying the rendered listing as HTML, a `200 OK` carrying
//! the file bytes under their inferred content type, or a bare
//! `404 NOT FOUND` with an empty body.  A response is framed as the
//! status line, the headers, a blank line, and the body, with CRLF line
//! endings and no content-length: the connection closes after one
//! response, so its end marks the body's end.

use vstd::prelude::*;
use vstd::seq_lib::lemma_concat_associative;
use vstd::string::StrSliceExecFns;
use vstd::string::StringExecFns;
use vstd::utf8::encode_utf8;
use crate::listing::entry_models;
use crate::listing::render_dir_listing;
use crate::listing::spec_dir_listing;
use crate::listing::spec_display_path;
use crate::listing::DirEntryModel;
use crate::listing::DirEntryView;
use crate::mime::determine_content_type;
use crate::mime::spec_content_type;

verus! {

/// What a requested path turned out to denote on the local filesystem:
/// a directory, a regular file (each with its local path), or nothing.
pub enum ResolvedTarget {
    Directory(String),
    File(String),
    Missing,
}

/// The mathematical image of a `ResolvedTarget`.
pub enum ResolvedTargetModel {
    Directory(Seq<char>),
    File(Seq<char>),
    Missing,
}

impl View for ResolvedTarget {
    type V = ResolvedTargetModel;

    open spec fn view(&self) -> ResolvedTargetModel {
        match self {
            ResolvedTarget::Directory(p) => ResolvedTargetModel::Directory(p@),
            ResolvedTarget::File(p) => ResolvedTargetModel::File(p@),
            ResolvedTarget::Missing => ResolvedTargetModel::Missing,
        }
    }
}

/// One HTTP response before framing: a status line, ordered headers,
/// and a body.
pub struct HttpResponse {
    pub status_line: String,
    pub headers: Vec<(String, String)>,
    pub body: Vec<u8>,
}

/// The mathematical image of an `HttpResponse`.
pub struct HttpResponseModel {
    pub status_line: Seq<char>,
    pub headers: Seq<(Seq<char>, Seq<char>)>,
    pub body: Seq<u8>,
}

/// The models of a header list, in order.
pub open spec fn header_models(hs: Seq<(String, String)>) -> Seq<(Seq<char>, Seq<char>)> {
    hs.map_values(|h: (String, String)| (h.0@, h.1@))
}

impl View for HttpResponse {
    type V = HttpResponseModel;

    open spec fn view(&self) -> HttpResponseModel {
        HttpResponseModel {
            status_line: self.status_line@,
            headers: header_models(self.headers@),
            body: self.body@,
        }
    }
}

/// The header block: each header as `Name: Value` followed by CRLF.
pub open spec fn spec_headers_text(hs: Seq<(Seq<char>, Seq<char>)>) -> Seq<char>
    decreases hs.len(),
{
    if hs.len() == 0 {
        Seq::empty()
    } else {
        hs[0].0 + ": "@ + hs[0].1 + "\r\n"@ + spec_headers_text(hs.drop_first())
    }
}

/// Everything before the body: the status line under the fixed
/// `HTTP/1.1` version, the header block, and the blank separator line.
pub open spec fn spec_head_text(status: Seq<char>, hs: Seq<(Seq<char>, Seq<char>)>) -> Seq<
    char,
> {
    "HTTP/1.1 "@ + status + "\r\n"@ + spec_headers_text(hs) + "\r\n"@
}

/// The bytes a response is framed to: the UTF-8 bytes of its head text,
/// then the body verbatim.
pub open spec fn spec_response_bytes(m: HttpResponseModel) -> Seq<u8> {
    encode_utf8(spec_head_text(m.status_line, m.headers)) + m.body
}

proof fn lemma_headers_snoc(hs: Seq<(Seq<char>, Seq<char>)>, k: int)
    requires
        0 <= k < hs.len(),
    ensures
        spec_headers_text(hs.take(k + 1)) == spec_headers_text(hs.take(k)) + (hs[k].0 + ": "@
            + hs[k].1 + "\r\n"@),
    decreases k,
{
    let row = hs[k].0 + ": "@ + hs[k].1 + "\r\n"@;
    if k == 0 {
        assert(hs.take(1) =~= seq![hs[0]]);
        assert(hs.take(1).drop_first() =~= Seq::<(Seq<char>, Seq<char>)>::empty());
        assert(hs.take(0) =~= Seq::<(Seq<char>, Seq<char>)>::empty());
        assert(row + Seq::<char>::empty() =~= row);
        assert(Seq::<char>::empty() + row =~= row);
    } else {
        let tail = hs.drop_first();
        lemma_headers_snoc(tail, k - 1);
        assert(hs.take(k + 1).drop_first() =~= tail.take(k));
        assert(hs.take(k).drop_first() =~= tail.take(k - 1));
        assert(hs.take(k + 1)[0] == hs[0]);
        assert(hs.take(k)[0] == hs[0]);
        assert(tail[k - 1] == hs[k]);
        lemma_concat_associative(
            hs[0].0 + ": "@ + hs[0].1 + "\r\n"@,
            spec_headers_text(tail.take(k - 1)),
            row,
        );
    }
}

/// Frames a response to the bytes that go out on the wire.
pub fn serialize_response(r: &HttpResponse) -> (out: Vec<u8>)
    ensures
        out@ == spec_response_bytes(r@),
{
    let ghost status = r.status_line@;
    let ghost models = header_models(r.headers@);
    let mut head = String::new();
    head.append("HTTP/1.1 ");
    head.append(r.status_line.as_str());
    head.append("\r\n");
    let ghost x = "HTTP/1.1 "@ + status + "\r\n"@;
    proof {
        assert(Seq::<char>::empty() + "HTTP/1.1 "@ =~= "HTTP/1.1 "@);
        assert(head@ == x);
        assert(models.take(0) =~= Seq::<(Seq<char>, Seq<char>)>::empty());
        assert(x + Seq::<char>::empty() =~= x);
    }
    let mut k: usize = 0;
    while k < r.headers.len()
        invariant
            k <= r.headers.len(),
            status == r.status_line@,
            models == header_models(r.headers@),
            x == "HTTP/1.1 "@ + status + "\r\n"@,
            head@ == x + spec_headers_text(models.take(k as int)),
        decreases r.headers.len() - k,
    {
        let ghost head0 = head@;
        let h = &r.headers[k];
        head.append(h.0.as_str());
        head.append(": ");
        head.append(h.1.as_str());
        head.append("\r\n");
        proof {
            let nm = models[k as int].0;
            let vl = models[k as int].1;
            lemma_concat_associative(head0, nm, ": "@);
            lemma_concat_associative(head0, nm + ": "@, vl);
            lemma_concat_associative(head0, nm + ": "@ + vl, "\r\n"@);
            assert(head@ == head0 + (nm + ": "@ + vl + "\r\n"@));
            lemma_headers_snoc(models, k as int);
            lemma_concat_associative(
                x,
                spec_headers_text(models.take(k as int)),
                nm + ": "@ + vl + "\r\n"@,
            );
            assert(head@ == x + spec_headers_text(models.take(k + 1)));
        }
        k = k + 1;
    }
    proof {
        assert(models.take(models.len() as int) =~= models);
    }
    head.append("\r\n");
    proof {
        assert(head@ == spec_head_text(status, models));
    }
    let mut out = head.as_str().as_bytes_vec();
    out.extend_from_slice(r.body.as_slice());
    out
}

/// The `200 OK` response for a directory: an HTML content type and the
/// rendered listing as the body.
pub fn directory_response(html: String) -> (r: HttpResponse)
    ensures
        r@.status_line == "200 OK"@,
        r@.headers == seq![("Content-Type"@, "text/html; charset=UTF-8"@)],
        r@.body == encode_utf8(html@),
{
    let mut headers: Vec<(String, String)> = Vec::new();
    headers.push(
        (String::from_str("Content-Type"), String::from_str("text/html; charset=UTF-8")),
    );
    let body = html.as_str().as_bytes_vec();
    let r = HttpResponse { status_line: String::from_str("200 OK"), headers, body };
    proof {
        assert(r@.headers =~= seq![("Content-Type"@, "text/html; charset=UTF-8"@)]);
    }
    r
}

/// The `200 OK` response for a regular file: the content type inferred
/// from the local path's file name, and the file bytes as the body.
pub fn file_response(local_path: &str, contents: Vec<u8>) -> (r: HttpResponse)
    ensures
        r@.status_line == "200 OK"@,
        r@.headers == seq![
            ("Content-Type"@, spec_content_type(local_path@) + "; charset=UTF-8"@),
        ],
        r@.body == contents@,
{
    let ct = determine_content_type(local_path);
    let value = String::from_str(ct).concat("; charset=UTF-8");
    let mut headers: Vec<(String, String)> = Vec::new();
    headers.push((String::from_str("Content-Type"), value));
    let r = HttpResponse { status_line: String::from_str("200 OK"), headers, body: contents };
    proof {
        assert(r@.headers =~= seq![
            ("Content-Type"@, spec_content_type(local_path@) + "; charset=UTF-8"@),
        ]);
    }
    r
}

/// The `404 NOT FOUND` response: no headers and an empty body.
pub fn missing_response() -> (r: HttpResponse)
    ensures
        r@.status_line == "404 NOT FOUND"@,
        r@.headers == Seq::<(Seq<char>, Seq<char>)>::empty(),
        r@.body == Seq::<u8>::empty(),
{
    let r = HttpResponse {
        status_line: String::from_str("404 NOT FOUND"),
        headers: Vec::new(),
        body: Vec::new(),
    };
    proof {
        assert(r@.headers =~= Seq::<(Seq<char>, Seq<char>)>::empty());
    }
    r
}

/// The wire bytes for a directory outcome.
pub open spec fn spec_directory_response(local: Seq<char>, es: Seq<DirEntryModel>) -> Seq<u8> {
    encode_utf8(
        spec_head_text("200 OK"@, seq![("Content-Type"@, "text/html; charset=UTF-8"@)]),
    ) + encode_utf8(spec_dir_listing(spec_display_path(local), es))
}

/// The wire bytes for a file outcome.
pub open spec fn spec_file_response(local: Seq<char>, contents: Seq<u8>) -> Seq<u8> {
    encode_utf8(
        spec_head_text(
            "200 OK"@,
            seq![("Content-Type"@, spec_content_type(local) + "; charset=UTF-8"@)],
        ),
    ) + contents
}

/// The wire bytes for a missing outcome.
pub open spec fn spec_missing_response() -> Seq<u8> {
    encode_utf8(spec_head_text("404 NOT FOUND"@, Seq::empty()))
}

/// The wire bytes for any outcome, using the directory entries in the
/// directory case and the file contents in the file case.
pub open spec fn spec_build_response(
    t: ResolvedTargetModel,
    es: Seq<DirEntryModel>,
    contents: Seq<u8>,
) -> Seq<u8> {
    match t {
        ResolvedTargetModel::Directory(p) => spec_directory_response(p, es),
        ResolvedTargetModel::File(p) => spec_file_response(p, contents),
        ResolvedTargetModel::Missing => spec_missing_response(),
    }
}

/// Builds the complete response bytes for a resolved target: the
/// listing of `entries` for a directory, `contents` for a file, and a
/// bare `404 NOT FOUND` otherwise.
pub fn build_response(
    target: &ResolvedTarget,
    entries: &Vec<DirEntryView>,
    contents: Vec<u8>,
) -> (r: Vec<u8>)
    ensures
        r@ == spec_build_response(target@, entry_models(entries@), contents@),
{
    match target {
        ResolvedTarget::Directory(p) => {
            let html = render_dir_listing(p.as_str(), entries);
            let resp = directory_response(html);
            serialize_response(&resp)
        },
        ResolvedTarget::File(p) => {
            let resp = file_response(p.as_str(), contents);
            serialize_response(&resp)
        },
        ResolvedTarget::Missing => {
            let resp = missing_response();
            serialize_response(&resp)
        },
    }
}

} // verus!
