//! Content-type inference from a file name.
//!
//! The extension is the part of the name after its last `.` (there is no
//! extension when the name has no `.`).  A static table maps extensions,
//! case-sensitively, to MIME types; anything unknown or missing maps to
//! `application/octet-stream`.

use vstd::prelude::*;
use vstd::string::StrSliceExecFns;
use crate::text::str_eq;

verus! {

/// The index of the last `.` in `s`, or -1 when `s` has none.
pub open spec fn last_dot(s: Seq<char>) -> int
    decreases s.len(),
{
    if s.len() == 0 {
        -1
    } else if s[s.len() - 1] == '.' {
        s.len() - 1
    } else {
        last_dot(s.take(s.len() - 1))
    }
}

/// The extension of a file name: what follows the last `.`, or empty
/// when there is no `.`.
pub open spec fn spec_extension(s: Seq<char>) -> Seq<char> {
    if last_dot(s) < 0 {
        Seq::empty()
    } else {
        s.subrange(last_dot(s) + 1, s.len() as int)
    }
}

/// The MIME type the static table assigns to an extension.
pub open spec fn spec_mime_of(ext: Seq<char>) -> Seq<char> {
    if ext == "aac"@ {
        "audio/aac"@
    } else if ext == "abw"@ {
        "application/x-abiword"@
    } else if ext == "arc"@ {
        "application/x-freearc"@
    } else if ext == "avi"@ {
        "video/x-msvideo"@
    } else if ext == "azw"@ {
        "application/vnd.amazon.ebook"@
    } else if ext == "bin"@ {
        "application/octet-stream"@
    } else if ext == "bmp"@ {
        "image/bmp"@
    } else if ext == "bz"@ {
        "application/x-bzip"@
    } else if ext == "bz2"@ {
        "application/x-bzip2"@
    } else if ext == "csh"@ {
        "application/x-csh"@
    } else if ext == "css"@ {
        "text/css"@
    } else if ext == "csv"@ {
        "text/csv"@
    } else if ext == "doc"@ {
        "application/msword"@
    } else if ext == "docx"@ {
        "application/vnd.openxmlformats-officedocument.wordprocessingml.document"@
    } else if ext == "eot"@ {
        "application/vnd.ms-fontobject"@
    } else if ext == "epub"@ {
        "application/epub+zip"@
    } else if ext == "gz"@ {
        "application/gzip"@
    } else if ext == "gif"@ {
        "image/gif"@
    } else if ext == "htm"@ {
        "text/html"@
    } else if ext == "html"@ {
        "text/html"@
    } else if ext == "ico"@ {
        "image/vnd.microsoft.icon"@
    } else if ext == "ics"@ {
        "text/calender"@
    } else if ext == "jar"@ {
        "application/java-archive"@
    } else if ext == "jpeg"@ {
        "image/jpeg"@
    } else if ext == "jpg"@ {
        "image/jpeg"@
    } else if ext == "js"@ {
        "text/javascript"@
    } else if ext == "json"@ {
        "application/json"@
    } else if ext == "jsonld"@ {
        "application/ld+json"@
    } else if ext == "mid"@ {
        "audio/midi"@
    } else if ext == "midi"@ {
        "audio/midi"@
    } else if ext == "mjs"@ {
        "text/javascript"@
    } else if ext == "mp3"@ {
        "audio/mpeg"@
    } else if ext == "mpeg"@ {
        "video/mpeg"@
    } else if ext == "mpkg"@ {
        "application/vnd.apple.installer+xml"@
    } else if ext == "odp"@ {
        "application/vnd.oasis.opendocument.presentation"@
    } else if ext == "ods"@ {
        "application/vnd.oasis.opendocument.spreadsheet"@
    } else if ext == "odt"@ {
        "application/vnd.oasis.opendocument.text"@
    } else if ext == "oga"@ {
        "audio/ogg"@
    } else if ext == "ogv"@ {
        "video/ogg"@
    } else if ext == "ogx"@ {
        "application/ogg"@
    } else if ext == "opus"@ {
        "audio/opus"@
    } else if ext == "otf"@ {
        "font/otf"@
    } else if ext == "png"@ {
        "image/png"@
    } else if ext == "pdf"@ {
        "application/pdf"@
    } else if ext == "php"@ {
        "application/x-httpd-php"@
    } else if ext == "ppt"@ {
        "application/vnd.ms-powerpoint"@
    } else if ext == "pptx"@ {
        "application/vnd.openxmlformats-officedocument.presentationml.presentation"@
    } else if ext == "rar"@ {
        "application/vnd.rar"@
    } else if ext == "rtf"@ {
        "application/rtf"@
    } else if ext == "sh"@ {
        "application/x-sh"@
    } else if ext == "svg"@ {
        "image/svg+xml"@
    } else if ext == "swf"@ {
        "application/x-shockwave-flash"@
    } else if ext == "tar"@ {
        "application/x-tar"@
    } else if ext == "tif"@ {
        "image/tiff"@
    } else if ext == "tiff"@ {
        "image/tiff"@
    } else if ext == "ts"@ {
        "video/mp2t"@
    } else if ext == "ttf"@ {
        "font/ttf"@
    } else if ext == "txt"@ {
        "text/plane"@
    } else if ext == "vsd"@ {
        "application/vnd.visio"@
    } else if ext == "wav"@ {
        "audio/wav"@
    } else if ext == "weba"@ {
        "	audio/webm"@
    } else if ext == "webm"@ {
        "video/webm"@
    } else if ext == "webp"@ {
        "audio/webp"@
    } else if ext == "woff"@ {
        "font/woff"@
    } else if ext == "woff2"@ {
        "font/woff2"@
    } else if ext == "xhtml"@ {
        "application/xhtml+xml"@
    } else if ext == "xls"@ {
        "application/vnd.ms-excel"@
    } else if ext == "xlsx"@ {
        "application/vnd.openxmlformats-officedocument.spreadsheetml.sheet"@
    } else if ext == "xml"@ {
        "text/xml"@
    } else if ext == "xul"@ {
        "application/vnd.mozilla.xul+xml"@
    } else if ext == "zip"@ {
        "application/zip"@
    } else if ext == "3gp"@ {
        "video/3gpp"@
    } else if ext == "3g2"@ {
        "video/3gpp2"@
    } else if ext == "7z"@ {
        "application/x-7z-compressed"@
    } else if ext == "md"@ {
        "text/markdown"@
    } else {
        "application/octet-stream"@
    }
}

/// The MIME type for a file name: the table entry for its extension.
pub open spec fn spec_content_type(name: Seq<char>) -> Seq<char> {
    spec_mime_of(spec_extension(name))
}

fn extension_of(name: &str) -> (r: &str)
    ensures
        r@ == spec_extension(name@),
{
    let n = name.unicode_len();
    let mut i: usize = n;
    proof {
        assert(name@.take(n as int) =~= name@);
    }
    while i > 0
        invariant
            i <= n,
            n == name@.len(),
            last_dot(name@) == last_dot(name@.take(i as int)),
        decreases i,
    {
        if name.get_char(i - 1) == '.' {
            proof {
                assert(name@.take(i as int)[i - 1] == name@[i - 1]);
                assert(last_dot(name@) == i - 1);
            }
            return name.substring_char(i, n);
        }
        proof {
            assert(name@.take(i as int).take(i - 1) =~= name@.take(i - 1));
        }
        i = i - 1;
    }
    proof {
        assert(name@.take(0) =~= Seq::<char>::empty());
        assert(last_dot(name@) == -1);
    }
    name.substring_char(n, n)
}

fn mime_of(ext: &str) -> (r: &'static str)
    ensures
        r@ == spec_mime_of(ext@),
{
    if str_eq(ext, "aac") {
        "audio/aac"
    } else if str_eq(ext, "abw") {
        "application/x-abiword"
    } else if str_eq(ext, "arc") {
        "application/x-freearc"
    } else if str_eq(ext, "avi") {
        "video/x-msvideo"
    } else if str_eq(ext, "azw") {
        "application/vnd.amazon.ebook"
    } else if str_eq(ext, "bin") {
        "application/octet-stream"
    } else if str_eq(ext, "bmp") {
        "image/bmp"
    } else if str_eq(ext, "bz") {
        "application/x-bzip"
    } else if str_eq(ext, "bz2") {
        "application/x-bzip2"
    } else if str_eq(ext, "csh") {
        "application/x-csh"
    } else if str_eq(ext, "css") {
        "text/css"
    } else if str_eq(ext, "csv") {
        "text/csv"
    } else if str_eq(ext, "doc") {
        "application/msword"
    } else if str_eq(ext, "docx") {
        "application/vnd.openxmlformats-officedocument.wordprocessingml.document"
    } else if str_eq(ext, "eot") {
        "application/vnd.ms-fontobject"
    } else if str_eq(ext, "epub") {
        "application/epub+zip"
    } else if str_eq(ext, "gz") {
        "application/gzip"
    } else if str_eq(ext, "gif") {
        "image/gif"
    } else if str_eq(ext, "htm") {
        "text/html"
    } else if str_eq(ext, "html") {
        "text/html"
    } else if str_eq(ext, "ico") {
        "image/vnd.microsoft.icon"
    } else if str_eq(ext, "ics") {
        "text/calender"
    } else if str_eq(ext, "jar") {
        "application/java-archive"
    } else if str_eq(ext, "jpeg") {
        "image/jpeg"
    } else if str_eq(ext, "jpg") {
        "image/jpeg"
    } else if str_eq(ext, "js") {
        "text/javascript"
    } else if str_eq(ext, "json") {
        "application/json"
    } else if str_eq(ext, "jsonld") {
        "application/ld+json"
    } else if str_eq(ext, "mid") {
        "audio/midi"
    } else if str_eq(ext, "midi") {
        "audio/midi"
    } else if str_eq(ext, "mjs") {
        "text/javascript"
    } else if str_eq(ext, "mp3") {
        "audio/mpeg"
    } else if str_eq(ext, "mpeg") {
        "video/mpeg"
    } else if str_eq(ext, "mpkg") {
        "application/vnd.apple.installer+xml"
    } else if str_eq(ext, "odp") {
        "application/vnd.oasis.opendocument.presentation"
    } else if str_eq(ext, "ods") {
        "application/vnd.oasis.opendocument.spreadsheet"
    } else if str_eq(ext, "odt") {
        "application/vnd.oasis.opendocument.text"
    } else if str_eq(ext, "oga") {
        "audio/ogg"
    } else if str_eq(ext, "ogv") {
        "video/ogg"
    } else if str_eq(ext, "ogx") {
        "application/ogg"
    } else if str_eq(ext, "opus") {
        "audio/opus"
    } else if str_eq(ext, "otf") {
        "font/otf"
    } else if str_eq(ext, "png") {
        "image/png"
    } else if str_eq(ext, "pdf") {
        "application/pdf"
    } else if str_eq(ext, "php") {
        "application/x-httpd-php"
    } else if str_eq(ext, "ppt") {
        "application/vnd.ms-powerpoint"
    } else if str_eq(ext, "pptx") {
        "application/vnd.openxmlformats-officedocument.presentationml.presentation"
    } else if str_eq(ext, "rar") {
        "application/vnd.rar"
    } else if str_eq(ext, "rtf") {
        "application/rtf"
    } else if str_eq(ext, "sh") {
        "application/x-sh"
    } else if str_eq(ext, "svg") {
        "image/svg+xml"
    } else if str_eq(ext, "swf") {
        "application/x-shockwave-flash"
    } else if str_eq(ext, "tar") {
        "application/x-tar"
    } else if str_eq(ext, "tif") {
        "image/tiff"
    } else if str_eq(ext, "tiff") {
        "image/tiff"
    } else if str_eq(ext, "ts") {
        "video/mp2t"
    } else if str_eq(ext, "ttf") {
        "font/ttf"
    } else if str_eq(ext, "txt") {
        "text/plane"
    } else if str_eq(ext, "vsd") {
        "application/vnd.visio"
    } else if str_eq(ext, "wav") {
        "audio/wav"
    } else if str_eq(ext, "weba") {
        "	audio/webm"
    } else if str_eq(ext, "webm") {
        "video/webm"
    } else if str_eq(ext, "webp") {
        "audio/webp"
    } else if str_eq(ext, "woff") {
        "font/woff"
    } else if str_eq(ext, "woff2") {
        "font/woff2"
    } else if str_eq(ext, "xhtml") {
        "application/xhtml+xml"
    } else if str_eq(ext, "xls") {
        "application/vnd.ms-excel"
    } else if str_eq(ext, "xlsx") {
        "application/vnd.openxmlformats-officedocument.spreadsheetml.sheet"
    } else if str_eq(ext, "xml") {
        "text/xml"
    } else if str_eq(ext, "xul") {
        "application/vnd.mozilla.xul+xml"
    } else if str_eq(ext, "zip") {
        "application/zip"
    } else if str_eq(ext, "3gp") {
        "video/3gpp"
    } else if str_eq(ext, "3g2") {
        "video/3gpp2"
    } else if str_eq(ext, "7z") {
        "application/x-7z-compressed"
    } else if str_eq(ext, "md") {
        "text/markdown"
    } else {
        "application/octet-stream"
    }
}

/// Looks a file name's extension up in the content-type table.
pub fn determine_content_type(name: &str) -> (r: &'static str)
    ensures
        r@ == spec_content_type(name@),
{
    mime_of(extension_of(name))
}

} // verus!
