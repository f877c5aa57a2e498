use mhs::listing::render_dir_listing;
use mhs::listing::DirEntryView;
use mhs::mime::determine_content_type;
use mhs::percent::percent_decode;
use mhs::request::local_path_of;
use mhs::request::parse_request;
use mhs::request::parse_uri;
use mhs::response::build_response;
use mhs::response::file_response;
use mhs::response::missing_response;
use mhs::response::serialize_response;
use mhs::response::ResolvedTarget;

#[test]
fn lib_test_percent_decode() {
    let expect = String::from(" !\"#$%");
    let actual = percent_decode("%20%21%22%23%24%25");

    assert_eq!(expect, actual);
}

#[test]
fn lib_test_percent_decode_only_ascii() {
    let expect = String::from("abc");
    let actual = percent_decode("abc");

    assert_eq!(expect, actual);
}

#[test]
fn lib_test_percent_decode_mix_ascii() {
    let expect = String::from("!1#3");
    let actual = percent_decode("%211%233");

    assert_eq!(expect, actual);
}

#[test]
fn test_determine_content_type() {
    let expect = "text/plane";
    let actual = determine_content_type("test.txt");

    assert_eq!(expect, actual);
}

#[test]
fn main_test_percent_decode_only_ascii() {
    let expect = String::from("abc");
    let actual = percent_decode("abc");

    assert_eq!(expect, actual);
}

#[test]
fn main_test_percent_decode() {
    let expect = String::from(" !\"#$%");
    let actual = percent_decode("%20%21%22%23%24%25");

    assert_eq!(expect, actual);
}

#[test]
fn main_test_percent_decode_mix_ascii() {
    let expect = String::from("!1#3");
    let actual = percent_decode("%211%233");

    assert_eq!(expect, actual);
}

#[test]
fn percent_decode_trailing_escape() {
    assert_eq!(percent_decode("%"), "\u{0}");
    assert_eq!(percent_decode("%2"), " ");
    assert_eq!(percent_decode("abc%"), "abc\u{0}");
}

#[test]
fn percent_decode_hex_case_insensitive() {
    assert_eq!(percent_decode("%2f"), "/");
    assert_eq!(percent_decode("%2F"), "/");
}

#[test]
fn percent_decode_invalid_utf8_yields_empty() {
    assert_eq!(percent_decode("%ff"), "");
    assert_eq!(percent_decode("é"), "");
}

#[test]
fn parse_request_plain_path() {
    let (path, query) = parse_request(String::from("GET /docs/readme.md HTTP/1.1\r\n\r\n"));
    assert_eq!(path, "/docs/readme.md");
    assert_eq!(query, "");
}

#[test]
fn parse_request_decodes_path_and_keeps_query() {
    let (path, query) = parse_request(String::from("GET /a%20b?x=1 HTTP/1.1\r\n\r\n"));
    assert_eq!(path, "/a b");
    assert_eq!(query, "x=1");
}

#[test]
fn parse_request_defaults_to_root() {
    let (path, query) = parse_request(String::from(""));
    assert_eq!(path, "/");
    assert_eq!(query, "");

    let (path, query) = parse_request(String::from("GET"));
    assert_eq!(path, "/");
    assert_eq!(query, "");
}

#[test]
fn parse_request_query_runs_to_end_of_target() {
    let (path, query) = parse_request(String::from("GET /p?a?b HTTP/1.1\r\n\r\n"));
    assert_eq!(path, "/p");
    assert_eq!(query, "a?b");
}

#[test]
fn parse_uri_matches_parse_request() {
    let raw = "GET /a%20b?x=1 HTTP/1.1\r\n\r\n";
    assert_eq!(parse_uri(String::from(raw)), parse_request(String::from(raw)));
}

#[test]
fn local_path_is_plain_concatenation() {
    assert_eq!(local_path_of("/missing.xyz"), "./missing.xyz");
}

#[test]
fn traversal_resolves_by_string_concatenation() {
    let (path, _) = parse_request(String::from("GET /%2e%2e/etc HTTP/1.1\r\n\r\n"));
    assert_eq!(path, "/../etc");
    assert_eq!(local_path_of(&path), "./../etc");
}

#[test]
fn content_type_table_entries() {
    assert_eq!(
        determine_content_type("report.docx"),
        "application/vnd.openxmlformats-officedocument.wordprocessingml.document"
    );
    assert_eq!(determine_content_type("x.unknownext"), "application/octet-stream");
    assert_eq!(determine_content_type("noext"), "application/octet-stream");
    assert_eq!(determine_content_type("README.md"), "text/markdown");
    assert_eq!(determine_content_type("./dir/page.html"), "text/html");
}

#[test]
fn listing_of_empty_root_directory() {
    let html = render_dir_listing("./", &Vec::new());
    assert_eq!(
        html,
        "<head><title>Index of /</title></head>\
         <body><h1>Index of /</h1><table><tbody></tbody></table></body>"
    );
}

#[test]
fn listing_rows_for_file_and_subdirectory() {
    let entries = vec![
        DirEntryView { name: String::from("a.txt"), is_dir: false, size_bytes: 10 },
        DirEntryView { name: String::from("sub"), is_dir: true, size_bytes: 0 },
    ];
    let html = render_dir_listing("./files/", &entries);
    assert!(html.contains("<tr><td><a href=\"/files/../\">../</a></td><td></td></tr>"));
    assert!(html.contains("<tr><td><a href=\"/files/a.txt\">a.txt</a></td><td>10 Bytes</td></tr>"));
    assert!(html.contains("<tr><td><a href=\"/files/sub/\">sub/</a></td><td></td></tr>"));
    assert!(html.starts_with("<head><title>Index of /files/</title></head>"));
}

#[test]
fn listing_renders_sizes_in_decimal() {
    let entries = vec![
        DirEntryView { name: String::from("empty.bin"), is_dir: false, size_bytes: 0 },
        DirEntryView { name: String::from("big.bin"), is_dir: false, size_bytes: 1234567890123 },
    ];
    let html = render_dir_listing("./x", &entries);
    assert!(html.contains(">empty.bin</a></td><td>0 Bytes</td>"));
    assert!(html.contains(">big.bin</a></td><td>1234567890123 Bytes</td>"));
}

#[test]
fn file_response_carries_contents_and_content_type() {
    let resp = file_response("./f.txt", b"hello".to_vec());
    let bytes = serialize_response(&resp);
    assert_eq!(
        bytes,
        b"HTTP/1.1 200 OK\r\nContent-Type: text/plane; charset=UTF-8\r\n\r\nhello".to_vec()
    );
}

#[test]
fn missing_response_is_bare_404() {
    let resp = missing_response();
    assert_eq!(resp.status_line, "404 NOT FOUND");
    assert!(resp.headers.is_empty());
    assert!(resp.body.is_empty());
    let bytes = serialize_response(&resp);
    assert_eq!(bytes, b"HTTP/1.1 404 NOT FOUND\r\n\r\n".to_vec());
}

#[test]
fn request_for_missing_path_gets_404_wire_bytes() {
    let (path, _) = parse_request(String::from("GET /missing.xyz HTTP/1.1\r\n\r\n"));
    assert_eq!(path, "/missing.xyz");
    assert_eq!(local_path_of(&path), "./missing.xyz");
    let bytes = build_response(&ResolvedTarget::Missing, &Vec::new(), Vec::new());
    assert!(bytes.starts_with(b"HTTP/1.1 404 NOT FOUND"));
    assert_eq!(bytes, b"HTTP/1.1 404 NOT FOUND\r\n\r\n".to_vec());
}

#[test]
fn directory_response_wire_bytes() {
    let target = ResolvedTarget::Directory(String::from("./"));
    let bytes = build_response(&target, &Vec::new(), Vec::new());
    let expect = b"HTTP/1.1 200 OK\r\nContent-Type: text/html; charset=UTF-8\r\n\r\n\
                   <head><title>Index of /</title></head>\
                   <body><h1>Index of /</h1><table><tbody></tbody></table></body>"
        .to_vec();
    assert_eq!(bytes, expect);
}

#[test]
fn file_target_response_wire_bytes() {
    let target = ResolvedTarget::File(String::from("./page.html"));
    let bytes = build_response(&target, &Vec::new(), b"<p>hi</p>".to_vec());
    assert_eq!(
        bytes,
        b"HTTP/1.1 200 OK\r\nContent-Type: text/html; charset=UTF-8\r\n\r\n<p>hi</p>".to_vec()
    );
}
