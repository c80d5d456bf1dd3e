use shortlink::json::{extract_url_field, FieldExtraction};
use shortlink::resolve::{
    default_lookup_base, lookup_url, resolve_outcome, resolve_path, LookupOutcome, Resolution,
};
use shortlink::response::ResponseKind;
use shortlink::text::str_eq;

fn reserved_body(path: &str) -> String {
    match resolve_path(path) {
        Resolution::Reserved { response } => {
            assert_eq!(response.kind, ResponseKind::ReservedPath);
            assert_eq!(response.status(), 404);
            assert!(!response.is_html());
            response.body
        }
        Resolution::Lookup { short_code } => {
            panic!("reserved path {} reached the lookup step as {}", path, short_code)
        }
    }
}

fn short_code_of(path: &str) -> String {
    match resolve_path(path) {
        Resolution::Lookup { short_code } => short_code,
        Resolution::Reserved { .. } => panic!("path {} was treated as reserved", path),
    }
}

#[test]
fn root_path_is_reserved() {
    assert_eq!(reserved_body("/"), "Not found");
}

#[test]
fn script_asset_path_is_reserved() {
    assert_eq!(reserved_body("/script.lua"), "Not found");
}

#[test]
fn plain_code_is_taken_verbatim() {
    assert_eq!(short_code_of("/abc"), "abc");
}

#[test]
fn special_characters_survive_untouched() {
    assert_eq!(short_code_of("/a b%2F?x=1&y=<z>"), "a b%2F?x=1&y=<z>");
}

#[test]
fn only_one_separator_is_stripped() {
    assert_eq!(short_code_of("//nested"), "/nested");
}

#[test]
fn near_misses_of_reserved_paths_are_looked_up() {
    assert_eq!(short_code_of("/script.luax"), "script.luax");
    assert_eq!(short_code_of("/script.lu"), "script.lu");
}

#[test]
fn lone_extra_separator_is_a_code() {
    // "//" is not reserved; after one separator is stripped, "/" remains.
    assert_eq!(short_code_of("//"), "/");
}

#[test]
fn success_body_renders_redirect_three_times() {
    let outcome = LookupOutcome::Response {
        status: 200,
        body: "{\"url\": \"https://example.com/target\"}".to_string(),
    };
    let r = resolve_outcome("abc", &outcome);
    assert_eq!(r.kind, ResponseKind::Redirect);
    assert_eq!(r.status(), 200);
    assert!(r.is_html());
    assert_eq!(r.body.matches("https://example.com/target").count(), 3);
}

#[test]
fn redirect_page_has_expected_shape() {
    let outcome = LookupOutcome::Response {
        status: 200,
        body: "{\"url\":\"https://example.com/t\"}".to_string(),
    };
    let r = resolve_outcome("abc", &outcome);
    let u = "https://example.com/t";
    let expected = format!(
        "<!DOCTYPE html>\n<html>\n<head>\n<title>Redirecting...</title>\n\
         <meta http-equiv=\"refresh\" content=\"0;url={u}\">\n</head>\n<body>\n\
         <h1>Redirecting...</h1>\n\
         <p>If you are not redirected automatically, <a href=\"{u}\">click here</a>.</p>\n\
         <p>Original URL: <code>{u}</code></p>\n</body>\n</html>\n"
    );
    assert_eq!(r.body, expected);
}

#[test]
fn lookup_404_names_the_code() {
    let outcome = LookupOutcome::Response { status: 404, body: "".to_string() };
    let r = resolve_outcome("missing-code", &outcome);
    assert_eq!(r.kind, ResponseKind::NotFound);
    assert_eq!(r.status(), 404);
    assert!(r.is_html());
    assert!(r.body.contains("<code>missing-code</code>"));
    assert!(r.body.contains("<a href=\"gurt://127.0.0.1:4878/\">"));
}

#[test]
fn not_found_page_has_expected_shape() {
    let outcome = LookupOutcome::Response { status: 404, body: String::new() };
    let r = resolve_outcome("abc", &outcome);
    let expected = "<!DOCTYPE html>\n<html>\n<head>\n<title>URL Not Found</title>\n</head>\n\
                    <body>\n<h1>URL Not Found</h1>\n<p>The short URL <code>abc</code> was not found.</p>\n\
                    <p><a href=\"gurt://127.0.0.1:4878/\">Create a new short URL</a></p>\n</body>\n</html>\n";
    assert_eq!(r.body, expected);
}

#[test]
fn lookup_500_is_a_generic_upstream_error() {
    let outcome = LookupOutcome::Response { status: 500, body: "boom".to_string() };
    let r = resolve_outcome("abc", &outcome);
    assert_eq!(r.kind, ResponseKind::UpstreamError);
    assert_eq!(r.status(), 500);
    assert!(!r.is_html());
    assert_eq!(r.body, "API request failed");
}

#[test]
fn other_non_success_statuses_are_upstream_errors() {
    for status in [100u16, 199, 301, 403, 503] {
        let outcome = LookupOutcome::Response { status, body: "".to_string() };
        let r = resolve_outcome("abc", &outcome);
        assert_eq!(r.kind, ResponseKind::UpstreamError);
        assert_eq!(r.body, "API request failed");
    }
}

#[test]
fn every_success_status_parses_the_body() {
    let outcome = LookupOutcome::Response {
        status: 299,
        body: "{\"url\":\"x\"}".to_string(),
    };
    let r = resolve_outcome("abc", &outcome);
    assert_eq!(r.kind, ResponseKind::Redirect);
}

#[test]
fn empty_object_body_is_invalid() {
    let outcome = LookupOutcome::Response { status: 200, body: "{}".to_string() };
    let r = resolve_outcome("abc", &outcome);
    assert_eq!(r.kind, ResponseKind::MalformedUpstreamResponse);
    assert_eq!(r.status(), 500);
    assert_eq!(r.body, "Invalid response from API");
}

#[test]
fn non_string_url_field_is_invalid() {
    let outcome = LookupOutcome::Response { status: 200, body: "{\"url\": 7}".to_string() };
    let r = resolve_outcome("abc", &outcome);
    assert_eq!(r.kind, ResponseKind::MalformedUpstreamResponse);
    assert_eq!(r.body, "Invalid response from API");
}

#[test]
fn unparsable_body_is_a_parse_failure() {
    let outcome = LookupOutcome::Response { status: 200, body: "not json".to_string() };
    let r = resolve_outcome("abc", &outcome);
    assert_eq!(r.kind, ResponseKind::MalformedUpstreamResponse);
    assert_eq!(r.status(), 500);
    assert_eq!(r.body, "Failed to parse API response");
}

#[test]
fn unreachable_service_is_reported_generically() {
    let r = resolve_outcome("abc", &LookupOutcome::Unreachable);
    assert_eq!(r.kind, ResponseKind::UpstreamUnavailable);
    assert_eq!(r.status(), 500);
    assert!(!r.is_html());
    assert_eq!(r.body, "Failed to connect to API");
}

#[test]
fn repeated_resolution_is_byte_identical() {
    let make = || LookupOutcome::Response {
        status: 200,
        body: "{\"url\":\"https://example.com/t\"}".to_string(),
    };
    let first = resolve_outcome("abc", &make());
    let second = resolve_outcome("abc", &make());
    assert_eq!(first.kind, second.kind);
    assert_eq!(first.body, second.body);
    let third = resolve_outcome("gone", &LookupOutcome::Response { status: 404, body: String::new() });
    let fourth = resolve_outcome("gone", &LookupOutcome::Response { status: 404, body: String::new() });
    assert_eq!(third.body, fourth.body);
}

#[test]
fn lookup_url_joins_base_and_code() {
    assert_eq!(lookup_url(default_lookup_base(), "abc"), "http://localhost:3333/api/redirect/abc");
    assert_eq!(lookup_url("http://h:1/api", "a/b c"), "http://h:1/api/a/b c");
}

#[test]
fn extraction_distinguishes_the_failure_reasons() {
    assert!(matches!(extract_url_field("not json"), FieldExtraction::Unparsable));
    assert!(matches!(extract_url_field("{}"), FieldExtraction::Missing));
    assert!(matches!(extract_url_field("{\"url\": []}"), FieldExtraction::Missing));
    assert!(matches!(extract_url_field("[\"url\"]"), FieldExtraction::Missing));
    match extract_url_field("{\"a\": 1, \"url\": \"https://e.com\"}") {
        FieldExtraction::Present(url) => assert_eq!(url, "https://e.com"),
        _ => panic!("url field not found"),
    }
}

#[test]
fn str_eq_compares_characters() {
    assert!(str_eq("", ""));
    assert!(str_eq("/script.lua", "/script.lua"));
    assert!(!str_eq("/script.lua", "/script.luA"));
    assert!(!str_eq("a", "ab"));
    assert!(str_eq("déjà", "déjà"));
}
