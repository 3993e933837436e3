use steel_plate::handler::handle_local;
use steel_plate::handler::serve_index;
use steel_plate::handler::serve_index_local;
use steel_plate::handler::serve_submit_local;
use steel_plate::handler::serve_submit_outcome;
use steel_plate::render::prepare_index;
use steel_plate::response::cache_control_value;
use steel_plate::response::content_type_value;
use steel_plate::response::not_found_response;
use steel_plate::response::serve_asset;
use steel_plate::response::server_error_response;
use steel_plate::response::ContentType;
use steel_plate::router::asset_rel_path;
use steel_plate::router::route;
use steel_plate::router::strip_deploy_prefix;
use steel_plate::router::Route;
use steel_plate::store::LocalStore;
use steel_plate::store::StoreError;

fn contains(haystack: &[u8], needle: &[u8]) -> bool {
    haystack
        .windows(needle.len())
        .any(|w| w == needle)
}

#[test]
fn routing_table() {
    assert_eq!(route("GET", "/"), Route::Index);
    assert_eq!(route("POST", "/submit"), Route::Submit);
    assert_eq!(route("GET", "/src/style.css"), Route::Asset);
    assert_eq!(route("GET", "/src/"), Route::Asset);
    // Unmatched routes fall through to not-found.
    assert_eq!(route("GET", "/submit"), Route::NotFound);
    assert_eq!(route("POST", "/"), Route::NotFound);
    assert_eq!(route("POST", "/src/a.png"), Route::NotFound);
    assert_eq!(route("DELETE", "/"), Route::NotFound);
    assert_eq!(route("GET", "/other"), Route::NotFound);
    assert_eq!(route("GET", "/src"), Route::NotFound);
}

#[test]
fn path_normalization() {
    assert_eq!(strip_deploy_prefix("/default/submit", "/default"), "/submit");
    assert_eq!(strip_deploy_prefix("/submit", "/default"), "/submit");
    assert_eq!(strip_deploy_prefix("/", ""), "/");
    assert_eq!(asset_rel_path("/src/logo.png"), "src/logo.png");
    // Routing behind a deployment prefix matches routing without one.
    let normalized = strip_deploy_prefix("/stage1/submit", "/stage1");
    assert_eq!(route("POST", normalized), Route::Submit);
}

#[test]
fn sniffing_covers_common_image_formats() {
    let jpeg: Vec<u8> = vec![0xff, 0xd8, 0xff, 0xe0, 0x00];
    let r = serve_asset(Some(jpeg));
    assert_eq!(r.content_type, ContentType::Jpeg);
    let gif: Vec<u8> = b"GIF89a....".to_vec();
    let r = serve_asset(Some(gif));
    assert_eq!(r.content_type, ContentType::Gif);
}

#[test]
fn submit_scenarios() {
    // Local Store, initial total 0.
    let mut store = LocalStore::new(None);

    // Body "5": the total becomes 5 and the reply carries it as JSON.
    let r = serve_submit_local(&mut store, b"5");
    assert_eq!(r.status, 200);
    assert_eq!(r.content_type, ContentType::Json);
    assert_eq!(r.body, b"{\"total\": 5}".to_vec());
    assert_eq!(store.get_total(), 5);

    // Body "150": out of range, the total stays 5, still a 200 reply.
    let r = serve_submit_local(&mut store, b"150");
    assert_eq!(r.status, 200);
    assert_eq!(r.body, b"{\"total\": 5}".to_vec());
    assert_eq!(store.get_total(), 5);

    // Body "abc": not a number, the total stays 5, still a 200 reply.
    let r = serve_submit_local(&mut store, b"abc");
    assert_eq!(r.status, 200);
    assert_eq!(r.body, b"{\"total\": 5}".to_vec());
    assert_eq!(store.get_total(), 5);
}

#[test]
fn submit_accumulates_each_valid_delta() {
    let mut store = LocalStore::new(None);
    let mut expected: u32 = 0;
    for d in [1u32, 2, 50, 99] {
        expected += d;
        let r = serve_submit_local(&mut store, d.to_string().as_bytes());
        assert_eq!(r.status, 200);
        assert_eq!(store.get_total(), expected);
        assert_eq!(
            r.body,
            format!("{{\"total\": {}}}", expected).into_bytes()
        );
    }
}

#[test]
fn index_renders_total() {
    let store = LocalStore::new(Some(5));
    let r = serve_index_local(&store, b"Clicks so far: {{.}}");
    assert_eq!(r.status, 200);
    assert_eq!(r.content_type, ContentType::Html);
    assert!(contains(&r.body, b"5"));
    assert_eq!(r.body, b"Clicks so far: 5".to_vec());
}

#[test]
fn index_is_idempotent() {
    let store = LocalStore::new(Some(12));
    let r1 = serve_index_local(&store, b"{{.}}");
    let r2 = serve_index_local(&store, b"{{.}}");
    assert_eq!(r1.status, r2.status);
    assert_eq!(r1.body, r2.body);
    assert_eq!(r1.body, b"12".to_vec());
}

#[test]
fn index_on_store_failure_is_opaque_500() {
    let r = serve_index(b"{{.}}", Err(StoreError::Transport));
    assert_eq!(r.status, 500);
    assert_eq!(r.content_type, ContentType::PlainText);
    let r = serve_submit_outcome(Err(StoreError::RecordMissing));
    assert_eq!(r.status, 500);
}

#[test]
fn unknown_asset_is_404_never_500() {
    let r = serve_asset(None);
    assert_eq!(r.status, 404);
    assert_ne!(r.status, 200);
    assert_ne!(r.status, 500);
}

#[test]
fn present_asset_is_cached_and_sniffed() {
    let png: Vec<u8> = vec![0x89, 0x50, 0x4e, 0x47, 0x0d, 0x0a, 0x1a, 0x0a, 1, 2];
    let r = serve_asset(Some(png.clone()));
    assert_eq!(r.status, 200);
    assert!(r.cache_forever);
    assert_eq!(r.content_type, ContentType::Png);
    assert_eq!(r.body, png);

    let r = serve_asset(Some(b"just text".to_vec()));
    assert_eq!(r.status, 200);
    assert_eq!(r.content_type, ContentType::OctetStream);
}

#[test]
fn not_found_and_error_replies() {
    let r = not_found_response();
    assert_eq!(r.status, 404);
    assert_eq!(r.body, b"404 Not Found".to_vec());
    let r = server_error_response();
    assert_eq!(r.status, 500);
    assert_eq!(r.body, b"500 Internal Server Error".to_vec());
}

#[test]
fn header_values() {
    assert_eq!(cache_control_value(), "public, max-age=6048000, immutable");
    assert_eq!(content_type_value(ContentType::Html), "text/html; charset=utf-8");
    assert_eq!(content_type_value(ContentType::Json), "application/json");
    assert_eq!(content_type_value(ContentType::Png), "image/png");
}

#[test]
fn full_requests_against_local_store() {
    let mut store = LocalStore::new(None);
    let tpl = b"total={{.}}";

    let r = handle_local(&mut store, tpl, "POST", "/submit", b"9", None);
    assert_eq!(r.status, 200);
    assert_eq!(r.body, b"{\"total\": 9}".to_vec());

    let r = handle_local(&mut store, tpl, "GET", "/", b"", None);
    assert_eq!(r.status, 200);
    assert_eq!(r.body, b"total=9".to_vec());

    // An unmatched route leaves the counter alone.
    let r = handle_local(&mut store, tpl, "GET", "/submit", b"9", None);
    assert_eq!(r.status, 404);
    assert_eq!(store.get_total(), 9);

    // An unknown asset path under /src/ is 404, never 200 or 500.
    let r = handle_local(&mut store, tpl, "GET", "/src/does-not-exist.png", b"", None);
    assert_eq!(r.status, 404);
}

#[test]
fn prepare_index_rejects_non_utf8() {
    // A page that is not UTF-8 text yields nothing rather than an abort; a
    // deployment with such a page stops at startup.
    assert_eq!(prepare_index(&[0x3c, 0x73, 0xff, 0xfe]), None);
    assert_eq!(
        prepare_index(b"<p style=\"co\xFFlor:red\">x</p>"),
        None
    );
}

#[test]
fn prepare_index_minifies() {
    let raw = b"<html>  <head></head>  <body>total is {{.}}  </body>  </html>".to_vec();
    let tpl = prepare_index(&raw).unwrap();
    assert_ne!(tpl, raw);
    assert!(tpl.len() < raw.len());
    assert!(contains(&tpl, b"total is {{.}}"));

    // The minified page still renders as the index template.
    let store = LocalStore::new(Some(7));
    let r = serve_index_local(&store, &tpl);
    assert_eq!(r.status, 200);
    assert!(contains(&r.body, b"total is 7"));
}
