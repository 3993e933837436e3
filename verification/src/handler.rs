//! The handler: wires Router → Validator → Counter Store → response. Each
//! request is independent; store and validation outcomes are translated into
//! HTTP responses, and store failures surface only as an opaque 500.

use crate::render::render_total;
use crate::render::rendered_of;
use crate::response::asset_response_obs;
use crate::response::json_total;
use crate::response::json_total_bytes;
use crate::response::not_found_obs;
use crate::response::not_found_response;
use crate::response::opt_bytes_view;
use crate::response::serve_asset;
use crate::response::server_error_obs;
use crate::response::server_error_response;
use crate::response::ContentType;
use crate::response::HttpResponse;
use crate::router::route;
use crate::router::route_spec;
use crate::router::Route;
use crate::store::add_wrapped;
use crate::store::LocalStore;
use crate::store::StoreError;
use crate::validate::validate;
use crate::validate::validate_spec;
use vstd::prelude::*;

verus! {

/// What the index path replies for template `tpl` and store outcome `total`:
/// the rendered page on success, the opaque failure reply when the store
/// failed or the page would not render.
pub open spec fn index_response_obs(
    tpl: Seq<u8>,
    total: Result<u32, StoreError>,
    r: HttpResponse,
) -> bool {
    (match total {
        Ok(t) => match rendered_of(tpl, t) {
            Some(h) => r.status == 200 && !r.cache_forever && r.content_type == ContentType::Html
                && r.body@ == h,
            None => server_error_obs(r),
        },
        Err(_) => server_error_obs(r),
    })
}

/// Renders the index page for the outcome of the store read.
///
/// The template is the deployment's own prepared page, never request input:
/// the rendering collaborator recurses on what a template nests, so a
/// template is trusted the way the rest of the deployment is. A page that
/// still fails to render is answered with the opaque failure reply, not an
/// abort.
pub fn serve_index(tpl: &[u8], total: Result<u32, StoreError>) -> (r: HttpResponse)
    ensures
        index_response_obs(tpl@, total, r),
{
    match total {
        Ok(t) => match render_total(tpl, t) {
            Some(body) => HttpResponse {
                status: 200,
                content_type: ContentType::Html,
                cache_forever: false,
                body,
            },
            None => server_error_response(),
        },
        Err(_) => server_error_response(),
    }
}

/// What the submit path replies for store outcome `total`: 200 with the
/// total as JSON on success, the opaque failure reply otherwise.
pub open spec fn submit_response_obs(total: Result<u32, StoreError>, r: HttpResponse) -> bool {
    (match total {
        Ok(t) => r.status == 200 && !r.cache_forever && r.content_type == ContentType::Json
            && r.body@ == json_total_bytes(t as int),
        Err(_) => server_error_obs(r),
    })
}

/// Turns the outcome of the store step of a submit into the reply.
pub fn serve_submit_outcome(total: Result<u32, StoreError>) -> (r: HttpResponse)
    ensures
        submit_response_obs(total, r),
{
    match total {
        Ok(t) => HttpResponse {
            status: 200,
            content_type: ContentType::Json,
            cache_forever: false,
            body: json_total(t),
        },
        Err(_) => server_error_response(),
    }
}

/// The full submit path against the Local Store: a body naming a delta in
/// range moves the counter by exactly that delta; any other body leaves the
/// counter untouched; either way the reply is 200 with the resulting total
/// as JSON — a rejected body is a no-op, not an error.
pub fn serve_submit_local(store: &mut LocalStore, body: &[u8]) -> (r: HttpResponse)
    ensures
        final(store).total == (match validate_spec(body@) {
            Some(d) => add_wrapped(old(store).total, d),
            None => old(store).total,
        }),
        (match validate_spec(body@) {
            Some(d) => old(store).total + d <= u32::MAX ==> final(store).total == old(store).total
                + d,
            None => final(store).total == old(store).total,
        }),
        submit_response_obs(Ok::<u32, StoreError>(final(store).total), r),
{
    match validate(body) {
        Some(d) => {
            let t = store.add(d);
            serve_submit_outcome(Ok(t))
        },
        None => {
            let t = store.get_total();
            serve_submit_outcome(Ok(t))
        },
    }
}

/// The full index path against the Local Store: reads the total — never
/// mutating it — and renders the page.
pub fn serve_index_local(store: &LocalStore, tpl: &[u8]) -> (r: HttpResponse)
    ensures
        index_response_obs(tpl@, Ok::<u32, StoreError>(store.total), r),
{
    let t = store.get_total();
    serve_index(tpl, Ok(t))
}

/// One full request against the Local Store. For paths under `/src/` the
/// asset collaborator's lookup result is handed in as `asset`; other routes
/// ignore it. Only a submit whose body validates moves the counter.
pub fn handle_local(
    store: &mut LocalStore,
    tpl: &[u8],
    method: &str,
    path: &str,
    body: &[u8],
    asset: Option<Vec<u8>>,
) -> (r: HttpResponse)
    ensures
        (match route_spec(method@, path@) {
            Route::Asset => asset_response_obs(opt_bytes_view(asset), r) && *final(store)
                == *old(store),
            Route::Index => index_response_obs(tpl@, Ok::<u32, StoreError>(old(store).total), r)
                && *final(store) == *old(store),
            Route::Submit => final(store).total == (match validate_spec(body@) {
                Some(d) => add_wrapped(old(store).total, d),
                None => old(store).total,
            }) && submit_response_obs(Ok::<u32, StoreError>(final(store).total), r),
            Route::NotFound => not_found_obs(r) && *final(store) == *old(store),
        }),
{
    match route(method, path) {
        Route::Asset => serve_asset(asset),
        Route::Index => {
            let t = store.get_total();
            serve_index(tpl, Ok(t))
        },
        Route::Submit => serve_submit_local(store, body),
        Route::NotFound => not_found_response(),
    }
}

/// For every delta in `[MIN_DELTA, MAX_DELTA]`: a submit whose body is that
/// delta's decimal text moves the counter by exactly the delta, as long as
/// the sum stays in the counter's domain. Against the Local Store this holds
/// whatever else runs concurrently; against the durable backend it holds for
/// sequential, non-overlapping calls — see the store's read-modify-write
/// model.
pub proof fn lemma_submit_decimal_body_exact(t0: u32, d: u32)
    requires
        crate::delta_in_range_spec(d),
        t0 + d <= u32::MAX,
    ensures
        (match validate_spec(crate::num::dec_digits(d as int)) {
            Some(x) => add_wrapped(t0, x),
            None => t0,
        }) == t0 + d,
{
    crate::validate::lemma_validate_decimal_body(d);
}

/// The index is idempotent: rendering never mutates the counter, so two
/// index requests with no intervening submit observe the same total and
/// reply with the same status, label and body.
pub proof fn lemma_index_idempotent(
    tpl: Seq<u8>,
    total: Result<u32, StoreError>,
    r1: HttpResponse,
    r2: HttpResponse,
)
    requires
        index_response_obs(tpl, total, r1),
        index_response_obs(tpl, total, r2),
    ensures
        r1.status == r2.status,
        r1.content_type == r2.content_type,
        r1.body@ == r2.body@,
{
}

} // verus!
