//! The collaborator calls around the index page. Template rendering and page
//! minification are done by outside crates: each call stands behind one
//! trusted wrapper whose result is named, and everything around the calls is
//! verified against those names.

use vstd::prelude::*;
use vstd::utf8::valid_utf8;

verus! {

/// The bytes `gtmpl` renders for template text `tpl` against the integer
/// context `total`, or nothing where rendering fails (template bytes that
/// are not UTF-8 text, or text that does not parse as a template). A fixed
/// template and total always render the same.
pub uninterp spec fn rendered_of(tpl: Seq<u8>, total: u32) -> Option<Seq<u8>>;

/// Relies on gtmpl::template: it renders a template string against a context
/// value, a pure computation of the template text and the value.
#[verifier::external_body]
pub(crate) fn render_total(tpl: &[u8], total: u32) -> (r: Option<Vec<u8>>)
    ensures
        match r {
            Some(v) => rendered_of(tpl@, total) == Some(v@),
            None => rendered_of(tpl@, total) is None,
        },
{
    let text = match core::str::from_utf8(tpl) {
        Ok(t) => t,
        Err(_) => return None,
    };
    match gtmpl::template(text, total) {
        Ok(s) => Some(s.into_bytes()),
        Err(_) => None,
    }
}

/// The bytes `minify_html` produces for an HTML page under this crate's
/// fixed configuration: a pure function of the page bytes, spoken of only
/// for pages that are UTF-8 text.
pub uninterp spec fn minified_of(page: Seq<u8>) -> Seq<u8>;

/// Relies on minify_html::minify: it rewrites a page into a smaller
/// equivalent, a pure computation of the page bytes and the configuration.
/// It minifies UTF-8 HTML and can abort on other bytes (its style handling
/// re-checks UTF-8 and panics), so the wrapper tests UTF-8 first and returns
/// nothing rather than hand it other input. The configuration is fixed
/// here: CSS and JS minification on, doctype and comments kept, bangs
/// removed, spaces between attributes removable.
#[verifier::external_body]
fn minify_page(page: &[u8]) -> (r: Option<Vec<u8>>)
    ensures
        match r {
            Some(v) => valid_utf8(page@) && v@ == minified_of(page@),
            None => !valid_utf8(page@),
        },
{
    if core::str::from_utf8(page).is_err() {
        return None;
    }
    let mut cfg = minify_html::Cfg::new();
    cfg.minify_css = true;
    cfg.minify_js = true;
    cfg.keep_comments = true;
    cfg.remove_bangs = true;
    cfg.allow_removing_spaces_between_attributes = true;
    Some(minify_html::minify(page, &cfg))
}

/// Prepares the index page once at startup: minifies the raw embedded page
/// into the template the index route renders, or yields nothing when the
/// raw bytes are not UTF-8 text. Loading the raw bytes out of the embedded
/// assets is the caller's task; a deployment whose page is missing or
/// unusable should stop at startup rather than degrade silently.
pub fn prepare_index(raw: &[u8]) -> (r: Option<Vec<u8>>)
    ensures
        match r {
            Some(v) => valid_utf8(raw@) && v@ == minified_of(raw@),
            None => !valid_utf8(raw@),
        },
{
    minify_page(raw)
}

} // verus!
