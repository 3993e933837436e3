//! Request routing: a pure function of (method, path) onto one of four route
//! kinds. Paths are normalized first — a deployment-specific prefix is
//! stripped — so routing is identical across deployment shapes.

use vstd::prelude::*;
use vstd::string::StrSliceExecFns;

verus! {

/// `s` begins with `p`.
pub open spec fn seq_starts_with(s: Seq<char>, p: Seq<char>) -> bool {
    p.len() <= s.len() && s.take(p.len() as int) == p
}

/// Character-for-character equality of two text slices.
fn str_eq(a: &str, b: &str) -> (r: bool)
    ensures
        r == (a@ == b@),
{
    let an: usize = a.unicode_len();
    let bn: usize = b.unicode_len();
    if an != bn {
        return false;
    }
    let mut i: usize = 0;
    while i < an
        invariant
            0 <= i <= an,
            an == a@.len(),
            an == b@.len(),
            forall|k: int| 0 <= k < i ==> a@[k] == b@[k],
        decreases an - i,
    {
        if a.get_char(i) != b.get_char(i) {
            return false;
        }
        i = i + 1;
    }
    proof {
        assert(a@ =~= b@);
    }
    true
}

/// Whether `s` begins with `p`, character for character.
fn str_starts_with(s: &str, p: &str) -> (r: bool)
    ensures
        r == seq_starts_with(s@, p@),
{
    let sn: usize = s.unicode_len();
    let pn: usize = p.unicode_len();
    if pn > sn {
        return false;
    }
    let mut i: usize = 0;
    while i < pn
        invariant
            0 <= i <= pn,
            pn <= sn,
            sn == s@.len(),
            pn == p@.len(),
            forall|k: int| 0 <= k < i ==> s@[k] == p@[k],
        decreases pn - i,
    {
        if s.get_char(i) != p.get_char(i) {
            proof {
                assert(s@.take(pn as int)[i as int] != p@[i as int]);
            }
            return false;
        }
        i = i + 1;
    }
    proof {
        assert(s@.take(pn as int) =~= p@);
    }
    true
}

/// The four route kinds a request can fall under.
#[derive(Clone, Copy, Debug, PartialEq, Eq, Structural)]
pub enum Route {
    /// `GET` under `/src/`: serve a static asset.
    Asset,
    /// `GET` on the root path: render the index page.
    Index,
    /// `POST` on the submit path: validate the body, move the counter.
    Submit,
    /// Everything else.
    NotFound,
}

/// Where a (method, normalized path) pair routes.
pub open spec fn route_spec(method: Seq<char>, path: Seq<char>) -> Route {
    if method == "GET"@ && seq_starts_with(path, "/src/"@) {
        Route::Asset
    } else if method == "GET"@ && path == "/"@ {
        Route::Index
    } else if method == "POST"@ && path == "/submit"@ {
        Route::Submit
    } else {
        Route::NotFound
    }
}

/// Maps (method, normalized path) to one of the four route kinds.
pub fn route(method: &str, path: &str) -> (r: Route)
    ensures
        r == route_spec(method@, path@),
{
    let get = str_eq(method, "GET");
    if get && str_starts_with(path, "/src/") {
        Route::Asset
    } else if get && str_eq(path, "/") {
        Route::Index
    } else if str_eq(method, "POST") && str_eq(path, "/submit") {
        Route::Submit
    } else {
        Route::NotFound
    }
}

/// The asset name a path under `/src/` refers to: the path minus its leading
/// slash, the key the asset collaborator is asked for.
pub fn asset_rel_path<'a>(path: &'a str) -> (r: &'a str)
    requires
        path@.len() >= 1,
    ensures
        r@ == path@.skip(1),
{
    let n: usize = path.unicode_len();
    let rest = path.substring_char(1, n);
    proof {
        assert(path@.subrange(1, n as int) =~= path@.skip(1));
    }
    rest
}

/// Normalizes a path before routing: strips one deployment-specific prefix
/// (such as a serverless stage prefix) where it is present, and leaves the
/// path alone where it is not.
pub fn strip_deploy_prefix<'a>(path: &'a str, prefix: &str) -> (r: &'a str)
    ensures
        r@ == (if seq_starts_with(path@, prefix@) {
            path@.skip(prefix@.len() as int)
        } else {
            path@
        }),
{
    if str_starts_with(path, prefix) {
        let n: usize = path.unicode_len();
        let pn: usize = prefix.unicode_len();
        let rest = path.substring_char(pn, n);
        proof {
            assert(path@.subrange(pn as int, n as int) =~= path@.skip(pn as int));
        }
        rest
    } else {
        path
    }
}

} // verus!
