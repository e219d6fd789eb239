//! Fragment-path validation and HTTP request routing.
//!
//! Fragment requests must match the fixed-width grammar
//! `/live-NNNNNNNN.ts`, where `N` is an ASCII decimal digit: a 17-byte
//! path made of the literal prefix `/live-`, eight digits, and the
//! literal suffix `.ts`. Only a name of this exact shape is ever joined
//! onto the segment directory, which rules out path traversal
//! structurally.

use vstd::prelude::*;

verus! {

/// Returns true when `b` is an ASCII decimal digit.
pub open spec fn is_digit_byte(b: u8) -> bool {
    48 <= b && b <= 57
}

/// The bytes of the literal prefix `/live-`.
pub open spec fn fragment_prefix() -> Seq<u8> {
    seq![47u8, 108u8, 105u8, 118u8, 101u8, 45u8]
}

/// The bytes of the literal suffix `.ts`.
pub open spec fn fragment_suffix() -> Seq<u8> {
    seq![46u8, 116u8, 115u8]
}

/// The exact byte length every valid fragment request path has.
pub const FRAGMENT_PATH_LEN: usize = 17;

/// A path is a valid fragment request iff it is exactly 17 bytes:
/// the prefix `/live-`, eight ASCII digits, and the suffix `.ts`.
pub open spec fn is_valid_fragment_path(p: Seq<u8>) -> bool {
    &&& p.len() == 17
    &&& p.subrange(0, 6) == fragment_prefix()
    &&& (forall|i: int| 6 <= i < 14 ==> is_digit_byte(p[i]))
    &&& p.subrange(14, 17) == fragment_suffix()
}

/// Validates a request path against the fragment grammar and, on
/// success, returns the segment descriptor: the path bytes with the
/// leading slash stripped, used verbatim as the filename inside the
/// segment directory. Any malformed path is indistinguishable from a
/// missing file to the caller, by design.
pub fn route_fragment(path: &[u8]) -> (r: Option<Vec<u8>>)
    ensures
        r is Some <==> is_valid_fragment_path(path@),
        r matches Some(d) ==> d@ == path@.subrange(1, 17),
{
    if path.len() != FRAGMENT_PATH_LEN {
        return None;
    }
    if !(path[0] == 47 && path[1] == 108 && path[2] == 105 && path[3] == 118 && path[4] == 101
        && path[5] == 45) {
        proof {
            assert(forall|i: int| 0 <= i < 6 ==> path@.subrange(0, 6)[i] == p_index(path@, i));
            assert(path@.subrange(0, 6) != fragment_prefix());
        }
        return None;
    }
    let mut i: usize = 6;
    while i < 14
        invariant
            6 <= i <= 14,
            path@.len() == 17,
            forall|j: int| 6 <= j < i ==> is_digit_byte(path@[j]),
        decreases 14 - i,
    {
        let b = path[i];
        if b < 48 || b > 57 {
            return None;
        }
        i = i + 1;
    }
    if !(path[14] == 46 && path[15] == 116 && path[16] == 115) {
        proof {
            assert(forall|i: int| 0 <= i < 3 ==> path@.subrange(14, 17)[i] == p_index(path@, 14 + i));
            assert(path@.subrange(14, 17) != fragment_suffix());
        }
        return None;
    }
    let mut d: Vec<u8> = Vec::new();
    let mut k: usize = 1;
    while k < 17
        invariant
            1 <= k <= 17,
            path@.len() == 17,
            d@ == path@.subrange(1, k as int),
        decreases 17 - k,
    {
        d.push(path[k]);
        proof {
            assert(d@ =~= path@.subrange(1, k + 1 as int));
        }
        k = k + 1;
    }
    proof {
        assert(path@.subrange(0, 6) =~= fragment_prefix());
        assert(path@.subrange(14, 17) =~= fragment_suffix());
    }
    Some(d)
}

/// Helper to name an indexed byte of a sequence in proofs.
pub open spec fn p_index(p: Seq<u8>, i: int) -> u8 {
    p[i]
}

/// The bytes of the HTTP method `GET`.
pub open spec fn method_get() -> Seq<u8> {
    seq![71u8, 69u8, 84u8]
}

/// The bytes of the HTTP method `HEAD`.
pub open spec fn method_head() -> Seq<u8> {
    seq![72u8, 69u8, 65u8, 68u8]
}

/// The two read-only methods this server answers; every other method is
/// rejected with method-not-allowed.
pub open spec fn is_read_method(m: Seq<u8>) -> bool {
    m == method_get() || m == method_head()
}

/// True when `t` ends with the fragment suffix `.ts`.
pub open spec fn ends_with_ts(t: Seq<u8>) -> bool {
    t.len() >= 3 && t.subrange(t.len() - 3, t.len() as int) == fragment_suffix()
}

/// The bytes of the root path `/`.
pub open spec fn root_path() -> Seq<u8> {
    seq![47u8]
}

/// The bytes of the playlist path `/index.m3u8`.
pub open spec fn index_path() -> Seq<u8> {
    seq![47u8, 105u8, 110u8, 100u8, 101u8, 120u8, 46u8, 109u8, 51u8, 117u8, 56u8]
}

/// How one HTTP request is answered, decided from its method and
/// target path alone.
#[derive(Debug)]
pub enum RouteDecision {
    /// Serve the named segment file from the segment directory.
    ServeFragment(Vec<u8>),
    /// Redirect the root path to the playlist path.
    RedirectToIndex,
    /// Serve the playlist file from the segment directory.
    ServeIndex,
    /// Answer 404: unknown path, or a malformed fragment name.
    NotFound,
    /// Answer 405: the method is neither `GET` nor `HEAD`.
    MethodNotAllowed,
}

/// Checks a method for being `GET` or `HEAD`.
fn method_is_read(method: &[u8]) -> (r: bool)
    ensures
        r == is_read_method(method@),
{
    if method.len() == 3 && method[0] == 71 && method[1] == 69 && method[2] == 84 {
        proof {
            assert(method@ =~= method_get());
        }
        true
    } else if method.len() == 4 && method[0] == 72 && method[1] == 69 && method[2] == 65
        && method[3] == 68 {
        proof {
            assert(method@ =~= method_head());
        }
        true
    } else {
        proof {
            if method@ == method_get() {
                assert(p_index(method@, 0) == 71 && p_index(method@, 1) == 69 && p_index(
                    method@,
                    2,
                ) == 84);
            }
            if method@ == method_head() {
                assert(p_index(method@, 0) == 72 && p_index(method@, 1) == 69 && p_index(
                    method@,
                    2,
                ) == 65 && p_index(method@, 3) == 68);
            }
        }
        false
    }
}

/// Checks a target for ending in the fragment suffix `.ts`.
fn target_ends_with_ts(target: &[u8]) -> (r: bool)
    ensures
        r == ends_with_ts(target@),
{
    let n = target.len();
    if n >= 3 && target[n - 3] == 46 && target[n - 2] == 116 && target[n - 1] == 115 {
        proof {
            assert(target@.subrange(n - 3, n as int) =~= fragment_suffix());
        }
        true
    } else {
        proof {
            if n >= 3 && target@.subrange(n - 3, n as int) == fragment_suffix() {
                assert(target@.subrange(n - 3, n as int)[0] == p_index(target@, n - 3));
                assert(target@.subrange(n - 3, n as int)[1] == p_index(target@, n - 2));
                assert(target@.subrange(n - 3, n as int)[2] == p_index(target@, n - 1));
            }
        }
        false
    }
}

/// Checks a target for being exactly the root path `/`.
fn target_is_root(target: &[u8]) -> (r: bool)
    ensures
        r == (target@ == root_path()),
{
    if target.len() == 1 && target[0] == 47 {
        proof {
            assert(target@ =~= root_path());
        }
        true
    } else {
        proof {
            if target@ == root_path() {
                assert(p_index(target@, 0) == 47);
            }
        }
        false
    }
}

/// Checks a target for being exactly the playlist path `/index.m3u8`.
fn target_is_index(target: &[u8]) -> (r: bool)
    ensures
        r == (target@ == index_path()),
{
    if target.len() == 11 && target[0] == 47 && target[1] == 105 && target[2] == 110
        && target[3] == 100 && target[4] == 101 && target[5] == 120 && target[6] == 46
        && target[7] == 109 && target[8] == 51 && target[9] == 117 && target[10] == 56 {
        proof {
            assert(target@ =~= index_path());
        }
        true
    } else {
        proof {
            if target@ == index_path() {
                assert(forall|i: int| 0 <= i < 11 ==> p_index(target@, i) == index_path()[i]);
            }
        }
        false
    }
}

/// Decides how a request is answered from its method and target path.
///
/// Read methods are dispatched on the target: a `.ts` name is checked
/// against the fragment grammar, `/` redirects to the playlist, the
/// playlist path is served, and everything else is not found. Any
/// method other than `GET` or `HEAD` is not allowed, whatever the
/// target.
pub fn route_request(method: &[u8], target: &[u8]) -> (r: RouteDecision)
    ensures
        !is_read_method(method@) ==> r is MethodNotAllowed,
        is_read_method(method@) && ends_with_ts(target@) && is_valid_fragment_path(target@) ==> (
        r matches RouteDecision::ServeFragment(d) && d@ == target@.subrange(1, 17)),
        is_read_method(method@) && ends_with_ts(target@) && !is_valid_fragment_path(target@)
            ==> r is NotFound,
        is_read_method(method@) && !ends_with_ts(target@) && target@ == root_path()
            ==> r is RedirectToIndex,
        is_read_method(method@) && !ends_with_ts(target@) && target@ == index_path()
            ==> r is ServeIndex,
        is_read_method(method@) && !ends_with_ts(target@) && target@ != root_path() && target@
            != index_path() ==> r is NotFound,
{
    if !method_is_read(method) {
        return RouteDecision::MethodNotAllowed;
    }
    if target_ends_with_ts(target) {
        match route_fragment(target) {
            Some(descriptor) => RouteDecision::ServeFragment(descriptor),
            None => RouteDecision::NotFound,
        }
    } else if target_is_root(target) {
        RouteDecision::RedirectToIndex
    } else if target_is_index(target) {
        RouteDecision::ServeIndex
    } else {
        RouteDecision::NotFound
    }
}

/// The content type fragment responses are served with.
pub fn fragment_content_type() -> (r: &'static str)
    ensures
        r@ == "video/mp2t"@,
{
    "video/mp2t"
}

/// The content type the playlist is served with.
pub fn index_content_type() -> (r: &'static str)
    ensures
        r@ == "application/vnd.apple.mpegurl"@,
{
    "application/vnd.apple.mpegurl"
}

/// The bytes of a descriptor built from the digit span `d`: the name
/// `live-D.ts`, the valid request path with its leading slash stripped.
pub open spec fn descriptor_of(d: Seq<u8>) -> Seq<u8> {
    fragment_prefix().subrange(1, 6) + d + fragment_suffix()
}

/// Law: a request path whose length is not exactly 17 bytes is never a
/// valid fragment path, whatever its bytes hold.
pub proof fn lemma_wrong_length_rejected(p: Seq<u8>)
    requires
        p.len() != 17,
    ensures
        !is_valid_fragment_path(p),
{
}

/// Law: every 8-digit span `d` — leading zeros and the boundary values
/// included — makes `/live-` + `d` + `.ts` a valid fragment path, and
/// its descriptor is `live-` + `d` + `.ts`.
pub proof fn lemma_all_digit_spans_accepted(d: Seq<u8>)
    requires
        d.len() == 8,
        forall|i: int| 0 <= i < 8 ==> is_digit_byte(d[i]),
    ensures
        is_valid_fragment_path(fragment_prefix() + d + fragment_suffix()),
        (fragment_prefix() + d + fragment_suffix()).subrange(1, 17) == descriptor_of(d),
{
    let p = fragment_prefix() + d + fragment_suffix();
    assert(p.subrange(0, 6) =~= fragment_prefix());
    assert(p.subrange(14, 17) =~= fragment_suffix());
    assert(forall|i: int| 6 <= i < 14 ==> p[i] == d[i - 6]);
    assert(p.subrange(1, 17) =~= descriptor_of(d));
}

/// Law: a 17-byte path with a non-digit anywhere in the 8-byte digit
/// span is rejected.
pub proof fn lemma_non_digit_rejected(p: Seq<u8>, i: int)
    requires
        6 <= i < 14,
        !is_digit_byte(p[i]),
    ensures
        !is_valid_fragment_path(p),
{
}

/// Law: a 17-byte path whose first six bytes are not the literal
/// `/live-` is rejected.
pub proof fn lemma_wrong_prefix_rejected(p: Seq<u8>)
    requires
        p.subrange(0, 6) != fragment_prefix(),
    ensures
        !is_valid_fragment_path(p),
{
}

/// Law: a 17-byte path whose last three bytes are not the literal
/// `.ts` is rejected.
pub proof fn lemma_wrong_suffix_rejected(p: Seq<u8>)
    requires
        p.subrange(14, 17) != fragment_suffix(),
    ensures
        !is_valid_fragment_path(p),
{
}

} // verus!
