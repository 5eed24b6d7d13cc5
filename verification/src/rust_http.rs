//! Detection of HTTP client calls in Rust code.
//!
//! Call chains are attributed to the innermost receiver: for a chain such as
//! `client.get(url).timeout(d).send()` one call site is emitted, carrying
//! the verb of the innermost segment and the text of the whole chain, so
//! that timeout detection sees every link of the chain.

use vstd::prelude::*;
use crate::bytes::{
    all_digits, contains_lit, contains_seq, dec_val, digit_prefix, find_byte, find_first_lit,
    first_occur, has_prefix, lit_bytes, starts_with_lit, take_digits, take_until, upto_byte,
};
use crate::parse::ParsedFile;
use crate::syntree::{loc_wf, AstLocation, SynTree};

verus! {

/// Rust HTTP client library classification.
#[derive(Clone, Debug)]
pub enum HttpClientKind {
    /// The most common asynchronous client.
    Reqwest,
    /// A simple synchronous client.
    Ureq,
    /// A low-level HTTP library.
    Hyper,
    /// An asynchronous client.
    Surf,
    /// The actix web client.
    Awc,
    /// An asynchronous client over libcurl.
    Isahc,
    /// The blocking flavour of reqwest.
    ReqwestBlocking,
    /// Any other client.
    Other(Vec<u8>),
}

/// A single HTTP client call in Rust code.
#[derive(Clone, Debug)]
pub struct HttpCallSite {
    /// Library being used.
    pub client_kind: HttpClientKind,
    /// HTTP method name (get, post, put, ...).
    pub method_name: Vec<u8>,
    /// Full text of the call chain.
    pub call_text: Vec<u8>,
    /// Whether this call configures an explicit timeout.
    pub has_timeout: bool,
    /// Timeout in milliseconds when one could be read off the call text.
    pub timeout_millis: Option<u64>,
    /// Location in source.
    pub location: AstLocation,
    /// Name of the enclosing function, if known.
    pub function_name: Option<Vec<u8>>,
    /// Whether the enclosing function is async.
    pub in_async_function: bool,
    /// Whether this call sits under an `.await`.
    pub has_await: bool,
    /// Byte range in the original source.
    pub start_byte: usize,
    pub end_byte: usize,
}

/// The lower-case HTTP verbs recognized on qualified call paths.
pub open spec fn is_http_method_spec(s: Seq<u8>) -> bool {
    ||| s == lit_bytes("get")
    ||| s == lit_bytes("post")
    ||| s == lit_bytes("put")
    ||| s == lit_bytes("patch")
    ||| s == lit_bytes("delete")
    ||| s == lit_bytes("head")
    ||| s == lit_bytes("options")
}

/// Whether the byte string is a lower-case HTTP verb.
pub fn is_http_method(s: &[u8]) -> (r: bool)
    ensures
        r == is_http_method_spec(s@),
{
    crate::bytes::bytes_eq_str(s, "get") || crate::bytes::bytes_eq_str(s, "post")
        || crate::bytes::bytes_eq_str(s, "put") || crate::bytes::bytes_eq_str(s, "patch")
        || crate::bytes::bytes_eq_str(s, "delete") || crate::bytes::bytes_eq_str(s, "head")
        || crate::bytes::bytes_eq_str(s, "options")
}

/// The client library inferred from a receiver expression and the full
/// callee expression, by namespace matching.
pub open spec fn detect_client_spec(object: Seq<u8>, callee: Seq<u8>) -> Option<HttpClientKind> {
    if object == lit_bytes("reqwest") || contains_seq(callee, lit_bytes("reqwest::Client"))
        || contains_seq(callee, lit_bytes("reqwest::blocking::Client")) || contains_seq(
        object,
        lit_bytes("client"),
    ) {
        if contains_seq(callee, lit_bytes("blocking::")) {
            Some(HttpClientKind::ReqwestBlocking)
        } else {
            Some(HttpClientKind::Reqwest)
        }
    } else if object == lit_bytes("ureq") || has_prefix(callee, lit_bytes("ureq::")) {
        Some(HttpClientKind::Ureq)
    } else if object == lit_bytes("hyper") || contains_seq(callee, lit_bytes("hyper::")) {
        Some(HttpClientKind::Hyper)
    } else if object == lit_bytes("surf") || contains_seq(callee, lit_bytes("surf::")) {
        Some(HttpClientKind::Surf)
    } else if contains_seq(callee, lit_bytes("awc::")) || object == lit_bytes("awc") {
        Some(HttpClientKind::Awc)
    } else if contains_seq(callee, lit_bytes("isahc::")) || object == lit_bytes("isahc") {
        Some(HttpClientKind::Isahc)
    } else {
        None
    }
}

/// Detects the HTTP client library from the receiver expression.
pub fn detect_client_kind(object: &[u8], callee_expr: &[u8]) -> (r: Option<HttpClientKind>)
    ensures
        r == detect_client_spec(object@, callee_expr@),
{
    if crate::bytes::bytes_eq_str(object, "reqwest") || contains_lit(callee_expr, "reqwest::Client")
        || contains_lit(callee_expr, "reqwest::blocking::Client") || contains_lit(
        object,
        "client",
    ) {
        if contains_lit(callee_expr, "blocking::") {
            Some(HttpClientKind::ReqwestBlocking)
        } else {
            Some(HttpClientKind::Reqwest)
        }
    } else if crate::bytes::bytes_eq_str(object, "ureq") || starts_with_lit(callee_expr, "ureq::") {
        Some(HttpClientKind::Ureq)
    } else if crate::bytes::bytes_eq_str(object, "hyper") || contains_lit(callee_expr, "hyper::") {
        Some(HttpClientKind::Hyper)
    } else if crate::bytes::bytes_eq_str(object, "surf") || contains_lit(callee_expr, "surf::") {
        Some(HttpClientKind::Surf)
    } else if contains_lit(callee_expr, "awc::") || crate::bytes::bytes_eq_str(object, "awc") {
        Some(HttpClientKind::Awc)
    } else if contains_lit(callee_expr, "isahc::") || crate::bytes::bytes_eq_str(object, "isahc") {
        Some(HttpClientKind::Isahc)
    } else {
        None
    }
}

/// The method name read off a qualified call path: the segment after the
/// last `::`, cut at its first parenthesis, when that is an HTTP verb;
/// otherwise the whole path.
pub open spec fn blocking_method_spec(path: Seq<u8>) -> Seq<u8> {
    match crate::bytes::last_coloncolon(path) {
        Some(d) => {
            let stem = upto_byte(path.subrange(d + 2, path.len() as int), 40);
            if is_http_method_spec(stem) {
                stem
            } else {
                path
            }
        },
        None => path,
    }
}

/// Extracts a method name from a qualified call path such as one through
/// reqwest's blocking module.
pub fn extract_method_from_blocking_call(path: &[u8]) -> (r: Vec<u8>)
    ensures
        r@ == blocking_method_spec(path@),
{
    let pn: usize = path.len();
    match crate::bytes::rfind_coloncolon(path) {
        Some(d) => {
            let tail = vstd::slice::slice_subrange(path, d + 2, pn);
            let stem = take_until(tail, 40);
            if is_http_method(stem.as_slice()) {
                stem
            } else {
                crate::bytes::bytes_to_vec(path)
            }
        },
        None => crate::bytes::bytes_to_vec(path),
    }
}

/// The value of a digit string when it is non-empty and fits in a `u64`.
pub open spec fn parse_u64_spec(s: Seq<u8>) -> Option<int> {
    if s.len() > 0 && all_digits(s) && dec_val(s) <= u64::MAX {
        Some(dec_val(s))
    } else {
        None
    }
}

/// Milliseconds read from `Duration::from_secs(N)` at the head of `after`.
pub open spec fn secs_branch_spec(after: Seq<u8>) -> Option<int> {
    if has_prefix(after, lit_bytes("Duration::from_secs(")) {
        let rest = after.subrange(lit_bytes("Duration::from_secs(").len() as int, after.len() as int);
        if exists|d: int| 0 <= d < rest.len() && rest[d] == 41 {
            match parse_u64_spec(upto_byte(rest, 41)) {
                Some(v) => if v * 1000 <= u64::MAX {
                    Some(v * 1000)
                } else {
                    None
                },
                None => None,
            }
        } else {
            None
        }
    } else {
        None
    }
}

/// Milliseconds read from `Duration::from_millis(N)` at the head of `after`.
pub open spec fn millis_branch_spec(after: Seq<u8>) -> Option<int> {
    if has_prefix(after, lit_bytes("Duration::from_millis(")) {
        let rest = after.subrange(
            lit_bytes("Duration::from_millis(").len() as int,
            after.len() as int,
        );
        if exists|d: int| 0 <= d < rest.len() && rest[d] == 41 {
            parse_u64_spec(upto_byte(rest, 41))
        } else {
            None
        }
    } else {
        None
    }
}

/// Milliseconds read from a bare number of seconds at the head of `after`.
pub open spec fn direct_branch_spec(after: Seq<u8>) -> Option<int> {
    match parse_u64_spec(digit_prefix(after)) {
        Some(v) => if v * 1000 <= u64::MAX {
            Some(v * 1000)
        } else {
            None
        },
        None => None,
    }
}

/// The timeout in milliseconds read from the text after the first
/// occurrence of `pat`, trying the duration forms first and a bare number
/// of seconds last.
pub open spec fn timeout_value_spec(text: Seq<u8>, pat: Seq<u8>) -> Option<int> {
    match first_occur(text, pat) {
        None => None,
        Some(p) => {
            let after = text.subrange(p + pat.len(), text.len() as int);
            match secs_branch_spec(after) {
                Some(v) => Some(v),
                None => match millis_branch_spec(after) {
                    Some(v) => Some(v),
                    None => direct_branch_spec(after),
                },
            }
        },
    }
}

/// Whether the call text configures a timeout, and its value in
/// milliseconds when one can be read off the text.
pub open spec fn detect_timeout_spec(text: Seq<u8>) -> (bool, Option<int>) {
    if contains_seq(text, lit_bytes(".timeout(")) {
        (true, timeout_value_spec(text, lit_bytes(".timeout(")))
    } else if contains_seq(text, lit_bytes("timeout(Duration::from_secs")) {
        (true, timeout_value_spec(text, lit_bytes("timeout(Duration::from_secs")))
    } else if contains_seq(text, lit_bytes("timeout(Duration::from_millis")) {
        (true, timeout_value_spec(text, lit_bytes("timeout(Duration::from_millis")))
    } else if contains_seq(text, lit_bytes("timeout=")) {
        (true, timeout_value_spec(text, lit_bytes("timeout=")))
    } else {
        (false, None)
    }
}

/// An executable `Option<u64>` agrees with a spec-level optional value.
pub open spec fn opt_u64_is(a: Option<u64>, b: Option<int>) -> bool {
    match a {
        Some(x) => b == Some(x as int),
        None => b.is_none(),
    }
}

/// Converts a parsed number of seconds to milliseconds, when it fits.
fn secs_to_millis(v: u64) -> (r: Option<u64>)
    ensures
        opt_u64_is(
            r,
            if v * 1000 <= u64::MAX {
                Some(v as int * 1000)
            } else {
                None
            },
        ),
{
    if v <= u64::MAX / 1000 {
        proof {
            assert(v * 1000 <= u64::MAX) by (nonlinear_arith)
                requires
                    v <= u64::MAX / 1000,
                    v >= 0,
            ;
        }
        Some(v * 1000)
    } else {
        proof {
            assert(v * 1000 > u64::MAX) by (nonlinear_arith)
                requires
                    v > u64::MAX / 1000,
            ;
        }
        None
    }
}

/// Parses the digits of `rest` up to the first closing parenthesis.
fn paren_number(rest: &[u8]) -> (r: Option<u64>)
    ensures
        opt_u64_is(
            r,
            if exists|d: int| 0 <= d < rest@.len() && rest@[d] == 41 {
                parse_u64_spec(upto_byte(rest@, 41))
            } else {
                None
            },
        ),
{
    match find_byte(rest, 41) {
        Some(e) => {
            let digits = take_until(rest, 41);
            crate::bytes::parse_u64_dec(digits.as_slice())
        },
        None => {
            assert(!(exists|d: int| 0 <= d < rest@.len() && rest@[d] == 41));
            None
        },
    }
}

/// Tries to read a timeout value, in milliseconds, after the first
/// occurrence of `pat` in `text`.
#[verifier::rlimit(100)]
fn extract_timeout_value(text: &[u8], pat: &str) -> (r: Option<u64>)
    ensures
        opt_u64_is(r, timeout_value_spec(text@, lit_bytes(pat))),
{
    match find_first_lit(text, pat) {
        None => None,
        Some(p) => {
            let tn: usize = text.len();
            let pb: &[u8] = pat.as_bytes();
            assert(p + pb@.len() <= tn);
            let after: &[u8] = vstd::slice::slice_subrange(text, p + pb.len(), tn);
            let l1: &[u8] = "Duration::from_secs(".as_bytes();
            if crate::bytes::match_at_exec(after, l1, 0) {
                let rest = vstd::slice::slice_subrange(after, l1.len(), after.len());
                match paren_number(rest) {
                    Some(v) => {
                        match secs_to_millis(v) {
                            Some(ms) => {
                                return Some(ms);
                            },
                            None => {},
                        }
                    },
                    None => {},
                }
            }
            let l2: &[u8] = "Duration::from_millis(".as_bytes();
            if crate::bytes::match_at_exec(after, l2, 0) {
                let rest = vstd::slice::slice_subrange(after, l2.len(), after.len());
                match paren_number(rest) {
                    Some(v) => {
                        return Some(v);
                    },
                    None => {},
                }
            }
            let digits = take_digits(after);
            match crate::bytes::parse_u64_dec(digits.as_slice()) {
                Some(v) => secs_to_millis(v),
                None => None,
            }
        },
    }
}

/// Detects timeout configuration in a call text.
pub fn detect_timeout(text: &[u8]) -> (r: (bool, Option<u64>))
    ensures
        r.0 == detect_timeout_spec(text@).0,
        opt_u64_is(r.1, detect_timeout_spec(text@).1),
{
    if contains_lit(text, ".timeout(") {
        (true, extract_timeout_value(text, ".timeout("))
    } else if contains_lit(text, "timeout(Duration::from_secs") {
        (true, extract_timeout_value(text, "timeout(Duration::from_secs"))
    } else if contains_lit(text, "timeout(Duration::from_millis") {
        (true, extract_timeout_value(text, "timeout(Duration::from_millis"))
    } else if contains_lit(text, "timeout=") {
        (true, extract_timeout_value(text, "timeout="))
    } else {
        (false, None)
    }
}

/// Well-formedness of one emitted HTTP call site: clamped location, ordered
/// byte range, and timeout flag and value agreeing exactly with the
/// detection rules over the stored call text.
pub open spec fn http_site_wf(h: HttpCallSite) -> bool {
    &&& loc_wf(h.location)
    &&& h.start_byte <= h.end_byte
    &&& h.has_timeout == detect_timeout_spec(h.call_text@).0
    &&& opt_u64_is(h.timeout_millis, detect_timeout_spec(h.call_text@).1)
}

/// The index of the enclosing `function_item` of node `i`, if any.
pub open spec fn rust_encl_name_spec(t: SynTree, i: int) -> Option<Seq<u8>> {
    match crate::syntree::nearest_anc_kind(t, i, lit_bytes("function_item")) {
        Some(fd) => match crate::syntree::child_by_field(t, fd, lit_bytes("name")) {
            Some(nm) => Some(t.text_of(nm)),
            None => None,
        },
        None => None,
    }
}

/// Whether the enclosing `function_item` of node `i` is async, judged by
/// its text holding `async fn`.
pub open spec fn rust_encl_async_spec(t: SynTree, i: int) -> bool {
    match crate::syntree::nearest_anc_kind(t, i, lit_bytes("function_item")) {
        Some(fd) => contains_seq(t.text_of(fd), lit_bytes("async fn")),
        None => false,
    }
}

/// The top of the method chain that node `i` belongs to: the highest
/// ancestor reached by climbing while the node is the receiver of a field
/// access, the function of a call, or sits under an await or try
/// expression.
pub open spec fn chain_top_spec(t: SynTree, i: int) -> int
    decreases i
        when 0 <= i < t.nodes@.len()
{
    if i <= 0 || i >= t.nodes@.len() {
        i
    } else {
        let p = t.nodes@[i].parent as int;
        if p >= i {
            i
        } else if (t.kind_of(p) == lit_bytes("field_expression") && t.field_matches(
            i,
            lit_bytes("value"),
        )) || (t.kind_of(p) == lit_bytes("call_expression") && t.field_matches(
            i,
            lit_bytes("function"),
        )) || t.kind_of(p) == lit_bytes("await_expression") || t.kind_of(p) == lit_bytes(
            "try_expression",
        ) {
            chain_top_spec(t, p)
        } else {
            i
        }
    }
}

/// The top of the method chain that node `i` belongs to: climbs while the
/// node is the receiver of a field access, the function of a call, or sits
/// under an await or try expression.
fn chain_top(t: &SynTree, i: usize) -> (r: usize)
    requires
        t.wf(),
        i < t.nodes@.len(),
    ensures
        r < t.nodes@.len(),
        r as int == chain_top_spec(*t, i as int),
    decreases i,
{
    let mut cur: usize = i;
    while cur > 0
        invariant
            t.wf(),
            cur < t.nodes@.len(),
            chain_top_spec(*t, i as int) == chain_top_spec(*t, cur as int),
        decreases cur,
    {
        proof {
            assert(crate::syntree::node_wf(
                t.nodes@[cur as int],
                cur as int,
                t.source@.len() as int,
            ));
        }
        let p = t.parent_of(cur);
        let climbs = (t.kind_is(p, "field_expression") && t.field_is(cur, "value")) || (t.kind_is(
            p,
            "call_expression",
        ) && t.field_is(cur, "function")) || t.kind_is(p, "await_expression") || t.kind_is(
            p,
            "try_expression",
        );
        if climbs {
            cur = p;
        } else {
            return cur;
        }
    }
    cur
}

/// The name and async flag of the function item enclosing node `i`.
fn rust_enclosing_function(t: &SynTree, i: usize) -> (r: (Option<Vec<u8>>, bool))
    requires
        t.wf(),
        i < t.nodes@.len(),
    ensures
        match (r.0, rust_encl_name_spec(*t, i as int)) {
            (Some(a), Some(b)) => a@ == b,
            (None, None) => true,
            _ => false,
        },
        r.1 == rust_encl_async_spec(*t, i as int),
{
    match t.nearest_anc(i, "function_item") {
        Some(fd) => {
            let is_async = contains_lit(t.text(fd).as_slice(), "async fn");
            match t.child_by_field(fd, "name") {
                Some(nm) => (Some(t.text(nm)), is_async),
                None => (None, is_async),
            }
        },
        None => (None, false),
    }
}

/// Fields shared by every emitted site at call node `i`: chain text and
/// timeout read at the chain top, position and byte range of the node,
/// enclosing-function name and await context from ancestor walks.
pub open spec fn rh_common_rel(t: SynTree, i: int, site: HttpCallSite) -> bool {
    let top = chain_top_spec(t, i);
    &&& site.call_text@ == t.text_of(top)
    &&& site.has_timeout == detect_timeout_spec(t.text_of(top)).0
    &&& opt_u64_is(site.timeout_millis, detect_timeout_spec(t.text_of(top)).1)
    &&& site.location.start_line == t.nodes@[i].row
    &&& site.location.start_col == t.nodes@[i].col
    &&& (match (site.function_name, rust_encl_name_spec(t, i)) {
        (Some(a), Some(b)) => a@ == b,
        (None, None) => true,
        _ => false,
    })
    &&& site.has_await == crate::syntree::anc_kind_before(
        t,
        i,
        lit_bytes("await_expression"),
        lit_bytes("function_item"),
    )
    &&& site.start_byte == t.nodes@[i].start_byte
    &&& site.end_byte == t.nodes@[i].end_byte
}

/// A method call at node `i` yields a site: receiver and verb children
/// present, the receiver is the innermost of its chain (it is not itself a
/// call and holds no call), and the receiver text names a known client.
pub open spec fn rh_field_cond(t: SynTree, i: int) -> bool {
    let f = crate::syntree::child_by_field(t, i, lit_bytes("function")).unwrap();
    &&& crate::syntree::child_by_field(t, f, lit_bytes("value")).is_some()
    &&& crate::syntree::child_by_field(t, f, lit_bytes("field")).is_some()
    &&& {
        let v = crate::syntree::child_by_field(t, f, lit_bytes("value")).unwrap();
        &&& !(t.kind_of(v) == lit_bytes("call_expression"))
        &&& !(exists|j: int|
            0 <= j < t.nodes@.len() && #[trigger] t.kind_of(j) == lit_bytes("call_expression")
                && crate::syntree::is_anc(t, v, j))
        &&& detect_client_spec(t.text_of(v), t.text_of(f)).is_some()
    }
}

/// The exact shape of the site emitted for a method call at node `i`.
pub open spec fn rh_field_rel(t: SynTree, i: int, site: HttpCallSite) -> bool {
    let f = crate::syntree::child_by_field(t, i, lit_bytes("function")).unwrap();
    let v = crate::syntree::child_by_field(t, f, lit_bytes("value")).unwrap();
    let fld = crate::syntree::child_by_field(t, f, lit_bytes("field")).unwrap();
    &&& rh_common_rel(t, i, site)
    &&& site.client_kind == detect_client_spec(t.text_of(v), t.text_of(f)).unwrap()
    &&& site.method_name@ == t.text_of(fld)
    &&& site.in_async_function == rust_encl_async_spec(t, i)
}

/// A qualified call at node `i` goes through reqwest's blocking module.
pub open spec fn rh_blocking_cond(t: SynTree, i: int) -> bool {
    let f = crate::syntree::child_by_field(t, i, lit_bytes("function")).unwrap();
    contains_seq(t.text_of(f), lit_bytes("reqwest::blocking::"))
}

/// The exact shape of the site emitted for a blocking reqwest call.
pub open spec fn rh_blocking_rel(t: SynTree, i: int, site: HttpCallSite) -> bool {
    let f = crate::syntree::child_by_field(t, i, lit_bytes("function")).unwrap();
    &&& rh_common_rel(t, i, site)
    &&& site.client_kind == HttpClientKind::ReqwestBlocking
    &&& site.method_name@ == blocking_method_spec(t.text_of(f))
    &&& !site.in_async_function
}

/// A qualified call at node `i` is a ureq verb call.
pub open spec fn rh_ureq_cond(t: SynTree, i: int) -> bool {
    let f = crate::syntree::child_by_field(t, i, lit_bytes("function")).unwrap();
    let ptxt = t.text_of(f);
    &&& has_prefix(ptxt, lit_bytes("ureq::"))
    &&& is_http_method_spec(
        upto_byte(ptxt.subrange(lit_bytes("ureq::").len() as int, ptxt.len() as int), 40),
    )
}

/// The exact shape of the site emitted for a ureq verb call.
pub open spec fn rh_ureq_rel(t: SynTree, i: int, site: HttpCallSite) -> bool {
    let f = crate::syntree::child_by_field(t, i, lit_bytes("function")).unwrap();
    let ptxt = t.text_of(f);
    &&& rh_common_rel(t, i, site)
    &&& site.client_kind == HttpClientKind::Ureq
    &&& site.method_name@ == upto_byte(
        ptxt.subrange(lit_bytes("ureq::").len() as int, ptxt.len() as int),
        40,
    )
    &&& !site.in_async_function
}

/// The HTTP call sites emitted from the first `n` nodes, in document
/// order, following the detector's branch order: a method call through a
/// known client at its innermost receiver, a blocking reqwest call, or a
/// ureq verb call; nothing else yields a site.
pub open spec fn rh_scan(t: SynTree, n: int, out: Seq<HttpCallSite>) -> bool
    decreases n
        when 0 <= n <= t.nodes@.len()
{
    if n == 0 {
        out.len() == 0
    } else {
        let i = n - 1;
        if t.kind_of(i) == lit_bytes("call_expression") && crate::syntree::child_by_field(
            t,
            i,
            lit_bytes("function"),
        ).is_some() {
            let f = crate::syntree::child_by_field(t, i, lit_bytes("function")).unwrap();
            if t.kind_of(f) == lit_bytes("field_expression") {
                if rh_field_cond(t, i) {
                    out.len() > 0 && rh_scan(t, i, out.drop_last()) && rh_field_rel(
                        t,
                        i,
                        out.last(),
                    )
                } else {
                    rh_scan(t, i, out)
                }
            } else if t.kind_of(f) == lit_bytes("scoped_identifier") {
                if rh_blocking_cond(t, i) {
                    out.len() > 0 && rh_scan(t, i, out.drop_last()) && rh_blocking_rel(
                        t,
                        i,
                        out.last(),
                    )
                } else if rh_ureq_cond(t, i) {
                    out.len() > 0 && rh_scan(t, i, out.drop_last()) && rh_ureq_rel(
                        t,
                        i,
                        out.last(),
                    )
                } else {
                    rh_scan(t, i, out)
                }
            } else {
                rh_scan(t, i, out)
            }
        } else {
            rh_scan(t, i, out)
        }
    }
}

/// Builds the list of HTTP client calls in a parsed Rust file.  One site is
/// emitted per call chain, at its innermost receiver.
pub fn summarize_http_clients(file: &ParsedFile) -> (r: Vec<HttpCallSite>)
    requires
        file.wf(),
    ensures
        forall|j: int| 0 <= j < r@.len() ==> http_site_wf(#[trigger] r@[j]),
        rh_scan(file.tree, file.tree.nodes@.len() as int, r@),
{
    let t = &file.tree;
    let n = t.len();
    let mut out: Vec<HttpCallSite> = Vec::new();
    let mut i: usize = 0;
    while i < n
        invariant
            t.wf(),
            n == t.nodes@.len(),
            i <= n,
            forall|j: int| 0 <= j < out@.len() ==> http_site_wf(#[trigger] out@[j]),
            rh_scan(*t, i as int, out@),
        decreases n - i,
    {
        proof {
            assert(crate::syntree::node_wf(t.nodes@[i as int], i as int, t.source@.len() as int));
        }
        if t.kind_is(i, "call_expression") {
            match t.child_by_field(i, "function") {
                Some(f) => {
                    if t.kind_is(f, "field_expression") {
                        match (t.child_by_field(f, "value"), t.child_by_field(f, "field")) {
                            (Some(v), Some(fld)) => {
                                if !t.kind_is(v, "call_expression") && !t.subtree_has_kind(
                                    v,
                                    "call_expression",
                                ) {
                                    let object = t.text(v);
                                    let callee_expr = t.text(f);
                                    match detect_client_kind(
                                        object.as_slice(),
                                        callee_expr.as_slice(),
                                    ) {
                                        Some(ck) => {
                                            let top = chain_top(t, i);
                                            let call_text = t.text(top);
                                            let (has_timeout, timeout_millis) = detect_timeout(
                                                call_text.as_slice(),
                                            );
                                            let (fname, in_async) = rust_enclosing_function(t, i);
                                            let has_await = t.anc_before(
                                                i,
                                                "await_expression",
                                                "function_item",
                                            );
                                            let ghost prev = out@;
                                            out.push(
                                                HttpCallSite {
                                                    client_kind: ck,
                                                    method_name: t.text(fld),
                                                    call_text,
                                                    has_timeout,
                                                    timeout_millis,
                                                    location: t.loc_at(i),
                                                    function_name: fname,
                                                    in_async_function: in_async,
                                                    has_await,
                                                    start_byte: t.start_of(i),
                                                    end_byte: t.end_of(i),
                                                },
                                            );
                                            proof {
                                                assert(out@.drop_last() =~= prev);
                                                assert(rh_field_cond(*t, i as int));
                                                assert(rh_field_rel(*t, i as int, out@.last()));
                                            }
                                        },
                                        None => {},
                                    }
                                }
                            },
                            _ => {},
                        }
                    } else if t.kind_is(f, "scoped_identifier") {
                        let path_text = t.text(f);
                        if contains_lit(path_text.as_slice(), "reqwest::blocking::") {
                            let method_name = extract_method_from_blocking_call(
                                path_text.as_slice(),
                            );
                            let top = chain_top(t, i);
                            let call_text = t.text(top);
                            let (has_timeout, timeout_millis) = detect_timeout(
                                call_text.as_slice(),
                            );
                            let (fname, _) = rust_enclosing_function(t, i);
                            let has_await = t.anc_before(i, "await_expression", "function_item");
                            let ghost prev = out@;
                            out.push(
                                HttpCallSite {
                                    client_kind: HttpClientKind::ReqwestBlocking,
                                    method_name,
                                    call_text,
                                    has_timeout,
                                    timeout_millis,
                                    location: t.loc_at(i),
                                    function_name: fname,
                                    in_async_function: false,
                                    has_await,
                                    start_byte: t.start_of(i),
                                    end_byte: t.end_of(i),
                                },
                            );
                            proof {
                                assert(out@.drop_last() =~= prev);
                                assert(rh_blocking_rel(*t, i as int, out@.last()));
                            }
                        } else if starts_with_lit(path_text.as_slice(), "ureq::") {
                            let pre: &[u8] = "ureq::".as_bytes();
                            proof {
                                assert(has_prefix(path_text@, lit_bytes("ureq::")));
                            }
                            let rest = vstd::slice::slice_subrange(
                                path_text.as_slice(),
                                pre.len(),
                                path_text.len(),
                            );
                            let method_name = take_until(rest, 40);
                            if is_http_method(method_name.as_slice()) {
                                let top = chain_top(t, i);
                                let call_text = t.text(top);
                                let (has_timeout, timeout_millis) = detect_timeout(
                                    call_text.as_slice(),
                                );
                                let (fname, _) = rust_enclosing_function(t, i);
                                let has_await = t.anc_before(
                                    i,
                                    "await_expression",
                                    "function_item",
                                );
                                let ghost prev = out@;
                                out.push(
                                    HttpCallSite {
                                        client_kind: HttpClientKind::Ureq,
                                        method_name,
                                        call_text,
                                        has_timeout,
                                        timeout_millis,
                                        location: t.loc_at(i),
                                        function_name: fname,
                                        in_async_function: false,
                                        has_await,
                                        start_byte: t.start_of(i),
                                        end_byte: t.end_of(i),
                                    },
                                );
                                proof {
                                    assert(out@.drop_last() =~= prev);
                                    assert(rh_ureq_cond(*t, i as int));
                                    assert(rh_ureq_rel(*t, i as int, out@.last()));
                                }
                            }
                        }
                    }
                },
                None => {},
            }
        }
        i = i + 1;
    }
    out
}

} // verus!
