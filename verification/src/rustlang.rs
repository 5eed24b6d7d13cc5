//! Rust semantics: the per-language record and its extractor.

use vstd::prelude::*;
use crate::bytes::{contains_lit, lit_bytes, opt_bytes_eqv, starts_with_lit, upper_seq};
use crate::common::{CommonLocation, HttpCall, HttpClientLibrary, HttpMethod};
use crate::lang::{FileId, SemanticsError};
use crate::parse::ParsedFile;
use crate::rust_http::{http_site_wf, rh_scan, summarize_http_clients, HttpCallSite, HttpClientKind};
use crate::syntree::{loc_wf, AstLocation, SynTree};

verus! {

/// The visibility of a Rust item.
#[derive(Clone, Debug)]
pub enum RustVisibility {
    Pub,
    PubCrate,
    PubSuper,
    PubIn(Vec<u8>),
    Private,
}

/// A Rust formal parameter.
#[derive(Clone, Debug)]
pub struct RustParam {
    pub name: Vec<u8>,
    pub param_type: Vec<u8>,
}

/// A Rust function or method definition.
#[derive(Clone, Debug)]
pub struct RustFunction {
    pub name: Vec<u8>,
    pub visibility: RustVisibility,
    pub is_async: bool,
    pub params: Vec<RustParam>,
    pub return_type: Option<Vec<u8>>,
    pub location: AstLocation,
    pub start_byte: usize,
    pub end_byte: usize,
}

/// One `impl` block and the methods defined in it.
#[derive(Clone, Debug)]
pub struct RustImplBlock {
    pub impl_type: Vec<u8>,
    pub methods: Vec<RustFunction>,
}

/// A Rust call site; line and column are 1-based.
#[derive(Clone, Debug)]
pub struct RustCallSite {
    pub callee_expr: Vec<u8>,
    pub line: usize,
    pub column: usize,
    pub start_byte: usize,
    pub end_byte: usize,
}

/// One `use` declaration.
#[derive(Clone, Debug)]
pub struct RustUse {
    pub path: Vec<u8>,
    pub items: Vec<Vec<u8>>,
    pub alias: Option<Vec<u8>>,
    pub is_glob: bool,
    pub location: AstLocation,
}

/// One task-spawning call.
#[derive(Clone, Debug)]
pub struct SpawnCall {
    pub has_error_handling: bool,
    pub handle_captured: bool,
    pub spawned_expr: Vec<u8>,
    pub location: AstLocation,
    pub function_name: Option<Vec<u8>>,
    pub start_byte: usize,
    pub end_byte: usize,
}

/// Concurrency facts of one Rust file.
#[derive(Clone, Debug)]
pub struct RustAsyncInfo {
    pub uses_tokio: bool,
    pub uses_async_std: bool,
    pub spawn_calls: Vec<SpawnCall>,
}

/// One database operation in Rust code; libraries and operations are
/// carried as raw tags and classified at the normalization boundary.
#[derive(Clone, Debug)]
pub struct RustDbOperation {
    pub library: Vec<u8>,
    pub operation_type: Vec<u8>,
    pub has_timeout: bool,
    pub timeout_millis: Option<u64>,
    pub in_transaction: bool,
    pub eager_loading: Option<crate::common::EagerLoadingStrategy>,
    pub in_loop: bool,
    pub in_iteration: bool,
    pub model_name: Option<Vec<u8>>,
    pub relationship_field: Option<Vec<u8>>,
    pub operation_text: Vec<u8>,
    pub location: CommonLocation,
    pub enclosing_function: Option<Vec<u8>>,
    pub start_byte: usize,
    pub end_byte: usize,
}

/// All semantic facts extracted from one Rust file.
#[derive(Clone, Debug)]
pub struct RustFileSemantics {
    pub file_id: FileId,
    pub path: Vec<u8>,
    pub uses: Vec<RustUse>,
    pub functions: Vec<RustFunction>,
    pub impls: Vec<RustImplBlock>,
    pub calls: Vec<RustCallSite>,
    pub http_calls: Vec<HttpCall>,
    pub db_operations: Vec<RustDbOperation>,
    pub async_info: RustAsyncInfo,
}

/// Well-formedness of one Rust function record.
pub open spec fn rust_fun_wf(f: RustFunction) -> bool {
    &&& loc_wf(f.location)
    &&& f.start_byte <= f.end_byte
}

/// Well-formedness of one Rust call site.
pub open spec fn rust_call_wf(c: RustCallSite) -> bool {
    &&& 1 <= c.line <= crate::syntree::MAX_POS + 1
    &&& 1 <= c.column <= crate::syntree::MAX_POS + 1
    &&& c.start_byte <= c.end_byte
}

/// Well-formedness of one `use` record.
pub open spec fn rust_use_wf(u: RustUse) -> bool {
    &&& loc_wf(u.location)
    &&& u.path@.len() > 0
}

/// Well-formedness of one spawn record.
pub open spec fn rust_spawn_wf(s: SpawnCall) -> bool {
    &&& loc_wf(s.location)
    &&& s.start_byte <= s.end_byte
}

/// Well-formedness of one normalized HTTP call.
pub open spec fn common_http_wf(h: HttpCall) -> bool {
    &&& h.location.line >= 1
    &&& h.location.column >= 1
    &&& h.start_byte <= h.end_byte
}

impl RustFileSemantics {
    /// Every record of the file is well-formed.
    pub open spec fn wf(self) -> bool {
        &&& forall|j: int| 0 <= j < self.uses@.len() ==> rust_use_wf(#[trigger] self.uses@[j])
        &&& forall|j: int|
            0 <= j < self.functions@.len() ==> rust_fun_wf(#[trigger] self.functions@[j])
        &&& forall|j: int|
            0 <= j < self.impls@.len() ==> forall|k: int|
                0 <= k < (#[trigger] self.impls@[j]).methods@.len() ==> rust_fun_wf(
                    #[trigger] self.impls@[j].methods@[k],
                )
        &&& forall|j: int| 0 <= j < self.calls@.len() ==> rust_call_wf(#[trigger] self.calls@[j])
        &&& forall|j: int|
            0 <= j < self.http_calls@.len() ==> common_http_wf(#[trigger] self.http_calls@[j])
        &&& forall|j: int|
            0 <= j < self.async_info.spawn_calls@.len() ==> rust_spawn_wf(
                #[trigger] self.async_info.spawn_calls@[j],
            )
    }
}

/// The normalized method that a Rust HTTP site's upper-cased verb maps to.
pub open spec fn http_method_rel(upper: Seq<u8>, m: HttpMethod) -> bool {
    if upper == lit_bytes("GET") {
        m == HttpMethod::Get
    } else if upper == lit_bytes("POST") {
        m == HttpMethod::Post
    } else if upper == lit_bytes("PUT") {
        m == HttpMethod::Put
    } else if upper == lit_bytes("PATCH") {
        m == HttpMethod::Patch
    } else if upper == lit_bytes("DELETE") {
        m == HttpMethod::Delete
    } else {
        match m {
            HttpMethod::Other(v) => v@ == upper,
            _ => false,
        }
    }
}

/// Canonicalizes an upper-cased verb into the shared method enum.
pub fn http_method_of(upper: Vec<u8>) -> (r: HttpMethod)
    ensures
        http_method_rel(upper@, r),
{
    if crate::bytes::bytes_eq_str(upper.as_slice(), "GET") {
        HttpMethod::Get
    } else if crate::bytes::bytes_eq_str(upper.as_slice(), "POST") {
        HttpMethod::Post
    } else if crate::bytes::bytes_eq_str(upper.as_slice(), "PUT") {
        HttpMethod::Put
    } else if crate::bytes::bytes_eq_str(upper.as_slice(), "PATCH") {
        HttpMethod::Patch
    } else if crate::bytes::bytes_eq_str(upper.as_slice(), "DELETE") {
        HttpMethod::Delete
    } else {
        HttpMethod::Other(upper)
    }
}

/// The shared client-library tag of one Rust HTTP site.
pub open spec fn rust_library_rel(k: HttpClientKind, l: HttpClientLibrary) -> bool {
    match (k, l) {
        (HttpClientKind::Reqwest, HttpClientLibrary::Reqwest) => true,
        (HttpClientKind::Ureq, HttpClientLibrary::Ureq) => true,
        (HttpClientKind::Hyper, HttpClientLibrary::Hyper) => true,
        (HttpClientKind::Surf, HttpClientLibrary::Surf) => true,
        (HttpClientKind::Awc, HttpClientLibrary::Awc) => true,
        (HttpClientKind::Isahc, HttpClientLibrary::Isahc) => true,
        (HttpClientKind::ReqwestBlocking, HttpClientLibrary::ReqwestBlocking) => true,
        (HttpClientKind::Other(a), HttpClientLibrary::Other(b)) => a@ == b@,
        _ => false,
    }
}

/// One Rust HTTP site normalized onto the shared schema: the library and
/// verb are mapped into the shared taxonomy, the 0-based position becomes
/// 1-based, no URL is invented, and every carried fact is kept.
pub open spec fn rust_http_conv(s: HttpCallSite, fid: FileId, out: HttpCall) -> bool {
    &&& rust_library_rel(s.client_kind, out.library)
    &&& http_method_rel(upper_seq(s.method_name@), out.method)
    &&& out.url.is_none()
    &&& out.has_timeout == s.has_timeout
    &&& out.timeout_millis == s.timeout_millis
    &&& out.retry_mechanism.is_none()
    &&& out.call_text@ == s.call_text@
    &&& out.location.file_id == fid
    &&& out.location.line == s.location.start_line + 1
    &&& out.location.column == s.location.start_col + 1
    &&& out.location.start_byte == s.start_byte
    &&& out.location.end_byte == s.end_byte
    &&& opt_bytes_eqv(out.enclosing_function, s.function_name)
    &&& out.in_async_context == s.in_async_function
    &&& !out.in_loop
    &&& out.start_byte == s.start_byte
    &&& out.end_byte == s.end_byte
}

/// Normalizes one Rust HTTP site onto the shared schema.
pub fn rust_http_to_common(s: &HttpCallSite, fid: FileId) -> (r: HttpCall)
    requires
        http_site_wf(*s),
    ensures
        rust_http_conv(*s, fid, r),
        common_http_wf(r),
{
    let lib = match &s.client_kind {
        HttpClientKind::Reqwest => HttpClientLibrary::Reqwest,
        HttpClientKind::Ureq => HttpClientLibrary::Ureq,
        HttpClientKind::Hyper => HttpClientLibrary::Hyper,
        HttpClientKind::Surf => HttpClientLibrary::Surf,
        HttpClientKind::Awc => HttpClientLibrary::Awc,
        HttpClientKind::Isahc => HttpClientLibrary::Isahc,
        HttpClientKind::ReqwestBlocking => HttpClientLibrary::ReqwestBlocking,
        HttpClientKind::Other(v) => HttpClientLibrary::Other(crate::bytes::bytes_to_vec(
            v.as_slice(),
        )),
    };
    let method = http_method_of(crate::bytes::to_upper(s.method_name.as_slice()));
    HttpCall {
        library: lib,
        method,
        url: None,
        has_timeout: s.has_timeout,
        timeout_millis: s.timeout_millis,
        retry_mechanism: None,
        call_text: crate::bytes::bytes_to_vec(s.call_text.as_slice()),
        location: CommonLocation {
            file_id: fid,
            line: s.location.start_line + 1,
            column: s.location.start_col + 1,
            start_byte: s.start_byte,
            end_byte: s.end_byte,
        },
        enclosing_function: crate::bytes::clone_opt_bytes(&s.function_name),
        in_async_context: s.in_async_function,
        in_loop: false,
        start_byte: s.start_byte,
        end_byte: s.end_byte,
    }
}

/// Extracts one Rust function record from the `function_item` at node `i`.
fn rust_function_at(t: &SynTree, i: usize) -> (r: Option<RustFunction>)
    requires
        t.wf(),
        i < t.nodes@.len(),
    ensures
        match r {
            Some(f) => rust_fun_wf(f) && rust_fun_rec_rel(*t, i as int, f),
            None => true,
        },
        r.is_some() == crate::syntree::child_by_field(
            *t,
            i as int,
            lit_bytes("name"),
        ).is_some(),
{
    match t.child_by_field(i, "name") {
        Some(nm) => {
            let visibility = match t.child_by_kind(i, "visibility_modifier") {
                Some(vm) => {
                    let vt = t.text(vm);
                    if crate::bytes::bytes_eq_str(vt.as_slice(), "pub") {
                        RustVisibility::Pub
                    } else if starts_with_lit(vt.as_slice(), "pub(crate") {
                        RustVisibility::PubCrate
                    } else if starts_with_lit(vt.as_slice(), "pub(super") {
                        RustVisibility::PubSuper
                    } else if starts_with_lit(vt.as_slice(), "pub(in") {
                        RustVisibility::PubIn(vt)
                    } else {
                        RustVisibility::Pub
                    }
                },
                None => RustVisibility::Private,
            };
            let is_async = match t.child_by_kind(i, "function_modifiers") {
                Some(fm) => contains_lit(t.text(fm).as_slice(), "async"),
                None => false,
            };
            let params = rust_scan_params(t, i);
            let return_type = match t.child_by_field(i, "return_type") {
                Some(rt) => Some(t.text(rt)),
                None => None,
            };
            proof {
                assert(crate::syntree::node_wf(
                    t.nodes@[i as int],
                    i as int,
                    t.source@.len() as int,
                ));
            }
            Some(
                RustFunction {
                    name: t.text(nm),
                    visibility,
                    is_async,
                    params,
                    return_type,
                    location: t.loc_at(i),
                    start_byte: t.start_of(i),
                    end_byte: t.end_of(i),
                },
            )
        },
        None => None,
    }
}

/// Extracts the parameters of the function at node `i`.
fn rust_scan_params(t: &SynTree, i: usize) -> (r: Vec<RustParam>)
    requires
        t.wf(),
        i < t.nodes@.len(),
    ensures
        r@.map_values(|p: RustParam| (p.name@, p.param_type@)) == rust_params_of(*t, i as int),
{
    let n = t.len();
    let mut out: Vec<RustParam> = Vec::new();
    match t.child_by_field(i, "parameters") {
        Some(ps) => {
            let mut j: usize = ps + 1;
            while j < n
                invariant
                    t.wf(),
                    n == t.nodes@.len(),
                    j <= n,
                    ps < n,
                    ps + 1 <= j,
                    out@.map_values(|p: RustParam| (p.name@, p.param_type@)) + rust_params_texts(
                        *t,
                        ps as int,
                        j as int,
                    ) =~= rust_params_texts(*t, ps as int, ps + 1),
                decreases n - j,
            {
                if t.parent_of(j) == ps {
                    if t.kind_is(j, "parameter") {
                        let pname = match t.child_by_field(j, "pattern") {
                            Some(p) => t.text(p),
                            None => Vec::new(),
                        };
                        let ptype = match t.child_by_field(j, "type") {
                            Some(ty) => t.text(ty),
                            None => Vec::new(),
                        };
                        if pname.len() > 0 {
                            let ghost pprev = out@;
                            out.push(RustParam { name: pname, param_type: ptype });
                            proof {
                                assert(out@.map_values(|p: RustParam| (p.name@, p.param_type@))
                                    =~= pprev.map_values(
                                    |p: RustParam| (p.name@, p.param_type@),
                                ) + seq![(out@.last().name@, out@.last().param_type@)]);
                            }
                        }
                    } else if t.kind_is(j, "self_parameter") {
                        let ghost pprev = out@;
                        out.push(RustParam { name: t.text(j), param_type: Vec::new() });
                        proof {
                            assert(out@.map_values(|p: RustParam| (p.name@, p.param_type@))
                                =~= pprev.map_values(|p: RustParam| (p.name@, p.param_type@))
                                + seq![(out@.last().name@, out@.last().param_type@)]);
                        }
                    }
                }
                j = j + 1;
            }
            proof {
                assert(rust_params_texts(*t, ps as int, n as int) =~= Seq::<
                    (Seq<u8>, Seq<u8>),
                >::empty());
                assert(out@.map_values(|p: RustParam| (p.name@, p.param_type@))
                    =~= rust_params_texts(*t, ps as int, ps + 1));
            }
        },
        None => {
            proof {
                assert(out@.map_values(|p: RustParam| (p.name@, p.param_type@)) =~= Seq::<
                    (Seq<u8>, Seq<u8>),
                >::empty());
            }
        },
    }
    out
}

/// The visibility read off the modifier child of node `i`.
pub open spec fn rust_vis_rel(t: SynTree, i: int, v: RustVisibility) -> bool {
    match crate::syntree::child_by_kind(t, i, lit_bytes("visibility_modifier")) {
        Some(vm) => {
            let vt = t.text_of(vm);
            if vt == lit_bytes("pub") {
                v == RustVisibility::Pub
            } else if crate::bytes::has_prefix(vt, lit_bytes("pub(crate")) {
                v == RustVisibility::PubCrate
            } else if crate::bytes::has_prefix(vt, lit_bytes("pub(super")) {
                v == RustVisibility::PubSuper
            } else if crate::bytes::has_prefix(vt, lit_bytes("pub(in")) {
                match v {
                    RustVisibility::PubIn(p) => p@ == vt,
                    _ => false,
                }
            } else {
                v == RustVisibility::Pub
            }
        },
        None => v == RustVisibility::Private,
    }
}

/// Whether the function at node `i` carries an async modifier.
pub open spec fn rust_async_spec(t: SynTree, i: int) -> bool {
    match crate::syntree::child_by_kind(t, i, lit_bytes("function_modifiers")) {
        Some(fm) => crate::bytes::contains_seq(t.text_of(fm), lit_bytes("async")),
        None => false,
    }
}

/// The parameter name and type pairs collected from the children of the
/// parameter list node `ps`, at or after index `j`.
pub open spec fn rust_params_texts(t: SynTree, ps: int, j: int) -> Seq<(Seq<u8>, Seq<u8>)>
    decreases t.nodes@.len() - j
        when 0 <= j <= t.nodes@.len()
{
    if j >= t.nodes@.len() {
        Seq::empty()
    } else if t.nodes@[j].parent == ps && j != ps {
        if t.kind_of(j) == lit_bytes("parameter") {
            let pn = match crate::syntree::child_by_field(t, j, lit_bytes("pattern")) {
                Some(p) => t.text_of(p),
                None => Seq::empty(),
            };
            let pt = match crate::syntree::child_by_field(t, j, lit_bytes("type")) {
                Some(ty) => t.text_of(ty),
                None => Seq::empty(),
            };
            if pn.len() > 0 {
                seq![(pn, pt)] + rust_params_texts(t, ps, j + 1)
            } else {
                rust_params_texts(t, ps, j + 1)
            }
        } else if t.kind_of(j) == lit_bytes("self_parameter") {
            seq![(t.text_of(j), Seq::<u8>::empty())] + rust_params_texts(t, ps, j + 1)
        } else {
            rust_params_texts(t, ps, j + 1)
        }
    } else {
        rust_params_texts(t, ps, j + 1)
    }
}

/// The parameter pairs of the function at node `i`.
pub open spec fn rust_params_of(t: SynTree, i: int) -> Seq<(Seq<u8>, Seq<u8>)> {
    match crate::syntree::child_by_field(t, i, lit_bytes("parameters")) {
        Some(ps) => rust_params_texts(t, ps, ps + 1),
        None => Seq::empty(),
    }
}

/// The exact shape of the function record extracted at node `i`.
pub open spec fn rust_fun_rec_rel(t: SynTree, i: int, f: RustFunction) -> bool {
    let nm = crate::syntree::child_by_field(t, i, lit_bytes("name")).unwrap();
    &&& f.name@ == t.text_of(nm)
    &&& rust_vis_rel(t, i, f.visibility)
    &&& f.is_async == rust_async_spec(t, i)
    &&& f.params@.map_values(|p: RustParam| (p.name@, p.param_type@)) == rust_params_of(t, i)
    &&& (match (f.return_type, crate::syntree::child_by_field(t, i, lit_bytes("return_type"))) {
        (Some(a), Some(rt)) => a@ == t.text_of(rt),
        (None, None) => true,
        _ => false,
    })
    &&& f.location.start_line == t.nodes@[i].row
    &&& f.location.start_col == t.nodes@[i].col
    &&& f.start_byte == t.nodes@[i].start_byte
    &&& f.end_byte == t.nodes@[i].end_byte
}

/// The item names collected from the children of the use-list node `l`,
/// at or after index `j`.
pub open spec fn rust_use_items_texts(t: SynTree, l: int, j: int) -> Seq<Seq<u8>>
    decreases t.nodes@.len() - j
        when 0 <= j <= t.nodes@.len()
{
    if j >= t.nodes@.len() {
        Seq::empty()
    } else if t.nodes@[j].parent == l && j != l && (t.kind_of(j) == lit_bytes("identifier")
        || t.kind_of(j) == lit_bytes("scoped_identifier")) {
        seq![t.text_of(j)] + rust_use_items_texts(t, l, j + 1)
    } else {
        rust_use_items_texts(t, l, j + 1)
    }
}

/// The exact shape of the `use` record extracted at node `i`, by the kind
/// of its argument child.
pub open spec fn rust_use_rel(t: SynTree, i: int, u: RustUse) -> bool {
    let a = crate::syntree::child_by_field(t, i, lit_bytes("argument")).unwrap();
    &&& (if t.kind_of(a) == lit_bytes("scoped_use_list") {
        &&& (match crate::syntree::child_by_field(t, a, lit_bytes("path")) {
            Some(p) => u.path@ == t.text_of(p),
            None => u.path@.len() == 0,
        })
        &&& (match crate::syntree::child_by_field(t, a, lit_bytes("list")) {
            Some(l) => u.items@.map_values(|v: Vec<u8>| v@) == rust_use_items_texts(t, l, l + 1),
            None => u.items@.len() == 0,
        })
        &&& u.alias.is_none()
        &&& !u.is_glob
    } else if t.kind_of(a) == lit_bytes("use_as_clause") {
        &&& (match crate::syntree::child_by_field(t, a, lit_bytes("path")) {
            Some(p) => u.path@ == t.text_of(p),
            None => u.path@.len() == 0,
        })
        &&& (match (u.alias, crate::syntree::child_by_field(t, a, lit_bytes("alias"))) {
            (Some(x), Some(al)) => x@ == t.text_of(al),
            (None, None) => true,
            _ => false,
        })
        &&& u.items@.len() == 0
        &&& !u.is_glob
    } else if t.kind_of(a) == lit_bytes("use_wildcard") {
        &&& u.path@ == t.text_of(a)
        &&& u.items@.len() == 0
        &&& u.alias.is_none()
        &&& u.is_glob
    } else {
        &&& u.path@ == t.text_of(a)
        &&& u.items@.len() == 0
        &&& u.alias.is_none()
        &&& !u.is_glob
    })
    &&& u.location.start_line == t.nodes@[i].row
    &&& u.location.start_col == t.nodes@[i].col
}

/// The path a `use` record would carry for the argument node `a`, used by
/// the scan to decide whether a record is emitted.
pub open spec fn rust_use_path_spec(t: SynTree, a: int) -> Seq<u8> {
    if t.kind_of(a) == lit_bytes("scoped_use_list") || t.kind_of(a) == lit_bytes(
        "use_as_clause",
    ) {
        match crate::syntree::child_by_field(t, a, lit_bytes("path")) {
            Some(p) => t.text_of(p),
            None => Seq::empty(),
        }
    } else {
        t.text_of(a)
    }
}

/// The `use` records extracted from the first `n` nodes, following the
/// extractor's branch order on node kinds.
pub open spec fn rust_uses_scan(t: SynTree, n: int, out: Seq<RustUse>) -> bool
    decreases n
        when 0 <= n <= t.nodes@.len()
{
    if n == 0 {
        out.len() == 0
    } else {
        let i = n - 1;
        if t.kind_of(i) == lit_bytes("use_declaration") {
            if crate::syntree::child_by_field(t, i, lit_bytes("argument")).is_some()
                && rust_use_path_spec(
                t,
                crate::syntree::child_by_field(t, i, lit_bytes("argument")).unwrap(),
            ).len() > 0 {
                out.len() > 0 && rust_uses_scan(t, i, out.drop_last()) && rust_use_rel(
                    t,
                    i,
                    out.last(),
                )
            } else {
                rust_uses_scan(t, i, out)
            }
        } else {
            rust_uses_scan(t, i, out)
        }
    }
}

/// The top-level function records extracted from the first `n` nodes.
pub open spec fn rust_functions_scan(t: SynTree, n: int, out: Seq<RustFunction>) -> bool
    decreases n
        when 0 <= n <= t.nodes@.len()
{
    if n == 0 {
        out.len() == 0
    } else {
        let i = n - 1;
        if t.kind_of(i) == lit_bytes("use_declaration") {
            rust_functions_scan(t, i, out)
        } else if t.kind_of(i) == lit_bytes("function_item") {
            if crate::syntree::nearest_anc_kind(t, i, lit_bytes("impl_item")).is_none()
                && crate::syntree::child_by_field(t, i, lit_bytes("name")).is_some() {
                out.len() > 0 && rust_functions_scan(t, i, out.drop_last()) && rust_fun_rec_rel(
                    t,
                    i,
                    out.last(),
                )
            } else {
                rust_functions_scan(t, i, out)
            }
        } else {
            rust_functions_scan(t, i, out)
        }
    }
}

/// The methods of the `impl` block at node `i`, collected from the nodes
/// below the exclusive bound `m` whose nearest `impl` ancestor is `i`.
pub open spec fn rust_impl_methods_upto(t: SynTree, i: int, m: int, out: Seq<RustFunction>) -> bool
    decreases m
        when 0 <= i && 0 <= m <= t.nodes@.len()
{
    if m <= i + 1 {
        out.len() == 0
    } else if t.kind_of(m - 1) == lit_bytes("function_item") && crate::syntree::nearest_anc_kind(
        t,
        m - 1,
        lit_bytes("impl_item"),
    ) == Some(i) && crate::syntree::child_by_field(t, m - 1, lit_bytes("name")).is_some() {
        out.len() > 0 && rust_impl_methods_upto(t, i, m - 1, out.drop_last()) && rust_fun_rec_rel(
            t,
            m - 1,
            out.last(),
        )
    } else {
        rust_impl_methods_upto(t, i, m - 1, out)
    }
}

/// The exact shape of the `impl` block record extracted at node `i`.
pub open spec fn rust_impl_rel(t: SynTree, i: int, b: RustImplBlock) -> bool {
    &&& (match crate::syntree::child_by_field(t, i, lit_bytes("type")) {
        Some(ty) => b.impl_type@ == t.text_of(ty),
        None => b.impl_type@.len() == 0,
    })
    &&& rust_impl_methods_upto(t, i, t.nodes@.len() as int, b.methods@)
}

/// The callee expression of the call at node `i` names a task spawn.
pub open spec fn rust_spawn_cond(t: SynTree, i: int) -> bool {
    let f = crate::syntree::child_by_field(t, i, lit_bytes("function")).unwrap();
    ||| t.text_of(f) == lit_bytes("tokio::spawn")
    ||| t.text_of(f) == lit_bytes("task::spawn")
    ||| t.text_of(f) == lit_bytes("async_std::task::spawn")
}

/// The exact shape of the spawn record extracted at call node `i`.
pub open spec fn rust_spawn_rel(t: SynTree, i: int, s: SpawnCall) -> bool {
    &&& !s.has_error_handling
    &&& s.handle_captured == (t.kind_of(t.nodes@[i].parent as int) == lit_bytes("let_declaration"))
    &&& s.spawned_expr@ == t.text_of(i)
    &&& (match (s.function_name, crate::rust_http::rust_encl_name_spec(t, i)) {
        (Some(a), Some(b)) => a@ == b,
        (None, None) => true,
        _ => false,
    })
    &&& s.location.start_line == t.nodes@[i].row
    &&& s.location.start_col == t.nodes@[i].col
    &&& s.start_byte == t.nodes@[i].start_byte
    &&& s.end_byte == t.nodes@[i].end_byte
}

/// The spawn records extracted from the first `n` nodes.
pub open spec fn rust_spawns_scan(t: SynTree, n: int, out: Seq<SpawnCall>) -> bool
    decreases n
        when 0 <= n <= t.nodes@.len()
{
    if n == 0 {
        out.len() == 0
    } else {
        let i = n - 1;
        if t.kind_of(i) == lit_bytes("use_declaration") || t.kind_of(i) == lit_bytes(
            "function_item",
        ) || t.kind_of(i) == lit_bytes("impl_item") {
            rust_spawns_scan(t, i, out)
        } else if t.kind_of(i) == lit_bytes("call_expression") && crate::syntree::child_by_field(
            t,
            i,
            lit_bytes("function"),
        ).is_some() && rust_spawn_cond(t, i) {
            out.len() > 0 && rust_spawns_scan(t, i, out.drop_last()) && rust_spawn_rel(
                t,
                i,
                out.last(),
            )
        } else {
            rust_spawns_scan(t, i, out)
        }
    }
}

/// The `impl` block records extracted from the first `n` nodes.
pub open spec fn rust_impls_scan(t: SynTree, n: int, out: Seq<RustImplBlock>) -> bool
    decreases n
        when 0 <= n <= t.nodes@.len()
{
    if n == 0 {
        out.len() == 0
    } else {
        let i = n - 1;
        if t.kind_of(i) == lit_bytes("use_declaration") || t.kind_of(i) == lit_bytes(
            "function_item",
        ) {
            rust_impls_scan(t, i, out)
        } else if t.kind_of(i) == lit_bytes("impl_item") {
            out.len() > 0 && rust_impls_scan(t, i, out.drop_last()) && rust_impl_rel(
                t,
                i,
                out.last(),
            )
        } else {
            rust_impls_scan(t, i, out)
        }
    }
}

/// The exact shape of one extracted Rust call site at node `i`.
pub open spec fn rust_call_site_rel(t: SynTree, i: int, site: RustCallSite) -> bool {
    let f = crate::syntree::child_by_field(t, i, lit_bytes("function")).unwrap();
    &&& site.callee_expr@ == t.text_of(f)
    &&& site.line == t.nodes@[i].row + 1
    &&& site.column == t.nodes@[i].col + 1
    &&& site.start_byte == t.nodes@[i].start_byte
    &&& site.end_byte == t.nodes@[i].end_byte
}

/// The call sites extracted from the first `n` nodes of a Rust tree, in
/// document order, following the extractor's branch order on node kinds.
pub open spec fn rust_calls_scan(t: SynTree, n: int, out: Seq<RustCallSite>) -> bool
    decreases n
        when 0 <= n <= t.nodes@.len()
{
    if n == 0 {
        out.len() == 0
    } else {
        let i = n - 1;
        if t.kind_of(i) == lit_bytes("use_declaration") || t.kind_of(i) == lit_bytes(
            "function_item",
        ) || t.kind_of(i) == lit_bytes("impl_item") {
            rust_calls_scan(t, i, out)
        } else if t.kind_of(i) == lit_bytes("call_expression") && crate::syntree::child_by_field(
            t,
            i,
            lit_bytes("function"),
        ).is_some() {
            out.len() > 0 && rust_calls_scan(t, i, out.drop_last()) && rust_call_site_rel(
                t,
                i,
                out.last(),
            )
        } else {
            rust_calls_scan(t, i, out)
        }
    }
}

impl RustFileSemantics {
    /// Walks a parsed Rust file and extracts `use` declarations, functions,
    /// `impl` methods, call sites and task-spawn facts.  HTTP and database
    /// facts are left empty for the second pass.
    pub fn from_parsed(parsed: &ParsedFile) -> (r: RustFileSemantics)
        requires
            parsed.wf(),
        ensures
            r.wf(),
            r.file_id == parsed.file_id,
            r.path@ == parsed.path@,
            r.http_calls@.len() == 0,
            r.db_operations@.len() == 0,
            rust_calls_scan(parsed.tree, parsed.tree.nodes@.len() as int, r.calls@),
            rust_uses_scan(parsed.tree, parsed.tree.nodes@.len() as int, r.uses@),
            rust_functions_scan(parsed.tree, parsed.tree.nodes@.len() as int, r.functions@),
            rust_impls_scan(parsed.tree, parsed.tree.nodes@.len() as int, r.impls@),
            rust_spawns_scan(
                parsed.tree,
                parsed.tree.nodes@.len() as int,
                r.async_info.spawn_calls@,
            ),
            r.async_info.uses_tokio == (exists|j: int|
                0 <= j < r.uses@.len() && crate::bytes::has_prefix(
                    (#[trigger] r.uses@[j]).path@,
                    lit_bytes("tokio"),
                )),
            r.async_info.uses_async_std == (exists|j: int|
                0 <= j < r.uses@.len() && crate::bytes::has_prefix(
                    (#[trigger] r.uses@[j]).path@,
                    lit_bytes("async_std"),
                )),
            rust_structural_post(*parsed, r),
    {
        let t = &parsed.tree;
        let n = t.len();
        let mut uses: Vec<RustUse> = Vec::new();
        let mut functions: Vec<RustFunction> = Vec::new();
        let mut impls: Vec<RustImplBlock> = Vec::new();
        let mut calls: Vec<RustCallSite> = Vec::new();
        let mut spawns: Vec<SpawnCall> = Vec::new();
        let mut uses_tokio: bool = false;
        let mut uses_async_std: bool = false;
        let mut i: usize = 0;
        while i < n
            invariant
                t.wf(),
                n == t.nodes@.len(),
                i <= n,
                forall|j: int| 0 <= j < uses@.len() ==> rust_use_wf(#[trigger] uses@[j]),
                forall|j: int| 0 <= j < functions@.len() ==> rust_fun_wf(#[trigger] functions@[j]),
                forall|j: int|
                    0 <= j < impls@.len() ==> forall|k: int|
                        0 <= k < (#[trigger] impls@[j]).methods@.len() ==> rust_fun_wf(
                            #[trigger] impls@[j].methods@[k],
                        ),
                forall|j: int| 0 <= j < calls@.len() ==> rust_call_wf(#[trigger] calls@[j]),
                forall|j: int| 0 <= j < spawns@.len() ==> rust_spawn_wf(#[trigger] spawns@[j]),
                rust_calls_scan(*t, i as int, calls@),
                rust_uses_scan(*t, i as int, uses@),
                rust_functions_scan(*t, i as int, functions@),
                rust_impls_scan(*t, i as int, impls@),
                rust_spawns_scan(*t, i as int, spawns@),
                uses_tokio == (exists|j: int|
                    0 <= j < uses@.len() && crate::bytes::has_prefix(
                        (#[trigger] uses@[j]).path@,
                        lit_bytes("tokio"),
                    )),
                uses_async_std == (exists|j: int|
                    0 <= j < uses@.len() && crate::bytes::has_prefix(
                        (#[trigger] uses@[j]).path@,
                        lit_bytes("async_std"),
                    )),
            decreases n - i,
        {
            proof {
                assert(crate::syntree::node_wf(
                    t.nodes@[i as int],
                    i as int,
                    t.source@.len() as int,
                ));
            }
            if t.kind_is(i, "use_declaration") {
                match t.child_by_field(i, "argument") {
                    Some(a) => {
                        let mut path: Vec<u8> = Vec::new();
                        let mut items: Vec<Vec<u8>> = Vec::new();
                        let mut alias: Option<Vec<u8>> = None;
                        let mut is_glob: bool = false;
                        if t.kind_is(a, "scoped_use_list") {
                            path = match t.child_by_field(a, "path") {
                                Some(p) => t.text(p),
                                None => Vec::new(),
                            };
                            match t.child_by_field(a, "list") {
                                Some(l) => {
                                    let mut j: usize = l + 1;
                                    while j < n
                                        invariant
                                            t.wf(),
                                            n == t.nodes@.len(),
                                            j <= n,
                                            l < n,
                                            l + 1 <= j,
                                            items@.map_values(|v: Vec<u8>| v@)
                                                + rust_use_items_texts(*t, l as int, j as int)
                                                =~= rust_use_items_texts(*t, l as int, l + 1),
                                        decreases n - j,
                                    {
                                        if t.parent_of(j) == l && (t.kind_is(j, "identifier")
                                            || t.kind_is(j, "scoped_identifier")) {
                                            let ghost pitems = items@;
                                            items.push(t.text(j));
                                            proof {
                                                assert(items@.map_values(|v: Vec<u8>| v@)
                                                    =~= pitems.map_values(|v: Vec<u8>| v@) + seq![
                                                    t.text_of(j as int),
                                                ]);
                                            }
                                        }
                                        j = j + 1;
                                    }
                                    proof {
                                        assert(rust_use_items_texts(*t, l as int, n as int)
                                            =~= Seq::<Seq<u8>>::empty());
                                        assert(items@.map_values(|v: Vec<u8>| v@)
                                            =~= rust_use_items_texts(*t, l as int, l + 1));
                                    }
                                },
                                None => {
                                    proof {
                                        assert(items@.map_values(|v: Vec<u8>| v@) =~= Seq::<
                                            Seq<u8>,
                                        >::empty());
                                    }
                                },
                            }
                        } else if t.kind_is(a, "use_as_clause") {
                            path = match t.child_by_field(a, "path") {
                                Some(p) => t.text(p),
                                None => Vec::new(),
                            };
                            alias = match t.child_by_field(a, "alias") {
                                Some(al) => Some(t.text(al)),
                                None => None,
                            };
                        } else if t.kind_is(a, "use_wildcard") {
                            path = t.text(a);
                            is_glob = true;
                        } else {
                            path = t.text(a);
                        }
                        if path.len() > 0 {
                            if starts_with_lit(path.as_slice(), "tokio") {
                                uses_tokio = true;
                            }
                            if starts_with_lit(path.as_slice(), "async_std") {
                                uses_async_std = true;
                            }
                            let ghost prev = uses@;
                            uses.push(RustUse { path, items, alias, is_glob, location: t.loc_at(i) });
                            proof {
                                assert(uses@.drop_last() =~= prev);
                                assert(rust_use_rel(*t, i as int, uses@.last()));
                                assert(forall|j: int|
                                    0 <= j < prev.len() ==> uses@[j] == prev[j]);
                            }
                        }
                    },
                    None => {},
                }
            } else if t.kind_is(i, "function_item") {
                match t.nearest_anc(i, "impl_item") {
                    Some(_) => {},
                    None => {
                        match rust_function_at(t, i) {
                            Some(f) => {
                                let ghost prev = functions@;
                                functions.push(f);
                                proof {
                                    assert(functions@.drop_last() =~= prev);
                                }
                            },
                            None => {},
                        }
                    },
                }
            } else if t.kind_is(i, "impl_item") {
                let impl_type = match t.child_by_field(i, "type") {
                    Some(ty) => t.text(ty),
                    None => Vec::new(),
                };
                let mut methods: Vec<RustFunction> = Vec::new();
                let mut j: usize = i + 1;
                while j < n
                    invariant
                        t.wf(),
                        n == t.nodes@.len(),
                        j <= n,
                        i < n,
                        i + 1 <= j,
                        forall|k: int| 0 <= k < methods@.len() ==> rust_fun_wf(
                            #[trigger] methods@[k],
                        ),
                        rust_impl_methods_upto(*t, i as int, j as int, methods@),
                    decreases n - j,
                {
                    if t.kind_is(j, "function_item") {
                        match t.nearest_anc(j, "impl_item") {
                            Some(a) => {
                                if a == i {
                                    match rust_function_at(t, j) {
                                        Some(f) => {
                                            let ghost mprev = methods@;
                                            methods.push(f);
                                            proof {
                                                assert(methods@.drop_last() =~= mprev);
                                            }
                                        },
                                        None => {},
                                    }
                                }
                            },
                            None => {},
                        }
                    }
                    j = j + 1;
                }
                let ghost bprev = impls@;
                impls.push(RustImplBlock { impl_type, methods });
                proof {
                    assert(impls@.drop_last() =~= bprev);
                    assert(rust_impl_rel(*t, i as int, impls@.last()));
                }
            } else if t.kind_is(i, "call_expression") {
                match t.child_by_field(i, "function") {
                    Some(f) => {
                        let callee_expr = t.text(f);
                        let is_spawn = crate::bytes::bytes_eq_str(
                            callee_expr.as_slice(),
                            "tokio::spawn",
                        ) || crate::bytes::bytes_eq_str(callee_expr.as_slice(), "task::spawn")
                            || crate::bytes::bytes_eq_str(
                            callee_expr.as_slice(),
                            "async_std::task::spawn",
                        );
                        if is_spawn {
                            let handle_captured = {
                                let p = t.parent_of(i);
                                t.kind_is(p, "let_declaration")
                            };
                            let fname = match t.nearest_anc(i, "function_item") {
                                Some(fd) => match t.child_by_field(fd, "name") {
                                    Some(nm) => Some(t.text(nm)),
                                    None => None,
                                },
                                None => None,
                            };
                            let ghost sprev = spawns@;
                            spawns.push(
                                SpawnCall {
                                    has_error_handling: false,
                                    handle_captured,
                                    spawned_expr: t.text(i),
                                    location: t.loc_at(i),
                                    function_name: fname,
                                    start_byte: t.start_of(i),
                                    end_byte: t.end_of(i),
                                },
                            );
                            proof {
                                assert(spawns@.drop_last() =~= sprev);
                                assert(rust_spawn_rel(*t, i as int, spawns@.last()));
                            }
                        }
                        let loc = t.loc_at(i);
                        let ghost prevcalls = calls@;
                        calls.push(
                            RustCallSite {
                                callee_expr,
                                line: loc.start_line + 1,
                                column: loc.start_col + 1,
                                start_byte: t.start_of(i),
                                end_byte: t.end_of(i),
                            },
                        );
                        proof {
                            assert(calls@.drop_last() =~= prevcalls);
                        }
                    },
                    None => {},
                }
            }
            i = i + 1;
        }
        RustFileSemantics {
            file_id: parsed.file_id,
            path: crate::bytes::bytes_to_vec(parsed.path.as_slice()),
            uses,
            functions,
            impls,
            calls,
            http_calls: Vec::new(),
            db_operations: Vec::new(),
            async_info: RustAsyncInfo { uses_tokio, uses_async_std, spawn_calls: spawns },
        }
    }

    /// Second pass: fills the normalized HTTP calls from the call-chain
    /// summary.  The structural facts are left untouched.
    pub fn analyze_frameworks(&mut self, parsed: &ParsedFile) -> (r: Result<(), SemanticsError>)
        requires
            parsed.wf(),
            old(self).wf(),
        ensures
            final(self).wf(),
            final(self).uses == old(self).uses,
            final(self).functions == old(self).functions,
            final(self).impls == old(self).impls,
            final(self).calls == old(self).calls,
            final(self).file_id == old(self).file_id,
            final(self).path == old(self).path,
            r.is_ok(),
            forall|j: int|
                0 <= j < final(self).http_calls@.len() ==> common_http_wf(
                    #[trigger] final(self).http_calls@[j],
                ),
            exists|sites: Seq<HttpCallSite>|
                {
                    &&& #[trigger] rh_scan(parsed.tree, parsed.tree.nodes@.len() as int, sites)
                    &&& final(self).http_calls@.len() == sites.len()
                    &&& forall|j: int|
                        0 <= j < sites.len() ==> rust_http_conv(
                            sites[j],
                            old(self).file_id,
                            #[trigger] final(self).http_calls@[j],
                        )
                },
    {
        let sites = summarize_http_clients(parsed);
        let m = sites.len();
        let ghost fid0 = self.file_id;
        let mut http: Vec<HttpCall> = Vec::new();
        let mut k: usize = 0;
        while k < m
            invariant
                m == sites@.len(),
                k <= m,
                fid0 == self.file_id,
                forall|j: int| 0 <= j < m ==> http_site_wf(#[trigger] sites@[j]),
                http@.len() == k,
                forall|j: int| 0 <= j < http@.len() ==> common_http_wf(#[trigger] http@[j]),
                forall|j: int|
                    0 <= j < k ==> rust_http_conv(sites@[j], fid0, #[trigger] http@[j]),
            decreases m - k,
        {
            let fid = self.file_id;
            http.push(rust_http_to_common(&sites[k], fid));
            k = k + 1;
        }
        self.http_calls = http;
        proof {
            assert(rh_scan(parsed.tree, parsed.tree.nodes@.len() as int, sites@));
        }
        Ok(())
    }
}

/// Builds the full Rust semantics of a parsed file: the structural pass
/// followed by the framework pass.
pub fn build_rust_semantics(parsed: &ParsedFile) -> (r: Result<RustFileSemantics, SemanticsError>)
    requires
        parsed.wf(),
    ensures
        match r {
            Ok(s) => {
                &&& s.wf()
                &&& s.file_id == parsed.file_id
                &&& s.path@ == parsed.path@
                &&& rust_calls_scan(parsed.tree, parsed.tree.nodes@.len() as int, s.calls@)
                &&& rust_uses_scan(parsed.tree, parsed.tree.nodes@.len() as int, s.uses@)
                &&& rust_functions_scan(parsed.tree, parsed.tree.nodes@.len() as int, s.functions@)
                &&& rust_impls_scan(parsed.tree, parsed.tree.nodes@.len() as int, s.impls@)
                &&& exists|sites: Seq<HttpCallSite>|
                    {
                        &&& #[trigger] rh_scan(
                            parsed.tree,
                            parsed.tree.nodes@.len() as int,
                            sites,
                        )
                        &&& s.http_calls@.len() == sites.len()
                        &&& forall|j: int|
                            0 <= j < sites.len() ==> rust_http_conv(
                                sites[j],
                                parsed.file_id,
                                #[trigger] s.http_calls@[j],
                            )
                    }
            },
            Err(e) => false,
        },
{
    let mut sem = RustFileSemantics::from_parsed(parsed);
    match sem.analyze_frameworks(parsed) {
        Ok(u) => Ok(sem),
        Err(e) => Err(e),
    }
}


/// The structural contract of `from_parsed` for Rust: identity copied,
/// the four structural categories pinned by their scan relations, the
/// runtime flags determined by the `use` paths, framework categories left
/// empty.
pub open spec fn rust_structural_post(p: ParsedFile, r: RustFileSemantics) -> bool {
    &&& r.file_id == p.file_id
    &&& r.path@ == p.path@
    &&& rust_uses_scan(p.tree, p.tree.nodes@.len() as int, r.uses@)
    &&& rust_functions_scan(p.tree, p.tree.nodes@.len() as int, r.functions@)
    &&& rust_impls_scan(p.tree, p.tree.nodes@.len() as int, r.impls@)
    &&& rust_calls_scan(p.tree, p.tree.nodes@.len() as int, r.calls@)
    &&& rust_spawns_scan(p.tree, p.tree.nodes@.len() as int, r.async_info.spawn_calls@)
    &&& r.async_info.uses_tokio == (exists|j: int|
        0 <= j < r.uses@.len() && crate::bytes::has_prefix(
            (#[trigger] r.uses@[j]).path@,
            lit_bytes("tokio"),
        ))
    &&& r.async_info.uses_async_std == (exists|j: int|
        0 <= j < r.uses@.len() && crate::bytes::has_prefix(
            (#[trigger] r.uses@[j]).path@,
            lit_bytes("async_std"),
        ))
    &&& r.http_calls@.len() == 0
    &&& r.db_operations@.len() == 0
}

} // verus!

