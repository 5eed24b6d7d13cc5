//! Go semantics: the per-language record and its extractor.

use vstd::prelude::*;
use crate::bytes::{contains_lit, starts_with_lit};
use crate::lang::{FileId, SemanticsError};
use crate::parse::ParsedFile;
use crate::syntree::{loc_wf, AstLocation, SynTree};

verus! {

/// One Go import declaration.
#[derive(Clone, Debug)]
pub struct GoImport {
    pub path: Vec<u8>,
    pub alias: Option<Vec<u8>>,
    pub location: AstLocation,
}

/// A Go formal parameter.
#[derive(Clone, Debug)]
pub struct GoParam {
    pub name: Vec<u8>,
    pub param_type: Vec<u8>,
}

/// A top-level Go function.
#[derive(Clone, Debug)]
pub struct GoFunction {
    pub name: Vec<u8>,
    pub params: Vec<GoParam>,
    pub return_types: Vec<Vec<u8>>,
    pub returns_error: bool,
    pub location: AstLocation,
    pub start_byte: usize,
    pub end_byte: usize,
}

/// A Go method with its receiver.
#[derive(Clone, Debug)]
pub struct GoMethod {
    pub name: Vec<u8>,
    pub receiver_type: Vec<u8>,
    pub receiver_is_pointer: bool,
    pub params: Vec<GoParam>,
    pub return_types: Vec<Vec<u8>>,
    pub returns_error: bool,
    pub location: AstLocation,
    pub start_byte: usize,
    pub end_byte: usize,
}

/// A Go call site; line and column are 1-based.
#[derive(Clone, Debug)]
pub struct GoCallSite {
    pub callee_expr: Vec<u8>,
    pub line: usize,
    pub column: usize,
    pub start_byte: usize,
    pub end_byte: usize,
}

/// The Go HTTP client library behind a call.
#[derive(Clone, Debug)]
pub enum GoHttpClientKind {
    NetHttp,
    Resty,
    Fasthttp,
    Fiber,
    Other(Vec<u8>),
}

/// One HTTP client call in Go code.
#[derive(Clone, Debug)]
pub struct GoHttpCallSite {
    pub client_kind: GoHttpClientKind,
    pub method_name: Vec<u8>,
    pub call_text: Vec<u8>,
    pub has_timeout: bool,
    pub location: AstLocation,
    pub function_name: Option<Vec<u8>>,
    pub start_byte: usize,
    pub end_byte: usize,
}

/// One database operation in Go code; libraries and operations are carried
/// as raw tags and classified at the normalization boundary.
#[derive(Clone, Debug)]
pub struct GoDbOperation {
    pub library: Vec<u8>,
    pub operation_type: Vec<u8>,
    pub has_timeout: bool,
    pub timeout_millis: Option<u64>,
    pub in_transaction: bool,
    pub eager_loading: Option<crate::common::EagerLoadingStrategy>,
    pub in_loop: bool,
    pub in_iteration: bool,
    pub model_name: Option<Vec<u8>>,
    pub relationship_field: Option<Vec<u8>>,
    pub operation_text: Vec<u8>,
    pub location: crate::common::CommonLocation,
    pub enclosing_function: Option<Vec<u8>>,
    pub start_byte: usize,
    pub end_byte: usize,
}

/// One `go f(...)` statement.
#[derive(Clone, Debug)]
pub struct Goroutine {
    pub has_recover: bool,
    pub has_context_param: bool,
    pub has_done_channel: bool,
    pub text: Vec<u8>,
    pub location: AstLocation,
    pub function_name: Option<Vec<u8>>,
    pub start_byte: usize,
    pub end_byte: usize,
}

/// The direction of a Go channel operation.
#[derive(Clone, Copy, Debug, PartialEq, Eq, Structural)]
pub enum ChannelOpKind {
    Send,
    Receive,
    Close,
}

/// One Go channel operation.
#[derive(Clone, Debug)]
pub struct ChannelOp {
    pub kind: ChannelOpKind,
    pub text: Vec<u8>,
    pub location: AstLocation,
    pub function_name: Option<Vec<u8>>,
    pub start_byte: usize,
    pub end_byte: usize,
}

/// One Go `select` statement.
#[derive(Clone, Debug)]
pub struct SelectStatement {
    pub is_cancellation_pattern: bool,
    pub text: Vec<u8>,
    pub location: AstLocation,
    pub function_name: Option<Vec<u8>>,
    pub start_byte: usize,
    pub end_byte: usize,
}

/// One Go mutex lock or unlock call.
#[derive(Clone, Debug)]
pub struct MutexOperation {
    pub operation_type: Vec<u8>,
    pub uses_defer_unlock: bool,
    pub text: Vec<u8>,
    pub location: AstLocation,
    pub function_name: Option<Vec<u8>>,
    pub lock_start_byte: usize,
    pub lock_end_byte: usize,
}

/// One Go `defer` statement, tracked for resource cleanup.
#[derive(Clone, Debug)]
pub struct DeferStatement {
    pub is_resource_cleanup: bool,
    pub text: Vec<u8>,
    pub location: AstLocation,
    pub function_name: Option<Vec<u8>>,
    pub start_byte: usize,
    pub end_byte: usize,
}

/// All semantic facts extracted from one Go file.
#[derive(Clone, Debug)]
pub struct GoFileSemantics {
    pub file_id: FileId,
    pub path: Vec<u8>,
    pub imports: Vec<GoImport>,
    pub functions: Vec<GoFunction>,
    pub methods: Vec<GoMethod>,
    pub calls: Vec<GoCallSite>,
    pub http_calls: Vec<GoHttpCallSite>,
    pub db_operations: Vec<GoDbOperation>,
    pub goroutines: Vec<Goroutine>,
    pub channel_ops: Vec<ChannelOp>,
    pub select_statements: Vec<SelectStatement>,
    pub mutex_operations: Vec<MutexOperation>,
    pub defers: Vec<DeferStatement>,
}

/// Well-formedness of one Go import record.
pub open spec fn go_import_wf(i: GoImport) -> bool {
    &&& loc_wf(i.location)
    &&& i.path@.len() > 0
}

/// Well-formedness of one Go function record.
pub open spec fn go_fun_wf(f: GoFunction) -> bool {
    &&& loc_wf(f.location)
    &&& f.start_byte <= f.end_byte
}

/// Well-formedness of one Go method record.
pub open spec fn go_method_wf(m: GoMethod) -> bool {
    &&& loc_wf(m.location)
    &&& m.start_byte <= m.end_byte
}

/// Well-formedness of one Go call site.
pub open spec fn go_call_wf(c: GoCallSite) -> bool {
    &&& 1 <= c.line <= crate::syntree::MAX_POS + 1
    &&& 1 <= c.column <= crate::syntree::MAX_POS + 1
    &&& c.start_byte <= c.end_byte
}

/// Well-formedness of one Go HTTP call site.
pub open spec fn go_http_wf(h: GoHttpCallSite) -> bool {
    &&& loc_wf(h.location)
    &&& h.start_byte <= h.end_byte
}

/// Well-formedness of a located Go concurrency record.
pub open spec fn go_range_wf(l: AstLocation, s: usize, e: usize) -> bool {
    &&& loc_wf(l)
    &&& s <= e
}

impl GoFileSemantics {
    /// Every record of the file is well-formed.
    pub open spec fn wf(self) -> bool {
        &&& forall|j: int| 0 <= j < self.imports@.len() ==> go_import_wf(#[trigger] self.imports@[j])
        &&& forall|j: int|
            0 <= j < self.functions@.len() ==> go_fun_wf(#[trigger] self.functions@[j])
        &&& forall|j: int| 0 <= j < self.methods@.len() ==> go_method_wf(#[trigger] self.methods@[j])
        &&& forall|j: int| 0 <= j < self.calls@.len() ==> go_call_wf(#[trigger] self.calls@[j])
        &&& forall|j: int|
            0 <= j < self.http_calls@.len() ==> go_http_wf(#[trigger] self.http_calls@[j])
        &&& forall|j: int|
            0 <= j < self.goroutines@.len() ==> go_range_wf(
                (#[trigger] self.goroutines@[j]).location,
                self.goroutines@[j].start_byte,
                self.goroutines@[j].end_byte,
            )
        &&& forall|j: int|
            0 <= j < self.channel_ops@.len() ==> go_range_wf(
                (#[trigger] self.channel_ops@[j]).location,
                self.channel_ops@[j].start_byte,
                self.channel_ops@[j].end_byte,
            )
        &&& forall|j: int|
            0 <= j < self.select_statements@.len() ==> go_range_wf(
                (#[trigger] self.select_statements@[j]).location,
                self.select_statements@[j].start_byte,
                self.select_statements@[j].end_byte,
            )
        &&& forall|j: int|
            0 <= j < self.mutex_operations@.len() ==> go_range_wf(
                (#[trigger] self.mutex_operations@[j]).location,
                self.mutex_operations@[j].lock_start_byte,
                self.mutex_operations@[j].lock_end_byte,
            )
        &&& forall|j: int|
            0 <= j < self.defers@.len() ==> go_range_wf(
                (#[trigger] self.defers@[j]).location,
                self.defers@[j].start_byte,
                self.defers@[j].end_byte,
            )
    }
}

/// One pair of surrounding double quotes removed, if present.
pub open spec fn strip_quotes_spec(s: Seq<u8>) -> Seq<u8> {
    if s.len() >= 2 && s[0] == 34 && s[s.len() - 1] == 34 {
        s.subrange(1, s.len() - 1)
    } else {
        s
    }
}

/// Removes one pair of surrounding double quotes, if present.
pub fn strip_quotes(v: &[u8]) -> (r: Vec<u8>)
    ensures
        r@ == strip_quotes_spec(v@),
{
    let n = v.len();
    if n >= 2 && v[0] == 34 && v[n - 1] == 34 {
        crate::bytes::bytes_to_vec(vstd::slice::slice_subrange(v, 1, n - 1))
    } else {
        crate::bytes::bytes_to_vec(v)
    }
}

/// The nearest enclosing Go function or method declaration above `i`:
/// the function declaration when it comes first on the way up, else the
/// method declaration.
pub open spec fn go_encl_idx_spec(t: SynTree, i: int) -> Option<int> {
    if crate::syntree::anc_kind_before(
        t,
        i,
        crate::bytes::lit_bytes("function_declaration"),
        crate::bytes::lit_bytes("method_declaration"),
    ) {
        crate::syntree::nearest_anc_kind(t, i, crate::bytes::lit_bytes("function_declaration"))
    } else {
        crate::syntree::nearest_anc_kind(t, i, crate::bytes::lit_bytes("method_declaration"))
    }
}

/// The name of the nearest enclosing Go function or method, if any.
pub open spec fn go_encl_name_spec(t: SynTree, i: int) -> Option<Seq<u8>> {
    match go_encl_idx_spec(t, i) {
        Some(fd) => match crate::syntree::child_by_field(t, fd, crate::bytes::lit_bytes("name")) {
            Some(nm) => Some(t.text_of(nm)),
            None => None,
        },
        None => None,
    }
}

/// The text of the nearest enclosing Go function, or empty without one.
pub open spec fn go_encl_text_spec(t: SynTree, i: int) -> Seq<u8> {
    match go_encl_idx_spec(t, i) {
        Some(fd) => t.text_of(fd),
        None => Seq::empty(),
    }
}

/// The nearest enclosing Go function or method declaration above node `i`.
fn go_enclosing_idx(t: &SynTree, i: usize) -> (r: Option<usize>)
    requires
        t.wf(),
        i < t.nodes@.len(),
    ensures
        match (r, go_encl_idx_spec(*t, i as int)) {
            (Some(a), Some(b)) => a as int == b && a < t.nodes@.len(),
            (None, None) => true,
            _ => false,
        },
{
    if t.anc_before(i, "function_declaration", "method_declaration") {
        t.nearest_anc(i, "function_declaration")
    } else {
        t.nearest_anc(i, "method_declaration")
    }
}

/// The name of the nearest enclosing Go function or method, if any.
fn go_enclosing_name(t: &SynTree, i: usize) -> (r: Option<Vec<u8>>)
    requires
        t.wf(),
        i < t.nodes@.len(),
    ensures
        match (r, go_encl_name_spec(*t, i as int)) {
            (Some(a), Some(b)) => a@ == b,
            (None, None) => true,
            _ => false,
        },
{
    match go_enclosing_idx(t, i) {
        Some(fd) => match t.child_by_field(fd, "name") {
            Some(nm) => Some(t.text(nm)),
            None => None,
        },
        None => None,
    }
}

/// Extracts the parameters declared in the `parameters` list of node `i`.
fn go_scan_params(t: &SynTree, i: usize) -> (r: Vec<GoParam>)
    requires
        t.wf(),
        i < t.nodes@.len(),
    ensures
        r@.map_values(|p: GoParam| (p.name@, p.param_type@)) == go_params_of(*t, i as int),
{
    let n = t.len();
    let mut out: Vec<GoParam> = Vec::new();
    match t.child_by_field(i, "parameters") {
        Some(ps) => {
            let mut j: usize = ps + 1;
            while j < n
                invariant
                    t.wf(),
                    n == t.nodes@.len(),
                    j <= n,
                    ps < n,
                    ps + 1 <= j,
                    out@.map_values(|p: GoParam| (p.name@, p.param_type@)) + go_params_texts(
                        *t,
                        ps as int,
                        j as int,
                    ) =~= go_params_texts(*t, ps as int, ps + 1),
                decreases n - j,
            {
                if t.parent_of(j) == ps && t.kind_is(j, "parameter_declaration") {
                    let pname = match t.child_by_field(j, "name") {
                        Some(nm) => t.text(nm),
                        None => Vec::new(),
                    };
                    let ptype = match t.child_by_field(j, "type") {
                        Some(ty) => t.text(ty),
                        None => Vec::new(),
                    };
                    let ghost pprev = out@;
                    out.push(GoParam { name: pname, param_type: ptype });
                    proof {
                        assert(out@.map_values(|p: GoParam| (p.name@, p.param_type@))
                            =~= pprev.map_values(|p: GoParam| (p.name@, p.param_type@)) + seq![
                            (out@.last().name@, out@.last().param_type@),
                        ]);
                    }
                }
                j = j + 1;
            }
            proof {
                assert(go_params_texts(*t, ps as int, n as int) =~= Seq::<
                    (Seq<u8>, Seq<u8>),
                >::empty());
                assert(out@.map_values(|p: GoParam| (p.name@, p.param_type@)) =~= go_params_texts(
                    *t,
                    ps as int,
                    ps + 1,
                ));
            }
        },
        None => {
            proof {
                assert(out@.map_values(|p: GoParam| (p.name@, p.param_type@)) =~= Seq::<
                    (Seq<u8>, Seq<u8>),
                >::empty());
            }
        },
    }
    out
}

/// Extracts the declared result types of the function at node `i`.
fn go_scan_results(t: &SynTree, i: usize) -> (r: Vec<Vec<u8>>)
    requires
        t.wf(),
        i < t.nodes@.len(),
    ensures
        r@.map_values(|v: Vec<u8>| v@) == go_results_of(*t, i as int),
{
    let n = t.len();
    let mut out: Vec<Vec<u8>> = Vec::new();
    match t.child_by_field(i, "result") {
        Some(res) => {
            if t.kind_is(res, "parameter_list") {
                let mut j: usize = res + 1;
                while j < n
                    invariant
                        t.wf(),
                        n == t.nodes@.len(),
                        j <= n,
                        res < n,
                        res + 1 <= j,
                        t.kind_of(res as int) == crate::bytes::lit_bytes("parameter_list"),
                        out@.map_values(|v: Vec<u8>| v@) + go_result_texts(
                            *t,
                            res as int,
                            j as int,
                        ) =~= go_result_texts(*t, res as int, res + 1),
                    decreases n - j,
                {
                    if t.parent_of(j) == res && t.kind_is(j, "parameter_declaration") {
                        match t.child_by_field(j, "type") {
                            Some(ty) => {
                                let ghost pprev = out@;
                                out.push(t.text(ty));
                                proof {
                                    assert(out@.map_values(|v: Vec<u8>| v@) =~= pprev.map_values(
                                        |v: Vec<u8>| v@,
                                    ) + seq![out@.last()@]);
                                }
                            },
                            None => {},
                        }
                    }
                    j = j + 1;
                }
                proof {
                    assert(go_result_texts(*t, res as int, n as int) =~= Seq::<Seq<u8>>::empty());
                    assert(out@.map_values(|v: Vec<u8>| v@) =~= go_result_texts(
                        *t,
                        res as int,
                        res + 1,
                    ));
                }
            } else {
                out.push(t.text(res));
                proof {
                    assert(out@.map_values(|v: Vec<u8>| v@) =~= seq![t.text_of(res as int)]);
                }
            }
        },
        None => {
            proof {
                assert(out@.map_values(|v: Vec<u8>| v@) =~= Seq::<Seq<u8>>::empty());
            }
        },
    }
    out
}

/// Whether any declared result type is Go's `error`.
fn go_returns_error(rts: &Vec<Vec<u8>>) -> (r: bool)
    ensures
        r == exists|j: int|
            0 <= j < rts@.len() && (#[trigger] rts@[j])@ == crate::bytes::lit_bytes("error"),
{
    let n = rts.len();
    let mut i: usize = 0;
    while i < n
        invariant
            n == rts@.len(),
            i <= n,
            forall|j: int| 0 <= j < i ==> (#[trigger] rts@[j])@ != crate::bytes::lit_bytes("error"),
        decreases n - i,
    {
        if crate::bytes::bytes_eq_str(rts[i].as_slice(), "error") {
            return true;
        }
        i = i + 1;
    }
    false
}

/// The exact shape of one extracted Go call site at node `i`.
pub open spec fn go_call_site_rel(t: SynTree, i: int, site: GoCallSite) -> bool {
    let f = crate::syntree::child_by_field(t, i, crate::bytes::lit_bytes("function")).unwrap();
    &&& site.callee_expr@ == t.text_of(f)
    &&& site.line == t.nodes@[i].row + 1
    &&& site.column == t.nodes@[i].col + 1
    &&& site.start_byte == t.nodes@[i].start_byte
    &&& site.end_byte == t.nodes@[i].end_byte
}

/// The call sites extracted from the first `n` nodes of a Go tree, in
/// document order, following the extractor's branch order on node kinds.
pub open spec fn go_calls_scan(t: SynTree, n: int, out: Seq<GoCallSite>) -> bool
    decreases n
        when 0 <= n <= t.nodes@.len()
{
    if n == 0 {
        out.len() == 0
    } else {
        let i = n - 1;
        if t.kind_of(i) == crate::bytes::lit_bytes("import_spec") || t.kind_of(i)
            == crate::bytes::lit_bytes("function_declaration") || t.kind_of(i)
            == crate::bytes::lit_bytes("method_declaration") {
            go_calls_scan(t, i, out)
        } else if t.kind_of(i) == crate::bytes::lit_bytes("call_expression")
            && crate::syntree::child_by_field(
            t,
            i,
            crate::bytes::lit_bytes("function"),
        ).is_some() {
            out.len() > 0 && go_calls_scan(t, i, out.drop_last()) && go_call_site_rel(
                t,
                i,
                out.last(),
            )
        } else {
            go_calls_scan(t, i, out)
        }
    }
}

/// The receiver text of the selector node `f`, or empty without one.
pub open spec fn go_sel_object(t: SynTree, f: int) -> Seq<u8> {
    match crate::syntree::child_by_field(t, f, crate::bytes::lit_bytes("operand")) {
        Some(o) => t.text_of(o),
        None => Seq::empty(),
    }
}

/// The field text of the selector node `f`, or empty without one.
pub open spec fn go_sel_field(t: SynTree, f: int) -> Seq<u8> {
    match crate::syntree::child_by_field(t, f, crate::bytes::lit_bytes("field")) {
        Some(m) => t.text_of(m),
        None => Seq::empty(),
    }
}

/// Whether a selector field names a mutex lock or unlock method.
pub open spec fn go_is_lock_name(meth: Seq<u8>) -> bool {
    ||| meth == crate::bytes::lit_bytes("Lock")
    ||| meth == crate::bytes::lit_bytes("RLock")
    ||| meth == crate::bytes::lit_bytes("Unlock")
    ||| meth == crate::bytes::lit_bytes("RUnlock")
}

/// The HTTP client library a Go receiver names, if any.
pub open spec fn go_client_spec(obj: Seq<u8>) -> Option<GoHttpClientKind> {
    if obj == crate::bytes::lit_bytes("http") {
        Some(GoHttpClientKind::NetHttp)
    } else if obj == crate::bytes::lit_bytes("resty") {
        Some(GoHttpClientKind::Resty)
    } else if obj == crate::bytes::lit_bytes("fasthttp") {
        Some(GoHttpClientKind::Fasthttp)
    } else if obj == crate::bytes::lit_bytes("fiber") {
        Some(GoHttpClientKind::Fiber)
    } else if obj == crate::bytes::lit_bytes("client") {
        Some(GoHttpClientKind::NetHttp)
    } else {
        None
    }
}

/// Position, byte range, text and enclosing-function fields shared by the
/// Go concurrency records emitted at node `i`.
pub open spec fn go_at_node_rel(
    t: SynTree,
    i: int,
    text: Seq<u8>,
    l: AstLocation,
    fname: Option<Vec<u8>>,
    sb: usize,
    eb: usize,
) -> bool {
    &&& text == t.text_of(i)
    &&& l.start_line == t.nodes@[i].row
    &&& l.start_col == t.nodes@[i].col
    &&& (match (fname, go_encl_name_spec(t, i)) {
        (Some(a), Some(b)) => a@ == b,
        (None, None) => true,
        _ => false,
    })
    &&& sb == t.nodes@[i].start_byte
    &&& eb == t.nodes@[i].end_byte
}

/// The exact shape of the goroutine record emitted at node `i`.
pub open spec fn go_gor_rel(t: SynTree, i: int, g: Goroutine) -> bool {
    &&& g.has_recover == crate::bytes::contains_seq(t.text_of(i), crate::bytes::lit_bytes("recover("))
    &&& g.has_context_param == crate::bytes::contains_seq(
        t.text_of(i),
        crate::bytes::lit_bytes("context.Context"),
    )
    &&& g.has_done_channel == (crate::bytes::contains_seq(
        t.text_of(i),
        crate::bytes::lit_bytes("Done()"),
    ) || crate::bytes::contains_seq(t.text_of(i), crate::bytes::lit_bytes("<-done")))
    &&& go_at_node_rel(t, i, g.text@, g.location, g.function_name, g.start_byte, g.end_byte)
}

/// The exact shape of a channel record of kind `k` emitted at node `i`.
pub open spec fn go_chan_rel(t: SynTree, i: int, k: ChannelOpKind, ch: ChannelOp) -> bool {
    &&& ch.kind == k
    &&& go_at_node_rel(t, i, ch.text@, ch.location, ch.function_name, ch.start_byte, ch.end_byte)
}

/// The exact shape of the `select` record emitted at node `i`.
pub open spec fn go_select_rel(t: SynTree, i: int, st: SelectStatement) -> bool {
    &&& st.is_cancellation_pattern == crate::bytes::contains_seq(
        t.text_of(i),
        crate::bytes::lit_bytes(".Done()"),
    )
    &&& go_at_node_rel(t, i, st.text@, st.location, st.function_name, st.start_byte, st.end_byte)
}

/// The exact shape of the `defer` record emitted at node `i`.
pub open spec fn go_defer_stmt_rel(t: SynTree, i: int, d: DeferStatement) -> bool {
    &&& d.is_resource_cleanup == (crate::bytes::contains_seq(
        t.text_of(i),
        crate::bytes::lit_bytes(".Close()"),
    ) || crate::bytes::contains_seq(t.text_of(i), crate::bytes::lit_bytes(".Unlock()"))
        || crate::bytes::contains_seq(t.text_of(i), crate::bytes::lit_bytes(".Done()")))
    &&& go_at_node_rel(t, i, d.text@, d.location, d.function_name, d.start_byte, d.end_byte)
}

/// The exact shape of the mutex record emitted at call node `i` through
/// the selector node `f`.
pub open spec fn go_mutex_rel(t: SynTree, i: int, m: MutexOperation) -> bool {
    let f = crate::syntree::child_by_field(t, i, crate::bytes::lit_bytes("function")).unwrap();
    &&& m.operation_type@ == go_sel_field(t, f)
    &&& m.uses_defer_unlock == (crate::bytes::contains_seq(
        go_encl_text_spec(t, i),
        crate::bytes::lit_bytes("defer"),
    ) && crate::bytes::contains_seq(go_encl_text_spec(t, i), crate::bytes::lit_bytes(".Unlock()")))
    &&& go_at_node_rel(
        t,
        i,
        m.text@,
        m.location,
        m.function_name,
        m.lock_start_byte,
        m.lock_end_byte,
    )
}

/// The exact shape of the HTTP site emitted at call node `i` through the
/// selector node `f`.
pub open spec fn go_http_rel(t: SynTree, i: int, h: GoHttpCallSite) -> bool {
    let f = crate::syntree::child_by_field(t, i, crate::bytes::lit_bytes("function")).unwrap();
    &&& h.client_kind == go_client_spec(go_sel_object(t, f)).unwrap()
    &&& h.method_name@ == go_sel_field(t, f)
    &&& h.has_timeout == crate::bytes::contains_seq(
        t.text_of(i),
        crate::bytes::lit_bytes("Timeout"),
    )
    &&& go_at_node_rel(t, i, h.call_text@, h.location, h.function_name, h.start_byte, h.end_byte)
}

/// Node `i` is a `close(...)` call.
pub open spec fn go_close_cond(t: SynTree, i: int) -> bool {
    let f = crate::syntree::child_by_field(t, i, crate::bytes::lit_bytes("function")).unwrap();
    t.kind_of(f) == crate::bytes::lit_bytes("identifier") && t.text_of(f) == crate::bytes::lit_bytes(
        "close",
    )
}

/// Node `i` is a call through a selector whose field names a lock method.
pub open spec fn go_lock_cond(t: SynTree, i: int) -> bool {
    let f = crate::syntree::child_by_field(t, i, crate::bytes::lit_bytes("function")).unwrap();
    !(t.kind_of(f) == crate::bytes::lit_bytes("identifier")) && t.kind_of(f)
        == crate::bytes::lit_bytes("selector_expression") && go_is_lock_name(go_sel_field(t, f))
}

/// Node `i` is a call through a selector whose receiver names a client.
pub open spec fn go_http_cond(t: SynTree, i: int) -> bool {
    let f = crate::syntree::child_by_field(t, i, crate::bytes::lit_bytes("function")).unwrap();
    !(t.kind_of(f) == crate::bytes::lit_bytes("identifier")) && t.kind_of(f)
        == crate::bytes::lit_bytes("selector_expression") && !go_is_lock_name(go_sel_field(t, f))
        && go_client_spec(go_sel_object(t, f)).is_some()
}

/// Which of the framework branches node `i` falls into, following the
/// extractor's branch order on node kinds.
pub open spec fn go_fw_case(t: SynTree, i: int) -> int {
    if t.kind_of(i) == crate::bytes::lit_bytes("go_statement") {
        1int
    } else if t.kind_of(i) == crate::bytes::lit_bytes("send_statement") {
        2int
    } else if t.kind_of(i) == crate::bytes::lit_bytes("unary_expression") {
        if crate::bytes::has_prefix(t.text_of(i), crate::bytes::lit_bytes("<-")) {
            3int
        } else {
            0int
        }
    } else if t.kind_of(i) == crate::bytes::lit_bytes("select_statement") {
        4int
    } else if t.kind_of(i) == crate::bytes::lit_bytes("defer_statement") {
        5int
    } else if t.kind_of(i) == crate::bytes::lit_bytes("call_expression")
        && crate::syntree::child_by_field(t, i, crate::bytes::lit_bytes("function")).is_some() {
        if go_close_cond(t, i) {
            6int
        } else if go_lock_cond(t, i) {
            7int
        } else if go_http_cond(t, i) {
            8int
        } else {
            0int
        }
    } else {
        0int
    }
}

/// The goroutine records emitted from the first `n` nodes.
pub open spec fn go_gor_scan(t: SynTree, n: int, out: Seq<Goroutine>) -> bool
    decreases n
        when 0 <= n <= t.nodes@.len()
{
    if n == 0 {
        out.len() == 0
    } else if go_fw_case(t, n - 1) == 1 {
        out.len() > 0 && go_gor_scan(t, n - 1, out.drop_last()) && go_gor_rel(t, n - 1, out.last())
    } else {
        go_gor_scan(t, n - 1, out)
    }
}

/// The channel records emitted from the first `n` nodes: sends, receives
/// and closes, in document order.
pub open spec fn go_chan_scan(t: SynTree, n: int, out: Seq<ChannelOp>) -> bool
    decreases n
        when 0 <= n <= t.nodes@.len()
{
    if n == 0 {
        out.len() == 0
    } else if go_fw_case(t, n - 1) == 2 {
        out.len() > 0 && go_chan_scan(t, n - 1, out.drop_last()) && go_chan_rel(
            t,
            n - 1,
            ChannelOpKind::Send,
            out.last(),
        )
    } else if go_fw_case(t, n - 1) == 3 {
        out.len() > 0 && go_chan_scan(t, n - 1, out.drop_last()) && go_chan_rel(
            t,
            n - 1,
            ChannelOpKind::Receive,
            out.last(),
        )
    } else if go_fw_case(t, n - 1) == 6 {
        out.len() > 0 && go_chan_scan(t, n - 1, out.drop_last()) && go_chan_rel(
            t,
            n - 1,
            ChannelOpKind::Close,
            out.last(),
        )
    } else {
        go_chan_scan(t, n - 1, out)
    }
}

/// The `select` records emitted from the first `n` nodes.
pub open spec fn go_select_scan(t: SynTree, n: int, out: Seq<SelectStatement>) -> bool
    decreases n
        when 0 <= n <= t.nodes@.len()
{
    if n == 0 {
        out.len() == 0
    } else if go_fw_case(t, n - 1) == 4 {
        out.len() > 0 && go_select_scan(t, n - 1, out.drop_last()) && go_select_rel(
            t,
            n - 1,
            out.last(),
        )
    } else {
        go_select_scan(t, n - 1, out)
    }
}

/// The `defer` records emitted from the first `n` nodes.
pub open spec fn go_defer_scan(t: SynTree, n: int, out: Seq<DeferStatement>) -> bool
    decreases n
        when 0 <= n <= t.nodes@.len()
{
    if n == 0 {
        out.len() == 0
    } else if go_fw_case(t, n - 1) == 5 {
        out.len() > 0 && go_defer_scan(t, n - 1, out.drop_last()) && go_defer_stmt_rel(
            t,
            n - 1,
            out.last(),
        )
    } else {
        go_defer_scan(t, n - 1, out)
    }
}

/// The mutex records emitted from the first `n` nodes.
pub open spec fn go_mutex_scan(t: SynTree, n: int, out: Seq<MutexOperation>) -> bool
    decreases n
        when 0 <= n <= t.nodes@.len()
{
    if n == 0 {
        out.len() == 0
    } else if go_fw_case(t, n - 1) == 7 {
        out.len() > 0 && go_mutex_scan(t, n - 1, out.drop_last()) && go_mutex_rel(
            t,
            n - 1,
            out.last(),
        )
    } else {
        go_mutex_scan(t, n - 1, out)
    }
}

/// The HTTP sites emitted from the first `n` nodes.
pub open spec fn go_http_scan(t: SynTree, n: int, out: Seq<GoHttpCallSite>) -> bool
    decreases n
        when 0 <= n <= t.nodes@.len()
{
    if n == 0 {
        out.len() == 0
    } else if go_fw_case(t, n - 1) == 8 {
        out.len() > 0 && go_http_scan(t, n - 1, out.drop_last()) && go_http_rel(
            t,
            n - 1,
            out.last(),
        )
    } else {
        go_http_scan(t, n - 1, out)
    }
}

/// The parameter name and type pairs collected from the children of the
/// parameter list node `ps`, at or after index `j`.
pub open spec fn go_params_texts(t: SynTree, ps: int, j: int) -> Seq<(Seq<u8>, Seq<u8>)>
    decreases t.nodes@.len() - j
        when 0 <= j <= t.nodes@.len()
{
    if j >= t.nodes@.len() {
        Seq::empty()
    } else if t.nodes@[j].parent == ps && j != ps && t.kind_of(j) == crate::bytes::lit_bytes(
        "parameter_declaration",
    ) {
        let pn = match crate::syntree::child_by_field(t, j, crate::bytes::lit_bytes("name")) {
            Some(nm) => t.text_of(nm),
            None => Seq::empty(),
        };
        let pt = match crate::syntree::child_by_field(t, j, crate::bytes::lit_bytes("type")) {
            Some(ty) => t.text_of(ty),
            None => Seq::empty(),
        };
        seq![(pn, pt)] + go_params_texts(t, ps, j + 1)
    } else {
        go_params_texts(t, ps, j + 1)
    }
}

/// The parameter pairs of the declaration at node `i`.
pub open spec fn go_params_of(t: SynTree, i: int) -> Seq<(Seq<u8>, Seq<u8>)> {
    match crate::syntree::child_by_field(t, i, crate::bytes::lit_bytes("parameters")) {
        Some(ps) => go_params_texts(t, ps, ps + 1),
        None => Seq::empty(),
    }
}

/// The result types collected from the children of the result parameter
/// list node `res`, at or after index `j`.
pub open spec fn go_result_texts(t: SynTree, res: int, j: int) -> Seq<Seq<u8>>
    decreases t.nodes@.len() - j
        when 0 <= j <= t.nodes@.len()
{
    if j >= t.nodes@.len() {
        Seq::empty()
    } else if t.nodes@[j].parent == res && j != res && t.kind_of(j) == crate::bytes::lit_bytes(
        "parameter_declaration",
    ) {
        match crate::syntree::child_by_field(t, j, crate::bytes::lit_bytes("type")) {
            Some(ty) => seq![t.text_of(ty)] + go_result_texts(t, res, j + 1),
            None => go_result_texts(t, res, j + 1),
        }
    } else {
        go_result_texts(t, res, j + 1)
    }
}

/// The declared result types of the declaration at node `i`.
pub open spec fn go_results_of(t: SynTree, i: int) -> Seq<Seq<u8>> {
    match crate::syntree::child_by_field(t, i, crate::bytes::lit_bytes("result")) {
        Some(res) => if t.kind_of(res) == crate::bytes::lit_bytes("parameter_list") {
            go_result_texts(t, res, res + 1)
        } else {
            seq![t.text_of(res)]
        },
        None => Seq::empty(),
    }
}

/// The receiver of the method at node `i`: whether it is a pointer, and
/// the receiver type text.
pub open spec fn go_recv_spec(t: SynTree, i: int) -> (bool, Seq<u8>) {
    match crate::syntree::child_by_field(t, i, crate::bytes::lit_bytes("receiver")) {
        Some(rv) => match crate::syntree::child_by_kind(
            t,
            rv,
            crate::bytes::lit_bytes("parameter_declaration"),
        ) {
            Some(pd) => match crate::syntree::child_by_field(
                t,
                pd,
                crate::bytes::lit_bytes("type"),
            ) {
                Some(ty) => if t.kind_of(ty) == crate::bytes::lit_bytes("pointer_type") {
                    match crate::syntree::child_by_kind(
                        t,
                        ty,
                        crate::bytes::lit_bytes("type_identifier"),
                    ) {
                        Some(ti) => (true, t.text_of(ti)),
                        None => (true, t.text_of(ty)),
                    }
                } else {
                    (false, t.text_of(ty))
                },
                None => (false, Seq::empty()),
            },
            None => (false, Seq::empty()),
        },
        None => (false, Seq::empty()),
    }
}

/// The exact shape of the import record extracted at node `i`.
pub open spec fn go_import_rel(t: SynTree, i: int, imp: GoImport) -> bool {
    let p = crate::syntree::child_by_field(t, i, crate::bytes::lit_bytes("path")).unwrap();
    &&& imp.path@ == strip_quotes_spec(t.text_of(p))
    &&& (match (imp.alias, crate::syntree::child_by_field(t, i, crate::bytes::lit_bytes("name"))) {
        (Some(a), Some(an)) => a@ == t.text_of(an),
        (None, None) => true,
        _ => false,
    })
    &&& imp.location.start_line == t.nodes@[i].row
    &&& imp.location.start_col == t.nodes@[i].col
}

/// The shared fields of a function or method record extracted at node `i`.
pub open spec fn go_decl_rel(
    t: SynTree,
    i: int,
    name: Seq<u8>,
    params: Seq<crate::golang::GoParam>,
    rts: Seq<Vec<u8>>,
    re: bool,
    l: AstLocation,
    sb: usize,
    eb: usize,
) -> bool {
    let nm = crate::syntree::child_by_field(t, i, crate::bytes::lit_bytes("name")).unwrap();
    &&& name == t.text_of(nm)
    &&& params.map_values(|p: GoParam| (p.name@, p.param_type@)) == go_params_of(t, i)
    &&& rts.map_values(|v: Vec<u8>| v@) == go_results_of(t, i)
    &&& re == (exists|j: int|
        0 <= j < rts.len() && (#[trigger] rts[j])@ == crate::bytes::lit_bytes("error"))
    &&& l.start_line == t.nodes@[i].row
    &&& l.start_col == t.nodes@[i].col
    &&& sb == t.nodes@[i].start_byte
    &&& eb == t.nodes@[i].end_byte
}

/// The exact shape of the function record extracted at node `i`.
pub open spec fn go_fun_rel(t: SynTree, i: int, f: GoFunction) -> bool {
    go_decl_rel(
        t,
        i,
        f.name@,
        f.params@,
        f.return_types@,
        f.returns_error,
        f.location,
        f.start_byte,
        f.end_byte,
    )
}

/// The exact shape of the method record extracted at node `i`.
pub open spec fn go_method_rel(t: SynTree, i: int, m: GoMethod) -> bool {
    &&& go_decl_rel(
        t,
        i,
        m.name@,
        m.params@,
        m.return_types@,
        m.returns_error,
        m.location,
        m.start_byte,
        m.end_byte,
    )
    &&& m.receiver_is_pointer == go_recv_spec(t, i).0
    &&& m.receiver_type@ == go_recv_spec(t, i).1
}

/// The import records extracted from the first `n` nodes, following the
/// extractor's branch order on node kinds.
pub open spec fn go_imports_scan(t: SynTree, n: int, out: Seq<GoImport>) -> bool
    decreases n
        when 0 <= n <= t.nodes@.len()
{
    if n == 0 {
        out.len() == 0
    } else {
        let i = n - 1;
        if t.kind_of(i) == crate::bytes::lit_bytes("import_spec") {
            if crate::syntree::child_by_field(t, i, crate::bytes::lit_bytes("path")).is_some()
                && strip_quotes_spec(
                t.text_of(
                    crate::syntree::child_by_field(t, i, crate::bytes::lit_bytes("path")).unwrap(),
                ),
            ).len() > 0 {
                out.len() > 0 && go_imports_scan(t, i, out.drop_last()) && go_import_rel(
                    t,
                    i,
                    out.last(),
                )
            } else {
                go_imports_scan(t, i, out)
            }
        } else {
            go_imports_scan(t, i, out)
        }
    }
}

/// The function records extracted from the first `n` nodes.
pub open spec fn go_functions_scan(t: SynTree, n: int, out: Seq<GoFunction>) -> bool
    decreases n
        when 0 <= n <= t.nodes@.len()
{
    if n == 0 {
        out.len() == 0
    } else {
        let i = n - 1;
        if t.kind_of(i) == crate::bytes::lit_bytes("import_spec") {
            go_functions_scan(t, i, out)
        } else if t.kind_of(i) == crate::bytes::lit_bytes("function_declaration") {
            if crate::syntree::child_by_field(t, i, crate::bytes::lit_bytes("name")).is_some() {
                out.len() > 0 && go_functions_scan(t, i, out.drop_last()) && go_fun_rel(
                    t,
                    i,
                    out.last(),
                )
            } else {
                go_functions_scan(t, i, out)
            }
        } else {
            go_functions_scan(t, i, out)
        }
    }
}

/// The method records extracted from the first `n` nodes.
pub open spec fn go_methods_scan(t: SynTree, n: int, out: Seq<GoMethod>) -> bool
    decreases n
        when 0 <= n <= t.nodes@.len()
{
    if n == 0 {
        out.len() == 0
    } else {
        let i = n - 1;
        if t.kind_of(i) == crate::bytes::lit_bytes("import_spec") || t.kind_of(i)
            == crate::bytes::lit_bytes("function_declaration") {
            go_methods_scan(t, i, out)
        } else if t.kind_of(i) == crate::bytes::lit_bytes("method_declaration") {
            if crate::syntree::child_by_field(t, i, crate::bytes::lit_bytes("name")).is_some() {
                out.len() > 0 && go_methods_scan(t, i, out.drop_last()) && go_method_rel(
                    t,
                    i,
                    out.last(),
                )
            } else {
                go_methods_scan(t, i, out)
            }
        } else {
            go_methods_scan(t, i, out)
        }
    }
}

impl GoFileSemantics {
    /// Walks a parsed Go file and extracts imports, functions, methods and
    /// call sites.  Framework facts are left empty for the second pass.
    pub fn from_parsed(parsed: &ParsedFile) -> (r: GoFileSemantics)
        requires
            parsed.wf(),
        ensures
            r.wf(),
            r.file_id == parsed.file_id,
            r.path@ == parsed.path@,
            r.http_calls@.len() == 0,
            r.db_operations@.len() == 0,
            r.goroutines@.len() == 0,
            r.channel_ops@.len() == 0,
            r.select_statements@.len() == 0,
            r.mutex_operations@.len() == 0,
            r.defers@.len() == 0,
            go_calls_scan(parsed.tree, parsed.tree.nodes@.len() as int, r.calls@),
            go_imports_scan(parsed.tree, parsed.tree.nodes@.len() as int, r.imports@),
            go_functions_scan(parsed.tree, parsed.tree.nodes@.len() as int, r.functions@),
            go_methods_scan(parsed.tree, parsed.tree.nodes@.len() as int, r.methods@),
            go_structural_post(*parsed, r),
    {
        let t = &parsed.tree;
        let n = t.len();
        let mut imports: Vec<GoImport> = Vec::new();
        let mut functions: Vec<GoFunction> = Vec::new();
        let mut methods: Vec<GoMethod> = Vec::new();
        let mut calls: Vec<GoCallSite> = Vec::new();
        let mut i: usize = 0;
        while i < n
            invariant
                t.wf(),
                n == t.nodes@.len(),
                i <= n,
                forall|j: int| 0 <= j < imports@.len() ==> go_import_wf(#[trigger] imports@[j]),
                forall|j: int| 0 <= j < functions@.len() ==> go_fun_wf(#[trigger] functions@[j]),
                forall|j: int| 0 <= j < methods@.len() ==> go_method_wf(#[trigger] methods@[j]),
                forall|j: int| 0 <= j < calls@.len() ==> go_call_wf(#[trigger] calls@[j]),
                go_calls_scan(*t, i as int, calls@),
                go_imports_scan(*t, i as int, imports@),
                go_functions_scan(*t, i as int, functions@),
                go_methods_scan(*t, i as int, methods@),
            decreases n - i,
        {
            proof {
                assert(crate::syntree::node_wf(
                    t.nodes@[i as int],
                    i as int,
                    t.source@.len() as int,
                ));
            }
            if t.kind_is(i, "import_spec") {
                match t.child_by_field(i, "path") {
                    Some(p) => {
                        let raw = t.text(p);
                        let path = strip_quotes(raw.as_slice());
                        let alias = match t.child_by_field(i, "name") {
                            Some(a) => Some(t.text(a)),
                            None => None,
                        };
                        if path.len() > 0 {
                            let ghost prev = imports@;
                            imports.push(GoImport { path, alias, location: t.loc_at(i) });
                            proof {
                                assert(imports@.drop_last() =~= prev);
                                assert(go_import_rel(*t, i as int, imports@.last()));
                            }
                        }
                    },
                    None => {},
                }
            } else if t.kind_is(i, "function_declaration") {
                match t.child_by_field(i, "name") {
                    Some(nm) => {
                        let rts = go_scan_results(t, i);
                        let re = go_returns_error(&rts);
                        let ghost prev = functions@;
                        functions.push(
                            GoFunction {
                                name: t.text(nm),
                                params: go_scan_params(t, i),
                                return_types: rts,
                                returns_error: re,
                                location: t.loc_at(i),
                                start_byte: t.start_of(i),
                                end_byte: t.end_of(i),
                            },
                        );
                        proof {
                            assert(functions@.drop_last() =~= prev);
                            assert(go_fun_rel(*t, i as int, functions@.last()));
                        }
                    },
                    None => {},
                }
            } else if t.kind_is(i, "method_declaration") {
                match t.child_by_field(i, "name") {
                    Some(nm) => {
                        let mut recv_type: Vec<u8> = Vec::new();
                        let mut recv_ptr: bool = false;
                        match t.child_by_field(i, "receiver") {
                            Some(rv) => {
                                match t.child_by_kind(rv, "parameter_declaration") {
                                    Some(pd) => {
                                        match t.child_by_field(pd, "type") {
                                            Some(ty) => {
                                                if t.kind_is(ty, "pointer_type") {
                                                    recv_ptr = true;
                                                    match t.child_by_kind(ty, "type_identifier") {
                                                        Some(ti) => {
                                                            recv_type = t.text(ti);
                                                        },
                                                        None => {
                                                            recv_type = t.text(ty);
                                                        },
                                                    }
                                                } else {
                                                    recv_type = t.text(ty);
                                                }
                                            },
                                            None => {},
                                        }
                                    },
                                    None => {},
                                }
                            },
                            None => {},
                        }
                        let rts = go_scan_results(t, i);
                        let re = go_returns_error(&rts);
                        let ghost prev = methods@;
                        methods.push(
                            GoMethod {
                                name: t.text(nm),
                                receiver_type: recv_type,
                                receiver_is_pointer: recv_ptr,
                                params: go_scan_params(t, i),
                                return_types: rts,
                                returns_error: re,
                                location: t.loc_at(i),
                                start_byte: t.start_of(i),
                                end_byte: t.end_of(i),
                            },
                        );
                        proof {
                            assert(methods@.drop_last() =~= prev);
                            assert(go_method_rel(*t, i as int, methods@.last()));
                        }
                    },
                    None => {},
                }
            } else if t.kind_is(i, "call_expression") {
                match t.child_by_field(i, "function") {
                    Some(f) => {
                        let loc = t.loc_at(i);
                        let ghost prev = calls@;
                        calls.push(
                            GoCallSite {
                                callee_expr: t.text(f),
                                line: loc.start_line + 1,
                                column: loc.start_col + 1,
                                start_byte: t.start_of(i),
                                end_byte: t.end_of(i),
                            },
                        );
                        proof {
                            assert(calls@.drop_last() =~= prev);
                        }
                    },
                    None => {},
                }
            }
            i = i + 1;
        }
        GoFileSemantics {
            file_id: parsed.file_id,
            path: crate::bytes::bytes_to_vec(parsed.path.as_slice()),
            imports,
            functions,
            methods,
            calls,
            http_calls: Vec::new(),
            db_operations: Vec::new(),
            goroutines: Vec::new(),
            channel_ops: Vec::new(),
            select_statements: Vec::new(),
            mutex_operations: Vec::new(),
            defers: Vec::new(),
        }
    }

    /// Second pass: fills HTTP calls, goroutines, channel operations,
    /// `select` statements, mutex operations and `defer` statements.
    /// The structural facts are left untouched.  This pass cannot fail.
    #[verifier::rlimit(100)]
    pub fn analyze_frameworks(&mut self, parsed: &ParsedFile) -> (r: Result<(), SemanticsError>)
        requires
            parsed.wf(),
            old(self).wf(),
        ensures
            final(self).wf(),
            final(self).imports == old(self).imports,
            final(self).functions == old(self).functions,
            final(self).methods == old(self).methods,
            final(self).calls == old(self).calls,
            final(self).file_id == old(self).file_id,
            final(self).path == old(self).path,
            final(self).db_operations == old(self).db_operations,
            r.is_ok(),
            go_gor_scan(parsed.tree, parsed.tree.nodes@.len() as int, final(self).goroutines@),
            go_chan_scan(parsed.tree, parsed.tree.nodes@.len() as int, final(self).channel_ops@),
            go_select_scan(
                parsed.tree,
                parsed.tree.nodes@.len() as int,
                final(self).select_statements@,
            ),
            go_mutex_scan(
                parsed.tree,
                parsed.tree.nodes@.len() as int,
                final(self).mutex_operations@,
            ),
            go_defer_scan(parsed.tree, parsed.tree.nodes@.len() as int, final(self).defers@),
            go_http_scan(parsed.tree, parsed.tree.nodes@.len() as int, final(self).http_calls@),
    {
        let t = &parsed.tree;
        let n = t.len();
        let mut http: Vec<GoHttpCallSite> = Vec::new();
        let mut gos: Vec<Goroutine> = Vec::new();
        let mut chans: Vec<ChannelOp> = Vec::new();
        let mut sels: Vec<SelectStatement> = Vec::new();
        let mut mutexes: Vec<MutexOperation> = Vec::new();
        let mut defers: Vec<DeferStatement> = Vec::new();
        let mut i: usize = 0;
        while i < n
            invariant
                t.wf(),
                n == t.nodes@.len(),
                i <= n,
                forall|j: int| 0 <= j < http@.len() ==> go_http_wf(#[trigger] http@[j]),
                forall|j: int|
                    0 <= j < gos@.len() ==> go_range_wf(
                        (#[trigger] gos@[j]).location,
                        gos@[j].start_byte,
                        gos@[j].end_byte,
                    ),
                forall|j: int|
                    0 <= j < chans@.len() ==> go_range_wf(
                        (#[trigger] chans@[j]).location,
                        chans@[j].start_byte,
                        chans@[j].end_byte,
                    ),
                forall|j: int|
                    0 <= j < sels@.len() ==> go_range_wf(
                        (#[trigger] sels@[j]).location,
                        sels@[j].start_byte,
                        sels@[j].end_byte,
                    ),
                forall|j: int|
                    0 <= j < mutexes@.len() ==> go_range_wf(
                        (#[trigger] mutexes@[j]).location,
                        mutexes@[j].lock_start_byte,
                        mutexes@[j].lock_end_byte,
                    ),
                forall|j: int|
                    0 <= j < defers@.len() ==> go_range_wf(
                        (#[trigger] defers@[j]).location,
                        defers@[j].start_byte,
                        defers@[j].end_byte,
                    ),
                go_gor_scan(*t, i as int, gos@),
                go_chan_scan(*t, i as int, chans@),
                go_select_scan(*t, i as int, sels@),
                go_mutex_scan(*t, i as int, mutexes@),
                go_defer_scan(*t, i as int, defers@),
                go_http_scan(*t, i as int, http@),
            decreases n - i,
        {
            proof {
                assert(crate::syntree::node_wf(
                    t.nodes@[i as int],
                    i as int,
                    t.source@.len() as int,
                ));
            }
            if t.kind_is(i, "go_statement") {
                let text = t.text(i);
                let ghost prevg = gos@;
                gos.push(
                    Goroutine {
                        has_recover: contains_lit(text.as_slice(), "recover("),
                        has_context_param: contains_lit(text.as_slice(), "context.Context"),
                        has_done_channel: contains_lit(text.as_slice(), "Done()") || contains_lit(
                            text.as_slice(),
                            "<-done",
                        ),
                        text,
                        location: t.loc_at(i),
                        function_name: go_enclosing_name(t, i),
                        start_byte: t.start_of(i),
                        end_byte: t.end_of(i),
                    },
                );
                proof {
                    assert(gos@.drop_last() =~= prevg);
                    assert(go_gor_rel(*t, i as int, gos@.last()));
                }
            } else if t.kind_is(i, "send_statement") {
                let ghost prevc = chans@;
                chans.push(
                    ChannelOp {
                        kind: ChannelOpKind::Send,
                        text: t.text(i),
                        location: t.loc_at(i),
                        function_name: go_enclosing_name(t, i),
                        start_byte: t.start_of(i),
                        end_byte: t.end_of(i),
                    },
                );
                proof {
                    assert(chans@.drop_last() =~= prevc);
                }
            } else if t.kind_is(i, "unary_expression") {
                let text = t.text(i);
                if starts_with_lit(text.as_slice(), "<-") {
                    let ghost prevc = chans@;
                    chans.push(
                        ChannelOp {
                            kind: ChannelOpKind::Receive,
                            text,
                            location: t.loc_at(i),
                            function_name: go_enclosing_name(t, i),
                            start_byte: t.start_of(i),
                            end_byte: t.end_of(i),
                        },
                    );
                    proof {
                        assert(chans@.drop_last() =~= prevc);
                    }
                }
            } else if t.kind_is(i, "select_statement") {
                let text = t.text(i);
                let ghost prevs = sels@;
                sels.push(
                    SelectStatement {
                        is_cancellation_pattern: contains_lit(text.as_slice(), ".Done()"),
                        text,
                        location: t.loc_at(i),
                        function_name: go_enclosing_name(t, i),
                        start_byte: t.start_of(i),
                        end_byte: t.end_of(i),
                    },
                );
                proof {
                    assert(sels@.drop_last() =~= prevs);
                }
            } else if t.kind_is(i, "defer_statement") {
                let text = t.text(i);
                let cleanup = contains_lit(text.as_slice(), ".Close()") || contains_lit(
                    text.as_slice(),
                    ".Unlock()",
                ) || contains_lit(text.as_slice(), ".Done()");
                let ghost prevd = defers@;
                defers.push(
                    DeferStatement {
                        is_resource_cleanup: cleanup,
                        text,
                        location: t.loc_at(i),
                        function_name: go_enclosing_name(t, i),
                        start_byte: t.start_of(i),
                        end_byte: t.end_of(i),
                    },
                );
                proof {
                    assert(defers@.drop_last() =~= prevd);
                }
            } else if t.kind_is(i, "call_expression") {
                match t.child_by_field(i, "function") {
                    Some(f) => {
                        if t.kind_is(f, "identifier") {
                            let ftxt = t.text(f);
                            if crate::bytes::bytes_eq_str(ftxt.as_slice(), "close") {
                                let ghost prevc = chans@;
                                chans.push(
                                    ChannelOp {
                                        kind: ChannelOpKind::Close,
                                        text: t.text(i),
                                        location: t.loc_at(i),
                                        function_name: go_enclosing_name(t, i),
                                        start_byte: t.start_of(i),
                                        end_byte: t.end_of(i),
                                    },
                                );
                                proof {
                                    assert(chans@.drop_last() =~= prevc);
                                    assert(go_close_cond(*t, i as int));
                                }
                            }
                        } else if t.kind_is(f, "selector_expression") {
                            let obj = match t.child_by_field(f, "operand") {
                                Some(o) => t.text(o),
                                None => Vec::new(),
                            };
                            let meth = match t.child_by_field(f, "field") {
                                Some(m) => t.text(m),
                                None => Vec::new(),
                            };
                            let is_lock = crate::bytes::bytes_eq_str(meth.as_slice(), "Lock")
                                || crate::bytes::bytes_eq_str(meth.as_slice(), "RLock")
                                || crate::bytes::bytes_eq_str(meth.as_slice(), "Unlock")
                                || crate::bytes::bytes_eq_str(meth.as_slice(), "RUnlock");
                            if is_lock {
                                let fn_text: Vec<u8> = match go_enclosing_idx(t, i) {
                                    Some(fd) => t.text(fd),
                                    None => Vec::new(),
                                };
                                let uses_defer = contains_lit(fn_text.as_slice(), "defer")
                                    && contains_lit(fn_text.as_slice(), ".Unlock()");
                                let ghost prevm = mutexes@;
                                mutexes.push(
                                    MutexOperation {
                                        operation_type: meth,
                                        uses_defer_unlock: uses_defer,
                                        text: t.text(i),
                                        location: t.loc_at(i),
                                        function_name: go_enclosing_name(t, i),
                                        lock_start_byte: t.start_of(i),
                                        lock_end_byte: t.end_of(i),
                                    },
                                );
                                proof {
                                    assert(mutexes@.drop_last() =~= prevm);
                                    assert(go_mutex_rel(*t, i as int, mutexes@.last()));
                                }
                            } else {
                                let kind_opt: Option<GoHttpClientKind> =
                                    if crate::bytes::bytes_eq_str(obj.as_slice(), "http") {
                                    Some(GoHttpClientKind::NetHttp)
                                } else if crate::bytes::bytes_eq_str(obj.as_slice(), "resty") {
                                    Some(GoHttpClientKind::Resty)
                                } else if crate::bytes::bytes_eq_str(obj.as_slice(), "fasthttp") {
                                    Some(GoHttpClientKind::Fasthttp)
                                } else if crate::bytes::bytes_eq_str(obj.as_slice(), "fiber") {
                                    Some(GoHttpClientKind::Fiber)
                                } else if crate::bytes::bytes_eq_str(obj.as_slice(), "client") {
                                    Some(GoHttpClientKind::NetHttp)
                                } else {
                                    None
                                };
                                match kind_opt {
                                    Some(ck) => {
                                        let call_text = t.text(i);
                                        let has_timeout = contains_lit(
                                            call_text.as_slice(),
                                            "Timeout",
                                        );
                                        let ghost prevh = http@;
                                        http.push(
                                            GoHttpCallSite {
                                                client_kind: ck,
                                                method_name: meth,
                                                call_text,
                                                has_timeout,
                                                location: t.loc_at(i),
                                                function_name: go_enclosing_name(t, i),
                                                start_byte: t.start_of(i),
                                                end_byte: t.end_of(i),
                                            },
                                        );
                                        proof {
                                            assert(http@.drop_last() =~= prevh);
                                            assert(go_http_cond(*t, i as int));
                                            assert(go_http_rel(*t, i as int, http@.last()));
                                        }
                                    },
                                    None => {},
                                }
                            }
                        }
                    },
                    None => {},
                }
            }
            i = i + 1;
        }
        self.http_calls = http;
        self.goroutines = gos;
        self.channel_ops = chans;
        self.select_statements = sels;
        self.mutex_operations = mutexes;
        self.defers = defers;
        Ok(())
    }
}


/// The structural contract of `from_parsed` for Go: identity copied, the
/// four structural categories pinned by their scan relations, framework
/// categories left empty.
pub open spec fn go_structural_post(p: ParsedFile, r: GoFileSemantics) -> bool {
    &&& r.file_id == p.file_id
    &&& r.path@ == p.path@
    &&& go_imports_scan(p.tree, p.tree.nodes@.len() as int, r.imports@)
    &&& go_functions_scan(p.tree, p.tree.nodes@.len() as int, r.functions@)
    &&& go_methods_scan(p.tree, p.tree.nodes@.len() as int, r.methods@)
    &&& go_calls_scan(p.tree, p.tree.nodes@.len() as int, r.calls@)
    &&& r.http_calls@.len() == 0
    &&& r.db_operations@.len() == 0
}

} // verus!

