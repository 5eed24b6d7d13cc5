//! Cross-cutting laws of the extraction and normalization layers, stated
//! and proved over the conversion relations.

use vstd::prelude::*;
use crate::bytes::{last_ix, opt_bytes_eqv};
use crate::common::{FunctionCall, FunctionDef, Import, ImportStyle};
use crate::lang::FileId;
use crate::normalize::{call_conv_rel, call_split_rel, py_calls_sel, py_fun_conv, py_import_conv};
use crate::python::{PyCallSite, PyFileSemantics, PyFunction, PyImport};
use crate::syntree::{node_wf, SynTree};

verus! {

/// A shared call record was drawn from one of the first `n` source call
/// sites, one whose byte range lies inside `[s, e]`.
pub open spec fn drawn_from(all: Seq<PyCallSite>, n: int, s: usize, e: usize, c: FunctionCall) -> bool {
    exists|k: int|
        0 <= k < n && s <= (#[trigger] all[k]).start_byte && all[k].end_byte <= e && call_conv_rel(
            all[k].callee_expr@,
            all[k].line,
            all[k].column,
            c,
        )
}

/// Byte containment: every call attributed to a function was drawn from a
/// source call site whose byte range lies inside the function's byte
/// range, inclusive on both ends.
pub proof fn lemma_byte_containment(
    all: Seq<PyCallSite>,
    n: int,
    s: usize,
    e: usize,
    out: Seq<FunctionCall>,
)
    requires
        0 <= n <= all.len(),
        py_calls_sel(all, n, s, e, out),
    ensures
        forall|j: int| 0 <= j < out.len() ==> drawn_from(all, n, s, e, #[trigger] out[j]),
    decreases n,
{
    if n > 0 {
        if s <= all[n - 1].start_byte && all[n - 1].end_byte <= e {
            lemma_byte_containment(all, n - 1, s, e, out.drop_last());
            assert forall|j: int| 0 <= j < out.len() implies drawn_from(
                all,
                n,
                s,
                e,
                #[trigger] out[j],
            ) by {
                if j < out.len() - 1 {
                    assert(out.drop_last()[j] == out[j]);
                    assert(drawn_from(all, n - 1, s, e, out[j]));
                    let k = choose|k: int|
                        0 <= k < n - 1 && s <= (#[trigger] all[k]).start_byte && all[k].end_byte
                            <= e && call_conv_rel(
                            all[k].callee_expr@,
                            all[k].line,
                            all[k].column,
                            out[j],
                        );
                    assert(0 <= k < n && s <= all[k].start_byte && all[k].end_byte <= e
                        && call_conv_rel(all[k].callee_expr@, all[k].line, all[k].column, out[j]));
                } else {
                    assert(out.last() == out[j]);
                    assert(0 <= n - 1 < n && s <= all[n - 1].start_byte && all[n - 1].end_byte <= e
                        && call_conv_rel(
                        all[n - 1].callee_expr@,
                        all[n - 1].line,
                        all[n - 1].column,
                        out[j],
                    ));
                }
            }
        } else {
            lemma_byte_containment(all, n - 1, s, e, out);
            assert forall|j: int| 0 <= j < out.len() implies drawn_from(
                all,
                n,
                s,
                e,
                #[trigger] out[j],
            ) by {
                assert(drawn_from(all, n - 1, s, e, out[j]));
                let k = choose|k: int|
                    0 <= k < n - 1 && s <= (#[trigger] all[k]).start_byte && all[k].end_byte <= e
                        && call_conv_rel(all[k].callee_expr@, all[k].line, all[k].column, out[j]);
                assert(0 <= k < n && s <= all[k].start_byte && all[k].end_byte <= e
                    && call_conv_rel(all[k].callee_expr@, all[k].line, all[k].column, out[j]));
            }
        }
    }
}

/// Byte containment at the function level: a converted Python function
/// only carries calls drawn from source sites inside its own byte range.
pub proof fn lemma_function_byte_containment(
    f: PyFunction,
    fid: FileId,
    all: Seq<PyCallSite>,
    out: FunctionDef,
)
    requires
        py_fun_conv(f, fid, all, out),
    ensures
        forall|j: int|
            0 <= j < out.calls@.len() ==> drawn_from(
                all,
                all.len() as int,
                f.start_byte,
                f.end_byte,
                #[trigger] out.calls@[j],
            ),
{
    lemma_byte_containment(all, all.len() as int, f.start_byte, f.end_byte, out.calls@);
}

/// Location monotonicity at the tree level: in a well-formed tree every
/// node's byte range is ordered and lies within the source.
pub proof fn lemma_location_monotonic(t: SynTree, i: int)
    requires
        t.wf(),
        0 <= i < t.nodes@.len(),
    ensures
        t.nodes@[i].start_byte <= t.nodes@[i].end_byte,
        t.nodes@[i].end_byte <= t.source@.len(),
{
    assert(node_wf(t.nodes@[i], i, t.source@.len() as int));
}

/// Location monotonicity at the schema level: a converted Python function
/// has a 1-based line and column and an ordered byte range.
pub proof fn lemma_function_location(f: PyFunction, fid: FileId, all: Seq<PyCallSite>, out: FunctionDef)
    requires
        crate::python::py_fun_wf(f),
        py_fun_conv(f, fid, all, out),
    ensures
        out.location.line >= 1,
        out.location.column >= 1,
        out.start_byte <= out.end_byte,
{
}

/// Import totality: a normalized import has exactly one style and source
/// (they are single enum values), a non-empty module path, at least one
/// item when named, none when starred, and an alias when it is a default
/// import.
pub proof fn lemma_import_totality(imp: PyImport, fid: FileId, out: Import)
    requires
        crate::python::py_import_wf(imp),
        py_import_conv(imp, fid, out),
    ensures
        out.module@.len() > 0,
        out.style == ImportStyle::Named ==> out.items@.len() >= 1,
        out.style == ImportStyle::Star ==> out.items@.len() == 0,
        out.style == ImportStyle::Default ==> out.module_alias.is_some(),
        out.location.line >= 1,
        out.location.column >= 1,
{
}

/// The callee-splitting law: when the callee expression holds a dot, the
/// receiver, a dot and the callee recombine to the expression, and the
/// receiver splits at the rightmost dot; without a dot there is no
/// receiver and the callee is the whole expression.
pub proof fn lemma_callee_splitting(e: Seq<u8>, callee: Seq<u8>, receiver: Option<Vec<u8>>)
    requires
        call_split_rel(e, callee, receiver),
    ensures
        receiver.is_some() ==> receiver.unwrap()@ + seq![46u8] + callee =~= e,
        receiver.is_some() ==> exists|d: int| 0 <= d < e.len() && e[d] == 46,
        receiver.is_none() ==> callee == e && forall|d: int| 0 <= d < e.len() ==> e[d] != 46,
{
    crate::bytes::lemma_split_recombines(e, 46);
    match last_ix(e, 46) {
        Some(d) => {
            assert(e[d] == 46);
            assert(receiver.unwrap()@ + seq![46u8] + callee =~= e);
        },
        None => {},
    }
}

/// Two shared call records agree field for field.
pub open spec fn call_eqv(a: FunctionCall, b: FunctionCall) -> bool {
    &&& a.callee@ == b.callee@
    &&& a.callee_expr@ == b.callee_expr@
    &&& opt_bytes_eqv(a.receiver, b.receiver)
    &&& a.line == b.line
    &&& a.column == b.column
}

/// The call conversion is deterministic: two conversions of the same
/// expression agree field for field.
pub proof fn lemma_call_conv_deterministic(
    e: Seq<u8>,
    line: usize,
    col: usize,
    a: FunctionCall,
    b: FunctionCall,
)
    requires
        call_conv_rel(e, line, col, a),
        call_conv_rel(e, line, col, b),
    ensures
        call_eqv(a, b),
{
}

/// Call attribution is deterministic: two runs of the containment filter
/// over the same call list and byte range agree element for element.
pub proof fn lemma_calls_sel_deterministic(
    all: Seq<PyCallSite>,
    n: int,
    s: usize,
    e: usize,
    a: Seq<FunctionCall>,
    b: Seq<FunctionCall>,
)
    requires
        0 <= n <= all.len(),
        py_calls_sel(all, n, s, e, a),
        py_calls_sel(all, n, s, e, b),
    ensures
        a.len() == b.len(),
        forall|j: int| 0 <= j < a.len() ==> call_eqv(#[trigger] a[j], b[j]),
    decreases n,
{
    if n > 0 {
        if s <= all[n - 1].start_byte && all[n - 1].end_byte <= e {
            lemma_calls_sel_deterministic(all, n - 1, s, e, a.drop_last(), b.drop_last());
            lemma_call_conv_deterministic(
                all[n - 1].callee_expr@,
                all[n - 1].line,
                all[n - 1].column,
                a.last(),
                b.last(),
            );
            assert forall|j: int| 0 <= j < a.len() implies call_eqv(#[trigger] a[j], b[j]) by {
                if j < a.len() - 1 {
                    assert(a.drop_last()[j] == a[j]);
                    assert(b.drop_last()[j] == b[j]);
                } else {
                    assert(a.last() == a[j]);
                    assert(b.last() == b[j]);
                }
            }
        } else {
            lemma_calls_sel_deterministic(all, n - 1, s, e, a, b);
        }
    }
}

/// Two normalized imports agree field for field.
pub open spec fn import_eqv(a: Import, b: Import) -> bool {
    &&& a.module@ == b.module@
    &&& a.style == b.style
    &&& a.source == b.source
    &&& a.items@.len() == b.items@.len()
    &&& forall|k: int|
        0 <= k < a.items@.len() ==> (#[trigger] a.items@[k]).name@ == b.items@[k].name@
            && opt_bytes_eqv(a.items@[k].alias, b.items@[k].alias)
    &&& opt_bytes_eqv(a.module_alias, b.module_alias)
    &&& a.raw_text@ == b.raw_text@
    &&& a.is_type_only == b.is_type_only
    &&& a.is_dynamic == b.is_dynamic
    &&& a.location == b.location
}

/// Import normalization is deterministic: two conversions of the same
/// Python import agree field for field, so running the extraction twice on
/// the same parsed file yields the same normalized imports.
pub proof fn lemma_import_conv_deterministic(imp: PyImport, fid: FileId, a: Import, b: Import)
    requires
        py_import_conv(imp, fid, a),
        py_import_conv(imp, fid, b),
    ensures
        import_eqv(a, b),
{
    assert forall|k: int|
        0 <= k < a.items@.len() implies (#[trigger] a.items@[k]).name@ == b.items@[k].name@
        && opt_bytes_eqv(a.items@[k].alias, b.items@[k].alias) by {
        assert(a.items@[k].name@ == imp.names@[k]@);
        assert(b.items@[k].name@ == imp.names@[k]@);
    }
    assert(a.raw_text@ =~= b.raw_text@);
    assert(a.location.file_id == b.location.file_id && a.location.line == b.location.line
        && a.location.column == b.location.column && a.location.start_byte
        == b.location.start_byte && a.location.end_byte == b.location.end_byte);
}


/// A shared call record was drawn from one of the first `n` Go call
/// sites inside `[s, e]`.
pub open spec fn go_drawn_from(
    all: Seq<crate::golang::GoCallSite>,
    n: int,
    s: usize,
    e: usize,
    c: FunctionCall,
) -> bool {
    exists|k: int|
        0 <= k < n && s <= (#[trigger] all[k]).start_byte && all[k].end_byte <= e && call_conv_rel(
            all[k].callee_expr@,
            all[k].line,
            all[k].column,
            c,
        )
}

/// Byte containment for Go: every attributed call was drawn from a source
/// site inside the byte range.
pub proof fn lemma_byte_containment_go(
    all: Seq<crate::golang::GoCallSite>,
    n: int,
    s: usize,
    e: usize,
    out: Seq<FunctionCall>,
)
    requires
        0 <= n <= all.len(),
        crate::normalize_go::go_calls_sel(all, n, s, e, out),
    ensures
        forall|j: int| 0 <= j < out.len() ==> go_drawn_from(all, n, s, e, #[trigger] out[j]),
    decreases n,
{
    if n > 0 {
        if s <= all[n - 1].start_byte && all[n - 1].end_byte <= e {
            lemma_byte_containment_go(all, n - 1, s, e, out.drop_last());
            assert forall|j: int| 0 <= j < out.len() implies go_drawn_from(
                all,
                n,
                s,
                e,
                #[trigger] out[j],
            ) by {
                if j < out.len() - 1 {
                    assert(out.drop_last()[j] == out[j]);
                    assert(go_drawn_from(all, n - 1, s, e, out[j]));
                    let k = choose|k: int|
                        0 <= k < n - 1 && s <= (#[trigger] all[k]).start_byte && all[k].end_byte
                            <= e && call_conv_rel(
                            all[k].callee_expr@,
                            all[k].line,
                            all[k].column,
                            out[j],
                        );
                    assert(0 <= k < n && s <= all[k].start_byte && all[k].end_byte <= e
                        && call_conv_rel(all[k].callee_expr@, all[k].line, all[k].column, out[j]));
                } else {
                    assert(out.last() == out[j]);
                    assert(0 <= n - 1 < n && s <= all[n - 1].start_byte && all[n - 1].end_byte <= e
                        && call_conv_rel(
                        all[n - 1].callee_expr@,
                        all[n - 1].line,
                        all[n - 1].column,
                        out[j],
                    ));
                }
            }
        } else {
            lemma_byte_containment_go(all, n - 1, s, e, out);
            assert forall|j: int| 0 <= j < out.len() implies go_drawn_from(
                all,
                n,
                s,
                e,
                #[trigger] out[j],
            ) by {
                assert(go_drawn_from(all, n - 1, s, e, out[j]));
                let k = choose|k: int|
                    0 <= k < n - 1 && s <= (#[trigger] all[k]).start_byte && all[k].end_byte <= e
                        && call_conv_rel(all[k].callee_expr@, all[k].line, all[k].column, out[j]);
                assert(0 <= k < n && s <= all[k].start_byte && all[k].end_byte <= e
                    && call_conv_rel(all[k].callee_expr@, all[k].line, all[k].column, out[j]));
            }
        }
    }
}

/// A shared call record was drawn from one of the first `n` Rust call
/// sites inside `[s, e]`.
pub open spec fn rust_drawn_from(
    all: Seq<crate::rustlang::RustCallSite>,
    n: int,
    s: usize,
    e: usize,
    c: FunctionCall,
) -> bool {
    exists|k: int|
        0 <= k < n && s <= (#[trigger] all[k]).start_byte && all[k].end_byte <= e && call_conv_rel(
            all[k].callee_expr@,
            all[k].line,
            all[k].column,
            c,
        )
}

/// Byte containment for Rust: every attributed call was drawn from a
/// source site inside the byte range.
pub proof fn lemma_byte_containment_rust(
    all: Seq<crate::rustlang::RustCallSite>,
    n: int,
    s: usize,
    e: usize,
    out: Seq<FunctionCall>,
)
    requires
        0 <= n <= all.len(),
        crate::normalize_rust::rust_calls_sel(all, n, s, e, out),
    ensures
        forall|j: int| 0 <= j < out.len() ==> rust_drawn_from(all, n, s, e, #[trigger] out[j]),
    decreases n,
{
    if n > 0 {
        if s <= all[n - 1].start_byte && all[n - 1].end_byte <= e {
            lemma_byte_containment_rust(all, n - 1, s, e, out.drop_last());
            assert forall|j: int| 0 <= j < out.len() implies rust_drawn_from(
                all,
                n,
                s,
                e,
                #[trigger] out[j],
            ) by {
                if j < out.len() - 1 {
                    assert(out.drop_last()[j] == out[j]);
                    assert(rust_drawn_from(all, n - 1, s, e, out[j]));
                    let k = choose|k: int|
                        0 <= k < n - 1 && s <= (#[trigger] all[k]).start_byte && all[k].end_byte
                            <= e && call_conv_rel(
                            all[k].callee_expr@,
                            all[k].line,
                            all[k].column,
                            out[j],
                        );
                    assert(0 <= k < n && s <= all[k].start_byte && all[k].end_byte <= e
                        && call_conv_rel(all[k].callee_expr@, all[k].line, all[k].column, out[j]));
                } else {
                    assert(out.last() == out[j]);
                    assert(0 <= n - 1 < n && s <= all[n - 1].start_byte && all[n - 1].end_byte <= e
                        && call_conv_rel(
                        all[n - 1].callee_expr@,
                        all[n - 1].line,
                        all[n - 1].column,
                        out[j],
                    ));
                }
            }
        } else {
            lemma_byte_containment_rust(all, n - 1, s, e, out);
            assert forall|j: int| 0 <= j < out.len() implies rust_drawn_from(
                all,
                n,
                s,
                e,
                #[trigger] out[j],
            ) by {
                assert(rust_drawn_from(all, n - 1, s, e, out[j]));
                let k = choose|k: int|
                    0 <= k < n - 1 && s <= (#[trigger] all[k]).start_byte && all[k].end_byte <= e
                        && call_conv_rel(all[k].callee_expr@, all[k].line, all[k].column, out[j]);
                assert(0 <= k < n && s <= all[k].start_byte && all[k].end_byte <= e
                    && call_conv_rel(all[k].callee_expr@, all[k].line, all[k].column, out[j]));
            }
        }
    }
}

/// A shared call record was drawn from one of the first `n` TypeScript
/// call sites inside `[s, e]`.
pub open spec fn ts_drawn_from(
    all: Seq<crate::typescript::TsCallSite>,
    n: int,
    s: usize,
    e: usize,
    c: FunctionCall,
) -> bool {
    exists|k: int|
        0 <= k < n && s <= (#[trigger] all[k]).start_byte && all[k].end_byte <= e && call_conv_rel(
            all[k].callee_expr@,
            all[k].line,
            all[k].column,
            c,
        )
}

/// Byte containment for TypeScript: every attributed call was drawn from a
/// source site inside the byte range.
pub proof fn lemma_byte_containment_ts(
    all: Seq<crate::typescript::TsCallSite>,
    n: int,
    s: usize,
    e: usize,
    out: Seq<FunctionCall>,
)
    requires
        0 <= n <= all.len(),
        crate::normalize_ts::ts_calls_sel(all, n, s, e, out),
    ensures
        forall|j: int| 0 <= j < out.len() ==> ts_drawn_from(all, n, s, e, #[trigger] out[j]),
    decreases n,
{
    if n > 0 {
        if s <= all[n - 1].start_byte && all[n - 1].end_byte <= e {
            lemma_byte_containment_ts(all, n - 1, s, e, out.drop_last());
            assert forall|j: int| 0 <= j < out.len() implies ts_drawn_from(
                all,
                n,
                s,
                e,
                #[trigger] out[j],
            ) by {
                if j < out.len() - 1 {
                    assert(out.drop_last()[j] == out[j]);
                    assert(ts_drawn_from(all, n - 1, s, e, out[j]));
                    let k = choose|k: int|
                        0 <= k < n - 1 && s <= (#[trigger] all[k]).start_byte && all[k].end_byte
                            <= e && call_conv_rel(
                            all[k].callee_expr@,
                            all[k].line,
                            all[k].column,
                            out[j],
                        );
                    assert(0 <= k < n && s <= all[k].start_byte && all[k].end_byte <= e
                        && call_conv_rel(all[k].callee_expr@, all[k].line, all[k].column, out[j]));
                } else {
                    assert(out.last() == out[j]);
                    assert(0 <= n - 1 < n && s <= all[n - 1].start_byte && all[n - 1].end_byte <= e
                        && call_conv_rel(
                        all[n - 1].callee_expr@,
                        all[n - 1].line,
                        all[n - 1].column,
                        out[j],
                    ));
                }
            }
        } else {
            lemma_byte_containment_ts(all, n - 1, s, e, out);
            assert forall|j: int| 0 <= j < out.len() implies ts_drawn_from(
                all,
                n,
                s,
                e,
                #[trigger] out[j],
            ) by {
                assert(ts_drawn_from(all, n - 1, s, e, out[j]));
                let k = choose|k: int|
                    0 <= k < n - 1 && s <= (#[trigger] all[k]).start_byte && all[k].end_byte <= e
                        && call_conv_rel(all[k].callee_expr@, all[k].line, all[k].column, out[j]);
                assert(0 <= k < n && s <= all[k].start_byte && all[k].end_byte <= e
                    && call_conv_rel(all[k].callee_expr@, all[k].line, all[k].column, out[j]));
            }
        }
    }
}

/// Import totality for Go: a normalized Go import is well-formed.
pub proof fn lemma_import_totality_go(imp: crate::golang::GoImport, fid: FileId, out: Import)
    requires
        crate::golang::go_import_wf(imp),
        crate::normalize_go::go_import_conv(imp, fid, out),
    ensures
        out.module@.len() > 0,
        out.style == ImportStyle::Module,
        out.items@.len() == 0,
        out.location.line >= 1,
        out.location.column >= 1,
{
}

/// Import totality for Rust: a normalized `use` declaration is
/// well-formed.
pub proof fn lemma_import_totality_rust(u: crate::rustlang::RustUse, fid: FileId, out: Import)
    requires
        crate::rustlang::rust_use_wf(u),
        crate::normalize_rust::rust_use_conv(u, fid, out),
    ensures
        out.module@.len() > 0,
        out.style == ImportStyle::Named ==> out.items@.len() >= 1,
        out.style == ImportStyle::Star ==> out.items@.len() == 0,
        out.location.line >= 1,
        out.location.column >= 1,
{
}

/// Import totality for TypeScript: a normalized import is well-formed.
pub proof fn lemma_import_totality_ts(imp: crate::typescript::TsImport, fid: FileId, out: Import)
    requires
        crate::typescript::ts_import_wf(imp),
        crate::normalize_ts::ts_import_conv(imp, fid, out),
    ensures
        out.module@.len() > 0,
        out.style == ImportStyle::Named ==> out.items@.len() >= 1,
        out.style == ImportStyle::Star ==> out.items@.len() == 0,
        out.style == ImportStyle::Default ==> out.module_alias.is_some(),
        out.location.line >= 1,
        out.location.column >= 1,
{
}


/// Two Python call sites agree field for field.
pub open spec fn py_site_eqv(a: PyCallSite, b: PyCallSite) -> bool {
    &&& a.callee_expr@ == b.callee_expr@
    &&& a.line == b.line
    &&& a.column == b.column
    &&& a.start_byte == b.start_byte
    &&& a.end_byte == b.end_byte
}

/// Call-site extraction is deterministic: two walks of the same parsed
/// tree produce the same call sites, field for field.  Together with the
/// determinism of normalization this gives idempotence of extraction for
/// the call category: running it twice on one parsed file yields equal
/// records.
pub proof fn lemma_call_extraction_deterministic(
    t: SynTree,
    n: int,
    a: Seq<PyCallSite>,
    b: Seq<PyCallSite>,
)
    requires
        0 <= n <= t.nodes@.len(),
        crate::python::py_calls_scan(t, n, a),
        crate::python::py_calls_scan(t, n, b),
    ensures
        a.len() == b.len(),
        forall|j: int| 0 <= j < a.len() ==> py_site_eqv(#[trigger] a[j], b[j]),
    decreases n,
{
    if n > 0 {
        if crate::python::py_call_node(t, n - 1) {
            lemma_call_extraction_deterministic(t, n - 1, a.drop_last(), b.drop_last());
            assert forall|j: int| 0 <= j < a.len() implies py_site_eqv(#[trigger] a[j], b[j]) by {
                if j < a.len() - 1 {
                    assert(a.drop_last()[j] == a[j]);
                    assert(b.drop_last()[j] == b[j]);
                } else {
                    assert(a.last() == a[j]);
                    assert(b.last() == b[j]);
                }
            }
        } else {
            lemma_call_extraction_deterministic(t, n - 1, a, b);
        }
    }
}


/// Two per-language Python import records agree field for field.
pub open spec fn py_import_rec_eqv(a: PyImport, b: PyImport) -> bool {
    &&& a.module@ == b.module@
    &&& a.names@.map_values(|v: Vec<u8>| v@) == b.names@.map_values(|v: Vec<u8>| v@)
    &&& opt_bytes_eqv(a.alias, b.alias)
    &&& a.style == b.style
    &&& a.category == b.category
    &&& a.location.start_line == b.location.start_line
    &&& a.location.start_col == b.location.start_col
}

/// Import extraction is deterministic: two walks of the same parsed tree
/// produce the same import records, field for field.
pub proof fn lemma_import_extraction_deterministic(
    t: SynTree,
    n: int,
    a: Seq<PyImport>,
    b: Seq<PyImport>,
)
    requires
        0 <= n <= t.nodes@.len(),
        crate::python::py_imports_scan(t, n, a),
        crate::python::py_imports_scan(t, n, b),
    ensures
        a.len() == b.len(),
        forall|j: int| 0 <= j < a.len() ==> py_import_rec_eqv(#[trigger] a[j], b[j]),
    decreases n,
{
    if n > 0 {
        let i = n - 1;
        let pushed = if t.kind_of(i) == crate::bytes::lit_bytes("import_statement") {
            crate::python::py_plain_cond(t, i)
        } else if t.kind_of(i) == crate::bytes::lit_bytes("import_from_statement") {
            crate::python::py_from_cond(t, i)
        } else {
            false
        };
        if pushed {
            lemma_import_extraction_deterministic(t, n - 1, a.drop_last(), b.drop_last());
            assert forall|j: int| 0 <= j < a.len() implies py_import_rec_eqv(
                #[trigger] a[j],
                b[j],
            ) by {
                if j < a.len() - 1 {
                    assert(a.drop_last()[j] == a[j]);
                    assert(b.drop_last()[j] == b[j]);
                } else {
                    assert(a.last() == a[j]);
                    assert(b.last() == b[j]);
                    assert(a[j].names@.map_values(|v: Vec<u8>| v@) =~= b[j].names@.map_values(
                        |v: Vec<u8>| v@,
                    ));
                }
            }
        } else {
            lemma_import_extraction_deterministic(t, n - 1, a, b);
        }
    }
}


/// Two per-language Python function records agree field for field.
pub open spec fn py_fun_rec_eqv(a: PyFunction, b: PyFunction) -> bool {
    &&& a.name@ == b.name@
    &&& a.is_async == b.is_async
    &&& a.is_method == b.is_method
    &&& opt_bytes_eqv(a.class_name, b.class_name)
    &&& a.params@.map_values(|p: crate::python::PyParam| crate::python::py_param_view(p))
        == b.params@.map_values(|p: crate::python::PyParam| crate::python::py_param_view(p))
    &&& opt_bytes_eqv(a.return_type, b.return_type)
    &&& a.location.start_line == b.location.start_line
    &&& a.location.start_col == b.location.start_col
    &&& a.start_byte == b.start_byte
    &&& a.end_byte == b.end_byte
}

/// Function extraction is deterministic: two walks of the same parsed
/// tree produce the same function records, field for field.
pub proof fn lemma_function_extraction_deterministic(
    t: SynTree,
    n: int,
    a: Seq<PyFunction>,
    b: Seq<PyFunction>,
)
    requires
        0 <= n <= t.nodes@.len(),
        crate::python::py_functions_scan(t, n, a),
        crate::python::py_functions_scan(t, n, b),
    ensures
        a.len() == b.len(),
        forall|j: int| 0 <= j < a.len() ==> py_fun_rec_eqv(#[trigger] a[j], b[j]),
    decreases n,
{
    if n > 0 {
        if t.kind_of(n - 1) == crate::bytes::lit_bytes("function_definition")
            && crate::python::py_fun_cond(t, n - 1) {
            lemma_function_extraction_deterministic(t, n - 1, a.drop_last(), b.drop_last());
            assert forall|j: int| 0 <= j < a.len() implies py_fun_rec_eqv(
                #[trigger] a[j],
                b[j],
            ) by {
                if j < a.len() - 1 {
                    assert(a.drop_last()[j] == a[j]);
                    assert(b.drop_last()[j] == b[j]);
                } else {
                    assert(a.last() == a[j]);
                    assert(b.last() == b[j]);
                }
            }
        } else {
            lemma_function_extraction_deterministic(t, n - 1, a, b);
        }
    }
}

/// Two Python file records agree on identity and, field for field, on
/// every structural category; the framework categories are empty on both
/// sides.
pub open spec fn py_sem_eqv(a: PyFileSemantics, b: PyFileSemantics) -> bool {
    &&& a.file_id == b.file_id
    &&& a.path@ == b.path@
    &&& a.imports@.len() == b.imports@.len()
    &&& forall|j: int|
        0 <= j < a.imports@.len() ==> py_import_rec_eqv(#[trigger] a.imports@[j], b.imports@[j])
    &&& a.functions@.len() == b.functions@.len()
    &&& forall|j: int|
        0 <= j < a.functions@.len() ==> py_fun_rec_eqv(
            #[trigger] a.functions@[j],
            b.functions@[j],
        )
    &&& a.calls@.len() == b.calls@.len()
    &&& forall|j: int| 0 <= j < a.calls@.len() ==> py_site_eqv(#[trigger] a.calls@[j], b.calls@[j])
    &&& a.http_calls@.len() == 0 && b.http_calls@.len() == 0
    &&& a.orm_queries@.len() == 0 && b.orm_queries@.len() == 0
    &&& a.async_operations@.len() == 0 && b.async_operations@.len() == 0
}

/// Idempotence of the structural pass: two runs of `from_parsed` on the
/// same parsed file yield equal records, field for field, in every
/// structural category.
pub proof fn lemma_from_parsed_deterministic(
    p: crate::parse::ParsedFile,
    a: PyFileSemantics,
    b: PyFileSemantics,
)
    requires
        crate::python::py_structural_post(p, a),
        crate::python::py_structural_post(p, b),
    ensures
        py_sem_eqv(a, b),
{
    lemma_import_extraction_deterministic(
        p.tree,
        p.tree.nodes@.len() as int,
        a.imports@,
        b.imports@,
    );
    lemma_function_extraction_deterministic(
        p.tree,
        p.tree.nodes@.len() as int,
        a.functions@,
        b.functions@,
    );
    lemma_call_extraction_deterministic(p.tree, p.tree.nodes@.len() as int, a.calls@, b.calls@);
}


/// Two Go call sites agree field for field.
pub open spec fn go_site_eqv(a: crate::golang::GoCallSite, b: crate::golang::GoCallSite) -> bool {
    &&& a.callee_expr@ == b.callee_expr@
    &&& a.line == b.line
    &&& a.column == b.column
    &&& a.start_byte == b.start_byte
    &&& a.end_byte == b.end_byte
}

/// Go call-site extraction is deterministic.
pub proof fn lemma_call_extraction_deterministic_go(
    t: SynTree,
    n: int,
    a: Seq<crate::golang::GoCallSite>,
    b: Seq<crate::golang::GoCallSite>,
)
    requires
        0 <= n <= t.nodes@.len(),
        crate::golang::go_calls_scan(t, n, a),
        crate::golang::go_calls_scan(t, n, b),
    ensures
        a.len() == b.len(),
        forall|j: int| 0 <= j < a.len() ==> go_site_eqv(#[trigger] a[j], b[j]),
    decreases n,
{
    if n > 0 {
        let i = n - 1;
        let pushed = !(t.kind_of(i) == crate::bytes::lit_bytes("import_spec") || t.kind_of(i)
            == crate::bytes::lit_bytes("function_declaration") || t.kind_of(i)
            == crate::bytes::lit_bytes("method_declaration")) && t.kind_of(i)
            == crate::bytes::lit_bytes("call_expression") && crate::syntree::child_by_field(
            t,
            i,
            crate::bytes::lit_bytes("function"),
        ).is_some();
        if pushed {
            lemma_call_extraction_deterministic_go(t, n - 1, a.drop_last(), b.drop_last());
            assert forall|j: int| 0 <= j < a.len() implies go_site_eqv(#[trigger] a[j], b[j]) by {
                if j < a.len() - 1 {
                    assert(a.drop_last()[j] == a[j]);
                    assert(b.drop_last()[j] == b[j]);
                } else {
                    assert(a.last() == a[j]);
                    assert(b.last() == b[j]);
                }
            }
        } else {
            lemma_call_extraction_deterministic_go(t, n - 1, a, b);
        }
    }
}

/// Two Rust call sites agree field for field.
pub open spec fn rust_site_eqv(
    a: crate::rustlang::RustCallSite,
    b: crate::rustlang::RustCallSite,
) -> bool {
    &&& a.callee_expr@ == b.callee_expr@
    &&& a.line == b.line
    &&& a.column == b.column
    &&& a.start_byte == b.start_byte
    &&& a.end_byte == b.end_byte
}

/// Rust call-site extraction is deterministic.
pub proof fn lemma_call_extraction_deterministic_rust(
    t: SynTree,
    n: int,
    a: Seq<crate::rustlang::RustCallSite>,
    b: Seq<crate::rustlang::RustCallSite>,
)
    requires
        0 <= n <= t.nodes@.len(),
        crate::rustlang::rust_calls_scan(t, n, a),
        crate::rustlang::rust_calls_scan(t, n, b),
    ensures
        a.len() == b.len(),
        forall|j: int| 0 <= j < a.len() ==> rust_site_eqv(#[trigger] a[j], b[j]),
    decreases n,
{
    if n > 0 {
        let i = n - 1;
        let pushed = !(t.kind_of(i) == crate::bytes::lit_bytes("use_declaration") || t.kind_of(i)
            == crate::bytes::lit_bytes("function_item") || t.kind_of(i) == crate::bytes::lit_bytes(
            "impl_item",
        )) && t.kind_of(i) == crate::bytes::lit_bytes("call_expression")
            && crate::syntree::child_by_field(t, i, crate::bytes::lit_bytes("function")).is_some();
        if pushed {
            lemma_call_extraction_deterministic_rust(t, n - 1, a.drop_last(), b.drop_last());
            assert forall|j: int| 0 <= j < a.len() implies rust_site_eqv(
                #[trigger] a[j],
                b[j],
            ) by {
                if j < a.len() - 1 {
                    assert(a.drop_last()[j] == a[j]);
                    assert(b.drop_last()[j] == b[j]);
                } else {
                    assert(a.last() == a[j]);
                    assert(b.last() == b[j]);
                }
            }
        } else {
            lemma_call_extraction_deterministic_rust(t, n - 1, a, b);
        }
    }
}

/// Two TypeScript call sites agree field for field.
pub open spec fn ts_site_eqv(
    a: crate::typescript::TsCallSite,
    b: crate::typescript::TsCallSite,
) -> bool {
    &&& a.callee_expr@ == b.callee_expr@
    &&& a.line == b.line
    &&& a.column == b.column
    &&& a.start_byte == b.start_byte
    &&& a.end_byte == b.end_byte
}

/// TypeScript call-site extraction is deterministic.
pub proof fn lemma_call_extraction_deterministic_ts(
    t: SynTree,
    n: int,
    a: Seq<crate::typescript::TsCallSite>,
    b: Seq<crate::typescript::TsCallSite>,
)
    requires
        0 <= n <= t.nodes@.len(),
        crate::typescript::ts_calls_scan(t, n, a),
        crate::typescript::ts_calls_scan(t, n, b),
    ensures
        a.len() == b.len(),
        forall|j: int| 0 <= j < a.len() ==> ts_site_eqv(#[trigger] a[j], b[j]),
    decreases n,
{
    if n > 0 {
        let i = n - 1;
        let pushed = !(t.kind_of(i) == crate::bytes::lit_bytes("import_statement") || t.kind_of(i)
            == crate::bytes::lit_bytes("function_declaration") || t.kind_of(i)
            == crate::bytes::lit_bytes("generator_function_declaration") || t.kind_of(i)
            == crate::bytes::lit_bytes("variable_declarator") || t.kind_of(i)
            == crate::bytes::lit_bytes("class_declaration")) && t.kind_of(i)
            == crate::bytes::lit_bytes("call_expression") && crate::syntree::child_by_field(
            t,
            i,
            crate::bytes::lit_bytes("function"),
        ).is_some();
        if pushed {
            lemma_call_extraction_deterministic_ts(t, n - 1, a.drop_last(), b.drop_last());
            assert forall|j: int| 0 <= j < a.len() implies ts_site_eqv(#[trigger] a[j], b[j]) by {
                if j < a.len() - 1 {
                    assert(a.drop_last()[j] == a[j]);
                    assert(b.drop_last()[j] == b[j]);
                } else {
                    assert(a.last() == a[j]);
                    assert(b.last() == b[j]);
                }
            }
        } else {
            lemma_call_extraction_deterministic_ts(t, n - 1, a, b);
        }
    }
}


/// Two result-type lists with equal byte views agree on holding Go's
/// `error` type.
proof fn lemma_error_flag_eqv(a: Seq<Vec<u8>>, b: Seq<Vec<u8>>)
    requires
        a.map_values(|v: Vec<u8>| v@) == b.map_values(|v: Vec<u8>| v@),
    ensures
        (exists|j: int|
            0 <= j < a.len() && (#[trigger] a[j])@ == crate::bytes::lit_bytes("error")) == (
        exists|j: int| 0 <= j < b.len() && (#[trigger] b[j])@ == crate::bytes::lit_bytes("error")),
{
    assert(a.map_values(|v: Vec<u8>| v@).len() == a.len());
    assert(b.map_values(|v: Vec<u8>| v@).len() == b.len());
    assert forall|j: int| 0 <= j < a.len() implies (#[trigger] a[j])@ == b[j]@ by {
        assert(a.map_values(|v: Vec<u8>| v@)[j] == a[j]@);
        assert(b.map_values(|v: Vec<u8>| v@)[j] == b[j]@);
        assert(a.map_values(|v: Vec<u8>| v@)[j] == b.map_values(|v: Vec<u8>| v@)[j]);
    }
    if exists|j: int| 0 <= j < a.len() && (#[trigger] a[j])@ == crate::bytes::lit_bytes("error") {
        let j = choose|j: int|
            0 <= j < a.len() && (#[trigger] a[j])@ == crate::bytes::lit_bytes("error");
        assert(b[j]@ == crate::bytes::lit_bytes("error"));
    }
    if exists|j: int| 0 <= j < b.len() && (#[trigger] b[j])@ == crate::bytes::lit_bytes("error") {
        let j = choose|j: int|
            0 <= j < b.len() && (#[trigger] b[j])@ == crate::bytes::lit_bytes("error");
        assert(a[j]@ == crate::bytes::lit_bytes("error"));
    }
}

/// Two Go import records agree field for field.
pub open spec fn go_import_rec_eqv(a: crate::golang::GoImport, b: crate::golang::GoImport) -> bool {
    &&& a.path@ == b.path@
    &&& opt_bytes_eqv(a.alias, b.alias)
    &&& a.location.start_line == b.location.start_line
    &&& a.location.start_col == b.location.start_col
}

/// Two Go function records agree field for field.
pub open spec fn go_fun_rec_eqv(a: crate::golang::GoFunction, b: crate::golang::GoFunction) -> bool {
    &&& a.name@ == b.name@
    &&& a.params@.map_values(|p: crate::golang::GoParam| (p.name@, p.param_type@))
        == b.params@.map_values(|p: crate::golang::GoParam| (p.name@, p.param_type@))
    &&& a.return_types@.map_values(|v: Vec<u8>| v@) == b.return_types@.map_values(|v: Vec<u8>| v@)
    &&& a.returns_error == b.returns_error
    &&& a.location.start_line == b.location.start_line
    &&& a.location.start_col == b.location.start_col
    &&& a.start_byte == b.start_byte
    &&& a.end_byte == b.end_byte
}

/// Two Go method records agree field for field.
pub open spec fn go_method_rec_eqv(a: crate::golang::GoMethod, b: crate::golang::GoMethod) -> bool {
    &&& a.name@ == b.name@
    &&& a.receiver_type@ == b.receiver_type@
    &&& a.receiver_is_pointer == b.receiver_is_pointer
    &&& a.params@.map_values(|p: crate::golang::GoParam| (p.name@, p.param_type@))
        == b.params@.map_values(|p: crate::golang::GoParam| (p.name@, p.param_type@))
    &&& a.return_types@.map_values(|v: Vec<u8>| v@) == b.return_types@.map_values(|v: Vec<u8>| v@)
    &&& a.returns_error == b.returns_error
    &&& a.location.start_line == b.location.start_line
    &&& a.location.start_col == b.location.start_col
    &&& a.start_byte == b.start_byte
    &&& a.end_byte == b.end_byte
}

/// Go import extraction is deterministic.
pub proof fn lemma_go_imports_deterministic(
    t: SynTree,
    n: int,
    a: Seq<crate::golang::GoImport>,
    b: Seq<crate::golang::GoImport>,
)
    requires
        0 <= n <= t.nodes@.len(),
        crate::golang::go_imports_scan(t, n, a),
        crate::golang::go_imports_scan(t, n, b),
    ensures
        a.len() == b.len(),
        forall|j: int| 0 <= j < a.len() ==> go_import_rec_eqv(#[trigger] a[j], b[j]),
    decreases n,
{
    if n > 0 {
        let i = n - 1;
        let pushed = t.kind_of(i) == crate::bytes::lit_bytes("import_spec")
            && crate::syntree::child_by_field(t, i, crate::bytes::lit_bytes("path")).is_some()
            && crate::golang::strip_quotes_spec(
            t.text_of(
                crate::syntree::child_by_field(t, i, crate::bytes::lit_bytes("path")).unwrap(),
            ),
        ).len() > 0;
        if pushed {
            lemma_go_imports_deterministic(t, n - 1, a.drop_last(), b.drop_last());
            assert forall|j: int| 0 <= j < a.len() implies go_import_rec_eqv(
                #[trigger] a[j],
                b[j],
            ) by {
                if j < a.len() - 1 {
                    assert(a.drop_last()[j] == a[j]);
                    assert(b.drop_last()[j] == b[j]);
                } else {
                    assert(a.last() == a[j]);
                    assert(b.last() == b[j]);
                }
            }
        } else {
            lemma_go_imports_deterministic(t, n - 1, a, b);
        }
    }
}

/// Go function extraction is deterministic.
pub proof fn lemma_go_functions_deterministic(
    t: SynTree,
    n: int,
    a: Seq<crate::golang::GoFunction>,
    b: Seq<crate::golang::GoFunction>,
)
    requires
        0 <= n <= t.nodes@.len(),
        crate::golang::go_functions_scan(t, n, a),
        crate::golang::go_functions_scan(t, n, b),
    ensures
        a.len() == b.len(),
        forall|j: int| 0 <= j < a.len() ==> go_fun_rec_eqv(#[trigger] a[j], b[j]),
    decreases n,
{
    if n > 0 {
        let i = n - 1;
        let pushed = !(t.kind_of(i) == crate::bytes::lit_bytes("import_spec")) && t.kind_of(i)
            == crate::bytes::lit_bytes("function_declaration")
            && crate::syntree::child_by_field(t, i, crate::bytes::lit_bytes("name")).is_some();
        if pushed {
            lemma_go_functions_deterministic(t, n - 1, a.drop_last(), b.drop_last());
            lemma_error_flag_eqv(a.last().return_types@, b.last().return_types@);
            assert forall|j: int| 0 <= j < a.len() implies go_fun_rec_eqv(
                #[trigger] a[j],
                b[j],
            ) by {
                if j < a.len() - 1 {
                    assert(a.drop_last()[j] == a[j]);
                    assert(b.drop_last()[j] == b[j]);
                } else {
                    assert(a.last() == a[j]);
                    assert(b.last() == b[j]);
                }
            }
        } else {
            lemma_go_functions_deterministic(t, n - 1, a, b);
        }
    }
}

/// Go method extraction is deterministic.
pub proof fn lemma_go_methods_deterministic(
    t: SynTree,
    n: int,
    a: Seq<crate::golang::GoMethod>,
    b: Seq<crate::golang::GoMethod>,
)
    requires
        0 <= n <= t.nodes@.len(),
        crate::golang::go_methods_scan(t, n, a),
        crate::golang::go_methods_scan(t, n, b),
    ensures
        a.len() == b.len(),
        forall|j: int| 0 <= j < a.len() ==> go_method_rec_eqv(#[trigger] a[j], b[j]),
    decreases n,
{
    if n > 0 {
        let i = n - 1;
        let pushed = !(t.kind_of(i) == crate::bytes::lit_bytes("import_spec") || t.kind_of(i)
            == crate::bytes::lit_bytes("function_declaration")) && t.kind_of(i)
            == crate::bytes::lit_bytes("method_declaration") && crate::syntree::child_by_field(
            t,
            i,
            crate::bytes::lit_bytes("name"),
        ).is_some();
        if pushed {
            lemma_go_methods_deterministic(t, n - 1, a.drop_last(), b.drop_last());
            lemma_error_flag_eqv(a.last().return_types@, b.last().return_types@);
            assert forall|j: int| 0 <= j < a.len() implies go_method_rec_eqv(
                #[trigger] a[j],
                b[j],
            ) by {
                if j < a.len() - 1 {
                    assert(a.drop_last()[j] == a[j]);
                    assert(b.drop_last()[j] == b[j]);
                } else {
                    assert(a.last() == a[j]);
                    assert(b.last() == b[j]);
                }
            }
        } else {
            lemma_go_methods_deterministic(t, n - 1, a, b);
        }
    }
}

/// Two Go file records agree on identity and, field for field, on every
/// structural category.
pub open spec fn go_sem_eqv(a: crate::golang::GoFileSemantics, b: crate::golang::GoFileSemantics) -> bool {
    &&& a.file_id == b.file_id
    &&& a.path@ == b.path@
    &&& a.imports@.len() == b.imports@.len()
    &&& forall|j: int|
        0 <= j < a.imports@.len() ==> go_import_rec_eqv(#[trigger] a.imports@[j], b.imports@[j])
    &&& a.functions@.len() == b.functions@.len()
    &&& forall|j: int|
        0 <= j < a.functions@.len() ==> go_fun_rec_eqv(#[trigger] a.functions@[j], b.functions@[j])
    &&& a.methods@.len() == b.methods@.len()
    &&& forall|j: int|
        0 <= j < a.methods@.len() ==> go_method_rec_eqv(#[trigger] a.methods@[j], b.methods@[j])
    &&& a.calls@.len() == b.calls@.len()
    &&& forall|j: int| 0 <= j < a.calls@.len() ==> go_site_eqv(#[trigger] a.calls@[j], b.calls@[j])
    &&& a.http_calls@.len() == 0 && b.http_calls@.len() == 0
    &&& a.db_operations@.len() == 0 && b.db_operations@.len() == 0
}

/// Idempotence of the Go structural pass: two runs of `from_parsed` on
/// the same parsed file yield equal records in every structural category.
pub proof fn lemma_from_parsed_deterministic_go(
    p: crate::parse::ParsedFile,
    a: crate::golang::GoFileSemantics,
    b: crate::golang::GoFileSemantics,
)
    requires
        crate::golang::go_structural_post(p, a),
        crate::golang::go_structural_post(p, b),
    ensures
        go_sem_eqv(a, b),
{
    lemma_go_imports_deterministic(p.tree, p.tree.nodes@.len() as int, a.imports@, b.imports@);
    lemma_go_functions_deterministic(
        p.tree,
        p.tree.nodes@.len() as int,
        a.functions@,
        b.functions@,
    );
    lemma_go_methods_deterministic(p.tree, p.tree.nodes@.len() as int, a.methods@, b.methods@);
    lemma_call_extraction_deterministic_go(
        p.tree,
        p.tree.nodes@.len() as int,
        a.calls@,
        b.calls@,
    );
}


/// Two Rust visibilities agree up to their payload views.
pub open spec fn rust_vis_eqv(a: crate::rustlang::RustVisibility, b: crate::rustlang::RustVisibility) -> bool {
    match (a, b) {
        (crate::rustlang::RustVisibility::Pub, crate::rustlang::RustVisibility::Pub) => true,
        (crate::rustlang::RustVisibility::PubCrate, crate::rustlang::RustVisibility::PubCrate) => true,
        (crate::rustlang::RustVisibility::PubSuper, crate::rustlang::RustVisibility::PubSuper) => true,
        (
            crate::rustlang::RustVisibility::PubIn(x),
            crate::rustlang::RustVisibility::PubIn(y),
        ) => x@ == y@,
        (crate::rustlang::RustVisibility::Private, crate::rustlang::RustVisibility::Private) => true,
        _ => false,
    }
}

/// Two `use` records agree field for field.
pub open spec fn rust_use_rec_eqv(a: crate::rustlang::RustUse, b: crate::rustlang::RustUse) -> bool {
    &&& a.path@ == b.path@
    &&& a.items@.map_values(|v: Vec<u8>| v@) == b.items@.map_values(|v: Vec<u8>| v@)
    &&& opt_bytes_eqv(a.alias, b.alias)
    &&& a.is_glob == b.is_glob
    &&& a.location.start_line == b.location.start_line
    &&& a.location.start_col == b.location.start_col
}

/// Two Rust function records agree field for field.
pub open spec fn rust_fun_rec_eqv(a: crate::rustlang::RustFunction, b: crate::rustlang::RustFunction) -> bool {
    &&& a.name@ == b.name@
    &&& rust_vis_eqv(a.visibility, b.visibility)
    &&& a.is_async == b.is_async
    &&& a.params@.map_values(|p: crate::rustlang::RustParam| (p.name@, p.param_type@))
        == b.params@.map_values(|p: crate::rustlang::RustParam| (p.name@, p.param_type@))
    &&& opt_bytes_eqv(a.return_type, b.return_type)
    &&& a.location.start_line == b.location.start_line
    &&& a.location.start_col == b.location.start_col
    &&& a.start_byte == b.start_byte
    &&& a.end_byte == b.end_byte
}

/// Rust `use` extraction is deterministic.
pub proof fn lemma_rust_uses_deterministic(
    t: SynTree,
    n: int,
    a: Seq<crate::rustlang::RustUse>,
    b: Seq<crate::rustlang::RustUse>,
)
    requires
        0 <= n <= t.nodes@.len(),
        crate::rustlang::rust_uses_scan(t, n, a),
        crate::rustlang::rust_uses_scan(t, n, b),
    ensures
        a.len() == b.len(),
        forall|j: int| 0 <= j < a.len() ==> rust_use_rec_eqv(#[trigger] a[j], b[j]),
    decreases n,
{
    if n > 0 {
        let i = n - 1;
        let pushed = t.kind_of(i) == crate::bytes::lit_bytes("use_declaration")
            && crate::syntree::child_by_field(t, i, crate::bytes::lit_bytes("argument")).is_some()
            && crate::rustlang::rust_use_path_spec(
            t,
            crate::syntree::child_by_field(t, i, crate::bytes::lit_bytes("argument")).unwrap(),
        ).len() > 0;
        if pushed {
            lemma_rust_uses_deterministic(t, n - 1, a.drop_last(), b.drop_last());
            assert forall|j: int| 0 <= j < a.len() implies rust_use_rec_eqv(
                #[trigger] a[j],
                b[j],
            ) by {
                if j < a.len() - 1 {
                    assert(a.drop_last()[j] == a[j]);
                    assert(b.drop_last()[j] == b[j]);
                } else {
                    assert(a.last() == a[j]);
                    assert(b.last() == b[j]);
                    assert(a[j].items@.map_values(|v: Vec<u8>| v@) =~= b[j].items@.map_values(
                        |v: Vec<u8>| v@,
                    ));
                    assert(a[j].path@ =~= b[j].path@);
                }
            }
        } else {
            lemma_rust_uses_deterministic(t, n - 1, a, b);
        }
    }
}

/// Rust top-level function extraction is deterministic.
pub proof fn lemma_rust_functions_deterministic(
    t: SynTree,
    n: int,
    a: Seq<crate::rustlang::RustFunction>,
    b: Seq<crate::rustlang::RustFunction>,
)
    requires
        0 <= n <= t.nodes@.len(),
        crate::rustlang::rust_functions_scan(t, n, a),
        crate::rustlang::rust_functions_scan(t, n, b),
    ensures
        a.len() == b.len(),
        forall|j: int| 0 <= j < a.len() ==> rust_fun_rec_eqv(#[trigger] a[j], b[j]),
    decreases n,
{
    if n > 0 {
        let i = n - 1;
        let pushed = !(t.kind_of(i) == crate::bytes::lit_bytes("use_declaration")) && t.kind_of(i)
            == crate::bytes::lit_bytes("function_item") && crate::syntree::nearest_anc_kind(
            t,
            i,
            crate::bytes::lit_bytes("impl_item"),
        ).is_none() && crate::syntree::child_by_field(
            t,
            i,
            crate::bytes::lit_bytes("name"),
        ).is_some();
        if pushed {
            lemma_rust_functions_deterministic(t, n - 1, a.drop_last(), b.drop_last());
            assert forall|j: int| 0 <= j < a.len() implies rust_fun_rec_eqv(
                #[trigger] a[j],
                b[j],
            ) by {
                if j < a.len() - 1 {
                    assert(a.drop_last()[j] == a[j]);
                    assert(b.drop_last()[j] == b[j]);
                } else {
                    assert(a.last() == a[j]);
                    assert(b.last() == b[j]);
                }
            }
        } else {
            lemma_rust_functions_deterministic(t, n - 1, a, b);
        }
    }
}

/// The methods of one `impl` block are collected deterministically.
pub proof fn lemma_rust_impl_methods_deterministic(
    t: SynTree,
    i: int,
    m: int,
    a: Seq<crate::rustlang::RustFunction>,
    b: Seq<crate::rustlang::RustFunction>,
)
    requires
        0 <= i,
        0 <= m <= t.nodes@.len(),
        crate::rustlang::rust_impl_methods_upto(t, i, m, a),
        crate::rustlang::rust_impl_methods_upto(t, i, m, b),
    ensures
        a.len() == b.len(),
        forall|j: int| 0 <= j < a.len() ==> rust_fun_rec_eqv(#[trigger] a[j], b[j]),
    decreases m,
{
    if m > i + 1 {
        let pushed = t.kind_of(m - 1) == crate::bytes::lit_bytes("function_item")
            && crate::syntree::nearest_anc_kind(t, m - 1, crate::bytes::lit_bytes("impl_item"))
            == Some(i) && crate::syntree::child_by_field(
            t,
            m - 1,
            crate::bytes::lit_bytes("name"),
        ).is_some();
        if pushed {
            lemma_rust_impl_methods_deterministic(t, i, m - 1, a.drop_last(), b.drop_last());
            assert forall|j: int| 0 <= j < a.len() implies rust_fun_rec_eqv(
                #[trigger] a[j],
                b[j],
            ) by {
                if j < a.len() - 1 {
                    assert(a.drop_last()[j] == a[j]);
                    assert(b.drop_last()[j] == b[j]);
                } else {
                    assert(a.last() == a[j]);
                    assert(b.last() == b[j]);
                }
            }
        } else {
            lemma_rust_impl_methods_deterministic(t, i, m - 1, a, b);
        }
    }
}

/// Two `impl` block records agree field for field.
pub open spec fn rust_impl_rec_eqv(a: crate::rustlang::RustImplBlock, b: crate::rustlang::RustImplBlock) -> bool {
    &&& a.impl_type@ == b.impl_type@
    &&& a.methods@.len() == b.methods@.len()
    &&& forall|k: int|
        0 <= k < a.methods@.len() ==> rust_fun_rec_eqv(#[trigger] a.methods@[k], b.methods@[k])
}

/// Rust `impl` block extraction is deterministic.
pub proof fn lemma_rust_impls_deterministic(
    t: SynTree,
    n: int,
    a: Seq<crate::rustlang::RustImplBlock>,
    b: Seq<crate::rustlang::RustImplBlock>,
)
    requires
        0 <= n <= t.nodes@.len(),
        crate::rustlang::rust_impls_scan(t, n, a),
        crate::rustlang::rust_impls_scan(t, n, b),
    ensures
        a.len() == b.len(),
        forall|j: int| 0 <= j < a.len() ==> rust_impl_rec_eqv(#[trigger] a[j], b[j]),
    decreases n,
{
    if n > 0 {
        let i = n - 1;
        let pushed = !(t.kind_of(i) == crate::bytes::lit_bytes("use_declaration") || t.kind_of(i)
            == crate::bytes::lit_bytes("function_item")) && t.kind_of(i) == crate::bytes::lit_bytes(
            "impl_item",
        );
        if pushed {
            lemma_rust_impls_deterministic(t, n - 1, a.drop_last(), b.drop_last());
            lemma_rust_impl_methods_deterministic(
                t,
                i,
                t.nodes@.len() as int,
                a.last().methods@,
                b.last().methods@,
            );
            assert forall|j: int| 0 <= j < a.len() implies rust_impl_rec_eqv(
                #[trigger] a[j],
                b[j],
            ) by {
                if j < a.len() - 1 {
                    assert(a.drop_last()[j] == a[j]);
                    assert(b.drop_last()[j] == b[j]);
                } else {
                    assert(a.last() == a[j]);
                    assert(b.last() == b[j]);
                    assert(a[j].impl_type@ =~= b[j].impl_type@);
                }
            }
        } else {
            lemma_rust_impls_deterministic(t, n - 1, a, b);
        }
    }
}

/// Two Rust file records agree on identity and, field for field, on every
/// structural category, including the runtime flags.
pub open spec fn rust_sem_eqv(
    a: crate::rustlang::RustFileSemantics,
    b: crate::rustlang::RustFileSemantics,
) -> bool {
    &&& a.file_id == b.file_id
    &&& a.path@ == b.path@
    &&& a.uses@.len() == b.uses@.len()
    &&& forall|j: int| 0 <= j < a.uses@.len() ==> rust_use_rec_eqv(#[trigger] a.uses@[j], b.uses@[j])
    &&& a.functions@.len() == b.functions@.len()
    &&& forall|j: int|
        0 <= j < a.functions@.len() ==> rust_fun_rec_eqv(
            #[trigger] a.functions@[j],
            b.functions@[j],
        )
    &&& a.impls@.len() == b.impls@.len()
    &&& forall|j: int|
        0 <= j < a.impls@.len() ==> rust_impl_rec_eqv(#[trigger] a.impls@[j], b.impls@[j])
    &&& a.calls@.len() == b.calls@.len()
    &&& forall|j: int| 0 <= j < a.calls@.len() ==> rust_site_eqv(#[trigger] a.calls@[j], b.calls@[j])
    &&& a.async_info.spawn_calls@.len() == b.async_info.spawn_calls@.len()
    &&& forall|j: int|
        0 <= j < a.async_info.spawn_calls@.len() ==> rust_spawn_rec_eqv(
            #[trigger] a.async_info.spawn_calls@[j],
            b.async_info.spawn_calls@[j],
        )
    &&& a.async_info.uses_tokio == b.async_info.uses_tokio
    &&& a.async_info.uses_async_std == b.async_info.uses_async_std
    &&& a.http_calls@.len() == 0 && b.http_calls@.len() == 0
    &&& a.db_operations@.len() == 0 && b.db_operations@.len() == 0
}

/// Idempotence of the Rust structural pass: two runs of `from_parsed` on
/// the same parsed file yield equal records in every structural category.
pub proof fn lemma_from_parsed_deterministic_rust(
    p: crate::parse::ParsedFile,
    a: crate::rustlang::RustFileSemantics,
    b: crate::rustlang::RustFileSemantics,
)
    requires
        crate::rustlang::rust_structural_post(p, a),
        crate::rustlang::rust_structural_post(p, b),
    ensures
        rust_sem_eqv(a, b),
{
    lemma_rust_uses_deterministic(p.tree, p.tree.nodes@.len() as int, a.uses@, b.uses@);
    lemma_rust_functions_deterministic(
        p.tree,
        p.tree.nodes@.len() as int,
        a.functions@,
        b.functions@,
    );
    lemma_rust_impls_deterministic(p.tree, p.tree.nodes@.len() as int, a.impls@, b.impls@);
    lemma_call_extraction_deterministic_rust(
        p.tree,
        p.tree.nodes@.len() as int,
        a.calls@,
        b.calls@,
    );
    lemma_rust_spawns_deterministic(
        p.tree,
        p.tree.nodes@.len() as int,
        a.async_info.spawn_calls@,
        b.async_info.spawn_calls@,
    );
    assert(a.async_info.uses_tokio == b.async_info.uses_tokio) by {
        if exists|j: int|
            0 <= j < a.uses@.len() && crate::bytes::has_prefix(
                (#[trigger] a.uses@[j]).path@,
                crate::bytes::lit_bytes("tokio"),
            ) {
            let j = choose|j: int|
                0 <= j < a.uses@.len() && crate::bytes::has_prefix(
                    (#[trigger] a.uses@[j]).path@,
                    crate::bytes::lit_bytes("tokio"),
                );
            assert(rust_use_rec_eqv(a.uses@[j], b.uses@[j]));
            assert(crate::bytes::has_prefix(b.uses@[j].path@, crate::bytes::lit_bytes("tokio")));
        }
        if exists|j: int|
            0 <= j < b.uses@.len() && crate::bytes::has_prefix(
                (#[trigger] b.uses@[j]).path@,
                crate::bytes::lit_bytes("tokio"),
            ) {
            let j = choose|j: int|
                0 <= j < b.uses@.len() && crate::bytes::has_prefix(
                    (#[trigger] b.uses@[j]).path@,
                    crate::bytes::lit_bytes("tokio"),
                );
            assert(rust_use_rec_eqv(a.uses@[j], b.uses@[j]));
            assert(crate::bytes::has_prefix(a.uses@[j].path@, crate::bytes::lit_bytes("tokio")));
        }
    }
    assert(a.async_info.uses_async_std == b.async_info.uses_async_std) by {
        if exists|j: int|
            0 <= j < a.uses@.len() && crate::bytes::has_prefix(
                (#[trigger] a.uses@[j]).path@,
                crate::bytes::lit_bytes("async_std"),
            ) {
            let j = choose|j: int|
                0 <= j < a.uses@.len() && crate::bytes::has_prefix(
                    (#[trigger] a.uses@[j]).path@,
                    crate::bytes::lit_bytes("async_std"),
                );
            assert(rust_use_rec_eqv(a.uses@[j], b.uses@[j]));
            assert(crate::bytes::has_prefix(
                b.uses@[j].path@,
                crate::bytes::lit_bytes("async_std"),
            ));
        }
        if exists|j: int|
            0 <= j < b.uses@.len() && crate::bytes::has_prefix(
                (#[trigger] b.uses@[j]).path@,
                crate::bytes::lit_bytes("async_std"),
            ) {
            let j = choose|j: int|
                0 <= j < b.uses@.len() && crate::bytes::has_prefix(
                    (#[trigger] b.uses@[j]).path@,
                    crate::bytes::lit_bytes("async_std"),
                );
            assert(rust_use_rec_eqv(a.uses@[j], b.uses@[j]));
            assert(crate::bytes::has_prefix(
                a.uses@[j].path@,
                crate::bytes::lit_bytes("async_std"),
            ));
        }
    }
}


/// Two TypeScript import records agree field for field.
pub open spec fn ts_import_rec_eqv(a: crate::typescript::TsImport, b: crate::typescript::TsImport) -> bool {
    &&& a.module@ == b.module@
    &&& opt_bytes_eqv(a.default_import, b.default_import)
    &&& opt_bytes_eqv(a.namespace_import, b.namespace_import)
    &&& a.named_imports@.map_values(|v: Vec<u8>| v@) == b.named_imports@.map_values(
        |v: Vec<u8>| v@,
    )
    &&& a.is_type_only == b.is_type_only
    &&& a.location.start_line == b.location.start_line
    &&& a.location.start_col == b.location.start_col
}

/// Two TypeScript function records agree field for field.
pub open spec fn ts_fun_rec_eqv(a: crate::typescript::TsFunction, b: crate::typescript::TsFunction) -> bool {
    &&& a.name@ == b.name@
    &&& a.is_exported == b.is_exported
    &&& a.is_generator == b.is_generator
    &&& a.is_async == b.is_async
    &&& a.params@.map_values(|p: crate::typescript::TsParam| crate::typescript::ts_param_view(p))
        == b.params@.map_values(|p: crate::typescript::TsParam| crate::typescript::ts_param_view(p))
    &&& opt_bytes_eqv(a.return_type, b.return_type)
    &&& a.has_try_catch == b.has_try_catch
    &&& a.location.start_line == b.location.start_line
    &&& a.location.start_col == b.location.start_col
    &&& a.start_byte == b.start_byte
    &&& a.end_byte == b.end_byte
}

/// Two TypeScript method records agree field for field.
pub open spec fn ts_method_rec_eqv(a: crate::typescript::TsMethod, b: crate::typescript::TsMethod) -> bool {
    &&& a.name@ == b.name@
    &&& a.is_private == b.is_private
    &&& a.is_protected == b.is_protected
    &&& a.is_async == b.is_async
    &&& a.params@.map_values(|p: crate::typescript::TsParam| crate::typescript::ts_param_view(p))
        == b.params@.map_values(|p: crate::typescript::TsParam| crate::typescript::ts_param_view(p))
    &&& opt_bytes_eqv(a.return_type, b.return_type)
    &&& a.decorators@.len() == 0 && b.decorators@.len() == 0
    &&& a.location.start_line == b.location.start_line
    &&& a.location.start_col == b.location.start_col
    &&& a.start_byte == b.start_byte
    &&& a.end_byte == b.end_byte
}

/// TypeScript import extraction is deterministic.
pub proof fn lemma_ts_imports_deterministic(
    t: SynTree,
    n: int,
    a: Seq<crate::typescript::TsImport>,
    b: Seq<crate::typescript::TsImport>,
)
    requires
        0 <= n <= t.nodes@.len(),
        crate::typescript::ts_imports_scan(t, n, a),
        crate::typescript::ts_imports_scan(t, n, b),
    ensures
        a.len() == b.len(),
        forall|j: int| 0 <= j < a.len() ==> ts_import_rec_eqv(#[trigger] a[j], b[j]),
    decreases n,
{
    if n > 0 {
        let i = n - 1;
        let pushed = t.kind_of(i) == crate::bytes::lit_bytes("import_statement")
            && crate::syntree::child_by_field(t, i, crate::bytes::lit_bytes("source")).is_some()
            && crate::golang::strip_quotes_spec(
            t.text_of(
                crate::syntree::child_by_field(t, i, crate::bytes::lit_bytes("source")).unwrap(),
            ),
        ).len() > 0;
        if pushed {
            lemma_ts_imports_deterministic(t, n - 1, a.drop_last(), b.drop_last());
            assert forall|j: int| 0 <= j < a.len() implies ts_import_rec_eqv(
                #[trigger] a[j],
                b[j],
            ) by {
                if j < a.len() - 1 {
                    assert(a.drop_last()[j] == a[j]);
                    assert(b.drop_last()[j] == b[j]);
                } else {
                    assert(a.last() == a[j]);
                    assert(b.last() == b[j]);
                    assert(a[j].named_imports@.map_values(|v: Vec<u8>| v@)
                        =~= b[j].named_imports@.map_values(|v: Vec<u8>| v@));
                }
            }
        } else {
            lemma_ts_imports_deterministic(t, n - 1, a, b);
        }
    }
}

/// TypeScript function extraction is deterministic.
pub proof fn lemma_ts_functions_deterministic(
    t: SynTree,
    n: int,
    a: Seq<crate::typescript::TsFunction>,
    b: Seq<crate::typescript::TsFunction>,
)
    requires
        0 <= n <= t.nodes@.len(),
        crate::typescript::ts_functions_scan(t, n, a),
        crate::typescript::ts_functions_scan(t, n, b),
    ensures
        a.len() == b.len(),
        forall|j: int| 0 <= j < a.len() ==> ts_fun_rec_eqv(#[trigger] a[j], b[j]),
    decreases n,
{
    if n > 0 {
        let i = n - 1;
        let decl = !(t.kind_of(i) == crate::bytes::lit_bytes("import_statement")) && (t.kind_of(i)
            == crate::bytes::lit_bytes("function_declaration") || t.kind_of(i)
            == crate::bytes::lit_bytes("generator_function_declaration"))
            && crate::syntree::child_by_field(t, i, crate::bytes::lit_bytes("name")).is_some();
        let arrow = !(t.kind_of(i) == crate::bytes::lit_bytes("import_statement")) && !(t.kind_of(
            i,
        ) == crate::bytes::lit_bytes("function_declaration") || t.kind_of(i)
            == crate::bytes::lit_bytes("generator_function_declaration")) && t.kind_of(i)
            == crate::bytes::lit_bytes("variable_declarator") && crate::syntree::child_by_field(
            t,
            i,
            crate::bytes::lit_bytes("name"),
        ).is_some() && crate::syntree::child_by_field(
            t,
            i,
            crate::bytes::lit_bytes("value"),
        ).is_some() && t.kind_of(
            crate::syntree::child_by_field(t, i, crate::bytes::lit_bytes("value")).unwrap(),
        ) == crate::bytes::lit_bytes("arrow_function");
        if decl || arrow {
            lemma_ts_functions_deterministic(t, n - 1, a.drop_last(), b.drop_last());
            assert forall|j: int| 0 <= j < a.len() implies ts_fun_rec_eqv(
                #[trigger] a[j],
                b[j],
            ) by {
                if j < a.len() - 1 {
                    assert(a.drop_last()[j] == a[j]);
                    assert(b.drop_last()[j] == b[j]);
                } else {
                    assert(a.last() == a[j]);
                    assert(b.last() == b[j]);
                }
            }
        } else {
            lemma_ts_functions_deterministic(t, n - 1, a, b);
        }
    }
}

/// The methods of one class are collected deterministically.
pub proof fn lemma_ts_class_methods_deterministic(
    t: SynTree,
    i: int,
    m: int,
    a: Seq<crate::typescript::TsMethod>,
    b: Seq<crate::typescript::TsMethod>,
)
    requires
        0 <= i,
        0 <= m <= t.nodes@.len(),
        crate::typescript::ts_class_methods_upto(t, i, m, a),
        crate::typescript::ts_class_methods_upto(t, i, m, b),
    ensures
        a.len() == b.len(),
        forall|j: int| 0 <= j < a.len() ==> ts_method_rec_eqv(#[trigger] a[j], b[j]),
    decreases m,
{
    if m > i + 1 {
        let pushed = t.kind_of(m - 1) == crate::bytes::lit_bytes("method_definition")
            && crate::syntree::nearest_anc_kind(
            t,
            m - 1,
            crate::bytes::lit_bytes("class_declaration"),
        ) == Some(i) && crate::syntree::child_by_field(
            t,
            m - 1,
            crate::bytes::lit_bytes("name"),
        ).is_some();
        if pushed {
            lemma_ts_class_methods_deterministic(t, i, m - 1, a.drop_last(), b.drop_last());
            assert forall|j: int| 0 <= j < a.len() implies ts_method_rec_eqv(
                #[trigger] a[j],
                b[j],
            ) by {
                if j < a.len() - 1 {
                    assert(a.drop_last()[j] == a[j]);
                    assert(b.drop_last()[j] == b[j]);
                } else {
                    assert(a.last() == a[j]);
                    assert(b.last() == b[j]);
                }
            }
        } else {
            lemma_ts_class_methods_deterministic(t, i, m - 1, a, b);
        }
    }
}

/// Two TypeScript class records agree field for field.
pub open spec fn ts_class_rec_eqv(a: crate::typescript::TsClass, b: crate::typescript::TsClass) -> bool {
    &&& a.name@ == b.name@
    &&& a.methods@.len() == b.methods@.len()
    &&& forall|k: int|
        0 <= k < a.methods@.len() ==> ts_method_rec_eqv(#[trigger] a.methods@[k], b.methods@[k])
}

/// TypeScript class extraction is deterministic.
pub proof fn lemma_ts_classes_deterministic(
    t: SynTree,
    n: int,
    a: Seq<crate::typescript::TsClass>,
    b: Seq<crate::typescript::TsClass>,
)
    requires
        0 <= n <= t.nodes@.len(),
        crate::typescript::ts_classes_scan(t, n, a),
        crate::typescript::ts_classes_scan(t, n, b),
    ensures
        a.len() == b.len(),
        forall|j: int| 0 <= j < a.len() ==> ts_class_rec_eqv(#[trigger] a[j], b[j]),
    decreases n,
{
    if n > 0 {
        let i = n - 1;
        let pushed = !(t.kind_of(i) == crate::bytes::lit_bytes("import_statement") || t.kind_of(i)
            == crate::bytes::lit_bytes("function_declaration") || t.kind_of(i)
            == crate::bytes::lit_bytes("generator_function_declaration") || t.kind_of(i)
            == crate::bytes::lit_bytes("variable_declarator")) && t.kind_of(i)
            == crate::bytes::lit_bytes("class_declaration");
        if pushed {
            lemma_ts_classes_deterministic(t, n - 1, a.drop_last(), b.drop_last());
            lemma_ts_class_methods_deterministic(
                t,
                i,
                t.nodes@.len() as int,
                a.last().methods@,
                b.last().methods@,
            );
            assert forall|j: int| 0 <= j < a.len() implies ts_class_rec_eqv(
                #[trigger] a[j],
                b[j],
            ) by {
                if j < a.len() - 1 {
                    assert(a.drop_last()[j] == a[j]);
                    assert(b.drop_last()[j] == b[j]);
                } else {
                    assert(a.last() == a[j]);
                    assert(b.last() == b[j]);
                    assert(a[j].name@ =~= b[j].name@);
                }
            }
        } else {
            lemma_ts_classes_deterministic(t, n - 1, a, b);
        }
    }
}

/// Two TypeScript file records agree on identity and, field for field, on
/// every structural category.
pub open spec fn ts_sem_eqv(
    a: crate::typescript::TsFileSemantics,
    b: crate::typescript::TsFileSemantics,
) -> bool {
    &&& a.file_id == b.file_id
    &&& a.path@ == b.path@
    &&& a.imports@.len() == b.imports@.len()
    &&& forall|j: int|
        0 <= j < a.imports@.len() ==> ts_import_rec_eqv(#[trigger] a.imports@[j], b.imports@[j])
    &&& a.functions@.len() == b.functions@.len()
    &&& forall|j: int|
        0 <= j < a.functions@.len() ==> ts_fun_rec_eqv(#[trigger] a.functions@[j], b.functions@[j])
    &&& a.classes@.len() == b.classes@.len()
    &&& forall|j: int|
        0 <= j < a.classes@.len() ==> ts_class_rec_eqv(#[trigger] a.classes@[j], b.classes@[j])
    &&& a.calls@.len() == b.calls@.len()
    &&& forall|j: int| 0 <= j < a.calls@.len() ==> ts_site_eqv(#[trigger] a.calls@[j], b.calls@[j])
    &&& a.http_calls@.len() == 0 && b.http_calls@.len() == 0
    &&& a.db_operations@.len() == 0 && b.db_operations@.len() == 0
    &&& a.async_operations@.len() == 0 && b.async_operations@.len() == 0
}

/// Idempotence of the TypeScript structural pass: two runs of
/// `from_parsed` on the same parsed file yield equal records in every
/// structural category.
pub proof fn lemma_from_parsed_deterministic_ts(
    p: crate::parse::ParsedFile,
    a: crate::typescript::TsFileSemantics,
    b: crate::typescript::TsFileSemantics,
)
    requires
        crate::typescript::ts_structural_post(p, a),
        crate::typescript::ts_structural_post(p, b),
    ensures
        ts_sem_eqv(a, b),
{
    lemma_ts_imports_deterministic(p.tree, p.tree.nodes@.len() as int, a.imports@, b.imports@);
    lemma_ts_functions_deterministic(
        p.tree,
        p.tree.nodes@.len() as int,
        a.functions@,
        b.functions@,
    );
    lemma_ts_classes_deterministic(p.tree, p.tree.nodes@.len() as int, a.classes@, b.classes@);
    lemma_call_extraction_deterministic_ts(
        p.tree,
        p.tree.nodes@.len() as int,
        a.calls@,
        b.calls@,
    );
}


/// Two spawn records agree field for field.
pub open spec fn rust_spawn_rec_eqv(a: crate::rustlang::SpawnCall, b: crate::rustlang::SpawnCall) -> bool {
    &&& a.has_error_handling == b.has_error_handling
    &&& a.handle_captured == b.handle_captured
    &&& a.spawned_expr@ == b.spawned_expr@
    &&& opt_bytes_eqv(a.function_name, b.function_name)
    &&& a.location.start_line == b.location.start_line
    &&& a.location.start_col == b.location.start_col
    &&& a.start_byte == b.start_byte
    &&& a.end_byte == b.end_byte
}

/// Rust spawn extraction is deterministic.
pub proof fn lemma_rust_spawns_deterministic(
    t: SynTree,
    n: int,
    a: Seq<crate::rustlang::SpawnCall>,
    b: Seq<crate::rustlang::SpawnCall>,
)
    requires
        0 <= n <= t.nodes@.len(),
        crate::rustlang::rust_spawns_scan(t, n, a),
        crate::rustlang::rust_spawns_scan(t, n, b),
    ensures
        a.len() == b.len(),
        forall|j: int| 0 <= j < a.len() ==> rust_spawn_rec_eqv(#[trigger] a[j], b[j]),
    decreases n,
{
    if n > 0 {
        let i = n - 1;
        let pushed = !(t.kind_of(i) == crate::bytes::lit_bytes("use_declaration") || t.kind_of(i)
            == crate::bytes::lit_bytes("function_item") || t.kind_of(i) == crate::bytes::lit_bytes(
            "impl_item",
        )) && t.kind_of(i) == crate::bytes::lit_bytes("call_expression")
            && crate::syntree::child_by_field(t, i, crate::bytes::lit_bytes("function")).is_some()
            && crate::rustlang::rust_spawn_cond(t, i);
        if pushed {
            lemma_rust_spawns_deterministic(t, n - 1, a.drop_last(), b.drop_last());
            assert forall|j: int| 0 <= j < a.len() implies rust_spawn_rec_eqv(
                #[trigger] a[j],
                b[j],
            ) by {
                if j < a.len() - 1 {
                    assert(a.drop_last()[j] == a[j]);
                    assert(b.drop_last()[j] == b[j]);
                } else {
                    assert(a.last() == a[j]);
                    assert(b.last() == b[j]);
                }
            }
        } else {
            lemma_rust_spawns_deterministic(t, n - 1, a, b);
        }
    }
}

} // verus!









