//! Normalization of Go semantics onto the shared schema.

use vstd::prelude::*;
use crate::bytes::{contains_seq, has_prefix, lit_bytes, opt_bytes_eqv, upper_seq};
use crate::common::{
    Annotation, AsyncOperation, AsyncOperationType, AsyncRuntime, CancellationHandling,
    CommonLocation, DbLibrary, DbOperation, DbOperationType, ErrorContext, ErrorHandling,
    FunctionCall, FunctionDef, FunctionKind, FunctionParam, HttpCall,
    HttpClientLibrary, Import, ImportSource, ImportStyle, RoutePattern, Visibility,
};
use crate::golang::{
    ChannelOp, ChannelOpKind, DeferStatement, GoCallSite, GoDbOperation, GoFileSemantics,
    GoFunction, GoHttpClientKind, GoImport, GoMethod, Goroutine, MutexOperation, SelectStatement,
};
use crate::lang::{FileId, Lang};
use crate::normalize::{call_conv_rel, common_loc, import_wf, loc_conv, split_call};
use crate::rustlang::{http_method_of, http_method_rel};

verus! {

/// The source class of a Go import path: a leading dot or slash means a
/// local module, a known host or a dotted path an external one, anything
/// else the standard library.  The local test comes first, so a relative
/// path is never mistaken for an external dotted one.
pub open spec fn go_source_spec(path: Seq<u8>) -> ImportSource {
    if has_prefix(path, lit_bytes(".")) || has_prefix(path, lit_bytes("/")) {
        ImportSource::Local
    } else if has_prefix(path, lit_bytes("github.com")) || has_prefix(path, lit_bytes(
        "golang.org",
    )) || contains_seq(path, lit_bytes(".")) {
        ImportSource::External
    } else {
        ImportSource::StandardLib
    }
}

/// One Go import normalized onto the shared schema.
pub open spec fn go_import_conv(imp: GoImport, fid: FileId, out: Import) -> bool {
    &&& out.module@ == imp.path@
    &&& out.style == ImportStyle::Module
    &&& out.source == go_source_spec(imp.path@)
    &&& out.items@.len() == 0
    &&& opt_bytes_eqv(out.module_alias, imp.alias)
    &&& out.raw_text@.len() == 0
    &&& !out.is_type_only
    &&& !out.is_dynamic
    &&& out.location.file_id == fid
    &&& out.location.line == imp.location.start_line + 1
    &&& out.location.column == imp.location.start_col + 1
    &&& out.location.start_byte == 0
    &&& out.location.end_byte == 0
}

/// Converts a Go import to the shared import record.  The conversion is
/// total.
pub fn convert_go_import(go_import: &GoImport, file_id: FileId) -> (r: Option<Import>)
    requires
        crate::golang::go_import_wf(*go_import),
    ensures
        r.is_some(),
        go_import_conv(*go_import, file_id, r.unwrap()),
        import_wf(r.unwrap()),
{
    let source = if crate::bytes::starts_with_lit(go_import.path.as_slice(), ".")
        || crate::bytes::starts_with_lit(go_import.path.as_slice(), "/") {
        ImportSource::Local
    } else if crate::bytes::starts_with_lit(go_import.path.as_slice(), "github.com")
        || crate::bytes::starts_with_lit(go_import.path.as_slice(), "golang.org")
        || crate::bytes::contains_lit(go_import.path.as_slice(), ".") {
        ImportSource::External
    } else {
        ImportSource::StandardLib
    };
    Some(
        Import {
            module: crate::bytes::bytes_to_vec(go_import.path.as_slice()),
            style: ImportStyle::Module,
            source,
            items: Vec::new(),
            module_alias: crate::bytes::clone_opt_bytes(&go_import.alias),
            raw_text: Vec::new(),
            is_type_only: false,
            is_dynamic: false,
            location: CommonLocation {
                file_id,
                line: go_import.location.start_line + 1,
                column: go_import.location.start_col + 1,
                start_byte: 0,
                end_byte: 0,
            },
        },
    )
}

/// One Go call site converted to the shared call record.
pub fn convert_go_call_site(call: &GoCallSite) -> (r: FunctionCall)
    ensures
        call_conv_rel(call.callee_expr@, call.line, call.column, r),
{
    split_call(call.callee_expr.as_slice(), call.line, call.column)
}

/// Go visibility: exported names start with an upper-case letter, the rest
/// are package-visible.
pub open spec fn go_visibility_spec(name: Seq<u8>) -> Visibility {
    if name.len() > 0 && 65 <= name[0] <= 90 {
        Visibility::Public
    } else {
        Visibility::Package
    }
}

/// Whether a Go name is exported.
pub fn go_is_public(name: &[u8]) -> (r: bool)
    ensures
        r == (go_visibility_spec(name@) == Visibility::Public),
{
    name.len() > 0 && 65 <= name[0] && name[0] <= 90
}

/// The comma-separated join of a list of byte strings.
pub open spec fn join_comma(parts: Seq<Vec<u8>>) -> Seq<u8>
    decreases parts.len(),
{
    if parts.len() == 0 {
        Seq::empty()
    } else if parts.len() == 1 {
        parts[0]@
    } else {
        join_comma(parts.drop_last()) + lit_bytes(", ") + parts.last()@
    }
}

/// Joins byte strings with a comma and a space.
pub fn join_comma_exec(parts: &Vec<Vec<u8>>) -> (r: Vec<u8>)
    ensures
        r@ == join_comma(parts@),
{
    let n = parts.len();
    let mut out: Vec<u8> = Vec::new();
    let mut i: usize = 0;
    while i < n
        invariant
            n == parts@.len(),
            i <= n,
            out@ == join_comma(parts@.subrange(0, i as int)),
        decreases n - i,
    {
        proof {
            assert(parts@.subrange(0, i + 1).drop_last() =~= parts@.subrange(0, i as int));
            assert(parts@.subrange(0, i + 1).last() == parts@[i as int]);
        }
        if i > 0 {
            crate::bytes::append_bytes(&mut out, ", ".as_bytes());
        } else {
            proof {
                assert(parts@.subrange(0, 1).len() == 1);
            }
        }
        crate::bytes::append_bytes(&mut out, parts[i].as_slice());
        i = i + 1;
    }
    proof {
        assert(parts@.subrange(0, n as int) =~= parts@);
    }
    out
}

/// The call sites of `all` contained in `[s, e]`, converted, over the first
/// `n` entries.
pub open spec fn go_calls_sel(
    all: Seq<GoCallSite>,
    n: int,
    s: usize,
    e: usize,
    out: Seq<FunctionCall>,
) -> bool
    decreases n
        when 0 <= n <= all.len()
{
    if n == 0 {
        out.len() == 0
    } else if s <= all[n - 1].start_byte && all[n - 1].end_byte <= e {
        &&& out.len() > 0
        &&& go_calls_sel(all, n - 1, s, e, out.drop_last())
        &&& call_conv_rel(all[n - 1].callee_expr@, all[n - 1].line, all[n - 1].column, out.last())
    } else {
        go_calls_sel(all, n - 1, s, e, out)
    }
}

/// Collects the calls of `all` contained in `[s, e]`, converted.
fn go_calls_in_range(all: &Vec<GoCallSite>, s: usize, e: usize) -> (r: Vec<FunctionCall>)
    ensures
        go_calls_sel(all@, all@.len() as int, s, e, r@),
{
    let cn = all.len();
    let mut calls: Vec<FunctionCall> = Vec::new();
    let mut c: usize = 0;
    while c < cn
        invariant
            cn == all@.len(),
            c <= cn,
            go_calls_sel(all@, c as int, s, e, calls@),
        decreases cn - c,
    {
        let site = &all[c];
        if s <= site.start_byte && site.end_byte <= e {
            let ghost prev = calls@;
            let fc = split_call(site.callee_expr.as_slice(), site.line, site.column);
            calls.push(fc);
            proof {
                assert(calls@.drop_last() =~= prev);
            }
        }
        c = c + 1;
    }
    calls
}

/// The parameters of a Go function, normalized: name and type carried over.
pub open spec fn go_params_conv(ps: Seq<crate::golang::GoParam>, out: Seq<FunctionParam>) -> bool {
    &&& out.len() == ps.len()
    &&& forall|k: int|
        0 <= k < ps.len() ==> {
            &&& (#[trigger] out[k]).name@ == ps[k].name@
            &&& (match out[k].type_annotation {
                Some(v) => v@ == ps[k].param_type@,
                None => false,
            })
            &&& out[k].default_value.is_none()
            &&& !out[k].is_variadic
        }
}

/// Converts Go parameters.
fn go_convert_params(ps: &Vec<crate::golang::GoParam>) -> (r: Vec<FunctionParam>)
    ensures
        go_params_conv(ps@, r@),
{
    let n = ps.len();
    let mut out: Vec<FunctionParam> = Vec::new();
    let mut k: usize = 0;
    while k < n
        invariant
            n == ps@.len(),
            k <= n,
            go_params_conv(ps@.subrange(0, k as int), out@),
            out@.len() == k,
        decreases n - k,
    {
        let p = &ps[k];
        out.push(
            FunctionParam {
                name: crate::bytes::bytes_to_vec(p.name.as_slice()),
                type_annotation: Some(crate::bytes::bytes_to_vec(p.param_type.as_slice())),
                default_value: None,
                is_variadic: false,
            },
        );
        proof {
            assert(ps@.subrange(0, k + 1)[k as int] == ps@[k as int]);
            assert(forall|j: int| 0 <= j < k ==> ps@.subrange(0, k + 1)[j] == ps@[j]);
        }
        k = k + 1;
    }
    proof {
        assert(ps@.subrange(0, n as int) =~= ps@);
    }
    out
}

/// One Go function normalized onto the shared schema.
pub open spec fn go_fun_conv(
    f: GoFunction,
    fid: FileId,
    all_calls: Seq<GoCallSite>,
    out: FunctionDef,
) -> bool {
    &&& out.name@ == f.name@
    &&& out.kind == FunctionKind::Function
    &&& out.visibility == go_visibility_spec(f.name@)
    &&& !out.is_async
    &&& go_params_conv(f.params@, out.params@)
    &&& (match out.return_type {
        Some(v) => f.return_types@.len() > 0 && v@ == join_comma(f.return_types@),
        None => f.return_types@.len() == 0,
    })
    &&& out.decorators@.len() == 0
    &&& out.class_name.is_none()
    &&& go_calls_sel(all_calls, all_calls.len() as int, f.start_byte, f.end_byte, out.calls@)
    &&& out.body_lines == 0
    &&& out.has_error_handling == f.returns_error
    &&& !out.has_documentation
    &&& loc_conv(fid, f.location, f.start_byte, f.end_byte, out.location)
    &&& out.start_byte == f.start_byte
    &&& out.end_byte == f.end_byte
}

/// Converts a Go function to the shared definition record.  The conversion
/// is total.
pub fn convert_go_function(
    go_func: &GoFunction,
    file_id: FileId,
    all_calls: &Vec<GoCallSite>,
) -> (r: Option<FunctionDef>)
    requires
        crate::golang::go_fun_wf(*go_func),
    ensures
        r.is_some(),
        go_fun_conv(*go_func, file_id, all_calls@, r.unwrap()),
{
    let visibility = if go_is_public(go_func.name.as_slice()) {
        Visibility::Public
    } else {
        Visibility::Package
    };
    let return_type = if go_func.return_types.len() == 0 {
        None
    } else {
        Some(join_comma_exec(&go_func.return_types))
    };
    Some(
        FunctionDef {
            name: crate::bytes::bytes_to_vec(go_func.name.as_slice()),
            kind: FunctionKind::Function,
            visibility,
            is_async: false,
            params: go_convert_params(&go_func.params),
            return_type,
            decorators: Vec::new(),
            class_name: None,
            calls: go_calls_in_range(all_calls, go_func.start_byte, go_func.end_byte),
            body_lines: 0,
            has_error_handling: go_func.returns_error,
            has_documentation: false,
            location: common_loc(file_id, &go_func.location, go_func.start_byte, go_func.end_byte),
            start_byte: go_func.start_byte,
            end_byte: go_func.end_byte,
        },
    )
}

/// One Go method normalized onto the shared schema: a leading receiver
/// parameter named `self`, typed with the receiver (starred when it is a
/// pointer), then the declared parameters.
pub open spec fn go_method_conv(
    m: GoMethod,
    fid: FileId,
    all_calls: Seq<GoCallSite>,
    out: FunctionDef,
) -> bool {
    &&& out.name@ == m.name@
    &&& out.kind == FunctionKind::Method
    &&& out.visibility == go_visibility_spec(m.name@)
    &&& !out.is_async
    &&& out.params@.len() == m.params@.len() + 1
    &&& out.params@.len() > 0
    &&& out.params@[0].name@ == lit_bytes("self")
    &&& (match out.params@[0].type_annotation {
        Some(v) => v@ == if m.receiver_is_pointer {
            lit_bytes("*") + m.receiver_type@
        } else {
            m.receiver_type@
        },
        None => false,
    })
    &&& go_params_conv(m.params@, out.params@.subrange(1, out.params@.len() as int))
    &&& (match out.return_type {
        Some(v) => m.return_types@.len() > 0 && v@ == join_comma(m.return_types@),
        None => m.return_types@.len() == 0,
    })
    &&& out.decorators@.len() == 0
    &&& (match out.class_name {
        Some(v) => v@ == m.receiver_type@,
        None => false,
    })
    &&& go_calls_sel(all_calls, all_calls.len() as int, m.start_byte, m.end_byte, out.calls@)
    &&& out.body_lines == 0
    &&& out.has_error_handling == m.returns_error
    &&& !out.has_documentation
    &&& loc_conv(fid, m.location, m.start_byte, m.end_byte, out.location)
    &&& out.start_byte == m.start_byte
    &&& out.end_byte == m.end_byte
}

/// Converts a Go method to the shared definition record.  The conversion is
/// total.
pub fn convert_go_method(
    go_method: &GoMethod,
    file_id: FileId,
    all_calls: &Vec<GoCallSite>,
) -> (r: Option<FunctionDef>)
    requires
        crate::golang::go_method_wf(*go_method),
    ensures
        r.is_some(),
        go_method_conv(*go_method, file_id, all_calls@, r.unwrap()),
{
    let visibility = if go_is_public(go_method.name.as_slice()) {
        Visibility::Public
    } else {
        Visibility::Package
    };
    let receiver: Vec<u8> = if go_method.receiver_is_pointer {
        let mut rv = crate::bytes::lit_to_vec("*");
        crate::bytes::append_bytes(&mut rv, go_method.receiver_type.as_slice());
        rv
    } else {
        crate::bytes::bytes_to_vec(go_method.receiver_type.as_slice())
    };
    let mut params: Vec<FunctionParam> = Vec::new();
    params.push(
        FunctionParam {
            name: crate::bytes::lit_to_vec("self"),
            type_annotation: Some(receiver),
            default_value: None,
            is_variadic: false,
        },
    );
    let rest = go_convert_params(&go_method.params);
    let rn = rest.len();
    let mut k: usize = 0;
    let ghost rest0 = rest@;
    let mut rest_m = rest;
    while k < rn
        invariant
            rn == rest0.len(),
            k <= rn,
            rest_m@ == rest0.subrange(k as int, rn as int),
            params@.len() == 1 + k,
            params@[0].name@ == lit_bytes("self"),
            (match params@[0].type_annotation {
                Some(v) => v@ == if go_method.receiver_is_pointer {
                    lit_bytes("*") + go_method.receiver_type@
                } else {
                    go_method.receiver_type@
                },
                None => false,
            }),
            params@[0].default_value.is_none(),
            !params@[0].is_variadic,
            forall|j: int| 0 <= j < k ==> params@[1 + j] == rest0[j],
        decreases rn - k,
    {
        let p = rest_m.remove(0);
        params.push(p);
        k = k + 1;
    }
    let return_type = if go_method.return_types.len() == 0 {
        None
    } else {
        Some(join_comma_exec(&go_method.return_types))
    };
    proof {
        assert(go_params_conv(go_method.params@, rest0));
        assert(params@.subrange(1, params@.len() as int) =~= rest0);
    }
    Some(
        FunctionDef {
            name: crate::bytes::bytes_to_vec(go_method.name.as_slice()),
            kind: FunctionKind::Method,
            visibility,
            is_async: false,
            params,
            return_type,
            decorators: Vec::new(),
            class_name: Some(crate::bytes::bytes_to_vec(go_method.receiver_type.as_slice())),
            calls: go_calls_in_range(all_calls, go_method.start_byte, go_method.end_byte),
            body_lines: 0,
            has_error_handling: go_method.returns_error,
            has_documentation: false,
            location: common_loc(
                file_id,
                &go_method.location,
                go_method.start_byte,
                go_method.end_byte,
            ),
            start_byte: go_method.start_byte,
            end_byte: go_method.end_byte,
        },
    )
}

/// One Go goroutine as a shared task-spawn operation.
pub open spec fn go_goroutine_conv(g: Goroutine, fid: FileId, out: AsyncOperation) -> bool {
    &&& out.runtime == AsyncRuntime::Goroutine
    &&& out.operation_type == AsyncOperationType::TaskSpawn
    &&& out.has_error_handling == g.has_recover
    &&& (match out.error_handling {
        Some(h) => g.has_recover && (match h {
            ErrorHandling::Other(v) => v@ == lit_bytes("recover"),
            _ => false,
        }),
        None => !g.has_recover,
    })
    &&& !out.has_timeout
    &&& out.timeout_millis.is_none()
    &&& out.has_cancellation == (g.has_context_param || g.has_done_channel)
    &&& (match out.cancellation_handling {
        Some(h) => g.has_done_channel && h == CancellationHandling::ChannelClose,
        None => !g.has_done_channel,
    })
    &&& !out.is_bounded
    &&& out.bound_limit.is_none()
    &&& !out.has_cleanup
    &&& out.operation_text@ == g.text@
    &&& loc_conv(fid, g.location, g.start_byte, g.end_byte, out.location)
    &&& opt_bytes_eqv(out.enclosing_function, g.function_name)
    &&& out.start_byte == g.start_byte
    &&& out.end_byte == g.end_byte
}

/// One Go channel operation as a shared operation; a close carries the
/// Unknown operation type.
pub open spec fn go_chan_conv(ch: ChannelOp, fid: FileId, out: AsyncOperation) -> bool {
    &&& out.runtime == AsyncRuntime::Goroutine
    &&& out.operation_type == (match ch.kind {
        ChannelOpKind::Send => AsyncOperationType::ChannelSend,
        ChannelOpKind::Receive => AsyncOperationType::ChannelReceive,
        ChannelOpKind::Close => AsyncOperationType::Unknown,
    })
    &&& !out.has_error_handling
    &&& out.error_handling.is_none()
    &&& !out.has_timeout
    &&& out.timeout_millis.is_none()
    &&& !out.has_cancellation
    &&& out.cancellation_handling.is_none()
    &&& !out.is_bounded
    &&& out.bound_limit.is_none()
    &&& !out.has_cleanup
    &&& out.operation_text@ == ch.text@
    &&& loc_conv(fid, ch.location, ch.start_byte, ch.end_byte, out.location)
    &&& opt_bytes_eqv(out.enclosing_function, ch.function_name)
    &&& out.start_byte == ch.start_byte
    &&& out.end_byte == ch.end_byte
}

/// One segment of converted channel records, elementwise: every channel
/// operation yields a record, a close as an operation of type Unknown.
pub open spec fn go_chan_seg(all: Seq<ChannelOp>, fid: FileId, seg: Seq<AsyncOperation>) -> bool {
    seg.len() == all.len() && forall|j: int|
        0 <= j < all.len() ==> go_chan_conv(all[j], fid, #[trigger] seg[j])
}

/// One Go `select` statement as a shared race operation.
pub open spec fn go_select_conv(s: SelectStatement, fid: FileId, out: AsyncOperation) -> bool {
    &&& out.runtime == AsyncRuntime::Goroutine
    &&& out.operation_type == AsyncOperationType::SelectRace
    &&& !out.has_error_handling
    &&& out.error_handling.is_none()
    &&& !out.has_timeout
    &&& out.timeout_millis.is_none()
    &&& out.has_cancellation == s.is_cancellation_pattern
    &&& (match out.cancellation_handling {
        Some(h) => s.is_cancellation_pattern && h == CancellationHandling::ChannelClose,
        None => !s.is_cancellation_pattern,
    })
    &&& !out.is_bounded
    &&& out.bound_limit.is_none()
    &&& !out.has_cleanup
    &&& out.operation_text@ == s.text@
    &&& loc_conv(fid, s.location, s.start_byte, s.end_byte, out.location)
    &&& opt_bytes_eqv(out.enclosing_function, s.function_name)
    &&& out.start_byte == s.start_byte
    &&& out.end_byte == s.end_byte
}

/// One Go mutex call as a shared lock operation.
pub open spec fn go_mutex_conv(m: MutexOperation, fid: FileId, out: AsyncOperation) -> bool {
    &&& out.runtime == AsyncRuntime::Goroutine
    &&& out.operation_type == (if m.operation_type@ == lit_bytes("Lock") || m.operation_type@
        == lit_bytes("RLock") {
        AsyncOperationType::LockAcquire
    } else {
        AsyncOperationType::LockRelease
    })
    &&& out.has_error_handling == m.uses_defer_unlock
    &&& (match out.error_handling {
        Some(h) => m.uses_defer_unlock && (match h {
            ErrorHandling::Other(v) => v@ == lit_bytes("defer"),
            _ => false,
        }),
        None => !m.uses_defer_unlock,
    })
    &&& !out.has_timeout
    &&& out.timeout_millis.is_none()
    &&& !out.has_cancellation
    &&& out.cancellation_handling.is_none()
    &&& !out.is_bounded
    &&& out.bound_limit.is_none()
    &&& out.has_cleanup == m.uses_defer_unlock
    &&& out.operation_text@ == m.text@
    &&& loc_conv(fid, m.location, m.lock_start_byte, m.lock_end_byte, out.location)
    &&& opt_bytes_eqv(out.enclosing_function, m.function_name)
    &&& out.start_byte == m.lock_start_byte
    &&& out.end_byte == m.lock_end_byte
}

/// One Go `defer` statement surfaced as a cleanup-tracking operation.
pub open spec fn go_defer_conv(d: DeferStatement, fid: FileId, out: AsyncOperation) -> bool {
    &&& out.runtime == AsyncRuntime::Goroutine
    &&& out.operation_type == AsyncOperationType::Unknown
    &&& out.has_error_handling == d.is_resource_cleanup
    &&& out.error_handling.is_none()
    &&& !out.has_timeout
    &&& out.timeout_millis.is_none()
    &&& out.has_cancellation == d.is_resource_cleanup
    &&& (match out.cancellation_handling {
        Some(h) => d.is_resource_cleanup && (match h {
            CancellationHandling::Other(v) => v@ == lit_bytes("defer_cleanup"),
            _ => false,
        }),
        None => !d.is_resource_cleanup,
    })
    &&& !out.is_bounded
    &&& out.bound_limit.is_none()
    &&& out.has_cleanup
    &&& out.operation_text@ == d.text@
    &&& loc_conv(fid, d.location, d.start_byte, d.end_byte, out.location)
    &&& opt_bytes_eqv(out.enclosing_function, d.function_name)
    &&& out.start_byte == d.start_byte
    &&& out.end_byte == d.end_byte
}

/// One segment of converted records, elementwise.
pub open spec fn go_gor_seg(gs: Seq<Goroutine>, fid: FileId, seg: Seq<AsyncOperation>) -> bool {
    seg.len() == gs.len() && forall|j: int|
        0 <= j < gs.len() ==> go_goroutine_conv(gs[j], fid, #[trigger] seg[j])
}

/// One segment of converted `select` records, elementwise.
pub open spec fn go_sel_seg(ss: Seq<SelectStatement>, fid: FileId, seg: Seq<AsyncOperation>) -> bool {
    seg.len() == ss.len() && forall|j: int|
        0 <= j < ss.len() ==> go_select_conv(ss[j], fid, #[trigger] seg[j])
}

/// One segment of converted mutex records, elementwise.
pub open spec fn go_mutex_seg(ms: Seq<MutexOperation>, fid: FileId, seg: Seq<AsyncOperation>) -> bool {
    seg.len() == ms.len() && forall|j: int|
        0 <= j < ms.len() ==> go_mutex_conv(ms[j], fid, #[trigger] seg[j])
}

/// One segment of converted `defer` records, elementwise.
pub open spec fn go_defer_seg(ds: Seq<DeferStatement>, fid: FileId, seg: Seq<AsyncOperation>) -> bool {
    seg.len() == ds.len() && forall|j: int|
        0 <= j < ds.len() ==> go_defer_conv(ds[j], fid, #[trigger] seg[j])
}

/// The shared async view of one Go file: goroutines, then channel
/// operations, then selects, mutex operations and defers, each segment
/// converted elementwise.
pub open spec fn go_async_rel(s: GoFileSemantics, out: Seq<AsyncOperation>) -> bool {
    exists|k1: int, k2: int, k3: int, k4: int|
        {
            &&& 0 <= k1 <= k2 <= k3 <= k4 <= out.len()
            &&& go_gor_seg(s.goroutines@, s.file_id, #[trigger] out.subrange(0, k1))
            &&& go_chan_seg(s.channel_ops@, s.file_id, #[trigger] out.subrange(k1, k2))
            &&& go_sel_seg(s.select_statements@, s.file_id, #[trigger] out.subrange(k2, k3))
            &&& go_mutex_seg(s.mutex_operations@, s.file_id, #[trigger] out.subrange(k3, k4))
            &&& go_defer_seg(s.defers@, s.file_id, out.subrange(k4, out.len() as int))
        }
}


/// The shared database library of a Go library tag.
pub open spec fn go_db_library_rel(tag: Seq<u8>, l: DbLibrary) -> bool {
    if tag == lit_bytes("database/sql") {
        l == DbLibrary::DatabaseSql
    } else if tag == lit_bytes("GORM") {
        l == DbLibrary::Gorm
    } else if tag == lit_bytes("sqlx") {
        l == DbLibrary::Sqlx
    } else if tag == lit_bytes("sqlc") {
        l == DbLibrary::Sqlc
    } else {
        match l {
            DbLibrary::Other(v) => v@ == tag,
            _ => false,
        }
    }
}

/// The shared operation type of a Go operation tag.
pub open spec fn go_db_type_spec(tag: Seq<u8>) -> DbOperationType {
    if tag == lit_bytes("SELECT") {
        DbOperationType::Select
    } else if tag == lit_bytes("INSERT") {
        DbOperationType::Insert
    } else if tag == lit_bytes("UPDATE") {
        DbOperationType::Update
    } else if tag == lit_bytes("DELETE") {
        DbOperationType::Delete
    } else if tag == lit_bytes("CONNECT") {
        DbOperationType::Connect
    } else if tag == lit_bytes("BEGIN") {
        DbOperationType::TransactionBegin
    } else if tag == lit_bytes("COMMIT") {
        DbOperationType::TransactionCommit
    } else if tag == lit_bytes("ROLLBACK") {
        DbOperationType::TransactionRollback
    } else if tag == lit_bytes("RAW_SQL") {
        DbOperationType::RawSql
    } else {
        DbOperationType::Unknown
    }
}

/// One Go database operation normalized onto the shared schema.
pub open spec fn go_db_conv(op: GoDbOperation, out: DbOperation) -> bool {
    &&& go_db_library_rel(op.library@, out.library)
    &&& out.operation_type == go_db_type_spec(op.operation_type@)
    &&& out.has_timeout == op.has_timeout
    &&& out.timeout_millis == op.timeout_millis
    &&& out.in_transaction == op.in_transaction
    &&& crate::normalize::eager_eqv(out.eager_loading, op.eager_loading)
    &&& out.in_loop == op.in_loop
    &&& out.in_iteration == op.in_iteration
    &&& opt_bytes_eqv(out.model_name, op.model_name)
    &&& opt_bytes_eqv(out.relationship_field, op.relationship_field)
    &&& out.operation_text@ == op.operation_text@
    &&& out.location.file_id == op.location.file_id
    &&& out.location.line == op.location.line
    &&& out.location.column == op.location.column
    &&& out.location.start_byte == op.start_byte
    &&& out.location.end_byte == op.end_byte
    &&& opt_bytes_eqv(out.enclosing_function, op.enclosing_function)
    &&& out.start_byte == op.start_byte
    &&& out.end_byte == op.end_byte
}

/// Classifies a tag-carried Go database operation.
pub fn convert_go_db_operation(op: &GoDbOperation) -> (r: DbOperation)
    ensures
        go_db_conv(*op, r),
{
    let library = if crate::bytes::bytes_eq_str(op.library.as_slice(), "database/sql") {
        DbLibrary::DatabaseSql
    } else if crate::bytes::bytes_eq_str(op.library.as_slice(), "GORM") {
        DbLibrary::Gorm
    } else if crate::bytes::bytes_eq_str(op.library.as_slice(), "sqlx") {
        DbLibrary::Sqlx
    } else if crate::bytes::bytes_eq_str(op.library.as_slice(), "sqlc") {
        DbLibrary::Sqlc
    } else {
        DbLibrary::Other(crate::bytes::bytes_to_vec(op.library.as_slice()))
    };
    let operation_type = if crate::bytes::bytes_eq_str(op.operation_type.as_slice(), "SELECT") {
        DbOperationType::Select
    } else if crate::bytes::bytes_eq_str(op.operation_type.as_slice(), "INSERT") {
        DbOperationType::Insert
    } else if crate::bytes::bytes_eq_str(op.operation_type.as_slice(), "UPDATE") {
        DbOperationType::Update
    } else if crate::bytes::bytes_eq_str(op.operation_type.as_slice(), "DELETE") {
        DbOperationType::Delete
    } else if crate::bytes::bytes_eq_str(op.operation_type.as_slice(), "CONNECT") {
        DbOperationType::Connect
    } else if crate::bytes::bytes_eq_str(op.operation_type.as_slice(), "BEGIN") {
        DbOperationType::TransactionBegin
    } else if crate::bytes::bytes_eq_str(op.operation_type.as_slice(), "COMMIT") {
        DbOperationType::TransactionCommit
    } else if crate::bytes::bytes_eq_str(op.operation_type.as_slice(), "ROLLBACK") {
        DbOperationType::TransactionRollback
    } else if crate::bytes::bytes_eq_str(op.operation_type.as_slice(), "RAW_SQL") {
        DbOperationType::RawSql
    } else {
        DbOperationType::Unknown
    };
    DbOperation {
        library,
        operation_type,
        has_timeout: op.has_timeout,
        timeout_millis: op.timeout_millis,
        in_transaction: op.in_transaction,
        eager_loading: crate::normalize::clone_eager(&op.eager_loading),
        in_loop: op.in_loop,
        in_iteration: op.in_iteration,
        model_name: crate::bytes::clone_opt_bytes(&op.model_name),
        relationship_field: crate::bytes::clone_opt_bytes(&op.relationship_field),
        operation_text: crate::bytes::bytes_to_vec(op.operation_text.as_slice()),
        location: CommonLocation {
            file_id: op.location.file_id,
            line: op.location.line,
            column: op.location.column,
            start_byte: op.start_byte,
            end_byte: op.end_byte,
        },
        enclosing_function: crate::bytes::clone_opt_bytes(&op.enclosing_function),
        start_byte: op.start_byte,
        end_byte: op.end_byte,
    }
}

/// One Go HTTP call normalized onto the shared schema.
pub open spec fn go_http_conv(h: crate::golang::GoHttpCallSite, fid: FileId, out: HttpCall) -> bool {
    &&& (match (h.client_kind, out.library) {
        (GoHttpClientKind::NetHttp, HttpClientLibrary::NetHttp) => true,
        (GoHttpClientKind::Resty, HttpClientLibrary::Other(v)) => v@ == lit_bytes("Resty"),
        (GoHttpClientKind::Fasthttp, HttpClientLibrary::Other(v)) => v@ == lit_bytes("Fasthttp"),
        (GoHttpClientKind::Fiber, HttpClientLibrary::Other(v)) => v@ == lit_bytes("Fiber"),
        (GoHttpClientKind::Other(a), HttpClientLibrary::Other(b)) => a@ == b@,
        _ => false,
    })
    &&& http_method_rel(upper_seq(h.method_name@), out.method)
    &&& out.url.is_none()
    &&& out.has_timeout == h.has_timeout
    &&& out.timeout_millis.is_none()
    &&& out.retry_mechanism.is_none()
    &&& out.call_text@ == h.call_text@
    &&& loc_conv(fid, h.location, h.start_byte, h.end_byte, out.location)
    &&& opt_bytes_eqv(out.enclosing_function, h.function_name)
    &&& !out.in_async_context
    &&& !out.in_loop
    &&& out.start_byte == h.start_byte
    &&& out.end_byte == h.end_byte
}

impl GoFileSemantics {
    /// The identifier of the file these facts came from.
    pub fn file_id(&self) -> (r: FileId)
        ensures
            r == self.file_id,
    {
        self.file_id
    }

    /// The path of the file these facts came from.
    pub fn file_path(&self) -> (r: &Vec<u8>)
        ensures
            r@ == self.path@,
    {
        &self.path
    }

    /// The language of the file.
    pub fn language(&self) -> (r: Lang)
        ensures
            r == Lang::Go,
    {
        Lang::Go
    }

    /// All imports, normalized.
    pub fn imports(&self) -> (r: Vec<Import>)
        requires
            self.wf(),
        ensures
            r@.len() == self.imports@.len(),
            forall|j: int|
                0 <= j < r@.len() ==> go_import_conv(
                    self.imports@[j],
                    self.file_id,
                    #[trigger] r@[j],
                ) && import_wf(r@[j]),
    {
        let n = self.imports.len();
        let mut out: Vec<Import> = Vec::new();
        let mut i: usize = 0;
        while i < n
            invariant
                self.wf(),
                n == self.imports@.len(),
                i <= n,
                out@.len() == i,
                forall|j: int|
                    0 <= j < i ==> go_import_conv(
                        self.imports@[j],
                        self.file_id,
                        #[trigger] out@[j],
                    ) && import_wf(out@[j]),
            decreases n - i,
        {
            match convert_go_import(&self.imports[i], self.file_id) {
                Some(imp) => out.push(imp),
                None => {},
            }
            i = i + 1;
        }
        out
    }

    /// All function and method definitions, normalized: the functions in
    /// order, then the methods in order.
    pub fn functions(&self) -> (r: Vec<FunctionDef>)
        requires
            self.wf(),
        ensures
            r@.len() == self.functions@.len() + self.methods@.len(),
            forall|j: int|
                0 <= j < self.functions@.len() ==> go_fun_conv(
                    self.functions@[j],
                    self.file_id,
                    self.calls@,
                    #[trigger] r@[j],
                ),
            forall|j: int|
                0 <= j < self.methods@.len() ==> go_method_conv(
                    self.methods@[j],
                    self.file_id,
                    self.calls@,
                    #[trigger] r@[self.functions@.len() + j],
                ),
    {
        let fl = self.functions.len();
        let mut out: Vec<FunctionDef> = Vec::new();
        let mut i: usize = 0;
        while i < fl
            invariant
                self.wf(),
                fl == self.functions@.len(),
                i <= fl,
                out@.len() == i,
                forall|j: int|
                    0 <= j < i ==> go_fun_conv(
                        self.functions@[j],
                        self.file_id,
                        self.calls@,
                        #[trigger] out@[j],
                    ),
            decreases fl - i,
        {
            match convert_go_function(&self.functions[i], self.file_id, &self.calls) {
                Some(f) => out.push(f),
                None => {},
            }
            i = i + 1;
        }
        let ml = self.methods.len();
        let mut k: usize = 0;
        while k < ml
            invariant
                self.wf(),
                fl == self.functions@.len(),
                ml == self.methods@.len(),
                k <= ml,
                out@.len() == fl + k,
                forall|j: int|
                    0 <= j < fl ==> go_fun_conv(
                        self.functions@[j],
                        self.file_id,
                        self.calls@,
                        #[trigger] out@[j],
                    ),
                forall|j: int|
                    0 <= j < k ==> go_method_conv(
                        self.methods@[j],
                        self.file_id,
                        self.calls@,
                        #[trigger] out@[fl + j],
                    ),
            decreases ml - k,
        {
            match convert_go_method(&self.methods[k], self.file_id, &self.calls) {
                Some(m) => out.push(m),
                None => {},
            }
            k = k + 1;
        }
        out
    }

    /// All HTTP client calls, normalized.
    pub fn http_calls(&self) -> (r: Vec<HttpCall>)
        requires
            self.wf(),
        ensures
            r@.len() == self.http_calls@.len(),
            forall|j: int|
                0 <= j < r@.len() ==> go_http_conv(
                    self.http_calls@[j],
                    self.file_id,
                    #[trigger] r@[j],
                ),
    {
        let n = self.http_calls.len();
        let mut out: Vec<HttpCall> = Vec::new();
        let mut i: usize = 0;
        while i < n
            invariant
                self.wf(),
                n == self.http_calls@.len(),
                i <= n,
                out@.len() == i,
                forall|j: int|
                    0 <= j < i ==> go_http_conv(
                        self.http_calls@[j],
                        self.file_id,
                        #[trigger] out@[j],
                    ),
            decreases n - i,
        {
            let h = &self.http_calls[i];
            let library = match &h.client_kind {
                GoHttpClientKind::NetHttp => HttpClientLibrary::NetHttp,
                GoHttpClientKind::Resty => HttpClientLibrary::Other(crate::bytes::lit_to_vec(
                    "Resty",
                )),
                GoHttpClientKind::Fasthttp => HttpClientLibrary::Other(crate::bytes::lit_to_vec(
                    "Fasthttp",
                )),
                GoHttpClientKind::Fiber => HttpClientLibrary::Other(crate::bytes::lit_to_vec(
                    "Fiber",
                )),
                GoHttpClientKind::Other(v) => HttpClientLibrary::Other(crate::bytes::bytes_to_vec(
                    v.as_slice(),
                )),
            };
            let method = http_method_of(crate::bytes::to_upper(h.method_name.as_slice()));
            out.push(
                HttpCall {
                    library,
                    method,
                    url: None,
                    has_timeout: h.has_timeout,
                    timeout_millis: None,
                    retry_mechanism: None,
                    call_text: crate::bytes::bytes_to_vec(h.call_text.as_slice()),
                    location: common_loc(self.file_id, &h.location, h.start_byte, h.end_byte),
                    enclosing_function: crate::bytes::clone_opt_bytes(&h.function_name),
                    in_async_context: false,
                    in_loop: false,
                    start_byte: h.start_byte,
                    end_byte: h.end_byte,
                },
            );
            i = i + 1;
        }
        out
    }

    /// All database operations, normalized from the tag-carried records.
    pub fn db_operations(&self) -> (r: Vec<DbOperation>)
        requires
            self.wf(),
        ensures
            r@.len() == self.db_operations@.len(),
            forall|j: int|
                0 <= j < r@.len() ==> go_db_conv(self.db_operations@[j], #[trigger] r@[j]),
    {
        let n = self.db_operations.len();
        let mut out: Vec<DbOperation> = Vec::new();
        let mut i: usize = 0;
        while i < n
            invariant
                self.wf(),
                n == self.db_operations@.len(),
                i <= n,
                out@.len() == i,
                forall|j: int|
                    0 <= j < i ==> go_db_conv(self.db_operations@[j], #[trigger] out@[j]),
            decreases n - i,
        {
            out.push(convert_go_db_operation(&self.db_operations[i]));
            i = i + 1;
        }
        out
    }

    /// All concurrency operations, normalized: goroutines as task spawns,
    /// channel sends, receives and closes (a close with the Unknown type),
    /// `select` races, mutex lock and unlock operations, and `defer`
    /// statements as cleanup-tracking records.  No record is dropped.
    pub fn async_operations(&self) -> (r: Vec<AsyncOperation>)
        requires
            self.wf(),
        ensures
            go_async_rel(*self, r@),
    {
        let fid = self.file_id;
        let mut out: Vec<AsyncOperation> = Vec::new();
        let gn = self.goroutines.len();
        let mut i: usize = 0;
        while i < gn
            invariant
                self.wf(),
                fid == self.file_id,
                gn == self.goroutines@.len(),
                i <= gn,
                out@.len() == i,
                forall|j: int|
                    0 <= j < i ==> go_goroutine_conv(self.goroutines@[j], fid, #[trigger] out@[j]),
            decreases gn - i,
        {
            let g = &self.goroutines[i];
            out.push(
                AsyncOperation {
                    runtime: AsyncRuntime::Goroutine,
                    operation_type: AsyncOperationType::TaskSpawn,
                    has_error_handling: g.has_recover,
                    error_handling: if g.has_recover {
                        Some(ErrorHandling::Other(crate::bytes::lit_to_vec("recover")))
                    } else {
                        None
                    },
                    has_timeout: false,
                    timeout_millis: None,
                    has_cancellation: g.has_context_param || g.has_done_channel,
                    cancellation_handling: if g.has_done_channel {
                        Some(CancellationHandling::ChannelClose)
                    } else {
                        None
                    },
                    is_bounded: false,
                    bound_limit: None,
                    has_cleanup: false,
                    operation_text: crate::bytes::bytes_to_vec(g.text.as_slice()),
                    location: common_loc(fid, &g.location, g.start_byte, g.end_byte),
                    enclosing_function: crate::bytes::clone_opt_bytes(&g.function_name),
                    start_byte: g.start_byte,
                    end_byte: g.end_byte,
                },
            );
            i = i + 1;
        }
        let k1: usize = out.len();
        let ghost seg1 = out@;
        let cn = self.channel_ops.len();
        let mut c: usize = 0;
        while c < cn
            invariant
                self.wf(),
                fid == self.file_id,
                cn == self.channel_ops@.len(),
                c <= cn,
                k1 <= out@.len(),
                out@.subrange(0, k1 as int) == seg1,
                go_gor_seg(self.goroutines@, fid, seg1),
                seg1.len() == k1,
                out@.len() == k1 + c,
                forall|j: int|
                    0 <= j < c ==> go_chan_conv(self.channel_ops@[j], fid, #[trigger] out@[k1 + j]),
            decreases cn - c,
        {
            let ch = &self.channel_ops[c];
            let op = match ch.kind {
                ChannelOpKind::Send => AsyncOperationType::ChannelSend,
                ChannelOpKind::Receive => AsyncOperationType::ChannelReceive,
                ChannelOpKind::Close => AsyncOperationType::Unknown,
            };
            let ghost prev = out@;
            out.push(
                AsyncOperation {
                    runtime: AsyncRuntime::Goroutine,
                    operation_type: op,
                    has_error_handling: false,
                    error_handling: None,
                    has_timeout: false,
                    timeout_millis: None,
                    has_cancellation: false,
                    cancellation_handling: None,
                    is_bounded: false,
                    bound_limit: None,
                    has_cleanup: false,
                    operation_text: crate::bytes::bytes_to_vec(ch.text.as_slice()),
                    location: common_loc(fid, &ch.location, ch.start_byte, ch.end_byte),
                    enclosing_function: crate::bytes::clone_opt_bytes(&ch.function_name),
                    start_byte: ch.start_byte,
                    end_byte: ch.end_byte,
                },
            );
            proof {
                assert(out@.subrange(0, k1 as int) =~= prev.subrange(0, k1 as int));
            }
            c = c + 1;
        }
        let k2: usize = out.len();
        let ghost seg2 = out@;
        proof {
            assert(forall|j: int|
                0 <= j < cn ==> seg2.subrange(k1 as int, k2 as int)[j] == seg2[k1 + j]);
            assert(go_chan_seg(self.channel_ops@, fid, seg2.subrange(k1 as int, k2 as int)));
        }
        let sn = self.select_statements.len();
        let mut si: usize = 0;
        while si < sn
            invariant
                self.wf(),
                fid == self.file_id,
                sn == self.select_statements@.len(),
                si <= sn,
                k1 <= k2 <= out@.len(),
                out@.subrange(0, k2 as int) == seg2.subrange(0, k2 as int),
                seg2.len() == k2,
                seg2.subrange(0, k1 as int) == seg1,
                go_gor_seg(self.goroutines@, fid, seg1),
                seg1.len() == k1,
                go_chan_seg(self.channel_ops@, fid, seg2.subrange(k1 as int, k2 as int)),
                out@.len() == k2 + si,
                forall|j: int|
                    0 <= j < si ==> go_select_conv(
                        self.select_statements@[j],
                        fid,
                        #[trigger] out@[k2 + j],
                    ),
            decreases sn - si,
        {
            let s = &self.select_statements[si];
            let ghost prev = out@;
            out.push(
                AsyncOperation {
                    runtime: AsyncRuntime::Goroutine,
                    operation_type: AsyncOperationType::SelectRace,
                    has_error_handling: false,
                    error_handling: None,
                    has_timeout: false,
                    timeout_millis: None,
                    has_cancellation: s.is_cancellation_pattern,
                    cancellation_handling: if s.is_cancellation_pattern {
                        Some(CancellationHandling::ChannelClose)
                    } else {
                        None
                    },
                    is_bounded: false,
                    bound_limit: None,
                    has_cleanup: false,
                    operation_text: crate::bytes::bytes_to_vec(s.text.as_slice()),
                    location: common_loc(fid, &s.location, s.start_byte, s.end_byte),
                    enclosing_function: crate::bytes::clone_opt_bytes(&s.function_name),
                    start_byte: s.start_byte,
                    end_byte: s.end_byte,
                },
            );
            proof {
                assert(out@.subrange(0, k2 as int) =~= prev.subrange(0, k2 as int));
            }
            si = si + 1;
        }
        let k3: usize = out.len();
        let ghost seg3 = out@;
        proof {
            assert(forall|j: int|
                0 <= j < sn ==> seg3.subrange(k2 as int, k3 as int)[j] == seg3[k2 + j]);
            assert(go_sel_seg(
                self.select_statements@,
                fid,
                seg3.subrange(k2 as int, k3 as int),
            ));
        }
        let mn = self.mutex_operations.len();
        let mut mi: usize = 0;
        while mi < mn
            invariant
                self.wf(),
                fid == self.file_id,
                mn == self.mutex_operations@.len(),
                mi <= mn,
                k1 <= k2 <= k3 <= out@.len(),
                out@.subrange(0, k3 as int) == seg3.subrange(0, k3 as int),
                seg3.len() == k3,
                seg3.subrange(0, k2 as int) == seg2.subrange(0, k2 as int),
                seg2.len() == k2,
                seg2.subrange(0, k1 as int) == seg1,
                go_gor_seg(self.goroutines@, fid, seg1),
                seg1.len() == k1,
                go_chan_seg(self.channel_ops@, fid, seg2.subrange(k1 as int, k2 as int)),
                go_sel_seg(self.select_statements@, fid, seg3.subrange(k2 as int, k3 as int)),
                out@.len() == k3 + mi,
                forall|j: int|
                    0 <= j < mi ==> go_mutex_conv(
                        self.mutex_operations@[j],
                        fid,
                        #[trigger] out@[k3 + j],
                    ),
            decreases mn - mi,
        {
            let m = &self.mutex_operations[mi];
            let is_acquire = crate::bytes::bytes_eq_str(m.operation_type.as_slice(), "Lock")
                || crate::bytes::bytes_eq_str(m.operation_type.as_slice(), "RLock");
            let ghost prev = out@;
            out.push(
                AsyncOperation {
                    runtime: AsyncRuntime::Goroutine,
                    operation_type: if is_acquire {
                        AsyncOperationType::LockAcquire
                    } else {
                        AsyncOperationType::LockRelease
                    },
                    has_error_handling: m.uses_defer_unlock,
                    error_handling: if m.uses_defer_unlock {
                        Some(ErrorHandling::Other(crate::bytes::lit_to_vec("defer")))
                    } else {
                        None
                    },
                    has_timeout: false,
                    timeout_millis: None,
                    has_cancellation: false,
                    cancellation_handling: None,
                    is_bounded: false,
                    bound_limit: None,
                    has_cleanup: m.uses_defer_unlock,
                    operation_text: crate::bytes::bytes_to_vec(m.text.as_slice()),
                    location: common_loc(fid, &m.location, m.lock_start_byte, m.lock_end_byte),
                    enclosing_function: crate::bytes::clone_opt_bytes(&m.function_name),
                    start_byte: m.lock_start_byte,
                    end_byte: m.lock_end_byte,
                },
            );
            proof {
                assert(out@.subrange(0, k3 as int) =~= prev.subrange(0, k3 as int));
            }
            mi = mi + 1;
        }
        let k4: usize = out.len();
        let ghost seg4 = out@;
        proof {
            assert(forall|j: int|
                0 <= j < mn ==> seg4.subrange(k3 as int, k4 as int)[j] == seg4[k3 + j]);
            assert(go_mutex_seg(
                self.mutex_operations@,
                fid,
                seg4.subrange(k3 as int, k4 as int),
            ));
        }
        let dn = self.defers.len();
        let mut di: usize = 0;
        while di < dn
            invariant
                self.wf(),
                fid == self.file_id,
                dn == self.defers@.len(),
                di <= dn,
                k1 <= k2 <= k3 <= k4 <= out@.len(),
                out@.subrange(0, k4 as int) == seg4.subrange(0, k4 as int),
                seg4.len() == k4,
                seg4.subrange(0, k3 as int) == seg3.subrange(0, k3 as int),
                seg3.len() == k3,
                seg3.subrange(0, k2 as int) == seg2.subrange(0, k2 as int),
                seg2.len() == k2,
                seg2.subrange(0, k1 as int) == seg1,
                go_gor_seg(self.goroutines@, fid, seg1),
                seg1.len() == k1,
                go_chan_seg(self.channel_ops@, fid, seg2.subrange(k1 as int, k2 as int)),
                go_sel_seg(self.select_statements@, fid, seg3.subrange(k2 as int, k3 as int)),
                go_mutex_seg(self.mutex_operations@, fid, seg4.subrange(k3 as int, k4 as int)),
                out@.len() == k4 + di,
                forall|j: int|
                    0 <= j < di ==> go_defer_conv(self.defers@[j], fid, #[trigger] out@[k4 + j]),
            decreases dn - di,
        {
            let d = &self.defers[di];
            let ghost prev = out@;
            out.push(
                AsyncOperation {
                    runtime: AsyncRuntime::Goroutine,
                    operation_type: AsyncOperationType::Unknown,
                    has_error_handling: d.is_resource_cleanup,
                    error_handling: None,
                    has_timeout: false,
                    timeout_millis: None,
                    has_cancellation: d.is_resource_cleanup,
                    cancellation_handling: if d.is_resource_cleanup {
                        Some(CancellationHandling::Other(crate::bytes::lit_to_vec(
                            "defer_cleanup",
                        )))
                    } else {
                        None
                    },
                    is_bounded: false,
                    bound_limit: None,
                    has_cleanup: true,
                    operation_text: crate::bytes::bytes_to_vec(d.text.as_slice()),
                    location: common_loc(fid, &d.location, d.start_byte, d.end_byte),
                    enclosing_function: crate::bytes::clone_opt_bytes(&d.function_name),
                    start_byte: d.start_byte,
                    end_byte: d.end_byte,
                },
            );
            proof {
                assert(out@.subrange(0, k4 as int) =~= prev.subrange(0, k4 as int));
            }
            di = di + 1;
        }
        proof {
            assert forall|i: int| 0 <= i < k4 implies out@[i] == seg4[i] by {
                assert(out@.subrange(0, k4 as int)[i] == seg4.subrange(0, k4 as int)[i]);
            }
            assert forall|i: int| 0 <= i < k3 implies seg4[i] == seg3[i] by {
                assert(seg4.subrange(0, k3 as int)[i] == seg3.subrange(0, k3 as int)[i]);
            }
            assert forall|i: int| 0 <= i < k2 implies seg3[i] == seg2[i] by {
                assert(seg3.subrange(0, k2 as int)[i] == seg2.subrange(0, k2 as int)[i]);
            }
            assert forall|i: int| 0 <= i < k1 implies seg2[i] == seg1[i] by {
                assert(seg2.subrange(0, k1 as int)[i] == seg1[i]);
            }
            assert(out@.subrange(0, k1 as int) =~= seg1);
            assert(out@.subrange(k1 as int, k2 as int) =~= seg2.subrange(k1 as int, k2 as int));
            assert(out@.subrange(k2 as int, k3 as int) =~= seg3.subrange(k2 as int, k3 as int));
            assert(out@.subrange(k3 as int, k4 as int) =~= seg4.subrange(k3 as int, k4 as int));
            assert(go_gor_seg(self.goroutines@, fid, out@.subrange(0, k1 as int)));
            assert(go_chan_seg(self.channel_ops@, fid, out@.subrange(k1 as int, k2 as int)));
            assert(go_sel_seg(
                self.select_statements@,
                fid,
                out@.subrange(k2 as int, k3 as int),
            ));
            assert(go_mutex_seg(
                self.mutex_operations@,
                fid,
                out@.subrange(k3 as int, k4 as int),
            ));
            assert forall|j: int| 0 <= j < dn implies out@.subrange(
                k4 as int,
                out@.len() as int,
            )[j] == out@[k4 + j] by {}
            assert(go_defer_seg(
                self.defers@,
                fid,
                out@.subrange(k4 as int, out@.len() as int),
            ));
        }
        out
    }

    /// Source-level annotations; not populated by the current extractor.
    pub fn annotations(&self) -> (r: Vec<Annotation>)
        ensures
            r@.len() == 0,
    {
        Vec::new()
    }

    /// Route registrations; not populated by the current extractor.
    pub fn route_patterns(&self) -> (r: Vec<RoutePattern>)
        ensures
            r@.len() == 0,
    {
        Vec::new()
    }

    /// Suspected repeated-query patterns; not populated by the current
    /// extractor.
    pub fn n_plus_one_patterns(&self) -> (r: Vec<DbOperation>)
        ensures
            r@.len() == 0,
    {
        Vec::new()
    }

    /// Error-handling contexts; not populated by the current extractor.
    pub fn error_contexts(&self) -> (r: Vec<ErrorContext>)
        ensures
            r@.len() == 0,
    {
        Vec::new()
    }
}

} // verus!

