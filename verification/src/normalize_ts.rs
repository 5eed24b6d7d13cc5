//! Normalization of TypeScript semantics onto the shared schema.

use vstd::prelude::*;
use crate::bytes::{has_prefix, lit_bytes, opt_bytes_eqv, upper_seq};
use crate::common::{
    Annotation, AsyncOperation, AsyncOperationType, AsyncRuntime, CancellationHandling,
    CommonLocation, DbLibrary, DbOperation, DbOperationType, ErrorContext, ErrorHandling,
    FunctionCall, FunctionDecorator, FunctionDef, FunctionKind, FunctionParam, HttpCall,
    HttpClientLibrary, HttpMethod, Import, ImportSource, ImportStyle, ImportedItem, RoutePattern,
    Visibility,
};
use crate::lang::{FileId, Lang};
use crate::normalize::{call_conv_rel, common_loc, import_wf, loc_conv, split_call};
use crate::rustlang::http_method_rel;
use crate::typescript::{
    TsAsyncOperation, TsAsyncOperationType, TsCallSite, TsClass, TsDbOperation, TsFileSemantics,
    TsFunction, TsHttpClientKind, TsImport, TsMethod,
};

verus! {

/// The source class of a TypeScript module specifier: a leading dot means a
/// local file, anything else an external package.
pub open spec fn ts_source_spec(module: Seq<u8>) -> ImportSource {
    if has_prefix(module, lit_bytes(".")) {
        ImportSource::Local
    } else {
        ImportSource::External
    }
}

/// The shared import style of a TypeScript import: a lone default import,
/// a namespace import, named imports, or a bare side-effect import.
pub open spec fn ts_style_spec(imp: TsImport) -> ImportStyle {
    if imp.default_import.is_some() && imp.named_imports@.len() == 0 {
        ImportStyle::Default
    } else if imp.namespace_import.is_some() {
        ImportStyle::Star
    } else if imp.named_imports@.len() > 0 {
        ImportStyle::Named
    } else {
        ImportStyle::SideEffect
    }
}

/// One TypeScript import normalized onto the shared schema.
pub open spec fn ts_import_conv(imp: TsImport, fid: FileId, out: Import) -> bool {
    &&& out.module@ == imp.module@
    &&& out.style == ts_style_spec(imp)
    &&& out.source == ts_source_spec(imp.module@)
    &&& out.items@.len() == imp.named_imports@.len()
    &&& forall|k: int|
        0 <= k < imp.named_imports@.len() ==> (#[trigger] out.items@[k]).name@
            == imp.named_imports@[k]@ && out.items@[k].alias.is_none()
    &&& (match imp.default_import {
        Some(d) => out.module_alias.is_some() && out.module_alias.unwrap()@ == d@,
        None => opt_bytes_eqv(out.module_alias, imp.namespace_import),
    })
    &&& out.raw_text@.len() == 0
    &&& out.is_type_only == imp.is_type_only
    &&& !out.is_dynamic
    &&& out.location.file_id == fid
    &&& out.location.line == imp.location.start_line + 1
    &&& out.location.column == imp.location.start_col + 1
    &&& out.location.start_byte == 0
    &&& out.location.end_byte == 0
}

/// Converts a TypeScript import to the shared import record.  The
/// conversion is total.
pub fn convert_ts_import(ts_import: &TsImport, file_id: FileId) -> (r: Option<Import>)
    requires
        crate::typescript::ts_import_wf(*ts_import),
    ensures
        r.is_some(),
        ts_import_conv(*ts_import, file_id, r.unwrap()),
        import_wf(r.unwrap()),
{
    let source = if crate::bytes::starts_with_lit(ts_import.module.as_slice(), ".") {
        ImportSource::Local
    } else {
        ImportSource::External
    };
    let n = ts_import.named_imports.len();
    let mut items: Vec<ImportedItem> = Vec::new();
    let mut k: usize = 0;
    while k < n
        invariant
            n == ts_import.named_imports@.len(),
            k <= n,
            items@.len() == k,
            forall|j: int|
                0 <= j < k ==> (#[trigger] items@[j]).name@ == ts_import.named_imports@[j]@
                    && items@[j].alias.is_none(),
        decreases n - k,
    {
        items.push(
            ImportedItem::new(crate::bytes::bytes_to_vec(ts_import.named_imports[k].as_slice())),
        );
        k = k + 1;
    }
    let style = if ts_import.default_import.is_some() && items.len() == 0 {
        ImportStyle::Default
    } else if ts_import.namespace_import.is_some() {
        ImportStyle::Star
    } else if items.len() > 0 {
        ImportStyle::Named
    } else {
        ImportStyle::SideEffect
    };
    let module_alias = match &ts_import.default_import {
        Some(d) => Some(crate::bytes::bytes_to_vec(d.as_slice())),
        None => crate::bytes::clone_opt_bytes(&ts_import.namespace_import),
    };
    Some(
        Import {
            module: crate::bytes::bytes_to_vec(ts_import.module.as_slice()),
            style,
            source,
            items,
            module_alias,
            raw_text: Vec::new(),
            is_type_only: ts_import.is_type_only,
            is_dynamic: false,
            location: CommonLocation {
                file_id,
                line: ts_import.location.start_line + 1,
                column: ts_import.location.start_col + 1,
                start_byte: 0,
                end_byte: 0,
            },
        },
    )
}

/// One TypeScript call site converted to the shared call record.
pub fn convert_ts_call_site(call: &TsCallSite) -> (r: FunctionCall)
    ensures
        call_conv_rel(call.callee_expr@, call.line, call.column, r),
{
    split_call(call.callee_expr.as_slice(), call.line, call.column)
}

/// The call sites of `all` contained in `[s, e]`, converted, over the
/// first `n` entries.
pub open spec fn ts_calls_sel(
    all: Seq<TsCallSite>,
    n: int,
    s: usize,
    e: usize,
    out: Seq<FunctionCall>,
) -> bool
    decreases n
        when 0 <= n <= all.len()
{
    if n == 0 {
        out.len() == 0
    } else if s <= all[n - 1].start_byte && all[n - 1].end_byte <= e {
        &&& out.len() > 0
        &&& ts_calls_sel(all, n - 1, s, e, out.drop_last())
        &&& call_conv_rel(all[n - 1].callee_expr@, all[n - 1].line, all[n - 1].column, out.last())
    } else {
        ts_calls_sel(all, n - 1, s, e, out)
    }
}

/// Collects the calls of `all` contained in `[s, e]`, converted.
fn ts_calls_in_range(all: &Vec<TsCallSite>, s: usize, e: usize) -> (r: Vec<FunctionCall>)
    ensures
        ts_calls_sel(all@, all@.len() as int, s, e, r@),
{
    let cn = all.len();
    let mut calls: Vec<FunctionCall> = Vec::new();
    let mut c: usize = 0;
    while c < cn
        invariant
            cn == all@.len(),
            c <= cn,
            ts_calls_sel(all@, c as int, s, e, calls@),
        decreases cn - c,
    {
        let site = &all[c];
        if s <= site.start_byte && site.end_byte <= e {
            let ghost prev = calls@;
            let fc = split_call(site.callee_expr.as_slice(), site.line, site.column);
            calls.push(fc);
            proof {
                assert(calls@.drop_last() =~= prev);
            }
        }
        c = c + 1;
    }
    calls
}

/// TypeScript parameters normalized: name, type, default and rest flag.
pub open spec fn ts_params_conv(ps: Seq<crate::typescript::TsParam>, withdefaults: bool, out: Seq<FunctionParam>) -> bool {
    &&& out.len() == ps.len()
    &&& forall|k: int|
        0 <= k < ps.len() ==> {
            &&& (#[trigger] out[k]).name@ == ps[k].name@
            &&& opt_bytes_eqv(out[k].type_annotation, ps[k].type_annotation)
            &&& (if withdefaults {
                opt_bytes_eqv(out[k].default_value, ps[k].default_value)
            } else {
                out[k].default_value.is_none()
            })
            &&& out[k].is_variadic == ps[k].is_rest
        }
}

/// Converts TypeScript parameters.
fn ts_convert_params(ps: &Vec<crate::typescript::TsParam>, withdefaults: bool) -> (r: Vec<
    FunctionParam,
>)
    ensures
        ts_params_conv(ps@, withdefaults, r@),
{
    let n = ps.len();
    let mut out: Vec<FunctionParam> = Vec::new();
    let mut k: usize = 0;
    while k < n
        invariant
            n == ps@.len(),
            k <= n,
            out@.len() == k,
            forall|j: int|
                0 <= j < k ==> {
                    &&& (#[trigger] out@[j]).name@ == ps@[j].name@
                    &&& opt_bytes_eqv(out@[j].type_annotation, ps@[j].type_annotation)
                    &&& (if withdefaults {
                        opt_bytes_eqv(out@[j].default_value, ps@[j].default_value)
                    } else {
                        out@[j].default_value.is_none()
                    })
                    &&& out@[j].is_variadic == ps@[j].is_rest
                },
        decreases n - k,
    {
        let p = &ps[k];
        out.push(
            FunctionParam {
                name: crate::bytes::bytes_to_vec(p.name.as_slice()),
                type_annotation: crate::bytes::clone_opt_bytes(&p.type_annotation),
                default_value: if withdefaults {
                    crate::bytes::clone_opt_bytes(&p.default_value)
                } else {
                    None
                },
                is_variadic: p.is_rest,
            },
        );
        k = k + 1;
    }
    out
}

/// One TypeScript function normalized onto the shared schema.
pub open spec fn ts_fun_conv(
    f: TsFunction,
    fid: FileId,
    all_calls: Seq<TsCallSite>,
    out: FunctionDef,
) -> bool {
    &&& out.name@ == f.name@
    &&& out.kind == (if f.is_generator {
        FunctionKind::Generator
    } else {
        FunctionKind::Function
    })
    &&& out.visibility == (if f.is_exported {
        Visibility::Public
    } else {
        Visibility::Private
    })
    &&& out.is_async == f.is_async
    &&& ts_params_conv(f.params@, true, out.params@)
    &&& opt_bytes_eqv(out.return_type, f.return_type)
    &&& out.decorators@.len() == 0
    &&& out.class_name.is_none()
    &&& ts_calls_sel(all_calls, all_calls.len() as int, f.start_byte, f.end_byte, out.calls@)
    &&& out.body_lines == 0
    &&& out.has_error_handling == f.has_try_catch
    &&& !out.has_documentation
    &&& loc_conv(fid, f.location, f.start_byte, f.end_byte, out.location)
    &&& out.start_byte == f.start_byte
    &&& out.end_byte == f.end_byte
}

/// Converts a TypeScript function to the shared definition record.  The
/// conversion is total.
pub fn convert_ts_function(
    ts_func: &TsFunction,
    file_id: FileId,
    all_calls: &Vec<TsCallSite>,
) -> (r: Option<FunctionDef>)
    requires
        crate::typescript::ts_fun_wf(*ts_func),
    ensures
        r.is_some(),
        ts_fun_conv(*ts_func, file_id, all_calls@, r.unwrap()),
{
    Some(
        FunctionDef {
            name: crate::bytes::bytes_to_vec(ts_func.name.as_slice()),
            kind: if ts_func.is_generator {
                FunctionKind::Generator
            } else {
                FunctionKind::Function
            },
            visibility: if ts_func.is_exported {
                Visibility::Public
            } else {
                Visibility::Private
            },
            is_async: ts_func.is_async,
            params: ts_convert_params(&ts_func.params, true),
            return_type: crate::bytes::clone_opt_bytes(&ts_func.return_type),
            decorators: Vec::new(),
            class_name: None,
            calls: ts_calls_in_range(all_calls, ts_func.start_byte, ts_func.end_byte),
            body_lines: 0,
            has_error_handling: ts_func.has_try_catch,
            has_documentation: false,
            location: common_loc(file_id, &ts_func.location, ts_func.start_byte, ts_func.end_byte),
            start_byte: ts_func.start_byte,
            end_byte: ts_func.end_byte,
        },
    )
}

/// One TypeScript method normalized onto the shared schema: decorators are
/// carried with an at-sign prefix on the raw text.
pub open spec fn ts_method_conv(
    m: TsMethod,
    fid: FileId,
    all_calls: Seq<TsCallSite>,
    cname: Seq<u8>,
    out: FunctionDef,
) -> bool {
    &&& out.name@ == m.name@
    &&& out.kind == FunctionKind::Method
    &&& out.visibility == (if m.is_private {
        Visibility::Private
    } else if m.is_protected {
        Visibility::Protected
    } else {
        Visibility::Public
    })
    &&& out.is_async == m.is_async
    &&& ts_params_conv(m.params@, false, out.params@)
    &&& opt_bytes_eqv(out.return_type, m.return_type)
    &&& out.decorators@.len() == m.decorators@.len()
    &&& forall|k: int|
        0 <= k < m.decorators@.len() ==> (#[trigger] out.decorators@[k]).name@ == m.decorators@[k]@
            && out.decorators@[k].raw_text@ == lit_bytes("@") + m.decorators@[k]@
    &&& (match out.class_name {
        Some(v) => v@ == cname,
        None => false,
    })
    &&& ts_calls_sel(all_calls, all_calls.len() as int, m.start_byte, m.end_byte, out.calls@)
    &&& out.body_lines == 0
    &&& !out.has_error_handling
    &&& !out.has_documentation
    &&& loc_conv(fid, m.location, m.start_byte, m.end_byte, out.location)
    &&& out.start_byte == m.start_byte
    &&& out.end_byte == m.end_byte
}

/// Converts a TypeScript class method to the shared definition record.
/// The conversion is total.
pub fn convert_ts_method(
    method: &TsMethod,
    file_id: FileId,
    all_calls: &Vec<TsCallSite>,
    class_name: &Vec<u8>,
) -> (r: Option<FunctionDef>)
    requires
        crate::typescript::ts_method_wf(*method),
    ensures
        r.is_some(),
        ts_method_conv(*method, file_id, all_calls@, class_name@, r.unwrap()),
{
    let dn = method.decorators.len();
    let mut decorators: Vec<FunctionDecorator> = Vec::new();
    let mut k: usize = 0;
    while k < dn
        invariant
            dn == method.decorators@.len(),
            k <= dn,
            decorators@.len() == k,
            forall|j: int|
                0 <= j < k ==> (#[trigger] decorators@[j]).name@ == method.decorators@[j]@
                    && decorators@[j].raw_text@ == lit_bytes("@") + method.decorators@[j]@,
        decreases dn - k,
    {
        let d = &method.decorators[k];
        let mut raw = crate::bytes::lit_to_vec("@");
        crate::bytes::append_bytes(&mut raw, d.as_slice());
        decorators.push(
            FunctionDecorator { name: crate::bytes::bytes_to_vec(d.as_slice()), raw_text: raw },
        );
        k = k + 1;
    }
    Some(
        FunctionDef {
            name: crate::bytes::bytes_to_vec(method.name.as_slice()),
            kind: FunctionKind::Method,
            visibility: if method.is_private {
                Visibility::Private
            } else if method.is_protected {
                Visibility::Protected
            } else {
                Visibility::Public
            },
            is_async: method.is_async,
            params: ts_convert_params(&method.params, false),
            return_type: crate::bytes::clone_opt_bytes(&method.return_type),
            decorators,
            class_name: Some(crate::bytes::bytes_to_vec(class_name.as_slice())),
            calls: ts_calls_in_range(all_calls, method.start_byte, method.end_byte),
            body_lines: 0,
            has_error_handling: false,
            has_documentation: false,
            location: common_loc(file_id, &method.location, method.start_byte, method.end_byte),
            start_byte: method.start_byte,
            end_byte: method.end_byte,
        },
    )
}

/// The shared operation type of a TypeScript async operation.
pub open spec fn ts_async_type_map(t: TsAsyncOperationType) -> AsyncOperationType {
    match t {
        TsAsyncOperationType::PromiseConstructor => AsyncOperationType::TaskSpawn,
        TsAsyncOperationType::Await => AsyncOperationType::TaskAwait,
        TsAsyncOperationType::PromiseCombinator => AsyncOperationType::TaskGather,
        TsAsyncOperationType::PromiseChain => AsyncOperationType::TaskGather,
        TsAsyncOperationType::Timeout => AsyncOperationType::Sleep,
        TsAsyncOperationType::Cancellation => AsyncOperationType::TaskSpawn,
        TsAsyncOperationType::AsyncFunction => AsyncOperationType::TaskSpawn,
        TsAsyncOperationType::AsyncArrow => AsyncOperationType::TaskSpawn,
        TsAsyncOperationType::Unknown => AsyncOperationType::Unknown,
    }
}

/// One TypeScript async operation normalized onto the shared schema.
pub open spec fn ts_async_conv(op: TsAsyncOperation, fid: FileId, out: AsyncOperation) -> bool {
    &&& out.runtime == AsyncRuntime::PromiseNative
    &&& out.operation_type == ts_async_type_map(op.operation_type)
    &&& out.has_error_handling == op.has_error_handling
    &&& (match out.error_handling {
        Some(h) => op.has_error_handling && h == ErrorHandling::TryCatch,
        None => !op.has_error_handling,
    })
    &&& out.has_timeout == op.has_timeout
    &&& out.timeout_millis == op.timeout_millis
    &&& out.has_cancellation == op.has_cancellation
    &&& (match out.cancellation_handling {
        Some(h) => op.has_cancellation && h == CancellationHandling::CancellationToken,
        None => !op.has_cancellation,
    })
    &&& !out.is_bounded
    &&& out.bound_limit.is_none()
    &&& !out.has_cleanup
    &&& out.operation_text@ == op.operation_text@
    &&& loc_conv(fid, op.location, op.start_byte, op.end_byte, out.location)
    &&& opt_bytes_eqv(out.enclosing_function, op.enclosing_function)
    &&& out.start_byte == op.start_byte
    &&& out.end_byte == op.end_byte
}

/// Converts a TypeScript async operation to the shared record.  The
/// conversion is total.
pub fn convert_ts_async_op(ts_op: &TsAsyncOperation, file_id: FileId) -> (r: AsyncOperation)
    requires
        crate::typescript::ts_async_wf(*ts_op),
    ensures
        ts_async_conv(*ts_op, file_id, r),
{
    let operation_type = match ts_op.operation_type {
        TsAsyncOperationType::PromiseConstructor => AsyncOperationType::TaskSpawn,
        TsAsyncOperationType::Await => AsyncOperationType::TaskAwait,
        TsAsyncOperationType::PromiseCombinator => AsyncOperationType::TaskGather,
        TsAsyncOperationType::PromiseChain => AsyncOperationType::TaskGather,
        TsAsyncOperationType::Timeout => AsyncOperationType::Sleep,
        TsAsyncOperationType::Cancellation => AsyncOperationType::TaskSpawn,
        TsAsyncOperationType::AsyncFunction => AsyncOperationType::TaskSpawn,
        TsAsyncOperationType::AsyncArrow => AsyncOperationType::TaskSpawn,
        TsAsyncOperationType::Unknown => AsyncOperationType::Unknown,
    };
    AsyncOperation {
        runtime: AsyncRuntime::PromiseNative,
        operation_type,
        has_error_handling: ts_op.has_error_handling,
        error_handling: if ts_op.has_error_handling {
            Some(ErrorHandling::TryCatch)
        } else {
            None
        },
        has_timeout: ts_op.has_timeout,
        timeout_millis: ts_op.timeout_millis,
        has_cancellation: ts_op.has_cancellation,
        cancellation_handling: if ts_op.has_cancellation {
            Some(CancellationHandling::CancellationToken)
        } else {
            None
        },
        is_bounded: false,
        bound_limit: None,
        has_cleanup: false,
        operation_text: crate::bytes::bytes_to_vec(ts_op.operation_text.as_slice()),
        location: common_loc(file_id, &ts_op.location, ts_op.start_byte, ts_op.end_byte),
        enclosing_function: crate::bytes::clone_opt_bytes(&ts_op.enclosing_function),
        start_byte: ts_op.start_byte,
        end_byte: ts_op.end_byte,
    }
}

/// The normalized method of a TypeScript verb: `FETCH` defaults to a GET.
pub open spec fn ts_method_rel_http(upper: Seq<u8>, m: HttpMethod) -> bool {
    if upper == lit_bytes("FETCH") {
        m == HttpMethod::Get
    } else {
        http_method_rel(upper, m)
    }
}

/// One TypeScript HTTP call normalized onto the shared schema.
pub open spec fn ts_http_conv(h: crate::typescript::TsHttpCallSite, fid: FileId, out: HttpCall) -> bool {
    &&& (match (h.client_kind, out.library) {
        (TsHttpClientKind::Fetch, HttpClientLibrary::Fetch) => true,
        (TsHttpClientKind::Axios, HttpClientLibrary::Axios) => true,
        (TsHttpClientKind::Got, HttpClientLibrary::Got) => true,
        (TsHttpClientKind::NodeHttp, HttpClientLibrary::Other(v)) => v@ == lit_bytes("node-http"),
        (TsHttpClientKind::NodeFetch, HttpClientLibrary::Other(v)) => v@ == lit_bytes("node-fetch"),
        (TsHttpClientKind::Undici, HttpClientLibrary::Other(v)) => v@ == lit_bytes("undici"),
        (TsHttpClientKind::Ky, HttpClientLibrary::Other(v)) => v@ == lit_bytes("ky"),
        (TsHttpClientKind::Superagent, HttpClientLibrary::Other(v)) => v@ == lit_bytes(
            "superagent",
        ),
        (TsHttpClientKind::Unknown, HttpClientLibrary::Other(v)) => v@ == lit_bytes("unknown"),
        _ => false,
    })
    &&& ts_method_rel_http(upper_seq(h.method@), out.method)
    &&& opt_bytes_eqv(out.url, h.url)
    &&& out.has_timeout == h.has_timeout
    &&& out.timeout_millis.is_none()
    &&& out.retry_mechanism.is_none()
    &&& out.call_text@.len() == 0
    &&& loc_conv(fid, h.location, h.start_byte, h.end_byte, out.location)
    &&& opt_bytes_eqv(out.enclosing_function, h.function_name)
    &&& out.in_async_context == h.in_async_context
    &&& !out.in_loop
    &&& out.start_byte == h.start_byte
    &&& out.end_byte == h.end_byte
}

/// The shared database library of a TypeScript library tag.
pub open spec fn ts_db_library_rel(tag: Seq<u8>, l: DbLibrary) -> bool {
    if tag == lit_bytes("Prisma") {
        l == DbLibrary::Prisma
    } else if tag == lit_bytes("TypeORM") {
        l == DbLibrary::TypeOrm
    } else if tag == lit_bytes("Knex") {
        l == DbLibrary::Knex
    } else if tag == lit_bytes("Sequelize") {
        l == DbLibrary::Sequelize
    } else if tag == lit_bytes("Drizzle ORM") {
        l == DbLibrary::DrizzleOrm
    } else {
        match l {
            DbLibrary::Other(v) => v@ == tag,
            _ => false,
        }
    }
}

/// The shared operation type of a TypeScript operation tag.
pub open spec fn ts_db_type_spec(tag: Seq<u8>) -> DbOperationType {
    if tag == lit_bytes("SELECT") {
        DbOperationType::Select
    } else if tag == lit_bytes("INSERT") {
        DbOperationType::Insert
    } else if tag == lit_bytes("UPDATE") {
        DbOperationType::Update
    } else if tag == lit_bytes("DELETE") {
        DbOperationType::Delete
    } else if tag == lit_bytes("CONNECT") {
        DbOperationType::Connect
    } else if tag == lit_bytes("RAW_SQL") {
        DbOperationType::RawSql
    } else {
        DbOperationType::Unknown
    }
}

/// One TypeScript database operation normalized onto the shared schema.
pub open spec fn ts_db_conv(op: TsDbOperation, out: DbOperation) -> bool {
    &&& ts_db_library_rel(op.library@, out.library)
    &&& out.operation_type == ts_db_type_spec(op.operation_type@)
    &&& out.has_timeout == op.has_timeout
    &&& out.timeout_millis == op.timeout_millis
    &&& out.in_transaction == op.in_transaction
    &&& crate::normalize::eager_eqv(out.eager_loading, op.eager_loading)
    &&& out.in_loop == op.in_loop
    &&& out.in_iteration == op.in_iteration
    &&& opt_bytes_eqv(out.model_name, op.model_name)
    &&& opt_bytes_eqv(out.relationship_field, op.relationship_field)
    &&& out.operation_text@ == op.operation_text@
    &&& out.location.file_id == op.location.file_id
    &&& out.location.line == op.location.line
    &&& out.location.column == op.location.column
    &&& out.location.start_byte == op.start_byte
    &&& out.location.end_byte == op.end_byte
    &&& opt_bytes_eqv(out.enclosing_function, op.enclosing_function)
    &&& out.start_byte == op.start_byte
    &&& out.end_byte == op.end_byte
}

/// The methods of all classes, flattened in order.
pub open spec fn flat_ts_methods(classes: Seq<TsClass>) -> Seq<(TsMethod, Vec<u8>)>
    decreases classes.len(),
{
    if classes.len() == 0 {
        Seq::empty()
    } else {
        flat_ts_methods(classes.drop_last()) + classes.last().methods@.map_values(
            |m: TsMethod| (m, classes.last().name),
        )
    }
}

impl TsFileSemantics {
    /// The identifier of the file these facts came from.
    pub fn file_id(&self) -> (r: FileId)
        ensures
            r == self.file_id,
    {
        self.file_id
    }

    /// The path of the file these facts came from.
    pub fn file_path(&self) -> (r: &Vec<u8>)
        ensures
            r@ == self.path@,
    {
        &self.path
    }

    /// The language of the file.
    pub fn language(&self) -> (r: Lang)
        ensures
            r == Lang::Typescript,
    {
        Lang::Typescript
    }

    /// All imports, normalized.
    pub fn imports(&self) -> (r: Vec<Import>)
        requires
            self.wf(),
        ensures
            r@.len() == self.imports@.len(),
            forall|j: int|
                0 <= j < r@.len() ==> ts_import_conv(
                    self.imports@[j],
                    self.file_id,
                    #[trigger] r@[j],
                ) && import_wf(r@[j]),
    {
        let n = self.imports.len();
        let mut out: Vec<Import> = Vec::new();
        let mut i: usize = 0;
        while i < n
            invariant
                self.wf(),
                n == self.imports@.len(),
                i <= n,
                out@.len() == i,
                forall|j: int|
                    0 <= j < i ==> ts_import_conv(
                        self.imports@[j],
                        self.file_id,
                        #[trigger] out@[j],
                    ) && import_wf(out@[j]),
            decreases n - i,
        {
            match convert_ts_import(&self.imports[i], self.file_id) {
                Some(imp) => out.push(imp),
                None => {},
            }
            i = i + 1;
        }
        out
    }

    /// All function and method definitions, normalized: the functions in
    /// order, then the class methods in class order.
    pub fn functions(&self) -> (r: Vec<FunctionDef>)
        requires
            self.wf(),
        ensures
            r@.len() == self.functions@.len() + flat_ts_methods(self.classes@).len(),
            forall|j: int|
                0 <= j < self.functions@.len() ==> ts_fun_conv(
                    self.functions@[j],
                    self.file_id,
                    self.calls@,
                    #[trigger] r@[j],
                ),
            forall|j: int|
                0 <= j < flat_ts_methods(self.classes@).len() ==> ts_method_conv(
                    flat_ts_methods(self.classes@)[j].0,
                    self.file_id,
                    self.calls@,
                    flat_ts_methods(self.classes@)[j].1@,
                    #[trigger] r@[self.functions@.len() + j],
                ),
    {
        let fl = self.functions.len();
        let mut out: Vec<FunctionDef> = Vec::new();
        let mut i: usize = 0;
        while i < fl
            invariant
                self.wf(),
                fl == self.functions@.len(),
                i <= fl,
                out@.len() == i,
                forall|j: int|
                    0 <= j < i ==> ts_fun_conv(
                        self.functions@[j],
                        self.file_id,
                        self.calls@,
                        #[trigger] out@[j],
                    ),
            decreases fl - i,
        {
            match convert_ts_function(&self.functions[i], self.file_id, &self.calls) {
                Some(f) => out.push(f),
                None => {},
            }
            i = i + 1;
        }
        let bn = self.classes.len();
        let mut b: usize = 0;
        while b < bn
            invariant
                self.wf(),
                fl == self.functions@.len(),
                bn == self.classes@.len(),
                b <= bn,
                out@.len() == fl + flat_ts_methods(self.classes@.subrange(0, b as int)).len(),
                forall|j: int|
                    0 <= j < fl ==> ts_fun_conv(
                        self.functions@[j],
                        self.file_id,
                        self.calls@,
                        #[trigger] out@[j],
                    ),
                forall|j: int|
                    0 <= j < flat_ts_methods(self.classes@.subrange(0, b as int)).len()
                        ==> ts_method_conv(
                        flat_ts_methods(self.classes@.subrange(0, b as int))[j].0,
                        self.file_id,
                        self.calls@,
                        flat_ts_methods(self.classes@.subrange(0, b as int))[j].1@,
                        #[trigger] out@[fl + j],
                    ),
            decreases bn - b,
        {
            let mn = self.classes[b].methods.len();
            let ghost pre = self.classes@.subrange(0, b as int);
            proof {
                assert(self.classes@.subrange(0, b + 1).drop_last() =~= pre);
                assert(self.classes@.subrange(0, b + 1).last() == self.classes@[b as int]);
            }
            let mut m: usize = 0;
            while m < mn
                invariant
                    self.wf(),
                    fl == self.functions@.len(),
                    bn == self.classes@.len(),
                    b < bn,
                    mn == self.classes@[b as int].methods@.len(),
                    m <= mn,
                    out@.len() == fl + flat_ts_methods(self.classes@.subrange(0, b as int)).len()
                        + m,
                    forall|j: int|
                        0 <= j < fl ==> ts_fun_conv(
                            self.functions@[j],
                            self.file_id,
                            self.calls@,
                            #[trigger] out@[j],
                        ),
                    forall|j: int|
                        0 <= j < flat_ts_methods(self.classes@.subrange(0, b as int)).len()
                            ==> ts_method_conv(
                            flat_ts_methods(self.classes@.subrange(0, b as int))[j].0,
                            self.file_id,
                            self.calls@,
                            flat_ts_methods(self.classes@.subrange(0, b as int))[j].1@,
                            #[trigger] out@[fl + j],
                        ),
                    forall|j: int|
                        flat_ts_methods(self.classes@.subrange(0, b as int)).len() <= j
                            < flat_ts_methods(self.classes@.subrange(0, b as int)).len() + m
                            ==> ts_method_conv(
                            self.classes@[b as int].methods@[j - flat_ts_methods(
                                self.classes@.subrange(0, b as int),
                            ).len()],
                            self.file_id,
                            self.calls@,
                            self.classes@[b as int].name@,
                            #[trigger] out@[fl + j],
                        ),
                decreases mn - m,
            {
                match convert_ts_method(
                    &self.classes[b].methods[m],
                    self.file_id,
                    &self.calls,
                    &self.classes[b].name,
                ) {
                    Some(f) => out.push(f),
                    None => {},
                }
                m = m + 1;
            }
            proof {
                let pre1 = self.classes@.subrange(0, b + 1);
                assert(flat_ts_methods(pre1) == flat_ts_methods(pre)
                    + self.classes@[b as int].methods@.map_values(
                    |mm: TsMethod| (mm, self.classes@[b as int].name),
                ));
                assert(forall|j: int|
                    0 <= j < self.classes@[b as int].methods@.len()
                        ==> self.classes@[b as int].methods@.map_values(
                        |mm: TsMethod| (mm, self.classes@[b as int].name),
                    )[j] == (self.classes@[b as int].methods@[j], self.classes@[b as int].name));
            }
            b = b + 1;
        }
        proof {
            assert(self.classes@.subrange(0, bn as int) =~= self.classes@);
        }
        out
    }

    /// All HTTP client calls, normalized.
    pub fn http_calls(&self) -> (r: Vec<HttpCall>)
        requires
            self.wf(),
        ensures
            r@.len() == self.http_calls@.len(),
            forall|j: int|
                0 <= j < r@.len() ==> ts_http_conv(
                    self.http_calls@[j],
                    self.file_id,
                    #[trigger] r@[j],
                ),
    {
        let n = self.http_calls.len();
        let mut out: Vec<HttpCall> = Vec::new();
        let mut i: usize = 0;
        while i < n
            invariant
                self.wf(),
                n == self.http_calls@.len(),
                i <= n,
                out@.len() == i,
                forall|j: int|
                    0 <= j < i ==> ts_http_conv(
                        self.http_calls@[j],
                        self.file_id,
                        #[trigger] out@[j],
                    ),
            decreases n - i,
        {
            let h = &self.http_calls[i];
            let library = match h.client_kind {
                TsHttpClientKind::Fetch => HttpClientLibrary::Fetch,
                TsHttpClientKind::Axios => HttpClientLibrary::Axios,
                TsHttpClientKind::Got => HttpClientLibrary::Got,
                TsHttpClientKind::NodeHttp => HttpClientLibrary::Other(crate::bytes::lit_to_vec(
                    "node-http",
                )),
                TsHttpClientKind::NodeFetch => HttpClientLibrary::Other(crate::bytes::lit_to_vec(
                    "node-fetch",
                )),
                TsHttpClientKind::Undici => HttpClientLibrary::Other(crate::bytes::lit_to_vec(
                    "undici",
                )),
                TsHttpClientKind::Ky => HttpClientLibrary::Other(crate::bytes::lit_to_vec("ky")),
                TsHttpClientKind::Superagent => HttpClientLibrary::Other(crate::bytes::lit_to_vec(
                    "superagent",
                )),
                TsHttpClientKind::Unknown => HttpClientLibrary::Other(crate::bytes::lit_to_vec(
                    "unknown",
                )),
            };
            let upper = crate::bytes::to_upper(h.method.as_slice());
            let method = if crate::bytes::bytes_eq_str(upper.as_slice(), "FETCH") {
                HttpMethod::Get
            } else {
                crate::rustlang::http_method_of(upper)
            };
            out.push(
                HttpCall {
                    library,
                    method,
                    url: crate::bytes::clone_opt_bytes(&h.url),
                    has_timeout: h.has_timeout,
                    timeout_millis: None,
                    retry_mechanism: None,
                    call_text: Vec::new(),
                    location: common_loc(self.file_id, &h.location, h.start_byte, h.end_byte),
                    enclosing_function: crate::bytes::clone_opt_bytes(&h.function_name),
                    in_async_context: h.in_async_context,
                    in_loop: false,
                    start_byte: h.start_byte,
                    end_byte: h.end_byte,
                },
            );
            i = i + 1;
        }
        out
    }

    /// All database operations, normalized from the tag-carried records.
    pub fn db_operations(&self) -> (r: Vec<DbOperation>)
        requires
            self.wf(),
        ensures
            r@.len() == self.db_operations@.len(),
            forall|j: int|
                0 <= j < r@.len() ==> ts_db_conv(self.db_operations@[j], #[trigger] r@[j]),
    {
        let n = self.db_operations.len();
        let mut out: Vec<DbOperation> = Vec::new();
        let mut i: usize = 0;
        while i < n
            invariant
                self.wf(),
                n == self.db_operations@.len(),
                i <= n,
                out@.len() == i,
                forall|j: int|
                    0 <= j < i ==> ts_db_conv(self.db_operations@[j], #[trigger] out@[j]),
            decreases n - i,
        {
            let op = &self.db_operations[i];
            let library = if crate::bytes::bytes_eq_str(op.library.as_slice(), "Prisma") {
                DbLibrary::Prisma
            } else if crate::bytes::bytes_eq_str(op.library.as_slice(), "TypeORM") {
                DbLibrary::TypeOrm
            } else if crate::bytes::bytes_eq_str(op.library.as_slice(), "Knex") {
                DbLibrary::Knex
            } else if crate::bytes::bytes_eq_str(op.library.as_slice(), "Sequelize") {
                DbLibrary::Sequelize
            } else if crate::bytes::bytes_eq_str(op.library.as_slice(), "Drizzle ORM") {
                DbLibrary::DrizzleOrm
            } else {
                DbLibrary::Other(crate::bytes::bytes_to_vec(op.library.as_slice()))
            };
            let operation_type = if crate::bytes::bytes_eq_str(
                op.operation_type.as_slice(),
                "SELECT",
            ) {
                DbOperationType::Select
            } else if crate::bytes::bytes_eq_str(op.operation_type.as_slice(), "INSERT") {
                DbOperationType::Insert
            } else if crate::bytes::bytes_eq_str(op.operation_type.as_slice(), "UPDATE") {
                DbOperationType::Update
            } else if crate::bytes::bytes_eq_str(op.operation_type.as_slice(), "DELETE") {
                DbOperationType::Delete
            } else if crate::bytes::bytes_eq_str(op.operation_type.as_slice(), "CONNECT") {
                DbOperationType::Connect
            } else if crate::bytes::bytes_eq_str(op.operation_type.as_slice(), "RAW_SQL") {
                DbOperationType::RawSql
            } else {
                DbOperationType::Unknown
            };
            out.push(
                DbOperation {
                    library,
                    operation_type,
                    has_timeout: op.has_timeout,
                    timeout_millis: op.timeout_millis,
                    in_transaction: op.in_transaction,
                    eager_loading: crate::normalize::clone_eager(&op.eager_loading),
                    in_loop: op.in_loop,
                    in_iteration: op.in_iteration,
                    model_name: crate::bytes::clone_opt_bytes(&op.model_name),
                    relationship_field: crate::bytes::clone_opt_bytes(&op.relationship_field),
                    operation_text: crate::bytes::bytes_to_vec(op.operation_text.as_slice()),
                    location: CommonLocation {
                        file_id: op.location.file_id,
                        line: op.location.line,
                        column: op.location.column,
                        start_byte: op.start_byte,
                        end_byte: op.end_byte,
                    },
                    enclosing_function: crate::bytes::clone_opt_bytes(&op.enclosing_function),
                    start_byte: op.start_byte,
                    end_byte: op.end_byte,
                },
            );
            i = i + 1;
        }
        out
    }

    /// All asynchronous operations, normalized.
    pub fn async_operations(&self) -> (r: Vec<AsyncOperation>)
        requires
            self.wf(),
        ensures
            r@.len() == self.async_operations@.len(),
            forall|j: int|
                0 <= j < r@.len() ==> ts_async_conv(
                    self.async_operations@[j],
                    self.file_id,
                    #[trigger] r@[j],
                ),
    {
        let n = self.async_operations.len();
        let mut out: Vec<AsyncOperation> = Vec::new();
        let mut i: usize = 0;
        while i < n
            invariant
                self.wf(),
                n == self.async_operations@.len(),
                i <= n,
                out@.len() == i,
                forall|j: int|
                    0 <= j < i ==> ts_async_conv(
                        self.async_operations@[j],
                        self.file_id,
                        #[trigger] out@[j],
                    ),
            decreases n - i,
        {
            out.push(convert_ts_async_op(&self.async_operations[i], self.file_id));
            i = i + 1;
        }
        out
    }

    /// Source-level annotations; not populated by the current extractor.
    pub fn annotations(&self) -> (r: Vec<Annotation>)
        ensures
            r@.len() == 0,
    {
        Vec::new()
    }

    /// Route registrations; not populated by the current extractor.
    pub fn route_patterns(&self) -> (r: Vec<RoutePattern>)
        ensures
            r@.len() == 0,
    {
        Vec::new()
    }

    /// Suspected repeated-query patterns; not populated by the current
    /// extractor.
    pub fn n_plus_one_patterns(&self) -> (r: Vec<DbOperation>)
        ensures
            r@.len() == 0,
    {
        Vec::new()
    }

    /// Error-handling contexts; not populated by the current extractor.
    pub fn error_contexts(&self) -> (r: Vec<ErrorContext>)
        ensures
            r@.len() == 0,
    {
        Vec::new()
    }
}

} // verus!
