//! The normalization layer: projects each per-language record onto the
//! shared schema.
//!
//! Every mapping here is total: a record goes in, a record comes out, with
//! unknown categories carried as `Other` and absent facts left at their
//! defaults, never invented.  Positions become 1-based here.

use vstd::prelude::*;
use crate::bytes::{last_ix, lit_bytes, opt_bytes_eqv, upper_seq};
use crate::common::{
    Annotation, AsyncOperation, AsyncOperationType, AsyncRuntime, CancellationHandling,
    CommonLocation, DbLibrary, DbOperation, DbOperationType, EagerLoadingStrategy, ErrorContext,
    ErrorHandling, FunctionCall, FunctionDef, FunctionKind, FunctionParam, HttpCall,
    HttpClientLibrary, Import, ImportSource, ImportStyle, ImportedItem, RoutePattern, Visibility,
};
use crate::lang::{FileId, Lang};
use crate::python::{
    OrmKind, PyAsyncOperation, PyAsyncOperationType, PyCallSite, PyFileSemantics, PyFunction,
    PyHttpClientKind, PyImport, PyImportCategory, PyImportStyle, QueryType,
};
use crate::rustlang::{http_method_of, http_method_rel};
use crate::syntree::{loc_wf, AstLocation};

verus! {

/// A 1-based location built from a 0-based parse-layer position and a byte
/// range.
pub open spec fn loc_conv(fid: FileId, l: AstLocation, sb: usize, eb: usize, out: CommonLocation) -> bool {
    &&& out.file_id == fid
    &&& out.line == l.start_line + 1
    &&& out.column == l.start_col + 1
    &&& out.start_byte == sb
    &&& out.end_byte == eb
}

/// Builds a 1-based location from a 0-based one.
pub fn common_loc(fid: FileId, l: &AstLocation, sb: usize, eb: usize) -> (r: CommonLocation)
    requires
        loc_wf(*l),
    ensures
        loc_conv(fid, *l, sb, eb, r),
        r.line >= 1,
        r.column >= 1,
{
    CommonLocation {
        file_id: fid,
        line: l.start_line + 1,
        column: l.start_col + 1,
        start_byte: sb,
        end_byte: eb,
    }
}

/// The callee-splitting law: a callee expression is split at its rightmost
/// dot; the tail is the callee, the head (when a dot exists) the receiver.
pub open spec fn call_split_rel(e: Seq<u8>, callee: Seq<u8>, receiver: Option<Vec<u8>>) -> bool {
    match last_ix(e, 46) {
        Some(d) => receiver.is_some() && receiver.unwrap()@ == e.subrange(0, d) && callee
            == e.subrange(d + 1, e.len() as int),
        None => receiver.is_none() && callee == e,
    }
}

/// One converted call site: the expression kept verbatim, the split per the
/// callee-splitting law, and the 1-based position carried over.
pub open spec fn call_conv_rel(e: Seq<u8>, line: usize, col: usize, out: FunctionCall) -> bool {
    &&& out.callee_expr@ == e
    &&& call_split_rel(e, out.callee@, out.receiver)
    &&& out.line == line
    &&& out.column == col
}

/// Splits a callee expression and builds the shared call record.
pub fn split_call(e: &[u8], line: usize, col: usize) -> (r: FunctionCall)
    ensures
        call_conv_rel(e@, line, col, r),
{
    let (head, tail) = crate::bytes::split_at_last(e, 46);
    FunctionCall {
        callee: tail,
        callee_expr: crate::bytes::bytes_to_vec(e),
        receiver: head,
        line,
        column: col,
    }
}

/// One Python call site converted to the shared call record.
pub fn convert_py_call_site(call: &PyCallSite) -> (r: FunctionCall)
    ensures
        call_conv_rel(call.callee_expr@, call.line, call.column, r),
{
    split_call(call.callee_expr.as_slice(), call.line, call.column)
}

/// Well-formedness of a normalized import: exactly one style and source (by
/// type), a non-empty module path, named imports with at least one item,
/// star imports with none, default imports with the module alias set.
pub open spec fn import_wf(i: Import) -> bool {
    &&& i.module@.len() > 0
    &&& (i.style == ImportStyle::Named ==> i.items@.len() >= 1)
    &&& (i.style == ImportStyle::Star ==> i.items@.len() == 0)
    &&& (i.style == ImportStyle::Default ==> i.module_alias.is_some())
    &&& i.location.line >= 1
    &&& i.location.column >= 1
}

/// The shared import style of a Python import.
pub open spec fn py_style_map(s: PyImportStyle) -> ImportStyle {
    match s {
        PyImportStyle::Import => ImportStyle::Module,
        PyImportStyle::FromImport => ImportStyle::Named,
    }
}

/// The shared import source of a Python import category.
pub open spec fn py_source_map(c: PyImportCategory) -> ImportSource {
    match c {
        PyImportCategory::Stdlib => ImportSource::StandardLib,
        PyImportCategory::ThirdParty => ImportSource::External,
        PyImportCategory::Local => ImportSource::Local,
    }
}

/// One Python import normalized onto the shared schema.
pub open spec fn py_import_conv(imp: PyImport, fid: FileId, out: Import) -> bool {
    &&& out.module@ == imp.module@
    &&& out.style == py_style_map(imp.style)
    &&& out.source == py_source_map(imp.category)
    &&& out.items@.len() == imp.names@.len()
    &&& forall|k: int|
        0 <= k < imp.names@.len() ==> (#[trigger] out.items@[k]).name@ == imp.names@[k]@
            && out.items@[k].alias.is_none()
    &&& opt_bytes_eqv(out.module_alias, imp.alias)
    &&& out.raw_text@.len() == 0
    &&& !out.is_type_only
    &&& !out.is_dynamic
    &&& out.location.file_id == fid
    &&& out.location.line == imp.location.start_line + 1
    &&& out.location.column == imp.location.start_col + 1
    &&& out.location.start_byte == 0
    &&& out.location.end_byte == 0
}

/// Converts a Python import to the shared import record.  The conversion
/// is total: it never drops a record.
pub fn convert_python_import(imp: &PyImport, file_id: FileId) -> (r: Option<Import>)
    requires
        crate::python::py_import_wf(*imp),
    ensures
        r.is_some(),
        py_import_conv(*imp, file_id, r.unwrap()),
        import_wf(r.unwrap()),
{
    let style = match imp.style {
        PyImportStyle::Import => ImportStyle::Module,
        PyImportStyle::FromImport => ImportStyle::Named,
    };
    let source = match imp.category {
        PyImportCategory::Stdlib => ImportSource::StandardLib,
        PyImportCategory::ThirdParty => ImportSource::External,
        PyImportCategory::Local => ImportSource::Local,
    };
    let n = imp.names.len();
    let mut items: Vec<ImportedItem> = Vec::new();
    let mut k: usize = 0;
    while k < n
        invariant
            n == imp.names@.len(),
            k <= n,
            items@.len() == k,
            forall|j: int|
                0 <= j < k ==> (#[trigger] items@[j]).name@ == imp.names@[j]@
                    && items@[j].alias.is_none(),
        decreases n - k,
    {
        items.push(ImportedItem::new(crate::bytes::bytes_to_vec(imp.names[k].as_slice())));
        k = k + 1;
    }
    Some(
        Import {
            module: crate::bytes::bytes_to_vec(imp.module.as_slice()),
            style,
            source,
            items,
            module_alias: crate::bytes::clone_opt_bytes(&imp.alias),
            raw_text: Vec::new(),
            is_type_only: false,
            is_dynamic: false,
            location: CommonLocation {
                file_id,
                line: imp.location.start_line + 1,
                column: imp.location.start_col + 1,
                start_byte: 0,
                end_byte: 0,
            },
        },
    )
}

/// The visibility a Python function name implies: dunder names are public,
/// other underscore-prefixed names private, everything else public.
pub open spec fn py_visibility_spec(name: Seq<u8>) -> Visibility {
    if crate::bytes::has_prefix(name, lit_bytes("__")) && crate::bytes::has_suffix(
        name,
        lit_bytes("__"),
    ) {
        Visibility::Public
    } else if crate::bytes::has_prefix(name, lit_bytes("_")) {
        Visibility::Private
    } else {
        Visibility::Public
    }
}

/// The call sites of `all` contained in the byte range `[s, e]`, converted,
/// considering the first `n` entries.  Containment is inclusive on both
/// ends.
pub open spec fn py_calls_sel(
    all: Seq<PyCallSite>,
    n: int,
    s: usize,
    e: usize,
    out: Seq<FunctionCall>,
) -> bool
    decreases n
        when 0 <= n <= all.len()
{
    if n == 0 {
        out.len() == 0
    } else if s <= all[n - 1].start_byte && all[n - 1].end_byte <= e {
        &&& out.len() > 0
        &&& py_calls_sel(all, n - 1, s, e, out.drop_last())
        &&& call_conv_rel(all[n - 1].callee_expr@, all[n - 1].line, all[n - 1].column, out.last())
    } else {
        py_calls_sel(all, n - 1, s, e, out)
    }
}

/// One Python function normalized onto the shared schema, with the calls
/// whose byte ranges its own range contains.
pub open spec fn py_fun_conv(
    f: PyFunction,
    fid: FileId,
    all_calls: Seq<PyCallSite>,
    out: FunctionDef,
) -> bool {
    &&& out.name@ == f.name@
    &&& out.kind == (if f.is_method {
        FunctionKind::Method
    } else {
        FunctionKind::Function
    })
    &&& out.visibility == py_visibility_spec(f.name@)
    &&& out.is_async == f.is_async
    &&& out.params@.len() == f.params@.len()
    &&& forall|k: int|
        0 <= k < f.params@.len() ==> {
            &&& (#[trigger] out.params@[k]).name@ == f.params@[k].name@
            &&& opt_bytes_eqv(out.params@[k].type_annotation, f.params@[k].type_annotation)
            &&& opt_bytes_eqv(out.params@[k].default_value, f.params@[k].default_value)
            &&& !out.params@[k].is_variadic
        }
    &&& opt_bytes_eqv(out.return_type, f.return_type)
    &&& out.decorators@.len() == 0
    &&& opt_bytes_eqv(out.class_name, f.class_name)
    &&& py_calls_sel(all_calls, all_calls.len() as int, f.start_byte, f.end_byte, out.calls@)
    &&& out.body_lines == 0
    &&& !out.has_error_handling
    &&& !out.has_documentation
    &&& loc_conv(fid, f.location, f.start_byte, f.end_byte, out.location)
    &&& out.start_byte == f.start_byte
    &&& out.end_byte == f.end_byte
}

/// Converts a Python function to the shared definition record, attributing
/// call sites by byte-range containment.  The conversion is total.
pub fn convert_python_function(
    py_func: &PyFunction,
    file_id: FileId,
    all_calls: &Vec<PyCallSite>,
) -> (r: Option<FunctionDef>)
    requires
        crate::python::py_fun_wf(*py_func),
    ensures
        r.is_some(),
        py_fun_conv(*py_func, file_id, all_calls@, r.unwrap()),
{
    let kind = if py_func.is_method {
        FunctionKind::Method
    } else {
        FunctionKind::Function
    };
    let visibility = if crate::bytes::starts_with_lit(py_func.name.as_slice(), "__")
        && crate::bytes::ends_with_lit(py_func.name.as_slice(), "__") {
        Visibility::Public
    } else if crate::bytes::starts_with_lit(py_func.name.as_slice(), "_") {
        Visibility::Private
    } else {
        Visibility::Public
    };
    let pn = py_func.params.len();
    let mut params: Vec<FunctionParam> = Vec::new();
    let mut k: usize = 0;
    while k < pn
        invariant
            pn == py_func.params@.len(),
            k <= pn,
            params@.len() == k,
            forall|j: int|
                0 <= j < k ==> {
                    &&& (#[trigger] params@[j]).name@ == py_func.params@[j].name@
                    &&& opt_bytes_eqv(params@[j].type_annotation, py_func.params@[j].type_annotation)
                    &&& opt_bytes_eqv(params@[j].default_value, py_func.params@[j].default_value)
                    &&& !params@[j].is_variadic
                },
        decreases pn - k,
    {
        let p = &py_func.params[k];
        params.push(
            FunctionParam {
                name: crate::bytes::bytes_to_vec(p.name.as_slice()),
                type_annotation: crate::bytes::clone_opt_bytes(&p.type_annotation),
                default_value: crate::bytes::clone_opt_bytes(&p.default_value),
                is_variadic: false,
            },
        );
        k = k + 1;
    }
    let cn = all_calls.len();
    let mut calls: Vec<FunctionCall> = Vec::new();
    let mut c: usize = 0;
    while c < cn
        invariant
            cn == all_calls@.len(),
            c <= cn,
            py_calls_sel(all_calls@, c as int, py_func.start_byte, py_func.end_byte, calls@),
        decreases cn - c,
    {
        let site = &all_calls[c];
        if py_func.start_byte <= site.start_byte && site.end_byte <= py_func.end_byte {
            let ghost prev = calls@;
            let fc = split_call(site.callee_expr.as_slice(), site.line, site.column);
            calls.push(fc);
            proof {
                assert(calls@.drop_last() =~= prev);
            }
        }
        c = c + 1;
    }
    Some(
        FunctionDef {
            name: crate::bytes::bytes_to_vec(py_func.name.as_slice()),
            kind,
            visibility,
            is_async: py_func.is_async,
            params,
            return_type: crate::bytes::clone_opt_bytes(&py_func.return_type),
            decorators: Vec::new(),
            class_name: crate::bytes::clone_opt_bytes(&py_func.class_name),
            calls,
            body_lines: 0,
            has_error_handling: false,
            has_documentation: false,
            location: common_loc(file_id, &py_func.location, py_func.start_byte, py_func.end_byte),
            start_byte: py_func.start_byte,
            end_byte: py_func.end_byte,
        },
    )
}

/// The shared operation type of a Python async operation.
pub open spec fn py_async_type_map(t: PyAsyncOperationType) -> AsyncOperationType {
    match t {
        PyAsyncOperationType::TaskSpawn => AsyncOperationType::TaskSpawn,
        PyAsyncOperationType::Await => AsyncOperationType::TaskAwait,
        PyAsyncOperationType::TaskGather => AsyncOperationType::TaskGather,
        PyAsyncOperationType::ChannelSend => AsyncOperationType::ChannelSend,
        PyAsyncOperationType::ChannelReceive => AsyncOperationType::ChannelReceive,
        PyAsyncOperationType::LockAcquire => AsyncOperationType::LockAcquire,
        PyAsyncOperationType::LockRelease => AsyncOperationType::LockRelease,
        PyAsyncOperationType::SemaphoreAcquire => AsyncOperationType::SemaphoreAcquire,
        PyAsyncOperationType::Sleep => AsyncOperationType::Sleep,
        PyAsyncOperationType::Timeout => AsyncOperationType::Timeout,
        PyAsyncOperationType::Select => AsyncOperationType::SelectRace,
        PyAsyncOperationType::AsyncFor => AsyncOperationType::TaskAwait,
        PyAsyncOperationType::Unknown => AsyncOperationType::Unknown,
    }
}

/// One Python async operation normalized onto the shared schema.
pub open spec fn py_async_conv(op: PyAsyncOperation, fid: FileId, out: AsyncOperation) -> bool {
    &&& out.runtime == AsyncRuntime::Asyncio
    &&& out.operation_type == py_async_type_map(op.operation_type)
    &&& out.has_error_handling == op.has_error_handling
    &&& (match out.error_handling {
        Some(h) => op.has_error_handling && h == ErrorHandling::TryCatch,
        None => !op.has_error_handling,
    })
    &&& out.has_timeout == op.has_timeout
    &&& out.timeout_millis == op.timeout_millis
    &&& out.has_cancellation == op.has_cancellation
    &&& (match out.cancellation_handling {
        Some(h) => op.has_cancellation && h == CancellationHandling::CancellationToken,
        None => !op.has_cancellation,
    })
    &&& out.is_bounded == op.is_bounded
    &&& out.bound_limit == op.bound_limit
    &&& !out.has_cleanup
    &&& out.operation_text@ == op.operation_text@
    &&& loc_conv(fid, op.location, op.start_byte, op.end_byte, out.location)
    &&& opt_bytes_eqv(out.enclosing_function, op.enclosing_function)
    &&& out.start_byte == op.start_byte
    &&& out.end_byte == op.end_byte
}

/// Converts a Python async operation to the shared record.  The conversion
/// is total.
pub fn convert_python_async_op(py_op: &PyAsyncOperation, file_id: FileId) -> (r: AsyncOperation)
    requires
        crate::python::py_async_wf(*py_op),
    ensures
        py_async_conv(*py_op, file_id, r),
{
    let operation_type = match py_op.operation_type {
        PyAsyncOperationType::TaskSpawn => AsyncOperationType::TaskSpawn,
        PyAsyncOperationType::Await => AsyncOperationType::TaskAwait,
        PyAsyncOperationType::TaskGather => AsyncOperationType::TaskGather,
        PyAsyncOperationType::ChannelSend => AsyncOperationType::ChannelSend,
        PyAsyncOperationType::ChannelReceive => AsyncOperationType::ChannelReceive,
        PyAsyncOperationType::LockAcquire => AsyncOperationType::LockAcquire,
        PyAsyncOperationType::LockRelease => AsyncOperationType::LockRelease,
        PyAsyncOperationType::SemaphoreAcquire => AsyncOperationType::SemaphoreAcquire,
        PyAsyncOperationType::Sleep => AsyncOperationType::Sleep,
        PyAsyncOperationType::Timeout => AsyncOperationType::Timeout,
        PyAsyncOperationType::Select => AsyncOperationType::SelectRace,
        PyAsyncOperationType::AsyncFor => AsyncOperationType::TaskAwait,
        PyAsyncOperationType::Unknown => AsyncOperationType::Unknown,
    };
    let error_handling = if py_op.has_error_handling {
        Some(ErrorHandling::TryCatch)
    } else {
        None
    };
    let cancellation_handling = if py_op.has_cancellation {
        Some(CancellationHandling::CancellationToken)
    } else {
        None
    };
    AsyncOperation {
        runtime: AsyncRuntime::Asyncio,
        operation_type,
        has_error_handling: py_op.has_error_handling,
        error_handling,
        has_timeout: py_op.has_timeout,
        timeout_millis: py_op.timeout_millis,
        has_cancellation: py_op.has_cancellation,
        cancellation_handling,
        is_bounded: py_op.is_bounded,
        bound_limit: py_op.bound_limit,
        has_cleanup: false,
        operation_text: crate::bytes::bytes_to_vec(py_op.operation_text.as_slice()),
        location: common_loc(file_id, &py_op.location, py_op.start_byte, py_op.end_byte),
        enclosing_function: crate::bytes::clone_opt_bytes(&py_op.enclosing_function),
        start_byte: py_op.start_byte,
        end_byte: py_op.end_byte,
    }
}

/// The shared database library of a Python ORM kind.
pub open spec fn py_db_library_rel(k: OrmKind, l: DbLibrary) -> bool {
    match (k, l) {
        (OrmKind::SqlAlchemy, DbLibrary::SqlAlchemy) => true,
        (OrmKind::Django, DbLibrary::DjangoOrm) => true,
        (OrmKind::Tortoise, DbLibrary::TortoiseOrm) => true,
        (OrmKind::Peewee, DbLibrary::Peewee) => true,
        (OrmKind::SqlModel, DbLibrary::Other(v)) => v@ == lit_bytes("SQLModel"),
        (OrmKind::Unknown, DbLibrary::Other(v)) => v@ == lit_bytes("Unknown"),
        _ => false,
    }
}

/// The shared operation type of a Python query type.
pub open spec fn py_query_type_map(q: QueryType) -> DbOperationType {
    match q {
        QueryType::Select => DbOperationType::Select,
        QueryType::Insert => DbOperationType::Insert,
        QueryType::Update => DbOperationType::Update,
        QueryType::Delete => DbOperationType::Delete,
        QueryType::RelationshipAccess => DbOperationType::RelationshipAccess,
        QueryType::Unknown => DbOperationType::Unknown,
    }
}

/// One Python ORM query normalized onto the shared schema.
pub open spec fn py_db_conv(q: crate::python::OrmQueryCall, fid: FileId, out: DbOperation) -> bool {
    &&& py_db_library_rel(q.orm_kind, out.library)
    &&& out.operation_type == py_query_type_map(q.query_type)
    &&& !out.has_timeout
    &&& out.timeout_millis.is_none()
    &&& !out.in_transaction
    &&& (match out.eager_loading {
        Some(e) => q.has_eager_loading && (match e {
            EagerLoadingStrategy::Other(v) => v@ == lit_bytes("detected"),
            _ => false,
        }),
        None => !q.has_eager_loading,
    })
    &&& out.in_loop == q.in_loop
    &&& out.in_iteration == q.in_comprehension
    &&& opt_bytes_eqv(out.model_name, q.model_name)
    &&& opt_bytes_eqv(out.relationship_field, q.loop_variable)
    &&& (match q.query_text {
        Some(v) => out.operation_text@ == v@,
        None => out.operation_text@.len() == 0,
    })
    &&& loc_conv(fid, q.location, q.start_byte, q.end_byte, out.location)
    &&& out.enclosing_function.is_none()
    &&& out.start_byte == q.start_byte
    &&& out.end_byte == q.end_byte
}

/// One Python HTTP call normalized onto the shared schema.
pub open spec fn py_http_conv(h: crate::python::PyHttpCallSite, fid: FileId, out: HttpCall) -> bool {
    &&& (match (h.client_kind, out.library) {
        (PyHttpClientKind::Requests, HttpClientLibrary::Requests) => true,
        (PyHttpClientKind::Httpx, HttpClientLibrary::Httpx) => true,
        (PyHttpClientKind::Aiohttp, HttpClientLibrary::Aiohttp) => true,
        (PyHttpClientKind::Other(a), HttpClientLibrary::Other(b)) => a@ == b@,
        _ => false,
    })
    &&& http_method_rel(upper_seq(h.method_name@), out.method)
    &&& out.url.is_none()
    &&& out.has_timeout == h.has_timeout
    &&& out.timeout_millis.is_none()
    &&& out.retry_mechanism.is_none()
    &&& out.call_text@ == h.call_text@
    &&& loc_conv(fid, h.location, h.start_byte, h.end_byte, out.location)
    &&& opt_bytes_eqv(out.enclosing_function, h.function_name)
    &&& out.in_async_context == h.in_async_function
    &&& !out.in_loop
    &&& out.start_byte == h.start_byte
    &&& out.end_byte == h.end_byte
}

impl PyFileSemantics {
    /// The identifier of the file these facts came from.
    pub fn file_id(&self) -> (r: FileId)
        ensures
            r == self.file_id,
    {
        self.file_id
    }

    /// The path of the file these facts came from.
    pub fn file_path(&self) -> (r: &Vec<u8>)
        ensures
            r@ == self.path@,
    {
        &self.path
    }

    /// The language of the file.
    pub fn language(&self) -> (r: Lang)
        ensures
            r == Lang::Python,
    {
        Lang::Python
    }

    /// All imports, normalized.
    pub fn imports(&self) -> (r: Vec<Import>)
        requires
            self.wf(),
        ensures
            r@.len() == self.imports@.len(),
            forall|j: int|
                0 <= j < r@.len() ==> py_import_conv(
                    self.imports@[j],
                    self.file_id,
                    #[trigger] r@[j],
                ) && import_wf(r@[j]),
    {
        let n = self.imports.len();
        let mut out: Vec<Import> = Vec::new();
        let mut i: usize = 0;
        while i < n
            invariant
                self.wf(),
                n == self.imports@.len(),
                i <= n,
                out@.len() == i,
                forall|j: int|
                    0 <= j < i ==> py_import_conv(
                        self.imports@[j],
                        self.file_id,
                        #[trigger] out@[j],
                    ) && import_wf(out@[j]),
            decreases n - i,
        {
            match convert_python_import(&self.imports[i], self.file_id) {
                Some(imp) => out.push(imp),
                None => {},
            }
            i = i + 1;
        }
        out
    }

    /// All function definitions, normalized, with calls attributed by
    /// byte-range containment.
    pub fn functions(&self) -> (r: Vec<FunctionDef>)
        requires
            self.wf(),
        ensures
            r@.len() == self.functions@.len(),
            forall|j: int|
                0 <= j < r@.len() ==> py_fun_conv(
                    self.functions@[j],
                    self.file_id,
                    self.calls@,
                    #[trigger] r@[j],
                ),
    {
        let n = self.functions.len();
        let mut out: Vec<FunctionDef> = Vec::new();
        let mut i: usize = 0;
        while i < n
            invariant
                self.wf(),
                n == self.functions@.len(),
                i <= n,
                out@.len() == i,
                forall|j: int|
                    0 <= j < i ==> py_fun_conv(
                        self.functions@[j],
                        self.file_id,
                        self.calls@,
                        #[trigger] out@[j],
                    ),
            decreases n - i,
        {
            match convert_python_function(&self.functions[i], self.file_id, &self.calls) {
                Some(f) => out.push(f),
                None => {},
            }
            i = i + 1;
        }
        out
    }

    /// All HTTP client calls, normalized.
    pub fn http_calls(&self) -> (r: Vec<HttpCall>)
        requires
            self.wf(),
        ensures
            r@.len() == self.http_calls@.len(),
            forall|j: int|
                0 <= j < r@.len() ==> py_http_conv(
                    self.http_calls@[j],
                    self.file_id,
                    #[trigger] r@[j],
                ),
    {
        let n = self.http_calls.len();
        let mut out: Vec<HttpCall> = Vec::new();
        let mut i: usize = 0;
        while i < n
            invariant
                self.wf(),
                n == self.http_calls@.len(),
                i <= n,
                out@.len() == i,
                forall|j: int|
                    0 <= j < i ==> py_http_conv(
                        self.http_calls@[j],
                        self.file_id,
                        #[trigger] out@[j],
                    ),
            decreases n - i,
        {
            let h = &self.http_calls[i];
            let library = match &h.client_kind {
                PyHttpClientKind::Requests => HttpClientLibrary::Requests,
                PyHttpClientKind::Httpx => HttpClientLibrary::Httpx,
                PyHttpClientKind::Aiohttp => HttpClientLibrary::Aiohttp,
                PyHttpClientKind::Other(v) => HttpClientLibrary::Other(
                    crate::bytes::bytes_to_vec(v.as_slice()),
                ),
            };
            let method = http_method_of(crate::bytes::to_upper(h.method_name.as_slice()));
            out.push(
                HttpCall {
                    library,
                    method,
                    url: None,
                    has_timeout: h.has_timeout,
                    timeout_millis: None,
                    retry_mechanism: None,
                    call_text: crate::bytes::bytes_to_vec(h.call_text.as_slice()),
                    location: common_loc(self.file_id, &h.location, h.start_byte, h.end_byte),
                    enclosing_function: crate::bytes::clone_opt_bytes(&h.function_name),
                    in_async_context: h.in_async_function,
                    in_loop: false,
                    start_byte: h.start_byte,
                    end_byte: h.end_byte,
                },
            );
            i = i + 1;
        }
        out
    }

    /// All database operations, normalized from the ORM queries.
    pub fn db_operations(&self) -> (r: Vec<DbOperation>)
        requires
            self.wf(),
        ensures
            r@.len() == self.orm_queries@.len(),
            forall|j: int|
                0 <= j < r@.len() ==> py_db_conv(
                    self.orm_queries@[j],
                    self.file_id,
                    #[trigger] r@[j],
                ),
    {
        let n = self.orm_queries.len();
        let mut out: Vec<DbOperation> = Vec::new();
        let mut i: usize = 0;
        while i < n
            invariant
                self.wf(),
                n == self.orm_queries@.len(),
                i <= n,
                out@.len() == i,
                forall|j: int|
                    0 <= j < i ==> py_db_conv(
                        self.orm_queries@[j],
                        self.file_id,
                        #[trigger] out@[j],
                    ),
            decreases n - i,
        {
            let q = &self.orm_queries[i];
            let library = match q.orm_kind {
                OrmKind::SqlAlchemy => DbLibrary::SqlAlchemy,
                OrmKind::Django => DbLibrary::DjangoOrm,
                OrmKind::Tortoise => DbLibrary::TortoiseOrm,
                OrmKind::Peewee => DbLibrary::Peewee,
                OrmKind::SqlModel => DbLibrary::Other(crate::bytes::lit_to_vec("SQLModel")),
                OrmKind::Unknown => DbLibrary::Other(crate::bytes::lit_to_vec("Unknown")),
            };
            let operation_type = match q.query_type {
                QueryType::Select => DbOperationType::Select,
                QueryType::Insert => DbOperationType::Insert,
                QueryType::Update => DbOperationType::Update,
                QueryType::Delete => DbOperationType::Delete,
                QueryType::RelationshipAccess => DbOperationType::RelationshipAccess,
                QueryType::Unknown => DbOperationType::Unknown,
            };
            let eager_loading = if q.has_eager_loading {
                Some(EagerLoadingStrategy::Other(crate::bytes::lit_to_vec("detected")))
            } else {
                None
            };
            let operation_text = match &q.query_text {
                Some(v) => crate::bytes::bytes_to_vec(v.as_slice()),
                None => Vec::new(),
            };
            out.push(
                DbOperation {
                    library,
                    operation_type,
                    has_timeout: false,
                    timeout_millis: None,
                    in_transaction: false,
                    eager_loading,
                    in_loop: q.in_loop,
                    in_iteration: q.in_comprehension,
                    model_name: crate::bytes::clone_opt_bytes(&q.model_name),
                    relationship_field: crate::bytes::clone_opt_bytes(&q.loop_variable),
                    operation_text,
                    location: common_loc(self.file_id, &q.location, q.start_byte, q.end_byte),
                    enclosing_function: None,
                    start_byte: q.start_byte,
                    end_byte: q.end_byte,
                },
            );
            i = i + 1;
        }
        out
    }

    /// All asynchronous operations, normalized.
    pub fn async_operations(&self) -> (r: Vec<AsyncOperation>)
        requires
            self.wf(),
        ensures
            r@.len() == self.async_operations@.len(),
            forall|j: int|
                0 <= j < r@.len() ==> py_async_conv(
                    self.async_operations@[j],
                    self.file_id,
                    #[trigger] r@[j],
                ),
    {
        let n = self.async_operations.len();
        let mut out: Vec<AsyncOperation> = Vec::new();
        let mut i: usize = 0;
        while i < n
            invariant
                self.wf(),
                n == self.async_operations@.len(),
                i <= n,
                out@.len() == i,
                forall|j: int|
                    0 <= j < i ==> py_async_conv(
                        self.async_operations@[j],
                        self.file_id,
                        #[trigger] out@[j],
                    ),
            decreases n - i,
        {
            out.push(convert_python_async_op(&self.async_operations[i], self.file_id));
            i = i + 1;
        }
        out
    }

    /// Source-level annotations; not populated by the current extractor.
    pub fn annotations(&self) -> (r: Vec<Annotation>)
        ensures
            r@.len() == 0,
    {
        Vec::new()
    }

    /// Route registrations; not populated by the current extractor.
    pub fn route_patterns(&self) -> (r: Vec<RoutePattern>)
        ensures
            r@.len() == 0,
    {
        Vec::new()
    }

    /// Suspected repeated-query patterns; not populated by the current
    /// extractor.
    pub fn n_plus_one_patterns(&self) -> (r: Vec<DbOperation>)
        ensures
            r@.len() == 0,
    {
        Vec::new()
    }

    /// Error-handling contexts; not populated by the current extractor.
    pub fn error_contexts(&self) -> (r: Vec<ErrorContext>)
        ensures
            r@.len() == 0,
    {
        Vec::new()
    }
}


/// Two optional eager-loading hints agree.
pub open spec fn eager_eqv(a: Option<EagerLoadingStrategy>, b: Option<EagerLoadingStrategy>) -> bool {
    match (a, b) {
        (None, None) => true,
        (Some(x), Some(y)) => match (x, y) {
            (EagerLoadingStrategy::Joined, EagerLoadingStrategy::Joined) => true,
            (EagerLoadingStrategy::Subquery, EagerLoadingStrategy::Subquery) => true,
            (EagerLoadingStrategy::Other(u), EagerLoadingStrategy::Other(v)) => u@ == v@,
            _ => false,
        },
        _ => false,
    }
}

/// An owned copy of an optional eager-loading hint.
pub fn clone_eager(o: &Option<EagerLoadingStrategy>) -> (r: Option<EagerLoadingStrategy>)
    ensures
        eager_eqv(r, *o),
{
    match o {
        None => None,
        Some(e) => Some(
            match e {
                EagerLoadingStrategy::Joined => EagerLoadingStrategy::Joined,
                EagerLoadingStrategy::Subquery => EagerLoadingStrategy::Subquery,
                EagerLoadingStrategy::Other(v) => EagerLoadingStrategy::Other(
                    crate::bytes::bytes_to_vec(v.as_slice()),
                ),
            },
        ),
    }
}

} // verus!

