//! Normalization of Rust semantics onto the shared schema.

use vstd::prelude::*;
use crate::bytes::{has_prefix, lit_bytes, opt_bytes_eqv};
use crate::common::{
    Annotation, AsyncOperation, AsyncOperationType, AsyncRuntime, CommonLocation, DbLibrary,
    DbOperation, DbOperationType, ErrorContext, FunctionCall, FunctionDef, FunctionKind,
    FunctionParam, HttpCall, HttpClientLibrary, HttpMethod, Import, ImportSource, ImportStyle,
    ImportedItem, RoutePattern, Visibility,
};
use crate::lang::{FileId, Lang};
use crate::normalize::{call_conv_rel, common_loc, import_wf, loc_conv, split_call};
use crate::rustlang::{
    RustCallSite, RustDbOperation, RustFileSemantics, RustFunction, RustImplBlock, RustUse,
    RustVisibility, SpawnCall,
};

verus! {

/// The source class of a Rust use path: `std` and `core` are the standard
/// library, crate-relative paths are local, the rest external.
pub open spec fn rust_source_spec(path: Seq<u8>) -> ImportSource {
    if has_prefix(path, lit_bytes("std::")) || has_prefix(path, lit_bytes("core::")) {
        ImportSource::StandardLib
    } else if has_prefix(path, lit_bytes("crate::")) || has_prefix(path, lit_bytes("super::"))
        || has_prefix(path, lit_bytes("self::")) {
        ImportSource::Local
    } else {
        ImportSource::External
    }
}

/// The shared import style of a `use` declaration.
pub open spec fn rust_style_spec(u: RustUse) -> ImportStyle {
    if u.is_glob {
        ImportStyle::Star
    } else if u.items@.len() == 0 {
        ImportStyle::Module
    } else {
        ImportStyle::Named
    }
}

/// One `use` declaration normalized onto the shared schema.
pub open spec fn rust_use_conv(u: RustUse, fid: FileId, out: Import) -> bool {
    &&& out.module@ == u.path@
    &&& out.style == rust_style_spec(u)
    &&& out.source == rust_source_spec(u.path@)
    &&& out.items@.len() == (if u.is_glob {
        0int
    } else {
        u.items@.len() as int
    })
    &&& (!u.is_glob ==> forall|k: int|
        0 <= k < u.items@.len() ==> (#[trigger] out.items@[k]).name@ == u.items@[k]@
            && out.items@[k].alias.is_none())
    &&& opt_bytes_eqv(out.module_alias, u.alias)
    &&& out.raw_text@.len() == 0
    &&& !out.is_type_only
    &&& !out.is_dynamic
    &&& out.location.file_id == fid
    &&& out.location.line == u.location.start_line + 1
    &&& out.location.column == u.location.start_col + 1
    &&& out.location.start_byte == 0
    &&& out.location.end_byte == 0
}

/// Converts a `use` declaration to the shared import record.  The
/// conversion is total.
pub fn convert_rust_use(rust_use: &RustUse, file_id: FileId) -> (r: Option<Import>)
    requires
        crate::rustlang::rust_use_wf(*rust_use),
    ensures
        r.is_some(),
        rust_use_conv(*rust_use, file_id, r.unwrap()),
        import_wf(r.unwrap()),
{
    let source = if crate::bytes::starts_with_lit(rust_use.path.as_slice(), "std::")
        || crate::bytes::starts_with_lit(rust_use.path.as_slice(), "core::") {
        ImportSource::StandardLib
    } else if crate::bytes::starts_with_lit(rust_use.path.as_slice(), "crate::")
        || crate::bytes::starts_with_lit(rust_use.path.as_slice(), "super::")
        || crate::bytes::starts_with_lit(rust_use.path.as_slice(), "self::") {
        ImportSource::Local
    } else {
        ImportSource::External
    };
    let mut items: Vec<ImportedItem> = Vec::new();
    if !rust_use.is_glob {
        let n = rust_use.items.len();
        let mut k: usize = 0;
        while k < n
            invariant
                n == rust_use.items@.len(),
                k <= n,
                items@.len() == k,
                forall|j: int|
                    0 <= j < k ==> (#[trigger] items@[j]).name@ == rust_use.items@[j]@
                        && items@[j].alias.is_none(),
            decreases n - k,
        {
            items.push(ImportedItem::new(crate::bytes::bytes_to_vec(rust_use.items[k].as_slice())));
            k = k + 1;
        }
    }
    let style = if rust_use.is_glob {
        ImportStyle::Star
    } else if items.len() == 0 {
        ImportStyle::Module
    } else {
        ImportStyle::Named
    };
    Some(
        Import {
            module: crate::bytes::bytes_to_vec(rust_use.path.as_slice()),
            style,
            source,
            items,
            module_alias: crate::bytes::clone_opt_bytes(&rust_use.alias),
            raw_text: Vec::new(),
            is_type_only: false,
            is_dynamic: false,
            location: CommonLocation {
                file_id,
                line: rust_use.location.start_line + 1,
                column: rust_use.location.start_col + 1,
                start_byte: 0,
                end_byte: 0,
            },
        },
    )
}

/// One Rust call site converted to the shared call record.
pub fn convert_rust_call_site(call: &RustCallSite) -> (r: FunctionCall)
    ensures
        call_conv_rel(call.callee_expr@, call.line, call.column, r),
{
    split_call(call.callee_expr.as_slice(), call.line, call.column)
}

/// The shared visibility of a Rust visibility modifier.
pub open spec fn rust_visibility_spec(v: RustVisibility) -> Visibility {
    match v {
        RustVisibility::Pub => Visibility::Public,
        RustVisibility::PubCrate => Visibility::Package,
        RustVisibility::PubSuper => Visibility::Protected,
        RustVisibility::PubIn(p) => Visibility::Package,
        RustVisibility::Private => Visibility::Private,
    }
}

/// The call sites of `all` contained in `[s, e]`, converted, over the
/// first `n` entries.
pub open spec fn rust_calls_sel(
    all: Seq<RustCallSite>,
    n: int,
    s: usize,
    e: usize,
    out: Seq<FunctionCall>,
) -> bool
    decreases n
        when 0 <= n <= all.len()
{
    if n == 0 {
        out.len() == 0
    } else if s <= all[n - 1].start_byte && all[n - 1].end_byte <= e {
        &&& out.len() > 0
        &&& rust_calls_sel(all, n - 1, s, e, out.drop_last())
        &&& call_conv_rel(all[n - 1].callee_expr@, all[n - 1].line, all[n - 1].column, out.last())
    } else {
        rust_calls_sel(all, n - 1, s, e, out)
    }
}

/// One Rust function normalized onto the shared schema.
pub open spec fn rust_fun_conv(
    f: RustFunction,
    fid: FileId,
    all_calls: Seq<RustCallSite>,
    out: FunctionDef,
) -> bool {
    &&& out.name@ == f.name@
    &&& out.kind == FunctionKind::Function
    &&& out.visibility == rust_visibility_spec(f.visibility)
    &&& out.is_async == f.is_async
    &&& out.params@.len() == f.params@.len()
    &&& forall|k: int|
        0 <= k < f.params@.len() ==> {
            &&& (#[trigger] out.params@[k]).name@ == f.params@[k].name@
            &&& (match out.params@[k].type_annotation {
                Some(v) => v@ == f.params@[k].param_type@,
                None => false,
            })
            &&& out.params@[k].default_value.is_none()
            &&& !out.params@[k].is_variadic
        }
    &&& opt_bytes_eqv(out.return_type, f.return_type)
    &&& out.decorators@.len() == 0
    &&& out.class_name.is_none()
    &&& rust_calls_sel(all_calls, all_calls.len() as int, f.start_byte, f.end_byte, out.calls@)
    &&& out.body_lines == 0
    &&& !out.has_error_handling
    &&& !out.has_documentation
    &&& loc_conv(fid, f.location, f.start_byte, f.end_byte, out.location)
    &&& out.start_byte == f.start_byte
    &&& out.end_byte == f.end_byte
}

/// Converts a Rust function to the shared definition record.  The
/// conversion is total.
pub fn convert_rust_function(
    rust_func: &RustFunction,
    file_id: FileId,
    all_calls: &Vec<RustCallSite>,
) -> (r: Option<FunctionDef>)
    requires
        crate::rustlang::rust_fun_wf(*rust_func),
    ensures
        r.is_some(),
        rust_fun_conv(*rust_func, file_id, all_calls@, r.unwrap()),
{
    let visibility = match &rust_func.visibility {
        RustVisibility::Pub => Visibility::Public,
        RustVisibility::PubCrate => Visibility::Package,
        RustVisibility::PubSuper => Visibility::Protected,
        RustVisibility::PubIn(_) => Visibility::Package,
        RustVisibility::Private => Visibility::Private,
    };
    let pn = rust_func.params.len();
    let mut params: Vec<FunctionParam> = Vec::new();
    let mut k: usize = 0;
    while k < pn
        invariant
            pn == rust_func.params@.len(),
            k <= pn,
            params@.len() == k,
            forall|j: int|
                0 <= j < k ==> {
                    &&& (#[trigger] params@[j]).name@ == rust_func.params@[j].name@
                    &&& (match params@[j].type_annotation {
                        Some(v) => v@ == rust_func.params@[j].param_type@,
                        None => false,
                    })
                    &&& params@[j].default_value.is_none()
                    &&& !params@[j].is_variadic
                },
        decreases pn - k,
    {
        let p = &rust_func.params[k];
        params.push(
            FunctionParam {
                name: crate::bytes::bytes_to_vec(p.name.as_slice()),
                type_annotation: Some(crate::bytes::bytes_to_vec(p.param_type.as_slice())),
                default_value: None,
                is_variadic: false,
            },
        );
        k = k + 1;
    }
    let cn = all_calls.len();
    let mut calls: Vec<FunctionCall> = Vec::new();
    let mut c: usize = 0;
    while c < cn
        invariant
            cn == all_calls@.len(),
            c <= cn,
            rust_calls_sel(all_calls@, c as int, rust_func.start_byte, rust_func.end_byte, calls@),
        decreases cn - c,
    {
        let site = &all_calls[c];
        if rust_func.start_byte <= site.start_byte && site.end_byte <= rust_func.end_byte {
            let ghost prev = calls@;
            let fc = split_call(site.callee_expr.as_slice(), site.line, site.column);
            calls.push(fc);
            proof {
                assert(calls@.drop_last() =~= prev);
            }
        }
        c = c + 1;
    }
    Some(
        FunctionDef {
            name: crate::bytes::bytes_to_vec(rust_func.name.as_slice()),
            kind: FunctionKind::Function,
            visibility,
            is_async: rust_func.is_async,
            params,
            return_type: crate::bytes::clone_opt_bytes(&rust_func.return_type),
            decorators: Vec::new(),
            class_name: None,
            calls,
            body_lines: 0,
            has_error_handling: false,
            has_documentation: false,
            location: common_loc(
                file_id,
                &rust_func.location,
                rust_func.start_byte,
                rust_func.end_byte,
            ),
            start_byte: rust_func.start_byte,
            end_byte: rust_func.end_byte,
        },
    )
}

/// The methods of all `impl` blocks, flattened in order.
pub open spec fn flat_methods(impls: Seq<RustImplBlock>) -> Seq<RustFunction>
    decreases impls.len(),
{
    if impls.len() == 0 {
        Seq::empty()
    } else {
        flat_methods(impls.drop_last()) + impls.last().methods@
    }
}

/// The shared database library of a Rust library tag.
pub open spec fn rust_db_library_rel(tag: Seq<u8>, l: DbLibrary) -> bool {
    if tag == lit_bytes("Diesel") {
        l == DbLibrary::Diesel
    } else if tag == lit_bytes("SeaORM") {
        l == DbLibrary::SeaOrm
    } else if tag == lit_bytes("sqlx") {
        l == DbLibrary::SqlxRust
    } else if tag == lit_bytes("tokio-postgres") {
        l == DbLibrary::TokioPostgres
    } else {
        match l {
            DbLibrary::Other(v) => v@ == tag,
            _ => false,
        }
    }
}

/// The shared operation type of a Rust operation tag.
pub open spec fn rust_db_type_spec(tag: Seq<u8>) -> DbOperationType {
    if tag == lit_bytes("SELECT") {
        DbOperationType::Select
    } else if tag == lit_bytes("INSERT") {
        DbOperationType::Insert
    } else if tag == lit_bytes("UPDATE") {
        DbOperationType::Update
    } else if tag == lit_bytes("DELETE") {
        DbOperationType::Delete
    } else if tag == lit_bytes("RAW_SQL") {
        DbOperationType::RawSql
    } else {
        DbOperationType::Unknown
    }
}

/// One Rust database operation normalized onto the shared schema.
pub open spec fn rust_db_conv(op: RustDbOperation, out: DbOperation) -> bool {
    &&& rust_db_library_rel(op.library@, out.library)
    &&& out.operation_type == rust_db_type_spec(op.operation_type@)
    &&& out.has_timeout == op.has_timeout
    &&& out.timeout_millis == op.timeout_millis
    &&& out.in_transaction == op.in_transaction
    &&& crate::normalize::eager_eqv(out.eager_loading, op.eager_loading)
    &&& out.in_loop == op.in_loop
    &&& out.in_iteration == op.in_iteration
    &&& opt_bytes_eqv(out.model_name, op.model_name)
    &&& opt_bytes_eqv(out.relationship_field, op.relationship_field)
    &&& out.operation_text@ == op.operation_text@
    &&& out.location.file_id == op.location.file_id
    &&& out.location.line == op.location.line
    &&& out.location.column == op.location.column
    &&& out.location.start_byte == op.start_byte
    &&& out.location.end_byte == op.end_byte
    &&& opt_bytes_eqv(out.enclosing_function, op.enclosing_function)
    &&& out.start_byte == op.start_byte
    &&& out.end_byte == op.end_byte
}

/// Two shared HTTP calls agree field for field.
pub open spec fn http_call_eqv(a: HttpCall, b: HttpCall) -> bool {
    &&& (match (a.library, b.library) {
        (HttpClientLibrary::Other(u), HttpClientLibrary::Other(v)) => u@ == v@,
        (x, y) => x == y,
    })
    &&& (match (a.method, b.method) {
        (HttpMethod::Other(u), HttpMethod::Other(v)) => u@ == v@,
        (x, y) => x == y,
    })
    &&& opt_bytes_eqv(a.url, b.url)
    &&& a.has_timeout == b.has_timeout
    &&& a.timeout_millis == b.timeout_millis
    &&& opt_bytes_eqv(a.retry_mechanism, b.retry_mechanism)
    &&& a.call_text@ == b.call_text@
    &&& a.location == b.location
    &&& opt_bytes_eqv(a.enclosing_function, b.enclosing_function)
    &&& a.in_async_context == b.in_async_context
    &&& a.in_loop == b.in_loop
    &&& a.start_byte == b.start_byte
    &&& a.end_byte == b.end_byte
}

/// An owned copy of one shared HTTP call.
pub fn clone_http_call(h: &HttpCall) -> (r: HttpCall)
    ensures
        http_call_eqv(r, *h),
{
    let library = match &h.library {
        HttpClientLibrary::Requests => HttpClientLibrary::Requests,
        HttpClientLibrary::Httpx => HttpClientLibrary::Httpx,
        HttpClientLibrary::Aiohttp => HttpClientLibrary::Aiohttp,
        HttpClientLibrary::NetHttp => HttpClientLibrary::NetHttp,
        HttpClientLibrary::Fetch => HttpClientLibrary::Fetch,
        HttpClientLibrary::Axios => HttpClientLibrary::Axios,
        HttpClientLibrary::Got => HttpClientLibrary::Got,
        HttpClientLibrary::Reqwest => HttpClientLibrary::Reqwest,
        HttpClientLibrary::ReqwestBlocking => HttpClientLibrary::ReqwestBlocking,
        HttpClientLibrary::Ureq => HttpClientLibrary::Ureq,
        HttpClientLibrary::Hyper => HttpClientLibrary::Hyper,
        HttpClientLibrary::Surf => HttpClientLibrary::Surf,
        HttpClientLibrary::Awc => HttpClientLibrary::Awc,
        HttpClientLibrary::Isahc => HttpClientLibrary::Isahc,
        HttpClientLibrary::Other(v) => HttpClientLibrary::Other(crate::bytes::bytes_to_vec(
            v.as_slice(),
        )),
    };
    let method = match &h.method {
        HttpMethod::Get => HttpMethod::Get,
        HttpMethod::Post => HttpMethod::Post,
        HttpMethod::Put => HttpMethod::Put,
        HttpMethod::Patch => HttpMethod::Patch,
        HttpMethod::Delete => HttpMethod::Delete,
        HttpMethod::Other(v) => HttpMethod::Other(crate::bytes::bytes_to_vec(v.as_slice())),
    };
    HttpCall {
        library,
        method,
        url: crate::bytes::clone_opt_bytes(&h.url),
        has_timeout: h.has_timeout,
        timeout_millis: h.timeout_millis,
        retry_mechanism: crate::bytes::clone_opt_bytes(&h.retry_mechanism),
        call_text: crate::bytes::bytes_to_vec(h.call_text.as_slice()),
        location: CommonLocation {
            file_id: h.location.file_id,
            line: h.location.line,
            column: h.location.column,
            start_byte: h.location.start_byte,
            end_byte: h.location.end_byte,
        },
        enclosing_function: crate::bytes::clone_opt_bytes(&h.enclosing_function),
        in_async_context: h.in_async_context,
        in_loop: h.in_loop,
        start_byte: h.start_byte,
        end_byte: h.end_byte,
    }
}

/// One Rust spawn call normalized onto the shared schema, with the runtime
/// inferred from the file's imports.
pub open spec fn rust_spawn_conv(
    s: SpawnCall,
    fid: FileId,
    uses_tokio: bool,
    uses_async_std: bool,
    out: AsyncOperation,
) -> bool {
    &&& (match out.runtime {
        AsyncRuntime::Tokio => uses_tokio,
        AsyncRuntime::AsyncStd => !uses_tokio && uses_async_std,
        AsyncRuntime::Other(v) => !uses_tokio && !uses_async_std && v@ == lit_bytes("unknown"),
        _ => false,
    })
    &&& out.operation_type == AsyncOperationType::TaskSpawn
    &&& out.has_error_handling == s.has_error_handling
    &&& out.error_handling.is_none()
    &&& !out.has_timeout
    &&& out.timeout_millis.is_none()
    &&& out.has_cancellation == s.handle_captured
    &&& out.cancellation_handling.is_none()
    &&& !out.is_bounded
    &&& out.bound_limit.is_none()
    &&& !out.has_cleanup
    &&& out.operation_text@ == s.spawned_expr@
    &&& loc_conv(fid, s.location, s.start_byte, s.end_byte, out.location)
    &&& opt_bytes_eqv(out.enclosing_function, s.function_name)
    &&& out.start_byte == s.start_byte
    &&& out.end_byte == s.end_byte
}

impl RustFileSemantics {
    /// The identifier of the file these facts came from.
    pub fn file_id(&self) -> (r: FileId)
        ensures
            r == self.file_id,
    {
        self.file_id
    }

    /// The path of the file these facts came from.
    pub fn file_path(&self) -> (r: &Vec<u8>)
        ensures
            r@ == self.path@,
    {
        &self.path
    }

    /// The language of the file.
    pub fn language(&self) -> (r: Lang)
        ensures
            r == Lang::Rust,
    {
        Lang::Rust
    }

    /// All imports, normalized from the `use` declarations.
    pub fn imports(&self) -> (r: Vec<Import>)
        requires
            self.wf(),
        ensures
            r@.len() == self.uses@.len(),
            forall|j: int|
                0 <= j < r@.len() ==> rust_use_conv(self.uses@[j], self.file_id, #[trigger] r@[j])
                    && import_wf(r@[j]),
    {
        let n = self.uses.len();
        let mut out: Vec<Import> = Vec::new();
        let mut i: usize = 0;
        while i < n
            invariant
                self.wf(),
                n == self.uses@.len(),
                i <= n,
                out@.len() == i,
                forall|j: int|
                    0 <= j < i ==> rust_use_conv(self.uses@[j], self.file_id, #[trigger] out@[j])
                        && import_wf(out@[j]),
            decreases n - i,
        {
            match convert_rust_use(&self.uses[i], self.file_id) {
                Some(imp) => out.push(imp),
                None => {},
            }
            i = i + 1;
        }
        out
    }

    /// All function and method definitions, normalized: the top-level
    /// functions in order, then the methods of the `impl` blocks in order.
    pub fn functions(&self) -> (r: Vec<FunctionDef>)
        requires
            self.wf(),
        ensures
            r@.len() == self.functions@.len() + flat_methods(self.impls@).len(),
            forall|j: int|
                0 <= j < self.functions@.len() ==> rust_fun_conv(
                    self.functions@[j],
                    self.file_id,
                    self.calls@,
                    #[trigger] r@[j],
                ),
            forall|j: int|
                0 <= j < flat_methods(self.impls@).len() ==> rust_fun_conv(
                    flat_methods(self.impls@)[j],
                    self.file_id,
                    self.calls@,
                    #[trigger] r@[self.functions@.len() + j],
                ),
    {
        let fl = self.functions.len();
        let mut out: Vec<FunctionDef> = Vec::new();
        let mut i: usize = 0;
        while i < fl
            invariant
                self.wf(),
                fl == self.functions@.len(),
                i <= fl,
                out@.len() == i,
                forall|j: int|
                    0 <= j < i ==> rust_fun_conv(
                        self.functions@[j],
                        self.file_id,
                        self.calls@,
                        #[trigger] out@[j],
                    ),
            decreases fl - i,
        {
            match convert_rust_function(&self.functions[i], self.file_id, &self.calls) {
                Some(f) => out.push(f),
                None => {},
            }
            i = i + 1;
        }
        let bn = self.impls.len();
        let mut b: usize = 0;
        while b < bn
            invariant
                self.wf(),
                fl == self.functions@.len(),
                bn == self.impls@.len(),
                b <= bn,
                out@.len() == fl + flat_methods(self.impls@.subrange(0, b as int)).len(),
                forall|j: int|
                    0 <= j < fl ==> rust_fun_conv(
                        self.functions@[j],
                        self.file_id,
                        self.calls@,
                        #[trigger] out@[j],
                    ),
                forall|j: int|
                    0 <= j < flat_methods(self.impls@.subrange(0, b as int)).len()
                        ==> rust_fun_conv(
                        flat_methods(self.impls@.subrange(0, b as int))[j],
                        self.file_id,
                        self.calls@,
                        #[trigger] out@[fl + j],
                    ),
            decreases bn - b,
        {
            let mn = self.impls[b].methods.len();
            let ghost pre = self.impls@.subrange(0, b as int);
            proof {
                assert(self.impls@.subrange(0, b + 1).drop_last() =~= pre);
                assert(self.impls@.subrange(0, b + 1).last() == self.impls@[b as int]);
            }
            let mut m: usize = 0;
            while m < mn
                invariant
                    self.wf(),
                    fl == self.functions@.len(),
                    bn == self.impls@.len(),
                    b < bn,
                    mn == self.impls@[b as int].methods@.len(),
                    m <= mn,
                    out@.len() == fl + flat_methods(self.impls@.subrange(0, b as int)).len() + m,
                    forall|j: int|
                        0 <= j < fl ==> rust_fun_conv(
                            self.functions@[j],
                            self.file_id,
                            self.calls@,
                            #[trigger] out@[j],
                        ),
                    forall|j: int|
                        0 <= j < flat_methods(self.impls@.subrange(0, b as int)).len()
                            ==> rust_fun_conv(
                            flat_methods(self.impls@.subrange(0, b as int))[j],
                            self.file_id,
                            self.calls@,
                            #[trigger] out@[fl + j],
                        ),
                    forall|j: int|
                        flat_methods(self.impls@.subrange(0, b as int)).len() <= j < flat_methods(
                            self.impls@.subrange(0, b as int),
                        ).len() + m ==> rust_fun_conv(
                            self.impls@[b as int].methods@[j - flat_methods(
                                self.impls@.subrange(0, b as int),
                            ).len()],
                            self.file_id,
                            self.calls@,
                            #[trigger] out@[fl + j],
                        ),
                decreases mn - m,
            {
                match convert_rust_function(&self.impls[b].methods[m], self.file_id, &self.calls) {
                    Some(f) => out.push(f),
                    None => {},
                }
                m = m + 1;
            }
            proof {
                let pre1 = self.impls@.subrange(0, b + 1);
                assert(flat_methods(pre1) == flat_methods(pre) + self.impls@[b as int].methods@);
                assert(forall|j: int|
                    0 <= j < flat_methods(pre1).len() ==> flat_methods(pre1)[j] == (if j
                        < flat_methods(pre).len() {
                        flat_methods(pre)[j]
                    } else {
                        self.impls@[b as int].methods@[j - flat_methods(pre).len()]
                    }));
            }
            b = b + 1;
        }
        proof {
            assert(self.impls@.subrange(0, bn as int) =~= self.impls@);
        }
        out
    }

    /// The already-normalized HTTP calls of the file, copied.
    pub fn http_calls(&self) -> (r: Vec<HttpCall>)
        requires
            self.wf(),
        ensures
            r@.len() == self.http_calls@.len(),
            forall|j: int| 0 <= j < r@.len() ==> http_call_eqv(#[trigger] r@[j], self.http_calls@[j]),
    {
        let n = self.http_calls.len();
        let mut out: Vec<HttpCall> = Vec::new();
        let mut i: usize = 0;
        while i < n
            invariant
                self.wf(),
                n == self.http_calls@.len(),
                i <= n,
                out@.len() == i,
                forall|j: int|
                    0 <= j < i ==> http_call_eqv(#[trigger] out@[j], self.http_calls@[j]),
            decreases n - i,
        {
            out.push(clone_http_call(&self.http_calls[i]));
            i = i + 1;
        }
        out
    }

    /// All database operations, normalized from the tag-carried records.
    pub fn db_operations(&self) -> (r: Vec<DbOperation>)
        requires
            self.wf(),
        ensures
            r@.len() == self.db_operations@.len(),
            forall|j: int|
                0 <= j < r@.len() ==> rust_db_conv(self.db_operations@[j], #[trigger] r@[j]),
    {
        let n = self.db_operations.len();
        let mut out: Vec<DbOperation> = Vec::new();
        let mut i: usize = 0;
        while i < n
            invariant
                self.wf(),
                n == self.db_operations@.len(),
                i <= n,
                out@.len() == i,
                forall|j: int|
                    0 <= j < i ==> rust_db_conv(self.db_operations@[j], #[trigger] out@[j]),
            decreases n - i,
        {
            let op = &self.db_operations[i];
            let library = if crate::bytes::bytes_eq_str(op.library.as_slice(), "Diesel") {
                DbLibrary::Diesel
            } else if crate::bytes::bytes_eq_str(op.library.as_slice(), "SeaORM") {
                DbLibrary::SeaOrm
            } else if crate::bytes::bytes_eq_str(op.library.as_slice(), "sqlx") {
                DbLibrary::SqlxRust
            } else if crate::bytes::bytes_eq_str(op.library.as_slice(), "tokio-postgres") {
                DbLibrary::TokioPostgres
            } else {
                DbLibrary::Other(crate::bytes::bytes_to_vec(op.library.as_slice()))
            };
            let operation_type = if crate::bytes::bytes_eq_str(
                op.operation_type.as_slice(),
                "SELECT",
            ) {
                DbOperationType::Select
            } else if crate::bytes::bytes_eq_str(op.operation_type.as_slice(), "INSERT") {
                DbOperationType::Insert
            } else if crate::bytes::bytes_eq_str(op.operation_type.as_slice(), "UPDATE") {
                DbOperationType::Update
            } else if crate::bytes::bytes_eq_str(op.operation_type.as_slice(), "DELETE") {
                DbOperationType::Delete
            } else if crate::bytes::bytes_eq_str(op.operation_type.as_slice(), "RAW_SQL") {
                DbOperationType::RawSql
            } else {
                DbOperationType::Unknown
            };
            out.push(
                DbOperation {
                    library,
                    operation_type,
                    has_timeout: op.has_timeout,
                    timeout_millis: op.timeout_millis,
                    in_transaction: op.in_transaction,
                    eager_loading: crate::normalize::clone_eager(&op.eager_loading),
                    in_loop: op.in_loop,
                    in_iteration: op.in_iteration,
                    model_name: crate::bytes::clone_opt_bytes(&op.model_name),
                    relationship_field: crate::bytes::clone_opt_bytes(&op.relationship_field),
                    operation_text: crate::bytes::bytes_to_vec(op.operation_text.as_slice()),
                    location: CommonLocation {
                        file_id: op.location.file_id,
                        line: op.location.line,
                        column: op.location.column,
                        start_byte: op.start_byte,
                        end_byte: op.end_byte,
                    },
                    enclosing_function: crate::bytes::clone_opt_bytes(&op.enclosing_function),
                    start_byte: op.start_byte,
                    end_byte: op.end_byte,
                },
            );
            i = i + 1;
        }
        out
    }

    /// All concurrency operations: one task spawn per recorded spawn call,
    /// with the runtime inferred from the file's imports.
    pub fn async_operations(&self) -> (r: Vec<AsyncOperation>)
        requires
            self.wf(),
        ensures
            r@.len() == self.async_info.spawn_calls@.len(),
            forall|j: int|
                0 <= j < r@.len() ==> rust_spawn_conv(
                    self.async_info.spawn_calls@[j],
                    self.file_id,
                    self.async_info.uses_tokio,
                    self.async_info.uses_async_std,
                    #[trigger] r@[j],
                ),
    {
        let n = self.async_info.spawn_calls.len();
        let mut out: Vec<AsyncOperation> = Vec::new();
        let mut i: usize = 0;
        while i < n
            invariant
                self.wf(),
                n == self.async_info.spawn_calls@.len(),
                i <= n,
                out@.len() == i,
                forall|j: int|
                    0 <= j < i ==> rust_spawn_conv(
                        self.async_info.spawn_calls@[j],
                        self.file_id,
                        self.async_info.uses_tokio,
                        self.async_info.uses_async_std,
                        #[trigger] out@[j],
                    ),
            decreases n - i,
        {
            let s = &self.async_info.spawn_calls[i];
            let runtime = if self.async_info.uses_tokio {
                AsyncRuntime::Tokio
            } else if self.async_info.uses_async_std {
                AsyncRuntime::AsyncStd
            } else {
                AsyncRuntime::Other(crate::bytes::lit_to_vec("unknown"))
            };
            out.push(
                AsyncOperation {
                    runtime,
                    operation_type: AsyncOperationType::TaskSpawn,
                    has_error_handling: s.has_error_handling,
                    error_handling: None,
                    has_timeout: false,
                    timeout_millis: None,
                    has_cancellation: s.handle_captured,
                    cancellation_handling: None,
                    is_bounded: false,
                    bound_limit: None,
                    has_cleanup: false,
                    operation_text: crate::bytes::bytes_to_vec(s.spawned_expr.as_slice()),
                    location: common_loc(self.file_id, &s.location, s.start_byte, s.end_byte),
                    enclosing_function: crate::bytes::clone_opt_bytes(&s.function_name),
                    start_byte: s.start_byte,
                    end_byte: s.end_byte,
                },
            );
            i = i + 1;
        }
        out
    }

    /// Source-level annotations; not populated by the current extractor.
    pub fn annotations(&self) -> (r: Vec<Annotation>)
        ensures
            r@.len() == 0,
    {
        Vec::new()
    }

    /// Route registrations; not populated by the current extractor.
    pub fn route_patterns(&self) -> (r: Vec<RoutePattern>)
        ensures
            r@.len() == 0,
    {
        Vec::new()
    }

    /// Suspected repeated-query patterns; not populated by the current
    /// extractor.
    pub fn n_plus_one_patterns(&self) -> (r: Vec<DbOperation>)
        ensures
            r@.len() == 0,
    {
        Vec::new()
    }

    /// Error-handling contexts; not populated by the current extractor.
    pub fn error_contexts(&self) -> (r: Vec<ErrorContext>)
        ensures
            r@.len() == 0,
    {
        Vec::new()
    }
}

} // verus!
