//! Python semantics: the per-language record and its extractor.

use vstd::prelude::*;
use crate::bytes::{contains_lit, lit_bytes};
use crate::lang::{FileId, SemanticsError};
use crate::parse::ParsedFile;
use crate::syntree::{loc_wf, AstLocation, SynTree};

verus! {

/// How a Python import was written.
#[derive(Clone, Copy, Debug, PartialEq, Eq, Structural)]
pub enum PyImportStyle {
    Import,
    FromImport,
}

/// Where a Python module comes from.
#[derive(Clone, Copy, Debug, PartialEq, Eq, Structural)]
pub enum PyImportCategory {
    Stdlib,
    ThirdParty,
    Local,
}

/// One Python import declaration.
#[derive(Clone, Debug)]
pub struct PyImport {
    pub module: Vec<u8>,
    pub names: Vec<Vec<u8>>,
    pub alias: Option<Vec<u8>>,
    pub style: PyImportStyle,
    pub category: PyImportCategory,
    pub location: AstLocation,
}

/// A Python formal parameter.
#[derive(Clone, Debug)]
pub struct PyParam {
    pub name: Vec<u8>,
    pub type_annotation: Option<Vec<u8>>,
    pub default_value: Option<Vec<u8>>,
}

/// A Python function or method definition.
#[derive(Clone, Debug)]
pub struct PyFunction {
    pub name: Vec<u8>,
    pub is_async: bool,
    pub is_method: bool,
    pub class_name: Option<Vec<u8>>,
    pub params: Vec<PyParam>,
    pub return_type: Option<Vec<u8>>,
    pub location: AstLocation,
    pub start_byte: usize,
    pub end_byte: usize,
}

/// A Python call site; line and column are 1-based.
#[derive(Clone, Debug)]
pub struct PyCallSite {
    pub callee_expr: Vec<u8>,
    pub line: usize,
    pub column: usize,
    pub start_byte: usize,
    pub end_byte: usize,
}

/// The Python HTTP client library behind a call.
#[derive(Clone, Debug)]
pub enum PyHttpClientKind {
    Requests,
    Httpx,
    Aiohttp,
    Other(Vec<u8>),
}

/// One HTTP client call in Python code.
#[derive(Clone, Debug)]
pub struct PyHttpCallSite {
    pub client_kind: PyHttpClientKind,
    pub method_name: Vec<u8>,
    pub call_text: Vec<u8>,
    pub has_timeout: bool,
    pub location: AstLocation,
    pub function_name: Option<Vec<u8>>,
    pub in_async_function: bool,
    pub start_byte: usize,
    pub end_byte: usize,
}

/// What a Python concurrency operation does.
#[derive(Clone, Copy, Debug, PartialEq, Eq, Structural)]
pub enum PyAsyncOperationType {
    TaskSpawn,
    Await,
    TaskGather,
    ChannelSend,
    ChannelReceive,
    LockAcquire,
    LockRelease,
    SemaphoreAcquire,
    Sleep,
    Timeout,
    Select,
    AsyncFor,
    Unknown,
}

/// One asynchronous operation in Python code.
#[derive(Clone, Debug)]
pub struct PyAsyncOperation {
    pub operation_type: PyAsyncOperationType,
    pub has_error_handling: bool,
    pub has_timeout: bool,
    pub timeout_millis: Option<u64>,
    pub has_cancellation: bool,
    pub is_bounded: bool,
    pub bound_limit: Option<u64>,
    pub operation_text: Vec<u8>,
    pub location: AstLocation,
    pub enclosing_function: Option<Vec<u8>>,
    pub start_byte: usize,
    pub end_byte: usize,
}

/// The ORM library behind a Python query.
#[derive(Clone, Copy, Debug, PartialEq, Eq, Structural)]
pub enum OrmKind {
    SqlAlchemy,
    Django,
    Tortoise,
    SqlModel,
    Peewee,
    Unknown,
}

/// What a Python ORM query does.
#[derive(Clone, Copy, Debug, PartialEq, Eq, Structural)]
pub enum QueryType {
    Select,
    Insert,
    Update,
    Delete,
    RelationshipAccess,
    Unknown,
}

/// One ORM query in Python code.
#[derive(Clone, Debug)]
pub struct OrmQueryCall {
    pub orm_kind: OrmKind,
    pub query_type: QueryType,
    pub has_eager_loading: bool,
    pub in_loop: bool,
    pub in_comprehension: bool,
    pub model_name: Option<Vec<u8>>,
    pub loop_variable: Option<Vec<u8>>,
    pub query_text: Option<Vec<u8>>,
    pub location: AstLocation,
    pub start_byte: usize,
    pub end_byte: usize,
}

/// All semantic facts extracted from one Python file.
#[derive(Clone, Debug)]
pub struct PyFileSemantics {
    pub file_id: FileId,
    pub path: Vec<u8>,
    pub imports: Vec<PyImport>,
    pub functions: Vec<PyFunction>,
    pub calls: Vec<PyCallSite>,
    pub http_calls: Vec<PyHttpCallSite>,
    pub orm_queries: Vec<OrmQueryCall>,
    pub async_operations: Vec<PyAsyncOperation>,
}

/// Well-formedness of one Python import: positions clamped, a non-empty
/// module path, and at least one name on every `from` import.
pub open spec fn py_import_wf(i: PyImport) -> bool {
    &&& loc_wf(i.location)
    &&& i.module@.len() > 0
    &&& (i.style == PyImportStyle::FromImport ==> i.names@.len() >= 1)
    &&& (i.style == PyImportStyle::Import ==> i.names@.len() == 0)
}

/// Well-formedness of one Python function record.
pub open spec fn py_fun_wf(f: PyFunction) -> bool {
    &&& loc_wf(f.location)
    &&& f.start_byte <= f.end_byte
}

/// Well-formedness of one Python call site: 1-based position, ordered bytes.
pub open spec fn py_call_wf(c: PyCallSite) -> bool {
    &&& 1 <= c.line <= crate::syntree::MAX_POS + 1
    &&& 1 <= c.column <= crate::syntree::MAX_POS + 1
    &&& c.start_byte <= c.end_byte
}

/// Well-formedness of one Python HTTP call site.
pub open spec fn py_http_wf(h: PyHttpCallSite) -> bool {
    &&& loc_wf(h.location)
    &&& h.start_byte <= h.end_byte
}

/// Well-formedness of one Python async operation.
pub open spec fn py_async_wf(a: PyAsyncOperation) -> bool {
    &&& loc_wf(a.location)
    &&& a.start_byte <= a.end_byte
}

/// Well-formedness of one Python ORM query record.
pub open spec fn py_orm_wf(q: OrmQueryCall) -> bool {
    &&& loc_wf(q.location)
    &&& q.start_byte <= q.end_byte
}

impl PyFileSemantics {
    /// Every record of the file is well-formed.
    pub open spec fn wf(self) -> bool {
        &&& forall|j: int| 0 <= j < self.imports@.len() ==> py_import_wf(#[trigger] self.imports@[j])
        &&& forall|j: int|
            0 <= j < self.functions@.len() ==> py_fun_wf(#[trigger] self.functions@[j])
        &&& forall|j: int| 0 <= j < self.calls@.len() ==> py_call_wf(#[trigger] self.calls@[j])
        &&& forall|j: int|
            0 <= j < self.http_calls@.len() ==> py_http_wf(#[trigger] self.http_calls@[j])
        &&& forall|j: int|
            0 <= j < self.orm_queries@.len() ==> py_orm_wf(#[trigger] self.orm_queries@[j])
        &&& forall|j: int|
            0 <= j < self.async_operations@.len() ==> py_async_wf(
                #[trigger] self.async_operations@[j],
            )
    }
}

/// Whether a top-level module name belongs to Python's standard library.
pub open spec fn py_stdlib_name(s: Seq<u8>) -> bool {
    ||| s == lit_bytes("abc")
    ||| s == lit_bytes("argparse")
    ||| s == lit_bytes("array")
    ||| s == lit_bytes("asyncio")
    ||| s == lit_bytes("base64")
    ||| s == lit_bytes("bisect")
    ||| s == lit_bytes("builtins")
    ||| s == lit_bytes("collections")
    ||| s == lit_bytes("configparser")
    ||| s == lit_bytes("contextlib")
    ||| s == lit_bytes("copy")
    ||| s == lit_bytes("csv")
    ||| s == lit_bytes("dataclasses")
    ||| s == lit_bytes("datetime")
    ||| s == lit_bytes("decimal")
    ||| s == lit_bytes("enum")
    ||| s == lit_bytes("errno")
    ||| s == lit_bytes("functools")
    ||| s == lit_bytes("glob")
    ||| s == lit_bytes("hashlib")
    ||| s == lit_bytes("heapq")
    ||| s == lit_bytes("html")
    ||| s == lit_bytes("http")
    ||| s == lit_bytes("importlib")
    ||| s == lit_bytes("inspect")
    ||| s == lit_bytes("io")
    ||| s == lit_bytes("itertools")
    ||| s == lit_bytes("json")
    ||| s == lit_bytes("logging")
    ||| s == lit_bytes("math")
    ||| s == lit_bytes("multiprocessing")
    ||| s == lit_bytes("os")
    ||| s == lit_bytes("pathlib")
    ||| s == lit_bytes("pickle")
    ||| s == lit_bytes("platform")
    ||| s == lit_bytes("queue")
    ||| s == lit_bytes("random")
    ||| s == lit_bytes("re")
    ||| s == lit_bytes("secrets")
    ||| s == lit_bytes("select")
    ||| s == lit_bytes("shutil")
    ||| s == lit_bytes("signal")
    ||| s == lit_bytes("socket")
    ||| s == lit_bytes("sqlite3")
    ||| s == lit_bytes("statistics")
    ||| s == lit_bytes("string")
    ||| s == lit_bytes("struct")
    ||| s == lit_bytes("subprocess")
    ||| s == lit_bytes("sys")
    ||| s == lit_bytes("tempfile")
    ||| s == lit_bytes("threading")
    ||| s == lit_bytes("time")
    ||| s == lit_bytes("traceback")
    ||| s == lit_bytes("types")
    ||| s == lit_bytes("typing")
    ||| s == lit_bytes("unittest")
    ||| s == lit_bytes("urllib")
    ||| s == lit_bytes("uuid")
    ||| s == lit_bytes("warnings")
    ||| s == lit_bytes("weakref")
    ||| s == lit_bytes("xml")
    ||| s == lit_bytes("zlib")
}

/// Whether the byte string names a standard-library module.
pub fn is_py_stdlib(s: &[u8]) -> (r: bool)
    ensures
        r == py_stdlib_name(s@),
{
    crate::bytes::bytes_eq_str(s, "abc") || crate::bytes::bytes_eq_str(s, "argparse")
        || crate::bytes::bytes_eq_str(s, "array") || crate::bytes::bytes_eq_str(s, "asyncio")
        || crate::bytes::bytes_eq_str(s, "base64") || crate::bytes::bytes_eq_str(s, "bisect")
        || crate::bytes::bytes_eq_str(s, "builtins") || crate::bytes::bytes_eq_str(s, "collections")
        || crate::bytes::bytes_eq_str(s, "configparser") || crate::bytes::bytes_eq_str(
        s,
        "contextlib",
    ) || crate::bytes::bytes_eq_str(s, "copy") || crate::bytes::bytes_eq_str(s, "csv")
        || crate::bytes::bytes_eq_str(s, "dataclasses") || crate::bytes::bytes_eq_str(s, "datetime")
        || crate::bytes::bytes_eq_str(s, "decimal") || crate::bytes::bytes_eq_str(s, "enum")
        || crate::bytes::bytes_eq_str(s, "errno") || crate::bytes::bytes_eq_str(s, "functools")
        || crate::bytes::bytes_eq_str(s, "glob") || crate::bytes::bytes_eq_str(s, "hashlib")
        || crate::bytes::bytes_eq_str(s, "heapq") || crate::bytes::bytes_eq_str(s, "html")
        || crate::bytes::bytes_eq_str(s, "http") || crate::bytes::bytes_eq_str(s, "importlib")
        || crate::bytes::bytes_eq_str(s, "inspect") || crate::bytes::bytes_eq_str(s, "io")
        || crate::bytes::bytes_eq_str(s, "itertools") || crate::bytes::bytes_eq_str(s, "json")
        || crate::bytes::bytes_eq_str(s, "logging") || crate::bytes::bytes_eq_str(s, "math")
        || crate::bytes::bytes_eq_str(s, "multiprocessing") || crate::bytes::bytes_eq_str(s, "os")
        || crate::bytes::bytes_eq_str(s, "pathlib") || crate::bytes::bytes_eq_str(s, "pickle")
        || crate::bytes::bytes_eq_str(s, "platform") || crate::bytes::bytes_eq_str(s, "queue")
        || crate::bytes::bytes_eq_str(s, "random") || crate::bytes::bytes_eq_str(s, "re")
        || crate::bytes::bytes_eq_str(s, "secrets") || crate::bytes::bytes_eq_str(s, "select")
        || crate::bytes::bytes_eq_str(s, "shutil") || crate::bytes::bytes_eq_str(s, "signal")
        || crate::bytes::bytes_eq_str(s, "socket") || crate::bytes::bytes_eq_str(s, "sqlite3")
        || crate::bytes::bytes_eq_str(s, "statistics") || crate::bytes::bytes_eq_str(s, "string")
        || crate::bytes::bytes_eq_str(s, "struct") || crate::bytes::bytes_eq_str(s, "subprocess")
        || crate::bytes::bytes_eq_str(s, "sys") || crate::bytes::bytes_eq_str(s, "tempfile")
        || crate::bytes::bytes_eq_str(s, "threading") || crate::bytes::bytes_eq_str(s, "time")
        || crate::bytes::bytes_eq_str(s, "traceback") || crate::bytes::bytes_eq_str(s, "types")
        || crate::bytes::bytes_eq_str(s, "typing") || crate::bytes::bytes_eq_str(s, "unittest")
        || crate::bytes::bytes_eq_str(s, "urllib") || crate::bytes::bytes_eq_str(s, "uuid")
        || crate::bytes::bytes_eq_str(s, "warnings") || crate::bytes::bytes_eq_str(s, "weakref")
        || crate::bytes::bytes_eq_str(s, "xml") || crate::bytes::bytes_eq_str(s, "zlib")
}

/// The source class of a Python module path: a leading dot means a relative
/// (local) import, a standard-library first segment means the standard
/// library, anything else is a third-party package.
pub open spec fn py_category_spec(module: Seq<u8>) -> PyImportCategory {
    if module.len() > 0 && module[0] == 46 {
        PyImportCategory::Local
    } else {
        if py_stdlib_name(py_first_segment(module)) {
            PyImportCategory::Stdlib
        } else {
            PyImportCategory::ThirdParty
        }
    }
}

/// The part of a dotted module path before its first dot.
pub open spec fn py_first_segment(module: Seq<u8>) -> Seq<u8> {
    if exists|d: int| 0 <= d < module.len() && module[d] == 46 {
        let d = choose|d: int|
            0 <= d < module.len() && module[d] == 46 && forall|j: int| 0 <= j < d ==> module[j] != 46;
        module.subrange(0, d)
    } else {
        module
    }
}

/// Classifies a Python module path.
pub fn py_classify(module: &[u8]) -> (r: PyImportCategory)
    ensures
        r == py_category_spec(module@),
{
    if module.len() > 0 && module[0] == 46 {
        return PyImportCategory::Local;
    }
    let seg: Vec<u8> = match crate::bytes::find_byte(module, 46) {
        Some(d) => {
            assert(module@[d as int] == 46);
            proof {
                let w = d as int;
                assert(0 <= w < module@.len() && module@[w] == 46 && forall|j: int|
                    0 <= j < w ==> module@[j] != 46);
                let c = choose|c: int|
                    0 <= c < module@.len() && module@[c] == 46 && forall|j: int|
                        0 <= j < c ==> module@[j] != 46;
                if c < w {
                    assert(module@[c] != 46);
                }
                if w < c {
                    assert(module@[w] != 46);
                }
                assert(c == w);
            }
            crate::bytes::bytes_to_vec(vstd::slice::slice_subrange(module, 0, d))
        },
        None => {
            assert(!(exists|d: int| 0 <= d < module@.len() && module@[d] == 46));
            crate::bytes::bytes_to_vec(module)
        },
    };
    if is_py_stdlib(seg.as_slice()) {
        PyImportCategory::Stdlib
    } else {
        PyImportCategory::ThirdParty
    }
}

/// The texts of the children of node `i` held under the `name` field, at
/// or after index `j`, in document order.
pub open spec fn py_name_texts(t: SynTree, i: int, j: int) -> Seq<Seq<u8>>
    decreases t.nodes@.len() - j
        when 0 <= j <= t.nodes@.len()
{
    if j >= t.nodes@.len() {
        Seq::empty()
    } else if t.nodes@[j].parent == i && j != i && t.field_matches(j, lit_bytes("name")) {
        seq![t.text_of(j)] + py_name_texts(t, i, j + 1)
    } else {
        py_name_texts(t, i, j + 1)
    }
}

/// The module text of a plain import's `name` child: for an aliased import
/// the text of its own `name` child, otherwise the child's text.
pub open spec fn py_plain_module(t: SynTree, c: int) -> Seq<u8> {
    if t.kind_of(c) == lit_bytes("aliased_import") {
        match crate::syntree::child_by_field(t, c, lit_bytes("name")) {
            Some(mn) => t.text_of(mn),
            None => Seq::empty(),
        }
    } else {
        t.text_of(c)
    }
}

/// The alias text of a plain import's `name` child, if it is aliased.
pub open spec fn py_plain_alias(t: SynTree, c: int) -> Option<Seq<u8>> {
    if t.kind_of(c) == lit_bytes("aliased_import") {
        match crate::syntree::child_by_field(t, c, lit_bytes("alias")) {
            Some(an) => Some(t.text_of(an)),
            None => None,
        }
    } else {
        None
    }
}

/// A plain import node yields a record when its module text is non-empty.
pub open spec fn py_plain_cond(t: SynTree, i: int) -> bool {
    match crate::syntree::child_by_field(t, i, lit_bytes("name")) {
        Some(c) => py_plain_module(t, c).len() > 0,
        None => false,
    }
}

/// A `from` import node yields a record when it has a non-empty module
/// text and at least one imported name.
pub open spec fn py_from_cond(t: SynTree, i: int) -> bool {
    match crate::syntree::child_by_field(t, i, lit_bytes("module_name")) {
        Some(m) => t.text_of(m).len() > 0 && py_name_texts(t, i, i + 1).len() > 0,
        None => false,
    }
}

/// The exact shape of the record of a plain import at node `i`.
pub open spec fn py_plain_rel(t: SynTree, i: int, imp: PyImport) -> bool {
    let c = crate::syntree::child_by_field(t, i, lit_bytes("name")).unwrap();
    &&& imp.module@ == py_plain_module(t, c)
    &&& imp.names@.len() == 0
    &&& (match (imp.alias, py_plain_alias(t, c)) {
        (Some(a), Some(b)) => a@ == b,
        (None, None) => true,
        _ => false,
    })
    &&& imp.style == PyImportStyle::Import
    &&& imp.category == py_category_spec(imp.module@)
    &&& imp.location.start_line == t.nodes@[i].row
    &&& imp.location.start_col == t.nodes@[i].col
}

/// The exact shape of the record of a `from` import at node `i`.
pub open spec fn py_from_rel(t: SynTree, i: int, imp: PyImport) -> bool {
    let m = crate::syntree::child_by_field(t, i, lit_bytes("module_name")).unwrap();
    &&& imp.module@ == t.text_of(m)
    &&& imp.names@.map_values(|v: Vec<u8>| v@) == py_name_texts(t, i, i + 1)
    &&& imp.alias.is_none()
    &&& imp.style == PyImportStyle::FromImport
    &&& imp.category == py_category_spec(imp.module@)
    &&& imp.location.start_line == t.nodes@[i].row
    &&& imp.location.start_col == t.nodes@[i].col
}

/// The imports extracted from the first `n` nodes, in document order,
/// following the extractor's branch order on node kinds.
pub open spec fn py_imports_scan(t: SynTree, n: int, out: Seq<PyImport>) -> bool
    decreases n
        when 0 <= n <= t.nodes@.len()
{
    if n == 0 {
        out.len() == 0
    } else {
        let i = n - 1;
        if t.kind_of(i) == lit_bytes("import_statement") {
            if py_plain_cond(t, i) {
                out.len() > 0 && py_imports_scan(t, i, out.drop_last()) && py_plain_rel(
                    t,
                    i,
                    out.last(),
                )
            } else {
                py_imports_scan(t, i, out)
            }
        } else if t.kind_of(i) == lit_bytes("import_from_statement") {
            if py_from_cond(t, i) {
                out.len() > 0 && py_imports_scan(t, i, out.drop_last()) && py_from_rel(
                    t,
                    i,
                    out.last(),
                )
            } else {
                py_imports_scan(t, i, out)
            }
        } else {
            py_imports_scan(t, i, out)
        }
    }
}

/// Extracts the imports of a Python file.
fn py_scan_imports(t: &SynTree) -> (r: Vec<PyImport>)
    requires
        t.wf(),
    ensures
        forall|j: int| 0 <= j < r@.len() ==> py_import_wf(#[trigger] r@[j]),
        py_imports_scan(*t, t.nodes@.len() as int, r@),
{
    let n = t.len();
    let mut out: Vec<PyImport> = Vec::new();
    let mut i: usize = 0;
    while i < n
        invariant
            t.wf(),
            n == t.nodes@.len(),
            i <= n,
            forall|j: int| 0 <= j < out@.len() ==> py_import_wf(#[trigger] out@[j]),
            py_imports_scan(*t, i as int, out@),
        decreases n - i,
    {
        if t.kind_is(i, "import_statement") {
            match t.child_by_field(i, "name") {
                Some(c) => {
                    let (module, alias) = if t.kind_is(c, "aliased_import") {
                        let m = match t.child_by_field(c, "name") {
                            Some(mn) => t.text(mn),
                            None => Vec::new(),
                        };
                        let a = match t.child_by_field(c, "alias") {
                            Some(an) => Some(t.text(an)),
                            None => None,
                        };
                        (m, a)
                    } else {
                        (t.text(c), None)
                    };
                    proof {
                        assert(module@ == py_plain_module(*t, c as int));
                    }
                    if module.len() > 0 {
                        let category = py_classify(module.as_slice());
                        let ghost prev = out@;
                        out.push(
                            PyImport {
                                module,
                                names: Vec::new(),
                                alias,
                                style: PyImportStyle::Import,
                                category,
                                location: t.loc_at(i),
                            },
                        );
                        proof {
                            assert(out@.drop_last() =~= prev);
                            assert(py_plain_cond(*t, i as int));
                            assert(py_plain_rel(*t, i as int, out@.last()));
                        }
                    }
                },
                None => {},
            }
        } else if t.kind_is(i, "import_from_statement") {
            match t.child_by_field(i, "module_name") {
                Some(m) => {
                    let module = t.text(m);
                    let mut names: Vec<Vec<u8>> = Vec::new();
                    let mut j: usize = i + 1;
                    while j < n
                        invariant
                            t.wf(),
                            n == t.nodes@.len(),
                            j <= n,
                            i < n,
                            i + 1 <= j,
                            names@.map_values(|v: Vec<u8>| v@) + py_name_texts(
                                *t,
                                i as int,
                                j as int,
                            ) =~= py_name_texts(*t, i as int, i + 1),
                        decreases n - j,
                    {
                        if t.parent_of(j) == i && t.field_is(j, "name") {
                            let ghost pnames = names@;
                            names.push(t.text(j));
                            proof {
                                assert(names@.map_values(|v: Vec<u8>| v@) =~= pnames.map_values(
                                    |v: Vec<u8>| v@,
                                ) + seq![t.text_of(j as int)]);
                            }
                        }
                        j = j + 1;
                    }
                    proof {
                        assert(py_name_texts(*t, i as int, n as int) =~= Seq::<Seq<u8>>::empty());
                        assert(names@.map_values(|v: Vec<u8>| v@) =~= py_name_texts(
                            *t,
                            i as int,
                            i + 1,
                        ));
                    }
                    if module.len() > 0 && names.len() > 0 {
                        let category = py_classify(module.as_slice());
                        proof {
                            assert(names@.map_values(|v: Vec<u8>| v@).len() == names@.len());
                        }
                        let ghost prev = out@;
                        out.push(
                            PyImport {
                                module,
                                names,
                                alias: None,
                                style: PyImportStyle::FromImport,
                                category,
                                location: t.loc_at(i),
                            },
                        );
                        proof {
                            assert(out@.drop_last() =~= prev);
                            assert(py_from_cond(*t, i as int));
                            assert(py_from_rel(*t, i as int, out@.last()));
                        }
                    } else {
                        proof {
                            assert(names@.map_values(|v: Vec<u8>| v@).len() == names@.len());
                        }
                    }
                },
                None => {},
            }
        }
        i = i + 1;
    }
    out
}

/// The view triple of one extracted parameter: name, type annotation and
/// default value.
pub open spec fn py_param_view(p: PyParam) -> (Seq<u8>, Option<Seq<u8>>, Option<Seq<u8>>) {
    (
        p.name@,
        match p.type_annotation {
            Some(v) => Some(v@),
            None => None,
        },
        match p.default_value {
            Some(v) => Some(v@),
            None => None,
        },
    )
}

/// The parameter triples collected from the children of the parameter
/// list node `ps`, at or after index `j`, following the extractor's
/// branch order on parameter kinds.
pub open spec fn py_params_texts(t: SynTree, ps: int, j: int) -> Seq<
    (Seq<u8>, Option<Seq<u8>>, Option<Seq<u8>>),
>
    decreases t.nodes@.len() - j
        when 0 <= j <= t.nodes@.len()
{
    if j >= t.nodes@.len() {
        Seq::empty()
    } else if t.nodes@[j].parent == ps && j != ps {
        if t.kind_of(j) == lit_bytes("identifier") {
            seq![(t.text_of(j), None, None)] + py_params_texts(t, ps, j + 1)
        } else if t.kind_of(j) == lit_bytes("typed_parameter") {
            let pn = match crate::syntree::child_by_kind(t, j, lit_bytes("identifier")) {
                Some(idn) => t.text_of(idn),
                None => Seq::empty(),
            };
            let ty = match crate::syntree::child_by_field(t, j, lit_bytes("type")) {
                Some(tn) => Some(t.text_of(tn)),
                None => None,
            };
            if pn.len() > 0 {
                seq![(pn, ty, None)] + py_params_texts(t, ps, j + 1)
            } else {
                py_params_texts(t, ps, j + 1)
            }
        } else if t.kind_of(j) == lit_bytes("default_parameter") || t.kind_of(j) == lit_bytes(
            "typed_default_parameter",
        ) {
            let pn = match crate::syntree::child_by_field(t, j, lit_bytes("name")) {
                Some(idn) => t.text_of(idn),
                None => Seq::empty(),
            };
            let ty = match crate::syntree::child_by_field(t, j, lit_bytes("type")) {
                Some(tn) => Some(t.text_of(tn)),
                None => None,
            };
            let dv = match crate::syntree::child_by_field(t, j, lit_bytes("value")) {
                Some(vn) => Some(t.text_of(vn)),
                None => None,
            };
            if pn.len() > 0 {
                seq![(pn, ty, dv)] + py_params_texts(t, ps, j + 1)
            } else {
                py_params_texts(t, ps, j + 1)
            }
        } else {
            py_params_texts(t, ps, j + 1)
        }
    } else {
        py_params_texts(t, ps, j + 1)
    }
}

/// The parameter triples of the function defined at node `i`.
pub open spec fn py_params_of(t: SynTree, i: int) -> Seq<
    (Seq<u8>, Option<Seq<u8>>, Option<Seq<u8>>),
> {
    match crate::syntree::child_by_field(t, i, lit_bytes("parameters")) {
        Some(ps) => py_params_texts(t, ps, ps + 1),
        None => Seq::empty(),
    }
}

/// The class name attributed to the function at node `i`, when its nearest
/// function-or-class ancestor is a class.
pub open spec fn py_class_name_of(t: SynTree, i: int) -> Option<Seq<u8>> {
    if crate::syntree::anc_kind_before(
        t,
        i,
        lit_bytes("class_definition"),
        lit_bytes("function_definition"),
    ) {
        match crate::syntree::nearest_anc_kind(t, i, lit_bytes("class_definition")) {
            Some(cd) => match crate::syntree::child_by_field(t, cd, lit_bytes("name")) {
                Some(cn) => Some(t.text_of(cn)),
                None => None,
            },
            None => None,
        }
    } else {
        None
    }
}

/// Node `i` yields a function record.
pub open spec fn py_fun_cond(t: SynTree, i: int) -> bool {
    crate::syntree::child_by_field(t, i, lit_bytes("name")).is_some()
}

/// The exact shape of the function record extracted at node `i`.
pub open spec fn py_fun_rel(t: SynTree, i: int, f: PyFunction) -> bool {
    let nm = crate::syntree::child_by_field(t, i, lit_bytes("name")).unwrap();
    &&& f.name@ == t.text_of(nm)
    &&& f.is_async == crate::bytes::has_prefix(t.text_of(i), lit_bytes("async"))
    &&& f.is_method == crate::syntree::anc_kind_before(
        t,
        i,
        lit_bytes("class_definition"),
        lit_bytes("function_definition"),
    )
    &&& (match (f.class_name, py_class_name_of(t, i)) {
        (Some(a), Some(b)) => a@ == b,
        (None, None) => true,
        _ => false,
    })
    &&& f.params@.map_values(|p: PyParam| py_param_view(p)) == py_params_of(t, i)
    &&& (match (f.return_type, crate::syntree::child_by_field(t, i, lit_bytes("return_type"))) {
        (Some(a), Some(rt)) => a@ == t.text_of(rt),
        (None, None) => true,
        _ => false,
    })
    &&& f.location.start_line == t.nodes@[i].row
    &&& f.location.start_col == t.nodes@[i].col
    &&& f.start_byte == t.nodes@[i].start_byte
    &&& f.end_byte == t.nodes@[i].end_byte
}

/// The function records extracted from the first `n` nodes, in document
/// order.
pub open spec fn py_functions_scan(t: SynTree, n: int, out: Seq<PyFunction>) -> bool
    decreases n
        when 0 <= n <= t.nodes@.len()
{
    if n == 0 {
        out.len() == 0
    } else if t.kind_of(n - 1) == lit_bytes("function_definition") && py_fun_cond(t, n - 1) {
        &&& out.len() > 0
        &&& py_functions_scan(t, n - 1, out.drop_last())
        &&& py_fun_rel(t, n - 1, out.last())
    } else {
        py_functions_scan(t, n - 1, out)
    }
}

/// Extracts the function and method definitions of a Python file.
fn py_scan_functions(t: &SynTree) -> (r: Vec<PyFunction>)
    requires
        t.wf(),
    ensures
        forall|j: int| 0 <= j < r@.len() ==> py_fun_wf(#[trigger] r@[j]),
        py_functions_scan(*t, t.nodes@.len() as int, r@),
{
    let n = t.len();
    let mut out: Vec<PyFunction> = Vec::new();
    let mut i: usize = 0;
    while i < n
        invariant
            t.wf(),
            n == t.nodes@.len(),
            i <= n,
            forall|j: int| 0 <= j < out@.len() ==> py_fun_wf(#[trigger] out@[j]),
            py_functions_scan(*t, i as int, out@),
        decreases n - i,
    {
        if t.kind_is(i, "function_definition") {
            match t.child_by_field(i, "name") {
                Some(nm) => {
                    let name = t.text(nm);
                    let txt = t.text(i);
                    let is_async = crate::bytes::starts_with_lit(txt.as_slice(), "async");
                    let is_method = t.anc_before(i, "class_definition", "function_definition");
                    let class_name: Option<Vec<u8>> = if is_method {
                        match t.nearest_anc(i, "class_definition") {
                            Some(cd) => match t.child_by_field(cd, "name") {
                                Some(cn) => Some(t.text(cn)),
                                None => None,
                            },
                            None => None,
                        }
                    } else {
                        None
                    };
                    let params = py_scan_params(t, i);
                    let return_type = match t.child_by_field(i, "return_type") {
                        Some(rt) => Some(t.text(rt)),
                        None => None,
                    };
                    proof {
                        assert(crate::syntree::node_wf(
                            t.nodes@[i as int],
                            i as int,
                            t.source@.len() as int,
                        ));
                    }
                    let ghost prev = out@;
                    out.push(
                        PyFunction {
                            name,
                            is_async,
                            is_method,
                            class_name,
                            params,
                            return_type,
                            location: t.loc_at(i),
                            start_byte: t.start_of(i),
                            end_byte: t.end_of(i),
                        },
                    );
                    proof {
                        assert(out@.drop_last() =~= prev);
                        assert(py_fun_rel(*t, i as int, out@.last()));
                    }
                },
                None => {},
            }
        }
        i = i + 1;
    }
    out
}

/// Extracts the parameters of the function defined at node `i`.
fn py_scan_params(t: &SynTree, i: usize) -> (r: Vec<PyParam>)
    requires
        t.wf(),
        i < t.nodes@.len(),
    ensures
        r@.map_values(|p: PyParam| py_param_view(p)) == py_params_of(*t, i as int),
{
    let n = t.len();
    let mut out: Vec<PyParam> = Vec::new();
    match t.child_by_field(i, "parameters") {
        Some(ps) => {
            let mut j: usize = ps + 1;
            while j < n
                invariant
                    t.wf(),
                    n == t.nodes@.len(),
                    j <= n,
                    ps < n,
                    ps + 1 <= j,
                    out@.map_values(|p: PyParam| py_param_view(p)) + py_params_texts(
                        *t,
                        ps as int,
                        j as int,
                    ) =~= py_params_texts(*t, ps as int, ps + 1),
                decreases n - j,
            {
                if t.parent_of(j) == ps {
                    if t.kind_is(j, "identifier") {
                        let ghost pprev = out@;
                        out.push(
                            PyParam {
                                name: t.text(j),
                                type_annotation: None,
                                default_value: None,
                            },
                        );
                        proof {
                            assert(out@.map_values(|p: PyParam| py_param_view(p))
                                =~= pprev.map_values(|p: PyParam| py_param_view(p)) + seq![
                                py_param_view(out@.last()),
                            ]);
                        }
                    } else if t.kind_is(j, "typed_parameter") {
                        let pname = match t.child_by_kind(j, "identifier") {
                            Some(idn) => t.text(idn),
                            None => Vec::new(),
                        };
                        let ty = match t.child_by_field(j, "type") {
                            Some(tn) => Some(t.text(tn)),
                            None => None,
                        };
                        if pname.len() > 0 {
                            let ghost pprev = out@;
                            out.push(
                                PyParam { name: pname, type_annotation: ty, default_value: None },
                            );
                            proof {
                                assert(out@.map_values(|p: PyParam| py_param_view(p))
                                    =~= pprev.map_values(|p: PyParam| py_param_view(p)) + seq![
                                    py_param_view(out@.last()),
                                ]);
                            }
                        }
                    } else if t.kind_is(j, "default_parameter") || t.kind_is(
                        j,
                        "typed_default_parameter",
                    ) {
                        let pname = match t.child_by_field(j, "name") {
                            Some(idn) => t.text(idn),
                            None => Vec::new(),
                        };
                        let ty = match t.child_by_field(j, "type") {
                            Some(tn) => Some(t.text(tn)),
                            None => None,
                        };
                        let dv = match t.child_by_field(j, "value") {
                            Some(vn) => Some(t.text(vn)),
                            None => None,
                        };
                        if pname.len() > 0 {
                            let ghost pprev = out@;
                            out.push(
                                PyParam { name: pname, type_annotation: ty, default_value: dv },
                            );
                            proof {
                                assert(out@.map_values(|p: PyParam| py_param_view(p))
                                    =~= pprev.map_values(|p: PyParam| py_param_view(p)) + seq![
                                    py_param_view(out@.last()),
                                ]);
                            }
                        }
                    }
                }
                j = j + 1;
            }
            proof {
                assert(py_params_texts(*t, ps as int, n as int) =~= Seq::<
                    (Seq<u8>, Option<Seq<u8>>, Option<Seq<u8>>),
                >::empty());
                assert(out@.map_values(|p: PyParam| py_param_view(p)) =~= py_params_texts(
                    *t,
                    ps as int,
                    ps + 1,
                ));
            }
        },
        None => {
            proof {
                assert(out@.map_values(|p: PyParam| py_param_view(p)) =~= Seq::<
                    (Seq<u8>, Option<Seq<u8>>, Option<Seq<u8>>),
                >::empty());
            }
        },
    }
    out
}

/// Node `i` is a call expression carrying a callee under the `function`
/// field.
pub open spec fn py_call_node(t: SynTree, i: int) -> bool {
    t.kind_of(i) == lit_bytes("call") && crate::syntree::child_by_field(
        t,
        i,
        lit_bytes("function"),
    ).is_some()
}

/// The exact shape of one extracted Python call site at node `i`: the
/// callee text of the `function` child, 1-based position and the node's
/// byte range.
pub open spec fn py_call_site_rel(t: SynTree, i: int, site: PyCallSite) -> bool {
    let f = crate::syntree::child_by_field(t, i, lit_bytes("function")).unwrap();
    &&& site.callee_expr@ == t.text_of(f)
    &&& site.line == t.nodes@[i].row + 1
    &&& site.column == t.nodes@[i].col + 1
    &&& site.start_byte == t.nodes@[i].start_byte
    &&& site.end_byte == t.nodes@[i].end_byte
}

/// The call sites extracted from the first `n` nodes of the tree, in
/// document order: exactly one record per call node, pinned by
/// `py_call_site_rel`.
pub open spec fn py_calls_scan(t: SynTree, n: int, out: Seq<PyCallSite>) -> bool
    decreases n
        when 0 <= n <= t.nodes@.len()
{
    if n == 0 {
        out.len() == 0
    } else if py_call_node(t, n - 1) {
        &&& out.len() > 0
        &&& py_calls_scan(t, n - 1, out.drop_last())
        &&& py_call_site_rel(t, n - 1, out.last())
    } else {
        py_calls_scan(t, n - 1, out)
    }
}

/// Extracts the call sites of a Python file, in document order.
fn py_scan_calls(t: &SynTree) -> (r: Vec<PyCallSite>)
    requires
        t.wf(),
    ensures
        forall|j: int| 0 <= j < r@.len() ==> py_call_wf(#[trigger] r@[j]),
        py_calls_scan(*t, t.nodes@.len() as int, r@),
{
    let n = t.len();
    let mut out: Vec<PyCallSite> = Vec::new();
    let mut i: usize = 0;
    while i < n
        invariant
            t.wf(),
            n == t.nodes@.len(),
            i <= n,
            forall|j: int| 0 <= j < out@.len() ==> py_call_wf(#[trigger] out@[j]),
            py_calls_scan(*t, i as int, out@),
        decreases n - i,
    {
        if t.kind_is(i, "call") {
            match t.child_by_field(i, "function") {
                Some(f) => {
                    proof {
                        assert(crate::syntree::node_wf(
                            t.nodes@[i as int],
                            i as int,
                            t.source@.len() as int,
                        ));
                    }
                    let loc = t.loc_at(i);
                    let ghost prev = out@;
                    out.push(
                        PyCallSite {
                            callee_expr: t.text(f),
                            line: loc.start_line + 1,
                            column: loc.start_col + 1,
                            start_byte: t.start_of(i),
                            end_byte: t.end_of(i),
                        },
                    );
                    proof {
                        assert(out@.drop_last() =~= prev);
                    }
                },
                None => {},
            }
        }
        i = i + 1;
    }
    out
}

/// The name of the function definition nearest above node `i`, if any.
pub open spec fn py_encl_name_spec(t: SynTree, i: int) -> Option<Seq<u8>> {
    match crate::syntree::nearest_anc_kind(t, i, lit_bytes("function_definition")) {
        Some(fd) => match crate::syntree::child_by_field(t, fd, lit_bytes("name")) {
            Some(nm) => Some(t.text_of(nm)),
            None => None,
        },
        None => None,
    }
}

/// Whether the function definition nearest above node `i` is async.
pub open spec fn py_encl_async_spec(t: SynTree, i: int) -> bool {
    match crate::syntree::nearest_anc_kind(t, i, lit_bytes("function_definition")) {
        Some(fd) => crate::bytes::has_prefix(t.text_of(fd), lit_bytes("async")),
        None => false,
    }
}

/// The receiver text of the attribute node `f`, or empty without one.
pub open spec fn py_attr_object(t: SynTree, f: int) -> Seq<u8> {
    match crate::syntree::child_by_field(t, f, lit_bytes("object")) {
        Some(o) => t.text_of(o),
        None => Seq::empty(),
    }
}

/// The HTTP client library a Python receiver names, if any.
pub open spec fn py_client_spec(obj: Seq<u8>) -> Option<PyHttpClientKind> {
    if obj == lit_bytes("requests") {
        Some(PyHttpClientKind::Requests)
    } else if obj == lit_bytes("httpx") {
        Some(PyHttpClientKind::Httpx)
    } else if obj == lit_bytes("aiohttp") {
        Some(PyHttpClientKind::Aiohttp)
    } else {
        None
    }
}

/// The async operation a Python callee expression names, if any.
pub open spec fn py_async_call_spec(ftxt: Seq<u8>) -> Option<PyAsyncOperationType> {
    if ftxt == lit_bytes("asyncio.create_task") {
        Some(PyAsyncOperationType::TaskSpawn)
    } else if ftxt == lit_bytes("asyncio.gather") {
        Some(PyAsyncOperationType::TaskGather)
    } else if ftxt == lit_bytes("asyncio.sleep") {
        Some(PyAsyncOperationType::Sleep)
    } else if ftxt == lit_bytes("asyncio.wait_for") {
        Some(PyAsyncOperationType::Timeout)
    } else {
        None
    }
}

/// The exact shape of the HTTP site emitted at call node `i` through the
/// attribute node `f`.
pub open spec fn py_http_rel(t: SynTree, i: int, site: PyHttpCallSite) -> bool {
    let f = crate::syntree::child_by_field(t, i, lit_bytes("function")).unwrap();
    &&& site.client_kind == py_client_spec(py_attr_object(t, f)).unwrap()
    &&& (match crate::syntree::child_by_field(t, f, lit_bytes("attribute")) {
        Some(m) => site.method_name@ == t.text_of(m),
        None => site.method_name@.len() == 0,
    })
    &&& site.call_text@ == t.text_of(i)
    &&& site.has_timeout == crate::bytes::contains_seq(t.text_of(i), lit_bytes("timeout="))
    &&& (match (site.function_name, py_encl_name_spec(t, i)) {
        (Some(a), Some(b)) => a@ == b,
        (None, None) => true,
        _ => false,
    })
    &&& site.in_async_function == py_encl_async_spec(t, i)
    &&& site.location.start_line == t.nodes@[i].row
    &&& site.location.start_col == t.nodes@[i].col
    &&& site.start_byte == t.nodes@[i].start_byte
    &&& site.end_byte == t.nodes@[i].end_byte
}

/// The HTTP sites emitted from the first `n` nodes by the framework pass,
/// in document order: exactly the attribute calls whose receiver names a
/// known client library.
pub open spec fn py_http_scan(t: SynTree, n: int, out: Seq<PyHttpCallSite>) -> bool
    decreases n
        when 0 <= n <= t.nodes@.len()
{
    if n == 0 {
        out.len() == 0
    } else {
        let i = n - 1;
        if t.kind_of(i) == lit_bytes("await") {
            py_http_scan(t, i, out)
        } else if t.kind_of(i) == lit_bytes("call") && crate::syntree::child_by_field(
            t,
            i,
            lit_bytes("function"),
        ).is_some() {
            let f = crate::syntree::child_by_field(t, i, lit_bytes("function")).unwrap();
            if t.kind_of(f) == lit_bytes("attribute") && py_client_spec(
                py_attr_object(t, f),
            ).is_some() {
                out.len() > 0 && py_http_scan(t, i, out.drop_last()) && py_http_rel(
                    t,
                    i,
                    out.last(),
                )
            } else {
                py_http_scan(t, i, out)
            }
        } else {
            py_http_scan(t, i, out)
        }
    }
}

/// The exact shape of the async record emitted for a named `await` node.
pub open spec fn py_await_rel(t: SynTree, i: int, op: PyAsyncOperation) -> bool {
    &&& op.operation_type == PyAsyncOperationType::Await
    &&& !op.has_error_handling
    &&& !op.has_timeout
    &&& op.timeout_millis.is_none()
    &&& !op.has_cancellation
    &&& !op.is_bounded
    &&& op.bound_limit.is_none()
    &&& op.operation_text@ == t.text_of(i)
    &&& (match (op.enclosing_function, py_encl_name_spec(t, i)) {
        (Some(a), Some(b)) => a@ == b,
        (None, None) => true,
        _ => false,
    })
    &&& op.location.start_line == t.nodes@[i].row
    &&& op.location.start_col == t.nodes@[i].col
    &&& op.start_byte == t.nodes@[i].start_byte
    &&& op.end_byte == t.nodes@[i].end_byte
}

/// The exact shape of the async record emitted for a recognized asyncio
/// call at node `i` through attribute node `f`.
pub open spec fn py_async_call_rel(t: SynTree, i: int, op: PyAsyncOperation) -> bool {
    let f = crate::syntree::child_by_field(t, i, lit_bytes("function")).unwrap();
    &&& op.operation_type == py_async_call_spec(t.text_of(f)).unwrap()
    &&& !op.has_error_handling
    &&& op.has_timeout == (op.operation_type == PyAsyncOperationType::Timeout)
    &&& op.timeout_millis.is_none()
    &&& !op.has_cancellation
    &&& !op.is_bounded
    &&& op.bound_limit.is_none()
    &&& op.operation_text@ == t.text_of(i)
    &&& (match (op.enclosing_function, py_encl_name_spec(t, i)) {
        (Some(a), Some(b)) => a@ == b,
        (None, None) => true,
        _ => false,
    })
    &&& op.location.start_line == t.nodes@[i].row
    &&& op.location.start_col == t.nodes@[i].col
    &&& op.start_byte == t.nodes@[i].start_byte
    &&& op.end_byte == t.nodes@[i].end_byte
}

/// The async operations emitted from the first `n` nodes by the framework
/// pass, in document order: one record per named `await` node and one per
/// recognized asyncio call.
pub open spec fn py_async_scan(t: SynTree, n: int, out: Seq<PyAsyncOperation>) -> bool
    decreases n
        when 0 <= n <= t.nodes@.len()
{
    if n == 0 {
        out.len() == 0
    } else {
        let i = n - 1;
        if t.kind_of(i) == lit_bytes("await") {
            if t.nodes@[i].is_named {
                out.len() > 0 && py_async_scan(t, i, out.drop_last()) && py_await_rel(
                    t,
                    i,
                    out.last(),
                )
            } else {
                py_async_scan(t, i, out)
            }
        } else if t.kind_of(i) == lit_bytes("call") && crate::syntree::child_by_field(
            t,
            i,
            lit_bytes("function"),
        ).is_some() {
            let f = crate::syntree::child_by_field(t, i, lit_bytes("function")).unwrap();
            if t.kind_of(f) == lit_bytes("attribute") && py_async_call_spec(
                t.text_of(f),
            ).is_some() {
                out.len() > 0 && py_async_scan(t, i, out.drop_last()) && py_async_call_rel(
                    t,
                    i,
                    out.last(),
                )
            } else {
                py_async_scan(t, i, out)
            }
        } else {
            py_async_scan(t, i, out)
        }
    }
}

/// The name of the function definition nearest above node `i`, if any,
/// together with whether that function is async.
fn py_enclosing_function(t: &SynTree, i: usize) -> (r: (Option<Vec<u8>>, bool))
    requires
        t.wf(),
        i < t.nodes@.len(),
    ensures
        match (r.0, py_encl_name_spec(*t, i as int)) {
            (Some(a), Some(b)) => a@ == b,
            (None, None) => true,
            _ => false,
        },
        r.1 == py_encl_async_spec(*t, i as int),
{
    match t.nearest_anc(i, "function_definition") {
        Some(fd) => {
            let is_async = crate::bytes::starts_with_lit(t.text(fd).as_slice(), "async");
            match t.child_by_field(fd, "name") {
                Some(nm) => (Some(t.text(nm)), is_async),
                None => (None, is_async),
            }
        },
        None => (None, false),
    }
}

impl PyFileSemantics {
    /// Walks a parsed Python file and extracts imports, functions and call
    /// sites.  HTTP, ORM and async facts are left empty; a later
    /// `analyze_frameworks` pass fills them.
    pub fn from_parsed(parsed: &ParsedFile) -> (r: PyFileSemantics)
        requires
            parsed.wf(),
        ensures
            r.wf(),
            r.file_id == parsed.file_id,
            r.path@ == parsed.path@,
            r.http_calls@.len() == 0,
            r.orm_queries@.len() == 0,
            r.async_operations@.len() == 0,
            py_calls_scan(parsed.tree, parsed.tree.nodes@.len() as int, r.calls@),
            py_imports_scan(parsed.tree, parsed.tree.nodes@.len() as int, r.imports@),
            py_functions_scan(parsed.tree, parsed.tree.nodes@.len() as int, r.functions@),
            py_structural_post(*parsed, r),
    {
        PyFileSemantics {
            file_id: parsed.file_id,
            path: crate::bytes::bytes_to_vec(parsed.path.as_slice()),
            imports: py_scan_imports(&parsed.tree),
            functions: py_scan_functions(&parsed.tree),
            calls: py_scan_calls(&parsed.tree),
            http_calls: Vec::new(),
            orm_queries: Vec::new(),
            async_operations: Vec::new(),
        }
    }

    /// Second pass: fills HTTP client calls and asynchronous operations by
    /// scanning call expressions and `await` nodes.  The structural facts
    /// are left untouched.  This pass cannot fail.
    pub fn analyze_frameworks(&mut self, parsed: &ParsedFile) -> (r: Result<(), SemanticsError>)
        requires
            parsed.wf(),
            old(self).wf(),
        ensures
            final(self).wf(),
            final(self).imports == old(self).imports,
            final(self).functions == old(self).functions,
            final(self).calls == old(self).calls,
            final(self).file_id == old(self).file_id,
            final(self).path == old(self).path,
            final(self).orm_queries == old(self).orm_queries,
            r.is_ok(),
            py_http_scan(parsed.tree, parsed.tree.nodes@.len() as int, final(self).http_calls@),
            py_async_scan(
                parsed.tree,
                parsed.tree.nodes@.len() as int,
                final(self).async_operations@,
            ),
    {
        let t = &parsed.tree;
        let n = t.len();
        let mut http: Vec<PyHttpCallSite> = Vec::new();
        let mut asyncs: Vec<PyAsyncOperation> = Vec::new();
        let mut i: usize = 0;
        while i < n
            invariant
                t.wf(),
                n == t.nodes@.len(),
                i <= n,
                forall|j: int| 0 <= j < http@.len() ==> py_http_wf(#[trigger] http@[j]),
                forall|j: int| 0 <= j < asyncs@.len() ==> py_async_wf(#[trigger] asyncs@[j]),
                py_http_scan(*t, i as int, http@),
                py_async_scan(*t, i as int, asyncs@),
            decreases n - i,
        {
            proof {
                assert(crate::syntree::node_wf(
                    t.nodes@[i as int],
                    i as int,
                    t.source@.len() as int,
                ));
            }
            if t.kind_is(i, "await") {
                if t.named_at(i) {
                    let (fname, _) = py_enclosing_function(t, i);
                    let ghost prev = asyncs@;
                    asyncs.push(
                        PyAsyncOperation {
                            operation_type: PyAsyncOperationType::Await,
                            has_error_handling: false,
                            has_timeout: false,
                            timeout_millis: None,
                            has_cancellation: false,
                            is_bounded: false,
                            bound_limit: None,
                            operation_text: t.text(i),
                            location: t.loc_at(i),
                            enclosing_function: fname,
                            start_byte: t.start_of(i),
                            end_byte: t.end_of(i),
                        },
                    );
                    proof {
                        assert(asyncs@.drop_last() =~= prev);
                        assert(py_await_rel(*t, i as int, asyncs@.last()));
                    }
                }
            } else if t.kind_is(i, "call") {
                match t.child_by_field(i, "function") {
                    Some(f) => {
                        if t.kind_is(f, "attribute") {
                            let obj = match t.child_by_field(f, "object") {
                                Some(o) => t.text(o),
                                None => Vec::new(),
                            };
                            let meth = match t.child_by_field(f, "attribute") {
                                Some(m) => t.text(m),
                                None => Vec::new(),
                            };
                            let kind_opt: Option<PyHttpClientKind> = if crate::bytes::bytes_eq_str(
                                obj.as_slice(),
                                "requests",
                            ) {
                                Some(PyHttpClientKind::Requests)
                            } else if crate::bytes::bytes_eq_str(obj.as_slice(), "httpx") {
                                Some(PyHttpClientKind::Httpx)
                            } else if crate::bytes::bytes_eq_str(obj.as_slice(), "aiohttp") {
                                Some(PyHttpClientKind::Aiohttp)
                            } else {
                                None
                            };
                            let ftxt = t.text(f);
                            let op: Option<PyAsyncOperationType> = if crate::bytes::bytes_eq_str(
                                ftxt.as_slice(),
                                "asyncio.create_task",
                            ) {
                                Some(PyAsyncOperationType::TaskSpawn)
                            } else if crate::bytes::bytes_eq_str(ftxt.as_slice(), "asyncio.gather") {
                                Some(PyAsyncOperationType::TaskGather)
                            } else if crate::bytes::bytes_eq_str(ftxt.as_slice(), "asyncio.sleep") {
                                Some(PyAsyncOperationType::Sleep)
                            } else if crate::bytes::bytes_eq_str(
                                ftxt.as_slice(),
                                "asyncio.wait_for",
                            ) {
                                Some(PyAsyncOperationType::Timeout)
                            } else {
                                None
                            };
                            match kind_opt {
                                Some(ck) => {
                                    let (fname, in_async) = py_enclosing_function(t, i);
                                    let call_text = t.text(i);
                                    let has_timeout = contains_lit(call_text.as_slice(), "timeout=");
                                    let ghost prev = http@;
                                    http.push(
                                        PyHttpCallSite {
                                            client_kind: ck,
                                            method_name: meth,
                                            call_text,
                                            has_timeout,
                                            location: t.loc_at(i),
                                            function_name: fname,
                                            in_async_function: in_async,
                                            start_byte: t.start_of(i),
                                            end_byte: t.end_of(i),
                                        },
                                    );
                                    proof {
                                        assert(http@.drop_last() =~= prev);
                                        assert(py_http_rel(*t, i as int, http@.last()));
                                    }
                                },
                                None => {},
                            }
                            match op {
                                Some(ot) => {
                                    let (fname, _) = py_enclosing_function(t, i);
                                    let call_text = t.text(i);
                                    let has_timeout = ot == PyAsyncOperationType::Timeout;
                                    let ghost prev = asyncs@;
                                    asyncs.push(
                                        PyAsyncOperation {
                                            operation_type: ot,
                                            has_error_handling: false,
                                            has_timeout,
                                            timeout_millis: None,
                                            has_cancellation: false,
                                            is_bounded: false,
                                            bound_limit: None,
                                            operation_text: call_text,
                                            location: t.loc_at(i),
                                            enclosing_function: fname,
                                            start_byte: t.start_of(i),
                                            end_byte: t.end_of(i),
                                        },
                                    );
                                    proof {
                                        assert(asyncs@.drop_last() =~= prev);
                                        assert(py_async_call_rel(*t, i as int, asyncs@.last()));
                                    }
                                },
                                None => {},
                            }
                        }
                    },
                    None => {},
                }
            }
            i = i + 1;
        }
        self.http_calls = http;
        self.async_operations = asyncs;
        Ok(())
    }
}


/// The structural contract of `from_parsed`: identity copied, the three
/// structural categories pinned by their scan relations, framework
/// categories left empty.
pub open spec fn py_structural_post(p: ParsedFile, r: PyFileSemantics) -> bool {
    &&& r.file_id == p.file_id
    &&& r.path@ == p.path@
    &&& py_imports_scan(p.tree, p.tree.nodes@.len() as int, r.imports@)
    &&& py_functions_scan(p.tree, p.tree.nodes@.len() as int, r.functions@)
    &&& py_calls_scan(p.tree, p.tree.nodes@.len() as int, r.calls@)
    &&& r.http_calls@.len() == 0
    &&& r.orm_queries@.len() == 0
    &&& r.async_operations@.len() == 0
}

} // verus!

