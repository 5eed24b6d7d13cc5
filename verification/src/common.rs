//! The shared cross-language schema.
//!
//! Per-language records are normalized onto these types.  All positions are
//! 1-based here; the parse layer's rows and columns are 0-based and are
//! offset at the normalization boundary.

use vstd::prelude::*;
use crate::lang::FileId;

verus! {

/// A position in a file: 1-based line and column plus a byte range.
#[derive(Clone, Debug)]
pub struct CommonLocation {
    pub file_id: FileId,
    pub line: usize,
    pub column: usize,
    pub start_byte: usize,
    pub end_byte: usize,
}

/// How an import brings names into a file.
#[derive(Clone, Copy, Debug, PartialEq, Eq, Structural)]
pub enum ImportStyle {
    Module,
    Named,
    Star,
    Default,
    SideEffect,
}

/// Where an imported module comes from.
#[derive(Clone, Copy, Debug, PartialEq, Eq, Structural)]
pub enum ImportSource {
    StandardLib,
    External,
    Local,
}

/// One name brought in by an import, with an optional alias.
#[derive(Clone, Debug)]
pub struct ImportedItem {
    pub name: Vec<u8>,
    pub alias: Option<Vec<u8>>,
}

impl ImportedItem {
    /// An item with no alias.
    pub fn new(name: Vec<u8>) -> (r: ImportedItem)
        ensures
            r.name == name,
            r.alias.is_none(),
    {
        ImportedItem { name, alias: None }
    }
}

/// A normalized import declaration.
#[derive(Clone, Debug)]
pub struct Import {
    pub module: Vec<u8>,
    pub style: ImportStyle,
    pub source: ImportSource,
    pub items: Vec<ImportedItem>,
    pub module_alias: Option<Vec<u8>>,
    pub raw_text: Vec<u8>,
    pub is_type_only: bool,
    pub is_dynamic: bool,
    pub location: CommonLocation,
}

impl Import {
    /// Whether the import resolves to the language's standard library.
    pub fn is_stdlib(&self) -> (r: bool)
        ensures
            r == (self.source == ImportSource::StandardLib),
    {
        match self.source {
            ImportSource::StandardLib => true,
            _ => false,
        }
    }

    /// Whether the import resolves to an external package.
    pub fn is_external(&self) -> (r: bool)
        ensures
            r == (self.source == ImportSource::External),
    {
        match self.source {
            ImportSource::External => true,
            _ => false,
        }
    }

    /// Whether the import resolves to a file of the same project.
    pub fn is_local(&self) -> (r: bool)
        ensures
            r == (self.source == ImportSource::Local),
    {
        match self.source {
            ImportSource::Local => true,
            _ => false,
        }
    }
}

/// The kind of a function definition.
#[derive(Clone, Copy, Debug, PartialEq, Eq, Structural)]
pub enum FunctionKind {
    Function,
    Method,
    Generator,
    Lambda,
}

/// Who may call a function.
#[derive(Clone, Copy, Debug, PartialEq, Eq, Structural)]
pub enum Visibility {
    Public,
    Package,
    Protected,
    Private,
}

/// A formal parameter of a function.
#[derive(Clone, Debug)]
pub struct FunctionParam {
    pub name: Vec<u8>,
    pub type_annotation: Option<Vec<u8>>,
    pub default_value: Option<Vec<u8>>,
    pub is_variadic: bool,
}

impl FunctionParam {
    /// A plain parameter with only a name.
    pub fn new(name: Vec<u8>) -> (r: FunctionParam)
        ensures
            r.name == name,
            r.type_annotation.is_none(),
            r.default_value.is_none(),
            !r.is_variadic,
    {
        FunctionParam { name, type_annotation: None, default_value: None, is_variadic: false }
    }

    /// The same parameter with a type annotation.
    pub fn with_type(self, t: Vec<u8>) -> (r: FunctionParam)
        ensures
            r.name == self.name,
            r.type_annotation == Some(t),
            r.default_value == self.default_value,
            r.is_variadic == self.is_variadic,
    {
        FunctionParam {
            name: self.name,
            type_annotation: Some(t),
            default_value: self.default_value,
            is_variadic: self.is_variadic,
        }
    }

    /// The same parameter with a default value.
    pub fn with_default(self, d: Vec<u8>) -> (r: FunctionParam)
        ensures
            r.name == self.name,
            r.type_annotation == self.type_annotation,
            r.default_value == Some(d),
            r.is_variadic == self.is_variadic,
    {
        FunctionParam {
            name: self.name,
            type_annotation: self.type_annotation,
            default_value: Some(d),
            is_variadic: self.is_variadic,
        }
    }

    /// The same parameter marked variadic.
    pub fn variadic(self) -> (r: FunctionParam)
        ensures
            r.name == self.name,
            r.type_annotation == self.type_annotation,
            r.default_value == self.default_value,
            r.is_variadic,
    {
        FunctionParam {
            name: self.name,
            type_annotation: self.type_annotation,
            default_value: self.default_value,
            is_variadic: true,
        }
    }
}

/// A decorator or attribute attached to a function.
#[derive(Clone, Debug)]
pub struct FunctionDecorator {
    pub name: Vec<u8>,
    pub raw_text: Vec<u8>,
}

impl FunctionDecorator {
    /// A decorator from its name and raw text.
    pub fn new(name: Vec<u8>, raw_text: Vec<u8>) -> (r: FunctionDecorator)
        ensures
            r.name == name,
            r.raw_text == raw_text,
    {
        FunctionDecorator { name, raw_text }
    }
}

/// One call site inside a function body.  The callee expression is split at
/// its rightmost dot: the tail is `callee`, the head (if any) is `receiver`.
#[derive(Clone, Debug)]
pub struct FunctionCall {
    pub callee: Vec<u8>,
    pub callee_expr: Vec<u8>,
    pub receiver: Option<Vec<u8>>,
    pub line: usize,
    pub column: usize,
}

/// A normalized function or method definition.
#[derive(Clone, Debug)]
pub struct FunctionDef {
    pub name: Vec<u8>,
    pub kind: FunctionKind,
    pub visibility: Visibility,
    pub is_async: bool,
    pub params: Vec<FunctionParam>,
    pub return_type: Option<Vec<u8>>,
    pub decorators: Vec<FunctionDecorator>,
    pub class_name: Option<Vec<u8>>,
    pub calls: Vec<FunctionCall>,
    pub body_lines: usize,
    pub has_error_handling: bool,
    pub has_documentation: bool,
    pub location: CommonLocation,
    pub start_byte: usize,
    pub end_byte: usize,
}

impl FunctionDef {
    /// Whether the function is visible outside its defining scope.
    pub fn is_public(&self) -> (r: bool)
        ensures
            r == (self.visibility == Visibility::Public),
    {
        match self.visibility {
            Visibility::Public => true,
            _ => false,
        }
    }
}

/// The HTTP client library behind a call.
#[derive(Clone, Debug)]
pub enum HttpClientLibrary {
    Requests,
    Httpx,
    Aiohttp,
    NetHttp,
    Fetch,
    Axios,
    Got,
    Reqwest,
    ReqwestBlocking,
    Ureq,
    Hyper,
    Surf,
    Awc,
    Isahc,
    Other(Vec<u8>),
}

/// The HTTP verb of a call.
#[derive(Clone, Debug)]
pub enum HttpMethod {
    Get,
    Post,
    Put,
    Patch,
    Delete,
    Other(Vec<u8>),
}

/// A normalized HTTP client invocation.
#[derive(Clone, Debug)]
pub struct HttpCall {
    pub library: HttpClientLibrary,
    pub method: HttpMethod,
    pub url: Option<Vec<u8>>,
    pub has_timeout: bool,
    /// Timeout in milliseconds when one could be read off the call text.
    pub timeout_millis: Option<u64>,
    pub retry_mechanism: Option<Vec<u8>>,
    pub call_text: Vec<u8>,
    pub location: CommonLocation,
    pub enclosing_function: Option<Vec<u8>>,
    pub in_async_context: bool,
    pub in_loop: bool,
    pub start_byte: usize,
    pub end_byte: usize,
}

/// The database library behind an operation.
#[derive(Clone, Debug)]
pub enum DbLibrary {
    SqlAlchemy,
    DjangoOrm,
    TortoiseOrm,
    Peewee,
    DatabaseSql,
    Gorm,
    Sqlx,
    Sqlc,
    Diesel,
    SeaOrm,
    SqlxRust,
    TokioPostgres,
    Prisma,
    TypeOrm,
    Knex,
    Sequelize,
    DrizzleOrm,
    Other(Vec<u8>),
}

/// What a database operation does.
#[derive(Clone, Copy, Debug, PartialEq, Eq, Structural)]
pub enum DbOperationType {
    Select,
    Insert,
    Update,
    Delete,
    Connect,
    TransactionBegin,
    TransactionCommit,
    TransactionRollback,
    RelationshipAccess,
    RawSql,
    Unknown,
}

/// An ORM eager-loading hint.
#[derive(Clone, Debug)]
pub enum EagerLoadingStrategy {
    Joined,
    Subquery,
    Other(Vec<u8>),
}

/// A normalized database or ORM operation.
#[derive(Clone, Debug)]
pub struct DbOperation {
    pub library: DbLibrary,
    pub operation_type: DbOperationType,
    pub has_timeout: bool,
    /// Timeout in milliseconds when one could be read off the text.
    pub timeout_millis: Option<u64>,
    pub in_transaction: bool,
    pub eager_loading: Option<EagerLoadingStrategy>,
    pub in_loop: bool,
    pub in_iteration: bool,
    pub model_name: Option<Vec<u8>>,
    pub relationship_field: Option<Vec<u8>>,
    pub operation_text: Vec<u8>,
    pub location: CommonLocation,
    pub enclosing_function: Option<Vec<u8>>,
    pub start_byte: usize,
    pub end_byte: usize,
}

/// The concurrency runtime behind an operation.
#[derive(Clone, Debug)]
pub enum AsyncRuntime {
    Asyncio,
    Tokio,
    AsyncStd,
    Goroutine,
    PromiseNative,
    Other(Vec<u8>),
}

/// What a concurrency operation does.
#[derive(Clone, Copy, Debug, PartialEq, Eq, Structural)]
pub enum AsyncOperationType {
    TaskSpawn,
    TaskAwait,
    TaskGather,
    ChannelSend,
    ChannelReceive,
    LockAcquire,
    LockRelease,
    SemaphoreAcquire,
    Sleep,
    Timeout,
    SelectRace,
    Unknown,
}

/// How errors around an async operation are handled.
#[derive(Clone, Debug)]
pub enum ErrorHandling {
    TryCatch,
    Other(Vec<u8>),
}

/// How cancellation of an async operation is handled.
#[derive(Clone, Debug)]
pub enum CancellationHandling {
    CancellationToken,
    ChannelClose,
    Other(Vec<u8>),
}

/// A normalized asynchronous or concurrency operation.
#[derive(Clone, Debug)]
pub struct AsyncOperation {
    pub runtime: AsyncRuntime,
    pub operation_type: AsyncOperationType,
    pub has_error_handling: bool,
    pub error_handling: Option<ErrorHandling>,
    pub has_timeout: bool,
    /// Timeout in milliseconds when one could be read off the text.
    pub timeout_millis: Option<u64>,
    pub has_cancellation: bool,
    pub cancellation_handling: Option<CancellationHandling>,
    pub is_bounded: bool,
    pub bound_limit: Option<u64>,
    pub has_cleanup: bool,
    pub operation_text: Vec<u8>,
    pub location: CommonLocation,
    pub enclosing_function: Option<Vec<u8>>,
    pub start_byte: usize,
    pub end_byte: usize,
}

/// The kind of a source-level annotation.
#[derive(Clone, Debug)]
pub enum AnnotationType {
    Other(Vec<u8>),
}

/// A source-level annotation attached to a function.
#[derive(Clone, Debug)]
pub struct Annotation {
    pub name: Vec<u8>,
    pub annotation_type: AnnotationType,
    pub location: CommonLocation,
}

/// The web framework a route belongs to.
#[derive(Clone, Debug)]
pub enum RouteFramework {
    Other(Vec<u8>),
}

/// An HTTP route registration.
#[derive(Clone, Debug)]
pub struct RoutePattern {
    pub framework: RouteFramework,
    pub path: Vec<u8>,
    pub method: Vec<u8>,
    pub location: CommonLocation,
}

/// The kind of an error-handling context.
#[derive(Clone, Debug)]
pub enum ErrorContextType {
    Other(Vec<u8>),
}

/// An error-handling region of code.
#[derive(Clone, Debug)]
pub struct ErrorContext {
    pub context_type: ErrorContextType,
    pub location: CommonLocation,
}

} // verus!
