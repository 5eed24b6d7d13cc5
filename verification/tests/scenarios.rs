//! End-to-end scenarios and unit checks of classification, splitting,
//! timeout parsing and normalization.

use unfault_core::common::{DbOperationType, EagerLoadingStrategy, HttpMethod, ImportStyle};
use unfault_core::common::DbLibrary;
use unfault_core::golang::GoFileSemantics;
use unfault_core::lang::{FileId, Lang, SemanticsError, SourceFile};
use unfault_core::parse::{parse_go_file, parse_python_file, parse_rust_file, parse_typescript_file};
use unfault_core::python::{
    OrmKind, OrmQueryCall, PyFileSemantics, QueryType,
};
use unfault_core::rust_http::{
    detect_client_kind, extract_method_from_blocking_call, is_http_method, summarize_http_clients,
    HttpClientKind,
};
use unfault_core::rustlang::build_rust_semantics;
use unfault_core::syntree::AstLocation;
use unfault_core::typescript::TsFileSemantics;
use unfault_core::common::{AsyncOperationType, AsyncRuntime, HttpClientLibrary};

fn parse_python(source: &str) -> PyFileSemantics {
    let sf = SourceFile {
        path: b"test.py".to_vec(),
        language: Lang::Python,
        content: source.as_bytes().to_vec(),
    };
    let parsed = parse_python_file(FileId(1), &sf).expect("parsing should succeed");
    let mut sem = PyFileSemantics::from_parsed(&parsed);
    sem.analyze_frameworks(&parsed).expect("analysis should succeed");
    sem
}

fn parse_go(source: &str) -> GoFileSemantics {
    let sf = SourceFile {
        path: b"test.go".to_vec(),
        language: Lang::Go,
        content: source.as_bytes().to_vec(),
    };
    let parsed = parse_go_file(FileId(1), &sf).expect("parsing should succeed");
    let mut sem = GoFileSemantics::from_parsed(&parsed);
    sem.analyze_frameworks(&parsed).expect("analysis should succeed");
    sem
}

fn parse_typescript(source: &str) -> TsFileSemantics {
    let sf = SourceFile {
        path: b"test.ts".to_vec(),
        language: Lang::Typescript,
        content: source.as_bytes().to_vec(),
    };
    let parsed = parse_typescript_file(FileId(3), &sf).expect("parsing should succeed");
    let mut sem = TsFileSemantics::from_parsed(&parsed);
    sem.analyze_frameworks(&parsed).expect("analysis should succeed");
    sem
}

#[test]
fn python_stdlib_classification_with_items() {
    let sem = parse_python("import os\nfrom typing import List, Optional\nimport requests\n");
    let imports = sem.imports();
    assert_eq!(imports.len(), 3);

    let typing = imports.iter().find(|i| i.module == b"typing".to_vec()).unwrap();
    assert!(typing.is_stdlib());
    assert_eq!(typing.style, ImportStyle::Named);
    assert_eq!(typing.items.len(), 2);
    assert_eq!(typing.items[0].name, b"List".to_vec());
    assert_eq!(typing.items[1].name, b"Optional".to_vec());
}

#[test]
fn python_dunder_names_are_public() {
    let sem = parse_python("class C:\n    def __init__(self):\n        pass\n");
    let functions = sem.functions();
    assert_eq!(functions.len(), 1);
    assert!(functions[0].is_public());
    assert_eq!(functions[0].class_name.as_deref(), Some(&b"C"[..]));
}

#[test]
fn rust_reqwest_with_timeout_scenario() {
    let src = r#"
async fn fetch_user(user_id: u64) -> Result<User, reqwest::Error> {
    let response = client
        .get("https://api.example.com/user")
        .timeout(Duration::from_secs(10))
        .send()
        .await?;
    response
}
"#;
    let sf = SourceFile {
        path: b"test.rs".to_vec(),
        language: Lang::Rust,
        content: src.as_bytes().to_vec(),
    };
    let parsed = parse_rust_file(FileId(7), &sf).expect("parsing should succeed");
    let sem = build_rust_semantics(&parsed).expect("semantics should succeed");
    let http = sem.http_calls();
    assert_eq!(http.len(), 1);
    assert!(matches!(http[0].library, HttpClientLibrary::Reqwest));
    assert!(matches!(http[0].method, HttpMethod::Get));
    assert!(http[0].has_timeout);
    assert_eq!(http[0].timeout_millis, Some(10_000));
    assert!(http[0].in_async_context);
    assert_eq!(http[0].enclosing_function.as_deref(), Some(&b"fetch_user"[..]));
}

#[test]
fn rust_ureq_post_scenario() {
    let sf = SourceFile {
        path: b"test.rs".to_vec(),
        language: Lang::Rust,
        content: b"ureq::post(\"https://x\")".to_vec(),
    };
    let parsed = parse_rust_file(FileId(8), &sf).expect("parsing should succeed");
    let sem = build_rust_semantics(&parsed).expect("semantics should succeed");
    let http = sem.http_calls();
    assert_eq!(http.len(), 1);
    assert!(matches!(http[0].library, HttpClientLibrary::Ureq));
    assert!(matches!(http[0].method, HttpMethod::Post));
    assert!(!http[0].in_async_context);
}

#[test]
fn typescript_console_log_receiver() {
    let sem = parse_typescript(
        "const myFunc = (): void => {\n    helper();\n    console.log(\"test\");\n};\n\nfunction helper(): void {}\n",
    );
    let functions = sem.functions();
    let my_func = functions.iter().find(|f| f.name == b"myFunc".to_vec()).unwrap();
    assert_eq!(my_func.calls.len(), 2);
    let log = my_func.calls.iter().find(|c| c.callee == b"log".to_vec()).unwrap();
    assert_eq!(log.receiver.as_deref(), Some(&b"console"[..]));
    let helper = my_func.calls.iter().find(|c| c.callee == b"helper".to_vec()).unwrap();
    assert!(helper.receiver.is_none());
}

#[test]
fn callee_split_recombines() {
    let sem = parse_python("def f():\n    a.b.c()\n    plain()\n");
    let functions = sem.functions();
    let f = &functions[0];
    assert_eq!(f.calls.len(), 2);
    let dotted = &f.calls[0];
    assert_eq!(dotted.callee_expr, b"a.b.c".to_vec());
    assert_eq!(dotted.callee, b"c".to_vec());
    assert_eq!(dotted.receiver.as_deref(), Some(&b"a.b"[..]));
    let mut rebuilt = dotted.receiver.clone().unwrap();
    rebuilt.push(b'.');
    rebuilt.extend_from_slice(&dotted.callee);
    assert_eq!(rebuilt, dotted.callee_expr);
    let plain = &f.calls[1];
    assert!(plain.receiver.is_none());
    assert_eq!(plain.callee, plain.callee_expr);
}

#[test]
fn timeout_from_millis_exact() {
    let sf = SourceFile {
        path: b"test.rs".to_vec(),
        language: Lang::Rust,
        content: b"fn f() { client.get(\"u\").timeout(Duration::from_millis(2500)); }".to_vec(),
    };
    let parsed = parse_rust_file(FileId(1), &sf).expect("parsing should succeed");
    let calls = summarize_http_clients(&parsed);
    assert_eq!(calls.len(), 1);
    assert_eq!(calls[0].timeout_millis, Some(2_500));
}

#[test]
fn timeout_bare_seconds_exact() {
    let sf = SourceFile {
        path: b"test.rs".to_vec(),
        language: Lang::Rust,
        content: b"fn f() { client.get(\"u\").timeout(7); }".to_vec(),
    };
    let parsed = parse_rust_file(FileId(1), &sf).expect("parsing should succeed");
    let calls = summarize_http_clients(&parsed);
    assert_eq!(calls.len(), 1);
    assert!(calls[0].has_timeout);
    assert_eq!(calls[0].timeout_millis, Some(7_000));
}

#[test]
fn go_method_receiver_encoding() {
    let sem = parse_go(
        "package main\n\ntype Server struct{}\n\nfunc (s *Server) Handle() {}\n",
    );
    let functions = sem.functions();
    assert_eq!(functions.len(), 1);
    let m = &functions[0];
    assert_eq!(m.class_name.as_deref(), Some(&b"Server"[..]));
    assert_eq!(m.params.len(), 1);
    assert_eq!(m.params[0].name, b"self".to_vec());
    assert_eq!(m.params[0].type_annotation.as_deref(), Some(&b"*Server"[..]));
    assert!(m.is_public());
}

#[test]
fn go_import_classification() {
    let sem = parse_go(
        "package main\n\nimport (\n    \"fmt\"\n    \"github.com/gin-gonic/gin\"\n)\n",
    );
    let imports = sem.imports();
    assert_eq!(imports.len(), 2);
    let fmt_import = imports.iter().find(|i| i.module == b"fmt".to_vec()).unwrap();
    assert!(fmt_import.is_stdlib());
    let gin = imports
        .iter()
        .find(|i| i.module == b"github.com/gin-gonic/gin".to_vec())
        .unwrap();
    assert!(gin.is_external());
}

#[test]
fn go_relative_import_is_local() {
    let sem = parse_go("package main\n\nimport (\n    \"./local/pkg\"\n)\n");
    let imports = sem.imports();
    assert_eq!(imports.len(), 1);
    // A leading dot wins over the contains-a-dot rule for external paths.
    assert!(imports[0].is_local());
}

#[test]
fn rust_use_classification() {
    let sf = SourceFile {
        path: b"test.rs".to_vec(),
        language: Lang::Rust,
        content: b"use std::collections::HashMap;\nuse serde::Serialize;\nuse crate::util::helper;\n"
            .to_vec(),
    };
    let parsed = parse_rust_file(FileId(1), &sf).expect("parsing should succeed");
    let sem = build_rust_semantics(&parsed).expect("semantics should succeed");
    let imports = sem.imports();
    assert_eq!(imports.len(), 3);
    assert!(imports[0].is_stdlib());
    assert!(imports[1].is_external());
    assert!(imports[2].is_local());
}

#[test]
fn invalid_source_is_rejected() {
    let sf = SourceFile {
        path: b"bad.py".to_vec(),
        language: Lang::Python,
        content: vec![0xff, 0xfe, 0x00],
    };
    let r = parse_python_file(FileId(1), &sf);
    assert!(matches!(r, Err(SemanticsError::InvalidSource(_, _))));
}

#[test]
fn python_orm_query_normalization() {
    let sem = PyFileSemantics {
        file_id: FileId(5),
        path: b"m.py".to_vec(),
        imports: Vec::new(),
        functions: Vec::new(),
        calls: Vec::new(),
        http_calls: Vec::new(),
        orm_queries: vec![
            OrmQueryCall {
                orm_kind: OrmKind::Django,
                query_type: QueryType::Select,
                has_eager_loading: true,
                in_loop: true,
                in_comprehension: false,
                model_name: Some(b"User".to_vec()),
                loop_variable: None,
                query_text: Some(b"User.objects.filter(active=True)".to_vec()),
                location: AstLocation { start_line: 4, start_col: 2 },
                start_byte: 10,
                end_byte: 42,
            },
        ],
        async_operations: Vec::new(),
    };
    let ops = sem.db_operations();
    assert_eq!(ops.len(), 1);
    assert!(matches!(ops[0].library, DbLibrary::DjangoOrm));
    assert_eq!(ops[0].operation_type, DbOperationType::Select);
    assert!(ops[0].in_loop);
    assert!(!ops[0].in_iteration);
    assert_eq!(ops[0].model_name.as_deref(), Some(&b"User"[..]));
    assert!(matches!(
        ops[0].eager_loading,
        Some(EagerLoadingStrategy::Other(ref v)) if v == &b"detected".to_vec()
    ));
    assert_eq!(ops[0].location.line, 5);
    assert_eq!(ops[0].location.column, 3);
}

#[test]
fn go_goroutine_and_channels() {
    let sem = parse_go(
        "package main\n\nfunc main() {\n    go worker()\n    ch <- 1\n    x := <-done\n    close(done)\n}\n",
    );
    let ops = sem.async_operations();
    assert_eq!(ops.len(), 4);
    assert!(matches!(ops[0].runtime, AsyncRuntime::Goroutine));
    assert_eq!(ops[0].operation_type, AsyncOperationType::TaskSpawn);
    assert_eq!(ops[1].operation_type, AsyncOperationType::ChannelSend);
    assert_eq!(ops[2].operation_type, AsyncOperationType::ChannelReceive);
    // A channel close is kept, surfaced with the Unknown operation type.
    assert_eq!(ops[3].operation_type, AsyncOperationType::Unknown);
    assert_eq!(ops[0].enclosing_function.as_deref(), Some(&b"main"[..]));
}

#[test]
fn detect_client_kind_namespaces() {
    assert!(matches!(
        detect_client_kind(b"ureq", b"ureq::get"),
        Some(HttpClientKind::Ureq)
    ));
    assert!(matches!(
        detect_client_kind(b"reqwest", b"reqwest.get"),
        Some(HttpClientKind::Reqwest)
    ));
    assert!(matches!(
        detect_client_kind(b"surf", b"surf::get"),
        Some(HttpClientKind::Surf)
    ));
    assert!(detect_client_kind(b"unrelated", b"unrelated.get").is_none());
}

#[test]
fn http_method_vocabulary() {
    assert!(is_http_method(b"get"));
    assert!(is_http_method(b"options"));
    assert!(!is_http_method(b"GET"));
    assert!(!is_http_method(b"fetch"));
}

#[test]
fn blocking_call_method_extraction() {
    // The verb after the last path separator is extracted.
    assert_eq!(
        extract_method_from_blocking_call(b"reqwest::blocking::get"),
        b"get".to_vec()
    );
    assert_eq!(
        extract_method_from_blocking_call(b"reqwest::blocking::post"),
        b"post".to_vec()
    );
    // A trailing segment that is no verb leaves the path unchanged.
    assert_eq!(
        extract_method_from_blocking_call(b"reqwest::blocking::call"),
        b"reqwest::blocking::call".to_vec()
    );
    // Without a separator the path is carried as is.
    assert_eq!(extract_method_from_blocking_call(b"get"), b"get".to_vec());
}

#[test]
fn extraction_runs_twice_identically() {
    let src = "import os\n\ndef f():\n    g()\n";
    let sf = SourceFile {
        path: b"test.py".to_vec(),
        language: Lang::Python,
        content: src.as_bytes().to_vec(),
    };
    let parsed = parse_python_file(FileId(1), &sf).expect("parsing should succeed");
    let a = PyFileSemantics::from_parsed(&parsed);
    let b = PyFileSemantics::from_parsed(&parsed);
    assert_eq!(a.imports.len(), b.imports.len());
    assert_eq!(a.functions.len(), b.functions.len());
    assert_eq!(a.calls.len(), b.calls.len());
    assert_eq!(a.imports[0].module, b.imports[0].module);
    assert_eq!(a.functions[0].name, b.functions[0].name);
    assert_eq!(a.calls[0].callee_expr, b.calls[0].callee_expr);
    assert_eq!(a.functions[0].start_byte, b.functions[0].start_byte);
    assert_eq!(a.functions[0].end_byte, b.functions[0].end_byte);
}

#[test]
fn typescript_import_styles() {
    let sem = parse_typescript(
        "import React from \"react\";\nimport { a, b } from \"./m\";\nimport * as ns from \"x\";\nimport \"./style.css\";\n",
    );
    let imports = sem.imports();
    assert_eq!(imports.len(), 4);
    assert_eq!(imports[0].style, ImportStyle::Default);
    assert!(imports[0].is_external());
    assert_eq!(imports[0].module_alias.as_deref(), Some(&b"React"[..]));
    assert_eq!(imports[1].style, ImportStyle::Named);
    assert!(imports[1].is_local());
    assert_eq!(imports[1].items.len(), 2);
    assert_eq!(imports[2].style, ImportStyle::Star);
    assert_eq!(imports[2].module_alias.as_deref(), Some(&b"ns"[..]));
    assert_eq!(imports[3].style, ImportStyle::SideEffect);
}

#[test]
fn python_requests_http_detection() {
    let sem = parse_python("def f():\n    requests.get(\"https://x\", timeout=5)\n");
    let http = sem.http_calls();
    assert_eq!(http.len(), 1);
    assert!(matches!(http[0].library, HttpClientLibrary::Requests));
    assert!(matches!(http[0].method, HttpMethod::Get));
    assert!(http[0].has_timeout);
    assert_eq!(http[0].enclosing_function.as_deref(), Some(&b"f"[..]));
}

#[test]
fn python_await_is_async_operation() {
    let sem = parse_python("async def f():\n    await g()\n");
    let ops = sem.async_operations();
    assert_eq!(ops.len(), 1);
    assert!(matches!(ops[0].runtime, AsyncRuntime::Asyncio));
    assert_eq!(ops[0].operation_type, AsyncOperationType::TaskAwait);
    assert_eq!(ops[0].enclosing_function.as_deref(), Some(&b"f"[..]));
}
