//! Cross-language extraction tests over the normalized schema.

use unfault_core::golang::GoFileSemantics;
use unfault_core::lang::{FileId, Lang, SourceFile};
use unfault_core::parse::{parse_go_file, parse_python_file, parse_rust_file, parse_typescript_file};
use unfault_core::python::PyFileSemantics;
use unfault_core::rustlang::{build_rust_semantics, RustFileSemantics};
use unfault_core::typescript::TsFileSemantics;

fn parse_go(source: &str) -> GoFileSemantics {
    let sf = SourceFile {
        path: b"test.go".to_vec(),
        language: Lang::Go,
        content: source.as_bytes().to_vec(),
    };
    let parsed = parse_go_file(FileId(1), &sf).expect("parsing should succeed");
    let mut sem = GoFileSemantics::from_parsed(&parsed);
    sem.analyze_frameworks(&parsed).expect("analysis should succeed");
    sem
}

fn parse_python(source: &str) -> PyFileSemantics {
    let sf = SourceFile {
        path: b"test.py".to_vec(),
        language: Lang::Python,
        content: source.as_bytes().to_vec(),
    };
    let parsed = parse_python_file(FileId(1), &sf).expect("parsing should succeed");
    let mut sem = PyFileSemantics::from_parsed(&parsed);
    sem.analyze_frameworks(&parsed).expect("analysis should succeed");
    sem
}

fn parse_rust(source: &str) -> RustFileSemantics {
    let sf = SourceFile {
        path: b"test.rs".to_vec(),
        language: Lang::Rust,
        content: source.as_bytes().to_vec(),
    };
    let parsed = parse_rust_file(FileId(2), &sf).expect("parsing should succeed");
    build_rust_semantics(&parsed).expect("semantics should succeed")
}

fn parse_typescript(source: &str) -> TsFileSemantics {
    let sf = SourceFile {
        path: b"test.ts".to_vec(),
        language: Lang::Typescript,
        content: source.as_bytes().to_vec(),
    };
    let parsed = parse_typescript_file(FileId(3), &sf).expect("parsing should succeed");
    let mut sem = TsFileSemantics::from_parsed(&parsed);
    sem.analyze_frameworks(&parsed).expect("analysis should succeed");
    sem
}

#[test]
fn go_function_has_byte_range() {
    let sem = parse_go(
        r#"
package main

func hello() {
    println("hello")
}
"#,
    );

    let functions = sem.functions();
    assert_eq!(functions.len(), 1);

    let func = &functions[0];
    assert!(func.start_byte > 0, "GoFunction should have start_byte > 0");
    assert!(
        func.end_byte > func.start_byte,
        "GoFunction should have end_byte > start_byte"
    );
}

#[test]
fn go_functions_with_calls_extraction() {
    let sem = parse_go(
        r#"
package main

import "fmt"

func helper() {
    // no calls
}

func caller() {
    helper()
    fmt.Println("hello")
}
"#,
    );

    let functions = sem.functions();
    assert_eq!(functions.len(), 2);

    let helper_fn = functions.iter().find(|f| f.name == b"helper".to_vec()).unwrap();
    assert_eq!(helper_fn.calls.len(), 0);

    let caller_fn = functions.iter().find(|f| f.name == b"caller".to_vec()).unwrap();
    assert_eq!(caller_fn.calls.len(), 2);

    let callee_names: Vec<&[u8]> = caller_fn.calls.iter().map(|c| c.callee.as_slice()).collect();
    assert!(callee_names.contains(&&b"helper"[..]));
    assert!(callee_names.contains(&&b"Println"[..]));
}

#[test]
fn go_method_call_extraction() {
    let sem = parse_go(
        r#"
package main

type Server struct{}

func (s *Server) Handle() {
    s.Process()
    s.Validate()
}

func (s *Server) Process() {}

func (s *Server) Validate() {}
"#,
    );

    let functions = sem.functions();
    assert_eq!(functions.len(), 3);

    let handle_fn = functions.iter().find(|f| f.name == b"Handle".to_vec()).unwrap();
    assert_eq!(handle_fn.calls.len(), 2);

    let callee_names: Vec<&[u8]> = handle_fn.calls.iter().map(|c| c.callee.as_slice()).collect();
    assert!(callee_names.contains(&&b"Process"[..]));
    assert!(callee_names.contains(&&b"Validate"[..]));
}

#[test]
fn python_imports_via_common_trait() {
    let sem = parse_python(
        r#"
import os
from typing import List, Optional
import requests
"#,
    );

    let imports = sem.imports();
    assert_eq!(imports.len(), 3);

    // Check that os is identified as stdlib
    let os_import = imports.iter().find(|i| i.module == b"os".to_vec()).unwrap();
    assert!(os_import.is_stdlib());

    // Check that requests is identified as external
    let requests_import = imports
        .iter()
        .find(|i| i.module == b"requests".to_vec())
        .unwrap();
    assert!(requests_import.is_external());
}

#[test]
fn python_functions_via_common_trait() {
    let sem = parse_python(
        r#"
def sync_function():
    pass

async def async_function():
    pass

def _private_function():
    pass
"#,
    );

    let functions = sem.functions();
    assert_eq!(functions.len(), 3);

    let sync_fn = functions
        .iter()
        .find(|f| f.name == b"sync_function".to_vec())
        .unwrap();
    assert!(!sync_fn.is_async);
    assert!(sync_fn.is_public());

    let async_fn = functions
        .iter()
        .find(|f| f.name == b"async_function".to_vec())
        .unwrap();
    assert!(async_fn.is_async);

    let private_fn = functions
        .iter()
        .find(|f| f.name == b"_private_function".to_vec())
        .unwrap();
    assert!(!private_fn.is_public());
}

#[test]
fn python_file_metadata_via_common_trait() {
    let sem = parse_python("x = 1");

    assert_eq!(sem.file_id(), FileId(1));
    assert_eq!(sem.file_path(), &b"test.py".to_vec());
    assert_eq!(sem.language(), Lang::Python);
}

#[test]
fn python_functions_with_calls_extraction() {
    let sem = parse_python(
        r#"
def helper():
    pass

def caller():
    helper()
    other_func()
"#,
    );

    let functions = sem.functions();
    assert_eq!(functions.len(), 2);

    // Helper should have no calls
    let helper_fn = functions.iter().find(|f| f.name == b"helper".to_vec()).unwrap();
    assert_eq!(helper_fn.calls.len(), 0);

    // Caller should have 2 calls (helper and other_func)
    let caller_fn = functions.iter().find(|f| f.name == b"caller".to_vec()).unwrap();
    assert_eq!(caller_fn.calls.len(), 2);

    // Check the callee names
    let callee_names: Vec<&[u8]> = caller_fn.calls.iter().map(|c| c.callee.as_slice()).collect();
    assert!(callee_names.contains(&&b"helper"[..]));
    assert!(callee_names.contains(&&b"other_func"[..]));
}

#[test]
fn python_method_call_extraction() {
    let sem = parse_python(
        r#"
def process():
    obj.method()
    obj.nested.method()
"#,
    );

    let functions = sem.functions();
    assert_eq!(functions.len(), 1);

    let process_fn = &functions[0];
    assert_eq!(process_fn.calls.len(), 2);

    // First call: obj.method() -> callee="method", receiver=Some("obj")
    let first_call = &process_fn.calls[0];
    assert_eq!(first_call.callee, b"method".to_vec());
    assert_eq!(first_call.receiver.as_deref(), Some(&b"obj"[..]));

    // Second call: obj.nested.method() -> callee="method", receiver=Some("obj.nested")
    let second_call = &process_fn.calls[1];
    assert_eq!(second_call.callee, b"method".to_vec());
    assert_eq!(second_call.receiver.as_deref(), Some(&b"obj.nested"[..]));
}

#[test]
fn python_function_has_byte_range() {
    let sem = parse_python(
        r#"
def my_func():
    pass
"#,
    );

    let functions = sem.functions();
    assert_eq!(functions.len(), 1);

    let func = &functions[0];
    // Function should have valid byte range
    assert!(func.start_byte > 0, "start_byte should be > 0");
    assert!(
        func.end_byte > func.start_byte,
        "end_byte should be > start_byte"
    );
}

#[test]
fn rust_function_has_byte_range() {
    let sem = parse_rust(
        r#"
fn my_func() {
    let x = 1;
}
"#,
    );

    let functions = sem.functions();
    assert_eq!(functions.len(), 1);

    let func = &functions[0];
    assert!(func.start_byte > 0, "RustFunction should have start_byte > 0");
    assert!(func.end_byte > func.start_byte);
}

#[test]
fn rust_functions_with_calls_extraction() {
    let sem = parse_rust(
        r#"
fn helper() {
    // no calls
}

fn other() {
    println!("hello");
}

fn caller() {
    helper();
    other();
}
"#,
    );

    let functions = sem.functions();
    assert_eq!(functions.len(), 3);

    let helper_fn = functions.iter().find(|f| f.name == b"helper".to_vec()).unwrap();
    assert_eq!(helper_fn.calls.len(), 0);

    let caller_fn = functions.iter().find(|f| f.name == b"caller".to_vec()).unwrap();
    assert_eq!(caller_fn.calls.len(), 2);

    let callee_names: Vec<&[u8]> = caller_fn.calls.iter().map(|c| c.callee.as_slice()).collect();
    assert!(callee_names.contains(&&b"helper"[..]));
    assert!(callee_names.contains(&&b"other"[..]));
}

#[test]
fn rust_method_call_extraction() {
    let sem = parse_rust(
        r#"
struct Server;

impl Server {
    fn handle(&self) {
        self.process();
        self.validate();
    }

    fn process(&self) {}

    fn validate(&self) {}
}
"#,
    );

    let functions = sem.functions();
    assert_eq!(functions.len(), 3);

    let handle_fn = functions.iter().find(|f| f.name == b"handle".to_vec()).unwrap();
    assert_eq!(handle_fn.calls.len(), 2);

    let callee_names: Vec<&[u8]> = handle_fn.calls.iter().map(|c| c.callee.as_slice()).collect();
    assert!(callee_names.contains(&&b"process"[..]));
    assert!(callee_names.contains(&&b"validate"[..]));
}

#[test]
fn typescript_function_has_byte_range() {
    let sem = parse_typescript(
        r#"
function hello(): void {
    console.log("hello");
}
"#,
    );

    let functions = sem.functions();
    assert_eq!(functions.len(), 1);

    let func = &functions[0];
    assert!(func.start_byte > 0, "TsFunction should have start_byte > 0");
    assert!(func.end_byte > func.start_byte);
}

#[test]
fn typescript_functions_with_calls_extraction() {
    let sem = parse_typescript(
        r#"
function helper(): void {
    // no calls
}

function caller(): void {
    helper();
    console.log("hello");
}
"#,
    );

    let functions = sem.functions();
    assert_eq!(functions.len(), 2);

    let helper_fn = functions.iter().find(|f| f.name == b"helper".to_vec()).unwrap();
    assert_eq!(helper_fn.calls.len(), 0);

    let caller_fn = functions.iter().find(|f| f.name == b"caller".to_vec()).unwrap();
    assert_eq!(caller_fn.calls.len(), 2);

    let callee_names: Vec<&[u8]> = caller_fn.calls.iter().map(|c| c.callee.as_slice()).collect();
    assert!(callee_names.contains(&&b"helper"[..]));
    assert!(callee_names.contains(&&b"log"[..]));
}

#[test]
fn typescript_method_call_extraction() {
    let sem = parse_typescript(
        r#"
class Server {
    handle(): void {
        this.process();
        this.validate();
    }

    process(): void {}

    validate(): void {}
}
"#,
    );

    let functions = sem.functions();
    assert_eq!(functions.len(), 3);

    let handle_fn = functions.iter().find(|f| f.name == b"handle".to_vec()).unwrap();
    assert_eq!(handle_fn.calls.len(), 2);

    let callee_names: Vec<&[u8]> = handle_fn.calls.iter().map(|c| c.callee.as_slice()).collect();
    assert!(callee_names.contains(&&b"process"[..]));
    assert!(callee_names.contains(&&b"validate"[..]));
}

#[test]
fn typescript_arrow_function_with_calls() {
    let sem = parse_typescript(
        r#"
const myFunc = (): void => {
    helper();
    console.log("test");
};

function helper(): void {}
"#,
    );

    let functions = sem.functions();
    assert_eq!(functions.len(), 2);

    let my_func = functions.iter().find(|f| f.name == b"myFunc".to_vec()).unwrap();
    assert_eq!(my_func.calls.len(), 2);
}
