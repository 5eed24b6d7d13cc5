//! Tests of HTTP client call detection in Rust sources.

use unfault_core::lang::{FileId, Lang, SourceFile};
use unfault_core::parse::parse_rust_file;
use unfault_core::rust_http::{summarize_http_clients, HttpCallSite, HttpClientKind};

fn parse_and_summarize_http(source: &str) -> Vec<HttpCallSite> {
    let sf = SourceFile {
        path: b"test.rs".to_vec(),
        language: Lang::Rust,
        content: source.as_bytes().to_vec(),
    };
    let parsed = parse_rust_file(FileId(1), &sf).expect("parsing should succeed");
    summarize_http_clients(&parsed)
}

#[test]
fn detects_reqwest_client() {
    let calls = parse_and_summarize_http("client.get(\"https://example.com\")");
    assert_eq!(calls.len(), 1);
    assert!(matches!(calls[0].client_kind, HttpClientKind::Reqwest));
}

#[test]
fn detects_reqwest_blocking() {
    let calls = parse_and_summarize_http("reqwest::blocking::get(\"https://example.com\")");
    assert_eq!(calls.len(), 1);
    assert!(matches!(
        calls[0].client_kind,
        HttpClientKind::ReqwestBlocking
    ));
}

#[test]
fn detects_ureq_get() {
    let calls = parse_and_summarize_http("ureq::get(\"https://example.com\")");
    assert_eq!(calls.len(), 1);
    assert!(matches!(calls[0].client_kind, HttpClientKind::Ureq));
    assert_eq!(calls[0].method_name, b"get".to_vec());
}

#[test]
fn detects_ureq_post() {
    let calls = parse_and_summarize_http("ureq::post(\"https://example.com\")");
    assert_eq!(calls.len(), 1);
    assert!(matches!(calls[0].client_kind, HttpClientKind::Ureq));
    assert_eq!(calls[0].method_name, b"post".to_vec());
}

#[test]
fn detects_ureq_put() {
    let calls = parse_and_summarize_http("ureq::put(\"https://example.com\")");
    assert_eq!(calls.len(), 1);
    assert!(matches!(calls[0].client_kind, HttpClientKind::Ureq));
    assert_eq!(calls[0].method_name, b"put".to_vec());
}

#[test]
fn detects_ureq_delete() {
    let calls = parse_and_summarize_http("ureq::delete(\"https://example.com\")");
    assert_eq!(calls.len(), 1);
    assert!(matches!(calls[0].client_kind, HttpClientKind::Ureq));
    assert_eq!(calls[0].method_name, b"delete".to_vec());
}

#[test]
fn captures_get_method() {
    let calls = parse_and_summarize_http("client.get(\"https://example.com\")");
    assert_eq!(calls.len(), 1);
    assert_eq!(calls[0].method_name, b"get".to_vec());
}

#[test]
fn captures_post_method() {
    let calls = parse_and_summarize_http("client.post(\"https://example.com\")");
    assert_eq!(calls.len(), 1);
    assert_eq!(calls[0].method_name, b"post".to_vec());
}

#[test]
fn captures_put_method() {
    let calls = parse_and_summarize_http("client.put(\"https://example.com\")");
    assert_eq!(calls.len(), 1);
    assert_eq!(calls[0].method_name, b"put".to_vec());
}

#[test]
fn captures_patch_method() {
    let calls = parse_and_summarize_http("client.patch(\"https://example.com\")");
    assert_eq!(calls.len(), 1);
    assert_eq!(calls[0].method_name, b"patch".to_vec());
}

#[test]
fn captures_delete_method() {
    let calls = parse_and_summarize_http("client.delete(\"https://example.com\")");
    assert_eq!(calls.len(), 1);
    assert_eq!(calls[0].method_name, b"delete".to_vec());
}

#[test]
fn detects_timeout_with_duration() {
    let calls = parse_and_summarize_http(
        r#"client.get("https://example.com")
                .timeout(Duration::from_secs(30))"#,
    );
    assert_eq!(calls.len(), 1);
    assert!(calls[0].has_timeout);
    assert_eq!(calls[0].timeout_millis, Some(30_000));
}

#[test]
fn detects_timeout_with_millis() {
    let calls = parse_and_summarize_http(
        r#"client.get("https://example.com")
                .timeout(Duration::from_millis(5000))"#,
    );
    assert_eq!(calls.len(), 1);
    assert!(calls[0].has_timeout);
    assert_eq!(calls[0].timeout_millis, Some(5_000));
}

#[test]
fn detects_missing_timeout() {
    let calls = parse_and_summarize_http("client.get(\"https://example.com\")");
    assert_eq!(calls.len(), 1);
    assert!(!calls[0].has_timeout);
}

#[test]
fn captures_enclosing_function_name() {
    let src = r#"
async fn fetch_data() -> Result<String, reqwest::Error> {
    client.get("https://example.com").send().await?.text().await
}
"#;
    let calls = parse_and_summarize_http(src);
    assert_eq!(calls.len(), 1);
    assert_eq!(calls[0].function_name, Some(b"fetch_data".to_vec()));
    assert!(calls[0].in_async_function);
}

#[test]
fn detects_await_on_call() {
    let src = r#"
async fn fetch_data() -> Result<String, reqwest::Error> {
    client.get("https://example.com").await?.text().await
}
"#;
    let calls = parse_and_summarize_http(src);
    assert_eq!(calls.len(), 1);
    assert!(calls[0].has_await);
}

#[test]
fn module_level_call_has_no_function_name() {
    let calls = parse_and_summarize_http("let response = client.get(\"https://example.com\");");
    assert_eq!(calls.len(), 1);
    assert!(calls[0].function_name.is_none());
}

#[test]
fn collects_multiple_http_calls() {
    let src = r#"
async fn fetch_all() {
    let a = client.get("https://example.com/a").await?;
    let b = client.post("https://example.com/b").await?;
    let c = client.delete("https://example.com/c").await?;
}
"#;
    let calls = parse_and_summarize_http(src);
    assert_eq!(calls.len(), 3);
}

#[test]
fn collects_calls_from_different_functions() {
    let src = r#"
async fn func_a() {
    client.get("https://example.com/a").await?;
}

fn func_b() {
    ureq::get("https://example.com/b");
}
"#;
    let calls = parse_and_summarize_http(src);
    assert_eq!(calls.len(), 2);

    let func_a_call = calls
        .iter()
        .find(|c| c.function_name == Some(b"func_a".to_vec()))
        .unwrap();
    let func_b_call = calls
        .iter()
        .find(|c| c.function_name == Some(b"func_b".to_vec()))
        .unwrap();

    assert!(matches!(func_a_call.client_kind, HttpClientKind::Reqwest));
    assert!(matches!(func_b_call.client_kind, HttpClientKind::Ureq));
}

#[test]
fn handles_empty_file() {
    let calls = parse_and_summarize_http("");
    assert!(calls.is_empty());
}

#[test]
fn ignores_non_http_calls() {
    let calls = parse_and_summarize_http("println!(\"hello\")");
    assert!(calls.is_empty());
}

#[test]
fn handles_class_methods() {
    let src = r#"
struct ApiClient {
    client: reqwest::Client,
}

impl ApiClient {
    async fn fetch(&self) -> Result<String, reqwest::Error> {
        self.client.get("https://example.com").await?.text().await
    }
}
"#;
    let calls = parse_and_summarize_http(src);
    assert_eq!(calls.len(), 1);
    assert_eq!(calls[0].function_name, Some(b"fetch".to_vec()));
    assert!(calls[0].in_async_function);
}

#[test]
fn handles_real_world_reqwest_client() {
    let src = r#"
use reqwest;

async fn fetch_user(user_id: u64) -> Result<User, reqwest::Error> {
    let client = reqwest::Client::new();
    let response = client
        .get(&format!("https://api.example.com/users/{}", user_id))
        .header("Authorization", format!("Bearer {}", token))
        .timeout(Duration::from_secs(10))
        .send()
        .await?;
    response.json().await
}
"#;
    let calls = parse_and_summarize_http(src);
    assert_eq!(calls.len(), 1);
    assert!(matches!(calls[0].client_kind, HttpClientKind::Reqwest));
    assert_eq!(calls[0].method_name, b"get".to_vec());
    assert!(calls[0].has_timeout);
    assert_eq!(calls[0].timeout_millis, Some(10_000));
}

#[test]
fn handles_ureq_sync_client() {
    let src = r#"
fn fetch_sync() -> Result<String, ureq::Error> {
    let response = ureq::get("https://api.example.com/data")
        .set("Authorization", &format!("Bearer {}", token))
        .call()?;
    response.into_string().map_err(|e| ureq::Error::from(e))
}
"#;
    let calls = parse_and_summarize_http(src);
    assert_eq!(calls.len(), 1);
    assert!(matches!(calls[0].client_kind, HttpClientKind::Ureq));
    assert!(!calls[0].in_async_function);
    assert!(!calls[0].has_await);
}
