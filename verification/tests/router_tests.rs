use server_assistant::router::{
    health_response, info_fetch_url, localhost_authority, not_found_response, plan_augmentations,
    proxy_plan, route, InfoSection, RouteDecision, ServerInfoCache,
};

fn path(s: &str) -> Vec<u8> {
    s.as_bytes().to_vec()
}

#[test]
fn routes_the_known_paths() {
    assert_eq!(route(&path("/health")), RouteDecision::Health);
    assert_eq!(route(&path("/v1/info")), RouteDecision::Info);
    assert_eq!(route(&path("/v1/models")), RouteDecision::Proxy);
    assert_eq!(route(&path("/v1/chat/completions")), RouteDecision::Proxy);
    assert_eq!(route(&path("/v1/")), RouteDecision::Proxy);
}

#[test]
fn routes_everything_else_to_not_found() {
    assert_eq!(route(&path("/")), RouteDecision::NotFound);
    assert_eq!(route(&path("/healthz")), RouteDecision::NotFound);
    assert_eq!(route(&path("/v2/models")), RouteDecision::NotFound);
    assert_eq!(route(&path("/v1")), RouteDecision::NotFound);
    assert_eq!(route(&path("")), RouteDecision::NotFound);
}

#[test]
fn health_endpoint_answers_from_the_verdict_alone() {
    let ok = health_response(true);
    assert_eq!(ok.status, 200);
    assert_eq!(ok.body, "OK");
    assert!(ok.headers.is_empty());

    let bad = health_response(false);
    assert_eq!(bad.status, 503);
    assert_eq!(bad.body, "API server is not healthy");
    assert_eq!(bad.headers.len(), 3);
    assert_eq!(bad.headers[0].0, "Access-Control-Allow-Origin");
    assert_eq!(bad.headers[0].1, "*");
}

#[test]
fn unknown_endpoint_gets_cors_headers() {
    let r = not_found_response();
    assert_eq!(r.status, 404);
    assert_eq!(r.body, "Unknown endpoint");
    let names: Vec<&str> = r.headers.iter().map(|h| h.0.as_str()).collect();
    assert_eq!(
        names,
        vec![
            "Access-Control-Allow-Origin",
            "Access-Control-Allow-Methods",
            "Access-Control-Allow-Headers"
        ]
    );
    assert!(r.headers.iter().all(|h| h.1 == "*"));
}

#[test]
fn proxy_preserves_everything_but_the_authority() {
    let headers = vec![
        ("X-Custom".to_string(), "abc".to_string()),
        ("Authorization".to_string(), "Bearer t".to_string()),
    ];
    let p = proxy_plan(
        "GET".to_string(),
        path("/v1/models?limit=5"),
        headers.clone(),
        b"body bytes".to_vec(),
        "127.0.0.1:8080".to_string(),
    );
    assert_eq!(p.method, "GET");
    assert_eq!(p.authority, "127.0.0.1:8080");
    assert_eq!(p.path_and_query, path("/v1/models?limit=5"));
    assert_eq!(p.headers, headers);
    assert_eq!(p.body, b"body bytes".to_vec());
}

#[test]
fn info_cache_is_write_once() {
    let mut c = ServerInfoCache::new();
    assert!(!c.is_set());
    assert!(c.get().is_none());
    assert!(c.set_once("{\"a\":1}".to_string()));
    assert!(c.is_set());
    assert_eq!(c.get(), Some("{\"a\":1}".to_string()));
    assert!(!c.set_once("{\"a\":2}".to_string()));
    assert_eq!(c.get(), Some("{\"a\":1}".to_string()));
}

#[test]
fn augmentation_plan_for_a_rag_backend() {
    let steps = plan_augmentations(
        &"rag".to_string(),
        &"be helpful".to_string(),
        &"use the context".to_string(),
        &"abc123".to_string(),
        &"def456".to_string(),
    );
    assert_eq!(steps.len(), 4);
    assert_eq!(steps[0].section, InfoSection::Root);
    assert_eq!(steps[0].key, "rag_prompt");
    assert_eq!(steps[0].value, "use the context");
    assert_eq!(steps[1].section, InfoSection::Extras);
    assert_eq!(steps[1].key, "system_prompt");
    assert_eq!(steps[1].value, "be helpful");
    assert_eq!(steps[2].section, InfoSection::ChatModel);
    assert_eq!(steps[2].key, "sha256");
    assert_eq!(steps[2].value, "abc123");
    assert_eq!(steps[3].section, InfoSection::EmbeddingModel);
    assert_eq!(steps[3].key, "sha256");
    assert_eq!(steps[3].value, "def456");
}

#[test]
fn augmentation_plan_without_rag_or_digests() {
    let steps = plan_augmentations(
        &"chat".to_string(),
        &"be helpful".to_string(),
        &"unused".to_string(),
        &"".to_string(),
        &"".to_string(),
    );
    assert_eq!(steps.len(), 1);
    assert_eq!(steps[0].section, InfoSection::Extras);
    assert_eq!(steps[0].key, "system_prompt");
    assert_eq!(steps[0].value, "be helpful");
}

#[test]
fn wildcard_listen_address_is_rewritten_to_localhost() {
    assert_eq!(
        localhost_authority(&b"0.0.0.0:8080".to_vec()),
        b"localhost:8080".to_vec()
    );
    assert_eq!(
        localhost_authority(&b"127.0.0.1:8080".to_vec()),
        b"127.0.0.1:8080".to_vec()
    );
    assert_eq!(localhost_authority(&b"0.0.0.0".to_vec()), b"localhost".to_vec());
}

#[test]
fn info_fetch_url_is_exact() {
    assert_eq!(
        info_fetch_url(&b"0.0.0.0:8080".to_vec()),
        b"http://localhost:8080/v1/info".to_vec()
    );
    assert_eq!(
        info_fetch_url(&b"10.0.0.7:9000".to_vec()),
        b"http://10.0.0.7:9000/v1/info".to_vec()
    );
}
