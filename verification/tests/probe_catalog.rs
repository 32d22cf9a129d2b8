use supervisor_core::catalog::check_ollama_model;
use supervisor_core::catalog::model_check_verdict;
use supervisor_core::catalog::model_in_catalog;
use supervisor_core::probe::backend_health_url;
use supervisor_core::probe::backend_needs_fallback;
use supervisor_core::probe::backend_root_url;
use supervisor_core::probe::check_backend_health;
use supervisor_core::probe::check_ollama_running;
use supervisor_core::probe::ollama_tags_url;
use supervisor_core::probe::ProbeOutcome;

#[test]
fn probe_errors_are_false_not_faults() {
    // Connection refused, timeout, any transport error: no response.
    assert!(!check_ollama_running(&ProbeOutcome::NoResponse));
    // A failure status is not alive either.
    assert!(!check_ollama_running(&ProbeOutcome::Response(500)));
    assert!(!check_ollama_running(&ProbeOutcome::Response(404)));
    // Success statuses are alive.
    assert!(check_ollama_running(&ProbeOutcome::Response(200)));
    assert!(check_ollama_running(&ProbeOutcome::Response(299)));
    assert!(!check_ollama_running(&ProbeOutcome::Response(300)));
    assert!(!check_ollama_running(&ProbeOutcome::Response(199)));
}

#[test]
fn backend_health_falls_back_unless_primary_succeeds() {
    // A success on the health path is final; anything else tries the
    // root path too.
    assert!(!backend_needs_fallback(&ProbeOutcome::Response(200)));
    assert!(backend_needs_fallback(&ProbeOutcome::Response(503)));
    assert!(backend_needs_fallback(&ProbeOutcome::Response(404)));
    assert!(backend_needs_fallback(&ProbeOutcome::NoResponse));
    // Either path succeeding counts as alive: a health path that fails
    // before it is implemented is rescued by a serving root path.
    assert!(check_backend_health(&ProbeOutcome::Response(200), &ProbeOutcome::NoResponse));
    assert!(check_backend_health(&ProbeOutcome::Response(404), &ProbeOutcome::Response(200)));
    assert!(check_backend_health(&ProbeOutcome::NoResponse, &ProbeOutcome::Response(200)));
    // Neither path succeeded: false, not an error.
    assert!(!check_backend_health(&ProbeOutcome::Response(404), &ProbeOutcome::Response(500)));
    assert!(!check_backend_health(&ProbeOutcome::NoResponse, &ProbeOutcome::NoResponse));
}

#[test]
fn endpoint_urls() {
    assert_eq!(ollama_tags_url(), "http://127.0.0.1:11434/api/tags");
    assert_eq!(backend_health_url(8080), "http://127.0.0.1:8080/health");
    assert_eq!(backend_root_url(8080), "http://127.0.0.1:8080/");
    assert_eq!(backend_health_url(1), "http://127.0.0.1:1/health");
    assert_eq!(backend_health_url(65535), "http://127.0.0.1:65535/health");
}

#[test]
fn model_present_on_base_name_prefix() {
    let body = "{\"models\":[{\"name\":\"llama3:8b\"}]}";
    assert!(check_ollama_model(&ProbeOutcome::Response(200), body, "llama3"));
    assert!(!check_ollama_model(&ProbeOutcome::Response(200), body, "mistral"));
}

#[test]
fn model_absent_in_empty_catalog() {
    let body = "{\"models\":[]}";
    assert!(!check_ollama_model(&ProbeOutcome::Response(200), body, "llama3"));
    assert!(!check_ollama_model(&ProbeOutcome::Response(200), body, ""));
}

#[test]
fn model_check_is_false_on_errors() {
    let body = "{\"models\":[{\"name\":\"llama3:8b\"}]}";
    // A dead endpoint is false, whatever the body.
    assert!(!check_ollama_model(&ProbeOutcome::NoResponse, body, "llama3"));
    assert!(!check_ollama_model(&ProbeOutcome::Response(500), body, "llama3"));
    // A malformed document is false, not a fault.
    assert!(!check_ollama_model(&ProbeOutcome::Response(200), "{not json", "llama3"));
    assert!(!check_ollama_model(&ProbeOutcome::Response(200), "", "llama3"));
    // A document without a models array holds no model.
    assert!(!check_ollama_model(&ProbeOutcome::Response(200), "{\"x\":1}", "llama3"));
}

#[test]
fn model_catalog_entries_without_names_are_passed_over() {
    let body = "{\"models\":[{\"size\":3},{\"name\":\"mistral:7b\"}]}";
    assert!(check_ollama_model(&ProbeOutcome::Response(200), body, "mistral"));
    assert!(!check_ollama_model(&ProbeOutcome::Response(200), body, "llama3"));
}

#[test]
fn model_in_catalog_prefix_rules() {
    let names = vec!["llama3:8b".to_string(), "phi".to_string()];
    assert!(model_in_catalog(&names, "llama3"));
    assert!(model_in_catalog(&names, "llama3:8b"));
    assert!(model_in_catalog(&names, "phi"));
    assert!(!model_in_catalog(&names, "llama3:8b-q4"));
    assert!(!model_in_catalog(&names, "mistral"));
    // The empty query is a prefix of any listed name.
    assert!(model_in_catalog(&names, ""));
    let none: Vec<String> = Vec::new();
    assert!(!model_in_catalog(&none, ""));
}

#[test]
fn model_check_verdict_cases() {
    let names = vec!["llama3:8b".to_string()];
    assert!(model_check_verdict(true, Some(&names), "llama3"));
    assert!(!model_check_verdict(true, Some(&names), "gemma"));
    assert!(!model_check_verdict(false, Some(&names), "llama3"));
    assert!(!model_check_verdict(true, None, "llama3"));
}
