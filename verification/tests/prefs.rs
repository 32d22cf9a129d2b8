use supervisor_core::lifecycle::AppState;
use supervisor_core::prefs::AppPreferences;
use supervisor_core::prefs::encode_preferences;
use supervisor_core::prefs::load_preferences;
use supervisor_core::prefs::parse_preferences;

#[test]
fn default_preferences() {
    let p = AppPreferences::default();
    assert!(p.auto_start_ollama);
    assert!(p.keep_ollama_running_on_exit);
    assert_eq!(p.backend_port, 8080);
}

#[test]
fn encode_writes_the_exact_document() {
    let p = AppPreferences {
        auto_start_ollama: false,
        keep_ollama_running_on_exit: false,
        backend_port: 9090,
    };
    assert_eq!(
        encode_preferences(&p),
        "{\"auto_start_ollama\":false,\"keep_ollama_running_on_exit\":false,\"backend_port\":9090}"
    );
}

#[test]
fn preferences_round_trip() {
    let p = AppPreferences {
        auto_start_ollama: false,
        keep_ollama_running_on_exit: false,
        backend_port: 9090,
    };
    let doc = encode_preferences(&p);
    assert_eq!(parse_preferences(&doc), Some(p));
}

#[test]
fn preferences_round_trip_edge_ports() {
    for port in [1u16, 9, 10, 80, 8080, 65535] {
        let p = AppPreferences {
            auto_start_ollama: true,
            keep_ollama_running_on_exit: false,
            backend_port: port,
        };
        let doc = encode_preferences(&p);
        assert_eq!(parse_preferences(&doc), Some(p));
    }
}

#[test]
fn parse_rejects_bad_documents() {
    // Not the document shape at all.
    assert_eq!(parse_preferences(""), None);
    assert_eq!(parse_preferences("{}"), None);
    assert_eq!(parse_preferences("not json"), None);
    // Port outside the valid range.
    assert_eq!(
        parse_preferences(
            "{\"auto_start_ollama\":true,\"keep_ollama_running_on_exit\":true,\"backend_port\":0}"
        ),
        None
    );
    assert_eq!(
        parse_preferences(
            "{\"auto_start_ollama\":true,\"keep_ollama_running_on_exit\":true,\"backend_port\":65536}"
        ),
        None
    );
    // Non-canonical digits.
    assert_eq!(
        parse_preferences(
            "{\"auto_start_ollama\":true,\"keep_ollama_running_on_exit\":true,\"backend_port\":08080}"
        ),
        None
    );
    // Trailing text.
    assert_eq!(
        parse_preferences(
            "{\"auto_start_ollama\":true,\"keep_ollama_running_on_exit\":true,\"backend_port\":8080} "
        ),
        None
    );
    // Not a boolean.
    assert_eq!(
        parse_preferences(
            "{\"auto_start_ollama\":1,\"keep_ollama_running_on_exit\":true,\"backend_port\":8080}"
        ),
        None
    );
}

#[test]
fn load_preferences_falls_back_to_defaults() {
    // No file yet: the defaults.
    assert_eq!(load_preferences(None), AppPreferences::default());
    // A stored document comes back as its record.
    let p = AppPreferences {
        auto_start_ollama: false,
        keep_ollama_running_on_exit: true,
        backend_port: 3000,
    };
    let doc = encode_preferences(&p);
    assert_eq!(load_preferences(Some(&doc)), p);
    // Corrupt text falls back to the defaults rather than failing
    // startup.
    assert_eq!(
        load_preferences(Some("{\"auto_start_ollama\":")),
        AppPreferences::default()
    );
    assert_eq!(load_preferences(Some("")), AppPreferences::default());
}

#[test]
fn update_then_get_returns_the_same_record() {
    let mut state = AppState::new();
    let p = AppPreferences {
        auto_start_ollama: false,
        keep_ollama_running_on_exit: false,
        backend_port: 9090,
    };
    let doc = state.update_preferences(p);
    assert_eq!(state.get_preferences(), p);
    // A reload from the written-through document yields the same record,
    // as after a process restart.
    assert_eq!(parse_preferences(&doc), Some(p));
    assert_eq!(load_preferences(Some(&doc)), p);
}
