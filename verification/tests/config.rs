use joblode::config::{embed_settings, parse_mode, rank_settings, Mode};
use joblode::embed;

#[test]
fn parses_known_modes_and_defaults_to_stdio() {
    assert_eq!(parse_mode(None).ok(), Some(Mode::Stdio));
    assert_eq!(parse_mode(Some("stdio")).ok(), Some(Mode::Stdio));
    assert_eq!(parse_mode(Some("http")).ok(), Some(Mode::Http));
    assert_eq!(parse_mode(Some("build-sidecar")).ok(), Some(Mode::BuildSidecar));
}

#[test]
fn rejects_an_unknown_command_by_name() {
    let error = parse_mode(Some("carrier-pigeon")).err().expect("unknown command");
    assert_eq!(
        error,
        "unknown command 'carrier-pigeon' (use 'stdio', 'http', or 'build-sidecar')"
    );
    assert!(parse_mode(Some("HTTP")).is_err());
}

#[test]
fn ranking_needs_the_gemini_provider_and_a_key() {
    assert!(rank_settings("", Some("k".into()), "", None, None).is_none());
    assert!(rank_settings("openai", Some("k".into()), "", None, None).is_none());
    assert!(rank_settings("gemini", None, "", None, None).is_none());
    assert!(rank_settings("gemini", Some(String::new()), "", None, None).is_none());

    let settings = rank_settings("GeMiNi", Some("key".into()), "http://h/", None, Some("p".into()))
        .expect("configured");
    assert_eq!(settings.api_key, "key");
    assert_eq!(settings.base_url, "http://h");
    assert_eq!(settings.match_model, "gemini-2.5-flash");
    assert_eq!(settings.pair_model, "p");
}

#[test]
fn embeddings_need_the_openai_provider_and_a_key() {
    assert!(embed_settings("gemini", Some("k".into()), "", String::new()).is_none());
    assert!(embed_settings("OpenAI", None, "", String::new()).is_none());

    let settings = embed_settings("OpenAI", Some("k".into()), " ", " ".into()).expect("configured");
    assert_eq!(settings.base_url, embed::DEFAULT_BASE_URL);
    assert_eq!(settings.model, embed::DEFAULT_MODEL);

    let custom = embed_settings("openai", Some("k".into()), "http://e/v1/", "m".into()).unwrap();
    assert_eq!(custom.base_url, "http://e/v1");
    assert_eq!(custom.model, "m");
}

#[test]
fn embed_model_keeps_a_configured_name() {
    assert_eq!(embed::model("text-embedding-3-large".into()), "text-embedding-3-large");
    assert_eq!(embed::model(String::new()), "text-embedding-3-small");
    assert_eq!(embed::base_url(""), "https://api.openai.com/v1");
}
