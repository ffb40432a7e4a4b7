use voice_to_text::coordinator::Settings;
use voice_to_text::paths::{
    default_model_dir, default_model_path, join_path, model_dir_under, model_path_under,
};

#[test]
fn join_adds_separator_once() {
    assert_eq!(join_path("/data", "models"), "/data/models");
    assert_eq!(join_path("/data/", "models"), "/data/models");
    assert_eq!(join_path("", "models"), "models");
}

#[test]
fn model_locations_under_data_dir() {
    assert_eq!(
        model_dir_under(Some("/home/u/.local/share")),
        "/home/u/.local/share/voice-to-text/models"
    );
    assert_eq!(
        model_path_under(Some("/home/u/.local/share")),
        "/home/u/.local/share/voice-to-text/models/ggml-large-v3-turbo.bin"
    );
    assert_eq!(model_path_under(None), "./voice-to-text/models/ggml-large-v3-turbo.bin");
}

#[test]
fn default_locations_agree() {
    let dir = default_model_dir();
    let path = default_model_path();
    assert!(dir.ends_with("voice-to-text/models"));
    assert_eq!(path, format!("{dir}/ggml-large-v3-turbo.bin"));
}

#[test]
fn default_settings() {
    let s = Settings::default();
    assert_eq!(s.language, "pl");
    assert_eq!(s.model_path, default_model_path());
}
