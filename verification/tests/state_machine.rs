use atlas::settings::{NapkinService, NapkinSettings, Theme};
use atlas::shell::AtlasApp;
use atlas::snapshot::load;

fn settings(model: &str, host: &str, port: &str) -> NapkinSettings {
    NapkinSettings {
        model: model.to_owned(),
        service: NapkinService { host: host.to_owned(), port: port.to_owned() },
    }
}

#[test]
fn default_settings_are_documented() {
    let s = NapkinSettings::default();
    assert_eq!(s.model, "mistral");
    assert_eq!(s.service.host, "localhost");
    assert_eq!(s.service.port, "11434");
}

#[test]
fn load_absent_snapshot_yields_defaults() {
    let a = load(None);
    assert!(matches!(a.theme, Theme::Dark));
    assert!(a.side_panel_open);
    assert!(!a.settings_window_open);
    assert_eq!(a.label, "Hello World!");
    assert_eq!(a.napkin_settings.model, "mistral");
    assert_eq!(a.napkin_settings.service.host, "localhost");
    assert_eq!(a.napkin_settings.service.port, "11434");
    assert_eq!(a.napkin_temp_settings.model, "mistral");
}

#[test]
fn open_initializes_draft_from_committed() {
    let mut a = AtlasApp::default();
    a.napkin_settings = settings("llama", "example.org", "8080");
    a.napkin_temp_settings = settings("stale", "stale-host", "1");
    a.open_settings();
    assert!(a.settings_window_open);
    assert_eq!(a.napkin_temp_settings.model, "llama");
    assert_eq!(a.napkin_temp_settings.service.host, "example.org");
    assert_eq!(a.napkin_temp_settings.service.port, "8080");
}

#[test]
fn cancel_leaves_committed_and_resets_draft() {
    let mut a = AtlasApp::default();
    a.open_settings();
    a.set_draft(settings("edited", "edited-host", "9999"));
    a.close_settings(false);
    assert!(!a.settings_window_open);
    assert_eq!(a.napkin_settings.model, "mistral");
    assert_eq!(a.napkin_settings.service.host, "localhost");
    assert_eq!(a.napkin_settings.service.port, "11434");
    a.open_settings();
    assert_eq!(a.napkin_temp_settings.model, "mistral");
    assert_eq!(a.napkin_temp_settings.service.host, "localhost");
    assert_eq!(a.napkin_temp_settings.service.port, "11434");
}

#[test]
fn save_replaces_committed_atomically() {
    let mut a = AtlasApp::default();
    a.open_settings();
    a.set_draft(settings("phi", "10.0.0.2", "4242"));
    a.close_settings(true);
    assert!(!a.settings_window_open);
    assert_eq!(a.napkin_settings.model, "phi");
    assert_eq!(a.napkin_settings.service.host, "10.0.0.2");
    assert_eq!(a.napkin_settings.service.port, "4242");
    let (host, port) = a.central_panel_readout();
    assert_eq!(host, "10.0.0.2");
    assert_eq!(port, "4242");
}

#[test]
fn readout_shows_committed_never_draft() {
    let mut a = AtlasApp::default();
    a.open_settings();
    a.edit_draft(None, Some("draft-host".to_owned()), Some("1".to_owned()));
    let (host, port) = a.central_panel_readout();
    assert_eq!(host, "localhost");
    assert_eq!(port, "11434");
}

#[test]
fn theme_toggle_two_state() {
    let mut a = AtlasApp::default();
    assert!(matches!(a.theme, Theme::Dark));
    a.toggle_theme();
    assert!(matches!(a.theme, Theme::Light));
    a.toggle_theme();
    assert!(matches!(a.theme, Theme::Dark));
}

#[test]
fn panel_toggle_touches_nothing_else() {
    let mut a = AtlasApp::default();
    a.open_settings();
    a.toggle_side_panel();
    assert!(!a.side_panel_open);
    assert!(a.settings_window_open);
    assert_eq!(a.napkin_settings.model, "mistral");
    a.toggle_side_panel();
    assert!(a.side_panel_open);
}

#[test]
fn edit_draft_applies_only_reported_fields() {
    let mut a = AtlasApp::default();
    a.edit_draft(Some("gemma".to_owned()), None, Some("7777".to_owned()));
    assert_eq!(a.napkin_temp_settings.model, "gemma");
    assert_eq!(a.napkin_temp_settings.service.host, "localhost");
    assert_eq!(a.napkin_temp_settings.service.port, "7777");
    assert_eq!(a.napkin_settings.model, "mistral");
}
