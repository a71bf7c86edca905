use atlas::settings::{NapkinService, NapkinSettings, Theme};
use atlas::shell::AtlasApp;
use atlas::snapshot::{load, merge_with_defaults, SnapshotFields};

fn settings(model: &str, host: &str, port: &str) -> NapkinSettings {
    NapkinSettings {
        model: model.to_owned(),
        service: NapkinService { host: host.to_owned(), port: port.to_owned() },
    }
}

fn assert_states_equal(a: &AtlasApp, b: &AtlasApp) {
    assert_eq!(a.label, b.label);
    assert!(matches!(
        (&a.theme, &b.theme),
        (Theme::Dark, Theme::Dark) | (Theme::Light, Theme::Light)
    ));
    assert_eq!(a.side_panel_open, b.side_panel_open);
    assert_eq!(a.settings_window_open, b.settings_window_open);
    assert_eq!(a.napkin_settings.model, b.napkin_settings.model);
    assert_eq!(a.napkin_settings.service.host, b.napkin_settings.service.host);
    assert_eq!(a.napkin_settings.service.port, b.napkin_settings.service.port);
    assert_eq!(a.napkin_temp_settings.model, b.napkin_temp_settings.model);
    assert_eq!(a.napkin_temp_settings.service.host, b.napkin_temp_settings.service.host);
    assert_eq!(a.napkin_temp_settings.service.port, b.napkin_temp_settings.service.port);
}

#[test]
fn round_trip_reproduces_the_state() {
    let mut a = AtlasApp::default();
    a.toggle_theme();
    a.toggle_side_panel();
    a.open_settings();
    a.set_draft(settings("phi", "192.168.0.9", "4000"));
    a.close_settings(true);
    let reloaded = load(Some(a.to_snapshot()));
    assert_states_equal(&a, &reloaded);
}

#[test]
fn round_trip_of_the_default_state() {
    let a = AtlasApp::default();
    let reloaded = load(Some(a.to_snapshot()));
    assert_states_equal(&a, &reloaded);
}

#[test]
fn missing_fields_take_their_defaults() {
    let merged = merge_with_defaults(SnapshotFields {
        label: None,
        theme: Some(Theme::Light),
        side_panel_open: Some(false),
        settings_window_open: None,
        napkin_settings: Some(settings("llama", "example.net", "443")),
        napkin_temp_settings: None,
    });
    assert_eq!(merged.label, "Hello World!");
    assert!(matches!(merged.theme, Theme::Light));
    assert!(!merged.side_panel_open);
    assert!(!merged.settings_window_open);
    assert_eq!(merged.napkin_settings.model, "llama");
    assert_eq!(merged.napkin_settings.service.host, "example.net");
    assert_eq!(merged.napkin_settings.service.port, "443");
    assert_eq!(merged.napkin_temp_settings.model, "mistral");
}

#[test]
fn empty_snapshot_merges_to_full_defaults() {
    let merged = merge_with_defaults(SnapshotFields {
        label: None,
        theme: None,
        side_panel_open: None,
        settings_window_open: None,
        napkin_settings: None,
        napkin_temp_settings: None,
    });
    assert_states_equal(&merged, &AtlasApp::default());
}

#[test]
fn present_fields_are_kept_exactly() {
    let loaded = load(Some(SnapshotFields {
        label: Some("kept".to_owned()),
        theme: Some(Theme::Light),
        side_panel_open: Some(false),
        settings_window_open: Some(true),
        napkin_settings: Some(settings("a", "b", "c")),
        napkin_temp_settings: Some(settings("d", "e", "f")),
    }));
    assert_eq!(loaded.label, "kept");
    assert!(matches!(loaded.theme, Theme::Light));
    assert!(!loaded.side_panel_open);
    assert!(loaded.settings_window_open);
    assert_eq!(loaded.napkin_settings.model, "a");
    assert_eq!(loaded.napkin_temp_settings.service.port, "f");
}
