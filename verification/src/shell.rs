//! The shell's state and the settings dialog's edit/commit/cancel
//! state machine.
//!
//! `napkin_settings` is the committed, authoritative configuration;
//! `napkin_temp_settings` is the draft buffer the dialog edits. The draft
//! is a copy of the committed value taken when the dialog opens; only an
//! explicit Save replaces the committed value, and any other way of
//! closing the dialog discards the draft by copying the committed value
//! back over it.

use vstd::prelude::*;

use crate::settings::{
    default_settings_view, NapkinSettings, SettingsView, Theme,
};

verus! {

/// The shell's whole mutable state: the persisted flags and both copies
/// of the connection settings.
#[derive(Debug)]
pub struct AtlasApp {
    pub label: String,
    pub theme: Theme,
    pub side_panel_open: bool,
    pub settings_window_open: bool,
    /// The last saved, authoritative configuration.
    pub napkin_settings: NapkinSettings,
    /// The in-progress edit buffer shown in the dialog.
    pub napkin_temp_settings: NapkinSettings,
}

/// Mathematical model of the shell state.
#[verifier::ext_equal]
pub struct AppView {
    pub label: Seq<char>,
    pub theme: Theme,
    pub side_panel_open: bool,
    pub settings_window_open: bool,
    pub committed: SettingsView,
    pub draft: SettingsView,
}

impl View for AtlasApp {
    type V = AppView;

    open spec fn view(&self) -> AppView {
        AppView {
            label: self.label@,
            theme: self.theme,
            side_panel_open: self.side_panel_open,
            settings_window_open: self.settings_window_open,
            committed: self.napkin_settings@,
            draft: self.napkin_temp_settings@,
        }
    }
}

/// The documented default state: dark theme, side panel open, dialog
/// closed, default configuration in both the committed slot and the draft.
pub open spec fn default_app_view() -> AppView {
    AppView {
        label: "Hello World!"@,
        theme: Theme::Dark,
        side_panel_open: true,
        settings_window_open: false,
        committed: default_settings_view(),
        draft: default_settings_view(),
    }
}

/// The other theme: Dark for Light and Light for Dark.
pub open spec fn flipped_theme(t: Theme) -> Theme {
    match t {
        Theme::Light => Theme::Dark,
        Theme::Dark => Theme::Light,
    }
}

/// Opening the dialog: the window flag is raised and the draft becomes a
/// copy of the committed configuration, whatever the draft held before.
pub open spec fn open_settings_spec(s: AppView) -> AppView {
    AppView { settings_window_open: true, draft: s.committed, ..s }
}

/// Save: the committed configuration becomes the draft, as one whole value.
pub open spec fn save_settings_spec(s: AppView) -> AppView {
    AppView { committed: s.draft, ..s }
}

/// Cancel: the draft is reset to the committed configuration.
pub open spec fn revert_settings_spec(s: AppView) -> AppView {
    AppView { draft: s.committed, ..s }
}

/// Closing the dialog. Saving replaces the committed value with the
/// draft; plain closing discards the draft. Either way the window flag
/// drops.
pub open spec fn close_settings_spec(s: AppView, save: bool) -> AppView {
    if save {
        AppView { settings_window_open: false, ..save_settings_spec(s) }
    } else {
        AppView { settings_window_open: false, ..revert_settings_spec(s) }
    }
}

/// Replacing the draft wholesale, as a frame of dialog edits does.
pub open spec fn set_draft_spec(s: AppView, d: SettingsView) -> AppView {
    AppView { draft: d, ..s }
}

/// Toggling the theme button.
pub open spec fn toggle_theme_spec(s: AppView) -> AppView {
    AppView { theme: flipped_theme(s.theme), ..s }
}

/// Toggling the side panel, by its button or its keyboard shortcut.
pub open spec fn toggle_side_panel_spec(s: AppView) -> AppView {
    AppView { side_panel_open: !s.side_panel_open, ..s }
}

impl Default for AtlasApp {
    /// The state used when nothing was loaded.
    fn default() -> (r: Self)
        ensures
            r@ == default_app_view(),
    {
        Self {
            label: "Hello World!".to_owned(),
            theme: Theme::Dark,
            side_panel_open: true,
            settings_window_open: false,
            napkin_settings: NapkinSettings::default(),
            napkin_temp_settings: NapkinSettings::default(),
        }
    }
}

impl AtlasApp {
    /// Open the settings dialog. The draft always starts as a copy of the
    /// committed configuration, regardless of prior stale draft contents.
    pub fn open_settings(&mut self)
        ensures
            final(self)@ == open_settings_spec(old(self)@),
    {
        self.settings_window_open = true;
        self.napkin_temp_settings = self.napkin_settings.clone();
    }

    /// Commit the draft: the committed configuration is replaced by the
    /// draft atomically, as one struct.
    pub fn save_settings(&mut self)
        ensures
            final(self)@ == save_settings_spec(old(self)@),
    {
        self.napkin_settings = self.napkin_temp_settings.clone();
    }

    /// Discard the draft: it is reset to the committed configuration, so
    /// the next open shows the committed values.
    pub fn revert_settings(&mut self)
        ensures
            final(self)@ == revert_settings_spec(old(self)@),
    {
        self.napkin_temp_settings = self.napkin_settings.clone();
    }

    /// Close the dialog, saving the draft when `save` is set and
    /// discarding it otherwise.
    pub fn close_settings(&mut self, save: bool)
        ensures
            final(self)@ == close_settings_spec(old(self)@, save),
    {
        self.settings_window_open = false;
        if save {
            self.save_settings();
        } else {
            self.revert_settings();
        }
    }

    /// Replace the whole draft, as one frame of dialog edits does.
    /// The committed configuration is untouched.
    pub fn set_draft(&mut self, d: NapkinSettings)
        ensures
            final(self)@ == set_draft_spec(old(self)@, d@),
    {
        self.napkin_temp_settings = d;
    }

    /// Apply one frame of edits reported by the dialog's text fields:
    /// each field that the widget layer reports replaces the matching
    /// draft field; an absent report leaves that field alone.
    pub fn edit_draft(
        &mut self,
        model: Option<String>,
        host: Option<String>,
        port: Option<String>,
    )
        ensures
            final(self)@ == set_draft_spec(
                old(self)@,
                edited_draft(old(self)@.draft, view_opt(model), view_opt(host), view_opt(port)),
            ),
    {
        if let Some(m) = model {
            self.napkin_temp_settings.model = m;
        }
        if let Some(h) = host {
            self.napkin_temp_settings.service.host = h;
        }
        if let Some(p) = port {
            self.napkin_temp_settings.service.port = p;
        }
    }

    /// Switch the theme to the other one: Dark to Light or Light to Dark.
    /// There is no third state to reach.
    pub fn toggle_theme(&mut self)
        ensures
            final(self)@ == toggle_theme_spec(old(self)@),
    {
        self.theme = match self.theme {
            Theme::Light => Theme::Dark,
            Theme::Dark => Theme::Light,
        };
    }

    /// Flip the side panel's visibility. Nothing else changes: the dialog
    /// state and both configurations are untouched, so the shortcut works
    /// the same whether the dialog is open or closed.
    pub fn toggle_side_panel(&mut self)
        ensures
            final(self)@ == toggle_side_panel_spec(old(self)@),
    {
        self.side_panel_open = !self.side_panel_open;
    }

    /// The committed host and port, for the central panel's readout.
    /// It reflects the committed configuration, never the draft.
    pub fn central_panel_readout(&self) -> (r: (String, String))
        ensures
            r.0@ == self@.committed.service.host,
            r.1@ == self@.committed.service.port,
    {
        (self.napkin_settings.service.host.clone(), self.napkin_settings.service.port.clone())
    }
}

/// The draft after one frame of edits: each reported field replaces the
/// old one, an absent report keeps it.
pub open spec fn edited_draft(
    d: SettingsView,
    model: Option<Seq<char>>,
    host: Option<Seq<char>>,
    port: Option<Seq<char>>,
) -> SettingsView {
    SettingsView {
        model: if model is Some { model->0 } else { d.model },
        service: crate::settings::ServiceView {
            host: if host is Some { host->0 } else { d.service.host },
            port: if port is Some { port->0 } else { d.service.port },
        },
    }
}

/// The view of an optional string.
pub open spec fn view_opt(s: Option<String>) -> Option<Seq<char>> {
    match s {
        Some(v) => Some(v@),
        None => None,
    }
}

/// Law: edits followed by Cancel leave the committed configuration
/// unchanged, and leave the draft reset to that configuration, which is
/// also what the next open shows.
pub proof fn lemma_cancel_discards_edits(s: AppView, d: SettingsView)
    ensures
        close_settings_spec(set_draft_spec(s, d), false).committed == s.committed,
        close_settings_spec(set_draft_spec(s, d), false).draft == s.committed,
        open_settings_spec(close_settings_spec(set_draft_spec(s, d), false)).draft == s.committed,
{
}

/// Law: edits followed by Save replace the committed configuration with
/// exactly the edited draft, all fields at once, and the dialog closes.
pub proof fn lemma_save_commits_draft(s: AppView, d: SettingsView)
    ensures
        close_settings_spec(set_draft_spec(s, d), true).committed == d,
        close_settings_spec(set_draft_spec(s, d), true).settings_window_open == false,
{
}

/// Law: toggling the theme maps Dark to Light and Light to Dark, and a
/// second toggle restores the first theme: the toggle never leaves these
/// two states.
pub proof fn lemma_theme_two_state(t: Theme)
    ensures
        flipped_theme(Theme::Dark) == Theme::Light,
        flipped_theme(Theme::Light) == Theme::Dark,
        flipped_theme(flipped_theme(t)) == t,
{
}

/// Law: toggling the side panel flips only the panel flag; the dialog
/// flag, the theme and both configurations are untouched, so panel state
/// and dialog state do not interfere.
pub proof fn lemma_panel_toggle_independent(s: AppView)
    ensures
        toggle_side_panel_spec(s).side_panel_open == !s.side_panel_open,
        toggle_side_panel_spec(s).settings_window_open == s.settings_window_open,
        toggle_side_panel_spec(s).theme == s.theme,
        toggle_side_panel_spec(s).committed == s.committed,
        toggle_side_panel_spec(s).draft == s.draft,
{
}

} // verus!
