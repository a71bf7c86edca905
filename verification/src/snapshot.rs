//! The persisted snapshot lifecycle: what is written at shutdown, what is
//! read at startup, and the merge-with-defaults rule that makes old
//! snapshots forward compatible.
//!
//! The host's storage hands back raw fields, each possibly missing; the
//! merge fills every missing field with its documented default. A missing
//! or unreadable snapshot as a whole yields the full default state, so
//! loading never fails the caller.

use vstd::prelude::*;

use crate::settings::{NapkinSettings, SettingsView, Theme};
use crate::shell::{default_app_view, AppView, AtlasApp};

verus! {

/// The raw fields of a deserialized snapshot. A field an old snapshot did
/// not carry arrives as `None` and takes its default in the merge.
#[derive(Debug)]
pub struct SnapshotFields {
    pub label: Option<String>,
    pub theme: Option<Theme>,
    pub side_panel_open: Option<bool>,
    pub settings_window_open: Option<bool>,
    pub napkin_settings: Option<NapkinSettings>,
    pub napkin_temp_settings: Option<NapkinSettings>,
}

/// Mathematical model of a raw snapshot.
#[verifier::ext_equal]
pub struct SnapshotView {
    pub label: Option<Seq<char>>,
    pub theme: Option<Theme>,
    pub side_panel_open: Option<bool>,
    pub settings_window_open: Option<bool>,
    pub committed: Option<SettingsView>,
    pub draft: Option<SettingsView>,
}

impl View for SnapshotFields {
    type V = SnapshotView;

    open spec fn view(&self) -> SnapshotView {
        SnapshotView {
            label: match self.label {
                Some(ref l) => Some(l@),
                None => None,
            },
            theme: self.theme,
            side_panel_open: self.side_panel_open,
            settings_window_open: self.settings_window_open,
            committed: match self.napkin_settings {
                Some(ref s) => Some(s@),
                None => None,
            },
            draft: match self.napkin_temp_settings {
                Some(ref s) => Some(s@),
                None => None,
            },
        }
    }
}

/// The state a raw snapshot yields: each present field is taken as it is,
/// each missing field takes its documented default.
pub open spec fn merge_spec(p: SnapshotView) -> AppView {
    AppView {
        label: if p.label is Some { p.label->0 } else { default_app_view().label },
        theme: if p.theme is Some { p.theme->0 } else { default_app_view().theme },
        side_panel_open: if p.side_panel_open is Some {
            p.side_panel_open->0
        } else {
            default_app_view().side_panel_open
        },
        settings_window_open: if p.settings_window_open is Some {
            p.settings_window_open->0
        } else {
            default_app_view().settings_window_open
        },
        committed: if p.committed is Some { p.committed->0 } else { default_app_view().committed },
        draft: if p.draft is Some { p.draft->0 } else { default_app_view().draft },
    }
}

/// The snapshot a state writes: every field present, field for field.
pub open spec fn snapshot_spec(s: AppView) -> SnapshotView {
    SnapshotView {
        label: Some(s.label),
        theme: Some(s.theme),
        side_panel_open: Some(s.side_panel_open),
        settings_window_open: Some(s.settings_window_open),
        committed: Some(s.committed),
        draft: Some(s.draft),
    }
}

/// Fill every missing field of a raw snapshot with its documented
/// default. This is the one step between raw deserialization and a usable
/// state.
pub fn merge_with_defaults(parts: SnapshotFields) -> (r: AtlasApp)
    ensures
        r@ == merge_spec(parts@),
{
    let defaults = AtlasApp::default();
    AtlasApp {
        label: match parts.label {
            Some(l) => l,
            None => defaults.label,
        },
        theme: match parts.theme {
            Some(t) => t,
            None => defaults.theme,
        },
        side_panel_open: match parts.side_panel_open {
            Some(b) => b,
            None => defaults.side_panel_open,
        },
        settings_window_open: match parts.settings_window_open {
            Some(b) => b,
            None => defaults.settings_window_open,
        },
        napkin_settings: match parts.napkin_settings {
            Some(s) => s,
            None => defaults.napkin_settings,
        },
        napkin_temp_settings: match parts.napkin_temp_settings {
            Some(s) => s,
            None => defaults.napkin_temp_settings,
        },
    }
}

/// Build the state from what storage offered: a missing or unreadable
/// snapshot yields the full default state; a present one is merged with
/// the defaults field by field. Loading never fails.
pub fn load(snapshot: Option<SnapshotFields>) -> (r: AtlasApp)
    ensures
        snapshot is None ==> r@ == default_app_view(),
        snapshot is Some ==> r@ == merge_spec(snapshot->0@),
{
    match snapshot {
        Some(parts) => merge_with_defaults(parts),
        None => AtlasApp::default(),
    }
}

impl AtlasApp {
    /// The snapshot written at shutdown: every field of the state, each
    /// wrapped as present.
    pub fn to_snapshot(&self) -> (r: SnapshotFields)
        ensures
            r@ == snapshot_spec(self@),
    {
        SnapshotFields {
            label: Some(self.label.clone()),
            theme: Some(self.theme),
            side_panel_open: Some(self.side_panel_open),
            settings_window_open: Some(self.settings_window_open),
            napkin_settings: Some(self.napkin_settings.clone()),
            napkin_temp_settings: Some(self.napkin_temp_settings.clone()),
        }
    }
}

/// Law: a snapshot written from a state and loaded again with nothing in
/// between reproduces that state exactly, field for field.
pub proof fn lemma_snapshot_round_trip(s: AppView)
    ensures
        merge_spec(snapshot_spec(s)) == s,
{
}

} // verus!
