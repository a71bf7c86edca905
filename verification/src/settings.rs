//! Connection settings and the theme choice: the values the settings
//! dialog edits and the shell persists.

use vstd::prelude::*;

verus! {

/// Visual theme of the shell. A two-state toggle: there is no third theme.
#[derive(Clone, Copy, Debug, PartialEq, Eq, Structural)]
pub enum Theme {
    Light,
    Dark,
}

/// Address of the language-model service. The port is kept as an
/// uninterpreted string on purpose: no numeric validation is applied
/// anywhere, and none is promised.
#[derive(Debug)]
pub struct NapkinService {
    pub host: String,
    pub port: String,
}

/// The full connection configuration: a model name and a service address.
#[derive(Debug)]
pub struct NapkinSettings {
    pub model: String,
    pub service: NapkinService,
}

/// Mathematical model of a `NapkinService`.
#[verifier::ext_equal]
pub struct ServiceView {
    pub host: Seq<char>,
    pub port: Seq<char>,
}

/// Mathematical model of a `NapkinSettings`.
#[verifier::ext_equal]
pub struct SettingsView {
    pub model: Seq<char>,
    pub service: ServiceView,
}

impl View for NapkinService {
    type V = ServiceView;

    open spec fn view(&self) -> ServiceView {
        ServiceView { host: self.host@, port: self.port@ }
    }
}

impl View for NapkinSettings {
    type V = SettingsView;

    open spec fn view(&self) -> SettingsView {
        SettingsView { model: self.model@, service: self.service@ }
    }
}

/// The documented default service address: localhost:11434.
pub open spec fn default_service_view() -> ServiceView {
    ServiceView { host: "localhost"@, port: "11434"@ }
}

/// The documented default configuration: model "mistral" on the default
/// service address.
pub open spec fn default_settings_view() -> SettingsView {
    SettingsView { model: "mistral"@, service: default_service_view() }
}

impl Clone for NapkinService {
    fn clone(&self) -> (r: Self)
        ensures
            r@ == self@,
    {
        NapkinService { host: self.host.clone(), port: self.port.clone() }
    }
}

impl Clone for NapkinSettings {
    fn clone(&self) -> (r: Self)
        ensures
            r@ == self@,
    {
        NapkinSettings { model: self.model.clone(), service: self.service.clone() }
    }
}

impl NapkinSettings {
    /// The default configuration used whenever no saved value is available.
    pub fn default() -> (r: Self)
        ensures
            r@ == default_settings_view(),
    {
        Self {
            model: "mistral".to_owned(),
            service: NapkinService {
                host: "localhost".to_owned(),
                port: "11434".to_owned(),
            },
        }
    }
}

} // verus!
