//! One frame of the shell: the events the toolkit reports and the state
//! step they cause.
//!
//! The toolkit owns the render loop; once per frame it collects what the
//! user did into a `FrameInput` and hands it to `AtlasApp::update_frame`,
//! which performs every state change of that frame and says whether the
//! user asked to quit. Rendering reads the state afterwards and adds
//! nothing of its own.

use vstd::prelude::*;

use crate::shell::{
    close_settings_spec, edited_draft, open_settings_spec, set_draft_spec,
    toggle_side_panel_spec, toggle_theme_spec, view_opt, AppView, AtlasApp,
};

verus! {

/// What the settings dialog reported this frame. The edit fields carry
/// the new text of a field the user typed in; an untouched field is
/// reported as absent.
#[derive(Debug)]
pub struct DialogInput {
    pub model_edit: Option<String>,
    pub host_edit: Option<String>,
    pub port_edit: Option<String>,
    /// The Save button was clicked.
    pub save_clicked: bool,
    /// The Cancel button was clicked.
    pub cancel_clicked: bool,
    /// The window's own close affordance (title bar) was used.
    pub close_requested: bool,
}

/// Everything the toolkit reports for one frame.
#[derive(Debug)]
pub struct FrameInput {
    /// The host is a restricted, browser-like context: the File menu is
    /// not shown there, so its actions cannot fire.
    pub web_context: bool,
    /// The menu item that opens the settings dialog was clicked.
    pub settings_clicked: bool,
    /// The menu item that quits was clicked.
    pub quit_clicked: bool,
    /// The theme toggle button was clicked.
    pub theme_clicked: bool,
    /// The side panel's toggle button was clicked.
    pub panel_button_clicked: bool,
    /// The side panel's keyboard shortcut fired.
    pub panel_shortcut_pressed: bool,
    pub dialog: DialogInput,
}

/// What the shell asks the host to do after the step.
#[derive(Debug, PartialEq, Eq, Structural)]
pub struct FrameAction {
    /// Ask the host to close the viewport and end the process.
    pub request_quit: bool,
}

/// Mathematical model of one frame's dialog report.
#[verifier::ext_equal]
pub struct DialogInputView {
    pub model_edit: Option<Seq<char>>,
    pub host_edit: Option<Seq<char>>,
    pub port_edit: Option<Seq<char>>,
    pub save_clicked: bool,
    pub cancel_clicked: bool,
    pub close_requested: bool,
}

/// Mathematical model of one frame's input.
#[verifier::ext_equal]
pub struct FrameInputView {
    pub web_context: bool,
    pub settings_clicked: bool,
    pub quit_clicked: bool,
    pub theme_clicked: bool,
    pub panel_button_clicked: bool,
    pub panel_shortcut_pressed: bool,
    pub dialog: DialogInputView,
}

impl View for DialogInput {
    type V = DialogInputView;

    open spec fn view(&self) -> DialogInputView {
        DialogInputView {
            model_edit: view_opt(self.model_edit),
            host_edit: view_opt(self.host_edit),
            port_edit: view_opt(self.port_edit),
            save_clicked: self.save_clicked,
            cancel_clicked: self.cancel_clicked,
            close_requested: self.close_requested,
        }
    }
}

impl View for FrameInput {
    type V = FrameInputView;

    open spec fn view(&self) -> FrameInputView {
        FrameInputView {
            web_context: self.web_context,
            settings_clicked: self.settings_clicked,
            quit_clicked: self.quit_clicked,
            theme_clicked: self.theme_clicked,
            panel_button_clicked: self.panel_button_clicked,
            panel_shortcut_pressed: self.panel_shortcut_pressed,
            dialog: self.dialog@,
        }
    }
}

/// The dialog's part of a frame. It acts only while the dialog is open:
/// first the reported edits land in the draft; then, if Save was clicked,
/// the draft is committed and the dialog closes; otherwise, if Cancel or
/// the title-bar close was used, the draft is discarded and the dialog
/// closes. Save takes precedence over a simultaneous plain close, and a
/// plain close never keeps the edits.
pub open spec fn dialog_step_spec(s: AppView, i: DialogInputView) -> AppView {
    if !s.settings_window_open {
        s
    } else {
        let edited = set_draft_spec(
            s,
            edited_draft(s.draft, i.model_edit, i.host_edit, i.port_edit),
        );
        if i.save_clicked {
            close_settings_spec(edited, true)
        } else if i.cancel_clicked || i.close_requested {
            close_settings_spec(edited, false)
        } else {
            edited
        }
    }
}

/// One whole frame, in the order the widgets are laid out: the menu's
/// Settings action (absent in a web context), the theme button, the side
/// panel's button and shortcut, then the dialog.
pub open spec fn frame_step_spec(s: AppView, i: FrameInputView) -> AppView {
    let s1 = if i.settings_clicked && !i.web_context { open_settings_spec(s) } else { s };
    let s2 = if i.theme_clicked { toggle_theme_spec(s1) } else { s1 };
    let s3 = if i.panel_button_clicked { toggle_side_panel_spec(s2) } else { s2 };
    let s4 = if i.panel_shortcut_pressed { toggle_side_panel_spec(s3) } else { s3 };
    dialog_step_spec(s4, i.dialog)
}

impl AtlasApp {
    /// The dialog's part of a frame: apply the reported edits to the
    /// draft, then close with Save, close with Cancel, or stay open.
    pub fn settings_dialog_step(&mut self, input: DialogInput)
        ensures
            final(self)@ == dialog_step_spec(old(self)@, input@),
    {
        if self.settings_window_open {
            let save = input.save_clicked;
            let plain_close = input.cancel_clicked || input.close_requested;
            self.edit_draft(input.model_edit, input.host_edit, input.port_edit);
            if save {
                self.close_settings(true);
            } else if plain_close {
                self.close_settings(false);
            }
        }
    }

    /// Perform every state change of one frame and say what the host
    /// should do: the quit request is passed on exactly when the Quit
    /// menu item fired, which a web context cannot show.
    pub fn update_frame(&mut self, input: FrameInput) -> (a: FrameAction)
        ensures
            final(self)@ == frame_step_spec(old(self)@, input@),
            a.request_quit == (input.quit_clicked && !input.web_context),
    {
        if input.settings_clicked && !input.web_context {
            self.open_settings();
        }
        if input.theme_clicked {
            self.toggle_theme();
        }
        if input.panel_button_clicked {
            self.toggle_side_panel();
        }
        if input.panel_shortcut_pressed {
            self.toggle_side_panel();
        }
        let quit = input.quit_clicked && !input.web_context;
        self.settings_dialog_step(input.dialog);
        FrameAction { request_quit: quit }
    }
}

/// Law: while the dialog is open, the panel shortcut still toggles the
/// side panel, and the frame leaves the dialog flag and both
/// configurations exactly as the dialog's own actions alone would: panel
/// state and dialog state do not interfere.
pub proof fn lemma_shortcut_works_while_dialog_open(s: AppView, d: DialogInputView)
    requires
        s.settings_window_open,
    ensures
        ({
            let i = FrameInputView {
                web_context: false,
                settings_clicked: false,
                quit_clicked: false,
                theme_clicked: false,
                panel_button_clicked: false,
                panel_shortcut_pressed: true,
                dialog: d,
            };
            &&& frame_step_spec(s, i).side_panel_open == !s.side_panel_open
            &&& frame_step_spec(s, i).settings_window_open == dialog_step_spec(s, d).settings_window_open
            &&& frame_step_spec(s, i).committed == dialog_step_spec(s, d).committed
            &&& frame_step_spec(s, i).draft == dialog_step_spec(s, d).draft
        }),
{
}

} // verus!
