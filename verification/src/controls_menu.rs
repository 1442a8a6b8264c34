//! The editor-controls dropdown: which entries it shows and what they do.
//!
//! The status bar shows a sliders icon; opening it builds a menu of display
//! controls for the active editor. Which entries appear, their order, their
//! checked and disabled state and whether they carry an explanatory note all
//! depend only on a snapshot of plain booleans read off the editor and the
//! global settings. `build_menu` computes that menu and is proved to return
//! exactly `spec_menu`; `activate` says what happens when an entry is
//! chosen.

use vstd::prelude::*;

use crate::input_modes::InputModes;

verus! {

/// A snapshot of everything the dropdown reads: per-editor capabilities and
/// states, and the two global input-mode settings.
#[derive(Clone, Copy, Debug, PartialEq, Eq, Structural)]
pub struct ControlsState {
    /// The editor's language servers can provide inlay hints.
    pub supports_inlay_hints: bool,
    /// Inlay hints are currently shown.
    pub inlay_hints_enabled: bool,
    /// Inline values are currently shown while debugging.
    pub inline_values_enabled: bool,
    /// The editor is a full-size editor, so diagnostics apply.
    pub supports_diagnostics: bool,
    /// Diagnostics are not filtered out entirely.
    pub diagnostics_enabled: bool,
    /// The editor can show diagnostics inline at the end of a line.
    pub supports_inline_diagnostics: bool,
    /// Inline diagnostics are currently shown.
    pub inline_diagnostics_enabled: bool,
    /// Git blame is shown inline after the cursor's line.
    pub git_blame_inline_enabled: bool,
    /// A git blame column is shown in the gutter.
    pub show_git_blame_gutter: bool,
    /// Signature help pops up on its own while typing.
    pub auto_signature_help_enabled: bool,
    /// Line numbers are shown in the gutter.
    pub show_line_numbers: bool,
    /// An edit-prediction provider is configured.
    pub has_edit_prediction_provider: bool,
    /// Edit predictions are enabled for the editor.
    pub show_edit_predictions: bool,
    /// The file under the cursor is not excluded from edit predictions.
    pub edit_predictions_enabled_at_cursor: bool,
    /// The editor can show a minimap.
    pub supports_minimap: bool,
    /// The minimap is currently shown.
    pub minimap_enabled: bool,
    /// A context menu is offered on selection.
    pub selection_menu_enabled: bool,
    /// The global vim-mode setting.
    pub vim_mode_enabled: bool,
    /// The global helix-mode setting.
    pub helix_mode_enabled: bool,
}

/// One control the dropdown can offer.
#[derive(Clone, Copy, Debug, PartialEq, Eq, Structural)]
pub enum MenuControl {
    InlayHints,
    InlineValues,
    Minimap,
    EditPredictions,
    Diagnostics,
    InlineDiagnostics,
    LineNumbers,
    SelectionMenu,
    AutoSignatureHelp,
    InlineGitBlame,
    ColumnGitBlame,
    VimMode,
    HelixMode,
}

/// One row of the dropdown.
#[derive(Clone, Copy, Debug, PartialEq, Eq, Structural)]
pub enum MenuItem {
    /// A horizontal rule between groups of entries.
    Separator,
    /// A toggleable entry.
    Entry {
        /// The control the entry stands for.
        control: MenuControl,
        /// Whether the entry shows a check mark.
        toggled: bool,
        /// Whether the entry refuses activation.
        disabled: bool,
        /// Whether the entry carries a note explaining why it is disabled.
        has_note: bool,
    },
}

/// An ordinary entry: checked when its feature is on, never disabled.
pub open spec fn plain_entry(control: MenuControl, toggled: bool) -> MenuItem {
    MenuItem::Entry { control, toggled, disabled: false, has_note: false }
}

/// The leading group: inlay-hint controls, shown only when the editor
/// supports inlay hints.
pub open spec fn inlay_section(s: ControlsState) -> Seq<MenuItem> {
    if s.supports_inlay_hints {
        seq![
            plain_entry(MenuControl::InlayHints, s.inlay_hints_enabled),
            plain_entry(MenuControl::InlineValues, s.inline_values_enabled),
        ]
    } else {
        Seq::empty()
    }
}

/// The minimap control, shown only when the editor supports a minimap.
pub open spec fn minimap_section(s: ControlsState) -> Seq<MenuItem> {
    if s.supports_minimap {
        seq![plain_entry(MenuControl::Minimap, s.minimap_enabled)]
    } else {
        Seq::empty()
    }
}

/// The edit-predictions control, shown only when a provider is configured.
/// Where the file at the cursor is excluded from predictions, the entry is
/// disabled, unchecked and carries a note saying why.
pub open spec fn predictions_section(s: ControlsState) -> Seq<MenuItem> {
    if s.has_edit_prediction_provider {
        seq![
            (MenuItem::Entry {
                control: MenuControl::EditPredictions,
                toggled: s.edit_predictions_enabled_at_cursor && s.show_edit_predictions,
                disabled: !s.edit_predictions_enabled_at_cursor,
                has_note: !s.edit_predictions_enabled_at_cursor,
            }),
        ]
    } else {
        Seq::empty()
    }
}

/// The diagnostics group, shown only for a full-size editor. The inline
/// entry appears only when the editor supports inline diagnostics, shows its
/// check only while diagnostics are on at all, and is otherwise disabled
/// with a note. The group brings its own trailing separator.
pub open spec fn diagnostics_section(s: ControlsState) -> Seq<MenuItem> {
    if s.supports_diagnostics {
        seq![plain_entry(MenuControl::Diagnostics, s.diagnostics_enabled)]
            + (if s.supports_inline_diagnostics {
                seq![
                    (MenuItem::Entry {
                        control: MenuControl::InlineDiagnostics,
                        toggled: s.diagnostics_enabled && s.inline_diagnostics_enabled,
                        disabled: !s.diagnostics_enabled,
                        has_note: !s.diagnostics_enabled,
                    }),
                ]
            } else {
                Seq::empty()
            })
            + seq![MenuItem::Separator]
    } else {
        Seq::empty()
    }
}

/// The unconditional tail: display toggles, git blame and input modes, in
/// fixed groups.
pub open spec fn fixed_tail(s: ControlsState) -> Seq<MenuItem> {
    seq![
        plain_entry(MenuControl::LineNumbers, s.show_line_numbers),
        plain_entry(MenuControl::SelectionMenu, s.selection_menu_enabled),
        plain_entry(MenuControl::AutoSignatureHelp, s.auto_signature_help_enabled),
        MenuItem::Separator,
        plain_entry(MenuControl::InlineGitBlame, s.git_blame_inline_enabled),
        plain_entry(MenuControl::ColumnGitBlame, s.show_git_blame_gutter),
        MenuItem::Separator,
        plain_entry(MenuControl::VimMode, s.vim_mode_enabled),
        plain_entry(MenuControl::HelixMode, s.helix_mode_enabled),
    ]
}

/// The whole dropdown for a given snapshot: the capability-gated sections,
/// a separator, the diagnostics group, and the fixed tail.
pub open spec fn spec_menu(s: ControlsState) -> Seq<MenuItem> {
    inlay_section(s) + minimap_section(s) + predictions_section(s) + seq![MenuItem::Separator]
        + diagnostics_section(s) + fixed_tail(s)
}

/// Appends the capability-gated leading sections and the separator that
/// closes them.
fn push_gated_sections(menu: &mut Vec<MenuItem>, state: &ControlsState)
    ensures
        final(menu)@ == old(menu)@ + inlay_section(*state) + minimap_section(*state)
            + predictions_section(*state) + seq![MenuItem::Separator],
{
    if state.supports_inlay_hints {
        menu.push(MenuItem::Entry {
            control: MenuControl::InlayHints,
            toggled: state.inlay_hints_enabled,
            disabled: false,
            has_note: false,
        });
        menu.push(MenuItem::Entry {
            control: MenuControl::InlineValues,
            toggled: state.inline_values_enabled,
            disabled: false,
            has_note: false,
        });
    }
    if state.supports_minimap {
        menu.push(MenuItem::Entry {
            control: MenuControl::Minimap,
            toggled: state.minimap_enabled,
            disabled: false,
            has_note: false,
        });
    }
    if state.has_edit_prediction_provider {
        menu.push(MenuItem::Entry {
            control: MenuControl::EditPredictions,
            toggled: state.edit_predictions_enabled_at_cursor && state.show_edit_predictions,
            disabled: !state.edit_predictions_enabled_at_cursor,
            has_note: !state.edit_predictions_enabled_at_cursor,
        });
    }
    menu.push(MenuItem::Separator);
    assert(menu@ =~= old(menu)@ + inlay_section(*state) + minimap_section(*state)
        + predictions_section(*state) + seq![MenuItem::Separator]);
}

/// Appends the diagnostics group, where the editor has one.
fn push_diagnostics_section(menu: &mut Vec<MenuItem>, state: &ControlsState)
    ensures
        final(menu)@ == old(menu)@ + diagnostics_section(*state),
{
    if state.supports_diagnostics {
        menu.push(MenuItem::Entry {
            control: MenuControl::Diagnostics,
            toggled: state.diagnostics_enabled,
            disabled: false,
            has_note: false,
        });
        if state.supports_inline_diagnostics {
            menu.push(MenuItem::Entry {
                control: MenuControl::InlineDiagnostics,
                toggled: state.diagnostics_enabled && state.inline_diagnostics_enabled,
                disabled: !state.diagnostics_enabled,
                has_note: !state.diagnostics_enabled,
            });
        }
        menu.push(MenuItem::Separator);
    }
    assert(menu@ =~= old(menu)@ + diagnostics_section(*state));
}

/// Appends the fixed tail of display, git-blame and input-mode entries.
fn push_fixed_tail(menu: &mut Vec<MenuItem>, state: &ControlsState)
    ensures
        final(menu)@ == old(menu)@ + fixed_tail(*state),
{
    menu.push(MenuItem::Entry {
        control: MenuControl::LineNumbers,
        toggled: state.show_line_numbers,
        disabled: false,
        has_note: false,
    });
    menu.push(MenuItem::Entry {
        control: MenuControl::SelectionMenu,
        toggled: state.selection_menu_enabled,
        disabled: false,
        has_note: false,
    });
    menu.push(MenuItem::Entry {
        control: MenuControl::AutoSignatureHelp,
        toggled: state.auto_signature_help_enabled,
        disabled: false,
        has_note: false,
    });
    menu.push(MenuItem::Separator);
    menu.push(MenuItem::Entry {
        control: MenuControl::InlineGitBlame,
        toggled: state.git_blame_inline_enabled,
        disabled: false,
        has_note: false,
    });
    menu.push(MenuItem::Entry {
        control: MenuControl::ColumnGitBlame,
        toggled: state.show_git_blame_gutter,
        disabled: false,
        has_note: false,
    });
    menu.push(MenuItem::Separator);
    menu.push(MenuItem::Entry {
        control: MenuControl::VimMode,
        toggled: state.vim_mode_enabled,
        disabled: false,
        has_note: false,
    });
    menu.push(MenuItem::Entry {
        control: MenuControl::HelixMode,
        toggled: state.helix_mode_enabled,
        disabled: false,
        has_note: false,
    });
    assert(menu@ =~= old(menu)@ + fixed_tail(*state));
}

/// Builds the dropdown rows for a snapshot: exactly `spec_menu`.
pub fn build_menu(state: &ControlsState) -> (menu: Vec<MenuItem>)
    ensures
        menu@ == spec_menu(*state),
{
    let mut menu: Vec<MenuItem> = Vec::new();
    push_gated_sections(&mut menu, state);
    push_diagnostics_section(&mut menu, state);
    push_fixed_tail(&mut menu, state);
    assert(menu@ =~= spec_menu(*state));
    menu
}

/// What choosing a menu entry asks the UI shell to do.
#[derive(Clone, Copy, Debug, PartialEq, Eq, Structural)]
pub enum Effect {
    /// Dispatch the control's toggle to the active editor.
    ForwardToEditor(MenuControl),
    /// Overwrite both global input-mode settings and refresh the window.
    SetModes(InputModes),
}

/// What activating an entry does. The two input-mode entries rewrite the
/// global settings themselves, each flipping its own mode and forcing the
/// other off; every other entry forwards its toggle to the editor.
pub fn activate(control: MenuControl, modes: InputModes) -> (effect: Effect)
    ensures
        control == MenuControl::VimMode ==> effect == Effect::SetModes(
            InputModes { vim: !modes.vim, helix: false },
        ),
        control == MenuControl::HelixMode ==> effect == Effect::SetModes(
            InputModes { vim: false, helix: !modes.helix },
        ),
        (control != MenuControl::VimMode && control != MenuControl::HelixMode) ==> effect
            == Effect::ForwardToEditor(control),
        (effect matches Effect::SetModes(m) ==> m.exclusive()),
{
    match control {
        MenuControl::VimMode => {
            let mut m = modes;
            m.toggle_vim();
            Effect::SetModes(m)
        },
        MenuControl::HelixMode => {
            let mut m = modes;
            m.toggle_helix();
            Effect::SetModes(m)
        },
        _ => Effect::ForwardToEditor(control),
    }
}

/// The status-bar item behind the sliders icon: it remembers which editor,
/// if any, is the active pane item, and shows the dropdown only for one.
pub struct EditorControlsStatus {
    active_editor: Option<u64>,
}

impl EditorControlsStatus {
    /// The editor the dropdown controls, by identifier, if the active pane
    /// item is an editor at all.
    pub closed spec fn active_editor(self) -> Option<u64> {
        self.active_editor
    }

    /// A fresh status item: no editor yet.
    pub fn new() -> (s: Self)
        ensures
            s.active_editor() is None,
    {
        EditorControlsStatus { active_editor: None }
    }

    /// The active pane item changed: remember the editor it is, or forget
    /// the old one when it is not an editor.
    pub fn set_active_pane_item(&mut self, editor: Option<u64>)
        ensures
            final(self).active_editor() == editor,
    {
        self.active_editor = editor;
    }

    /// What the status bar shows: nothing without an active editor, and
    /// nothing when the remembered editor has been torn down (`state` is
    /// then `None`); otherwise the dropdown for the editor's snapshot.
    pub fn render(&self, state: Option<&ControlsState>) -> (menu: Option<Vec<MenuItem>>)
        ensures
            match (self.active_editor(), state) {
                (Some(_), Some(s)) => menu matches Some(m) && m@ == spec_menu(*s),
                _ => menu is None,
            },
    {
        match (&self.active_editor, state) {
            (Some(_), Some(s)) => Some(build_menu(s)),
            _ => None,
        }
    }
}

} // verus!
