//! Input command abstraction — the single type flowing from all input
//! sources (keyboard and HID controller) into the sequencer state, and the
//! pure key-to-command maps.

use vstd::prelude::*;

verus! {

/// The overlay mode active when an F1/F2 overlay is open.
#[derive(Clone, Copy, Debug, PartialEq, Eq, Structural)]
pub enum OverlayMode {
    /// Normal (non-shift) overlay — F1.
    Regular,
    /// Shift overlay — F2; secondary functions active.
    Shift,
}

/// Which panel currently holds keyboard focus.
#[derive(Clone, Copy, Debug, PartialEq, Eq, Structural)]
pub enum FocusPanel {
    /// F1 — step select, space, enter.
    Sequencer,
    /// F2 — left/right param select, up/down adjust.
    SeqParams,
    /// F3 — left/right param select, up/down adjust.
    RandParams,
    /// F4 — text input mode.
    Cli,
}

/// Every user action that can mutate sequencer state.
#[derive(Clone, Debug, PartialEq, Eq)]
pub enum InputCommand {
    /// Jump to an absolute step index (0–15).
    StepSelect(usize),
    /// Move the selected step by a signed delta; wraps modulo 16.
    StepSelectDelta(i8),
    /// Advance the MIDI note for the selected step by `delta` scale degrees.
    NoteDelta(i8),
    /// Commit the pending edit to live state; no-op if no edit is pending.
    Confirm,
    /// Toggle the enabled state of the currently selected step.
    ToggleStep,
    /// Adjust the velocity for the selected step by `delta`.
    VelocityDelta(i8),
    /// Open the F1 (Regular) or F2 (Shift) overlay.
    OpenOverlay(OverlayMode),
    /// Close the active overlay and discard any pending param edit.
    CloseOverlay,
    /// Jump to an absolute param index.
    ParamSelect(u8),
    /// Move the selected param by a signed delta.
    ParamSelectDelta(i8),
    /// Adjust the value of the currently selected param by `delta`.
    ParamValueDelta(i8),
    /// Toggle playback on/off. Stopping also clears the paused flag.
    PlayStop,
    /// Set the semitone offset applied to every played note (0 clears it).
    NoteModifierSet(i8),
    /// Toggle the skip modifier on/off.
    SkipModifierToggle,
    /// Set the velocity offset modifier (0 = off).
    VelocityModifierSet(i8),
    /// Randomise all 16 step notes within the current key/mode.
    GenerateRandomSequence,
    /// Adjust BPM by a signed delta (clamped to 20–300).
    BpmDelta(i8),
    /// Set the random seed. Updates both the user seed and the RNG state.
    SeedSet(u32),
    /// Set MIDI channel (1-indexed input; stored 0-indexed).
    ChannelSet(u8),
    /// Sync the MIDI device name into state for title bar display.
    MidiDeviceName(String),
    /// Switch keyboard focus to the given panel (F1–F4).
    SetFocus(FocusPanel),
    /// Select a parameter by absolute index within the focused panel.
    PanelParamSelect(u8),
    /// Adjust the selected sequence parameter by a signed delta, immediately.
    PanelParamDelta(i8),
    /// Select a random-parameter by absolute index (0–7).
    RandParamSelect(u8),
    /// Adjust the selected random-parameter by a signed delta, immediately.
    RandParamDelta(i8),
    /// Randomise notes in key, then velocities.
    RandAll,
    /// Randomise velocities only.
    RandVelocities,
    /// Set note and velocity of one step.
    NoteSet { step: usize, midi_note: u8, velocity: u8 },
}

/// A minimal key code enum mirroring the subset of terminal keys the engine
/// cares about.
#[derive(Clone, Copy, Debug, PartialEq, Eq, Structural)]
pub enum KeyCodeSimple {
    /// Left arrow.
    Left,
    /// Right arrow.
    Right,
    /// Up arrow.
    Up,
    /// Down arrow.
    Down,
    /// Space bar.
    Space,
    /// Enter / Return.
    Enter,
    /// Escape.
    Esc,
    /// F1.
    F1,
    /// F2.
    F2,
    /// F3.
    F3,
    /// F4.
    F4,
    /// `+` or `=` key (BPM up).
    Plus,
    /// `-` key (BPM down).
    Minus,
    /// Backspace key.
    Backspace,
    /// A printable character key.
    Char(char),
    /// Any other key (ignored).
    Other,
}

/// The command a root-mode key produces (`shift` = Shift held).
pub open spec fn root_key_command(key: KeyCodeSimple, shift: bool) -> Option<InputCommand> {
    match key {
        KeyCodeSimple::Left => Some(InputCommand::StepSelectDelta(-1i8)),
        KeyCodeSimple::Right => Some(InputCommand::StepSelectDelta(1i8)),
        KeyCodeSimple::Up => if shift {
            Some(InputCommand::VelocityDelta(1i8))
        } else {
            Some(InputCommand::NoteDelta(1i8))
        },
        KeyCodeSimple::Down => if shift {
            Some(InputCommand::VelocityDelta(-1i8))
        } else {
            Some(InputCommand::NoteDelta(-1i8))
        },
        KeyCodeSimple::Space => Some(InputCommand::ToggleStep),
        KeyCodeSimple::Enter => Some(InputCommand::Confirm),
        KeyCodeSimple::Char(c) => if c == 'p' || c == 'P' {
            Some(InputCommand::PlayStop)
        } else {
            None
        },
        KeyCodeSimple::F1 => Some(InputCommand::SetFocus(FocusPanel::Sequencer)),
        KeyCodeSimple::F2 => Some(InputCommand::SetFocus(FocusPanel::SeqParams)),
        KeyCodeSimple::F3 => Some(InputCommand::SetFocus(FocusPanel::RandParams)),
        KeyCodeSimple::F4 => Some(InputCommand::SetFocus(FocusPanel::Cli)),
        KeyCodeSimple::Plus => Some(InputCommand::BpmDelta(1i8)),
        KeyCodeSimple::Minus => Some(InputCommand::BpmDelta(-1i8)),
        _ => None,
    }
}

/// Translate a root-mode key event into an `InputCommand`.
///
/// `shift` is true when the Shift modifier is held. Returns `None` for
/// unmapped keys.
pub fn root_key_to_command(key_code: KeyCodeSimple, shift: bool) -> (r: Option<InputCommand>)
    ensures
        r == root_key_command(key_code, shift),
{
    match key_code {
        KeyCodeSimple::Left => Some(InputCommand::StepSelectDelta(-1i8)),
        KeyCodeSimple::Right => Some(InputCommand::StepSelectDelta(1i8)),
        KeyCodeSimple::Up => if shift {
            Some(InputCommand::VelocityDelta(1i8))
        } else {
            Some(InputCommand::NoteDelta(1i8))
        },
        KeyCodeSimple::Down => if shift {
            Some(InputCommand::VelocityDelta(-1i8))
        } else {
            Some(InputCommand::NoteDelta(-1i8))
        },
        KeyCodeSimple::Space => Some(InputCommand::ToggleStep),
        KeyCodeSimple::Enter => Some(InputCommand::Confirm),
        KeyCodeSimple::Char(c) => if c == 'p' || c == 'P' {
            Some(InputCommand::PlayStop)
        } else {
            None
        },
        KeyCodeSimple::F1 => Some(InputCommand::SetFocus(FocusPanel::Sequencer)),
        KeyCodeSimple::F2 => Some(InputCommand::SetFocus(FocusPanel::SeqParams)),
        KeyCodeSimple::F3 => Some(InputCommand::SetFocus(FocusPanel::RandParams)),
        KeyCodeSimple::F4 => Some(InputCommand::SetFocus(FocusPanel::Cli)),
        KeyCodeSimple::Plus => Some(InputCommand::BpmDelta(1i8)),
        KeyCodeSimple::Minus => Some(InputCommand::BpmDelta(-1i8)),
        _ => None,
    }
}

/// The command an overlay-mode key produces.
pub open spec fn overlay_key_command(key: KeyCodeSimple) -> Option<InputCommand> {
    match key {
        KeyCodeSimple::Left => Some(InputCommand::ParamSelectDelta(-1i8)),
        KeyCodeSimple::Right => Some(InputCommand::ParamSelectDelta(1i8)),
        KeyCodeSimple::Up => Some(InputCommand::ParamValueDelta(1i8)),
        KeyCodeSimple::Down => Some(InputCommand::ParamValueDelta(-1i8)),
        KeyCodeSimple::Enter => Some(InputCommand::Confirm),
        KeyCodeSimple::Esc => Some(InputCommand::CloseOverlay),
        _ => None,
    }
}

/// Translate an overlay-mode key event into an `InputCommand`.
///
/// Returns `None` for unmapped keys.
pub fn overlay_key_to_command(key_code: KeyCodeSimple) -> (r: Option<InputCommand>)
    ensures
        r == overlay_key_command(key_code),
{
    match key_code {
        KeyCodeSimple::Left => Some(InputCommand::ParamSelectDelta(-1i8)),
        KeyCodeSimple::Right => Some(InputCommand::ParamSelectDelta(1i8)),
        KeyCodeSimple::Up => Some(InputCommand::ParamValueDelta(1i8)),
        KeyCodeSimple::Down => Some(InputCommand::ParamValueDelta(-1i8)),
        KeyCodeSimple::Enter => Some(InputCommand::Confirm),
        KeyCodeSimple::Esc => Some(InputCommand::CloseOverlay),
        _ => None,
    }
}

/// The Shift-overlay action a key produces.
pub open spec fn shift_action_key_command(key: KeyCodeSimple) -> Option<InputCommand> {
    match key {
        KeyCodeSimple::Char(c) => if c == 's' || c == 'S' {
            Some(InputCommand::SkipModifierToggle)
        } else if c == 'g' || c == 'G' {
            Some(InputCommand::GenerateRandomSequence)
        } else {
            None
        },
        _ => None,
    }
}

/// Translate a key event to a Shift overlay action command.
///
/// Returns `None` for keys that are not Shift actions.
pub fn shift_action_key_to_command(key_code: KeyCodeSimple) -> (r: Option<InputCommand>)
    ensures
        r == shift_action_key_command(key_code),
{
    match key_code {
        KeyCodeSimple::Char(c) => if c == 's' || c == 'S' {
            Some(InputCommand::SkipModifierToggle)
        } else if c == 'g' || c == 'G' {
            Some(InputCommand::GenerateRandomSequence)
        } else {
            None
        },
        _ => None,
    }
}

/// The command a key produces under the given focus.
pub open spec fn panel_key_command(key: KeyCodeSimple, focus: FocusPanel) -> Option<InputCommand> {
    match focus {
        FocusPanel::Sequencer => match key {
            KeyCodeSimple::Left => Some(InputCommand::StepSelectDelta(-1i8)),
            KeyCodeSimple::Right => Some(InputCommand::StepSelectDelta(1i8)),
            KeyCodeSimple::Up => Some(InputCommand::NoteDelta(1i8)),
            KeyCodeSimple::Down => Some(InputCommand::NoteDelta(-1i8)),
            KeyCodeSimple::Space => Some(InputCommand::ToggleStep),
            KeyCodeSimple::Enter => Some(InputCommand::Confirm),
            _ => None,
        },
        FocusPanel::SeqParams | FocusPanel::RandParams => match key {
            KeyCodeSimple::Up => Some(InputCommand::PanelParamDelta(1i8)),
            KeyCodeSimple::Down => Some(InputCommand::PanelParamDelta(-1i8)),
            _ => None,
        },
        FocusPanel::Cli => None,
    }
}

/// Translate a key event into an `InputCommand` based on which panel has focus.
///
/// Returns `None` for unmapped keys; `FocusPanel::Cli` always returns `None`
/// because the caller manages text input directly.
pub fn panel_key_to_command(key: KeyCodeSimple, focus: FocusPanel) -> (r: Option<InputCommand>)
    ensures
        r == panel_key_command(key, focus),
{
    match focus {
        FocusPanel::Sequencer => match key {
            KeyCodeSimple::Left => Some(InputCommand::StepSelectDelta(-1i8)),
            KeyCodeSimple::Right => Some(InputCommand::StepSelectDelta(1i8)),
            KeyCodeSimple::Up => Some(InputCommand::NoteDelta(1i8)),
            KeyCodeSimple::Down => Some(InputCommand::NoteDelta(-1i8)),
            KeyCodeSimple::Space => Some(InputCommand::ToggleStep),
            KeyCodeSimple::Enter => Some(InputCommand::Confirm),
            _ => None,
        },
        FocusPanel::SeqParams | FocusPanel::RandParams => match key {
            KeyCodeSimple::Up => Some(InputCommand::PanelParamDelta(1i8)),
            KeyCodeSimple::Down => Some(InputCommand::PanelParamDelta(-1i8)),
            _ => None,
        },
        FocusPanel::Cli => None,
    }
}

/// The character a key inserts into the CLI line, if any.
pub open spec fn cli_key_char(key: KeyCodeSimple) -> Option<char> {
    match key {
        KeyCodeSimple::Char(c) => Some(c),
        KeyCodeSimple::Space => Some(' '),
        KeyCodeSimple::Plus => Some('+'),
        KeyCodeSimple::Minus => Some('-'),
        _ => None,
    }
}

/// Returns the char that a key inserts into the CLI line, if any.
pub fn cli_key_to_char(key: KeyCodeSimple) -> (r: Option<char>)
    ensures
        r == cli_key_char(key),
{
    match key {
        KeyCodeSimple::Char(c) => Some(c),
        KeyCodeSimple::Space => Some(' '),
        KeyCodeSimple::Plus => Some('+'),
        KeyCodeSimple::Minus => Some('-'),
        _ => None,
    }
}

} // verus!
