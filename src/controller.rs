use vstd::prelude::*;

use crate::binding::{hotkey_of, Dispatch, QUIT_KEY};
use crate::catalog::{Preset, PresetError};
use crate::dialog::{
    ascii_lower, key_map, lemma_key_map, lookup, lowercase_first, result_for_key, LoadDialog,
};

verus! {

/// What the input loop does after a key.
#[derive(PartialEq, Eq, Structural, Clone, Copy, Debug)]
pub enum KeyOutcome {
    /// The key is bound to no control: keep waiting.
    Ignore,
    /// Leave the dialog without loading.
    Quit,
    /// Load the preset at this index of the catalog, then leave the dialog.
    Load(usize),
}

/// What the input loop does with a dispatch result of the dialog.
pub open spec fn outcome_of(d: Option<Dispatch>) -> KeyOutcome {
    match d {
        Some(Dispatch::Quit) => KeyOutcome::Quit,
        Some(Dispatch::Select(i)) => KeyOutcome::Load((i - 1) as usize),
        _ => KeyOutcome::Ignore,
    }
}

/// Decides what a key pressed in the preset dialog does: what the dialog's
/// key map gives for the first character of the key's lower-case form. The
/// quit key quits, the digit of a listed preset loads that preset, any other
/// key is ignored. For an ASCII key the lower-case form is the ASCII one.
pub fn on_key(ld: &LoadDialog, key: char) -> (r: KeyOutcome)
    requires
        ld.wf(),
    ensures
        r == outcome_of(lookup(key_map(ld.presets.len() as nat), lowercase_first(key))),
        (key as u32) < 128 ==> r == outcome_of(
            lookup(key_map(ld.presets.len() as nat), ascii_lower(key)),
        ),
        ascii_lower(key) == QUIT_KEY ==> r == KeyOutcome::Quit,
        r matches KeyOutcome::Load(j) ==> j < ld.presets.len(),
{
    proof {
        lemma_key_map(ld.presets.len() as nat);
    }
    match result_for_key(&ld.dialog, key) {
        Some(Dispatch::Quit) => KeyOutcome::Quit,
        Some(Dispatch::Select(i)) => {
            KeyOutcome::Load((i - 1) as usize)
        },
        _ => KeyOutcome::Ignore,
    }
}

/// Pressing the hotkey of the preset with ordinal `i` loads the preset at
/// index `i - 1` of the catalog.
pub proof fn lemma_dispatch_round_trip(n: nat, i: u32)
    requires
        n <= 9,
        1 <= i <= n,
    ensures
        (hotkey_of(i) as u32) < 128,
        outcome_of(lookup(key_map(n), ascii_lower(hotkey_of(i)))) == KeyOutcome::Load(
            (i - 1) as usize,
        ),
{
    lemma_key_map(n);
    assert(lookup(key_map(n), hotkey_of(i)) == Some(Dispatch::Select(i as i32)));
}

/// Pressing the quit key leaves the dialog without loading, whatever the
/// number of presets, none included.
pub proof fn lemma_quit_precedence(n: nat)
    requires
        n <= 9,
    ensures
        outcome_of(lookup(key_map(n), ascii_lower(QUIT_KEY))) == KeyOutcome::Quit,
{
    lemma_key_map(n);
}

/// How reading a preset's file went wrong, with the system's reason.
pub enum ReadFailure {
    /// The file could not be opened.
    Open(String),
    /// The file was opened but could not be read to the end.
    Read(String),
}

/// The outcome of loading `preset`, given how reading its file went: the
/// content, or the failure with the preset's path and the reason.
pub fn load_preset(preset: &Preset, read: Result<String, ReadFailure>) -> (r: Result<
    String,
    PresetError,
>)
    ensures
        match read {
            Ok(content) => r == Ok::<String, PresetError>(content),
            Err(ReadFailure::Open(reason)) => r matches Err(PresetError::OpenFailure { path, reason: why })
                && path@ == preset.path@ && why@ == reason@,
            Err(ReadFailure::Read(reason)) => r matches Err(PresetError::ReadFailure { path, reason: why })
                && path@ == preset.path@ && why@ == reason@,
        },
{
    match read {
        Ok(content) => Ok(content),
        Err(ReadFailure::Open(reason)) => Err(
            PresetError::OpenFailure { path: preset.path.clone(), reason },
        ),
        Err(ReadFailure::Read(reason)) => Err(
            PresetError::ReadFailure { path: preset.path.clone(), reason },
        ),
    }
}

} // verus!
