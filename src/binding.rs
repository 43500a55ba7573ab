use vstd::prelude::*;

verus! {

/// What pressing a dialog control hands back.
#[derive(PartialEq, Eq, Structural, Clone, Copy, Debug)]
pub enum Dispatch {
    /// The quit control: leave the dialog without loading.
    Quit,
    /// The toolkit's cancel result; no control of the load dialog gives it.
    Cancel,
    /// The control of the preset with this ordinal.
    Select(i32),
}

/// The key of the quit control.
pub const QUIT_KEY: char = 'q';

/// How a preset appears in the dialog.
pub struct Binding {
    pub label: String,
    pub hotkey: char,
    pub code: Dispatch,
}

/// The digit that selects the preset with this ordinal.
pub open spec fn hotkey_of(ordinal: u32) -> char {
    ((ordinal + 48) as u8) as char
}

/// `"<ordinal>: <name>"`.
pub open spec fn label_of(ordinal: u32, name: Seq<char>) -> Seq<char> {
    seq![hotkey_of(ordinal), ':', ' '] + name
}

/// `b` is how the preset `name` with this ordinal appears.
pub open spec fn binds(b: Binding, ordinal: u32, name: Seq<char>) -> bool {
    &&& b.label@ == label_of(ordinal, name)
    &&& b.hotkey == hotkey_of(ordinal)
    &&& b.code == Dispatch::Select(ordinal as i32)
}

/// The hotkey digit of an ordinal, as a one-character string.
fn digit_text(ordinal: u32) -> (r: &'static str)
    requires
        1 <= ordinal <= 9,
    ensures
        r@ == seq![hotkey_of(ordinal)],
{
    proof {
        reveal_strlit("1");
        reveal_strlit("2");
        reveal_strlit("3");
        reveal_strlit("4");
        reveal_strlit("5");
        reveal_strlit("6");
        reveal_strlit("7");
        reveal_strlit("8");
        reveal_strlit("9");
    }
    match ordinal {
        1 => "1",
        2 => "2",
        3 => "3",
        4 => "4",
        5 => "5",
        6 => "6",
        7 => "7",
        8 => "8",
        _ => "9",
    }
}

/// The label, hotkey and dispatch code of the preset `name` with this ordinal.
pub fn bind(ordinal: u32, name: &str) -> (r: Binding)
    requires
        1 <= ordinal <= 9,
    ensures
        binds(r, ordinal, name@),
{
    let mut label = String::from_str(digit_text(ordinal));
    label.append(": ");
    label.append(name);
    proof {
        reveal_strlit(": ");
        assert(label@ =~= label_of(ordinal, name@));
    }
    Binding { label, hotkey: ((ordinal + 48) as u8) as char, code: Dispatch::Select(ordinal as i32) }
}

/// Binding is a function of its inputs: two results of `bind` for the same
/// ordinal and name have the same label, hotkey and dispatch code.
pub proof fn lemma_bind_deterministic(b1: Binding, b2: Binding, ordinal: u32, name: Seq<char>)
    requires
        binds(b1, ordinal, name),
        binds(b2, ordinal, name),
    ensures
        b1.label@ == b2.label@,
        b1.hotkey == b2.hotkey,
        b1.code == b2.code,
{
}

/// Distinct ordinals of a catalog get distinct hotkeys, none of them the quit key.
pub proof fn lemma_hotkeys_distinct(i: u32, j: u32)
    requires
        1 <= i <= 9,
        1 <= j <= 9,
        i != j,
    ensures
        hotkey_of(i) != hotkey_of(j),
        hotkey_of(i) != QUIT_KEY,
{
}

} // verus!
