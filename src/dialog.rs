use vstd::prelude::*;

use rustty::ui::{Dialog, DialogResult, Painter};
use rustty::HasPosition;

use crate::binding::{bind, hotkey_of, label_of, Binding, Dispatch, QUIT_KEY};
use crate::catalog::{accepted, capacity, is_catalog_of, scan, DirEntry, Preset, PresetError};

verus! {

/// rustty's dialog: a window, its buttons, and the result of each button's
/// accelerator key. Opaque here; `accel_map` and `dialog_size` name what the
/// logic reads of it.
#[verifier::external_type_specification]
#[verifier::external_body]
pub struct ExDialog(Dialog);

/// The result each accelerator key of a dialog stands for.
pub uninterp spec fn accel_map(d: Dialog) -> Map<char, Dispatch>;

/// The (columns, rows) a dialog was made with.
pub uninterp spec fn dialog_size(d: Dialog) -> (nat, nat);

/// The dialog's buttons in the order they were added: each one's text (what
/// is painted between `"< "` and `" >"`) and its origin (column, row).
pub uninterp spec fn buttons(d: Dialog) -> Seq<(Seq<char>, (nat, nat))>;

/// The dialog's window has its border drawn on its edge cells.
pub uninterp spec fn framed(d: Dialog) -> bool;

/// The first character of a character's lower-case form.
pub uninterp spec fn lowercase_first(c: char) -> char;

/// Width of the preset dialog.
pub const LOAD_DIALOG_WIDTH: usize = 50;

/// Width of the save dialog.
pub const SAVE_DIALOG_WIDTH: usize = 40;

/// Height of the save dialog.
pub const SAVE_DIALOG_HEIGHT: usize = 10;

/// Largest side a dialog may have: a terminal's sides fit in 16 bits.
pub const MAX_SIDE: usize = 65535;

/// Width of the quit control, `"< Quit >"`, on screen.
pub const QUIT_BUTTON_WIDTH: usize = 8;

/// A key that the dialog stores as it is: a lower-case ASCII letter or a digit.
pub open spec fn is_plain_key(c: char) -> bool {
    ('0' <= c <= '9') || ('a' <= c <= 'z')
}

/// The ASCII lower-case form of a character; others are kept.
pub open spec fn ascii_lower(c: char) -> char {
    if 'A' <= c <= 'Z' {
        ((c as u32 + 32) as u8) as char
    } else {
        c
    }
}

/// What a key map gives for a key.
pub open spec fn lookup(m: Map<char, Dispatch>, c: char) -> Option<Dispatch> {
    if m.contains_key(c) {
        Some(m[c])
    } else {
        None
    }
}

/// Relies on rustty's `Dialog::new`: a dialog of that size with no buttons.
#[verifier::external_body]
fn new_dialog(cols: usize, rows: usize) -> (r: Dialog)
    requires
        cols <= MAX_SIDE,
        rows <= MAX_SIDE,
    ensures
        accel_map(r) =~= Map::empty(),
        dialog_size(r) == (cols as nat, rows as nat),
        buttons(r) =~= Seq::empty(),
{
    Dialog::new(cols, rows)
}

/// Relies on rustty's `Painter::draw_box` on the dialog's window: it draws the
/// frame and leaves the buttons and size alone. It panics on a side under 2.
#[verifier::external_body]
fn frame(d: &mut Dialog)
    requires
        dialog_size(*old(d)).0 >= 2,
        dialog_size(*old(d)).1 >= 2,
    ensures
        accel_map(*final(d)) == accel_map(*old(d)),
        dialog_size(*final(d)) == dialog_size(*old(d)),
        buttons(*final(d)) == buttons(*old(d)),
        framed(*final(d)),
{
    d.window_mut().draw_box()
}

/// Relies on rustty's `Dialog::add_button`: it records `result` under the
/// lower-case form of `accel`, which is `accel` itself for a plain key, and
/// adds a button showing `text`, which `set_origin` places at `origin`. The
/// window, and so its border, is left alone.
#[verifier::external_body]
fn add_button(d: &mut Dialog, text: &str, accel: char, result: Dispatch, origin: (usize, usize))
    requires
        is_plain_key(accel),
    ensures
        accel_map(*final(d)) == accel_map(*old(d)).insert(accel, result),
        dialog_size(*final(d)) == dialog_size(*old(d)),
        buttons(*final(d)) == buttons(*old(d)).push((text@, (origin.0 as nat, origin.1 as nat))),
        framed(*final(d)) == framed(*old(d)),
{
    let r = match result {
        Dispatch::Quit => DialogResult::Ok,
        Dispatch::Cancel => DialogResult::Cancel,
        Dispatch::Select(i) => DialogResult::Custom(i),
    };
    d.add_button(text, accel, r).set_origin(origin);
}

/// Relies on rustty's `Dialog::result_for_key`: it looks up the first
/// character of the key's lower-case form (std's `char::to_lowercase`), which
/// for an ASCII key is its ASCII lower-case form.
#[verifier::external_body]
pub(crate) fn result_for_key(d: &Dialog, key: char) -> (r: Option<Dispatch>)
    ensures
        r == lookup(accel_map(*d), lowercase_first(key)),
        (key as u32) < 128 ==> r == lookup(accel_map(*d), ascii_lower(key)),
{
    match d.result_for_key(key) {
        Some(DialogResult::Ok) => Some(Dispatch::Quit),
        Some(DialogResult::Cancel) => Some(Dispatch::Cancel),
        Some(DialogResult::Custom(i)) => Some(Dispatch::Select(i)),
        None => None,
    }
}

/// The keys of the preset controls of a dialog listing `n` presets.
pub open spec fn preset_keys(n: nat) -> Map<char, Dispatch>
    decreases n,
{
    if n == 0 {
        Map::empty()
    } else {
        preset_keys((n - 1) as nat).insert(hotkey_of(n as u32), Dispatch::Select(n as i32))
    }
}

/// The keys of a dialog listing `n` presets: one digit per preset, and the quit key.
pub open spec fn key_map(n: nat) -> Map<char, Dispatch> {
    preset_keys(n).insert(QUIT_KEY, Dispatch::Quit)
}

/// The preset keys are the digits `1` to `n`, each giving its own ordinal.
proof fn lemma_preset_keys(n: nat)
    requires
        n <= 9,
    ensures
        forall|i: u32|
            1 <= i <= n ==> #[trigger] preset_keys(n).contains_key(hotkey_of(i))
                && preset_keys(n)[hotkey_of(i)] == Dispatch::Select(i as i32),
        forall|c: char|
            #[trigger] preset_keys(n).contains_key(c) ==> exists|i: u32|
                1 <= i <= n && c == #[trigger] hotkey_of(i) && preset_keys(n)[c] == Dispatch::Select(
                    i as i32,
                ),
    decreases n,
{
    if n > 0 {
        lemma_preset_keys((n - 1) as nat);
        assert forall|i: u32| 1 <= i <= n implies #[trigger] preset_keys(n).contains_key(hotkey_of(i))
            && preset_keys(n)[hotkey_of(i)] == Dispatch::Select(i as i32) by {
            if i < n {
                crate::binding::lemma_hotkeys_distinct(i, n as u32);
            }
        }
        assert forall|c: char| #[trigger] preset_keys(n).contains_key(c) implies exists|i: u32|
            1 <= i <= n && c == #[trigger] hotkey_of(i) && preset_keys(n)[c] == Dispatch::Select(
                i as i32,
            ) by {
            if c == hotkey_of(n as u32) {
                assert(1 <= n as u32 <= n && c == hotkey_of(n as u32));
            }
        }
    }
}

/// What the key map of a dialog listing `n` presets gives: `Quit` for the quit
/// key, `Select(i)` for the digit of `i`, nothing for any other key; so every
/// result it holds is `Quit` or the selection of a listed preset.
pub proof fn lemma_key_map(n: nat)
    requires
        n <= 9,
    ensures
        lookup(key_map(n), QUIT_KEY) == Some(Dispatch::Quit),
        forall|i: u32|
            1 <= i <= n ==> #[trigger] lookup(key_map(n), hotkey_of(i)) == Some(
                Dispatch::Select(i as i32),
            ),
        forall|c: char|
            #[trigger] key_map(n).contains_key(c) ==> key_map(n)[c] == Dispatch::Quit || (
            key_map(n)[c] matches Dispatch::Select(i) && 1 <= i <= n),
        forall|c: char|
            #[trigger] key_map(n).contains_key(c) ==> c == QUIT_KEY || exists|i: u32|
                1 <= i <= n && c == #[trigger] hotkey_of(i),
{
    lemma_preset_keys(n);
    assert forall|i: u32| 1 <= i <= n implies #[trigger] lookup(key_map(n), hotkey_of(i)) == Some(
        Dispatch::Select(i as i32),
    ) by {
        crate::binding::lemma_hotkeys_distinct(i, if i == 1 { 2 } else { 1 });
    }
    assert forall|c: char| #[trigger] key_map(n).contains_key(c) implies key_map(n)[c]
        == Dispatch::Quit || (key_map(n)[c] matches Dispatch::Select(i) && 1 <= i <= n) by {
        if c != QUIT_KEY {
            assert(preset_keys(n).contains_key(c));
            let i = choose|i: u32|
                1 <= i <= n && c == #[trigger] hotkey_of(i) && preset_keys(n)[c] == Dispatch::Select(
                    i as i32,
                );
            assert(key_map(n)[c] == Dispatch::Select(i as i32));
        }
    }
}

/// The preset dialog: one control per preset of the catalog, and a quit control.
pub struct LoadDialog {
    pub dialog: Dialog,
    pub presets: Vec<Preset>,
}

impl LoadDialog {
    /// The dialog's keys are those of its catalog, and the catalog is numbered 1, 2, ...
    pub open spec fn wf(&self) -> bool {
        &&& self.presets.len() <= 9
        &&& accel_map(self.dialog) == key_map(self.presets.len() as nat)
        &&& forall|j: int|
            #![trigger self.presets@[j]]
            0 <= j < self.presets.len() ==> self.presets@[j].ordinal == j + 1
    }
}

/// Height of the preset dialog in a terminal of `term_rows` rows: two thirds
/// of it, rounded up, and two rows more.
pub fn load_dialog_height(term_rows: usize) -> (r: usize)
    ensures
        r == term_rows - term_rows / 3 + 2,
{
    assert(term_rows < 3 || term_rows / 3 >= 1);
    term_rows - term_rows / 3 + 2
}

/// The buttons of the preset dialog of this size over the catalog `ps`: for
/// the preset at index `j`, its `bind` label two columns in on row `j + 1`;
/// then `Quit`, one column in from the right edge and one row up from the
/// bottom edge.
pub open spec fn load_buttons(ps: Seq<Preset>, width: nat, height: nat) -> Seq<
    (Seq<char>, (nat, nat)),
> {
    ps.map(|j: int, p: Preset| (label_of((j + 1) as u32, p.name@), (2nat, (j + 1) as nat))).push(
        ("Quit"@, ((width - QUIT_BUTTON_WIDTH - 1) as nat, (height - 2) as nat)),
    )
}

/// Two preset dialogs of one size built over the same listing show the same
/// buttons, in the same order and places, and list the same presets.
pub proof fn lemma_load_dialog_deterministic(
    a: LoadDialog,
    b: LoadDialog,
    entries: Seq<DirEntry>,
    width: nat,
    height: nat,
)
    requires
        is_catalog_of(a.presets@, entries),
        is_catalog_of(b.presets@, entries),
        buttons(a.dialog) == load_buttons(a.presets@, width, height),
        buttons(b.dialog) == load_buttons(b.presets@, width, height),
    ensures
        buttons(a.dialog) == buttons(b.dialog),
        a.presets.len() == b.presets.len(),
        forall|j: int|
            0 <= j < a.presets.len() ==> (#[trigger] a.presets@[j]).name@ == b.presets@[j].name@
                && a.presets@[j].path@ == b.presets@[j].path@ && a.presets@[j].ordinal
                == b.presets@[j].ordinal,
{
    assert forall|j: int| 0 <= j < a.presets.len() implies (#[trigger] a.presets@[j]).name@
        == b.presets@[j].name@ && a.presets@[j].path@ == b.presets@[j].path@
        && a.presets@[j].ordinal == b.presets@[j].ordinal by {
        assert(b.presets@[j].ordinal == j + 1);
    }
    assert(load_buttons(a.presets@, width, height) =~= load_buttons(b.presets@, width, height));
}

/// Builds the framed preset dialog of the given size over the presets found
/// among `entries`, each under the control that `bind` describes, and a quit
/// control under `q`.
///
/// Fails with `CapacityExceeded` where `scan` does.
pub fn create_load_ui(width: usize, height: usize, entries: Vec<DirEntry>) -> (r: Result<
    LoadDialog,
    PresetError,
>)
    requires
        QUIT_BUTTON_WIDTH + 1 <= width <= MAX_SIDE,
        height <= MAX_SIDE,
        2 <= height || accepted(entries@).len() > 0,
    ensures
        match r {
            Ok(ld) => {
                &&& ld.wf()
                &&& accepted(entries@).len() <= capacity(height as nat)
                &&& is_catalog_of(ld.presets@, entries@)
                &&& dialog_size(ld.dialog) == (width as nat, height as nat)
                &&& buttons(ld.dialog) == load_buttons(ld.presets@, width as nat, height as nat)
                &&& framed(ld.dialog)
            },
            Err(e) => accepted(entries@).len() > capacity(height as nat) && e is CapacityExceeded,
        },
{
    let presets = match scan(entries, height) {
        Ok(ps) => ps,
        Err(e) => {
            return Err(e);
        },
    };
    let mut dialog = new_dialog(width, height);
    frame(&mut dialog);
    let mut k: usize = 0;
    while k < presets.len()
        invariant
            0 <= k <= presets.len() <= 9,
            accel_map(dialog) == preset_keys(k as nat),
            dialog_size(dialog) == (width as nat, height as nat),
            framed(dialog),
            buttons(dialog) == load_buttons(presets@, width as nat, height as nat).take(k as int),
            forall|j: int|
                #![trigger presets@[j]]
                0 <= j < presets.len() ==> presets@[j].ordinal == j + 1,
        decreases presets.len() - k,
    {
        let p = &presets[k];
        assert(presets@[k as int].ordinal == k + 1);
        let b: Binding = bind(p.ordinal, p.name.as_str());
        // Two columns in, on the row of its ordinal.
        add_button(&mut dialog, b.label.as_str(), b.hotkey, b.code, (2, p.ordinal as usize));
        assert(load_buttons(presets@, width as nat, height as nat).take(k + 1) == load_buttons(
            presets@,
            width as nat,
            height as nat,
        ).take(k as int).push(load_buttons(presets@, width as nat, height as nat)[k as int]));
        k += 1;
    }
    // One column in from the right edge, one row up from the bottom edge.
    add_button(
        &mut dialog,
        "Quit",
        QUIT_KEY,
        Dispatch::Quit,
        (width - QUIT_BUTTON_WIDTH - 1, height - 2),
    );
    assert(load_buttons(presets@, width as nat, height as nat) == load_buttons(
        presets@,
        width as nat,
        height as nat,
    ).take(k as int).push(load_buttons(presets@, width as nat, height as nat)[k as int]));
    Ok(LoadDialog { dialog, presets })
}

/// Builds the framed save dialog of the given size, which has no controls.
pub fn create_save_ui(width: usize, height: usize) -> (r: Dialog)
    requires
        2 <= width <= MAX_SIDE,
        2 <= height <= MAX_SIDE,
    ensures
        accel_map(r) =~= Map::empty(),
        dialog_size(r) == (width as nat, height as nat),
        buttons(r) =~= Seq::empty(),
        framed(r),
{
    let mut dialog = new_dialog(width, height);
    frame(&mut dialog);
    dialog
}

} // verus!
