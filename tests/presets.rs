use presets::binding::{bind, Dispatch, QUIT_KEY};
use presets::catalog::{scan, DirEntry, Preset, PresetError};
use presets::controller::{load_preset, on_key, KeyOutcome, ReadFailure};
use presets::dialog::{
    create_load_ui, create_save_ui, load_dialog_height, LoadDialog, LOAD_DIALOG_WIDTH,
    SAVE_DIALOG_HEIGHT, SAVE_DIALOG_WIDTH,
};

fn entry(name: &str) -> DirEntry {
    DirEntry { name: Some(name.to_string()), path: format!("./presets/{}", name) }
}

fn undecodable(path: &str) -> DirEntry {
    DirEntry { name: None, path: path.to_string() }
}

fn entries(n: usize) -> Vec<DirEntry> {
    (0..n).map(|i| entry(&format!("p{}.grid", i))).collect()
}

fn two_presets() -> LoadDialog {
    match create_load_ui(LOAD_DIALOG_WIDTH, 20, vec![entry("a.grid"), entry("b.grid")]) {
        Ok(ld) => ld,
        Err(_) => panic!("two presets fit a dialog of 20 rows"),
    }
}

#[test]
fn scan_numbers_entries_in_listing_order() {
    let ps = match scan(vec![entry("a.grid"), entry("b.grid")], 20) {
        Ok(ps) => ps,
        Err(_) => panic!("expected a catalog"),
    };
    assert_eq!(ps.len(), 2);
    assert_eq!(ps[0].name, "a.grid");
    assert_eq!(ps[0].ordinal, 1);
    assert_eq!(ps[0].path, "./presets/a.grid");
    assert_eq!(ps[1].name, "b.grid");
    assert_eq!(ps[1].ordinal, 2);
    assert_eq!(ps[1].path, "./presets/b.grid");
}

#[test]
fn scan_keeps_listing_order_unsorted() {
    let ps = scan(vec![entry("z.grid"), entry("a.grid")], 20).ok().unwrap();
    assert_eq!(ps[0].name, "z.grid");
    assert_eq!(ps[1].name, "a.grid");
}

#[test]
fn scan_skips_undecodable_names() {
    let ps = scan(vec![undecodable("./presets/x"), entry("a.grid"), undecodable("./presets/y"), entry("b.grid")], 20)
        .ok()
        .unwrap();
    assert_eq!(ps.len(), 2);
    assert_eq!(ps[0].name, "a.grid");
    assert_eq!(ps[0].ordinal, 1);
    assert_eq!(ps[1].name, "b.grid");
    assert_eq!(ps[1].ordinal, 2);
}

#[test]
fn scan_of_empty_directory_is_empty() {
    let ps = scan(Vec::new(), 20).ok().unwrap();
    assert!(ps.is_empty());
}

#[test]
fn scan_accepts_up_to_rows_minus_two() {
    let ps = scan(entries(8), 10).ok().unwrap();
    assert_eq!(ps.len(), 8);
    assert_eq!(ps[7].ordinal, 8);
}

#[test]
fn scan_accepts_nine_presets_in_a_tall_dialog() {
    let ps = scan(entries(9), 40).ok().unwrap();
    assert_eq!(ps.len(), 9);
    for (j, p) in ps.iter().enumerate() {
        assert_eq!(p.ordinal as usize, j + 1);
    }
}

#[test]
fn scan_refuses_ten_presets_in_a_tall_dialog() {
    assert!(matches!(scan(entries(10), 40), Err(PresetError::CapacityExceeded { .. })));
}

#[test]
fn scan_refuses_ten_files_when_eight_rows_are_free() {
    assert!(matches!(scan(entries(10), 10), Err(PresetError::CapacityExceeded { .. })));
}

#[test]
fn scan_refuses_one_past_the_rows() {
    assert!(matches!(scan(entries(9), 10), Err(PresetError::CapacityExceeded { .. })));
}

#[test]
fn scan_ignores_undecodable_names_for_capacity() {
    let mut es = entries(8);
    es.push(undecodable("./presets/bad"));
    let ps = scan(es, 10).ok().unwrap();
    assert_eq!(ps.len(), 8);
}

#[test]
fn bind_gives_label_hotkey_and_code() {
    let b = bind(2, "b.grid");
    assert_eq!(b.label, "2: b.grid");
    assert_eq!(b.hotkey, '2');
    assert_eq!(b.code, Dispatch::Select(2));
}

#[test]
fn bind_of_nine() {
    let b = bind(9, "last");
    assert_eq!(b.label, "9: last");
    assert_eq!(b.hotkey, '9');
    assert_eq!(b.code, Dispatch::Select(9));
}

#[test]
fn bind_twice_gives_the_same() {
    let b1 = bind(3, "c.grid");
    let b2 = bind(3, "c.grid");
    assert_eq!(b1.label, b2.label);
    assert_eq!(b1.hotkey, b2.hotkey);
    assert_eq!(b1.code, b2.code);
}

#[test]
fn hotkeys_are_distinct() {
    for i in 1..=9u32 {
        for j in 1..=9u32 {
            if i != j {
                assert_ne!(bind(i, "x").hotkey, bind(j, "x").hotkey);
            }
        }
        assert_ne!(bind(i, "x").hotkey, QUIT_KEY);
    }
}

#[test]
fn dialog_lists_two_presets() {
    let ld = two_presets();
    assert_eq!(ld.presets.len(), 2);
    assert_eq!(ld.presets[0].name, "a.grid");
    assert_eq!(ld.presets[1].name, "b.grid");
    assert_eq!(bind(ld.presets[0].ordinal, &ld.presets[0].name).label, "1: a.grid");
    assert_eq!(bind(ld.presets[1].ordinal, &ld.presets[1].name).label, "2: b.grid");
}

#[test]
fn pressing_two_loads_second_preset() {
    let ld = two_presets();
    assert_eq!(on_key(&ld, '2'), KeyOutcome::Load(1));
    let p: &Preset = &ld.presets[1];
    assert_eq!(p.path, "./presets/b.grid");
}

#[test]
fn pressing_each_hotkey_loads_its_preset() {
    let ld = create_load_ui(LOAD_DIALOG_WIDTH, 40, entries(9)).ok().unwrap();
    for p in ld.presets.iter() {
        let b = bind(p.ordinal, &p.name);
        assert_eq!(on_key(&ld, b.hotkey), KeyOutcome::Load(p.ordinal as usize - 1));
    }
}

#[test]
fn pressing_q_quits() {
    let ld = two_presets();
    assert_eq!(on_key(&ld, 'q'), KeyOutcome::Quit);
    assert_eq!(on_key(&ld, 'Q'), KeyOutcome::Quit);
}

#[test]
fn pressing_q_quits_with_no_presets() {
    let ld = create_load_ui(LOAD_DIALOG_WIDTH, 20, Vec::new()).ok().unwrap();
    assert!(ld.presets.is_empty());
    assert_eq!(on_key(&ld, 'q'), KeyOutcome::Quit);
    assert_eq!(on_key(&ld, '1'), KeyOutcome::Ignore);
}

#[test]
fn unmapped_keys_are_ignored() {
    let ld = two_presets();
    assert_eq!(on_key(&ld, '3'), KeyOutcome::Ignore);
    assert_eq!(on_key(&ld, '0'), KeyOutcome::Ignore);
    assert_eq!(on_key(&ld, 'x'), KeyOutcome::Ignore);
    assert_eq!(on_key(&ld, 'é'), KeyOutcome::Ignore);
}

#[test]
fn load_dialog_refuses_ten_files_when_eight_rows_are_free() {
    assert!(matches!(
        create_load_ui(LOAD_DIALOG_WIDTH, 10, entries(10)),
        Err(PresetError::CapacityExceeded { .. })
    ));
}

#[test]
fn dialog_height_formula() {
    assert_eq!(load_dialog_height(24), 18);
    assert_eq!(load_dialog_height(30), 22);
    assert_eq!(load_dialog_height(0), 2);
    assert_eq!(load_dialog_height(1), 3);
}

#[test]
fn save_dialog_builds() {
    let _d = create_save_ui(SAVE_DIALOG_WIDTH, SAVE_DIALOG_HEIGHT);
}

#[test]
fn load_preset_passes_content_on() {
    let ld = two_presets();
    let r = load_preset(&ld.presets[0], Ok("cells".to_string()));
    assert_eq!(r.ok().unwrap(), "cells");
}

#[test]
fn deleted_preset_fails_to_open_with_its_path() {
    let ld = two_presets();
    match load_preset(&ld.presets[1], Err(ReadFailure::Open("No such file or directory".to_string()))) {
        Err(PresetError::OpenFailure { path, reason }) => {
            assert_eq!(path, "./presets/b.grid");
            assert_eq!(reason, "No such file or directory");
        },
        _ => panic!("expected an open failure"),
    }
}

#[test]
fn unreadable_preset_fails_with_its_path() {
    let ld = two_presets();
    match load_preset(&ld.presets[0], Err(ReadFailure::Read("invalid UTF-8".to_string()))) {
        Err(PresetError::ReadFailure { path, reason }) => {
            assert_eq!(path, "./presets/a.grid");
            assert_eq!(reason, "invalid UTF-8");
        },
        _ => panic!("expected a read failure"),
    }
}

#[test]
fn error_messages_name_the_path() {
    let e = PresetError::OpenFailure { path: "./presets/a.grid".to_string(), reason: "gone".to_string() };
    assert_eq!(e.message(), "Error loading preset ./presets/a.grid: gone");
    let e = PresetError::ReadFailure { path: "./presets/a.grid".to_string(), reason: "bad".to_string() };
    assert_eq!(e.message(), "Error reading ./presets/a.grid: bad");
    let e = PresetError::CapacityExceeded { found: 10, limit: 9 };
    assert!(e.message().contains("enlarge the terminal"));
}

