use vstd::prelude::*;

verus! {

/// The most presets a dialog can list: one hotkey digit each, `1` to `9`.
pub const MAX_PRESETS: usize = 9;

/// One entry of the preset directory, as the directory listing yields it.
///
/// `name` is the entry's base name, or `None` where it cannot be decoded as text;
/// `path` is the location from which the entry's content can be read again.
pub struct DirEntry {
    pub name: Option<String>,
    pub path: String,
}

/// A saved grid configuration found in the preset directory.
pub struct Preset {
    pub name: String,
    pub path: String,
    /// 1-based position among the presets of one scan; also its hotkey digit.
    pub ordinal: u32,
}

/// Why the load flow stopped without loading.
pub enum PresetError {
    /// More presets than the dialog has rows for, or than there are hotkey digits.
    CapacityExceeded { found: usize, limit: usize },
    /// The selected preset's file could not be opened.
    OpenFailure { path: String, reason: String },
    /// The selected preset's file could not be read to the end.
    ReadFailure { path: String, reason: String },
}

/// The message for an operator who asked for too many presets.
pub const CAPACITY_MESSAGE: &'static str = "Too many presets for this terminal: enlarge the terminal or remove presets from the 'presets' folder";

impl PresetError {
    /// A message for the operator: what went wrong, with the path and the
    /// system's reason where a file failed.
    pub fn message(&self) -> (r: String)
        ensures
            match self {
                PresetError::CapacityExceeded { .. } => r@ == CAPACITY_MESSAGE@,
                PresetError::OpenFailure { path, reason } => r@ == "Error loading preset "@ + path@
                    + ": "@ + reason@,
                PresetError::ReadFailure { path, reason } => r@ == "Error reading "@ + path@ + ": "@
                    + reason@,
            },
    {
        match self {
            PresetError::CapacityExceeded { .. } => String::from_str(CAPACITY_MESSAGE),
            PresetError::OpenFailure { path, reason } => {
                let mut s = String::from_str("Error loading preset ");
                s.append(path.as_str());
                s.append(": ");
                s.append(reason.as_str());
                s
            },
            PresetError::ReadFailure { path, reason } => {
                let mut s = String::from_str("Error reading ");
                s.append(path.as_str());
                s.append(": ");
                s.append(reason.as_str());
                s
            },
        }
    }
}

/// How many presets a dialog with `rows` rows can list: row 0 and the last
/// row are the frame, and there are nine hotkey digits.
pub open spec fn capacity(rows: nat) -> nat {
    if rows < 2 {
        0
    } else if rows - 2 < 9 {
        (rows - 2) as nat
    } else {
        9
    }
}

/// The (name, path) of each entry whose name decodes, in listing order.
pub open spec fn accepted(entries: Seq<DirEntry>) -> Seq<(Seq<char>, Seq<char>)>
    decreases entries.len(),
{
    if entries.len() == 0 {
        seq![]
    } else {
        let rest = accepted(entries.drop_last());
        match entries.last().name {
            Some(n) => rest.push((n@, entries.last().path@)),
            None => rest,
        }
    }
}

/// `ps` lists the accepted entries of `entries` in order, numbered from 1.
pub open spec fn is_catalog_of(ps: Seq<Preset>, entries: Seq<DirEntry>) -> bool {
    &&& ps.len() == accepted(entries).len()
    &&& forall|j: int|
        #![trigger ps[j]]
        0 <= j < ps.len() ==> {
            &&& ps[j].ordinal == j + 1
            &&& ps[j].name@ == accepted(entries)[j].0
            &&& ps[j].path@ == accepted(entries)[j].1
        }
}

/// Numbers the entries of the preset directory whose names decode, in the
/// order listed, for a dialog of `rows` rows.
///
/// Fails with `CapacityExceeded`, and no catalog, where there are more such
/// entries than `capacity(rows)`.
pub fn scan(entries: Vec<DirEntry>, rows: usize) -> (r: Result<Vec<Preset>, PresetError>)
    ensures
        match r {
            Ok(ps) => accepted(entries@).len() <= capacity(rows as nat) && is_catalog_of(
                ps@,
                entries@,
            ),
            Err(e) => accepted(entries@).len() > capacity(rows as nat) && e
                is CapacityExceeded,
        },
{
    let limit: usize = if rows < 2 {
        0
    } else if rows - 2 < MAX_PRESETS {
        rows - 2
    } else {
        MAX_PRESETS
    };
    let mut ps: Vec<Preset> = Vec::new();
    let mut i: usize = 0;
    while i < entries.len()
        invariant
            0 <= i <= entries.len(),
            limit == capacity(rows as nat),
            ps.len() <= limit,
            is_catalog_of(ps@, entries@.take(i as int)),
        decreases entries.len() - i,
    {
        assert(entries@.take(i as int + 1).drop_last() == entries@.take(i as int));
        assert(entries@.take(i as int + 1).last() == entries@[i as int]);
        match &entries[i].name {
            Some(n) => {
                if ps.len() >= limit {
                    proof {
                        lemma_accepted_prefix(entries@, i as int + 1);
                    }
                    return Err(PresetError::CapacityExceeded { found: ps.len() + 1, limit });
                }
                let ordinal = ps.len() as u32 + 1;
                let ghost old_ps = ps@;
                ps.push(Preset { name: n.clone(), path: entries[i].path.clone(), ordinal });
                proof {
                    let pre = entries@.take(i as int);
                    let step = entries@.take(i as int + 1);
                    assert(accepted(step) == accepted(pre).push((n@, entries@[i as int].path@)));
                    assert forall|j: int| 0 <= j < ps.len() implies {
                        &&& #[trigger] ps@[j].ordinal == j + 1
                        &&& ps@[j].name@ == accepted(step)[j].0
                        &&& ps@[j].path@ == accepted(step)[j].1
                    } by {
                        if j < old_ps.len() {
                            assert(ps@[j] == old_ps[j]);
                        }
                    }
                }
            },
            None => {
                assert(accepted(entries@.take(i as int + 1)) == accepted(entries@.take(i as int)));
            },
        }
        i += 1;
    }
    assert(entries@.take(i as int) == entries@);
    Ok(ps)
}

/// A prefix of a listing accepts no more entries than the whole listing.
proof fn lemma_accepted_prefix(entries: Seq<DirEntry>, n: int)
    requires
        0 <= n <= entries.len(),
    ensures
        accepted(entries.take(n)).len() <= accepted(entries).len(),
    decreases entries.len(),
{
    if n < entries.len() {
        assert(entries.drop_last().take(n) == entries.take(n));
        lemma_accepted_prefix(entries.drop_last(), n);
    } else {
        assert(entries.take(n) == entries);
    }
}

} // verus!
