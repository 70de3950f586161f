//! Artifact location: among the entries of a build output directory, pick
//! the most recently modified wheel file.
//!
//! The caller lists the directory and hands over each entry's file name and
//! modification time as plain values; absence of the directory is reported
//! as an empty listing. Ties on the modification time are broken
//! deterministically in favour of the entry latest in the listing order.

use vstd::prelude::*;

verus! {

/// One directory entry: its file name and its modification time, as a count
/// of time units since some fixed epoch (an entry whose time cannot be read
/// is reported with time zero, the minimum).
pub struct ArtifactEntry {
    pub name: String,
    pub modified: u64,
}

/// Whether a file name is a wheel artifact: it ends in `.whl` with a
/// non-empty stem before the dot-suffix.
pub open spec fn is_wheel_name(s: Seq<char>) -> bool {
    s.len() > 4 && s.subrange(s.len() - 4, s.len() as int) == ".whl"@
}

/// Checks the wheel suffix of a file name.
pub fn has_wheel_suffix(name: &str) -> (r: bool)
    ensures
        r == is_wheel_name(name@),
{
    let len = name.unicode_len();
    if len <= 4 {
        return false;
    }
    let ghost suffix = name@.subrange(name@.len() - 4, name@.len() as int);
    proof {
        reveal_strlit(".whl");
        assert(suffix.len() == 4);
    }
    let r = name.get_char(len - 4) == '.' && name.get_char(len - 3) == 'w' && name.get_char(
        len - 2,
    ) == 'h' && name.get_char(len - 1) == 'l';
    proof {
        assert(suffix[0] == name@[len - 4]);
        assert(suffix[1] == name@[len - 3]);
        assert(suffix[2] == name@[len - 2]);
        assert(suffix[3] == name@[len - 1]);
        if r {
            assert(suffix =~= ".whl"@);
        } else {
            assert(suffix != ".whl"@) by {
                if suffix == ".whl"@ {
                    assert(suffix[0] == '.' && suffix[1] == 'w' && suffix[2] == 'h' && suffix[3]
                        == 'l');
                }
            }
        }
    }
    r
}

/// No entry of the listing is a wheel artifact.
pub open spec fn no_wheel(entries: Seq<ArtifactEntry>) -> bool {
    forall|j: int| 0 <= j < entries.len() ==> !is_wheel_name(#[trigger] entries[j].name@)
}

/// Entry `i` is the latest wheel of the listing: a wheel whose modification
/// time no wheel exceeds, and the last such entry in listing order among
/// those sharing that time.
pub open spec fn is_latest_wheel(entries: Seq<ArtifactEntry>, i: int) -> bool {
    &&& 0 <= i < entries.len()
    &&& is_wheel_name(entries[i].name@)
    &&& forall|j: int|
        0 <= j < entries.len() && is_wheel_name(#[trigger] entries[j].name@)
            ==> entries[j].modified <= entries[i].modified
    &&& forall|j: int|
        i < j < entries.len() && is_wheel_name(#[trigger] entries[j].name@)
            ==> entries[j].modified < entries[i].modified
}

/// The latest wheel among the listed entries: the index of the entry with
/// the greatest modification time among those whose name has the wheel
/// suffix, or `None` when no entry matches (an empty or missing directory
/// included). Among entries sharing the greatest time, the one latest in
/// the listing wins.
pub fn latest_artifact(entries: &Vec<ArtifactEntry>) -> (r: Option<usize>)
    ensures
        r is None <==> no_wheel(entries@),
        r matches Some(i) ==> is_latest_wheel(entries@, i as int),
{
    let mut best: Option<usize> = None;
    let mut k: usize = 0;
    while k < entries.len()
        invariant
            0 <= k <= entries@.len(),
            best is None <==> (forall|j: int|
                0 <= j < k ==> !is_wheel_name(#[trigger] entries@[j].name@)),
            best matches Some(i) ==> {
                &&& 0 <= i < k
                &&& is_wheel_name(entries@[i as int].name@)
                &&& forall|j: int|
                    0 <= j < k && is_wheel_name(#[trigger] entries@[j].name@)
                        ==> entries@[j].modified <= entries@[i as int].modified
                &&& forall|j: int|
                    i < j < k && is_wheel_name(#[trigger] entries@[j].name@)
                        ==> entries@[j].modified < entries@[i as int].modified
            },
        decreases entries@.len() - k,
    {
        if has_wheel_suffix(entries[k].name.as_str()) {
            match best {
                None => {
                    best = Some(k);
                },
                Some(i) => {
                    if entries[i].modified <= entries[k].modified {
                        best = Some(k);
                    }
                },
            }
        }
        k += 1;
    }
    best
}

} // verus!
