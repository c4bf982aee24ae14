//! Reading back what earlier runs left: which stored file is the latest of a
//! kind, and when a stored confession counts as none.

use vstd::prelude::*;
use crate::text::{chars_of, is_blank, is_blank_seq};

verus! {

/// A file found in a memory folder: its name and when it was last modified
/// (nanoseconds since the Unix epoch; 0 where that could not be read).
pub struct FileEntry {
    pub name: String,
    pub modified: u128,
}

/// The file name `name` carries the extension `ext`: `ext` holds no dot, and
/// `name` is a non-empty stem, a dot, then `ext`.
pub open spec fn has_extension_seq(name: Seq<char>, ext: Seq<char>) -> bool {
    &&& forall|k: int| 0 <= k < ext.len() ==> ext[k] != '.'
    &&& name.len() > ext.len() + 1
    &&& name[name.len() - ext.len() - 1] == '.'
    &&& name.subrange(name.len() - ext.len(), name.len() as int) == ext
}

/// Whether the file name `name` carries the extension `ext`.
pub fn has_extension(name: &str, ext: &str) -> (r: bool)
    ensures
        r == has_extension_seq(name@, ext@),
{
    let nc = chars_of(name);
    let ec = chars_of(ext);
    let mut k: usize = 0;
    while k < ec.len()
        invariant
            ec@ == ext@,
            k <= ec.len(),
            forall|j: int| 0 <= j < k ==> ec@[j] != '.',
        decreases ec.len() - k,
    {
        if ec[k] == '.' {
            return false;
        }
        k += 1;
    }
    if nc.len() <= ec.len() || nc.len() - ec.len() <= 1 {
        return false;
    }
    let d = nc.len() - ec.len() - 1;
    if nc[d] != '.' {
        return false;
    }
    let mut j: usize = 0;
    while j < ec.len()
        invariant
            nc@ == name@,
            ec@ == ext@,
            d + 1 + ec.len() == nc.len(),
            j <= ec.len(),
            forall|m: int| 0 <= m < j ==> nc@[d + 1 + m] == ec@[m],
        decreases ec.len() - j,
    {
        if nc[d + 1 + j] != ec[j] {
            assert(name@.subrange(name@.len() - ext@.len(), name@.len() as int)[j as int]
                != ext@[j as int]);
            return false;
        }
        j += 1;
    }
    assert(name@.subrange(name@.len() - ext@.len(), name@.len() as int) =~= ext@);
    true
}

/// Position `i` holds the latest entry with extension `ext`: it matches, no
/// matching entry is newer, and none after it is as new.
pub open spec fn is_latest(entries: Seq<FileEntry>, ext: Seq<char>, i: int) -> bool {
    &&& 0 <= i < entries.len()
    &&& has_extension_seq(entries[i].name@, ext)
    &&& forall|j: int|
        0 <= j < entries.len() && has_extension_seq(#[trigger] entries[j].name@, ext) ==> {
            &&& entries[j].modified <= entries[i].modified
            &&& (j > i ==> entries[j].modified < entries[i].modified)
        }
}

/// The position of the most recently modified entry with extension `ext`
/// (the later one where two are equally recent), or `None` where no entry has
/// that extension.
pub fn latest_matching(entries: &Vec<FileEntry>, ext: &str) -> (r: Option<usize>)
    ensures
        r is None <==> forall|j: int|
            0 <= j < entries.len() ==> !has_extension_seq(#[trigger] entries[j].name@, ext@),
        r matches Some(i) ==> is_latest(entries@, ext@, i as int),
{
    let mut best: Option<usize> = None;
    let mut i: usize = 0;
    while i < entries.len()
        invariant
            i <= entries.len(),
            best is None <==> forall|j: int|
                0 <= j < i ==> !has_extension_seq(#[trigger] entries[j].name@, ext@),
            best matches Some(b) ==> b < i && is_latest(entries@.take(i as int), ext@, b as int),
        decreases entries.len() - i,
    {
        if has_extension(entries[i].name.as_str(), ext) {
            let newer = match best {
                None => true,
                Some(b) => entries[b].modified <= entries[i].modified,
            };
            if newer {
                best = Some(i);
            }
        }
        i += 1;
    }
    proof {
        assert(entries@.take(entries.len() as int) =~= entries@);
    }
    best
}

/// A confession read back: `None` where the text is blank, the text itself
/// otherwise.
pub fn confession_text(content: String) -> (r: Option<String>)
    ensures
        r is None <==> is_blank_seq(content@),
        r matches Some(t) ==> t@ == content@,
{
    if is_blank(content.as_str()) {
        None
    } else {
        Some(content)
    }
}

} // verus!
