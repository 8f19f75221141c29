//! What a walk over a directory tree reports, and the rules by which it
//! picks its entries.

use vstd::prelude::*;
use vstd::string::StrSliceExecFns;
use vstd::string::StringExecFns;

use crate::utils::order::{is_size_order, lemma_size_order_descends, lemma_size_order_unique, size_order};

verus! {

/// One entry that a scan reports: its path and the sizes of all regular
/// files under it, added up.
#[derive(Clone, Debug, PartialEq, Eq)]
pub struct Entry {
    pub path: String,
    pub size: u64,
}

/// What a walk knows of one file system object: whether it is a regular
/// file, and its length in bytes.
#[derive(Clone, Copy, Debug, PartialEq, Eq)]
pub struct FileInfo {
    pub is_file: bool,
    pub len: u64,
}

/// How many of the objects are regular files.
pub open spec fn file_count(infos: Seq<FileInfo>) -> nat
    decreases infos.len(),
{
    if infos.len() == 0 {
        0
    } else {
        file_count(infos.drop_last()) + if infos.last().is_file {
            1nat
        } else {
            0nat
        }
    }
}

/// The lengths of the regular files among the objects, added up.
pub open spec fn file_bytes(infos: Seq<FileInfo>) -> nat
    decreases infos.len(),
{
    if infos.len() == 0 {
        0
    } else {
        file_bytes(infos.drop_last()) + if infos.last().is_file {
            infos.last().len as nat
        } else {
            0nat
        }
    }
}

proof fn lemma_file_bytes_grow(infos: Seq<FileInfo>, upto: int)
    requires
        0 <= upto <= infos.len(),
    ensures
        file_bytes(infos.take(upto)) <= file_bytes(infos),
        file_count(infos.take(upto)) <= upto,
    decreases infos.len() - upto,
{
    lemma_file_count_bound(infos.take(upto));
    if upto < infos.len() {
        lemma_file_bytes_grow(infos, upto + 1);
        assert(infos.take(upto + 1).drop_last() =~= infos.take(upto));
    } else {
        assert(infos.take(upto) =~= infos);
    }
}

proof fn lemma_file_count_bound(infos: Seq<FileInfo>)
    ensures
        file_count(infos) <= infos.len(),
    decreases infos.len(),
{
    if infos.len() > 0 {
        lemma_file_count_bound(infos.drop_last());
    }
}

/// The number of regular files among the objects and the sum of their
/// lengths, or nothing where the sum is more than a `u64` holds.
pub fn count_and_size(infos: &Vec<FileInfo>) -> (result: Option<(usize, u64)>)
    ensures
        result is Some <==> file_bytes(infos@) <= u64::MAX,
        result matches Some((count, size)) ==> count == file_count(infos@) && size == file_bytes(infos@),
{
    let mut count: usize = 0;
    let mut size: u64 = 0;
    let mut at: usize = 0;
    while at < infos.len()
        invariant
            at <= infos.len(),
            count == file_count(infos@.take(at as int)),
            size == file_bytes(infos@.take(at as int)),
        decreases infos.len() - at,
    {
        proof {
            assert(infos@.take(at + 1).drop_last() =~= infos@.take(at as int));
            lemma_file_bytes_grow(infos@, at + 1);
        }
        if infos[at].is_file {
            if infos[at].len > u64::MAX - size {
                return None;
            }
            count += 1;
            size += infos[at].len;
        }
        at += 1;
    }
    assert(infos@.take(infos.len() as int) =~= infos@);
    Some((count, size))
}

/// Whether the name is that of a `node_modules` directory.
pub fn is_node_modules(file_name: &str) -> (is: bool)
    ensures
        is == (file_name@ == "node_modules"@),
{
    String::from_str(file_name) == String::from_str("node_modules")
}

/// Whether the name is that of a hidden entry: it starts with a dot.
pub fn is_hidden(file_name: &str) -> (hidden: bool)
    ensures
        hidden == (file_name@.len() > 0 && file_name@[0] == '.'),
{
    file_name.unicode_len() > 0 && file_name.get_char(0) == '.'
}

/// Whether a walk goes on to an entry: it does unless the name of the
/// directory that holds the entry meets the predicate. What lies under a
/// reported entry is therefore not looked at again.
pub fn filter_entry_parent_from_predicate<P: Fn(&str) -> bool>(
    parent_name: Option<&str>,
    filter_filename_predicate: &P,
) -> (visit: bool)
    requires
        parent_name matches Some(name) ==> filter_filename_predicate.requires((name,)),
    ensures
        match parent_name {
            Some(name) => filter_filename_predicate.ensures((name,), !visit),
            None => visit,
        },
{
    match parent_name {
        Some(name) => !filter_filename_predicate(name),
        None => true,
    }
}

/// The sizes of entries.
pub open spec fn sizes_of(entries: Seq<Entry>) -> Seq<u64> {
    entries.map_values(|entry: Entry| entry.size)
}

/// The entries in a given order of their rows.
pub open spec fn arranged(entries: Seq<Entry>, order: Seq<usize>) -> Seq<Entry> {
    Seq::new(order.len(), |i: int| entries[order[i] as int])
}

/// Whether `shown` holds the entries that were found, largest first, and
/// among those of one size in the order in which they were found.
pub open spec fn is_sorted_scan(found: Seq<Entry>, shown: Seq<Entry>) -> bool {
    exists|order: Seq<usize>| is_size_order(sizes_of(found), order) && shown == arranged(found, order)
}

fn copy_of(entry: &Entry) -> (copy: Entry)
    ensures
        copy == *entry,
{
    Entry { path: entry.path.clone(), size: entry.size }
}

/// Sorts the entries that a walk found: largest first, those of one size
/// in the order in which they were found.
pub fn sort_by_size(found: Vec<Entry>) -> (shown: Vec<Entry>)
    ensures
        is_sorted_scan(found@, shown@),
{
    let mut sizes: Vec<u64> = Vec::new();
    let mut at: usize = 0;
    while at < found.len()
        invariant
            at <= found.len(),
            sizes@ == sizes_of(found@.take(at as int)),
        decreases found.len() - at,
    {
        sizes.push(found[at].size);
        assert(sizes@ =~= sizes_of(found@.take(at + 1)));
        at += 1;
    }
    assert(found@.take(found.len() as int) =~= found@);
    let order = size_order(&sizes);
    let mut shown: Vec<Entry> = Vec::new();
    let mut i: usize = 0;
    while i < order.len()
        invariant
            i <= order.len(),
            is_size_order(sizes_of(found@), order@),
            shown@ == arranged(found@, order@.take(i as int)),
        decreases order.len() - i,
    {
        shown.push(copy_of(&found[order[i]]));
        assert(shown@ =~= arranged(found@, order@.take(i + 1)));
        i += 1;
    }
    assert(order@.take(order.len() as int) =~= order@);
    shown
}

/// What was found decides what is shown: two sorted lists of the same
/// entries are one.
pub proof fn lemma_sorted_scan_unique(found: Seq<Entry>, first: Seq<Entry>, second: Seq<Entry>)
    requires
        is_sorted_scan(found, first),
        is_sorted_scan(found, second),
    ensures
        first == second,
{
    let a = choose|order: Seq<usize>| is_size_order(sizes_of(found), order) && first == arranged(found, order);
    let b = choose|order: Seq<usize>| is_size_order(sizes_of(found), order) && second == arranged(found, order);
    lemma_size_order_unique(sizes_of(found), a, b);
}

/// In a sorted list no entry is followed by a larger one.
pub proof fn lemma_sorted_scan_descends(found: Seq<Entry>, shown: Seq<Entry>, i: int)
    requires
        is_sorted_scan(found, shown),
        0 <= i,
        i + 1 < shown.len(),
    ensures
        shown[i].size >= shown[i + 1].size,
{
    let order = choose|order: Seq<usize>| is_size_order(sizes_of(found), order) && shown == arranged(found, order);
    lemma_size_order_descends(sizes_of(found), order, i);
}

/// A sorted list holds as many entries as were found.
pub proof fn lemma_sorted_scan_len(found: Seq<Entry>, shown: Seq<Entry>)
    requires
        is_sorted_scan(found, shown),
    ensures
        shown.len() == found.len(),
{
}

} // verus!
