//! The directory scanner: blacklist enforcement and candidate-file
//! selection over a recorded directory walk.
//!
//! The walk itself is I/O and happens outside the library; it is handed in
//! as a sequence of [`FsEntry`] values (path, kind, depth).  Everything
//! that decides which files are candidates, and which one is picked, is
//! verified here.

use crate::rng::rand_index;
use crate::text::{contains_seq, contains_str, in_subtree, is_image_path, path_has_image_ext,
    path_in_subtree};
use vstd::prelude::*;

verus! {

/// Error returned by the scanner when a walk yields no candidate file.
#[derive(Debug)]
pub struct BlklsError {
    description: String,
}

impl View for BlklsError {
    type V = Seq<char>;

    closed spec fn view(&self) -> Seq<char> {
        self.description@
    }
}

impl BlklsError {
    /// Wraps a message in an error value.
    pub fn new(msg: &str) -> (e: BlklsError)
        ensures
            e@ == msg@,
    {
        BlklsError { description: msg.to_owned() }
    }

    /// The error's message.
    pub fn message(&self) -> (m: String)
        ensures
            m@ == self@,
    {
        self.description.clone()
    }
}

/// Some blacklist entry of at least three characters occurs in `name`.
/// Shorter entries are deliberately ignored: they are too unspecific to
/// be useful and would block almost everything.
pub open spec fn spec_blacklisted(name: Seq<char>, black_list: Seq<String>) -> bool {
    exists|k: int|
        0 <= k < black_list.len() && (#[trigger] black_list[k])@.len() >= 3 && contains_seq(
            name,
            black_list[k]@,
        )
}

/// Checks `name` against the blacklist.  Returns `true` when the name is
/// clean: no entry of length at least three occurs in it.  Entries shorter
/// than three characters never cause a rejection.
pub fn check_black_list(name: &String, black_list: &Vec<String>) -> (r: bool)
    ensures
        r == !spec_blacklisted(name@, black_list@),
{
    let mut k: usize = 0;
    while k < black_list.len()
        invariant
            k <= black_list@.len(),
            forall|t: int|
                0 <= t < k ==> !((#[trigger] black_list@[t])@.len() >= 3 && contains_seq(
                    name@,
                    black_list@[t]@,
                )),
        decreases black_list@.len() - k,
    {
        let word = &black_list[k];
        if word.as_str().unicode_len() >= 3 {
            if contains_str(name.as_str(), word.as_str()) {
                return false;
            }
        }
        k += 1;
    }
    true
}

/// Blacklist entries shorter than three characters never block a name: a
/// blacklist made only of such entries admits every name.
pub proof fn lemma_short_entries_never_block(name: Seq<char>, black_list: Seq<String>)
    requires
        forall|k: int| 0 <= k < black_list.len() ==> (#[trigger] black_list[k])@.len() < 3,
    ensures
        !spec_blacklisted(name, black_list),
{
}

/// Adding an entry of fewer than three characters to a blacklist never
/// changes what the blacklist blocks.
pub proof fn lemma_short_entry_is_inert(name: Seq<char>, black_list: Seq<String>, word: String)
    requires
        word@.len() < 3,
    ensures
        spec_blacklisted(name, black_list.push(word)) == spec_blacklisted(name, black_list),
{
    let longer = black_list.push(word);
    if spec_blacklisted(name, black_list) {
        let k = choose|k: int|
            0 <= k < black_list.len() && (#[trigger] black_list[k])@.len() >= 3 && contains_seq(
                name,
                black_list[k]@,
            );
        assert(longer[k] == black_list[k]);
        assert(spec_blacklisted(name, longer));
    }
    if spec_blacklisted(name, longer) {
        let k = choose|k: int|
            0 <= k < longer.len() && (#[trigger] longer[k])@.len() >= 3 && contains_seq(
                name,
                longer[k]@,
            );
        assert(longer[k]@.len() >= 3);
        assert(k < black_list.len()) by {
            assert(longer[black_list.len() as int] == word);
        }
        assert(longer[k] == black_list[k]);
        assert(spec_blacklisted(name, black_list));
    }
}

/// One entry of a directory walk, reduced to plain values: its path
/// (with `/` separators), whether it is a directory, and its depth below
/// the walk's root (the root itself has depth `0`).
#[derive(Clone, Debug)]
pub struct FsEntry {
    pub path: String,
    pub is_dir: bool,
    pub depth: u32,
}

/// `path` lies under some directory of the walk that the blacklist
/// rejects, counting only directories within the traversal depth.  Such a
/// directory is excluded from traversal before its contents are visited,
/// so nothing below it can become a candidate.
pub open spec fn spec_entry_pruned(
    path: Seq<char>,
    entries: Seq<FsEntry>,
    max_depth: u32,
    black_list: Seq<String>,
) -> bool {
    exists|j: int|
        0 <= j < entries.len() && (#[trigger] entries[j]).is_dir && entries[j].depth <= max_depth
            && spec_blacklisted(entries[j].path@, black_list) && in_subtree(
            path,
            entries[j].path@,
        )
}

/// The file at `e` is a candidate of the walk `entries`: a `jpg` or `png`
/// file within the traversal depth that, when the folder blacklist is
/// enabled, does not lie under a blacklisted directory.
pub open spec fn spec_is_candidate(
    e: FsEntry,
    entries: Seq<FsEntry>,
    max_depth: u32,
    blacklist_enabled: bool,
    black_list: Seq<String>,
) -> bool {
    &&& !e.is_dir
    &&& e.depth <= max_depth
    &&& is_image_path(e.path@)
    &&& (blacklist_enabled ==> !spec_entry_pruned(e.path@, entries, max_depth, black_list))
}

/// The candidate paths among the first `i` entries of the walk, in walk
/// order.
pub open spec fn spec_candidates_upto(
    entries: Seq<FsEntry>,
    i: int,
    max_depth: u32,
    blacklist_enabled: bool,
    black_list: Seq<String>,
) -> Seq<Seq<char>>
    decreases i,
{
    if i <= 0 {
        Seq::empty()
    } else {
        let rest = spec_candidates_upto(entries, i - 1, max_depth, blacklist_enabled, black_list);
        if spec_is_candidate(entries[i - 1], entries, max_depth, blacklist_enabled, black_list) {
            rest.push(entries[i - 1].path@)
        } else {
            rest
        }
    }
}

/// All candidate paths of the walk, in walk order.
pub open spec fn spec_candidates(
    entries: Seq<FsEntry>,
    max_depth: u32,
    blacklist_enabled: bool,
    black_list: Seq<String>,
) -> Seq<Seq<char>> {
    spec_candidates_upto(entries, entries.len() as int, max_depth, blacklist_enabled, black_list)
}

/// Decides whether `path` lies under a blacklisted directory of the walk.
fn entry_pruned(
    path: &String,
    entries: &Vec<FsEntry>,
    max_depth: u32,
    black_list: &Vec<String>,
) -> (r: bool)
    ensures
        r == spec_entry_pruned(path@, entries@, max_depth, black_list@),
{
    let mut j: usize = 0;
    while j < entries.len()
        invariant
            j <= entries@.len(),
            forall|t: int|
                0 <= t < j ==> !((#[trigger] entries@[t]).is_dir && entries@[t].depth <= max_depth
                    && spec_blacklisted(entries@[t].path@, black_list@) && in_subtree(
                    path@,
                    entries@[t].path@,
                )),
        decreases entries@.len() - j,
    {
        let e = &entries[j];
        if e.is_dir && e.depth <= max_depth {
            if !check_black_list(&e.path, black_list) {
                if path_in_subtree(path.as_str(), e.path.as_str()) {
                    return true;
                }
            }
        }
        j += 1;
    }
    false
}

/// Scans a recorded directory walk for image candidates.
///
/// A file is a candidate iff its extension is exactly `jpg` or `png`
/// (case-sensitive), it lies within `max_depth` levels of the root, and,
/// when `blacklist_enabled` holds, it does not lie under a directory that
/// the blacklist rejects.  The candidates come back in walk order; an
/// empty result is an explicit error, never a valid pool.
pub fn get_file_list(
    entries: &Vec<FsEntry>,
    max_depth: u32,
    blacklist_enabled: bool,
    black_list: &Vec<String>,
) -> (r: Result<Vec<String>, BlklsError>)
    ensures
        match r {
            Ok(files) => files@.len() > 0 && files@.map_values(|s: String| s@) == spec_candidates(
                entries@,
                max_depth,
                blacklist_enabled,
                black_list@,
            ),
            Err(e) => spec_candidates(entries@, max_depth, blacklist_enabled, black_list@).len()
                == 0 && e@ == "File list is empty"@,
        },
{
    let mut files: Vec<String> = Vec::new();
    let mut i: usize = 0;
    while i < entries.len()
        invariant
            i <= entries@.len(),
            files@.map_values(|s: String| s@) == spec_candidates_upto(
                entries@,
                i as int,
                max_depth,
                blacklist_enabled,
                black_list@,
            ),
        decreases entries@.len() - i,
    {
        let e = &entries[i];
        if !e.is_dir && e.depth <= max_depth && path_has_image_ext(e.path.as_str()) && (
        !blacklist_enabled || !entry_pruned(&e.path, entries, max_depth, black_list)) {
            files.push(e.path.clone());
            proof {
                assert(files@.map_values(|s: String| s@) =~= spec_candidates_upto(
                    entries@,
                    i + 1,
                    max_depth,
                    blacklist_enabled,
                    black_list@,
                ));
            }
        } else {
            proof {
                assert(files@.map_values(|s: String| s@) =~= spec_candidates_upto(
                    entries@,
                    i + 1,
                    max_depth,
                    blacklist_enabled,
                    black_list@,
                ));
            }
        }
        i += 1;
    }
    if files.len() < 1 {
        Err(BlklsError::new("File list is empty"))
    } else {
        Ok(files)
    }
}

/// Picks one image from the pool, as the selection step after a scan.
/// With more than one candidate the choice is random; a pool of exactly
/// one element is always chosen; an empty pool yields the empty path.
pub fn get_rand_image(list: &Vec<String>) -> (r: String)
    ensures
        list@.len() == 0 ==> r@ == Seq::<char>::empty(),
        list@.len() >= 1 ==> exists|i: int| 0 <= i < list@.len() && r@ == (#[trigger] list@[i])@,
        list@.len() == 1 ==> r@ == list@[0]@,
{
    if list.len() > 1 {
        let i = rand_index(list.len());
        list[i].clone()
    } else if list.len() == 1 {
        list[0].clone()
    } else {
        String::new()
    }
}

/// Picks one element of a non-empty list uniformly at random.  With a
/// single element no random draw is observable: that element is returned.
pub fn pick_random(list: &Vec<String>) -> (r: String)
    requires
        list@.len() >= 1,
    ensures
        exists|i: int| 0 <= i < list@.len() && r@ == (#[trigger] list@[i])@,
        list@.len() == 1 ==> r@ == list@[0]@,
{
    if list.len() > 1 {
        let i = rand_index(list.len());
        list[i].clone()
    } else {
        list[0].clone()
    }
}

} // verus!
