//! The listing of one directory.
//!
//! The entries of the directory come from outside, in whatever order the file
//! system gave them.  They are sorted, directories first and then by name;
//! a directory that holds an index file is answered with that file; any other
//! directory is answered with one row for each entry, and before them, below
//! the served directory, a row that leads back up.

use crate::media::{category_of, classify, media_of, Category, EntryKind};
use crate::path::{join_path, url_of, ServePath};
use crate::size::{format_size, size_text};
use crate::text::{
    followed_by, lemma_lex_lt_asymmetric, lemma_lex_lt_total, lemma_lex_lt_transitive, lex_lt,
    same_text, text_lt,
};
use crate::time::{format_time, time_text};
use vstd::prelude::*;

verus! {

/// One entry of a directory, as the file system told of it.
#[derive(Clone, Debug, PartialEq, Eq)]
pub struct FsEntry {
    /// The name of the entry in its directory.
    pub name: String,
    /// What kind of thing it is.
    pub kind: EntryKind,
    /// Its length in bytes, where its metadata could be read.
    pub size: Option<u64>,
    /// When it was last modified, in seconds since the Unix epoch, where that
    /// is known and not before the epoch.
    pub modified: Option<u64>,
}

/// The model of an `FsEntry`.
pub struct FsEntryModel {
    pub name: Seq<char>,
    pub kind: EntryKind,
    pub size: Option<u64>,
    pub modified: Option<u64>,
}

impl View for FsEntry {
    type V = FsEntryModel;

    open spec fn view(&self) -> FsEntryModel {
        FsEntryModel { name: self.name@, kind: self.kind, size: self.size, modified: self.modified }
    }
}

/// One row of a listing.
#[derive(Clone, Debug, PartialEq, Eq)]
pub struct DirEntryView {
    /// The name shown.
    pub name: String,
    /// What the entry is shown as.
    pub category: Category,
    /// When it was last modified, or nothing.
    pub last_modified: String,
    /// How large it is, or nothing.
    pub size: String,
    /// The path that the row leads to.
    pub relative_path: String,
    /// The path that downloads the entry, or nothing.
    pub download_link: String,
}

/// The model of a `DirEntryView`.
pub struct DirEntryModel {
    pub name: Seq<char>,
    pub category: Category,
    pub last_modified: Seq<char>,
    pub size: Seq<char>,
    pub relative_path: Seq<char>,
    pub download_link: Seq<char>,
}

impl View for DirEntryView {
    type V = DirEntryModel;

    open spec fn view(&self) -> DirEntryModel {
        DirEntryModel {
            name: self.name@,
            category: self.category,
            last_modified: self.last_modified@,
            size: self.size@,
            relative_path: self.relative_path@,
            download_link: self.download_link@,
        }
    }
}

/// What a directory is answered with.
#[derive(Clone, Debug, PartialEq, Eq)]
pub enum DirOutcome {
    /// The directory holds an index file: the file at this path is served in
    /// place of a listing.
    Index(ServePath),
    /// The rows of the listing, and the path of the directory as the page
    /// names it.
    Listing { rows: Vec<DirEntryView>, path: String },
}

/// The model of a `DirOutcome`.
pub enum DirOutcomeModel {
    Index(Seq<Seq<char>>),
    Listing { rows: Seq<DirEntryModel>, path: Seq<char> },
}

/// The models of a sequence of entries.
pub open spec fn entry_views(entries: Seq<FsEntry>) -> Seq<FsEntryModel> {
    Seq::new(entries.len(), |i: int| entries[i]@)
}

/// The models of a sequence of rows.
pub open spec fn row_views(rows: Seq<DirEntryView>) -> Seq<DirEntryModel> {
    Seq::new(rows.len(), |i: int| rows[i]@)
}

impl View for DirOutcome {
    type V = DirOutcomeModel;

    open spec fn view(&self) -> DirOutcomeModel {
        match self {
            DirOutcome::Index(path) => DirOutcomeModel::Index(path@),
            DirOutcome::Listing { rows, path } => DirOutcomeModel::Listing {
                rows: row_views(rows@),
                path: path@,
            },
        }
    }
}

/// Whether the entry is a directory.
pub open spec fn is_dir(e: FsEntryModel) -> bool {
    e.kind == EntryKind::Directory
}

/// The order of a listing: a directory comes before anything that is none;
/// of two directories, or two that are none, the one whose name comes first.
pub open spec fn precedes(a: FsEntryModel, b: FsEntryModel) -> bool {
    if is_dir(a) != is_dir(b) {
        is_dir(a)
    } else {
        lex_lt(a.name, b.name)
    }
}

/// Whether no entry of `s` stands before one that precedes it.
pub open spec fn is_ordered(s: Seq<FsEntryModel>) -> bool {
    forall|i: int, j: int| 0 <= i < j < s.len() ==> !precedes(#[trigger] s[j], #[trigger] s[i])
}

/// The ordered sequence `s` with `e` put in its place: behind every entry
/// that it does not precede.
pub open spec fn insert_ordered(s: Seq<FsEntryModel>, e: FsEntryModel) -> Seq<FsEntryModel>
    decreases s.len(),
{
    if s.len() > 0 && precedes(e, s.last()) {
        insert_ordered(s.drop_last(), e).push(s.last())
    } else {
        s.push(e)
    }
}

/// The entries in the order of a listing.  Entries of which neither precedes
/// the other keep the order in which they came.
pub open spec fn sorted_entries(s: Seq<FsEntryModel>) -> Seq<FsEntryModel>
    decreases s.len(),
{
    if s.len() == 0 {
        s
    } else {
        insert_ordered(sorted_entries(s.drop_last()), s.last())
    }
}

/// Whether a file of this name is served in place of a listing of its
/// directory.
pub open spec fn is_index_name(name: Seq<char>) -> bool {
    name == "index.html"@ || name == "index.htm"@
}

/// The position of the first entry with an index name, if there is one.
pub open spec fn first_index(s: Seq<FsEntryModel>) -> Option<int>
    decreases s.len(),
{
    if s.len() == 0 {
        None
    } else {
        match first_index(s.drop_last()) {
            Some(i) => Some(i),
            None => if is_index_name(s.last().name) {
                Some(s.len() - 1)
            } else {
                None
            },
        }
    }
}

/// The row that leads from the directory `dir` to the one above it.
pub open spec fn back_row(dir: Seq<Seq<char>>) -> DirEntryModel {
    DirEntryModel {
        name: "Go Back"@,
        category: Category::Back,
        last_modified: Seq::empty(),
        size: Seq::empty(),
        relative_path: url_of(dir.drop_last()),
        download_link: Seq::empty(),
    }
}

/// The row for the entry `e` of the directory `dir`, with times shown at
/// `offset` seconds east of UTC.  A directory has neither size nor download
/// link; what is unknown of an entry is shown as nothing.
pub open spec fn row_of(dir: Seq<Seq<char>>, e: FsEntryModel, offset: int) -> DirEntryModel {
    let path = url_of(dir.push(e.name));
    DirEntryModel {
        name: e.name,
        category: category_of(e.kind, media_of(e.name)),
        last_modified: time_text(e.modified, offset),
        size: match e.size {
            Some(n) if !is_dir(e) => size_text(n as nat),
            _ => Seq::empty(),
        },
        relative_path: path,
        download_link: if is_dir(e) {
            Seq::empty()
        } else {
            path + "?download"@
        },
    }
}

/// The rows of the listing of `dir` for entries that are in order: the way
/// back, unless `dir` is the served directory itself, then a row for each
/// entry.
pub open spec fn rows_of(dir: Seq<Seq<char>>, sorted: Seq<FsEntryModel>, offset: int) -> Seq<
    DirEntryModel,
> {
    let rows = Seq::new(sorted.len(), |i: int| row_of(dir, sorted[i], offset));
    if dir.len() > 0 {
        seq![back_row(dir)] + rows
    } else {
        rows
    }
}

/// What the directory `dir` with the given entries is answered with.
pub open spec fn dir_outcome(dir: Seq<Seq<char>>, entries: Seq<FsEntryModel>, offset: int) -> DirOutcomeModel {
    let sorted = sorted_entries(entries);
    match first_index(sorted) {
        Some(i) => DirOutcomeModel::Index(dir.push(sorted[i].name)),
        None => DirOutcomeModel::Listing { rows: rows_of(dir, sorted, offset), path: join_path(dir) },
    }
}

/// Of three entries, where the first precedes the third it precedes the
/// second or the second precedes the third.
pub proof fn lemma_precedes_between(a: FsEntryModel, b: FsEntryModel, c: FsEntryModel)
    requires
        precedes(a, c),
    ensures
        precedes(a, b) || precedes(b, c),
{
    if is_dir(a) == is_dir(b) && is_dir(b) == is_dir(c) {
        lemma_lex_lt_total(a.name, b.name);
        if lex_lt(b.name, a.name) {
            lemma_lex_lt_transitive(b.name, a.name, c.name);
        }
    }
}

/// Of two entries at most one precedes the other.
pub proof fn lemma_precedes_asymmetric(a: FsEntryModel, b: FsEntryModel)
    ensures
        !(precedes(a, b) && precedes(b, a)),
{
    lemma_lex_lt_asymmetric(a.name, b.name);
}

/// Where `e` goes when it is put into `s`: to the position `p` behind which
/// it precedes every entry and before which it does not precede the last.
pub proof fn lemma_insert_position(s: Seq<FsEntryModel>, e: FsEntryModel, p: int)
    requires
        0 <= p <= s.len(),
        forall|k: int| p <= k < s.len() ==> precedes(e, #[trigger] s[k]),
        p > 0 ==> !precedes(e, s[p - 1]),
    ensures
        insert_ordered(s, e) == s.insert(p, e),
    decreases s.len(),
{
    if s.len() > 0 && precedes(e, s.last()) {
        lemma_insert_position(s.drop_last(), e, p);
    }
}

/// Putting an entry into an ordered sequence leaves it ordered, one longer,
/// and holding what it held and the entry.
pub proof fn lemma_insert_keeps_order(s: Seq<FsEntryModel>, e: FsEntryModel)
    requires
        is_ordered(s),
    ensures
        is_ordered(insert_ordered(s, e)),
        insert_ordered(s, e).len() == s.len() + 1,
        insert_ordered(s, e).to_multiset() == s.to_multiset().insert(e),
    decreases s.len(),
{
    broadcast use vstd::seq_lib::group_to_multiset_ensures;

    if s.len() > 0 && precedes(e, s.last()) {
        let head = s.drop_last();
        let last = s.last();
        lemma_insert_keeps_order(head, e);
        let t = insert_ordered(head, e);
        let out = t.push(last);
        assert forall|i: int, j: int| 0 <= i < j < out.len() implies !precedes(
            #[trigger] out[j],
            #[trigger] out[i],
        ) by {
            if j == t.len() {
                // `out[j]` is `last`, and `out[i]` is `e` or an entry of `head`.
                assert(t.to_multiset().count(t[i]) > 0);
                if t[i] == e {
                    lemma_precedes_asymmetric(e, last);
                }
            }
        }
        assert(s =~= head.push(last));
    } else {
        let out = s.push(e);
        assert forall|i: int, j: int| 0 <= i < j < out.len() implies !precedes(
            #[trigger] out[j],
            #[trigger] out[i],
        ) by {
            if j == s.len() && i < s.len() - 1 && precedes(e, s[i]) {
                // `e` does not precede the last entry, so it precedes none.
                lemma_precedes_between(e, s.last(), s[i]);
            }
        }
    }
}

/// Sorting gives an ordered sequence that holds the same entries, each as
/// often as before.
pub proof fn lemma_sorted_is_ordered_permutation(s: Seq<FsEntryModel>)
    ensures
        is_ordered(sorted_entries(s)),
        sorted_entries(s).len() == s.len(),
        sorted_entries(s).to_multiset() == s.to_multiset(),
    decreases s.len(),
{
    broadcast use vstd::seq_lib::group_to_multiset_ensures;

    if s.len() > 0 {
        lemma_sorted_is_ordered_permutation(s.drop_last());
        lemma_insert_keeps_order(sorted_entries(s.drop_last()), s.last());
        assert(s =~= s.drop_last().push(s.last()));
    }
}

/// In a sorted listing every directory stands before everything that is
/// none, and of two entries of a kind the one that stands first has the same
/// name as the other or a name that comes before it.
pub proof fn lemma_sorted_directories_first(s: Seq<FsEntryModel>, i: int, j: int)
    requires
        0 <= i < j < s.len(),
    ensures
        is_dir(sorted_entries(s)[j]) ==> is_dir(sorted_entries(s)[i]),
        is_dir(sorted_entries(s)[i]) == is_dir(sorted_entries(s)[j]) ==> (sorted_entries(s)[i].name
            == sorted_entries(s)[j].name || lex_lt(
            sorted_entries(s)[i].name,
            sorted_entries(s)[j].name,
        )),
{
    lemma_sorted_is_ordered_permutation(s);
    let out = sorted_entries(s);
    lemma_lex_lt_total(out[i].name, out[j].name);
}

/// Whether no two entries of `s` have the same name.
pub open spec fn has_distinct_names(s: Seq<FsEntryModel>) -> bool {
    forall|i: int, j: int| 0 <= i < j < s.len() ==> (#[trigger] s[i]).name != (#[trigger] s[j]).name
}

/// The entries of a directory, which have a name each, are listed with every
/// directory before every file and, within each of the two, by names in
/// strictly ascending order.
pub proof fn lemma_sorted_strictly_ascending(s: Seq<FsEntryModel>, i: int, j: int)
    requires
        has_distinct_names(s),
        0 <= i < j < s.len(),
    ensures
        is_dir(sorted_entries(s)[j]) ==> is_dir(sorted_entries(s)[i]),
        is_dir(sorted_entries(s)[i]) == is_dir(sorted_entries(s)[j]) ==> lex_lt(
            sorted_entries(s)[i].name,
            sorted_entries(s)[j].name,
        ),
{
    broadcast use vstd::seq_lib::group_to_multiset_ensures;

    lemma_sorted_is_ordered_permutation(s);
    lemma_sorted_directories_first(s, i, j);
    let out = sorted_entries(s);
    if out[i].name == out[j].name {
        // Two places of the sorted sequence hold entries of one name; the
        // sequence holds each entry as often as `s` does, so `s` would hold
        // two entries of that name as well.
        assert(out.to_multiset().count(out[i]) > 0);
        assert(out.to_multiset().count(out[j]) > 0);
        let a = choose|a: int| 0 <= a < s.len() && s[a] == out[i];
        let b = choose|b: int| 0 <= b < s.len() && s[b] == out[j];
        if a == b {
            // The same entry stands twice in `out`, so twice in `s`.
            lemma_count_two(out, i, j);
            lemma_two_places(s, out[i]);
        }
    }
}

/// An entry that stands at two places of a sequence is counted at least
/// twice in it.
pub proof fn lemma_count_two(s: Seq<FsEntryModel>, i: int, j: int)
    requires
        0 <= i < j < s.len(),
        s[i] == s[j],
    ensures
        s.to_multiset().count(s[i]) >= 2,
    decreases s.len(),
{
    broadcast use vstd::seq_lib::group_to_multiset_ensures;

    let head = s.drop_last();
    assert(s =~= head.push(s.last()));
    if j < s.len() - 1 {
        lemma_count_two(head, i, j);
    }
}

/// An entry that is counted at least twice in a sequence stands at two
/// places of it.
pub proof fn lemma_two_places(s: Seq<FsEntryModel>, e: FsEntryModel)
    requires
        s.to_multiset().count(e) >= 2,
    ensures
        exists|a: int, b: int| 0 <= a < b < s.len() && s[a] == e && s[b] == e,
    decreases s.len(),
{
    broadcast use vstd::seq_lib::group_to_multiset_ensures;

    if s.len() > 0 {
        let head = s.drop_last();
        assert(s =~= head.push(s.last()));
        if s.last() == e {
            let a = choose|a: int| 0 <= a < head.len() && head[a] == e;
            assert(s[a] == e && s[s.len() - 1] == e);
        } else {
            lemma_two_places(head, e);
            let (a, b) = choose|a: int, b: int|
                0 <= a < b < head.len() && head[a] == e && head[b] == e;
            assert(s[a] == e && s[b] == e);
        }
    }
}

/// The first index entry is the first: it has an index name, and no entry
/// before it has one; where there is none, no entry has an index name.
pub proof fn lemma_first_index(s: Seq<FsEntryModel>)
    ensures
        match first_index(s) {
            Some(i) => 0 <= i < s.len() && is_index_name(s[i].name) && forall|k: int|
                0 <= k < i ==> !is_index_name(#[trigger] s[k].name),
            None => forall|k: int| 0 <= k < s.len() ==> !is_index_name(#[trigger] s[k].name),
        },
    decreases s.len(),
{
    if s.len() > 0 {
        lemma_first_index(s.drop_last());
        let head = s.drop_last();
        match first_index(head) {
            Some(i) => {
                assert forall|k: int| 0 <= k < i implies !is_index_name(#[trigger] s[k].name) by {
                    assert(head[k] == s[k]);
                }
            },
            None => {
                assert forall|k: int| 0 <= k < s.len() - 1 implies !is_index_name(
                    #[trigger] s[k].name,
                ) by {
                    assert(head[k] == s[k]);
                }
            },
        }
    }
}

/// Whether `kind` is the kind of a directory.
fn is_directory(kind: EntryKind) -> (yes: bool)
    ensures
        yes == (kind == EntryKind::Directory),
{
    match kind {
        EntryKind::Directory => true,
        _ => false,
    }
}

/// Whether `a` precedes `b` in the order of a listing.
pub fn comes_before(a: &FsEntry, b: &FsEntry) -> (yes: bool)
    ensures
        yes == precedes(a@, b@),
{
    let a_dir = is_directory(a.kind);
    let b_dir = is_directory(b.kind);
    if a_dir != b_dir {
        a_dir
    } else {
        text_lt(a.name.as_str(), b.name.as_str())
    }
}

/// Whether a file called `name` is served in place of a listing.
pub fn is_index(name: &str) -> (yes: bool)
    ensures
        yes == is_index_name(name@),
{
    same_text(name, "index.html") || same_text(name, "index.htm")
}

/// The entries in the order of a listing.
pub fn sort_entries(entries: Vec<FsEntry>) -> (out: Vec<FsEntry>)
    ensures
        entry_views(out@) == sorted_entries(entry_views(entries@)),
{
    let ghost all = entry_views(entries@);
    let mut out: Vec<FsEntry> = Vec::new();
    for e in it: entries
        invariant
            all == entry_views(it.seq()),
            entry_views(out@) == sorted_entries(all.take(it.index())),
    {
        let ghost before = entry_views(out@);
        let mut p: usize = out.len();
        while p > 0 && comes_before(&e, &out[p - 1])
            invariant
                p <= out.len(),
                before == entry_views(out@),
                forall|k: int| p <= k < before.len() ==> precedes(e@, #[trigger] before[k]),
            decreases p,
        {
            p -= 1;
        }
        proof {
            lemma_insert_position(before, e@, p as int);
            let next = all.take(it.index() + 1);
            assert(next.drop_last() == all.take(it.index()));
        }
        out.insert(p, e);
    }
    assert(all.take(all.len() as int) == all);
    out
}

/// The row that leads from `dir` to the directory above it.
fn make_back_row(dir: &ServePath) -> (row: DirEntryView)
    requires
        dir@.len() > 0,
    ensures
        row@ == back_row(dir@),
{
    let up = match dir.parent() {
        Some(up) => up,
        None => unreached(),
    };
    DirEntryView {
        name: String::from_str("Go Back"),
        category: Category::Back,
        last_modified: String::new(),
        size: String::new(),
        relative_path: up.to_url(),
        download_link: String::new(),
    }
}

/// The row for the entry `e` of the directory `dir`.
pub fn make_row(dir: &ServePath, e: &FsEntry, offset: i32) -> (row: DirEntryView)
    ensures
        row@ == row_of(dir@, e@, offset as int),
{
    let path = dir.url_with(e.name.as_str());
    let folder = is_directory(e.kind);
    let size = match e.size {
        Some(n) => {
            if folder {
                String::new()
            } else {
                format_size(n)
            }
        },
        None => String::new(),
    };
    let download_link = if folder {
        String::new()
    } else {
        followed_by(path.as_str(), "?download")
    };
    DirEntryView {
        name: e.name.clone(),
        category: classify(e.name.as_str(), e.kind),
        last_modified: format_time(e.modified, offset),
        size,
        relative_path: path,
        download_link,
    }
}

/// What the directory at `dir` is answered with, given its entries in any
/// order: the path of its index file, if it holds one, else its listing with
/// times shown at `offset` seconds east of UTC.
pub fn dir_handler(dir: &ServePath, entries: Vec<FsEntry>, offset: i32) -> (out: DirOutcome)
    ensures
        out@ == dir_outcome(dir@, entry_views(entries@), offset as int),
{
    let ghost given = entry_views(entries@);
    let sorted = sort_entries(entries);
    let ghost views = entry_views(sorted@);
    let mut i: usize = 0;
    while i < sorted.len()
        invariant
            i <= sorted.len(),
            given == entry_views(entries@),
            views == entry_views(sorted@),
            views == sorted_entries(given),
            first_index(views.take(i as int)) is None,
        decreases sorted.len() - i,
    {
        proof {
            let next = views.take(i + 1);
            assert(next.drop_last() == views.take(i as int));
        }
        if is_index(sorted[i].name.as_str()) {
            proof {
                lemma_first_index_extends(views, i as int);
            }
            proof {
                lemma_index_name_is_name(sorted@[i as int]@.name);
            }
            return match dir.child(sorted[i].name.as_str()) {
                Some(file) => DirOutcome::Index(file),
                None => unreached(),
            };
        }
        i += 1;
    }
    assert(views.take(sorted.len() as int) == views);
    let mut rows: Vec<DirEntryView> = Vec::new();
    if !dir.is_root() {
        rows.push(make_back_row(dir));
    }
    let ghost lead = row_views(rows@);
    let ghost want = Seq::new(views.len(), |k: int| row_of(dir@, views[k], offset as int));
    let mut k: usize = 0;
    while k < sorted.len()
        invariant
            k <= sorted.len(),
            views == entry_views(sorted@),
            want == Seq::new(views.len(), |k: int| row_of(dir@, views[k], offset as int)),
            row_views(rows@) == lead + want.take(k as int),
        decreases sorted.len() - k,
    {
        let row = make_row(dir, &sorted[k], offset);
        let ghost before = rows@;
        rows.push(row);
        k += 1;
        assert(row_views(rows@) =~= row_views(before).push(row@));
    }
    assert(want.take(sorted.len() as int) == want);
    proof {
        if dir@.len() > 0 {
            assert(lead =~= seq![back_row(dir@)]);
        }
    }
    DirOutcome::Listing { rows, path: dir.label() }
}

/// An index name is a name: it can be looked up in a directory.
pub proof fn lemma_index_name_is_name(name: Seq<char>)
    requires
        is_index_name(name),
    ensures
        crate::path::is_name(name),
{
    reveal_strlit("index.html");
    reveal_strlit("index.htm");
    reveal_strlit(".");
    reveal_strlit("..");
}

/// The first index entry of the beginning of a sequence is the first index
/// entry of the sequence.
pub proof fn lemma_first_index_extends(s: Seq<FsEntryModel>, i: int)
    requires
        0 <= i < s.len(),
        first_index(s.take(i + 1)) == Some(i),
    ensures
        first_index(s) == Some(i),
    decreases s.len(),
{
    if s.len() > i + 1 {
        assert(s.drop_last().take(i + 1) == s.take(i + 1));
        lemma_first_index_extends(s.drop_last(), i);
    } else {
        assert(s.take(i + 1) == s);
    }
}

} // verus!
