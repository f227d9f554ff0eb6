use vstd::prelude::*;

use crate::scan::{
    entries_records, entries_total, entry_records, entry_total, lemma_entries_concat,
    listing_records, listing_total, Entry, Listing, Problem, Record,
};

verus! {

/// The lengths of the regular files of an entry, at any depth.
pub open spec fn entry_file_sizes(e: Entry) -> Seq<u64>
    decreases e,
{
    match e {
        Entry::File { size, .. } => seq![size],
        Entry::Dir { listing, .. } => listing_file_sizes(listing),
        _ => seq![],
    }
}

/// The lengths of the regular files under a listed directory, at any depth.
pub open spec fn listing_file_sizes(l: Listing) -> Seq<u64>
    decreases l,
{
    match l {
        Listing::Read { entries } => entries_file_sizes(entries@),
        Listing::Unreadable => seq![],
    }
}

/// The lengths of the regular files under a sequence of entries.
pub open spec fn entries_file_sizes(s: Seq<Entry>) -> Seq<u64>
    decreases s,
{
    if s.len() == 0 {
        seq![]
    } else {
        entries_file_sizes(s.subrange(0, s.len() - 1)) + entry_file_sizes(s[s.len() - 1])
    }
}

/// The sum of a sequence of byte counts.
pub open spec fn sum_of(s: Seq<u64>) -> nat
    decreases s.len(),
{
    if s.len() == 0 {
        0
    } else {
        sum_of(s.drop_last()) + s.last() as nat
    }
}

proof fn lemma_sum_concat(a: Seq<u64>, b: Seq<u64>)
    ensures
        sum_of(a + b) == sum_of(a) + sum_of(b),
    decreases b.len(),
{
    if b.len() == 0 {
        assert(a + b =~= a);
    } else {
        lemma_sum_concat(a, b.drop_last());
        assert((a + b).drop_last() =~= a + b.drop_last());
    }
}

proof fn lemma_entry_sum(e: Entry)
    ensures
        entry_total(e) == sum_of(entry_file_sizes(e)),
    decreases e,
{
    match e {
        Entry::File { size, .. } => {
            assert(seq![size].drop_last() =~= Seq::<u64>::empty());
            assert(sum_of(Seq::<u64>::empty()) == 0);
            assert(seq![size].last() == size);
        },
        Entry::Dir { listing, .. } => {
            lemma_listing_sum(listing);
        },
        _ => {},
    }
}

proof fn lemma_listing_sum(l: Listing)
    ensures
        listing_total(l) == sum_of(listing_file_sizes(l)),
    decreases l,
{
    match l {
        Listing::Read { entries } => {
            assert(decreases_to!(entries => entries@));
            lemma_entries_sum(entries@);
        },
        Listing::Unreadable => {},
    }
}

proof fn lemma_entries_sum(s: Seq<Entry>)
    ensures
        entries_total(s) == sum_of(entries_file_sizes(s)),
    decreases s,
{
    if s.len() > 0 {
        let p = s.subrange(0, s.len() - 1);
        lemma_entries_sum(p);
        lemma_entry_sum(s[s.len() - 1]);
        lemma_sum_concat(entries_file_sizes(p), entry_file_sizes(s[s.len() - 1]));
    }
}

/// The aggregate size of a directory is the sum of the lengths of all the
/// regular files beneath it, at any depth.
pub proof fn total_is_sum_of_file_sizes(listing: Listing)
    ensures
        listing_total(listing) == sum_of(listing_file_sizes(listing)),
{
    lemma_listing_sum(listing);
}

/// A file whose length equals the threshold is reported; one a byte shorter
/// is not.
pub proof fn file_reported_from_threshold(dir: String, path: String, t: u64)
    ensures
        entry_records(dir, Entry::File { path, size: t }, t) == seq![
            Record::Report { size: t, path },
        ],
        t > 0 ==> entry_records(dir, Entry::File { path, size: (t - 1) as u64 }, t) == Seq::<
            Record,
        >::empty(),
{
}

/// A directory whose aggregate size is below the threshold is not reported:
/// what scanning it emits is what scanning its contents emits, the reports
/// of qualifying files inside it included.
pub proof fn small_directory_not_reported(dir: String, path: String, listing: Listing, t: u64)
    requires
        listing_total(listing) < t,
    ensures
        entry_records(dir, Entry::Dir { path, listing }, t) == listing_records(path, listing, t),
{
    assert(listing_records(path, listing, t) + seq![] =~= listing_records(path, listing, t));
}

proof fn lemma_insert_split(s: Seq<Entry>, k: int, x: Entry)
    requires
        0 <= k <= s.len(),
    ensures
        s.insert(k, x) == s.subrange(0, k) + seq![x] + s.subrange(k, s.len() as int),
        s == s.subrange(0, k) + s.subrange(k, s.len() as int),
{
    assert(s.insert(k, x) =~= s.subrange(0, k) + seq![x] + s.subrange(k, s.len() as int));
    assert(s =~= s.subrange(0, k) + s.subrange(k, s.len() as int));
}

proof fn lemma_single(dir: String, x: Entry, t: u64)
    ensures
        entries_total(seq![x]) == entry_total(x),
        entries_records(dir, seq![x], t) == entry_records(dir, x, t),
{
    assert(seq![x].subrange(0, 0) =~= Seq::<Entry>::empty());
    assert(seq![x][0] == x);
    assert(entries_total(Seq::<Entry>::empty()) == 0);
    assert(entries_records(dir, Seq::<Entry>::empty(), t) == Seq::<Record>::empty());
    assert(Seq::<Record>::empty() + entry_records(dir, x, t) =~= entry_records(dir, x, t));
}

/// A symbolic link, wherever it stands in a directory, adds nothing to the
/// directory's total and nothing to what its scan emits.
pub proof fn symlink_ignored(dir: String, entries: Seq<Entry>, k: int, path: String, t: u64)
    requires
        0 <= k <= entries.len(),
    ensures
        entries_total(entries.insert(k, Entry::Symlink { path })) == entries_total(entries),
        entries_records(dir, entries.insert(k, Entry::Symlink { path }), t) == entries_records(
            dir,
            entries,
            t,
        ),
{
    let x = Entry::Symlink { path };
    let a = entries.subrange(0, k);
    let b = entries.subrange(k, entries.len() as int);
    lemma_insert_split(entries, k, x);
    lemma_single(dir, x, t);
    lemma_entries_concat(dir, a, seq![x], t);
    lemma_entries_concat(dir, a + seq![x], b, t);
    lemma_entries_concat(dir, a, b, t);
    assert(entries_records(dir, a, t) + Seq::<Record>::empty() =~= entries_records(dir, a, t));
}

/// A subdirectory that cannot be listed, wherever it stands in a directory,
/// adds nothing to the directory's total; the scan of its siblings goes on
/// unchanged, and a diagnostic naming it stands in its place (followed by
/// its report when the threshold is zero).
pub proof fn unreadable_directory_skipped(
    dir: String,
    entries: Seq<Entry>,
    k: int,
    path: String,
    t: u64,
)
    requires
        0 <= k <= entries.len(),
    ensures
        entries_total(entries.insert(k, Entry::Dir { path, listing: Listing::Unreadable }))
            == entries_total(entries),
        entries_records(dir, entries.insert(k, Entry::Dir { path, listing: Listing::Unreadable }), t)
            == entries_records(dir, entries.subrange(0, k), t) + seq![
            Record::Diagnostic { problem: Problem::ListingFailed, path },
        ] + (if t == 0 {
            seq![Record::Report { size: 0, path }]
        } else {
            Seq::<Record>::empty()
        }) + entries_records(dir, entries.subrange(k, entries.len() as int), t),
{
    let x = Entry::Dir { path, listing: Listing::Unreadable };
    let a = entries.subrange(0, k);
    let b = entries.subrange(k, entries.len() as int);
    lemma_insert_split(entries, k, x);
    lemma_single(dir, x, t);
    lemma_entries_concat(dir, a, seq![x], t);
    lemma_entries_concat(dir, a + seq![x], b, t);
    lemma_entries_concat(dir, a, b, t);
}

} // verus!
