use vstd::prelude::*;

verus! {

/// What a scan needs: the inclusive size threshold and the directory to scan.
#[derive(Debug, Clone)]
pub struct Configuration {
    pub threshold: u64,
    pub root: String,
}

/// One child of a directory, as the file system showed it.
#[derive(Debug)]
pub enum Entry {
    /// A regular file and its length in bytes.
    File { path: String, size: u64 },
    /// A subdirectory and what listing it gave.
    Dir { path: String, listing: Listing },
    /// A symbolic link: never followed, never counted.
    Symlink { path: String },
    /// Any other kind (device, socket, pipe): never counted.
    Special { path: String },
    /// A child whose metadata could not be read.
    NoMetadata { path: String },
    /// A child that the listing itself failed to produce.
    Unlisted,
}

/// What listing a directory gave.
#[derive(Debug)]
pub enum Listing {
    /// The children, in the order of the listing.
    Read { entries: Vec<Entry> },
    /// The directory could not be listed.
    Unreadable,
}

/// Why an entry or a directory was skipped.
#[derive(Debug, Clone, Copy, PartialEq, Eq, Structural)]
pub enum Problem {
    /// The directory could not be listed.
    ListingFailed,
    /// The listing failed to produce one of its children.
    EntryFailed,
    /// The metadata of a child could not be read.
    MetadataFailed,
}

/// One item of a scan's output.
#[derive(Debug, Clone, PartialEq, Eq)]
pub enum Record {
    /// An entry whose size reaches the threshold.
    Report { size: u64, path: String },
    /// An entry or a directory that was skipped, and why.
    Diagnostic { problem: Problem, path: String },
}

/// The aggregate size of an entry: a file's length, a directory's total,
/// nothing for the other kinds.
pub open spec fn entry_total(e: Entry) -> nat
    decreases e,
{
    match e {
        Entry::File { size, .. } => size as nat,
        Entry::Dir { listing, .. } => listing_total(listing),
        _ => 0,
    }
}

/// The aggregate size of a directory's contents.
pub open spec fn listing_total(l: Listing) -> nat
    decreases l,
{
    match l {
        Listing::Read { entries } => entries_total(entries@),
        Listing::Unreadable => 0,
    }
}

/// The sum of the aggregate sizes of a sequence of entries.
pub open spec fn entries_total(s: Seq<Entry>) -> nat
    decreases s,
{
    if s.len() == 0 {
        0
    } else {
        entries_total(s.subrange(0, s.len() - 1)) + entry_total(s[s.len() - 1])
    }
}

/// What scanning an entry of directory `dir` emits, with threshold `t`:
/// a directory's own records come before its report.
pub open spec fn entry_records(dir: String, e: Entry, t: u64) -> Seq<Record>
    decreases e,
{
    match e {
        Entry::File { path, size } => if size >= t {
            seq![Record::Report { size, path }]
        } else {
            seq![]
        },
        Entry::Dir { path, listing } => listing_records(path, listing, t) + if listing_total(
            listing,
        ) >= t {
            seq![Record::Report { size: listing_total(listing) as u64, path }]
        } else {
            seq![]
        },
        Entry::Symlink { .. } => seq![],
        Entry::Special { .. } => seq![],
        Entry::NoMetadata { path } => seq![
            Record::Diagnostic { problem: Problem::MetadataFailed, path },
        ],
        Entry::Unlisted => seq![Record::Diagnostic { problem: Problem::EntryFailed, path: dir }],
    }
}

/// What scanning directory `dir`, which gave listing `l`, emits.
pub open spec fn listing_records(dir: String, l: Listing, t: u64) -> Seq<Record>
    decreases l,
{
    match l {
        Listing::Read { entries } => entries_records(dir, entries@, t),
        Listing::Unreadable => seq![
            Record::Diagnostic { problem: Problem::ListingFailed, path: dir },
        ],
    }
}

/// What scanning a sequence of entries of directory `dir` emits, in order.
pub open spec fn entries_records(dir: String, s: Seq<Entry>, t: u64) -> Seq<Record>
    decreases s,
{
    if s.len() == 0 {
        seq![]
    } else {
        entries_records(dir, s.subrange(0, s.len() - 1), t) + entry_records(
            dir,
            s[s.len() - 1],
            t,
        )
    }
}


/// The total of a prefix never exceeds the total of the whole sequence.
pub proof fn lemma_prefix_total_le(s: Seq<Entry>, i: int)
    requires
        0 <= i <= s.len(),
    ensures
        entries_total(s.subrange(0, i)) <= entries_total(s),
    decreases s.len(),
{
    if i == s.len() {
        assert(s.subrange(0, i) =~= s);
    } else {
        let p = s.subrange(0, s.len() - 1);
        lemma_prefix_total_le(p, i);
        assert(p.subrange(0, i) =~= s.subrange(0, i));
    }
}

/// Totals and records of a concatenation are those of its parts.
pub proof fn lemma_entries_concat(dir: String, a: Seq<Entry>, b: Seq<Entry>, t: u64)
    ensures
        entries_total(a + b) == entries_total(a) + entries_total(b),
        entries_records(dir, a + b, t) == entries_records(dir, a, t) + entries_records(dir, b, t),
    decreases b.len(),
{
    if b.len() == 0 {
        assert(a + b =~= a);
        assert(entries_records(dir, a, t) + seq![] =~= entries_records(dir, a, t));
    } else {
        let b0 = b.subrange(0, b.len() - 1);
        lemma_entries_concat(dir, a, b0, t);
        assert((a + b).subrange(0, (a + b).len() - 1) =~= a + b0);
        assert((a + b)[(a + b).len() - 1] == b[b.len() - 1]);
        assert(entries_records(dir, a, t) + entries_records(dir, b0, t) + entry_records(
            dir,
            b[b.len() - 1],
            t,
        ) =~= entries_records(dir, a, t) + (entries_records(dir, b0, t) + entry_records(
            dir,
            b[b.len() - 1],
            t,
        )));
    }
}

/// Sums the aggregate size of a listing, or returns `None` when it does not
/// fit in 64 bits.
pub fn checked_total(listing: &Listing) -> (r: Option<u64>)
    ensures
        r == (if listing_total(*listing) <= u64::MAX {
            Some(listing_total(*listing) as u64)
        } else {
            None
        }),
    decreases listing,
{
    match listing {
        Listing::Unreadable => Some(0),
        Listing::Read { entries } => {
            let mut total: u64 = 0;
            let mut i: usize = 0;
            while i < entries.len()
                invariant
                    i <= entries.len(),
                    total == entries_total(entries@.subrange(0, i as int)),
                    *listing == (Listing::Read { entries: *entries }),
                decreases entries.len() - i,
            {
                let e = &entries[i];
                proof {
                    lemma_prefix_total_le(entries@, i + 1);
                    assert(entries@.subrange(0, i + 1).subrange(0, i as int) =~= entries@.subrange(
                        0,
                        i as int,
                    ));
                    assert(entries@.subrange(0, i + 1)[i as int] == entries@[i as int]);
                    assert(entries_total(entries@.subrange(0, i + 1)) == entries_total(
                        entries@.subrange(0, i as int),
                    ) + entry_total(entries@[i as int]));
                    assert(decreases_to!(*listing => (*listing)->entries));
                    assert(decreases_to!(*entries => entries@));
                    assert(decreases_to!(entries@ => entries@[i as int]));
                }
                let size: u64 = match e {
                    Entry::File { size, .. } => *size,
                    Entry::Dir { listing: sub, .. } => {
                        assert(decreases_to!(entries@[i as int] => entries@[i as int]->listing));
                        match checked_total(sub) {
                            Some(n) => n,
                            None => {
                                return None;
                            },
                        }
                    },
                    _ => 0,
                };
                match total.checked_add(size) {
                    Some(n) => {
                        total = n;
                    },
                    None => {
                        return None;
                    },
                }
                i += 1;
            }
            assert(entries@.subrange(0, entries.len() as int) =~= entries@);
            Some(total)
        },
    }
}

/// Scans a directory that gave `listing`: appends to `out` a report for
/// each child file or subdirectory whose size reaches the threshold (a
/// subdirectory after its own records) and a diagnostic for each part that
/// could not be read, and returns the aggregate size. Symbolic links and
/// special files count for nothing.
pub fn compute_and_report(config: &Configuration, listing: &Listing, out: &mut Vec<Record>) -> (total: u64)
    requires
        listing_total(*listing) <= u64::MAX,
    ensures
        total == listing_total(*listing),
        final(out)@ == old(out)@ + listing_records(config.root, *listing, config.threshold),
    decreases listing,
{
    match listing {
        Listing::Unreadable => {
            out.push(Record::Diagnostic { problem: Problem::ListingFailed, path: config.root.clone() });
            0
        },
        Listing::Read { entries } => {
            let ghost start = out@;
            let mut total: u64 = 0;
            let mut i: usize = 0;
            while i < entries.len()
                invariant
                    i <= entries.len(),
                    *listing == (Listing::Read { entries: *entries }),
                    entries_total(entries@) <= u64::MAX,
                    total == entries_total(entries@.subrange(0, i as int)),
                    out@ == start + entries_records(config.root, entries@.subrange(0, i as int), config.threshold),
                decreases entries.len() - i,
            {
                let e = &entries[i];
                let ghost before = out@;
                proof {
                    lemma_prefix_total_le(entries@, i + 1);
                    assert(entries@.subrange(0, i + 1).subrange(0, i as int) =~= entries@.subrange(
                        0,
                        i as int,
                    ));
                    assert(entries@.subrange(0, i + 1)[i as int] == entries@[i as int]);
                    assert(entries_total(entries@.subrange(0, i + 1)) == entries_total(
                        entries@.subrange(0, i as int),
                    ) + entry_total(entries@[i as int]));
                    assert(decreases_to!(*listing => (*listing)->entries));
                    assert(decreases_to!(*entries => entries@));
                    assert(decreases_to!(entries@ => entries@[i as int]));
                }
                match e {
                    Entry::File { path, size } => {
                        if *size >= config.threshold {
                            out.push(Record::Report { size: *size, path: path.clone() });
                        }
                        total = total + *size;
                    },
                    Entry::Dir { path, listing: sub } => {
                        assert(decreases_to!(entries@[i as int] => entries@[i as int]->listing));
                        let child = Configuration { threshold: config.threshold, root: path.clone() };
                        let size = compute_and_report(&child, sub, out);
                        if size >= config.threshold {
                            out.push(Record::Report { size, path: path.clone() });
                        }
                        total = total + size;
                    },
                    Entry::Symlink { .. } => {},
                    Entry::Special { .. } => {},
                    Entry::NoMetadata { path } => {
                        out.push(Record::Diagnostic { problem: Problem::MetadataFailed, path: path.clone() });
                    },
                    Entry::Unlisted => {
                        out.push(Record::Diagnostic { problem: Problem::EntryFailed, path: config.root.clone() });
                    },
                }
                proof {
                    assert(out@ =~= before + entry_records(config.root, entries@[i as int], config.threshold));
                }
                i += 1;
            }
            assert(entries@.subrange(0, entries.len() as int) =~= entries@);
            total
        },
    }
}

} // verus!
