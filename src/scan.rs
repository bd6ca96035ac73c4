//! The scan orchestrator: filters a traversal's results down to known-malicious digests.
use vstd::prelude::*;
use crate::digest_map::DigestMap;
use crate::engine::{initial_scan, scan_run, ScanEvent};
use crate::error::ScanError;
use crate::signatures::{is_infected, is_signature};

verus! {

/// The entries of `m` whose digest is a known signature.
pub open spec fn matches_of(m: Map<Seq<char>, Seq<char>>) -> Map<Seq<char>, Seq<char>> {
    m.restrict(m.dom().filter(|d: Seq<char>| is_signature(d)))
}

/// The entries of `hashes` whose digest is a known signature; empty means clean.
pub fn filter_matches(hashes: &DigestMap) -> (r: DigestMap)
    ensures
        r@ == matches_of(hashes@),
{
    let entries = hashes.entries();
    let mut out = DigestMap::new();
    let mut i: usize = 0;
    while i < entries.len()
        invariant
            0 <= i <= entries@.len(),
            forall|j: int| 0 <= j < entries@.len() ==> #[trigger] hashes@.contains_key(entries@[j].0@)
                && hashes@[entries@[j].0@] == entries@[j].1@,
            forall|k: Seq<char>| #[trigger] hashes@.contains_key(k)
                ==> exists|j: int| 0 <= j < entries@.len() && entries@[j].0@ == k,
            forall|k: Seq<char>| #[trigger] out@.contains_key(k) <==> (is_signature(k)
                && exists|j: int| 0 <= j < i && entries@[j].0@ == k),
            forall|k: Seq<char>| #[trigger] out@.contains_key(k) ==> out@[k] == hashes@[k],
        decreases entries@.len() - i,
    {
        let (digest, path) = &entries[i];
        assert(hashes@.contains_key(entries@[i as int].0@));
        if is_infected(digest) {
            out.insert(digest.clone(), path.clone());
        }
        proof {
            assert forall|k: Seq<char>| #[trigger] out@.contains_key(k) <==> (is_signature(k)
                && exists|j: int| 0 <= j < i + 1 && entries@[j].0@ == k) by {
                if k == entries@[i as int].0@ {
                    assert(entries@[i as int].0@ == k);
                }
            }
        }
        i = i + 1;
    }
    assert(out@ =~= matches_of(hashes@));
    out
}

/// The outcome of a scan, from what the traversal returned: the matches, or
/// the traversal's failure unchanged.
pub fn scan_outcome(traversal: Result<DigestMap, ScanError>) -> (r: Result<DigestMap, ScanError>)
    ensures
        match traversal {
            Ok(hashes) => r is Ok && r->Ok_0@ == matches_of(hashes@),
            Err(e) => r == Err::<DigestMap, ScanError>(e),
        },
{
    match traversal {
        Ok(hashes) => Ok(filter_matches(&hashes)),
        Err(e) => Err(e),
    }
}

/// Number of regular files found in a sequence of events.
pub open spec fn found_count(events: Seq<ScanEvent>) -> nat
    decreases events.len(),
{
    if events.len() == 0 {
        0
    } else {
        found_count(events.drop_last()) + if events.last() is FileFound { 1nat } else { 0nat }
    }
}

/// Number of hashing results, successful or not, in a sequence of events.
pub open spec fn hashed_count(events: Seq<ScanEvent>) -> nat
    decreases events.len(),
{
    if events.len() == 0 {
        0
    } else {
        hashed_count(events.drop_last()) + if events.last() is Hashed { 1nat } else { 0nat }
    }
}

/// Number of successful hashing results in a sequence of events.
pub open spec fn hashed_ok_count(events: Seq<ScanEvent>) -> nat
    decreases events.len(),
{
    if events.len() == 0 {
        0
    } else {
        hashed_ok_count(events.drop_last()) + match events.last() {
            ScanEvent::Hashed(_, Some(_)) => 1nat,
            _ => 0nat,
        }
    }
}

/// The counters of a scan: `discovered` counts the files found and `completed`
/// the files hashed successfully, whatever the order of the events.
pub proof fn lemma_scan_counters(events: Seq<ScanEvent>)
    ensures
        scan_run(initial_scan(), events).discovered == found_count(events),
        scan_run(initial_scan(), events).completed == hashed_ok_count(events),
    decreases events.len(),
{
    if events.len() > 0 {
        lemma_scan_counters(events.drop_last());
    }
}

proof fn lemma_all_readable_counts(events: Seq<ScanEvent>)
    requires
        forall|i: int| 0 <= i < events.len() && #[trigger] events[i] is Hashed ==> events[i]->Hashed_1
            is Some,
    ensures
        hashed_ok_count(events) == hashed_count(events),
    decreases events.len(),
{
    if events.len() > 0 {
        let init = events.drop_last();
        assert forall|i: int| 0 <= i < init.len() && #[trigger] init[i] is Hashed implies init[i]->Hashed_1
            is Some by {
            assert(init[i] == events[i]);
        }
        lemma_all_readable_counts(init);
        if events.last() is Hashed {
            assert(events[events.len() - 1] is Hashed);
        }
    }
}

/// A finished scan of a tree of `n` regular files, each of them readable,
/// ends with `n` files discovered and `n` completed.
pub proof fn lemma_readable_tree_counts(events: Seq<ScanEvent>, n: nat)
    requires
        found_count(events) == n,
        hashed_count(events) == n,
        forall|i: int| 0 <= i < events.len() && #[trigger] events[i] is Hashed ==> events[i]->Hashed_1
            is Some,
    ensures
        scan_run(initial_scan(), events).discovered == n,
        scan_run(initial_scan(), events).completed == n,
{
    lemma_scan_counters(events);
    lemma_all_readable_counts(events);
}

/// Where no digest of the results is a known signature, there are no matches.
pub proof fn lemma_clean_results_no_matches(hashes: Map<Seq<char>, Seq<char>>)
    requires
        forall|d: Seq<char>| #[trigger] hashes.contains_key(d) ==> !is_signature(d),
    ensures
        matches_of(hashes) == Map::<Seq<char>, Seq<char>>::empty(),
{
    assert(matches_of(hashes) =~= Map::<Seq<char>, Seq<char>>::empty());
}

/// Where exactly one digest of the results is a known signature, the matches
/// are that one digest with its path.
pub proof fn lemma_single_match(hashes: Map<Seq<char>, Seq<char>>, digest: Seq<char>)
    requires
        hashes.contains_key(digest),
        is_signature(digest),
        forall|d: Seq<char>| #[trigger] hashes.contains_key(d) && d != digest ==> !is_signature(d),
    ensures
        matches_of(hashes) == Map::<Seq<char>, Seq<char>>::empty().insert(digest, hashes[digest]),
{
    assert(matches_of(hashes) =~= Map::<Seq<char>, Seq<char>>::empty().insert(digest, hashes[digest]));
}

/// The digest an event records, if any.
pub open spec fn digest_at(e: ScanEvent) -> Option<Seq<char>> {
    match e {
        ScanEvent::Hashed(_, Some(d)) => Some(d),
        _ => None,
    }
}

/// Every digest in a scan's results was recorded by one of its events.
proof fn lemma_hashes_come_from_events(events: Seq<ScanEvent>)
    ensures
        forall|d: Seq<char>| #[trigger] scan_run(initial_scan(), events).hashes.contains_key(d)
            ==> exists|i: int| 0 <= i < events.len() && digest_at(events[i]) == Some(d),
    decreases events.len(),
{
    if events.len() > 0 {
        let init = events.drop_last();
        lemma_hashes_come_from_events(init);
        assert forall|d: Seq<char>| #[trigger] scan_run(initial_scan(), events).hashes.contains_key(d)
            implies exists|i: int| 0 <= i < events.len() && digest_at(events[i]) == Some(d) by {
            if scan_run(initial_scan(), init).hashes.contains_key(d) {
                let i = choose|i: int| 0 <= i < init.len() && digest_at(init[i]) == Some(d);
                assert(events[i] == init[i]);
            } else {
                assert(digest_at(events[events.len() - 1]) == Some(d));
            }
        }
    }
}

/// The path recorded with a digest stays in the results until a later event
/// records the same digest.
proof fn lemma_last_writer_stays(events: Seq<ScanEvent>, k: int, path: Seq<char>, digest: Seq<char>)
    requires
        0 <= k < events.len(),
        events[k] == ScanEvent::Hashed(path, Some(digest)),
        forall|j: int| k < j < events.len() ==> digest_at(#[trigger] events[j]) != Some(digest),
    ensures
        scan_run(initial_scan(), events).hashes.contains_key(digest),
        scan_run(initial_scan(), events).hashes[digest] == path,
    decreases events.len(),
{
    if k < events.len() - 1 {
        let init = events.drop_last();
        assert forall|j: int| k < j < init.len() implies digest_at(#[trigger] init[j]) != Some(digest) by {
            assert(init[j] == events[j]);
        }
        lemma_last_writer_stays(init, k, path, digest);
        assert(digest_at(events[events.len() - 1]) != Some(digest));
    }
}

/// A scan of a tree in which no file's digest is a known signature finds no matches.
pub proof fn lemma_clean_scan_no_matches(events: Seq<ScanEvent>)
    requires
        forall|i: int| 0 <= i < events.len() && (#[trigger] digest_at(events[i])) is Some
            ==> !is_signature(digest_at(events[i])->Some_0),
    ensures
        matches_of(scan_run(initial_scan(), events).hashes) == Map::<Seq<char>, Seq<char>>::empty(),
{
    lemma_hashes_come_from_events(events);
    let hashes = scan_run(initial_scan(), events).hashes;
    assert forall|d: Seq<char>| #[trigger] hashes.contains_key(d) implies !is_signature(d) by {
        let i = choose|i: int| 0 <= i < events.len() && digest_at(events[i]) == Some(d);
    }
    lemma_clean_results_no_matches(hashes);
}

/// A scan of a tree in which exactly one file's digest is a known signature
/// finds exactly one match: that digest, with that file's path.
pub proof fn lemma_single_infected_file(events: Seq<ScanEvent>, k: int, path: Seq<char>, digest: Seq<char>)
    requires
        0 <= k < events.len(),
        events[k] == ScanEvent::Hashed(path, Some(digest)),
        is_signature(digest),
        forall|i: int| 0 <= i < events.len() && i != k && (#[trigger] digest_at(events[i])) is Some
            ==> !is_signature(digest_at(events[i])->Some_0),
    ensures
        matches_of(scan_run(initial_scan(), events).hashes) == Map::<Seq<char>, Seq<char>>::empty().insert(
            digest,
            path,
        ),
{
    assert forall|j: int| k < j < events.len() implies digest_at(#[trigger] events[j]) != Some(digest) by {
        if digest_at(events[j]) == Some(digest) {
            assert(digest_at(events[j]) is Some);
        }
    }
    lemma_last_writer_stays(events, k, path, digest);
    lemma_hashes_come_from_events(events);
    let hashes = scan_run(initial_scan(), events).hashes;
    assert forall|d: Seq<char>| #[trigger] hashes.contains_key(d) && d != digest implies !is_signature(d) by {
        let i = choose|i: int| 0 <= i < events.len() && digest_at(events[i]) == Some(d);
        assert(i != k);
    }
    lemma_single_match(hashes, digest);
}

} // verus!
