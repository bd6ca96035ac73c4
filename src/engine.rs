//! The traversal engine's bookkeeping: progress counters and the digest-to-path
//! results, advanced one traversal or hashing event at a time.
use vstd::prelude::*;
use crate::digest_map::DigestMap;
use crate::error::ScanError;

verus! {

/// What a scan has accumulated so far.
pub struct ScanModel {
    /// Regular files found by the traversal.
    pub discovered: nat,
    /// Files whose content was hashed successfully.
    pub completed: nat,
    /// Files handed out for hashing whose result has not come back.
    pub in_flight: nat,
    /// Digest to path, for every successfully hashed file (last writer wins).
    pub hashes: Map<Seq<char>, Seq<char>>,
}

/// One thing that happens to a scan.
pub enum ScanEvent {
    /// The traversal reached a regular file and handed it out for hashing.
    FileFound,
    /// Hashing of the file at a path finished, with its digest or without one.
    Hashed(Seq<char>, Option<Seq<char>>),
}

pub open spec fn initial_scan() -> ScanModel {
    ScanModel { discovered: 0, completed: 0, in_flight: 0, hashes: Map::empty() }
}

pub open spec fn scan_step(m: ScanModel, e: ScanEvent) -> ScanModel {
    let in_flight: nat = if m.in_flight > 0 { (m.in_flight - 1) as nat } else { 0 };
    match e {
        ScanEvent::FileFound => ScanModel {
            discovered: m.discovered + 1,
            in_flight: m.in_flight + 1,
            ..m
        },
        ScanEvent::Hashed(path, Some(digest)) => ScanModel {
            completed: m.completed + 1,
            in_flight,
            hashes: m.hashes.insert(digest, path),
            ..m
        },
        ScanEvent::Hashed(_, None) => ScanModel { in_flight, ..m },
    }
}

/// The state after a sequence of events, starting from `m`.
pub open spec fn scan_run(m: ScanModel, events: Seq<ScanEvent>) -> ScanModel
    decreases events.len(),
{
    if events.len() == 0 {
        m
    } else {
        scan_step(scan_run(m, events.drop_last()), events.last())
    }
}

pub open spec fn digest_view(d: Option<String>) -> Option<Seq<char>> {
    match d {
        Some(s) => Some(s@),
        None => None,
    }
}

/// The state of one scan. A fresh one is made for every scan.
pub struct ScanState {
    discovered: u64,
    completed: u64,
    in_flight: u64,
    hashes: DigestMap,
}

impl View for ScanState {
    type V = ScanModel;

    closed spec fn view(&self) -> ScanModel {
        ScanModel {
            discovered: self.discovered as nat,
            completed: self.completed as nat,
            in_flight: self.in_flight as nat,
            hashes: self.hashes@,
        }
    }
}

impl ScanState {
    /// Every result that came back belongs to a file that was found.
    pub open spec fn wf(&self) -> bool {
        self@.completed + self@.in_flight <= self@.discovered
    }

    /// A scan with nothing found yet: both counters at zero, no results.
    pub fn new() -> (r: ScanState)
        ensures
            r@ == initial_scan(),
            r.wf(),
    {
        let r = ScanState { discovered: 0, completed: 0, in_flight: 0, hashes: DigestMap::new() };
        assert(r@.hashes =~= Map::empty());
        r
    }

    pub fn discovered(&self) -> (r: u64)
        ensures
            r == self@.discovered,
    {
        self.discovered
    }

    pub fn completed(&self) -> (r: u64)
        ensures
            r == self@.completed,
    {
        self.completed
    }

    pub fn in_flight(&self) -> (r: u64)
        ensures
            r == self@.in_flight,
    {
        self.in_flight
    }

    /// Takes one entry of the traversal: `Ok(true)` for a regular file,
    /// `Ok(false)` for anything else, `Err` where the traversal failed.
    /// Returns `Ok(true)` when the file is to be hashed; a traversal failure
    /// aborts the scan.
    pub fn on_entry(&mut self, entry: Result<bool, walkdir::Error>) -> (r: Result<bool, ScanError>)
        requires
            old(self).wf(),
            old(self)@.discovered < u64::MAX,
        ensures
            final(self).wf(),
            match entry {
                Ok(true) => r == Ok::<bool, ScanError>(true) && final(self)@ == scan_step(
                    old(self)@,
                    ScanEvent::FileFound,
                ),
                Ok(false) => r == Ok::<bool, ScanError>(false) && final(self)@ == old(self)@,
                Err(e) => r == Err::<bool, ScanError>(ScanError::WalkDir(e)) && final(self)@
                    == old(self)@,
            },
    {
        match entry {
            Ok(true) => {
                self.discovered = self.discovered + 1;
                self.in_flight = self.in_flight + 1;
                Ok(true)
            },
            Ok(false) => Ok(false),
            Err(e) => Err(ScanError::WalkDir(e)),
        }
    }

    /// Takes the result of hashing the file at `path` that was handed out:
    /// a digest is recorded and counted; a failed file is skipped.
    pub fn on_hashed(&mut self, path: String, digest: Option<String>)
        requires
            old(self).wf(),
            old(self)@.in_flight > 0,
        ensures
            final(self).wf(),
            final(self)@ == scan_step(old(self)@, ScanEvent::Hashed(path@, digest_view(digest))),
    {
        self.in_flight = self.in_flight - 1;
        match digest {
            Some(d) => {
                self.hashes.insert(d, path);
                self.completed = self.completed + 1;
            },
            None => {},
        }
    }

    /// Ends the scan once every hashing unit has been awaited: the results,
    /// or the join failure when some unit could not be awaited.
    pub fn finish(self, all_joined: bool) -> (r: Result<DigestMap, ScanError>)
        ensures
            all_joined ==> r is Ok && r->Ok_0@ == self@.hashes,
            !all_joined ==> r matches Err(ScanError::JoinError),
    {
        if all_joined {
            Ok(self.hashes)
        } else {
            Err(ScanError::JoinError)
        }
    }
}

} // verus!
