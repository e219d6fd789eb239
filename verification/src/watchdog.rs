//! Stall-detection watchdog over the segment directory.
//!
//! The watchdog periodically samples the set of `.ts` fragment names in
//! the segment directory. A stream that makes progress produces a
//! different name set at every sample, because old segments are evicted
//! and new ones appended; an unchanged set over a full grace period
//! means the pipeline has silently frozen. The sampling loop itself
//! sleeps, polls the process and lists the directory outside this
//! module; the decision it acts on is made here, from plain values.

use vstd::prelude::*;

use crate::router::ends_with_ts;

verus! {

/// The set of byte strings a sequence of names holds.
pub open spec fn name_set(names: Seq<Vec<u8>>) -> Set<Seq<u8>> {
    Set::new(|n: Seq<u8>| exists|i: int| 0 <= i < names.len() && names[i]@ == n)
}

/// The set of names in a directory listing that end in `.ts`: the
/// fragment names among them.
pub open spec fn listed_ts_set(names: Seq<Vec<u8>>) -> Set<Seq<u8>> {
    Set::new(
        |n: Seq<u8>| ends_with_ts(n) && exists|i: int| 0 <= i < names.len() && names[i]@ == n,
    )
}

/// One sample of the segment directory: the fragment filenames present
/// at a single instant. Only the set of names matters; order and
/// multiplicity carry no meaning.
pub struct Snapshot {
    /// The sampled fragment filenames.
    pub names: Vec<Vec<u8>>,
}

impl Snapshot {
    /// The set of fragment names this snapshot holds.
    pub open spec fn as_set(self) -> Set<Seq<u8>> {
        name_set(self.names@)
    }

    /// The initial baseline before the first sample: no names at all,
    /// so the first comparison against a live stream always reads as
    /// changed.
    pub fn empty() -> (s: Snapshot)
        ensures
            s.as_set() == Set::<Seq<u8>>::empty(),
    {
        let s = Snapshot { names: Vec::new() };
        proof {
            assert(s.as_set() =~= Set::<Seq<u8>>::empty());
        }
        s
    }

    /// Whether this snapshot holds `name`.
    fn contains_name(&self, name: &Vec<u8>) -> (r: bool)
        ensures
            r == self.as_set().contains(name@),
    {
        let mut i: usize = 0;
        while i < self.names.len()
            invariant
                0 <= i <= self.names@.len(),
                forall|j: int| 0 <= j < i ==> self.names@[j]@ != name@,
            decreases self.names@.len() - i,
        {
            if bytes_equal(&self.names[i], name) {
                proof {
                    assert(self.names@[i as int]@ == name@);
                }
                return true;
            }
            i = i + 1;
        }
        false
    }

    /// Builds a snapshot from a raw directory listing, keeping exactly
    /// the names that end in the fragment suffix `.ts`.
    pub fn from_listing(listing: Vec<Vec<u8>>) -> (s: Snapshot)
        ensures
            s.as_set() == listed_ts_set(listing@),
    {
        let ghost orig = listing@;
        let mut rest = listing;
        let mut kept: Vec<Vec<u8>> = Vec::new();
        while rest.len() > 0
            invariant
                rest@.len() <= orig.len(),
                rest@ == orig.subrange(0, rest@.len() as int),
                forall|n: Seq<u8>|
                    name_set(kept@).contains(n) <==> (ends_with_ts(n) && exists|j: int|
                        rest@.len() <= j < orig.len() && orig[j]@ == n),
            decreases rest@.len(),
        {
            let ghost k = rest@.len() as int;
            let ghost kept_pre = kept@;
            let name = rest.pop().unwrap();
            proof {
                assert(rest@ =~= orig.subrange(0, k - 1));
                assert(name == orig.subrange(0, k)[k - 1]);
            }
            let keep = name_ends_with_ts(&name);
            if keep {
                kept.push(name);
            }
            proof {
                assert forall|n: Seq<u8>|
                    name_set(kept@).contains(n) <==> (ends_with_ts(n) && exists|j: int|
                        k - 1 <= j < orig.len() && orig[j]@ == n) by {
                    if keep {
                        assert(kept@ == kept_pre.push(name));
                        if name_set(kept@).contains(n) {
                            let i = choose|i: int|
                                0 <= i < kept@.len() && kept@[i]@ == n;
                            if i < kept_pre.len() {
                                assert(name_set(kept_pre).contains(n));
                            } else {
                                assert(n == name@);
                                assert(orig[k - 1]@ == n);
                            }
                        }
                        if ends_with_ts(n) && exists|j: int|
                            k - 1 <= j < orig.len() && orig[j]@ == n {
                            let j = choose|j: int|
                                k - 1 <= j < orig.len() && orig[j]@ == n;
                            if j == k - 1 {
                                assert(kept@[kept_pre.len() as int]@ == n);
                                assert(name_set(kept@).contains(n));
                            } else {
                                assert(name_set(kept_pre).contains(n));
                                let i = choose|i: int|
                                    0 <= i < kept_pre.len() && kept_pre[i]@ == n;
                                assert(kept@[i]@ == n);
                            }
                        }
                    } else {
                        if name_set(kept@).contains(n) {
                            assert(name_set(kept_pre).contains(n));
                        }
                        if ends_with_ts(n) && exists|j: int|
                            k - 1 <= j < orig.len() && orig[j]@ == n {
                            let j = choose|j: int|
                                k - 1 <= j < orig.len() && orig[j]@ == n;
                            assert(j != k - 1);
                            assert(name_set(kept_pre).contains(n));
                            let i = choose|i: int|
                                0 <= i < kept_pre.len() && kept_pre[i]@ == n;
                            assert(kept@[i]@ == n);
                        }
                    }
                }
            }
        }
        let s = Snapshot { names: kept };
        proof {
            assert forall|n: Seq<u8>|
                s.as_set().contains(n) <==> listed_ts_set(orig).contains(n) by {
                assert(name_set(kept@).contains(n) <==> (ends_with_ts(n) && exists|j: int|
                    0 <= j < orig.len() && orig[j]@ == n));
            }
            assert(s.as_set() =~= listed_ts_set(orig));
        }
        s
    }

    /// Whether this snapshot and `other` hold exactly the same fragment
    /// names: set equality, blind to order and multiplicity.
    pub fn same_names(&self, other: &Snapshot) -> (r: bool)
        ensures
            r == (self.as_set() == other.as_set()),
    {
        let mut i: usize = 0;
        while i < self.names.len()
            invariant
                0 <= i <= self.names@.len(),
                forall|j: int| 0 <= j < i ==> other.as_set().contains(#[trigger] self.names@[j]@),
            decreases self.names@.len() - i,
        {
            if !other.contains_name(&self.names[i]) {
                proof {
                    assert(self.as_set().contains(self.names@[i as int]@));
                }
                return false;
            }
            i = i + 1;
        }
        let mut j: usize = 0;
        while j < other.names.len()
            invariant
                0 <= j <= other.names@.len(),
                forall|p: int| 0 <= p < self.names@.len() ==> other.as_set().contains(
                    #[trigger] self.names@[p]@,
                ),
                forall|q: int| 0 <= q < j ==> self.as_set().contains(#[trigger] other.names@[q]@),
            decreases other.names@.len() - j,
        {
            if !self.contains_name(&other.names[j]) {
                proof {
                    assert(other.as_set().contains(other.names@[j as int]@));
                }
                return false;
            }
            j = j + 1;
        }
        proof {
            assert forall|n: Seq<u8>| self.as_set().contains(n) implies other.as_set().contains(
                n,
            ) by {
                let p = choose|p: int| 0 <= p < self.names@.len() && self.names@[p]@ == n;
                assert(other.as_set().contains(self.names@[p]@));
            }
            assert forall|n: Seq<u8>| other.as_set().contains(n) implies self.as_set().contains(
                n,
            ) by {
                let q = choose|q: int| 0 <= q < other.names@.len() && other.names@[q]@ == n;
                assert(self.as_set().contains(other.names@[q]@));
            }
            assert(self.as_set() =~= other.as_set());
        }
        true
    }
}

/// What one watchdog round decides, in the order the checks run:
/// liveness first, then the directory listing, then the progress
/// comparison.
#[derive(Debug)]
pub enum WatchdogVerdict {
    /// The transcoder process has exited, or polling it failed; fatal.
    TranscoderDied,
    /// The segment directory could not be listed; fatal.
    HealthcheckFailed,
    /// The fragment set did not change over the grace period; fatal.
    Stalled,
    /// The stream made progress; keep monitoring with a new baseline.
    Monitoring,
}

/// One round of the watchdog loop, decided from plain values: whether
/// the non-blocking liveness poll found the transcoder alive (`None`
/// when the poll itself failed), and the directory listing (`None` when
/// listing failed). Returns the verdict and the baseline for the next
/// round.
///
/// Liveness is checked first: a dead transcoder is fatal whatever the
/// snapshot comparison would say. A listing failure is fatal next. An
/// unchanged fragment set — the empty baseline of the very first round
/// included — is a stall; otherwise the new snapshot becomes the
/// baseline.
pub fn watchdog_step(baseline: Snapshot, alive: Option<bool>, listing: Option<Vec<Vec<u8>>>) -> (r:
    (WatchdogVerdict, Snapshot))
    ensures
        alive != Some(true) ==> r.0 is TranscoderDied && r.1 == baseline,
        alive == Some(true) && listing is None ==> r.0 is HealthcheckFailed && r.1 == baseline,
        alive == Some(true) && listing is Some ==> r.1.as_set() == listed_ts_set(
            listing->Some_0@,
        ),
        alive == Some(true) && listing is Some ==> (r.0 is Stalled <==> listed_ts_set(
            listing->Some_0@,
        ) == baseline.as_set()),
        alive == Some(true) && listing is Some ==> (r.0 is Stalled || r.0 is Monitoring),
{
    match alive {
        Some(true) => {},
        _ => {
            return (WatchdogVerdict::TranscoderDied, baseline);
        },
    }
    let names = match listing {
        Some(names) => names,
        None => {
            return (WatchdogVerdict::HealthcheckFailed, baseline);
        },
    };
    let fresh = Snapshot::from_listing(names);
    if fresh.same_names(&baseline) {
        (WatchdogVerdict::Stalled, fresh)
    } else {
        (WatchdogVerdict::Monitoring, fresh)
    }
}

/// Compares two byte strings for equality.
fn bytes_equal(a: &Vec<u8>, b: &Vec<u8>) -> (r: bool)
    ensures
        r == (a@ == b@),
{
    if a.len() != b.len() {
        return false;
    }
    let mut i: usize = 0;
    while i < a.len()
        invariant
            a@.len() == b@.len(),
            0 <= i <= a@.len(),
            forall|j: int| 0 <= j < i ==> a@[j] == b@[j],
        decreases a@.len() - i,
    {
        if a[i] != b[i] {
            return false;
        }
        i = i + 1;
    }
    proof {
        assert(a@ =~= b@);
    }
    true
}

/// Checks one filename for ending in the fragment suffix `.ts`.
fn name_ends_with_ts(name: &Vec<u8>) -> (r: bool)
    ensures
        r == ends_with_ts(name@),
{
    let n = name.len();
    if n >= 3 && name[n - 3] == 46 && name[n - 2] == 116 && name[n - 1] == 115 {
        proof {
            assert(name@.subrange(n - 3, n as int) =~= crate::router::fragment_suffix());
        }
        true
    } else {
        proof {
            if n >= 3 && name@.subrange(n - 3, n as int) == crate::router::fragment_suffix() {
                assert(name@.subrange(n - 3, n as int)[0] == name@[n - 3]);
                assert(name@.subrange(n - 3, n as int)[1] == name@[n - 2]);
                assert(name@.subrange(n - 3, n as int)[2] == name@[n - 1]);
            }
        }
        false
    }
}

} // verus!
