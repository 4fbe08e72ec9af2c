use vstd::pervasive::VecAdditionalExecFns;
use vstd::prelude::*;
use vstd::string::StringExecFns;

use crate::candidates::build_well_known_urls;
use crate::candidates::dedup_urls;
use crate::candidates::spec_dedup;
use crate::candidates::spec_well_known_urls;
use crate::config::Config;
use crate::discovery::discovered_urls;
use crate::discovery::spec_discovered;
use crate::error::Error;
use crate::error::ErrorKind;

verus! {

/// What the engine decides after one attempt's outcome.
pub enum Step {
    /// Some candidate produced a valid configuration. Resolution is over:
    /// the other attempts are abandoned and their outcomes never inspected.
    Resolved(Config),
    /// Attempts are still outstanding.
    Pending,
    /// Every candidate has failed; `into_error` aggregates the failures.
    Exhausted,
}

/// Every candidate has a failure recorded.
pub open spec fn all_recorded(failures: Seq<Option<Error>>) -> bool {
    forall|i: int| 0 <= i < failures.len() ==> failures[i] is Some
}

/// The terminal failure list: the discovery error when discovery itself
/// failed (discovery precedes every fetch attempt, so it comes first), then
/// one error per candidate, in attempt order — never in completion order.
pub open spec fn spec_aggregate(
    discovery_error: Option<Error>,
    failures: Seq<Option<Error>>,
) -> Seq<Error> {
    (match discovery_error {
        Some(e) => seq![e],
        None => Seq::empty(),
    }) + failures.map_values(|o: Option<Error>| o.unwrap())
}

/// Law: the aggregate of an exhausted resolution holds exactly one entry
/// per attempted candidate, at the candidate's own attempt position, after
/// the discovery error when one was recorded.
pub proof fn lemma_aggregate_one_error_per_candidate(
    discovery_error: Option<Error>,
    failures: Seq<Option<Error>>,
)
    requires
        all_recorded(failures),
    ensures
        ({
            let list = spec_aggregate(discovery_error, failures);
            let offset: int = if discovery_error is Some {
                1
            } else {
                0
            };
            &&& list.len() == failures.len() + offset
            &&& discovery_error matches Some(e) ==> list[0] == e
            &&& forall|i: int| 0 <= i < failures.len() ==> list[i + offset] == failures[i].unwrap()
        }),
{
    let mapped = failures.map_values(|o: Option<Error>| o.unwrap());
    assert(mapped.len() == failures.len());
    let list = spec_aggregate(discovery_error, failures);
    let offset: int = if discovery_error is Some {
        1
    } else {
        0
    };
    assert forall|i: int| 0 <= i < failures.len() implies list[i + offset]
        == failures[i].unwrap() by {
        assert(mapped[i] == failures[i].unwrap());
    }
}

/// The resolution engine's state: the candidate list is fixed at
/// construction, and one failure slot per candidate fills as attempts
/// report back, in whatever order they complete.
pub struct Resolution {
    /// The deduplicated candidates: well-known URLs first, discovered after.
    pub candidates: Vec<String>,
    /// The discovery failure, when the TXT lookup itself failed; recorded,
    /// never fatal on its own.
    pub discovery_error: Option<Error>,
    /// One slot per candidate, holding its failure once one is reported.
    pub failures: Vec<Option<Error>>,
}

impl Resolution {
    /// One failure slot stands per candidate.
    pub open spec fn wf(self) -> bool {
        self.failures.len() == self.candidates.len()
    }

    /// Starts a resolution for `domain` from the discovery outcome: the
    /// candidates are the three well-known URLs, then the URLs the TXT
    /// records advertise, deduplicated keeping first occurrences. A failed
    /// discovery contributes no candidates; its error is recorded instead.
    pub fn new(domain: &str, txt: Result<Vec<Vec<u8>>, Error>) -> (r: Resolution)
        ensures
            r.wf(),
            forall|i: int| 0 <= i < r.failures@.len() ==> r.failures@[i] is None,
            txt matches Ok(records) ==> (r.candidates.deep_view() == spec_dedup(
                spec_well_known_urls(domain@) + spec_discovered(records.deep_view()),
            ) && r.discovery_error is None),
            txt matches Err(e) ==> (r.candidates.deep_view() == spec_dedup(
                spec_well_known_urls(domain@),
            ) && r.discovery_error == Some(e)),
    {
        let mut urls = build_well_known_urls(domain);
        let ghost wk = urls.deep_view();
        let mut discovery_error: Option<Error> = None;
        match txt {
            Ok(records) => {
                let mut more = discovered_urls(&records);
                urls.append(&mut more);
                proof {
                    assert(urls.deep_view() =~= wk + spec_discovered(records.deep_view()));
                }
            },
            Err(e) => {
                discovery_error = Some(e);
            },
        }
        let candidates = dedup_urls(urls);
        let n = candidates.len();
        let mut failures: Vec<Option<Error>> = Vec::new();
        let mut i: usize = 0;
        while i < n
            invariant
                i <= n,
                failures@.len() == i,
                forall|j: int| 0 <= j < i ==> failures@[j] is None,
            decreases n - i,
        {
            failures.push(None);
            i += 1;
        }
        Resolution { candidates, discovery_error, failures }
    }

    /// The candidates to attempt, in attempt order.
    pub fn candidates(&self) -> (c: &Vec<String>)
        ensures
            c == &self.candidates,
    {
        &self.candidates
    }

    /// Whether every candidate has failed.
    fn all_failed(&self) -> (b: bool)
        ensures
            b == all_recorded(self.failures@),
    {
        let n = self.failures.len();
        let mut i: usize = 0;
        while i < n
            invariant
                i <= n,
                n == self.failures@.len(),
                forall|j: int| 0 <= j < i ==> self.failures@[j] is Some,
            decreases n - i,
        {
            match &self.failures[i] {
                Some(_) => {},
                None => {
                    return false;
                },
            }
            i += 1;
        }
        true
    }

    /// Takes the outcome one attempt reported, in completion order.
    /// First-success-wins: a configuration resolves at once, whatever
    /// failures stand recorded, and nothing further is inspected. A failure
    /// is recorded in the candidate's own slot; when the last slot fills,
    /// the resolution is exhausted.
    pub fn on_outcome(&mut self, index: usize, outcome: Result<Config, Error>) -> (step: Step)
        requires
            old(self).wf(),
            index < old(self).candidates@.len(),
            old(self).failures@[index as int] is None,
        ensures
            final(self).wf(),
            final(self).candidates == old(self).candidates,
            final(self).discovery_error == old(self).discovery_error,
            outcome matches Ok(c) ==> (step == Step::Resolved(c) && final(self).failures == old(
                self,
            ).failures),
            outcome matches Err(e) ==> (final(self).failures@ == old(self).failures@.update(
                index as int,
                Some(e),
            ) && step == (if all_recorded(final(self).failures@) {
                Step::Exhausted
            } else {
                Step::Pending
            })),
    {
        match outcome {
            Ok(config) => Step::Resolved(config),
            Err(e) => {
                self.failures.set(index, Some(e));
                if self.all_failed() {
                    Step::Exhausted
                } else {
                    Step::Pending
                }
            },
        }
    }

    /// The terminal failure of an exhausted resolution: every attempt's
    /// error, in attempt order, behind the discovery error when discovery
    /// itself failed.
    pub fn into_error(self) -> (e: Error)
        requires
            self.wf(),
            all_recorded(self.failures@),
        ensures
            e.kind matches ErrorKind::NotFound(list) && list@ == spec_aggregate(
                self.discovery_error,
                self.failures@,
            ),
            e.message@ == "Could not find a valid config"@,
    {
        let Resolution { candidates: _, discovery_error, failures } = self;
        let ghost orig = failures@;
        let mut failures = failures;
        let mut list: Vec<Error> = Vec::new();
        match discovery_error {
            Some(e) => list.push(e),
            None => {},
        }
        let ghost head = list@;
        let ghost mut k: int = 0;
        while failures.len() > 0
            invariant
                0 <= k <= orig.len(),
                orig.len() - k == failures@.len(),
                failures@ == orig.subrange(k, orig.len() as int),
                all_recorded(orig),
                list@ == head + orig.subrange(0, k).map_values(|o: Option<Error>| o.unwrap()),
            decreases failures@.len(),
        {
            let f = failures.remove(0);
            proof {
                assert(f == orig[k]);
                assert(failures@ =~= orig.subrange(k + 1, orig.len() as int));
            }
            match f {
                Some(e) => {
                    list.push(e);
                },
                None => {
                    proof {
                        assert(orig[k] is Some);
                    }
                },
            }
            proof {
                assert(list@ =~= head + orig.subrange(0, k + 1).map_values(
                    |o: Option<Error>| o.unwrap(),
                ));
                k = k + 1;
            }
        }
        proof {
            assert(orig.subrange(0, orig.len() as int) =~= orig);
            assert(list@ =~= spec_aggregate(discovery_error, orig));
        }
        Error::new(ErrorKind::NotFound(list), String::from_str("Could not find a valid config"))
    }
}

} // verus!
