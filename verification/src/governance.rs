//! A governance ledger: proposals, one vote per (voter, proposal) pair,
//! yes/no tallies, and a one-time finalization to a terminal outcome.

use vstd::prelude::*;

verus! {

/// Names the account identity type that a host runtime uses for proposal
/// creators and voters, together with equality and copying on it.
pub trait GovernanceConfig {
    type AccountId;

    /// Equality test on account identities.
    fn account_eq(a: &Self::AccountId, b: &Self::AccountId) -> (r: bool)
        ensures
            r == (*a == *b),
    ;

    /// An independent copy of an account identity.
    fn account_clone(a: &Self::AccountId) -> (r: Self::AccountId)
        ensures
            r == *a,
    ;
}

/// Lifecycle status of a proposal: it starts `Active` and moves at most once,
/// to `Approved` or `Rejected`, both terminal.
#[derive(Clone, Copy, PartialEq, Eq, Structural, Debug)]
pub enum ProposalStatus {
    Active,
    Approved,
    Rejected,
}

/// The conditions under which each ledger operation is refused.
#[derive(Clone, Copy, PartialEq, Eq, Structural, Debug)]
pub enum GovernanceError {
    /// The referenced proposal id has no record.
    ProposalNotFound,
    /// A vote was attempted on a proposal that is no longer `Active`.
    ProposalNotActive,
    /// The voter already has a vote record for this proposal.
    DuplicateVote,
    /// Finalization was attempted on a proposal that is no longer `Active`.
    AlreadyFinalized,
}

/// A governance item: opaque description, accumulating yes/no tallies,
/// lifecycle status, and the account that created it.
pub struct Proposal<T: GovernanceConfig> {
    pub description: String,
    pub yes_votes: u32,
    pub no_votes: u32,
    pub status: ProposalStatus,
    pub creator: T::AccountId,
}

/// An immutable fact: `voter` voted `vote` (true = yes) on proposal
/// `proposal_id`. Records are only ever appended, never changed or removed.
pub struct VoteRecord<T: GovernanceConfig> {
    pub voter: T::AccountId,
    pub proposal_id: u32,
    pub vote: bool,
}

/// The ledger. Proposal ids are handed out contiguously from 0, so the
/// proposal with id `i` lives at index `i` and `next_proposal_id` equals the
/// number of proposals ever created.
pub struct GovernancePallet<T: GovernanceConfig> {
    pub proposals: Vec<Proposal<T>>,
    pub votes: Vec<VoteRecord<T>>,
    pub next_proposal_id: u32,
}

/// True when record `r` is the vote of `voter` on proposal `proposal_id`.
pub open spec fn vote_matches<T: GovernanceConfig>(
    r: VoteRecord<T>,
    voter: T::AccountId,
    proposal_id: u32,
) -> bool {
    r.voter == voter && r.proposal_id == proposal_id
}

/// True when some record in `votes` is keyed by (voter, proposal_id).
pub open spec fn has_vote<T: GovernanceConfig>(
    votes: Seq<VoteRecord<T>>,
    voter: T::AccountId,
    proposal_id: u32,
) -> bool {
    exists|i: int| 0 <= i < votes.len() && vote_matches(votes[i], voter, proposal_id)
}

/// The number of records in `votes` for proposal `proposal_id` whose vote
/// value is `v`.
pub open spec fn tally<T: GovernanceConfig>(
    votes: Seq<VoteRecord<T>>,
    proposal_id: u32,
    v: bool,
) -> nat
    decreases votes.len(),
{
    if votes.len() == 0 {
        0
    } else {
        tally(votes.drop_last(), proposal_id, v) + (if votes.last().proposal_id == proposal_id
            && votes.last().vote == v {
            1nat
        } else {
            0nat
        })
    }
}

/// The number of records in `votes` for proposal `proposal_id`, either way.
pub open spec fn votes_for<T: GovernanceConfig>(votes: Seq<VoteRecord<T>>, proposal_id: u32) -> nat
    decreases votes.len(),
{
    if votes.len() == 0 {
        0
    } else {
        votes_for(votes.drop_last(), proposal_id) + (if votes.last().proposal_id == proposal_id {
            1nat
        } else {
            0nat
        })
    }
}

/// Appending a record changes a tally by one exactly when the record's key
/// and vote value are the tallied ones.
proof fn lemma_tally_push<T: GovernanceConfig>(
    votes: Seq<VoteRecord<T>>,
    r: VoteRecord<T>,
    proposal_id: u32,
    v: bool,
)
    ensures
        tally(votes.push(r), proposal_id, v) == tally(votes, proposal_id, v) + (
        if r.proposal_id == proposal_id && r.vote == v {
            1nat
        } else {
            0nat
        }),
{
    assert(votes.push(r).drop_last() =~= votes);
    assert(votes.push(r).last() == r);
}

/// A tally never exceeds the number of vote records.
proof fn lemma_tally_le_len<T: GovernanceConfig>(votes: Seq<VoteRecord<T>>, proposal_id: u32, v: bool)
    ensures
        tally(votes, proposal_id, v) <= votes.len(),
    decreases votes.len(),
{
    if votes.len() > 0 {
        lemma_tally_le_len(votes.drop_last(), proposal_id, v);
    }
}

/// A proposal no record points at has tally zero.
proof fn lemma_tally_absent<T: GovernanceConfig>(votes: Seq<VoteRecord<T>>, proposal_id: u32, v: bool)
    requires
        forall|i: int| 0 <= i < votes.len() ==> (#[trigger] votes[i]).proposal_id != proposal_id,
    ensures
        tally(votes, proposal_id, v) == 0,
    decreases votes.len(),
{
    if votes.len() > 0 {
        lemma_tally_absent(votes.drop_last(), proposal_id, v);
    }
}

/// The yes tally and the no tally partition the records for a proposal.
pub proof fn lemma_tally_split<T: GovernanceConfig>(votes: Seq<VoteRecord<T>>, proposal_id: u32)
    ensures
        tally(votes, proposal_id, true) + tally(votes, proposal_id, false) == votes_for(
            votes,
            proposal_id,
        ),
    decreases votes.len(),
{
    if votes.len() > 0 {
        lemma_tally_split(votes.drop_last(), proposal_id);
    }
}

/// The decision rule: a strict yes majority approves, a tie or a no
/// majority rejects.
pub open spec fn decide(yes_votes: u32, no_votes: u32) -> ProposalStatus {
    if yes_votes > no_votes {
        ProposalStatus::Approved
    } else {
        ProposalStatus::Rejected
    }
}

impl<T: GovernanceConfig> GovernancePallet<T> {
    /// At most one vote record per (voter, proposal) key.
    pub open spec fn no_duplicate_votes(self) -> bool {
        forall|i: int, j: int|
            0 <= i < j < self.votes@.len() ==> !(#[trigger] vote_matches(
                self.votes@[i],
                self.votes@[j].voter,
                self.votes@[j].proposal_id,
            ))
    }

    /// Every vote record points at a proposal that exists.
    pub open spec fn votes_reference_existing(self) -> bool {
        forall|i: int|
            0 <= i < self.votes@.len() ==> (#[trigger] self.votes@[i]).proposal_id
                < self.proposals@.len()
    }

    /// Each proposal's counters equal the tallies over the vote records.
    pub open spec fn tallies_match(self) -> bool {
        forall|p: int|
            0 <= p < self.proposals@.len() ==> {
                &&& (#[trigger] self.proposals@[p]).yes_votes == tally(
                    self.votes@,
                    p as u32,
                    true,
                )
                &&& self.proposals@[p].no_votes == tally(self.votes@, p as u32, false)
            }
    }

    /// The ledger's invariant, established by `new` and preserved by every
    /// operation.
    pub open spec fn wf(self) -> bool {
        &&& self.proposals@.len() == self.next_proposal_id as nat
        &&& self.no_duplicate_votes()
        &&& self.votes_reference_existing()
        &&& self.tallies_match()
    }

    /// An empty ledger: no proposals, no votes, ids start at 0.
    pub fn new() -> (r: Self)
        ensures
            r.wf(),
            r.proposals@.len() == 0,
            r.votes@.len() == 0,
            r.next_proposal_id == 0,
    {
        GovernancePallet { proposals: Vec::new(), votes: Vec::new(), next_proposal_id: 0 }
    }

    /// Whether a vote record keyed by (voter, proposal_id) exists.
    fn find_vote(votes: &Vec<VoteRecord<T>>, voter: &T::AccountId, proposal_id: u32) -> (r: bool)
        ensures
            r == has_vote(votes@, *voter, proposal_id),
    {
        let n: usize = votes.len();
        let mut i: usize = 0;
        while i < n
            invariant
                n == votes@.len(),
                i <= n,
                forall|k: int| 0 <= k < i ==> !vote_matches(#[trigger] votes@[k], *voter, proposal_id),
            decreases n - i,
        {
            if T::account_eq(&votes[i].voter, voter) && votes[i].proposal_id == proposal_id {
                assert(vote_matches(votes@[i as int], *voter, proposal_id));
                return true;
            }
            i = i + 1;
        }
        false
    }

    /// Record `voter`'s vote (true = yes) on proposal `proposal_id`.
    ///
    /// Fails with `ProposalNotFound` when the id has no record,
    /// `ProposalNotActive` when the proposal was already finalized, and
    /// `DuplicateVote` when the voter already has a record for it; every
    /// failure leaves the ledger unchanged. On success the record is
    /// appended and exactly the matching counter is incremented.
    pub fn vote(&mut self, voter: T::AccountId, proposal_id: u32, vote_type: bool) -> (r: Result<
        (),
        GovernanceError,
    >)
        requires
            old(self).wf(),
            old(self).votes@.len() < u32::MAX,
        ensures
            final(self).wf(),
            final(self).next_proposal_id == old(self).next_proposal_id,
            proposal_id as int >= old(self).proposals@.len() ==> r == Err::<(), GovernanceError>(
                GovernanceError::ProposalNotFound,
            ) && *final(self) == *old(self),
            (proposal_id as int) < old(self).proposals@.len() && old(self).proposals@[proposal_id as int].status
                != ProposalStatus::Active ==> r == Err::<(), GovernanceError>(
                GovernanceError::ProposalNotActive,
            ) && *final(self) == *old(self),
            (proposal_id as int) < old(self).proposals@.len() && old(self).proposals@[proposal_id as int].status
                == ProposalStatus::Active && has_vote(old(self).votes@, voter, proposal_id) ==> r
                == Err::<(), GovernanceError>(GovernanceError::DuplicateVote) && *final(self) == *old(self),
            (proposal_id as int) < old(self).proposals@.len() && old(self).proposals@[proposal_id as int].status
                == ProposalStatus::Active && !has_vote(old(self).votes@, voter, proposal_id) ==> {
                &&& r == Ok::<(), GovernanceError>(())
                &&& final(self).votes@ == old(self).votes@.push(
                    (VoteRecord { voter, proposal_id, vote: vote_type }),
                )
                &&& has_vote(final(self).votes@, voter, proposal_id)
                &&& final(self).proposals@.len() == old(self).proposals@.len()
                &&& forall|p: int|
                    0 <= p < old(self).proposals@.len() && p != proposal_id as int
                        ==> final(self).proposals@[p] == old(self).proposals@[p]
                &&& final(self).proposals@[proposal_id as int].yes_votes
                    == old(self).proposals@[proposal_id as int].yes_votes + (
                    if vote_type {
                        1int
                    } else {
                        0int
                    })
                &&& final(self).proposals@[proposal_id as int].no_votes
                    == old(self).proposals@[proposal_id as int].no_votes + (
                    if vote_type {
                        0int
                    } else {
                        1int
                    })
                &&& final(self).proposals@[proposal_id as int].status == ProposalStatus::Active
                &&& final(self).proposals@[proposal_id as int].description
                    == old(self).proposals@[proposal_id as int].description
                &&& final(self).proposals@[proposal_id as int].creator
                    == old(self).proposals@[proposal_id as int].creator
            },
    {
        let idx: usize = proposal_id as usize;
        if idx >= self.proposals.len() {
            return Err(GovernanceError::ProposalNotFound);
        }
        if self.proposals[idx].status != ProposalStatus::Active {
            return Err(GovernanceError::ProposalNotActive);
        }
        if Self::find_vote(&self.votes, &voter, proposal_id) {
            return Err(GovernanceError::DuplicateVote);
        }
        proof {
            lemma_tally_le_len(self.votes@, proposal_id, true);
            lemma_tally_le_len(self.votes@, proposal_id, false);
        }
        let ghost old_votes = self.votes@;
        let ghost old_proposals = self.proposals@;
        let record = VoteRecord { voter, proposal_id, vote: vote_type };
        self.votes.push(record);
        let mut prop = self.proposals.remove(idx);
        if vote_type {
            prop.yes_votes = prop.yes_votes + 1;
        } else {
            prop.no_votes = prop.no_votes + 1;
        }
        self.proposals.insert(idx, prop);
        proof {
            let ghost rec = VoteRecord { voter, proposal_id, vote: vote_type };
            assert(self.proposals@ =~= old_proposals.update(
                idx as int,
                self.proposals@[idx as int],
            ));
            assert forall|i: int, j: int| 0 <= i < j < self.votes@.len() implies !(
            #[trigger] vote_matches(
                self.votes@[i],
                self.votes@[j].voter,
                self.votes@[j].proposal_id,
            )) by {
                if j == self.votes@.len() - 1 {
                    assert(self.votes@[i] == old_votes[i]);
                    assert(self.votes@[j] == rec);
                    assert(!vote_matches(old_votes[i], voter, proposal_id));
                }
            }
            assert forall|p: int| 0 <= p < self.proposals@.len() implies {
                &&& (#[trigger] self.proposals@[p]).yes_votes == tally(self.votes@, p as u32, true)
                &&& self.proposals@[p].no_votes == tally(self.votes@, p as u32, false)
            } by {
                lemma_tally_push(old_votes, rec, p as u32, true);
                lemma_tally_push(old_votes, rec, p as u32, false);
            }
        }
        Ok(())
    }

    /// Resolve an `Active` proposal to `decide(yes_votes, no_votes)` and
    /// return that terminal status.
    ///
    /// Fails with `ProposalNotFound` when the id has no record and with
    /// `AlreadyFinalized` when the proposal is no longer `Active`; every
    /// failure leaves the ledger unchanged. Success changes the status
    /// alone: counters, description, creator and votes stay as they were.
    pub fn finalize_proposal(&mut self, proposal_id: u32) -> (r: Result<
        ProposalStatus,
        GovernanceError,
    >)
        requires
            old(self).wf(),
        ensures
            final(self).wf(),
            final(self).next_proposal_id == old(self).next_proposal_id,
            final(self).votes@ == old(self).votes@,
            proposal_id as int >= old(self).proposals@.len() ==> r == Err::<
                ProposalStatus,
                GovernanceError,
            >(GovernanceError::ProposalNotFound) && *final(self) == *old(self),
            (proposal_id as int) < old(self).proposals@.len() && old(self).proposals@[proposal_id as int].status
                != ProposalStatus::Active ==> r == Err::<ProposalStatus, GovernanceError>(
                GovernanceError::AlreadyFinalized,
            ) && *final(self) == *old(self),
            (proposal_id as int) < old(self).proposals@.len() && old(self).proposals@[proposal_id as int].status
                == ProposalStatus::Active ==> {
                &&& r == Ok::<ProposalStatus, GovernanceError>(
                    decide(
                        old(self).proposals@[proposal_id as int].yes_votes,
                        old(self).proposals@[proposal_id as int].no_votes,
                    ),
                )
                &&& final(self).proposals@.len() == old(self).proposals@.len()
                &&& forall|p: int|
                    0 <= p < old(self).proposals@.len() && p != proposal_id as int
                        ==> final(self).proposals@[p] == old(self).proposals@[p]
                &&& final(self).proposals@[proposal_id as int].status == decide(
                    old(self).proposals@[proposal_id as int].yes_votes,
                    old(self).proposals@[proposal_id as int].no_votes,
                )
                &&& final(self).proposals@[proposal_id as int].status != ProposalStatus::Active
                &&& final(self).proposals@[proposal_id as int].yes_votes
                    == old(self).proposals@[proposal_id as int].yes_votes
                &&& final(self).proposals@[proposal_id as int].no_votes
                    == old(self).proposals@[proposal_id as int].no_votes
                &&& final(self).proposals@[proposal_id as int].description
                    == old(self).proposals@[proposal_id as int].description
                &&& final(self).proposals@[proposal_id as int].creator
                    == old(self).proposals@[proposal_id as int].creator
            },
    {
        let idx: usize = proposal_id as usize;
        if idx >= self.proposals.len() {
            return Err(GovernanceError::ProposalNotFound);
        }
        if self.proposals[idx].status != ProposalStatus::Active {
            return Err(GovernanceError::AlreadyFinalized);
        }
        let ghost old_proposals = self.proposals@;
        let mut prop = self.proposals.remove(idx);
        let new_status = if prop.yes_votes > prop.no_votes {
            ProposalStatus::Approved
        } else {
            ProposalStatus::Rejected
        };
        prop.status = new_status;
        self.proposals.insert(idx, prop);
        proof {
            assert(self.proposals@ =~= old_proposals.update(
                idx as int,
                self.proposals@[idx as int],
            ));
        }
        Ok(new_status)
    }

    /// Allocate the next proposal id and insert a fresh `Active` proposal
    /// with zero tallies for `creator`. Always succeeds and returns the id
    /// that was current before the call; ids strictly increase by one per
    /// call and are never reused.
    pub fn create_proposal(&mut self, creator: T::AccountId, description: String) -> (r: Result<
        u32,
        GovernanceError,
    >)
        requires
            old(self).wf(),
            old(self).next_proposal_id < u32::MAX,
        ensures
            final(self).wf(),
            r == Ok::<u32, GovernanceError>(old(self).next_proposal_id),
            final(self).next_proposal_id == old(self).next_proposal_id + 1,
            final(self).votes@ == old(self).votes@,
            final(self).proposals@ == old(self).proposals@.push(
                (Proposal {
                    description,
                    yes_votes: 0,
                    no_votes: 0,
                    status: ProposalStatus::Active,
                    creator,
                }),
            ),
    {
        let current_id = self.next_proposal_id;
        let new_proposal = Proposal {
            description,
            yes_votes: 0,
            no_votes: 0,
            status: ProposalStatus::Active,
            creator,
        };
        let ghost old_votes = self.votes@;
        let ghost old_proposals = self.proposals@;
        self.proposals.push(new_proposal);
        self.next_proposal_id = current_id + 1;
        proof {
            assert forall|i: int|
                0 <= i < old_votes.len() implies (#[trigger] old_votes[i]).proposal_id
                != current_id by {
                assert(old_votes[i].proposal_id < old_proposals.len());
            }
            lemma_tally_absent(old_votes, current_id, true);
            lemma_tally_absent(old_votes, current_id, false);
        }
        Ok(current_id)
    }

    /// A read-only view of the proposal with the given id, or `None` when no
    /// proposal has that id. No side effects.
    pub fn get_proposal(&self, proposal_id: u32) -> (r: Option<&Proposal<T>>)
        ensures
            match r {
                Some(p) => (proposal_id as int) < self.proposals@.len() && *p
                    == self.proposals@[proposal_id as int],
                None => proposal_id as int >= self.proposals@.len(),
            },
    {
        let idx: usize = proposal_id as usize;
        if idx < self.proposals.len() {
            Some(&self.proposals[idx])
        } else {
            None
        }
    }

    /// Independent copies of a proposal's description and creator, or
    /// `ProposalNotFound` when no proposal has that id. No side effects.
    pub fn get_proposal_details(&self, proposal_id: u32) -> (r: Result<
        (String, T::AccountId),
        GovernanceError,
    >)
        ensures
            match r {
                Ok(d) => (proposal_id as int) < self.proposals@.len() && d.0
                    == self.proposals@[proposal_id as int].description && d.1
                    == self.proposals@[proposal_id as int].creator,
                Err(e) => proposal_id as int >= self.proposals@.len() && e
                    == GovernanceError::ProposalNotFound,
            },
    {
        let idx: usize = proposal_id as usize;
        if idx >= self.proposals.len() {
            return Err(GovernanceError::ProposalNotFound);
        }
        let p = &self.proposals[idx];
        Ok((p.description.clone(), T::account_clone(&p.creator)))
    }

    /// In every well-formed ledger state, a proposal's yes and no counters
    /// together equal the number of vote records keyed to its id.
    pub proof fn lemma_counters_count_vote_records(self, proposal_id: u32)
        requires
            self.wf(),
            (proposal_id as int) < self.proposals@.len(),
        ensures
            self.proposals@[proposal_id as int].yes_votes
                + self.proposals@[proposal_id as int].no_votes == votes_for(
                self.votes@,
                proposal_id,
            ),
    {
        lemma_tally_split(self.votes@, proposal_id);
    }
}

} // verus!
