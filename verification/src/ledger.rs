//! The ledger as a mathematical value, and what each operation makes of it.

use crate::state::PollView;
use crate::tally::{countable, has_label, is_slot, tallied, unvoted};
use vstd::prelude::*;

verus! {

/// Everything the ledger holds, as a mathematical value.
///
/// `config` is the administrator, if the ledger was set up; `polls` maps a poll identifier to
/// its poll; `ballots` maps a voter and a poll identifier to the label that the voter selects.
#[verifier::ext_equal]
pub struct Ledger {
    pub config: Option<Seq<char>>,
    pub polls: Map<Seq<char>, PollView>,
    pub ballots: Map<(Seq<char>, Seq<char>), Seq<char>>,
}

/// The voters who cast one of the votes `votes`; each vote is a voter with the label voted
/// for.
pub open spec fn casters(votes: Seq<(Seq<char>, Seq<char>)>) -> Set<Seq<char>> {
    Set::new(
        |voter: Seq<char>| exists|i: int| 0 <= i < votes.len() && (#[trigger] votes[i]).0 == voter,
    )
}

impl Ledger {
    /// The label that `voter` selects in the poll `poll_id`, if a ballot is recorded.
    pub open spec fn ballot(self, voter: Seq<char>, poll_id: Seq<char>) -> Option<Seq<char>> {
        if self.ballots.contains_key((voter, poll_id)) {
            Some(self.ballots[(voter, poll_id)])
        } else {
            None
        }
    }

    /// The poll recorded under `poll_id`, if there is one.
    pub open spec fn poll(self, poll_id: Seq<char>) -> Option<PollView> {
        if self.polls.contains_key(poll_id) {
            Some(self.polls[poll_id])
        } else {
            None
        }
    }

    /// The ledger after it was set up with `admin` as administrator.
    pub open spec fn set_up(self, admin: Seq<char>) -> Ledger {
        Ledger { config: Some(admin), ..self }
    }

    /// The ledger with `poll` recorded under `poll_id`, in place of any poll recorded there.
    pub open spec fn with_poll(self, poll_id: Seq<char>, poll: PollView) -> Ledger {
        Ledger { polls: self.polls.insert(poll_id, poll), ..self }
    }

    /// The ledger with `label` recorded as the selection of `voter` in the poll `poll_id`.
    pub open spec fn with_ballot(
        self,
        voter: Seq<char>,
        poll_id: Seq<char>,
        label: Seq<char>,
    ) -> Ledger {
        Ledger { ballots: self.ballots.insert((voter, poll_id), label), ..self }
    }

    /// The ledger after `creator` created the poll `poll_id`: the poll offers `labels` in the
    /// given order, no vote is counted, and ballots are as they were.
    pub open spec fn created(
        self,
        creator: Seq<char>,
        poll_id: Seq<char>,
        question: Seq<char>,
        labels: Seq<Seq<char>>,
    ) -> Ledger {
        self.with_poll(poll_id, PollView { creator, question, options: unvoted(labels) })
    }

    /// The poll `poll_id` after `voter` voted for `label` in it.
    pub open spec fn poll_after_vote(
        self,
        voter: Seq<char>,
        poll_id: Seq<char>,
        label: Seq<char>,
    ) -> PollView {
        PollView {
            options: tallied(self.polls[poll_id].options, self.ballot(voter, poll_id), label),
            ..self.polls[poll_id]
        }
    }

    /// The ledger after `voter` voted for `label` in the poll `poll_id`: the ballot selects
    /// `label`, and the poll counts it in place of the voter's earlier ballot.
    pub open spec fn voted(
        self,
        voter: Seq<char>,
        poll_id: Seq<char>,
        label: Seq<char>,
    ) -> Ledger {
        self.with_ballot(voter, poll_id, label).with_poll(
            poll_id,
            self.poll_after_vote(voter, poll_id, label),
        )
    }

    /// The ledger after the votes `votes` were cast in the poll `poll_id`, one after the
    /// other; each vote is a voter with the label voted for.
    pub open spec fn voted_all(
        self,
        poll_id: Seq<char>,
        votes: Seq<(Seq<char>, Seq<char>)>,
    ) -> Ledger
        decreases votes.len(),
    {
        if votes.len() == 0 {
            self
        } else {
            self.voted_all(poll_id, votes.drop_last()).voted(
                votes.last().0,
                poll_id,
                votes.last().1,
            )
        }
    }

    /// Whether a vote of `voter` for `label` in the poll `poll_id` can be counted: where the
    /// poll exists, the voter's earlier ballot is among the counted ones and the tally that
    /// grows has room to grow.
    pub open spec fn can_count(
        self,
        voter: Seq<char>,
        poll_id: Seq<char>,
        label: Seq<char>,
    ) -> bool {
        self.polls.contains_key(poll_id) ==> countable(
            self.polls[poll_id].options,
            self.ballot(voter, poll_id),
            label,
        )
    }

    /// The voters who have a ballot in the poll `poll_id`.
    pub open spec fn voters(self, poll_id: Seq<char>) -> Set<Seq<char>> {
        Set::new(|voter: Seq<char>| self.ballots.contains_key((voter, poll_id)))
    }

    /// The voters whose ballot in the poll `poll_id` counts in slot `i`.
    pub open spec fn backers(self, poll_id: Seq<char>, i: int) -> Set<Seq<char>> {
        Set::new(
            |voter: Seq<char>|
                self.ballots.contains_key((voter, poll_id)) && is_slot(
                    self.polls[poll_id].options,
                    self.ballots[(voter, poll_id)],
                    i,
                ),
        )
    }

    /// Whether the poll `poll_id` counts its ballots: it exists, finitely many voters have a
    /// ballot in it, every such ballot selects a label that the poll offers, and the tally
    /// of every slot is the number of ballots that count there.
    pub open spec fn counts_ballots(self, poll_id: Seq<char>) -> bool {
        &&& self.polls.contains_key(poll_id)
        &&& self.voters(poll_id).finite()
        &&& forall|voter: Seq<char>| #[trigger]
            self.ballots.contains_key((voter, poll_id)) ==> has_label(
                self.polls[poll_id].options,
                self.ballots[(voter, poll_id)],
            )
        &&& forall|i: int|
            0 <= i < self.polls[poll_id].options.len() ==> (
            #[trigger] self.polls[poll_id].options[i]).1 == self.backers(poll_id, i).len()
    }

    /// Whether the ledger is consistent: every poll counts its ballots, and no ballot is
    /// recorded for a poll that is not there.
    pub open spec fn consistent(self) -> bool {
        forall|poll_id: Seq<char>|
            if self.polls.contains_key(poll_id) {
                self.counts_ballots(poll_id)
            } else {
                #[trigger] self.voters(poll_id) == Set::<Seq<char>>::empty()
            }
    }
}

} // verus!
