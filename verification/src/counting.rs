//! What the tallies count: in a consistent ledger the tally of every slot is the number of
//! ballots that count there, so the tallies of a poll add up to the number of its voters;
//! and the operations keep a consistent ledger consistent.

use crate::contract::{poll_created, set_up_done, vote_cast};
use crate::error::ContractError;
use crate::ledger::{casters, Ledger};
use crate::state::PollView;
use crate::tally::{has_label, lemma_same_labels, lemma_slot, slot, total};
use cosmwasm_std::{Empty, Response};
use vstd::prelude::*;

verus! {

/// The voters whose ballot in the poll `poll_id` counts in a slot before `k`.
spec fn voters_below(ledger: Ledger, poll_id: Seq<char>, k: int) -> Set<Seq<char>> {
    Set::new(
        |voter: Seq<char>|
            ledger.ballots.contains_key((voter, poll_id)) && slot(
                ledger.polls[poll_id].options,
                ledger.ballots[(voter, poll_id)],
            ) < k,
    )
}

/// In a poll that counts its ballots, the first `k` tallies add up to the number of voters
/// whose ballot counts in one of the first `k` slots.
proof fn lemma_total_below(ledger: Ledger, poll_id: Seq<char>, k: int)
    requires
        ledger.counts_ballots(poll_id),
        0 <= k <= ledger.polls[poll_id].options.len(),
    ensures
        voters_below(ledger, poll_id, k).finite(),
        total(ledger.polls[poll_id].options.take(k)) == voters_below(ledger, poll_id, k).len(),
    decreases k,
{
    let options = ledger.polls[poll_id].options;
    let voters = ledger.voters(poll_id);
    let below = voters_below(ledger, poll_id, k);
    vstd::set_lib::lemma_len_subset(below, voters);
    if k == 0 {
        assert forall|voter: Seq<char>| !below.contains(voter) by {
            if ledger.ballots.contains_key((voter, poll_id)) {
                lemma_slot(options, ledger.ballots[(voter, poll_id)]);
            }
        }
        assert(below =~= Set::<Seq<char>>::empty());
    } else {
        lemma_total_below(ledger, poll_id, k - 1);
        let before = voters_below(ledger, poll_id, k - 1);
        let here = ledger.backers(poll_id, k - 1);
        vstd::set_lib::lemma_len_subset(here, voters);
        assert forall|voter: Seq<char>| below.contains(voter) == (before.contains(voter)
            || here.contains(voter)) by {
            if ledger.ballots.contains_key((voter, poll_id)) {
                lemma_slot(options, ledger.ballots[(voter, poll_id)]);
            }
        }
        assert(below =~= before + here);
        assert forall|voter: Seq<char>| !(before.contains(voter) && here.contains(voter)) by {
            if ledger.ballots.contains_key((voter, poll_id)) {
                lemma_slot(options, ledger.ballots[(voter, poll_id)]);
            }
        }
        vstd::set_lib::lemma_set_disjoint_lens(before, here);
        assert(options.take(k).drop_last() =~= options.take(k - 1));
    }
}

/// In a poll that counts its ballots, the tallies add up to the number of voters who have
/// a ballot in the poll: each voter counts once, however often the vote was changed.
pub proof fn law_total_is_voters(ledger: Ledger, poll_id: Seq<char>)
    requires
        ledger.counts_ballots(poll_id),
    ensures
        total(ledger.polls[poll_id].options) == ledger.voters(poll_id).len(),
{
    let options = ledger.polls[poll_id].options;
    lemma_total_below(ledger, poll_id, options.len() as int);
    assert(options.take(options.len() as int) =~= options);
    assert forall|voter: Seq<char>| ledger.voters(poll_id).contains(voter) implies voters_below(
        ledger,
        poll_id,
        options.len() as int,
    ).contains(voter) by {
        lemma_slot(options, ledger.ballots[(voter, poll_id)]);
    }
    assert(voters_below(ledger, poll_id, options.len() as int) =~= ledger.voters(poll_id));
}

/// A poll created under an identifier for which no ballot is recorded counts its ballots.
pub proof fn law_new_poll_counts_ballots(
    before: Ledger,
    creator: Seq<char>,
    poll_id: Seq<char>,
    question: Seq<char>,
    labels: Seq<Seq<char>>,
)
    requires
        forall|voter: Seq<char>| !before.ballots.contains_key((voter, poll_id)),
    ensures
        before.created(creator, poll_id, question, labels).counts_ballots(poll_id),
{
    let after = before.created(creator, poll_id, question, labels);
    assert(after.voters(poll_id) =~= Set::<Seq<char>>::empty());
    assert forall|i: int| 0 <= i < after.polls[poll_id].options.len() implies (
    #[trigger] after.polls[poll_id].options[i]).1 == after.backers(poll_id, i).len() by {
        assert(after.backers(poll_id, i) =~= Set::<Seq<char>>::empty());
    }
}

/// In a poll that counts its ballots, a voter's recorded ballot selects a label that the
/// poll offers, and the tally that counts it is at least one.
pub proof fn law_recorded_ballot_is_counted(ledger: Ledger, voter: Seq<char>, poll_id: Seq<char>)
    requires
        ledger.counts_ballots(poll_id),
        ledger.ballots.contains_key((voter, poll_id)),
    ensures
        has_label(ledger.polls[poll_id].options, ledger.ballots[(voter, poll_id)]),
        ledger.polls[poll_id].options[slot(
            ledger.polls[poll_id].options,
            ledger.ballots[(voter, poll_id)],
        )].1 >= 1,
{
    let options = ledger.polls[poll_id].options;
    let was = ledger.ballots[(voter, poll_id)];
    lemma_slot(options, was);
    let from = slot(options, was);
    let here = ledger.backers(poll_id, from);
    vstd::set_lib::lemma_len_subset(here, ledger.voters(poll_id));
    assert(here.contains(voter));
}

/// A vote for a label that the poll offers, cast in a poll that counts its ballots, leaves
/// a poll that counts its ballots and offers the labels it offered; the voter is then among
/// the poll's voters.
pub proof fn law_vote_keeps_count(
    before: Ledger,
    voter: Seq<char>,
    poll_id: Seq<char>,
    label: Seq<char>,
)
    requires
        before.counts_ballots(poll_id),
        has_label(before.polls[poll_id].options, label),
    ensures
        before.voted(voter, poll_id, label).counts_ballots(poll_id),
        before.voted(voter, poll_id, label).voters(poll_id) == before.voters(poll_id).insert(
            voter,
        ),
        before.voted(voter, poll_id, label).polls[poll_id].options.len()
            == before.polls[poll_id].options.len(),
        forall|j: int|
            0 <= j < before.polls[poll_id].options.len() ==> (#[trigger] before.voted(
                voter,
                poll_id,
                label,
            ).polls[poll_id].options[j]).0 == before.polls[poll_id].options[j].0,
{
    let after = before.voted(voter, poll_id, label);
    let options = before.polls[poll_id].options;
    let prior = before.ballot(voter, poll_id);
    let moved = after.polls[poll_id].options;
    let to = slot(options, label);
    lemma_slot(options, label);
    if prior is Some {
        law_recorded_ballot_is_counted(before, voter, poll_id);
        lemma_slot(options, prior->0);
    }
    assert forall|j: int| 0 <= j < moved.len() implies (#[trigger] moved[j]).0 == options[j].0 by {}
    assert(after.voters(poll_id) =~= before.voters(poll_id).insert(voter));
    assert forall|other: Seq<char>| #[trigger]
        after.ballots.contains_key((other, poll_id)) implies has_label(
        moved,
        after.ballots[(other, poll_id)],
    ) by {
        lemma_same_labels(moved, options, after.ballots[(other, poll_id)]);
    }
    assert forall|i: int| 0 <= i < moved.len() implies (#[trigger] moved[i]).1 == after.backers(
        poll_id,
        i,
    ).len() by {
        let was_here = before.backers(poll_id, i);
        let now_here = after.backers(poll_id, i);
        vstd::set_lib::lemma_len_subset(was_here, before.voters(poll_id));
        assert forall|other: Seq<char>| other != voter implies now_here.contains(other)
            == was_here.contains(other) by {
            if before.ballots.contains_key((other, poll_id)) {
                lemma_same_labels(moved, options, before.ballots[(other, poll_id)]);
            }
        }
        lemma_same_labels(moved, options, label);
        if was_here.contains(voter) {
            if i == to {
                assert(now_here =~= was_here);
            } else {
                assert(now_here =~= was_here.remove(voter));
            }
        } else {
            if i == to {
                assert(now_here =~= was_here.insert(voter));
            } else {
                assert(now_here =~= was_here);
            }
        }
    }
}

/// Votes for labels that the poll offers, cast one after the other in a poll that counts
/// its ballots, leave a poll that counts its ballots, with the labels it had; its voters
/// are those it had and those who voted.
proof fn lemma_votes_keep_count(
    before: Ledger,
    poll_id: Seq<char>,
    votes: Seq<(Seq<char>, Seq<char>)>,
)
    requires
        before.counts_ballots(poll_id),
        forall|i: int|
            0 <= i < votes.len() ==> has_label(
                before.polls[poll_id].options,
                (#[trigger] votes[i]).1,
            ),
    ensures
        before.voted_all(poll_id, votes).counts_ballots(poll_id),
        before.voted_all(poll_id, votes).polls[poll_id].options.len()
            == before.polls[poll_id].options.len(),
        forall|j: int|
            0 <= j < before.polls[poll_id].options.len() ==> (#[trigger] before.voted_all(
                poll_id,
                votes,
            ).polls[poll_id].options[j]).0 == before.polls[poll_id].options[j].0,
        before.voted_all(poll_id, votes).voters(poll_id) == before.voters(poll_id) + casters(
            votes,
        ),
    decreases votes.len(),
{
    if votes.len() > 0 {
        let earlier = votes.drop_last();
        let (voter, label) = votes.last();
        assert forall|i: int| 0 <= i < earlier.len() implies has_label(
            before.polls[poll_id].options,
            (#[trigger] earlier[i]).1,
        ) by {}
        lemma_votes_keep_count(before, poll_id, earlier);
        let middle = before.voted_all(poll_id, earlier);
        lemma_same_labels(middle.polls[poll_id].options, before.polls[poll_id].options, label);
        law_vote_keeps_count(middle, voter, poll_id, label);
        let moved = before.voted_all(poll_id, votes).polls[poll_id].options;
        assert forall|j: int| 0 <= j < moved.len() implies (#[trigger] moved[j]).0
            == before.polls[poll_id].options[j].0 by {}
        assert forall|other: Seq<char>| casters(votes).contains(other) == (other == voter
            || casters(earlier).contains(other)) by {
            if casters(votes).contains(other) {
                let i = choose|i: int| 0 <= i < votes.len() && (#[trigger] votes[i]).0 == other;
                if i < earlier.len() {
                    assert(earlier[i].0 == other);
                }
            }
        }
    }
}

/// Whatever votes are cast in a poll that counts its ballots, each for a label that the
/// poll offers: afterwards the poll still counts its ballots, and its tallies add up to the
/// number of voters who have a ballot in it, those from before and those who voted.
pub proof fn law_votes_count_each_voter_once(
    before: Ledger,
    poll_id: Seq<char>,
    votes: Seq<(Seq<char>, Seq<char>)>,
)
    requires
        before.counts_ballots(poll_id),
        forall|i: int|
            0 <= i < votes.len() ==> has_label(
                before.polls[poll_id].options,
                (#[trigger] votes[i]).1,
            ),
    ensures
        before.voted_all(poll_id, votes).counts_ballots(poll_id),
        before.voted_all(poll_id, votes).voters(poll_id) == before.voters(poll_id) + casters(
            votes,
        ),
        total(before.voted_all(poll_id, votes).polls[poll_id].options) == (before.voters(poll_id)
            + casters(votes)).len(),
{
    lemma_votes_keep_count(before, poll_id, votes);
    law_total_is_voters(before.voted_all(poll_id, votes), poll_id);
}

/// However often one voter votes in a poll in which nobody has voted, each time for a
/// label that the poll offers: the tallies add up to one.
pub proof fn law_one_voter_counts_once(
    before: Ledger,
    poll_id: Seq<char>,
    voter: Seq<char>,
    votes: Seq<(Seq<char>, Seq<char>)>,
)
    requires
        before.counts_ballots(poll_id),
        before.voters(poll_id) == Set::<Seq<char>>::empty(),
        votes.len() > 0,
        forall|i: int| 0 <= i < votes.len() ==> (#[trigger] votes[i]).0 == voter,
        forall|i: int|
            0 <= i < votes.len() ==> has_label(
                before.polls[poll_id].options,
                (#[trigger] votes[i]).1,
            ),
    ensures
        total(before.voted_all(poll_id, votes).polls[poll_id].options) == 1,
{
    law_votes_count_each_voter_once(before, poll_id, votes);
    assert(before.voters(poll_id) + casters(votes) =~= set![voter]);
}

/// What a poll counts depends on the poll and on the ballots in it alone: ledgers that
/// agree on both agree on whether the poll counts its ballots.
proof fn lemma_count_is_local(a: Ledger, b: Ledger, poll_id: Seq<char>)
    requires
        a.polls.contains_key(poll_id) == b.polls.contains_key(poll_id),
        a.polls[poll_id] == b.polls[poll_id],
        forall|voter: Seq<char>|
            a.ballot(voter, poll_id) == #[trigger] b.ballot(voter, poll_id),
    ensures
        a.counts_ballots(poll_id) == b.counts_ballots(poll_id),
        a.voters(poll_id) == b.voters(poll_id),
{
    assert forall|voter: Seq<char>| a.voters(poll_id).contains(voter) == b.voters(
        poll_id,
    ).contains(voter) by {
        assert(a.ballot(voter, poll_id) == b.ballot(voter, poll_id));
    }
    assert(a.voters(poll_id) =~= b.voters(poll_id));
    assert forall|i: int| a.backers(poll_id, i) == b.backers(poll_id, i) by {
        assert forall|voter: Seq<char>| a.backers(poll_id, i).contains(voter) == b.backers(
            poll_id,
            i,
        ).contains(voter) by {
            assert(a.ballot(voter, poll_id) == b.ballot(voter, poll_id));
        }
        assert(a.backers(poll_id, i) =~= b.backers(poll_id, i));
    }
    assert forall|voter: Seq<char>|
        a.ballots.contains_key((voter, poll_id)) == b.ballots.contains_key((voter, poll_id))
            && (a.ballots.contains_key((voter, poll_id)) ==> a.ballots[(voter, poll_id)]
            == b.ballots[(voter, poll_id)]) by {
        assert(a.ballot(voter, poll_id) == b.ballot(voter, poll_id));
    }
}

/// A ledger without polls and ballots is consistent, and stays so when it is set up.
pub proof fn law_set_up_keeps_consistent(before: Ledger, admin: Seq<char>)
    ensures
        before.polls == Map::<Seq<char>, PollView>::empty() && before.ballots == Map::<
            (Seq<char>, Seq<char>),
            Seq<char>,
        >::empty() ==> before.consistent(),
        before.consistent() ==> before.set_up(admin).consistent(),
{
    let after = before.set_up(admin);
    if before.polls == Map::<Seq<char>, PollView>::empty() && before.ballots == Map::<
        (Seq<char>, Seq<char>),
        Seq<char>,
    >::empty() {
        assert forall|poll_id: Seq<char>| #[trigger]
            before.voters(poll_id) == Set::<Seq<char>>::empty() by {
            assert(before.voters(poll_id) =~= Set::<Seq<char>>::empty());
        }
    }
    if before.consistent() {
        assert forall|poll_id: Seq<char>|
            if after.polls.contains_key(poll_id) {
                after.counts_ballots(poll_id)
            } else {
                #[trigger] after.voters(poll_id) == Set::<Seq<char>>::empty()
            } by {
            lemma_count_is_local(before, after, poll_id);
        }
    }
}

/// Creating a poll keeps a consistent ledger consistent, provided that no ballot is
/// recorded for its identifier; none is where the identifier is new.
pub proof fn law_creation_keeps_consistent(
    before: Ledger,
    creator: Seq<char>,
    poll_id: Seq<char>,
    question: Seq<char>,
    labels: Seq<Seq<char>>,
)
    requires
        before.consistent(),
        before.polls.contains_key(poll_id) ==> before.voters(poll_id) == Set::<
            Seq<char>,
        >::empty(),
    ensures
        before.created(creator, poll_id, question, labels).consistent(),
{
    let after = before.created(creator, poll_id, question, labels);
    assert forall|voter: Seq<char>| !before.ballots.contains_key((voter, poll_id)) by {
        assert(!before.voters(poll_id).contains(voter));
    }
    law_new_poll_counts_ballots(before, creator, poll_id, question, labels);
    assert forall|other: Seq<char>|
        if after.polls.contains_key(other) {
            after.counts_ballots(other)
        } else {
            #[trigger] after.voters(other) == Set::<Seq<char>>::empty()
        } by {
        if other != poll_id {
            lemma_count_is_local(before, after, other);
        }
    }
}

/// A vote for a label that the poll offers keeps a consistent ledger consistent.
pub proof fn law_vote_keeps_consistent(
    before: Ledger,
    voter: Seq<char>,
    poll_id: Seq<char>,
    label: Seq<char>,
)
    requires
        before.consistent(),
        before.polls.contains_key(poll_id),
        has_label(before.polls[poll_id].options, label),
    ensures
        before.voted(voter, poll_id, label).consistent(),
{
    let after = before.voted(voter, poll_id, label);
    law_vote_keeps_count(before, voter, poll_id, label);
    assert forall|other: Seq<char>|
        if after.polls.contains_key(other) {
            after.counts_ballots(other)
        } else {
            #[trigger] after.voters(other) == Set::<Seq<char>>::empty()
        } by {
        if other != poll_id {
            lemma_count_is_local(before, after, other);
        }
    }
}

/// In a consistent ledger every vote can be counted, as far as the earlier ballot goes:
/// a recorded ballot selects a label that its poll offers, and the tally that counts it is
/// at least one.
pub proof fn law_consistent_ballots_are_counted(
    ledger: Ledger,
    voter: Seq<char>,
    poll_id: Seq<char>,
)
    requires
        ledger.consistent(),
        ledger.ballots.contains_key((voter, poll_id)),
    ensures
        ledger.polls.contains_key(poll_id),
        has_label(ledger.polls[poll_id].options, ledger.ballots[(voter, poll_id)]),
        ledger.polls[poll_id].options[slot(
            ledger.polls[poll_id].options,
            ledger.ballots[(voter, poll_id)],
        )].1 >= 1,
{
    assert(ledger.voters(poll_id).contains(voter));
    law_recorded_ballot_is_counted(ledger, voter, poll_id);
}

/// Whatever `instantiate` answers, it leaves a consistent ledger consistent.
pub proof fn law_instantiate_keeps_consistent(
    before: Ledger,
    after: Ledger,
    admin: Seq<char>,
    admin_accepted: bool,
    r: Result<Response<Empty>, ContractError>,
)
    requires
        set_up_done(before, after, admin, admin_accepted, r),
        before.consistent(),
    ensures
        after.consistent(),
{
    law_set_up_keeps_consistent(before, admin);
}

/// Whatever `execute_create_poll` answers, it leaves a consistent ledger consistent,
/// provided that no ballot is recorded for the identifier of the poll; none is where the
/// identifier is new.
pub proof fn law_create_poll_keeps_consistent(
    before: Ledger,
    after: Ledger,
    sender: Seq<char>,
    poll_id: Seq<char>,
    question: Seq<char>,
    labels: Seq<Seq<char>>,
    r: Result<Response<Empty>, ContractError>,
)
    requires
        poll_created(before, after, sender, poll_id, question, labels, r),
        before.consistent(),
        before.polls.contains_key(poll_id) ==> before.voters(poll_id) == Set::<
            Seq<char>,
        >::empty(),
    ensures
        after.consistent(),
{
    law_creation_keeps_consistent(before, sender, poll_id, question, labels);
}

/// Whatever `execute_vote` answers, it leaves a consistent ledger consistent. After a vote
/// that was cast, the tallies of the poll add up to the number of voters who have a ballot
/// in it: one more than before for a voter's first vote there, as many as before for a
/// changed or repeated one.
pub proof fn law_execute_vote_keeps_consistent(
    before: Ledger,
    after: Ledger,
    sender: Seq<char>,
    poll_id: Seq<char>,
    vote: Seq<char>,
    storage_legible: bool,
    r: Result<Response<Empty>, ContractError>,
)
    requires
        vote_cast(before, after, sender, poll_id, vote, storage_legible, r),
        before.consistent(),
    ensures
        after.consistent(),
        r is Ok ==> {
            &&& total(after.polls[poll_id].options) == after.voters(poll_id).len()
            &&& after.voters(poll_id) == before.voters(poll_id).insert(sender)
            &&& total(after.polls[poll_id].options) == total(before.polls[poll_id].options) + (
            if before.ballot(sender, poll_id) is None {
                1nat
            } else {
                0nat
            })
        },
{
    if r is Ok {
        law_vote_keeps_consistent(before, sender, poll_id, vote);
        assert(before.voters(poll_id).finite());
        law_vote_keeps_count(before, sender, poll_id, vote);
        law_total_is_voters(before, poll_id);
        law_total_is_voters(after, poll_id);
        assert(before.voters(poll_id).contains(sender) == before.ballots.contains_key(
            (sender, poll_id),
        ));
    }
}

} // verus!
