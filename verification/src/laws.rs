//! What holds of the operations of the ledger: what each makes of the ledger, what it
//! leaves alone, and when it refuses.
//!
//! The statements are about the mathematical ledger of [`crate::ledger`] and about the
//! outcomes of the operations, as [`crate::contract`] states them in terms of that ledger.

use crate::contract::{answered, poll_created, set_up_done, vote_cast};
use crate::error::ContractError;
use crate::host::attributes;
use crate::ledger::Ledger;
use crate::msg::{QueryMsg, QueryResponse};
use crate::tally::{has_label, lemma_slot, slot, tallied, total, unvoted, MAX_OPTIONS};
use cosmwasm_std::{Empty, Response, StdError};
use vstd::prelude::*;

verus! {

/// After the ledger was set up with an administrator, the configuration names exactly that
/// administrator, and polls and ballots are as they were.
pub proof fn law_set_up_records_admin(before: Ledger, admin: Seq<char>)
    ensures
        before.set_up(admin).config == Some(admin),
        before.set_up(admin).polls == before.polls,
        before.set_up(admin).ballots == before.ballots,
{
}

/// A set-up with an administrator that the host accepts succeeds: the configuration then
/// names exactly that administrator, polls and ballots are as they were, and the response
/// names the action and the administrator. A set-up with any other is refused with the
/// host's error and leaves the ledger as it was.
pub proof fn law_set_up_succeeds_when_accepted(
    before: Ledger,
    after: Ledger,
    admin: Seq<char>,
    admin_accepted: bool,
    r: Result<Response<Empty>, ContractError>,
)
    requires
        set_up_done(before, after, admin, admin_accepted, r),
    ensures
        admin_accepted <==> r is Ok,
        r matches Ok(response) ==> {
            &&& after.config == Some(admin)
            &&& after.polls == before.polls
            &&& after.ballots == before.ballots
            &&& attributes(response) == seq![("action"@, "instantiate"@), ("admin"@, admin)]
        },
        !admin_accepted ==> (r matches Err(ContractError::Std(_))) && after == before,
{
}

/// No command changes the configuration: whatever `execute_create_poll` and `execute_vote`
/// answer, the administrator is the one from before.
pub proof fn law_commands_keep_the_config(
    before: Ledger,
    after: Ledger,
    sender: Seq<char>,
    poll_id: Seq<char>,
    question: Seq<char>,
    labels: Seq<Seq<char>>,
    vote: Seq<char>,
    storage_legible: bool,
    r: Result<Response<Empty>, ContractError>,
)
    requires
        poll_created(before, after, sender, poll_id, question, labels, r) || vote_cast(
            before,
            after,
            sender,
            poll_id,
            vote,
            storage_legible,
            r,
        ),
    ensures
        after.config == before.config,
{
}

/// After a set-up that succeeded, the configuration query names exactly the administrator
/// that was set up; and it does answer, where the storage is legible.
pub proof fn law_config_names_the_admin(
    before: Ledger,
    after: Ledger,
    admin: Seq<char>,
    admin_accepted: bool,
    set_up: Result<Response<Empty>, ContractError>,
    storage_legible: bool,
    r: Result<QueryResponse, StdError>,
)
    requires
        set_up_done(before, after, admin, admin_accepted, set_up),
        set_up is Ok,
        answered(after, QueryMsg::Config {  }, false, storage_legible, r),
    ensures
        r matches Ok(answer) ==> answer matches QueryResponse::Config(config) && config.admin@
            == admin,
        storage_legible ==> r is Ok,
{
}

/// A poll that was just created is the one its identifier finds; it offers the given labels
/// in the given order, and every tally is zero.
pub proof fn law_new_poll_is_unvoted(
    before: Ledger,
    creator: Seq<char>,
    poll_id: Seq<char>,
    question: Seq<char>,
    labels: Seq<Seq<char>>,
)
    ensures
        before.created(creator, poll_id, question, labels).poll(poll_id) matches Some(poll) && {
            &&& poll.creator == creator
            &&& poll.question == question
            &&& poll.options.len() == labels.len()
            &&& forall|i: int|
                0 <= i < labels.len() ==> #[trigger] poll.options[i] == (labels[i], 0nat)
        },
        total(unvoted(labels)) == 0,
{
    lemma_unvoted_total(labels);
}

/// A poll with at most ten options is created, and the query for it then answers with
/// that poll: the given labels in the given order, every tally zero; and it does answer,
/// where the storage is legible.
pub proof fn law_created_poll_is_answered(
    before: Ledger,
    after: Ledger,
    sender: Seq<char>,
    poll_id: Seq<char>,
    question: Seq<char>,
    labels: Seq<Seq<char>>,
    created: Result<Response<Empty>, ContractError>,
    msg: QueryMsg,
    storage_legible: bool,
    r: Result<QueryResponse, StdError>,
)
    requires
        poll_created(before, after, sender, poll_id, question, labels, created),
        labels.len() <= MAX_OPTIONS,
        msg matches QueryMsg::Poll { poll_id: asked } && asked@ == poll_id,
        answered(after, msg, false, storage_legible, r),
    ensures
        created is Ok,
        r matches Ok(answer) ==> answer matches QueryResponse::Poll(answer)
            && answer.poll matches Some(poll) && {
            &&& poll@.creator == sender
            &&& poll@.question == question
            &&& poll@.options.len() == labels.len()
            &&& forall|i: int|
                0 <= i < labels.len() ==> #[trigger] poll@.options[i] == (labels[i], 0nat)
        },
        storage_legible ==> r is Ok,
{
}

/// Tallies that are all zero add up to zero.
proof fn lemma_unvoted_total(labels: Seq<Seq<char>>)
    ensures
        total(unvoted(labels)) == 0,
    decreases labels.len(),
{
    if labels.len() > 0 {
        lemma_unvoted_total(labels.drop_last());
        assert(unvoted(labels).drop_last() =~= unvoted(labels.drop_last()));
    }
}

/// Creating a poll touches neither the configuration, nor the ballots, nor any other poll.
pub proof fn law_creation_is_local(
    before: Ledger,
    creator: Seq<char>,
    poll_id: Seq<char>,
    question: Seq<char>,
    labels: Seq<Seq<char>>,
    other: Seq<char>,
)
    requires
        other != poll_id,
    ensures
        before.created(creator, poll_id, question, labels).config == before.config,
        before.created(creator, poll_id, question, labels).ballots == before.ballots,
        before.created(creator, poll_id, question, labels).poll(other) == before.poll(other),
{
}

/// A poll with more than ten options is refused with `TooManyOptions`, whatever else holds,
/// and the ledger is left as it was: the poll is not recorded.
pub proof fn law_too_many_options_are_refused(
    before: Ledger,
    after: Ledger,
    sender: Seq<char>,
    poll_id: Seq<char>,
    question: Seq<char>,
    labels: Seq<Seq<char>>,
    r: Result<Response<Empty>, ContractError>,
)
    requires
        poll_created(before, after, sender, poll_id, question, labels, r),
        labels.len() > MAX_OPTIONS,
    ensures
        r matches Err(ContractError::TooManyOptions {  }),
        after == before,
{
}

/// A vote is refused with `PollNotFound` exactly where the poll is not in the ledger,
/// whatever the voter and the label are.
pub proof fn law_poll_not_found_means_no_poll(
    before: Ledger,
    after: Ledger,
    sender: Seq<char>,
    poll_id: Seq<char>,
    vote: Seq<char>,
    storage_legible: bool,
    r: Result<Response<Empty>, ContractError>,
)
    requires
        vote_cast(before, after, sender, poll_id, vote, storage_legible, r),
    ensures
        r matches Err(ContractError::PollNotFound {  }) <==> !before.polls.contains_key(poll_id),
{
}

/// A vote for a label that the poll offers is cast, where the storage is legible: it
/// succeeds, the ballot selects the label, and the response names the poll and the label.
pub proof fn law_vote_for_an_option_is_cast(
    before: Ledger,
    after: Ledger,
    sender: Seq<char>,
    poll_id: Seq<char>,
    vote: Seq<char>,
    storage_legible: bool,
    r: Result<Response<Empty>, ContractError>,
)
    requires
        vote_cast(before, after, sender, poll_id, vote, storage_legible, r),
        storage_legible,
        before.polls.contains_key(poll_id),
        has_label(before.polls[poll_id].options, vote),
    ensures
        r matches Ok(response) && attributes(response) == seq![
            ("action"@, "execute_vote"@),
            ("poll_id"@, poll_id),
            ("vote"@, vote),
        ],
        after == before.voted(sender, poll_id, vote),
        after.ballot(sender, poll_id) == Some(vote),
{
}

/// A vote in a poll that is not there is refused with `PollNotFound`, whatever else holds,
/// and the ledger is left as it was: no ballot is recorded.
pub proof fn law_vote_needs_a_poll(
    before: Ledger,
    after: Ledger,
    sender: Seq<char>,
    poll_id: Seq<char>,
    vote: Seq<char>,
    storage_legible: bool,
    r: Result<Response<Empty>, ContractError>,
)
    requires
        vote_cast(before, after, sender, poll_id, vote, storage_legible, r),
        !before.polls.contains_key(poll_id),
    ensures
        r matches Err(ContractError::PollNotFound {  }),
        after == before,
        after.ballot(sender, poll_id) is None <==> before.ballot(sender, poll_id) is None,
{
}

/// A vote for a label that the poll does not offer is refused and leaves the ledger as it
/// was: neither a ballot nor a tally has changed. The refusal is `OptionNonExistent`,
/// unless a record could not be read; on a legible storage every record can.
pub proof fn law_vote_needs_an_option(
    before: Ledger,
    after: Ledger,
    sender: Seq<char>,
    poll_id: Seq<char>,
    vote: Seq<char>,
    storage_legible: bool,
    r: Result<Response<Empty>, ContractError>,
)
    requires
        vote_cast(before, after, sender, poll_id, vote, storage_legible, r),
        before.polls.contains_key(poll_id),
        !has_label(before.polls[poll_id].options, vote),
    ensures
        r is Err,
        storage_legible ==> r matches Err(ContractError::OptionNonExistent {  }),
        after == before,
{
}

/// Asking for a poll that is not there is no error: the answer holds no poll.
pub proof fn law_absent_poll_is_no_error(
    ledger: Ledger,
    msg: QueryMsg,
    storage_legible: bool,
    r: Result<QueryResponse, StdError>,
)
    requires
        answered(ledger, msg, false, storage_legible, r),
        msg matches QueryMsg::Poll { poll_id } && !ledger.polls.contains_key(poll_id@),
    ensures
        r matches Ok(QueryResponse::Poll(answer)) && answer.poll is None,
{
}

/// Asking for a ballot that is not there, of a voter that the host accepts, is no error:
/// the answer holds no ballot.
pub proof fn law_absent_ballot_is_no_error(
    ledger: Ledger,
    msg: QueryMsg,
    storage_legible: bool,
    r: Result<QueryResponse, StdError>,
)
    requires
        answered(ledger, msg, true, storage_legible, r),
        msg matches QueryMsg::Vote { poll_id, address } && !ledger.ballots.contains_key(
            (address@, poll_id@),
        ),
    ensures
        r matches Ok(QueryResponse::Vote(answer)) && answer.vote is None,
{
}

/// Voting again for the option that one's ballot already selects changes nothing: no
/// tally moves, and the ledger is the one before.
pub proof fn law_same_vote_changes_nothing(
    before: Ledger,
    voter: Seq<char>,
    poll_id: Seq<char>,
    label: Seq<char>,
)
    requires
        before.polls.contains_key(poll_id),
        before.ballot(voter, poll_id) == Some(label),
        has_label(before.polls[poll_id].options, label),
        before.polls[poll_id].options[slot(before.polls[poll_id].options, label)].1 >= 1,
    ensures
        before.voted(voter, poll_id, label).polls[poll_id].options
            == before.polls[poll_id].options,
        before.voted(voter, poll_id, label) == before,
{
    let options = before.polls[poll_id].options;
    lemma_slot(options, label);
    assert(tallied(options, Some(label), label) =~= options);
}

/// Whatever `execute_vote` answers to a vote for the option that the voter's ballot
/// already selects, the ledger is as it was; and on a legible storage it answers `Ok`.
pub proof fn law_same_vote_is_cast_and_changes_nothing(
    before: Ledger,
    after: Ledger,
    sender: Seq<char>,
    poll_id: Seq<char>,
    vote: Seq<char>,
    storage_legible: bool,
    r: Result<Response<Empty>, ContractError>,
)
    requires
        vote_cast(before, after, sender, poll_id, vote, storage_legible, r),
        before.polls.contains_key(poll_id),
        before.ballot(sender, poll_id) == Some(vote),
        has_label(before.polls[poll_id].options, vote),
        before.polls[poll_id].options[slot(before.polls[poll_id].options, vote)].1 >= 1,
    ensures
        after == before,
        storage_legible ==> r is Ok,
{
    law_same_vote_changes_nothing(before, sender, poll_id, vote);
}

/// On a legible storage `execute_vote` answers `Ok` to a change of vote from the option
/// `was` to another option `vote`: one is taken from the tally that counted `was`, one is
/// added to the tally that counts `vote`, and every other tally is as it was.
pub proof fn law_changed_vote_is_cast_and_moves_one(
    before: Ledger,
    after: Ledger,
    sender: Seq<char>,
    poll_id: Seq<char>,
    was: Seq<char>,
    vote: Seq<char>,
    r: Result<Response<Empty>, ContractError>,
)
    requires
        vote_cast(before, after, sender, poll_id, vote, true, r),
        before.polls.contains_key(poll_id),
        before.ballot(sender, poll_id) == Some(was),
        was != vote,
        has_label(before.polls[poll_id].options, was),
        has_label(before.polls[poll_id].options, vote),
        before.polls[poll_id].options[slot(before.polls[poll_id].options, was)].1 >= 1,
    ensures
        r is Ok,
        ({
            let old_options = before.polls[poll_id].options;
            let new_options = after.polls[poll_id].options;
            let from = slot(old_options, was);
            let to = slot(old_options, vote);
            &&& from != to
            &&& new_options.len() == old_options.len()
            &&& new_options[from].1 == old_options[from].1 - 1
            &&& new_options[to].1 == old_options[to].1 + 1
            &&& forall|i: int|
                0 <= i < old_options.len() && i != from && i != to ==> #[trigger] new_options[i]
                    == old_options[i]
        }),
        after.ballot(sender, poll_id) == Some(vote),
{
    law_changed_vote_moves_one(before, sender, poll_id, was, vote);
}

/// Changing a vote from the option `was` to another option `label` takes one from the
/// tally that counted `was`, adds one to the tally that counts `label`, and leaves every
/// other tally and every label as it was.
pub proof fn law_changed_vote_moves_one(
    before: Ledger,
    voter: Seq<char>,
    poll_id: Seq<char>,
    was: Seq<char>,
    label: Seq<char>,
)
    requires
        before.polls.contains_key(poll_id),
        before.ballot(voter, poll_id) == Some(was),
        was != label,
        has_label(before.polls[poll_id].options, was),
        has_label(before.polls[poll_id].options, label),
        before.polls[poll_id].options[slot(before.polls[poll_id].options, was)].1 >= 1,
    ensures
        ({
            let old_options = before.polls[poll_id].options;
            let new_options = before.voted(voter, poll_id, label).polls[poll_id].options;
            let from = slot(old_options, was);
            let to = slot(old_options, label);
            &&& from != to
            &&& new_options.len() == old_options.len()
            &&& new_options[from].1 == old_options[from].1 - 1
            &&& new_options[to].1 == old_options[to].1 + 1
            &&& forall|i: int|
                0 <= i < old_options.len() && i != from && i != to ==> #[trigger] new_options[i]
                    == old_options[i]
            &&& forall|i: int|
                0 <= i < old_options.len() ==> (#[trigger] new_options[i]).0 == old_options[i].0
        }),
        before.voted(voter, poll_id, label).ballot(voter, poll_id) == Some(label),
{
    let options = before.polls[poll_id].options;
    lemma_slot(options, was);
    lemma_slot(options, label);
}

/// A vote touches neither the configuration, nor any other poll, nor any other ballot.
pub proof fn law_vote_is_local(
    before: Ledger,
    voter: Seq<char>,
    poll_id: Seq<char>,
    label: Seq<char>,
    other_voter: Seq<char>,
    other_poll: Seq<char>,
)
    ensures
        before.voted(voter, poll_id, label).config == before.config,
        other_poll != poll_id ==> before.voted(voter, poll_id, label).poll(other_poll)
            == before.poll(other_poll),
        (other_voter, other_poll) != (voter, poll_id) ==> before.voted(
            voter,
            poll_id,
            label,
        ).ballot(other_voter, other_poll) == before.ballot(other_voter, other_poll),
        before.voted(voter, poll_id, label).ballot(voter, poll_id) == Some(label),
{
}

} // verus!
