//! The operations of the ledger: setting it up, creating polls, voting, and the queries.

use crate::error::ContractError;
use crate::host::{
    accepted, add_attribute, addr_validate, attributes, fits_key, legible, load_ballot,
    load_config, load_poll, new_response, save_ballot, save_config, save_poll, scan_polls,
    unharmed, Host,
};
use crate::ledger::Ledger;
use crate::msg::{
    AllPollsResponse, ConfigResponse, ExecuteMsg, InstantiateMsg, PollResponse, QueryMsg,
    QueryResponse, VoteResponse,
};
use crate::state::{listed, poll_view, polls_view, rows_view, Ballot, Config, Poll};
use crate::tally::{
    countable, has_label, is_countable, labels_view, selection, tally_vote, unvoted_options,
    MAX_OPTIONS,
};
use cosmwasm_std::{Empty, Response, StdError};
use vstd::prelude::*;

verus! {

/// What `execute_vote` makes of the ledger `before`, and what it answers.
///
/// A vote on a poll that is not there is refused with `PollNotFound`, a vote for a label
/// that the poll does not offer with `OptionNonExistent`; both leave the ledger as it was.
/// Any other vote is cast: the ledger is `before.voted(..)`, and the response names the
/// poll and the label. Only a storage that is not legible fails, in reading the poll or the
/// ballot; it leaves the ledger as it was.
pub open spec fn vote_cast(
    before: Ledger,
    after: Ledger,
    sender: Seq<char>,
    poll_id: Seq<char>,
    vote: Seq<char>,
    storage_legible: bool,
    r: Result<Response<Empty>, ContractError>,
) -> bool {
    match r {
        Ok(response) => {
            &&& before.polls.contains_key(poll_id)
            &&& has_label(before.polls[poll_id].options, vote)
            &&& after =~= before.voted(sender, poll_id, vote)
            &&& attributes(response) =~= seq![
                ("action"@, "execute_vote"@),
                ("poll_id"@, poll_id),
                ("vote"@, vote),
            ]
        },
        Err(ContractError::PollNotFound {  }) => {
            &&& !before.polls.contains_key(poll_id)
            &&& after =~= before
        },
        Err(ContractError::OptionNonExistent {  }) => {
            &&& before.polls.contains_key(poll_id)
            &&& !has_label(before.polls[poll_id].options, vote)
            &&& after =~= before
        },
        Err(ContractError::Std(_)) => {
            &&& before.polls.contains_key(poll_id)
            &&& !storage_legible
            &&& after =~= before
        },
        Err(_) => false,
    }
}

/// What `execute_create_poll` makes of the ledger `before`, and what it answers.
///
/// More than ten options are refused with `TooManyOptions`, and the ledger is left as it
/// was. Otherwise the poll is recorded under `poll_id`, in place of any poll recorded there,
/// with every tally at zero, and the response names the poll.
pub open spec fn poll_created(
    before: Ledger,
    after: Ledger,
    sender: Seq<char>,
    poll_id: Seq<char>,
    question: Seq<char>,
    labels: Seq<Seq<char>>,
    r: Result<Response<Empty>, ContractError>,
) -> bool {
    match r {
        Ok(response) => {
            &&& labels.len() <= MAX_OPTIONS
            &&& after =~= before.created(sender, poll_id, question, labels)
            &&& attributes(response) =~= seq![
                ("action"@, "execute_create_poll"@),
                ("poll_id"@, poll_id),
            ]
        },
        Err(ContractError::TooManyOptions {  }) => labels.len() > MAX_OPTIONS && after =~= before,
        Err(_) => false,
    }
}

/// The administrator that a set-up names: the one in the message, else the caller.
pub open spec fn resolved_admin(msg: InstantiateMsg, sender: Seq<char>) -> Seq<char> {
    match msg.admin {
        Some(admin) => admin@,
        None => sender,
    }
}

/// What `instantiate` makes of the ledger `before`, and what it answers, for the
/// administrator `admin`, which the host accepts or not.
///
/// An administrator that the host accepts is recorded: the ledger is then set up with it,
/// and the response names it. Any other is refused with the host's error, and the ledger
/// is left as it was.
pub open spec fn set_up_done(
    before: Ledger,
    after: Ledger,
    admin: Seq<char>,
    admin_accepted: bool,
    r: Result<Response<Empty>, ContractError>,
) -> bool {
    match r {
        Ok(response) => {
            &&& admin_accepted
            &&& after =~= before.set_up(admin)
            &&& attributes(response) =~= seq![("action"@, "instantiate"@), ("admin"@, admin)]
        },
        Err(ContractError::Std(_)) => !admin_accepted && after =~= before,
        Err(_) => false,
    }
}

/// Whether `voter` can stand first in a ballot key.
pub fn fits(voter: &str) -> (ok: bool)
    ensures
        ok == fits_key(voter@),
{
    voter.as_bytes().len() <= 0xFFFF
}

/// Reads what a vote of `sender` in the poll `poll_id` starts from: the poll, and the ballot
/// that `sender` has in it, if any. There is nothing to start from where the poll is not
/// there.
fn poll_and_ballot(host: &Host<'_>, sender: &str, poll_id: &String) -> (r: Result<
    Option<(Poll, Option<Ballot>)>,
    StdError,
>)
    requires
        fits_key(sender@),
    ensures
        match r {
            Ok(Some((poll, prior))) => {
                &&& host@.poll(poll_id@) == Some(poll@)
                &&& selection(prior) == host@.ballot(sender@, poll_id@)
            },
            Ok(None) => !host@.polls.contains_key(poll_id@),
            Err(_) => host@.polls.contains_key(poll_id@) && !legible(*host),
        },
{
    let poll = match load_poll(host, poll_id) {
        Err(e) => {
            return Err(e);
        },
        Ok(None) => {
            return Ok(None);
        },
        Ok(Some(poll)) => poll,
    };
    match load_ballot(host, sender, poll_id) {
        Err(e) => Err(e),
        Ok(prior) => Ok(Some((poll, prior))),
    }
}

/// Counts the vote of `sender` for `vote` in `poll`, which is the poll `poll_id` as the
/// ledger holds it, in place of the ballot `prior`, which is the one the ledger holds for
/// `sender`; then records the ballot and the poll.
fn record_vote(
    host: &mut Host<'_>,
    sender: &str,
    poll_id: String,
    vote: String,
    poll: Poll,
    prior: Option<Ballot>,
) -> (r: Result<Response<Empty>, ContractError>)
    requires
        fits_key(sender@),
        old(host)@.poll(poll_id@) == Some(poll@),
        selection(prior) == old(host)@.ballot(sender@, poll_id@),
        countable(poll@.options, selection(prior), vote@),
    ensures
        vote_cast(old(host)@, final(host)@, sender@, poll_id@, vote@, legible(*old(host)), r),
        has_label(poll@.options, vote@) ==> r is Ok,
        unharmed(*old(host), *final(host)),
{
    let poll = match tally_vote(poll, prior, &vote) {
        Err(e) => {
            return Err(e);
        },
        Ok(poll) => poll,
    };
    let ballot = Ballot { option: vote.clone() };
    match save_ballot(host, sender, &poll_id, &ballot) {
        Err(e) => {
            return Err(ContractError::Std(e));
        },
        Ok(()) => {},
    }
    match save_poll(host, &poll_id, &poll) {
        Err(e) => {
            return Err(ContractError::Std(e));
        },
        Ok(()) => {},
    }
    proof {
        reveal_strlit("action");
        reveal_strlit("poll_id");
        reveal_strlit("vote");
    }
    let response = new_response();
    let response = add_attribute(response, "action", "execute_vote");
    let response = add_attribute(response, "poll_id", poll_id.as_str());
    let response = add_attribute(response, "vote", vote.as_str());
    Ok(response)
}

/// Casts the vote of `sender` for the option `vote` in the poll `poll_id`, in place of any
/// vote that `sender` has cast there before.
///
/// The poll must exist (`PollNotFound`) and offer the option (`OptionNonExistent`); on both
/// refusals the ledger is left as it was. On success the ballot selects `vote`, the poll
/// counts it in place of the earlier ballot, and the response names the poll and the option.
/// Only a storage that is not legible fails, in reading; it leaves the ledger as it was.
///
/// The caller sees to it that the vote can be counted; `try_vote` asks nothing.
pub fn execute_vote(host: &mut Host<'_>, sender: &str, poll_id: String, vote: String) -> (r: Result<
    Response<Empty>,
    ContractError,
>)
    requires
        fits_key(sender@),
        old(host)@.can_count(sender@, poll_id@, vote@),
    ensures
        vote_cast(old(host)@, final(host)@, sender@, poll_id@, vote@, legible(*old(host)), r),
        legible(*old(host)) && old(host)@.polls.contains_key(poll_id@) && has_label(
            old(host)@.polls[poll_id@].options,
            vote@,
        ) ==> r is Ok,
        unharmed(*old(host), *final(host)),
{
    match poll_and_ballot(host, sender, &poll_id) {
        Err(e) => Err(ContractError::Std(e)),
        Ok(None) => Err(ContractError::PollNotFound {  }),
        Ok(Some((poll, prior))) => record_vote(host, sender, poll_id, vote, poll, prior),
    }
}

/// Casts the vote of `sender` as `execute_vote` does, where the vote can be counted, and
/// says so where it cannot: the answer is then `None`, and the ledger is left as it was.
///
/// A vote cannot be counted where `sender` is too long for a ballot key, where the ballot
/// that the ledger holds for `sender` is not among those the poll counts, or where the
/// tally that would grow is full.
pub fn try_vote(host: &mut Host<'_>, sender: &str, poll_id: String, vote: String) -> (r: Option<
    Result<Response<Empty>, ContractError>,
>)
    ensures
        match r {
            Some(outcome) => fits_key(sender@) && vote_cast(
                old(host)@,
                final(host)@,
                sender@,
                poll_id@,
                vote@,
                legible(*old(host)),
                outcome,
            ),
            None => !(fits_key(sender@) && old(host)@.can_count(sender@, poll_id@, vote@))
                && final(host)@ == old(host)@,
        },
        legible(*old(host)) && old(host)@.polls.contains_key(poll_id@) && has_label(
            old(host)@.polls[poll_id@].options,
            vote@,
        ) ==> r is None || r matches Some(Ok(_)),
        unharmed(*old(host), *final(host)),
{
    if !fits(sender) {
        return None;
    }
    match poll_and_ballot(host, sender, &poll_id) {
        Err(e) => Some(Err(ContractError::Std(e))),
        Ok(None) => Some(Err(ContractError::PollNotFound {  })),
        Ok(Some((poll, prior))) => {
            if is_countable(&poll.options, &prior, &vote) {
                Some(record_vote(host, sender, poll_id, vote, poll, prior))
            } else {
                None
            }
        },
    }
}

/// Creates the poll `poll_id` for `sender`, with the given question and option labels.
///
/// At most ten options are accepted (`TooManyOptions`). The poll starts with every tally at
/// zero and the options in the given order; it takes the place of any poll recorded under
/// the same identifier. Ballots are not touched.
pub fn execute_create_poll(
    host: &mut Host<'_>,
    sender: &str,
    poll_id: String,
    question: String,
    options: Vec<String>,
) -> (r: Result<Response<Empty>, ContractError>)
    ensures
        poll_created(
            old(host)@,
            final(host)@,
            sender@,
            poll_id@,
            question@,
            labels_view(options@),
            r,
        ),
        options.len() <= MAX_OPTIONS ==> r is Ok,
        unharmed(*old(host), *final(host)),
{
    if options.len() > MAX_OPTIONS {
        return Err(ContractError::TooManyOptions {  });
    }
    let poll = Poll {
        creator: sender.to_owned(),
        question,
        options: unvoted_options(&options),
    };
    match save_poll(host, &poll_id, &poll) {
        Err(e) => {
            return Err(ContractError::Std(e));
        },
        Ok(()) => {},
    }
    proof {
        reveal_strlit("action");
        reveal_strlit("poll_id");
    }
    let response = new_response();
    let response = add_attribute(response, "action", "execute_create_poll");
    let response = add_attribute(response, "poll_id", poll_id.as_str());
    Ok(response)
}

/// The administrator that a set-up names: the one in the message, else the caller.
pub fn resolve_admin(msg: InstantiateMsg, sender: &str) -> (admin: String)
    ensures
        admin@ == resolved_admin(msg, sender@),
{
    match msg.admin {
        Some(admin) => admin,
        None => sender.to_owned(),
    }
}

/// Sets the ledger up: records the administrator that `msg` names, or `sender` where it
/// names none, once the host has accepted that identity.
pub fn instantiate(host: &mut Host<'_>, sender: &str, msg: InstantiateMsg) -> (r: Result<
    Response<Empty>,
    ContractError,
>)
    ensures
        set_up_done(
            old(host)@,
            final(host)@,
            resolved_admin(msg, sender@),
            accepted(*old(host), resolved_admin(msg, sender@)),
            r,
        ),
        accepted(*old(host), resolved_admin(msg, sender@)) ==> r is Ok,
        unharmed(*old(host), *final(host)),
{
    let admin = resolve_admin(msg, sender);
    let validated = match addr_validate(host, admin.as_str()) {
        Err(e) => {
            return Err(ContractError::Std(e));
        },
        Ok(validated) => validated,
    };
    let config = Config { admin: validated };
    match save_config(host, &config) {
        Err(e) => {
            return Err(ContractError::Std(e));
        },
        Ok(()) => {},
    }
    proof {
        reveal_strlit("action");
        reveal_strlit("admin");
    }
    let response = new_response();
    let response = add_attribute(response, "action", "instantiate");
    let response = add_attribute(response, "admin", config.admin.as_str());
    Ok(response)
}

/// Whether the command `msg` is owed success on the ledger `ledger`: a poll with at most
/// ten options is created; a vote is cast where the storage is legible and the poll is
/// there and offers the label.
pub open spec fn succeeds(ledger: Ledger, storage_legible: bool, msg: ExecuteMsg) -> bool {
    match msg {
        ExecuteMsg::CreatePoll { options, .. } => options.len() <= MAX_OPTIONS,
        ExecuteMsg::Vote { poll_id, vote } => {
            &&& storage_legible
            &&& ledger.polls.contains_key(poll_id@)
            &&& has_label(ledger.polls[poll_id@].options, vote@)
        },
    }
}

/// Carries out the command `msg` for `sender`. The caller sees to it that a vote can be
/// counted; `try_execute` asks nothing.
pub fn execute(host: &mut Host<'_>, sender: &str, msg: ExecuteMsg) -> (r: Result<
    Response<Empty>,
    ContractError,
>)
    requires
        msg matches ExecuteMsg::Vote { poll_id, vote } ==> fits_key(sender@) && old(
            host,
        )@.can_count(sender@, poll_id@, vote@),
    ensures
        match msg {
            ExecuteMsg::CreatePoll { poll_id, question, options } => poll_created(
                old(host)@,
                final(host)@,
                sender@,
                poll_id@,
                question@,
                labels_view(options@),
                r,
            ),
            ExecuteMsg::Vote { poll_id, vote } => vote_cast(
                old(host)@,
                final(host)@,
                sender@,
                poll_id@,
                vote@,
                legible(*old(host)),
                r,
            ),
        },
        succeeds(old(host)@, legible(*old(host)), msg) ==> r is Ok,
        unharmed(*old(host), *final(host)),
{
    match msg {
        ExecuteMsg::CreatePoll { poll_id, question, options } => execute_create_poll(
            host,
            sender,
            poll_id,
            question,
            options,
        ),
        ExecuteMsg::Vote { poll_id, vote } => execute_vote(host, sender, poll_id, vote),
    }
}

/// Carries out the command `msg` for `sender` as `execute` does, where it can be carried
/// out, and says so where it cannot: the answer is then `None`, and the ledger is left as
/// it was. Only a vote that cannot be counted cannot be carried out.
pub fn try_execute(host: &mut Host<'_>, sender: &str, msg: ExecuteMsg) -> (r: Option<
    Result<Response<Empty>, ContractError>,
>)
    ensures
        match r {
            Some(outcome) => match msg {
                ExecuteMsg::CreatePoll { poll_id, question, options } => poll_created(
                    old(host)@,
                    final(host)@,
                    sender@,
                    poll_id@,
                    question@,
                    labels_view(options@),
                    outcome,
                ),
                ExecuteMsg::Vote { poll_id, vote } => fits_key(sender@) && vote_cast(
                    old(host)@,
                    final(host)@,
                    sender@,
                    poll_id@,
                    vote@,
                    legible(*old(host)),
                    outcome,
                ),
            },
            None => msg matches ExecuteMsg::Vote { poll_id, vote } && !(fits_key(sender@) && old(
                host,
            )@.can_count(sender@, poll_id@, vote@)) && final(host)@ == old(host)@,
        },
        succeeds(old(host)@, legible(*old(host)), msg) ==> r is None || r matches Some(Ok(_)),
        unharmed(*old(host), *final(host)),
{
    match msg {
        ExecuteMsg::CreatePoll { poll_id, question, options } => Some(
            execute_create_poll(host, sender, poll_id, question, options),
        ),
        ExecuteMsg::Vote { poll_id, vote } => try_vote(host, sender, poll_id, vote),
    }
}

/// All polls, in ascending order of their identifiers. Fails only where the storage is not
/// legible.
pub fn query_all_polls(host: &Host<'_>) -> (r: Result<AllPollsResponse, StdError>)
    ensures
        match r {
            Ok(answer) => listed(polls_view(answer.polls@), host@.polls),
            Err(_) => !legible(*host),
        },
{
    let rows = match scan_polls(host) {
        Err(e) => {
            return Err(e);
        },
        Ok(rows) => rows,
    };
    let ghost listing = rows_view(rows@);
    let mut polls: Vec<Poll> = Vec::new();
    for row in it: rows
        invariant
            polls.len() == it.index(),
            it.seq().len() == listing.len(),
            forall|j: int| 0 <= j < it.seq().len() ==> (#[trigger] it.seq()[j]).1@ == listing[j].1,
            forall|j: int| 0 <= j < polls.len() ==> (#[trigger] polls[j])@ == listing[j].1,
    {
        polls.push(row.1);
    }
    Ok(AllPollsResponse { polls })
}

/// The poll `poll_id`, or nothing where the ledger holds no such poll. Fails only on a
/// poll whose record does not parse.
pub fn query_poll(host: &Host<'_>, poll_id: String) -> (r: Result<PollResponse, StdError>)
    ensures
        match r {
            Ok(answer) => poll_view(answer.poll) == host@.poll(poll_id@),
            Err(_) => host@.polls.contains_key(poll_id@) && !legible(*host),
        },
{
    match load_poll(host, &poll_id) {
        Err(e) => Err(e),
        Ok(poll) => Ok(PollResponse { poll }),
    }
}

/// What `query_vote` answers from the ledger `ledger` for the identity `address`, which
/// the host accepts or not: for an accepted identity the recorded ballot, or nothing where
/// none is recorded; for any other an error. An error for an accepted identity comes only
/// from a recorded ballot that does not parse.
pub open spec fn vote_answered(
    ledger: Ledger,
    address: Seq<char>,
    address_accepted: bool,
    poll_id: Seq<char>,
    storage_legible: bool,
    r: Result<VoteResponse, StdError>,
) -> bool {
    match r {
        Ok(answer) => address_accepted && selection(answer.vote) == ledger.ballot(
            address,
            poll_id,
        ),
        Err(_) => address_accepted ==> ledger.ballots.contains_key((address, poll_id))
            && !storage_legible,
    }
}

/// The ballot of the voter `voter` in the poll `poll_id`, or nothing where the ledger holds
/// no such ballot. The voter is taken as given: see `query_vote` for an identity that the
/// host has yet to accept.
pub fn ballot_of(host: &Host<'_>, voter: &str, poll_id: String) -> (r: Result<
    VoteResponse,
    StdError,
>)
    requires
        fits_key(voter@),
    ensures
        match r {
            Ok(answer) => selection(answer.vote) == host@.ballot(voter@, poll_id@),
            Err(_) => host@.ballots.contains_key((voter@, poll_id@)) && !legible(*host),
        },
{
    match load_ballot(host, voter, &poll_id) {
        Err(e) => Err(e),
        Ok(vote) => Ok(VoteResponse { vote }),
    }
}

/// The ballot of `address` in the poll `poll_id`, or nothing where the ledger holds no such
/// ballot. An identity that the host does not accept is an error, whatever its length; the
/// caller sees to it that one that the host accepts fits a ballot key.
pub fn query_vote(host: &Host<'_>, address: String, poll_id: String) -> (r: Result<
    VoteResponse,
    StdError,
>)
    requires
        accepted(*host, address@) ==> fits_key(address@),
    ensures
        vote_answered(
            host@,
            address@,
            accepted(*host, address@),
            poll_id@,
            legible(*host),
            r,
        ),
{
    match addr_validate(host, address.as_str()) {
        Err(e) => Err(e),
        Ok(voter) => ballot_of(host, voter.as_str(), poll_id),
    }
}

/// The configuration. Fails where the ledger was never set up, and beyond that only on a
/// record that does not parse.
pub fn query_config(host: &Host<'_>) -> (r: Result<ConfigResponse, StdError>)
    ensures
        match r {
            Ok(answer) => host@.config == Some(answer.admin@),
            Err(_) => host@.config is None || !legible(*host),
        },
{
    match load_config(host) {
        Err(e) => Err(e),
        Ok(config) => Ok(ConfigResponse { admin: config.admin }),
    }
}

/// What `query` answers to `msg` from the ledger `ledger`; `address_accepted` tells whether
/// the host accepts the identity that a `Vote` query names, `storage_legible` whether the
/// storage is legible.
///
/// Each kind of query has its own kind of answer: all polls in ascending order of their
/// identifiers; the poll, or nothing; the ballot of an accepted identity, or nothing; the
/// administrator. Asking for a poll or a ballot that is not there is no error. A legible
/// storage answers every query but two: one for the ballot of an identity that the host
/// does not accept, and one for the configuration of a ledger that was never set up.
pub open spec fn answered(
    ledger: Ledger,
    msg: QueryMsg,
    address_accepted: bool,
    storage_legible: bool,
    r: Result<QueryResponse, StdError>,
) -> bool {
    match msg {
        QueryMsg::AllPolls {  } => match r {
            Ok(answer) => answer matches QueryResponse::AllPolls(answer) && listed(
                polls_view(answer.polls@),
                ledger.polls,
            ),
            Err(_) => !storage_legible,
        },
        QueryMsg::Poll { poll_id } => match r {
            Ok(answer) => answer matches QueryResponse::Poll(answer) && poll_view(answer.poll)
                == ledger.poll(poll_id@),
            Err(_) => ledger.polls.contains_key(poll_id@) && !storage_legible,
        },
        QueryMsg::Vote { poll_id, address } => match r {
            Ok(answer) => answer matches QueryResponse::Vote(answer) && vote_answered(
                ledger,
                address@,
                address_accepted,
                poll_id@,
                storage_legible,
                Ok(answer),
            ),
            Err(e) => vote_answered(
                ledger,
                address@,
                address_accepted,
                poll_id@,
                storage_legible,
                Err(e),
            ),
        },
        QueryMsg::Config {  } => match r {
            Ok(answer) => answer matches QueryResponse::Config(answer) && ledger.config == Some(
                answer.admin@,
            ),
            Err(_) => ledger.config is None || !storage_legible,
        },
    }
}

/// Answers the query `msg`. The caller sees to it that an identity whose ballot is asked
/// for fits a ballot key, if the host accepts it; `try_query` asks nothing.
pub fn query(host: &Host<'_>, msg: QueryMsg) -> (r: Result<QueryResponse, StdError>)
    requires
        msg matches QueryMsg::Vote { address, .. } ==> (accepted(*host, address@) ==> fits_key(
            address@,
        )),
    ensures
        answered(
            host@,
            msg,
            msg matches QueryMsg::Vote { address, .. } && accepted(*host, address@),
            legible(*host),
            r,
        ),
{
    match msg {
        QueryMsg::AllPolls {  } => match query_all_polls(host) {
            Err(e) => Err(e),
            Ok(answer) => Ok(QueryResponse::AllPolls(answer)),
        },
        QueryMsg::Poll { poll_id } => match query_poll(host, poll_id) {
            Err(e) => Err(e),
            Ok(answer) => Ok(QueryResponse::Poll(answer)),
        },
        QueryMsg::Vote { poll_id, address } => match query_vote(host, address, poll_id) {
            Err(e) => Err(e),
            Ok(answer) => Ok(QueryResponse::Vote(answer)),
        },
        QueryMsg::Config {  } => match query_config(host) {
            Err(e) => Err(e),
            Ok(answer) => Ok(QueryResponse::Config(answer)),
        },
    }
}

/// Answers the query `msg` as `query` does, where it can be answered, and says so where it
/// cannot: the answer is then `None`. Only the query for the ballot of an identity that
/// the host accepts and that is too long for a ballot key cannot be answered.
pub fn try_query(host: &Host<'_>, msg: QueryMsg) -> (r: Option<Result<QueryResponse, StdError>>)
    ensures
        match r {
            Some(outcome) => answered(
                host@,
                msg,
                msg matches QueryMsg::Vote { address, .. } && accepted(*host, address@),
                legible(*host),
                outcome,
            ),
            None => msg matches QueryMsg::Vote { address, .. } && accepted(*host, address@)
                && !fits_key(address@),
        },
{
    match msg {
        QueryMsg::Vote { poll_id, address } => {
            if fits(address.as_str()) {
                Some(query(host, QueryMsg::Vote { poll_id, address }))
            } else {
                match addr_validate(host, address.as_str()) {
                    Err(e) => Some(Err(e)),
                    Ok(_) => None,
                }
            }
        },
        other => Some(query(host, other)),
    }
}

} // verus!
