//! The host: its key-value storage, its address rule and its responses.
//!
//! Nothing in this file is proved. Each item states what the ledger relies on when it calls
//! into `cosmwasm_std` or `cw_storage_plus`; the proofs of the other modules rest on these
//! statements.
//!
//! The ledger keeps three kinds of records, as `cw_storage_plus` lays them out: one record
//! under the key `config`, a table `polls` keyed by poll identifier, and a table `ballots`
//! keyed by voter and poll identifier. A record is the JSON text of the administrator, of
//! a [`PollRecord`], or of the selected label.

use crate::ledger::Ledger;
use crate::state::{lists_in_order, rows_view, Ballot, Config, Poll, PollView};
use cosmwasm_std::{Addr, Api, Empty, Order, Response, StdError, StdResult, Storage};
use vstd::prelude::*;

verus! {

/// A poll as it is written to storage: creator, question, options.
pub type PollRecord = (String, String, Vec<(String, u64)>);

/// The host's storage together with its address rule, for the length of one call.
///
/// The storage is a `cosmwasm_std::Storage` and the address rule a `cosmwasm_std::Api`,
/// both behind the trait objects in which the host hands them over. Verus sees neither
/// field: what the storage holds is spoken of through [`stored_config`], [`stored_polls`]
/// and [`stored_ballots`], gathered in the view, and what the address rule accepts through
/// [`accepted`].
#[verifier::external_body]
pub struct Host<'a> {
    pub storage: &'a mut dyn Storage,
    pub api: &'a dyn Api,
}

/// The administrator in the record under the key `config`. It is `Some` exactly when the
/// storage holds a record there; of a record that does not parse, the administrator is
/// left open.
pub uninterp spec fn stored_config(host: Host) -> Option<Seq<char>>;

/// The records of the `polls` table, by poll identifier. An identifier is in the map
/// exactly when the table holds a record under it; of a record that does not parse, the
/// poll is left open.
pub uninterp spec fn stored_polls(host: Host) -> Map<Seq<char>, PollView>;

/// The records of the `ballots` table: the selected label, by voter and poll identifier.
/// A key is in the map exactly when the table holds a record under it; of a record that
/// does not parse, the label is left open.
pub uninterp spec fn stored_ballots(host: Host) -> Map<(Seq<char>, Seq<char>), Seq<char>>;

/// Whether every record that the storage holds for the ledger can be read back: the key
/// of every poll is text, and every record parses as what it stands for.
///
/// Records that `cw_storage_plus` has written for the ledger read back, so a storage that
/// nothing else writes to stays legible.
pub uninterp spec fn legible(host: Host) -> bool;

impl<'a> View for Host<'a> {
    type V = Ledger;

    open spec fn view(&self) -> Ledger {
        Ledger {
            config: stored_config(*self),
            polls: stored_polls(*self),
            ballots: stored_ballots(*self),
        }
    }
}

/// Whether `voter` can stand first in a ballot key: `cw_storage_plus` writes the length of
/// that part of the key in two bytes, and stops the program on a longer one.
pub open spec fn fits_key(voter: Seq<char>) -> bool {
    vstd::utf8::encode_utf8(voter).len() <= 0xFFFF
}

/// Whether the host's address rule accepts `human`: whether `Api::addr_validate` succeeds
/// on it.
///
/// `cosmwasm_std` asks of every `Api` that it answers the same call in the same way each
/// time, whatever the state of the chain; so one name stands for the answer, and a write
/// to the storage leaves it as it was.
pub uninterp spec fn accepted(host: Host, human: Seq<char>) -> bool;

/// Whether a command that found the host as `before` and left it as `after` has done it no
/// harm: a legible storage is still legible, and the address rule is as it was.
pub open spec fn unharmed(before: Host, after: Host) -> bool {
    &&& legible(before) ==> legible(after)
    &&& forall|human: Seq<char>| accepted(after, human) == #[trigger] accepted(before, human)
}

/// `cosmwasm_std::Api::addr_validate`. Claims what the trait documents: the call succeeds
/// exactly on the addresses that the host accepts, and an accepted address is returned
/// with the text of the input. Which addresses the host accepts is its own matter.
#[verifier::external_body]
pub(crate) fn addr_validate(host: &Host<'_>, human: &str) -> (r: Result<String, StdError>)
    ensures
        match r {
            Ok(addr) => accepted(*host, human@) && addr@ == human@,
            Err(_) => !accepted(*host, human@),
        },
{
    host.api.addr_validate(human).map(|addr| addr.into_string())
}

/// `cw_storage_plus::Item::load` on the key `config`. Claims: a value that comes back is
/// the stored administrator, so where no record is stored, the call fails; and it fails
/// only there, or on a record that does not parse.
#[verifier::external_body]
pub(crate) fn load_config(host: &Host<'_>) -> (r: Result<Config, StdError>)
    ensures
        match r {
            Ok(config) => stored_config(*host) == Some(config@),
            Err(_) => stored_config(*host) is None || !legible(*host),
        },
{
    let admin = cw_storage_plus::Item::<String>::new("config").load(&*host.storage)?;
    Ok(Config { admin })
}

/// `cw_storage_plus::Item::save` on the key `config`. Claims: the call succeeds, since it
/// fails only where the record cannot be written as JSON and a text always can; the record
/// then holds the given administrator. The two tables are untouched, a legible storage
/// stays legible, and the address rule is as it was.
#[verifier::external_body]
pub(crate) fn save_config(host: &mut Host<'_>, config: &Config) -> (r: Result<(), StdError>)
    ensures
        r is Ok,
        stored_config(*final(host)) == Some(config@),
        stored_polls(*final(host)) == stored_polls(*old(host)),
        stored_ballots(*final(host)) == stored_ballots(*old(host)),
        legible(*old(host)) ==> legible(*final(host)),
        forall|human: Seq<char>|
            accepted(*final(host), human) == #[trigger] accepted(*old(host), human),
{
    cw_storage_plus::Item::<String>::new("config").save(host.storage, &config.admin)
}

/// `cw_storage_plus::Map::may_load` on the `polls` table. Claims: an absent identifier
/// gives `Ok(None)`, a poll that comes back is the stored one, and an error comes only for
/// a stored record (one that does not parse).
#[verifier::external_body]
pub(crate) fn load_poll(host: &Host<'_>, poll_id: &String) -> (r: Result<Option<Poll>, StdError>)
    ensures
        match r {
            Ok(Some(poll)) => stored_polls(*host).contains_key(poll_id@) && stored_polls(
                *host,
            )[poll_id@] == poll@,
            Ok(None) => !stored_polls(*host).contains_key(poll_id@),
            Err(_) => stored_polls(*host).contains_key(poll_id@) && !legible(*host),
        },
{
    let found = cw_storage_plus::Map::<String, PollRecord>::new("polls").may_load(
        &*host.storage,
        poll_id.clone(),
    )?;
    Ok(found.map(|(creator, question, options)| Poll { creator, question, options }))
}

/// `cw_storage_plus::Map::save` on the `polls` table. Claims: the call succeeds, since it
/// fails only where the record cannot be written as JSON and texts and numbers always can;
/// the table then maps the identifier to the given poll and is otherwise as before. The
/// configuration and the ballots are untouched, a legible storage stays legible, and the
/// address rule is as it was.
#[verifier::external_body]
pub(crate) fn save_poll(host: &mut Host<'_>, poll_id: &String, poll: &Poll) -> (r: Result<
    (),
    StdError,
>)
    ensures
        r is Ok,
        stored_polls(*final(host)) == stored_polls(*old(host)).insert(poll_id@, poll@),
        stored_config(*final(host)) == stored_config(*old(host)),
        stored_ballots(*final(host)) == stored_ballots(*old(host)),
        legible(*old(host)) ==> legible(*final(host)),
        forall|human: Seq<char>|
            accepted(*final(host), human) == #[trigger] accepted(*old(host), human),
{
    let record = (poll.creator.clone(), poll.question.clone(), poll.options.clone());
    cw_storage_plus::Map::<String, PollRecord>::new("polls").save(
        host.storage,
        poll_id.clone(),
        &record,
    )
}

/// `cw_storage_plus::Map::range` over the whole `polls` table in ascending order,
/// collected. Claims: a list that comes back holds every stored poll once, with its
/// identifier, in the byte order of the identifiers. The scan fails only on a record that
/// cannot be read back.
#[verifier::external_body]
pub(crate) fn scan_polls(host: &Host<'_>) -> (r: Result<Vec<(String, Poll)>, StdError>)
    ensures
        match r {
            Ok(rows) => lists_in_order(rows_view(rows@), stored_polls(*host)),
            Err(_) => !legible(*host),
        },
{
    let rows = cw_storage_plus::Map::<String, PollRecord>::new("polls")
        .range(&*host.storage, None, None, Order::Ascending)
        .collect::<StdResult<Vec<(String, PollRecord)>>>()?;
    Ok(rows.into_iter().map(|(id, (creator, question, options))| {
        (id, Poll { creator, question, options })
    }).collect())
}

/// `cw_storage_plus::Map::may_load` on the `ballots` table. Claims: an absent key gives
/// `Ok(None)`, a ballot that comes back is the stored one, and an error comes only for a
/// stored record (one that does not parse). A voter too long for the key is left out.
#[verifier::external_body]
pub(crate) fn load_ballot(host: &Host<'_>, voter: &str, poll_id: &String) -> (r: Result<
    Option<Ballot>,
    StdError,
>)
    requires
        fits_key(voter@),
    ensures
        match r {
            Ok(Some(ballot)) => stored_ballots(*host).contains_key((voter@, poll_id@))
                && stored_ballots(*host)[(voter@, poll_id@)] == ballot@,
            Ok(None) => !stored_ballots(*host).contains_key((voter@, poll_id@)),
            Err(_) => stored_ballots(*host).contains_key((voter@, poll_id@)) && !legible(*host),
        },
{
    let key = (Addr::unchecked(voter), poll_id.clone());
    let found = cw_storage_plus::Map::<(Addr, String), String>::new("ballots").may_load(
        &*host.storage,
        key,
    )?;
    Ok(found.map(|option| Ballot { option }))
}

/// `cw_storage_plus::Map::save` on the `ballots` table. Claims: the call succeeds, since it
/// fails only where the record cannot be written as JSON and a text always can; the table
/// then maps the voter and the poll identifier to the given label and is otherwise as
/// before. The configuration and the polls are untouched, a legible storage stays legible,
/// and the address rule is as it was. A voter too long for the key is left out.
#[verifier::external_body]
pub(crate) fn save_ballot(
    host: &mut Host<'_>,
    voter: &str,
    poll_id: &String,
    ballot: &Ballot,
) -> (r: Result<(), StdError>)
    requires
        fits_key(voter@),
    ensures
        r is Ok,
        stored_ballots(*final(host)) == stored_ballots(*old(host)).insert(
            (voter@, poll_id@),
            ballot@,
        ),
        stored_config(*final(host)) == stored_config(*old(host)),
        stored_polls(*final(host)) == stored_polls(*old(host)),
        legible(*old(host)) ==> legible(*final(host)),
        forall|human: Seq<char>|
            accepted(*final(host), human) == #[trigger] accepted(*old(host), human),
{
    let key = (Addr::unchecked(voter), poll_id.clone());
    cw_storage_plus::Map::<(Addr, String), String>::new("ballots").save(
        host.storage,
        key,
        &ballot.option,
    )
}

/// The placeholder with which `cosmwasm_std` fills a response that carries no custom message.
#[verifier::external_type_specification]
#[verifier::external_body]
pub struct ExEmpty(Empty);

/// What an operation hands back to the host. Of its contents the ledger sets the attributes.
#[verifier::external_type_specification]
#[verifier::external_body]
#[verifier::reject_recursive_types(T)]
pub struct ExResponse<T>(Response<T>);

/// The attributes of a response, as pairs of key and value in the order they were added.
pub uninterp spec fn attributes(response: Response<Empty>) -> Seq<(Seq<char>, Seq<char>)>;

/// `cosmwasm_std::Response::new`. Claims: the new response has no attributes.
#[verifier::external_body]
pub(crate) fn new_response() -> (r: Response<Empty>)
    ensures
        attributes(r) == Seq::<(Seq<char>, Seq<char>)>::empty(),
{
    Response::new()
}

/// `cosmwasm_std::Response::add_attribute`. Claims: the pair is appended to the
/// attributes. A key that starts with an underscore is left out: `cosmwasm_std` reserves
/// those and stops a debug build on one.
#[verifier::external_body]
pub(crate) fn add_attribute(response: Response<Empty>, key: &str, value: &str) -> (r: Response<
    Empty,
>)
    requires
        key@.len() > 0 ==> key@[0] != '_',
    ensures
        attributes(r) == attributes(response).push((key@, value@)),
{
    response.add_attribute(key, value)
}

} // verus!
