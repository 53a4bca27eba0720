use cosmwasm_std::testing::{mock_dependencies, MockApi, MockStorage};
use cosmwasm_std::{
    attr, Addr, Api, CanonicalAddr, Order, RecoverPubkeyError, StdError, StdResult, Storage,
    VerificationError,
};
use cw_starter::contract::{
    ballot_of, execute_create_poll, execute_vote, fits, instantiate, query_all_polls,
    query_config, query_poll, query_vote, resolve_admin, try_execute, try_query, try_vote,
};
use cw_starter::host::Host;
use cw_starter::msg::{ExecuteMsg, InstantiateMsg, QueryMsg, QueryResponse};
use cw_starter::state::{Ballot, Poll};
use cw_starter::tally::{is_countable, position, tally_vote, unvoted_options, MAX_OPTIONS};
use cw_starter::ContractError;

/// A host that accepts every identity but the empty one, whatever its length.
struct OpenApi;

impl Api for OpenApi {
    fn addr_validate(&self, human: &str) -> StdResult<Addr> {
        if human.is_empty() {
            Err(StdError::generic_err("empty address"))
        } else {
            Ok(Addr::unchecked(human))
        }
    }

    fn addr_canonicalize(&self, _human: &str) -> StdResult<CanonicalAddr> {
        unreachable!("the ledger validates addresses only")
    }

    fn addr_humanize(&self, _canonical: &CanonicalAddr) -> StdResult<Addr> {
        unreachable!("the ledger validates addresses only")
    }

    fn secp256k1_verify(&self, _: &[u8], _: &[u8], _: &[u8]) -> Result<bool, VerificationError> {
        unreachable!("the ledger validates addresses only")
    }

    fn secp256k1_recover_pubkey(
        &self,
        _: &[u8],
        _: &[u8],
        _: u8,
    ) -> Result<Vec<u8>, RecoverPubkeyError> {
        unreachable!("the ledger validates addresses only")
    }

    fn ed25519_verify(&self, _: &[u8], _: &[u8], _: &[u8]) -> Result<bool, VerificationError> {
        unreachable!("the ledger validates addresses only")
    }

    fn ed25519_batch_verify(
        &self,
        _: &[&[u8]],
        _: &[&[u8]],
        _: &[&[u8]],
    ) -> Result<bool, VerificationError> {
        unreachable!("the ledger validates addresses only")
    }

    fn debug(&self, _message: &str) {}
}

const V1: &str = "voter1";
const V2: &str = "voter2";
const V3: &str = "voter3";

fn labels(names: &[&str]) -> Vec<String> {
    names.iter().map(|name| name.to_string()).collect()
}

fn create(host: &mut Host, creator: &str, id: &str, names: &[&str]) {
    execute_create_poll(host, creator, id.to_string(), "Which one?".to_string(), labels(names))
        .unwrap();
}

fn cast(host: &mut Host, voter: &str, id: &str, label: &str) -> Result<(), ContractError> {
    execute_vote(host, voter, id.to_string(), label.to_string()).map(|_| ())
}

fn tallies(host: &Host, id: &str) -> Vec<u64> {
    let poll = query_poll(host, id.to_string()).unwrap().poll.unwrap();
    poll.options.iter().map(|option| option.1).collect()
}

fn selected(host: &Host, voter: &str, id: &str) -> Option<String> {
    query_vote(host, voter.to_string(), id.to_string())
        .unwrap()
        .vote
        .map(|ballot| ballot.option)
}

fn records(storage: &MockStorage) -> Vec<(Vec<u8>, Vec<u8>)> {
    storage.range(None, None, Order::Ascending).collect()
}

#[test]
fn config_names_the_caller_when_no_admin_is_given() {
    let mut deps = mock_dependencies();
    let mut host = Host { storage: &mut deps.storage, api: &deps.api };
    instantiate(&mut host, "creator", InstantiateMsg { admin: None }).unwrap();
    assert_eq!(query_config(&host).unwrap().admin, "creator");
}

#[test]
fn config_names_the_given_admin() {
    let mut deps = mock_dependencies();
    let mut host = Host { storage: &mut deps.storage, api: &deps.api };
    let msg = InstantiateMsg { admin: Some("somebody".to_string()) };
    instantiate(&mut host, "creator", msg).unwrap();
    assert_eq!(query_config(&host).unwrap().admin, "somebody");
}

#[test]
fn resolve_admin_prefers_the_message() {
    let given = InstantiateMsg { admin: Some("somebody".to_string()) };
    assert_eq!(resolve_admin(given, "creator"), "somebody");
    assert_eq!(resolve_admin(InstantiateMsg { admin: None }, "creator"), "creator");
}

#[test]
fn instantiate_refuses_an_identity_that_the_host_rejects() {
    let mut deps = mock_dependencies();
    let before = records(&deps.storage);
    {
        let mut host = Host { storage: &mut deps.storage, api: &deps.api };
        // the mock host takes no address of fewer than three characters
        let msg = InstantiateMsg { admin: Some("ab".to_string()) };
        let err = instantiate(&mut host, "creator", msg).unwrap_err();
        assert!(matches!(err, ContractError::Std(_)));
        assert!(query_config(&host).is_err());
    }
    assert_eq!(records(&deps.storage), before);
}

#[test]
fn config_query_fails_before_set_up() {
    let mut deps = mock_dependencies();
    let host = Host { storage: &mut deps.storage, api: &deps.api };
    assert!(query_config(&host).is_err());
}

#[test]
fn new_poll_has_zero_tallies_in_declaration_order() {
    let mut deps = mock_dependencies();
    let mut host = Host { storage: &mut deps.storage, api: &deps.api };
    create(&mut host, V1, "p1", &["zebra", "apple", "mango"]);
    let poll = query_poll(&host, "p1".to_string()).unwrap().poll.unwrap();
    assert_eq!(
        poll,
        Poll {
            creator: V1.to_string(),
            question: "Which one?".to_string(),
            options: vec![
                ("zebra".to_string(), 0),
                ("apple".to_string(), 0),
                ("mango".to_string(), 0)
            ],
        }
    );
}

#[test]
fn ten_options_are_accepted_and_eleven_refused() {
    let mut deps = mock_dependencies();
    let mut host = Host { storage: &mut deps.storage, api: &deps.api };
    assert_eq!(MAX_OPTIONS, 10);
    let ten = ["1", "2", "3", "4", "5", "6", "7", "8", "9", "10"];
    let res = execute_create_poll(
        &mut host,
        V1,
        "ten".to_string(),
        "How many?".to_string(),
        labels(&ten),
    )
    .unwrap();
    assert_eq!(
        res.attributes,
        vec![attr("action", "execute_create_poll"), attr("poll_id", "ten")]
    );
    assert_eq!(tallies(&host, "ten"), vec![0; 10]);

    let eleven = ["1", "2", "3", "4", "5", "6", "7", "8", "9", "10", "11"];
    let err = execute_create_poll(
        &mut host,
        V1,
        "eleven".to_string(),
        "How many?".to_string(),
        labels(&eleven),
    )
    .unwrap_err();
    assert_eq!(err, ContractError::TooManyOptions {});
    assert_eq!(query_poll(&host, "eleven".to_string()).unwrap().poll, None);
    assert_eq!(query_all_polls(&host).unwrap().polls.len(), 1);
}

#[test]
fn refused_poll_leaves_the_storage_untouched() {
    let mut deps = mock_dependencies();
    {
        let mut host = Host { storage: &mut deps.storage, api: &deps.api };
        create(&mut host, V1, "p1", &["A", "B"]);
    }
    let before = records(&deps.storage);
    {
        let mut host = Host { storage: &mut deps.storage, api: &deps.api };
        let eleven = ["1", "2", "3", "4", "5", "6", "7", "8", "9", "10", "11"];
        let err = execute_create_poll(
            &mut host,
            V1,
            "p1".to_string(),
            "How many?".to_string(),
            labels(&eleven),
        )
        .unwrap_err();
        assert_eq!(err, ContractError::TooManyOptions {});
    }
    assert_eq!(records(&deps.storage), before);
}

#[test]
fn a_poll_without_options_takes_no_vote() {
    let mut deps = mock_dependencies();
    let mut host = Host { storage: &mut deps.storage, api: &deps.api };
    create(&mut host, V1, "empty", &[]);
    assert_eq!(tallies(&host, "empty"), Vec::<u64>::new());
    assert_eq!(
        cast(&mut host, V1, "empty", "A"),
        Err(ContractError::OptionNonExistent {})
    );
}

#[test]
fn votes_move_the_tallies() {
    let mut deps = mock_dependencies();
    let mut host = Host { storage: &mut deps.storage, api: &deps.api };
    create(&mut host, V1, "p1", &["A", "B", "C"]);

    cast(&mut host, V1, "p1", "B").unwrap();
    assert_eq!(tallies(&host, "p1"), vec![0, 1, 0]);

    cast(&mut host, V1, "p1", "C").unwrap();
    assert_eq!(tallies(&host, "p1"), vec![0, 0, 1]);

    cast(&mut host, V2, "p1", "C").unwrap();
    assert_eq!(tallies(&host, "p1"), vec![0, 0, 2]);

    assert_eq!(selected(&host, V1, "p1"), Some("C".to_string()));
    assert_eq!(selected(&host, V2, "p1"), Some("C".to_string()));
}

#[test]
fn vote_response_names_poll_and_option() {
    let mut deps = mock_dependencies();
    let mut host = Host { storage: &mut deps.storage, api: &deps.api };
    create(&mut host, V1, "p1", &["A", "B"]);
    let res = execute_vote(&mut host, V1, "p1".to_string(), "B".to_string()).unwrap();
    assert_eq!(
        res.attributes,
        vec![attr("action", "execute_vote"), attr("poll_id", "p1"), attr("vote", "B")]
    );
    assert!(res.messages.is_empty());
    assert!(res.events.is_empty());
    assert!(res.data.is_none());
}

#[test]
fn voting_again_for_the_same_option_changes_nothing() {
    let mut deps = mock_dependencies();
    {
        let mut host = Host { storage: &mut deps.storage, api: &deps.api };
        create(&mut host, V1, "p1", &["A", "B", "C"]);
        cast(&mut host, V1, "p1", "A").unwrap();
        cast(&mut host, V2, "p1", "B").unwrap();
        assert_eq!(tallies(&host, "p1"), vec![1, 1, 0]);
    }
    let before = records(&deps.storage);
    {
        let mut host = Host { storage: &mut deps.storage, api: &deps.api };
        cast(&mut host, V2, "p1", "B").unwrap();
        assert_eq!(tallies(&host, "p1"), vec![1, 1, 0]);
        assert_eq!(selected(&host, V2, "p1"), Some("B".to_string()));
    }
    assert_eq!(records(&deps.storage), before);
}

#[test]
fn changing_a_vote_moves_exactly_one() {
    let mut deps = mock_dependencies();
    let mut host = Host { storage: &mut deps.storage, api: &deps.api };
    create(&mut host, V1, "p1", &["A", "B", "C", "D"]);
    cast(&mut host, V1, "p1", "A").unwrap();
    cast(&mut host, V2, "p1", "A").unwrap();
    cast(&mut host, V3, "p1", "D").unwrap();
    assert_eq!(tallies(&host, "p1"), vec![2, 0, 0, 1]);

    cast(&mut host, V1, "p1", "C").unwrap();
    assert_eq!(tallies(&host, "p1"), vec![1, 0, 1, 1]);
    assert_eq!(selected(&host, V1, "p1"), Some("C".to_string()));
    assert_eq!(selected(&host, V2, "p1"), Some("A".to_string()));
}

#[test]
fn tallies_add_up_to_the_number_of_voters() {
    let mut deps = mock_dependencies();
    let mut host = Host { storage: &mut deps.storage, api: &deps.api };
    create(&mut host, V1, "p1", &["A", "B", "C"]);
    let votes = [
        (V1, "A"),
        (V1, "B"),
        (V2, "B"),
        (V1, "B"),
        (V3, "C"),
        (V2, "A"),
        (V1, "C"),
        (V3, "C"),
    ];
    let mut seen: Vec<&str> = Vec::new();
    for (voter, label) in votes {
        cast(&mut host, voter, "p1", label).unwrap();
        if !seen.contains(&voter) {
            seen.push(voter);
        }
        let total: u64 = tallies(&host, "p1").iter().sum();
        assert_eq!(total, seen.len() as u64);
    }
    assert_eq!(tallies(&host, "p1"), vec![1, 0, 2]);
}

#[test]
fn one_voter_counts_once_however_often_the_vote_changes() {
    let mut deps = mock_dependencies();
    let mut host = Host { storage: &mut deps.storage, api: &deps.api };
    create(&mut host, V1, "p1", &["A", "B", "C"]);
    for label in ["A", "B", "B", "C", "A", "C"] {
        cast(&mut host, V1, "p1", label).unwrap();
        let total: u64 = tallies(&host, "p1").iter().sum();
        assert_eq!(total, 1);
    }
    assert_eq!(tallies(&host, "p1"), vec![0, 0, 1]);
}

#[test]
fn vote_on_a_missing_poll_creates_no_ballot() {
    let mut deps = mock_dependencies();
    let before = records(&deps.storage);
    {
        let mut host = Host { storage: &mut deps.storage, api: &deps.api };
        assert_eq!(
            cast(&mut host, V1, "nowhere", "A"),
            Err(ContractError::PollNotFound {})
        );
        assert_eq!(selected(&host, V1, "nowhere"), None);
    }
    assert_eq!(records(&deps.storage), before);
}

#[test]
fn vote_for_a_missing_option_leaves_the_storage_untouched() {
    let mut deps = mock_dependencies();
    {
        let mut host = Host { storage: &mut deps.storage, api: &deps.api };
        create(&mut host, V1, "p1", &["A", "B"]);
        cast(&mut host, V1, "p1", "A").unwrap();
    }
    let before = records(&deps.storage);
    {
        let mut host = Host { storage: &mut deps.storage, api: &deps.api };
        // a voter with a ballot
        assert_eq!(
            cast(&mut host, V1, "p1", "Z"),
            Err(ContractError::OptionNonExistent {})
        );
        // a voter without one
        assert_eq!(
            cast(&mut host, V2, "p1", "Z"),
            Err(ContractError::OptionNonExistent {})
        );
        assert_eq!(tallies(&host, "p1"), vec![1, 0]);
        assert_eq!(selected(&host, V1, "p1"), Some("A".to_string()));
        assert_eq!(selected(&host, V2, "p1"), None);
    }
    assert_eq!(records(&deps.storage), before);
}

#[test]
fn labels_match_exactly() {
    let mut deps = mock_dependencies();
    let mut host = Host { storage: &mut deps.storage, api: &deps.api };
    create(&mut host, V1, "p1", &["Juno", "Osmosis"]);
    assert_eq!(
        cast(&mut host, V1, "p1", "juno"),
        Err(ContractError::OptionNonExistent {})
    );
    assert_eq!(
        cast(&mut host, V1, "p1", "Juno "),
        Err(ContractError::OptionNonExistent {})
    );
    assert_eq!(cast(&mut host, V1, "p1", "Juno"), Ok(()));
}

#[test]
fn absent_keys_give_empty_answers() {
    let mut deps = mock_dependencies();
    let mut host = Host { storage: &mut deps.storage, api: &deps.api };
    create(&mut host, V1, "p1", &["A", "B"]);
    cast(&mut host, V1, "p1", "A").unwrap();

    assert_eq!(query_poll(&host, "p2".to_string()).unwrap().poll, None);
    assert_eq!(query_poll(&host, "".to_string()).unwrap().poll, None);
    assert_eq!(query_vote(&host, V2.to_string(), "p1".to_string()).unwrap().vote, None);
    assert_eq!(query_vote(&host, V1.to_string(), "p2".to_string()).unwrap().vote, None);
    assert_eq!(ballot_of(&host, V2, "p1".to_string()).unwrap().vote, None);
    assert_eq!(
        ballot_of(&host, V1, "p1".to_string()).unwrap().vote,
        Some(Ballot { option: "A".to_string() })
    );
}

#[test]
fn vote_query_passes_on_a_rejected_identity() {
    let mut deps = mock_dependencies();
    let mut host = Host { storage: &mut deps.storage, api: &deps.api };
    create(&mut host, V1, "p1", &["A", "B"]);
    // the mock host takes lower case only
    assert!(query_vote(&host, "VOTER1".to_string(), "p1".to_string()).is_err());
    // the voter is taken as given where the identity was accepted before
    assert_eq!(ballot_of(&host, "VOTER1", "p1".to_string()).unwrap().vote, None);
}

#[test]
fn ballots_are_kept_apart_by_voter_and_poll() {
    let mut deps = mock_dependencies();
    let mut host = Host { storage: &mut deps.storage, api: &deps.api };
    create(&mut host, V1, "p", &["A", "B"]);
    create(&mut host, V1, "pp", &["A", "B"]);
    // the pairs ("voter", "pp") and ("voterp", "p") spell the same text when joined
    cast(&mut host, "voter", "pp", "A").unwrap();
    assert_eq!(selected(&host, "voterp", "p"), None);
    cast(&mut host, "voterp", "p", "B").unwrap();
    assert_eq!(selected(&host, "voter", "pp"), Some("A".to_string()));
    assert_eq!(selected(&host, "voterp", "p"), Some("B".to_string()));
    assert_eq!(tallies(&host, "p"), vec![0, 1]);
    assert_eq!(tallies(&host, "pp"), vec![1, 0]);
}

#[test]
fn polls_are_listed_in_ascending_order_of_identifier() {
    let mut deps = mock_dependencies();
    let mut host = Host { storage: &mut deps.storage, api: &deps.api };
    for id in ["b", "a", "ab", "B", "", "é"] {
        execute_create_poll(&mut host, V1, id.to_string(), id.to_string(), labels(&["x"]))
            .unwrap();
    }
    let listed: Vec<String> = query_all_polls(&host)
        .unwrap()
        .polls
        .into_iter()
        .map(|poll| poll.question)
        .collect();
    assert_eq!(listed, vec!["", "B", "a", "ab", "b", "é"]);
}

#[test]
fn a_vote_counts_in_the_first_slot_of_a_repeated_label() {
    let mut deps = mock_dependencies();
    let mut host = Host { storage: &mut deps.storage, api: &deps.api };
    create(&mut host, V1, "p1", &["A", "B", "A"]);
    cast(&mut host, V1, "p1", "A").unwrap();
    cast(&mut host, V2, "p1", "A").unwrap();
    assert_eq!(tallies(&host, "p1"), vec![2, 0, 0]);
    cast(&mut host, V1, "p1", "B").unwrap();
    assert_eq!(tallies(&host, "p1"), vec![1, 1, 0]);
}

#[test]
fn a_poll_created_again_starts_over_and_keeps_the_ballots() {
    let mut deps = mock_dependencies();
    let mut host = Host { storage: &mut deps.storage, api: &deps.api };
    create(&mut host, V1, "p1", &["A", "B"]);
    cast(&mut host, V1, "p1", "B").unwrap();
    assert_eq!(tallies(&host, "p1"), vec![0, 1]);

    create(&mut host, V2, "p1", &["A", "B", "C"]);
    let poll = query_poll(&host, "p1".to_string()).unwrap().poll.unwrap();
    assert_eq!(poll.creator, V2);
    assert_eq!(tallies(&host, "p1"), vec![0, 0, 0]);
    assert_eq!(selected(&host, V1, "p1"), Some("B".to_string()));
}

#[test]
fn texts_outside_ascii_are_kept() {
    let mut deps = mock_dependencies();
    let mut host = Host { storage: &mut deps.storage, api: &deps.api };
    execute_create_poll(
        &mut host,
        V1,
        "umfrage-ä".to_string(),
        "Was \"nun\"?\n".to_string(),
        labels(&["größer", "小", "a\\b"]),
    )
    .unwrap();
    cast(&mut host, V1, "umfrage-ä", "小").unwrap();
    let poll = query_poll(&host, "umfrage-ä".to_string()).unwrap().poll.unwrap();
    assert_eq!(poll.question, "Was \"nun\"?\n");
    assert_eq!(
        poll.options,
        vec![("größer".to_string(), 0), ("小".to_string(), 1), ("a\\b".to_string(), 0)]
    );
    assert_eq!(selected(&host, V1, "umfrage-ä"), Some("小".to_string()));
}

#[test]
fn a_tally_can_reach_the_largest_number() {
    let poll = Poll {
        creator: V1.to_string(),
        question: "Which one?".to_string(),
        options: vec![("A".to_string(), u64::MAX - 1), ("B".to_string(), 0)],
    };
    assert!(is_countable(&poll.options, &None, &"A".to_string()));
    let counted = tally_vote(poll, None, &"A".to_string()).unwrap();
    assert_eq!(counted.options[0].1, u64::MAX);
    // a full tally takes no further vote, unless the voter is counted in it already
    let counted_there = Some(Ballot { option: "A".to_string() });
    let counted_elsewhere = Some(Ballot { option: "B".to_string() });
    assert!(!is_countable(&counted.options, &None, &"A".to_string()));
    assert!(is_countable(&counted.options, &counted_there, &"A".to_string()));
    assert!(!is_countable(&counted.options, &counted_elsewhere, &"A".to_string()));
}

#[test]
fn a_ballot_that_the_poll_does_not_count_is_recognised() {
    let options = vec![("A".to_string(), 0), ("B".to_string(), 1)];
    let unknown = Some(Ballot { option: "Z".to_string() });
    let uncounted = Some(Ballot { option: "A".to_string() });
    let counted = Some(Ballot { option: "B".to_string() });
    assert!(!is_countable(&options, &unknown, &"A".to_string()));
    assert!(!is_countable(&options, &uncounted, &"B".to_string()));
    assert!(is_countable(&options, &counted, &"A".to_string()));
    assert!(is_countable(&options, &counted, &"Z".to_string()));
    assert!(is_countable(&options, &None, &"Z".to_string()));
}

#[test]
fn records_survive_a_new_handle() {
    let mut storage = MockStorage::new();
    let api = MockApi::default();
    {
        let mut host = Host { storage: &mut storage, api: &api };
        create(&mut host, V1, "p1", &["A", "B"]);
        cast(&mut host, V1, "p1", "B").unwrap();
    }
    let host = Host { storage: &mut storage, api: &api };
    assert_eq!(tallies(&host, "p1"), vec![0, 1]);
    assert_eq!(selected(&host, V1, "p1"), Some("B".to_string()));
}

#[test]
fn unvoted_options_keep_order_and_start_at_zero() {
    assert_eq!(
        unvoted_options(&labels(&["b", "a", "b"])),
        vec![("b".to_string(), 0), ("a".to_string(), 0), ("b".to_string(), 0)]
    );
    assert_eq!(unvoted_options(&Vec::new()), Vec::<(String, u64)>::new());
}

#[test]
fn position_finds_the_first_match() {
    let options = vec![
        ("A".to_string(), 3),
        ("B".to_string(), 0),
        ("A".to_string(), 7),
        ("".to_string(), 1),
    ];
    assert_eq!(position(&options, &"A".to_string()), Some(0));
    assert_eq!(position(&options, &"B".to_string()), Some(1));
    assert_eq!(position(&options, &"".to_string()), Some(3));
    assert_eq!(position(&options, &"C".to_string()), None);
    assert_eq!(position(&Vec::new(), &"A".to_string()), None);
}

#[test]
fn tally_vote_counts_and_retracts() {
    let poll = Poll {
        creator: V1.to_string(),
        question: "Which one?".to_string(),
        options: vec![("A".to_string(), 2), ("B".to_string(), 5), ("C".to_string(), 0)],
    };

    let first = tally_vote(poll.clone(), None, &"C".to_string()).unwrap();
    assert_eq!(
        first.options,
        vec![("A".to_string(), 2), ("B".to_string(), 5), ("C".to_string(), 1)]
    );
    assert_eq!(first.creator, poll.creator);
    assert_eq!(first.question, poll.question);

    let prior = Some(Ballot { option: "B".to_string() });
    let changed = tally_vote(poll.clone(), prior.clone(), &"A".to_string()).unwrap();
    assert_eq!(
        changed.options,
        vec![("A".to_string(), 3), ("B".to_string(), 4), ("C".to_string(), 0)]
    );

    let same = tally_vote(poll.clone(), prior.clone(), &"B".to_string()).unwrap();
    assert_eq!(same, poll);

    let refused = tally_vote(poll, prior, &"D".to_string()).unwrap_err();
    assert_eq!(refused, ContractError::OptionNonExistent {});
}

#[test]
fn errors_report_themselves() {
    assert_eq!(ContractError::Unauthorized {}.message(), Some("Unauthorized"));
    assert_eq!(
        ContractError::TooManyOptions {}.message(),
        Some("Too many poll options")
    );
    assert_eq!(
        ContractError::PollNotFound {}.message(),
        Some("The Poll does not exist")
    );
    assert_eq!(
        ContractError::OptionNonExistent {}.message(),
        Some("The option does not exist")
    );
    let mut deps = mock_dependencies();
    let host = Host { storage: &mut deps.storage, api: &deps.api };
    let err = ContractError::Std(query_config(&host).unwrap_err());
    assert_eq!(err.message(), None);
}

#[test]
fn records_are_stored_under_the_table_keys() {
    let mut deps = mock_dependencies();
    {
        let mut host = Host { storage: &mut deps.storage, api: &deps.api };
        instantiate(&mut host, "creator", InstantiateMsg { admin: None }).unwrap();
        create(&mut host, V1, "p1", &["A", "B"]);
        cast(&mut host, V2, "p1", "B").unwrap();
    }
    assert_eq!(
        records(&deps.storage),
        vec![
            (
                b"\x00\x05pollsp1".to_vec(),
                b"[\"voter1\",\"Which one?\",[[\"A\",0],[\"B\",1]]]".to_vec()
            ),
            (b"\x00\x07ballots\x00\x06voter2p1".to_vec(), b"\"B\"".to_vec()),
            (b"config".to_vec(), b"\"creator\"".to_vec()),
        ]
    );
}

#[test]
fn a_poll_record_that_does_not_parse_is_a_storage_error() {
    let mut deps = mock_dependencies();
    deps.storage.set(b"\x00\x05pollsp1", b"{\"question\":1}");
    let before = records(&deps.storage);
    {
        let mut host = Host { storage: &mut deps.storage, api: &deps.api };
        assert!(query_poll(&host, "p1".to_string()).is_err());
        assert!(query_all_polls(&host).is_err());
        let err = execute_vote(&mut host, V1, "p1".to_string(), "A".to_string()).unwrap_err();
        assert!(matches!(err, ContractError::Std(_)));
        // the record is there all the same: another poll is simply absent
        assert_eq!(query_poll(&host, "p2".to_string()).unwrap().poll, None);
    }
    assert_eq!(records(&deps.storage), before);
}

#[test]
fn a_ballot_record_that_does_not_parse_is_a_storage_error() {
    let mut deps = mock_dependencies();
    {
        let mut host = Host { storage: &mut deps.storage, api: &deps.api };
        create(&mut host, V1, "p1", &["A", "B"]);
    }
    deps.storage.set(b"\x00\x07ballots\x00\x06voter1p1", b"17");
    let before = records(&deps.storage);
    {
        let mut host = Host { storage: &mut deps.storage, api: &deps.api };
        assert!(query_vote(&host, V1.to_string(), "p1".to_string()).is_err());
        assert!(ballot_of(&host, V1, "p1".to_string()).is_err());
        assert_eq!(selected(&host, V2, "p1"), None);
    }
    assert_eq!(records(&deps.storage), before);
}

#[test]
fn a_config_record_that_does_not_parse_is_a_storage_error() {
    let mut deps = mock_dependencies();
    deps.storage.set(b"config", b"{}");
    let host = Host { storage: &mut deps.storage, api: &deps.api };
    assert!(query_config(&host).is_err());
}

#[test]
fn a_poll_key_that_is_no_text_fails_the_listing_only() {
    let mut deps = mock_dependencies();
    {
        let mut host = Host { storage: &mut deps.storage, api: &deps.api };
        create(&mut host, V1, "p1", &["A"]);
    }
    deps.storage.set(b"\x00\x05polls\xff", b"[\"voter1\",\"?\",[]]");
    let host = Host { storage: &mut deps.storage, api: &deps.api };
    assert!(query_all_polls(&host).is_err());
    assert_eq!(tallies(&host, "p1"), vec![0]);
}

#[test]
fn awkward_characters_read_back() {
    let mut deps = mock_dependencies();
    let mut host = Host { storage: &mut deps.storage, api: &deps.api };
    let texts = ["\u{0}", "\u{1}\u{1f}", "\u{7f}", "\t\r\n", "\"\\/", "\u{ffff}\u{10000}", ""];
    for text in texts {
        let id = format!("poll {}", text);
        let voter = format!("voter {}", text);
        execute_create_poll(
            &mut host,
            &voter,
            id.clone(),
            text.to_string(),
            vec![text.to_string(), "other".to_string()],
        )
        .unwrap();
        execute_vote(&mut host, &voter, id.clone(), text.to_string()).unwrap();
        assert_eq!(
            query_poll(&host, id.clone()).unwrap().poll,
            Some(Poll {
                creator: voter.clone(),
                question: text.to_string(),
                options: vec![(text.to_string(), 1), ("other".to_string(), 0)],
            })
        );
        assert_eq!(
            ballot_of(&host, &voter, id).unwrap().vote,
            Some(Ballot { option: text.to_string() })
        );
    }
    assert_eq!(query_all_polls(&host).unwrap().polls.len(), texts.len());
}

#[test]
fn the_largest_tally_is_stored_exactly() {
    let mut deps = mock_dependencies();
    deps.storage.set(
        b"\x00\x05pollsp1",
        b"[\"voter1\",\"Which one?\",[[\"A\",18446744073709551614],[\"B\",0]]]",
    );
    let mut host = Host { storage: &mut deps.storage, api: &deps.api };
    assert_eq!(tallies(&host, "p1"), vec![u64::MAX - 1, 0]);
    cast(&mut host, V1, "p1", "A").unwrap();
    assert_eq!(tallies(&host, "p1"), vec![u64::MAX, 0]);
    cast(&mut host, V1, "p1", "B").unwrap();
    assert_eq!(tallies(&host, "p1"), vec![u64::MAX - 1, 1]);
}

#[test]
fn the_longest_voter_that_fits_the_key_can_vote() {
    let mut deps = mock_dependencies();
    let mut host = Host { storage: &mut deps.storage, api: &deps.api };
    let voter = "v".repeat(0xFFFF);
    create(&mut host, V1, "p1", &["A", "B"]);
    cast(&mut host, &voter, "p1", "B").unwrap();
    assert_eq!(tallies(&host, "p1"), vec![0, 1]);
    assert_eq!(
        ballot_of(&host, &voter, "p1".to_string()).unwrap().vote,
        Some(Ballot { option: "B".to_string() })
    );
    // an identifier of a poll may be longer still
    let id = "p".repeat(0x10001);
    create(&mut host, V1, &id, &["A"]);
    cast(&mut host, &voter, &id, "A").unwrap();
    assert_eq!(tallies(&host, &id), vec![1]);
}

#[test]
fn a_vote_that_cannot_be_counted_is_not_attempted() {
    let mut deps = mock_dependencies();
    {
        let mut host = Host { storage: &mut deps.storage, api: &deps.api };
        create(&mut host, V1, "p1", &["A", "B"]);
        cast(&mut host, V1, "p1", "B").unwrap();
        cast(&mut host, V2, "p1", "A").unwrap();
        // the poll starts over, the ballots stay: they are no longer counted
        create(&mut host, V1, "p1", &["A"]);
    }
    let before = records(&deps.storage);
    {
        let mut host = Host { storage: &mut deps.storage, api: &deps.api };
        // a ballot for a label that is gone
        assert_eq!(try_vote(&mut host, V1, "p1".to_string(), "A".to_string()), None);
        // a ballot for a label whose tally is zero
        assert_eq!(try_vote(&mut host, V2, "p1".to_string(), "A".to_string()), None);
        assert_eq!(try_vote(&mut host, V2, "p1".to_string(), "Z".to_string()), None);
        let msg = ExecuteMsg::Vote { poll_id: "p1".to_string(), vote: "A".to_string() };
        assert_eq!(try_execute(&mut host, V1, msg), None);
    }
    assert_eq!(records(&deps.storage), before);
    let mut host = Host { storage: &mut deps.storage, api: &deps.api };
    // a voter without a ballot is counted as ever
    let res = try_vote(&mut host, V3, "p1".to_string(), "A".to_string()).unwrap().unwrap();
    assert_eq!(
        res.attributes,
        vec![attr("action", "execute_vote"), attr("poll_id", "p1"), attr("vote", "A")]
    );
    assert_eq!(tallies(&host, "p1"), vec![1]);
}

#[test]
fn try_vote_answers_as_execute_vote_does() {
    let mut deps = mock_dependencies();
    let mut host = Host { storage: &mut deps.storage, api: &deps.api };
    assert_eq!(
        try_vote(&mut host, V1, "p1".to_string(), "A".to_string()),
        Some(Err(ContractError::PollNotFound {}))
    );
    create(&mut host, V1, "p1", &["A", "B"]);
    assert_eq!(
        try_vote(&mut host, V1, "p1".to_string(), "Z".to_string()),
        Some(Err(ContractError::OptionNonExistent {}))
    );
    assert!(matches!(
        try_vote(&mut host, V1, "p1".to_string(), "A".to_string()),
        Some(Ok(_))
    ));
    assert!(matches!(
        try_vote(&mut host, V1, "p1".to_string(), "B".to_string()),
        Some(Ok(_))
    ));
    assert_eq!(tallies(&host, "p1"), vec![0, 1]);
    assert_eq!(selected(&host, V1, "p1"), Some("B".to_string()));
}

#[test]
fn try_execute_creates_polls_and_casts_votes() {
    let mut deps = mock_dependencies();
    let mut host = Host { storage: &mut deps.storage, api: &deps.api };
    let msg = ExecuteMsg::CreatePoll {
        poll_id: "p1".to_string(),
        question: "Which one?".to_string(),
        options: labels(&["A", "B"]),
    };
    let res = try_execute(&mut host, V1, msg).unwrap().unwrap();
    assert_eq!(
        res.attributes,
        vec![attr("action", "execute_create_poll"), attr("poll_id", "p1")]
    );
    let msg = ExecuteMsg::Vote { poll_id: "p1".to_string(), vote: "B".to_string() };
    let res = try_execute(&mut host, V1, msg).unwrap().unwrap();
    assert_eq!(
        res.attributes,
        vec![attr("action", "execute_vote"), attr("poll_id", "p1"), attr("vote", "B")]
    );
    assert_eq!(tallies(&host, "p1"), vec![0, 1]);
    let eleven = ["1", "2", "3", "4", "5", "6", "7", "8", "9", "10", "11"];
    let msg = ExecuteMsg::CreatePoll {
        poll_id: "p2".to_string(),
        question: "How many?".to_string(),
        options: labels(&eleven),
    };
    assert_eq!(
        try_execute(&mut host, V1, msg),
        Some(Err(ContractError::TooManyOptions {}))
    );
}

#[test]
fn a_voter_too_long_for_the_key_is_not_looked_up() {
    let mut deps = mock_dependencies();
    let mut host = Host { storage: &mut deps.storage, api: &deps.api };
    create(&mut host, V1, "p1", &["A", "B"]);
    let fitting = "v".repeat(0xFFFF);
    let long = "v".repeat(0x10000);
    // the bound is on bytes, not on characters
    let wide = "\u{e9}".repeat(0x8000);
    assert!(fits(&fitting));
    assert!(!fits(&long));
    assert!(!fits(&wide));
    assert!(fits(""));
    assert_eq!(try_vote(&mut host, &long, "p1".to_string(), "A".to_string()), None);
    assert_eq!(try_vote(&mut host, &wide, "p1".to_string(), "A".to_string()), None);
    assert_eq!(tallies(&host, "p1"), vec![0, 0]);
}

#[test]
fn a_refused_identity_is_an_error_whatever_its_length() {
    let mut deps = mock_dependencies();
    let mut host = Host { storage: &mut deps.storage, api: &deps.api };
    create(&mut host, V1, "p1", &["A", "B"]);
    // the mock host takes no address of more than ninety characters
    for address in ["v".repeat(91), "v".repeat(0xFFFF), "v".repeat(0x10000)] {
        assert!(query_vote(&host, address.clone(), "p1".to_string()).is_err());
        let msg = QueryMsg::Vote { poll_id: "p1".to_string(), address };
        assert!(matches!(try_query(&host, msg), Some(Err(_))));
    }
}

#[test]
fn an_accepted_identity_too_long_for_the_key_is_not_looked_up() {
    let mut storage = MockStorage::new();
    let api = OpenApi;
    let mut host = Host { storage: &mut storage, api: &api };
    create(&mut host, V1, "p1", &["A", "B"]);
    let fitting = "v".repeat(0xFFFF);
    cast(&mut host, &fitting, "p1", "B").unwrap();

    let msg = QueryMsg::Vote { poll_id: "p1".to_string(), address: fitting.clone() };
    let answer = try_query(&host, msg).unwrap().unwrap();
    let expected = Some(Ballot { option: "B".to_string() });
    assert!(matches!(answer, QueryResponse::Vote(found) if found.vote == expected));
    assert_eq!(
        query_vote(&host, fitting, "p1".to_string()).unwrap().vote,
        Some(Ballot { option: "B".to_string() })
    );

    let msg = QueryMsg::Vote { poll_id: "p1".to_string(), address: "v".repeat(0x10000) };
    assert_eq!(try_query(&host, msg), None);
    // the host is asked first: an identity that it refuses is an error
    let msg = QueryMsg::Vote { poll_id: "p1".to_string(), address: String::new() };
    assert!(matches!(try_query(&host, msg), Some(Err(_))));
}

#[test]
fn an_accepted_admin_is_always_set_up() {
    let mut storage = MockStorage::new();
    let api = OpenApi;
    let mut host = Host { storage: &mut storage, api: &api };
    for admin in ["a", "\u{0}\"\\", "Ünïcödé", &"x".repeat(100_000)] {
        let msg = InstantiateMsg { admin: Some(admin.to_string()) };
        let res = instantiate(&mut host, "creator", msg).unwrap();
        assert_eq!(res.attributes, vec![attr("action", "instantiate"), attr("admin", admin)]);
        assert_eq!(query_config(&host).unwrap().admin, admin);
    }
    let err = instantiate(&mut host, "", InstantiateMsg { admin: None }).unwrap_err();
    assert!(matches!(err, ContractError::Std(_)));
    assert_eq!(query_config(&host).unwrap().admin, "x".repeat(100_000));
}

#[test]
fn commands_keep_the_configuration() {
    let mut deps = mock_dependencies();
    let mut host = Host { storage: &mut deps.storage, api: &deps.api };
    let msg = InstantiateMsg { admin: Some("somebody".to_string()) };
    instantiate(&mut host, "creator", msg).unwrap();
    create(&mut host, V1, "p1", &["A", "B"]);
    cast(&mut host, V1, "p1", "A").unwrap();
    cast(&mut host, V2, "p1", "B").unwrap();
    cast(&mut host, V1, "p1", "B").unwrap();
    let _ = cast(&mut host, V1, "p1", "Z");
    let _ = cast(&mut host, V1, "p2", "A");
    assert_eq!(query_config(&host).unwrap().admin, "somebody");
}

#[test]
fn try_query_answers_as_query_does() {
    let mut deps = mock_dependencies();
    let mut host = Host { storage: &mut deps.storage, api: &deps.api };
    instantiate(&mut host, "creator", InstantiateMsg { admin: None }).unwrap();
    create(&mut host, V1, "p1", &["A", "B"]);
    cast(&mut host, V1, "p1", "B").unwrap();

    let answer = try_query(&host, QueryMsg::Config {}).unwrap().unwrap();
    assert!(matches!(answer, QueryResponse::Config(config) if config.admin == "creator"));

    let answer = try_query(&host, QueryMsg::AllPolls {}).unwrap().unwrap();
    assert!(matches!(answer, QueryResponse::AllPolls(all) if all.polls.len() == 1));

    let msg = QueryMsg::Poll { poll_id: "p2".to_string() };
    let answer = try_query(&host, msg).unwrap().unwrap();
    assert!(matches!(answer, QueryResponse::Poll(found) if found.poll.is_none()));

    let msg = QueryMsg::Vote { poll_id: "p1".to_string(), address: V1.to_string() };
    let answer = try_query(&host, msg).unwrap().unwrap();
    let expected = Some(Ballot { option: "B".to_string() });
    assert!(matches!(answer, QueryResponse::Vote(found) if found.vote == expected));

    let msg = QueryMsg::Vote { poll_id: "p1".to_string(), address: "VOTER1".to_string() };
    assert!(matches!(try_query(&host, msg), Some(Err(_))));
}
