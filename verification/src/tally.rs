//! Options and their tallies: how a poll starts out and how one vote moves the counts.

use crate::error::ContractError;
use crate::state::{options_view, Ballot, Poll, PollView};
use vstd::prelude::*;

verus! {

/// The most options a poll may be created with.
pub const MAX_OPTIONS: usize = 10;

/// Whether `i` is the slot that a vote for `label` counts in: the first option with that
/// label.
pub open spec fn is_slot(options: Seq<(Seq<char>, nat)>, label: Seq<char>, i: int) -> bool {
    &&& 0 <= i < options.len()
    &&& options[i].0 == label
    &&& forall|j: int| 0 <= j < i ==> (#[trigger] options[j]).0 != label
}

/// Whether some option carries `label`.
pub open spec fn has_label(options: Seq<(Seq<char>, nat)>, label: Seq<char>) -> bool {
    exists|i: int| 0 <= i < options.len() && (#[trigger] options[i]).0 == label
}

/// The slot that a vote for `label` counts in. Meaningful where `has_label` holds.
pub open spec fn slot(options: Seq<(Seq<char>, nat)>, label: Seq<char>) -> int {
    choose|i: int| is_slot(options, label, i)
}

/// The options with the tally in slot `i` moved by `by`.
pub open spec fn adjusted(options: Seq<(Seq<char>, nat)>, i: int, by: int) -> Seq<
    (Seq<char>, nat),
> {
    options.update(i, (options[i].0, (options[i].1 + by) as nat))
}

/// The options after the ballot `prior`, if there is one, has been taken out of the count.
pub open spec fn retracted(options: Seq<(Seq<char>, nat)>, prior: Option<Seq<char>>) -> Seq<
    (Seq<char>, nat),
> {
    match prior {
        Some(was) => adjusted(options, slot(options, was), -1),
        None => options,
    }
}

/// The options after a voter whose earlier ballot was `prior` has voted for `label`: the
/// earlier ballot is taken out of the count, the new one is counted.
pub open spec fn tallied(
    options: Seq<(Seq<char>, nat)>,
    prior: Option<Seq<char>>,
    label: Seq<char>,
) -> Seq<(Seq<char>, nat)> {
    adjusted(retracted(options, prior), slot(options, label), 1)
}

/// The sum of all tallies.
pub open spec fn total(options: Seq<(Seq<char>, nat)>) -> nat
    decreases options.len(),
{
    if options.len() == 0 {
        0
    } else {
        total(options.drop_last()) + options.last().1
    }
}

/// Options for the given labels, in the given order, with no vote counted yet.
pub open spec fn unvoted(labels: Seq<Seq<char>>) -> Seq<(Seq<char>, nat)> {
    Seq::new(labels.len(), |i: int| (labels[i], 0nat))
}

/// Labels as character sequences.
pub open spec fn labels_view(labels: Seq<String>) -> Seq<Seq<char>> {
    Seq::new(labels.len(), |i: int| labels[i]@)
}

/// The label of a ballot, if there is a ballot.
pub open spec fn selection(ballot: Option<Ballot>) -> Option<Seq<char>> {
    match ballot {
        Some(ballot) => Some(ballot@),
        None => None,
    }
}

/// Whether a vote for `label` by a voter whose earlier ballot is `prior` can be counted:
/// the earlier ballot is among the counted ones, and the tally that grows has room to grow.
pub open spec fn countable(
    options: Seq<(Seq<char>, nat)>,
    prior: Option<Seq<char>>,
    label: Seq<char>,
) -> bool {
    &&& prior matches Some(was) ==> has_label(options, was) && options[slot(options, was)].1 >= 1
    &&& has_label(options, label) ==> retracted(options, prior)[slot(options, label)].1
        < u64::MAX
}

/// A label that occurs has exactly one first slot, and `slot` names it.
pub proof fn lemma_slot(options: Seq<(Seq<char>, nat)>, label: Seq<char>)
    requires
        has_label(options, label),
    ensures
        is_slot(options, label, slot(options, label)),
        forall|i: int| is_slot(options, label, i) ==> i == slot(options, label),
{
    let k = choose|k: int| 0 <= k < options.len() && (#[trigger] options[k]).0 == label;
    lemma_first_before(options, label, k);
}

/// If the option at `k` carries `label`, a first slot for `label` exists at or before `k`.
proof fn lemma_first_before(options: Seq<(Seq<char>, nat)>, label: Seq<char>, k: int)
    requires
        0 <= k < options.len(),
        options[k].0 == label,
    ensures
        exists|i: int| 0 <= i <= k && is_slot(options, label, i),
    decreases k,
{
    if exists|j: int| 0 <= j < k && (#[trigger] options[j]).0 == label {
        let j = choose|j: int| 0 <= j < k && (#[trigger] options[j]).0 == label;
        lemma_first_before(options, label, j);
    } else {
        assert(is_slot(options, label, k));
    }
}

/// Options that carry the same labels in the same places offer the same labels in the same
/// slots, whatever their tallies are.
pub proof fn lemma_same_labels(
    a: Seq<(Seq<char>, nat)>,
    b: Seq<(Seq<char>, nat)>,
    label: Seq<char>,
)
    requires
        a.len() == b.len(),
        forall|j: int| 0 <= j < a.len() ==> (#[trigger] a[j]).0 == b[j].0,
    ensures
        has_label(a, label) == has_label(b, label),
        forall|i: int| is_slot(a, label, i) == is_slot(b, label, i),
        has_label(a, label) ==> slot(a, label) == slot(b, label),
{
    if has_label(a, label) {
        let k = choose|k: int| 0 <= k < a.len() && (#[trigger] a[k]).0 == label;
        assert(b[k].0 == label);
    }
    if has_label(b, label) {
        let k = choose|k: int| 0 <= k < b.len() && (#[trigger] b[k]).0 == label;
        assert(a[k].0 == label);
    }
    assert forall|i: int| is_slot(a, label, i) == is_slot(b, label, i) by {
        if is_slot(a, label, i) {
            assert forall|j: int| 0 <= j < i implies (#[trigger] b[j]).0 != label by {
                assert(a[j].0 != label);
            }
        }
        if is_slot(b, label, i) {
            assert(a[i].0 == b[i].0);
            assert forall|j: int| 0 <= j < i implies (#[trigger] a[j]).0 != label by {
                assert(a[j].0 == b[j].0);
            }
        }
    }
    if has_label(a, label) {
        lemma_slot(a, label);
        lemma_slot(b, label);
    }
}

/// Moving a tally leaves every label where it was, so every label keeps its slot.
pub proof fn lemma_adjusted_keeps_slots(
    options: Seq<(Seq<char>, nat)>,
    i: int,
    by: int,
    label: Seq<char>,
)
    requires
        0 <= i < options.len(),
    ensures
        has_label(adjusted(options, i, by), label) == has_label(options, label),
        has_label(options, label) ==> slot(adjusted(options, i, by), label) == slot(
            options,
            label,
        ),
{
    lemma_same_labels(adjusted(options, i, by), options, label);
}

/// Options for the given labels, in the given order, each with a tally of zero.
pub fn unvoted_options(labels: &Vec<String>) -> (options: Vec<(String, u64)>)
    ensures
        options_view(options@) == unvoted(labels_view(labels@)),
        options.len() == labels.len(),
        forall|i: int|
            0 <= i < labels.len() ==> (#[trigger] options[i]).0@ == labels[i]@ && options[i].1
                == 0,
{
    let mut options: Vec<(String, u64)> = Vec::new();
    let mut i: usize = 0;
    while i < labels.len()
        invariant
            i <= labels.len(),
            options.len() == i,
            forall|j: int|
                0 <= j < i ==> (#[trigger] options[j]).0@ == labels[j]@ && options[j].1 == 0,
        decreases labels.len() - i,
    {
        options.push((labels[i].clone(), 0));
        i += 1;
    }
    options
}

/// The slot that a vote for `label` counts in, or `None` where no option carries the label.
pub fn position(options: &Vec<(String, u64)>, label: &String) -> (found: Option<usize>)
    ensures
        match found {
            Some(i) => is_slot(options_view(options@), label@, i as int),
            None => !has_label(options_view(options@), label@),
        },
{
    let mut i: usize = 0;
    while i < options.len()
        invariant
            i <= options.len(),
            forall|j: int| 0 <= j < i ==> (#[trigger] options_view(options@)[j]).0 != label@,
        decreases options.len() - i,
    {
        if options[i].0 == *label {
            return Some(i);
        }
        i += 1;
    }
    None
}

/// Whether a vote for `vote` by a voter whose ballot so far is `prior` can be counted in
/// `options`: what `tally_vote` asks of its caller, as a test.
pub fn is_countable(options: &Vec<(String, u64)>, prior: &Option<Ballot>, vote: &String) -> (ok:
    bool)
    ensures
        ok == countable(options_view(options@), selection(*prior), vote@),
{
    let ghost view = options_view(options@);
    let mut freed: Option<usize> = None;
    match prior {
        Some(ballot) => {
            match position(options, &ballot.option) {
                None => {
                    return false;
                },
                Some(i) => {
                    proof {
                        lemma_slot(view, ballot@);
                    }
                    if options[i].1 < 1 {
                        return false;
                    }
                    freed = Some(i);
                },
            }
        },
        None => {},
    }
    match position(options, vote) {
        None => true,
        Some(j) => {
            proof {
                lemma_slot(view, vote@);
            }
            match freed {
                Some(i) => i == j || options[j].1 < u64::MAX,
                None => options[j].1 < u64::MAX,
            }
        },
    }
}

/// Counts a vote for `vote` in `poll`, for a voter whose ballot so far is `prior`.
///
/// The earlier ballot, if there is one, is taken out of the tally of its slot; then the
/// vote is counted in the slot of `vote`. Where the poll does not offer `vote`, the vote is
/// refused with `OptionNonExistent`.
pub fn tally_vote(poll: Poll, prior: Option<Ballot>, vote: &String) -> (r: Result<
    Poll,
    ContractError,
>)
    requires
        countable(poll@.options, selection(prior), vote@),
    ensures
        match r {
            Ok(next) => has_label(poll@.options, vote@) && next@ == (PollView {
                options: tallied(poll@.options, selection(prior), vote@),
                ..poll@
            }),
            Err(e) => e is OptionNonExistent && !has_label(poll@.options, vote@),
        },
{
    let ghost before = poll@.options;
    let mut poll = poll;
    match prior {
        Some(ballot) => {
            let found = position(&poll.options, &ballot.option);
            proof {
                lemma_slot(before, ballot@);
            }
            let i = found.unwrap();
            poll.options[i].1 -= 1;
            proof {
                lemma_adjusted_keeps_slots(before, i as int, -1, vote@);
            }
        },
        None => {},
    }
    assert(options_view(poll.options@) =~= retracted(before, selection(prior)));
    match position(&poll.options, vote) {
        None => Err(ContractError::OptionNonExistent {  }),
        Some(j) => {
            proof {
                lemma_slot(before, vote@);
                lemma_slot(options_view(poll.options@), vote@);
            }
            poll.options[j].1 += 1;
            assert(options_view(poll.options@) =~= tallied(before, selection(prior), vote@));
            Ok(poll)
        },
    }
}

} // verus!
