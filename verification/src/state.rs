//! The records of the ledger, and what they are as mathematical values.

use vstd::prelude::*;

verus! {

/// The ledger's configuration: the administrator, fixed when the ledger is set up.
#[derive(Clone, Debug, PartialEq, Eq)]
pub struct Config {
    pub admin: String,
}

/// A question with its options, each with the number of ballots that currently select it.
#[derive(Clone, Debug, PartialEq, Eq)]
pub struct Poll {
    pub creator: String,
    pub question: String,
    pub options: Vec<(String, u64)>,
}

/// The option that one voter currently selects in one poll.
#[derive(Clone, Debug, PartialEq, Eq)]
pub struct Ballot {
    pub option: String,
}

/// A poll as a mathematical value: labels are character sequences, tallies natural numbers.
pub struct PollView {
    pub creator: Seq<char>,
    pub question: Seq<char>,
    pub options: Seq<(Seq<char>, nat)>,
}

/// The options of a poll record as labels with natural-number tallies, in the stored order.
pub open spec fn options_view(options: Seq<(String, u64)>) -> Seq<(Seq<char>, nat)> {
    Seq::new(options.len(), |i: int| (options[i].0@, options[i].1 as nat))
}

impl View for Config {
    type V = Seq<char>;

    open spec fn view(&self) -> Seq<char> {
        self.admin@
    }
}

impl View for Poll {
    type V = PollView;

    open spec fn view(&self) -> PollView {
        PollView {
            creator: self.creator@,
            question: self.question@,
            options: options_view(self.options@),
        }
    }
}

impl View for Ballot {
    type V = Seq<char>;

    open spec fn view(&self) -> Seq<char> {
        self.option@
    }
}

/// Whether the byte string `a` comes strictly before `b` in lexicographic order: they agree
/// up to some position, where `a` ends and `b` goes on, or where `a` has the smaller byte.
pub open spec fn bytes_before(a: Seq<u8>, b: Seq<u8>) -> bool {
    exists|k: int|
        0 <= k <= a.len() && k < b.len() && #[trigger] a.subrange(0, k) == b.subrange(0, k) && (k
            < a.len() ==> a[k] < b[k])
}

/// Whether the poll identifier `a` comes strictly before `b` in the order of the storage
/// keys, which is the byte order of their UTF-8 encodings.
pub open spec fn id_before(a: Seq<char>, b: Seq<char>) -> bool {
    bytes_before(vstd::utf8::encode_utf8(a), vstd::utf8::encode_utf8(b))
}

/// Rows of identifier and poll record as mathematical values.
pub open spec fn rows_view(rows: Seq<(String, Poll)>) -> Seq<(Seq<char>, PollView)> {
    Seq::new(rows.len(), |i: int| (rows[i].0@, rows[i].1@))
}

/// Poll records as mathematical values.
pub open spec fn polls_view(polls: Seq<Poll>) -> Seq<PollView> {
    Seq::new(polls.len(), |i: int| polls[i]@)
}

/// Whether `rows` lists the table `polls` in ascending order of the identifiers: every row
/// is an entry of the table, every entry has a row, and the identifiers strictly ascend.
pub open spec fn lists_in_order(
    rows: Seq<(Seq<char>, PollView)>,
    polls: Map<Seq<char>, PollView>,
) -> bool {
    &&& forall|i: int|
        0 <= i < rows.len() ==> polls.contains_key((#[trigger] rows[i]).0) && polls[rows[i].0]
            == rows[i].1
    &&& forall|id: Seq<char>| #[trigger]
        polls.contains_key(id) ==> exists|i: int|
            0 <= i < rows.len() && (#[trigger] rows[i]).0 == id
    &&& forall|i: int, j: int|
        0 <= i < j < rows.len() ==> id_before((#[trigger] rows[i]).0, (#[trigger] rows[j]).0)
}

/// Whether `polls` are the polls of `table` in ascending order of their identifiers.
pub open spec fn listed(polls: Seq<PollView>, table: Map<Seq<char>, PollView>) -> bool {
    exists|rows: Seq<(Seq<char>, PollView)>|
        #[trigger] lists_in_order(rows, table) && rows.len() == polls.len() && forall|i: int|
            0 <= i < rows.len() ==> (#[trigger] rows[i]).1 == polls[i]
}

/// The poll of an answer as a mathematical value.
pub open spec fn poll_view(poll: Option<Poll>) -> Option<PollView> {
    match poll {
        Some(poll) => Some(poll@),
        None => None,
    }
}

} // verus!
