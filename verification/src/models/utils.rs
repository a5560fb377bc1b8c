//! Vote counters and the table built from the counter rows of the row store.

use std::collections::HashMap;
use vstd::prelude::*;

verus! {

/// The unsigned value that a signed 64-bit counter stands for: its bit
/// pattern read as unsigned, so a negative counter wraps upward by 2^64.
pub open spec fn unsigned_of(raw: i64) -> u64 {
    if raw >= 0 {
        raw as u64
    } else {
        (raw + 0x1_0000_0000_0000_0000) as u64
    }
}

/// Reads a signed counter as unsigned.
pub fn as_unsigned(raw: i64) -> (value: u64)
    ensures
        value == unsigned_of(raw),
{
    if raw >= 0 {
        raw as u64
    } else {
        let below: u64 = (-(raw + 1)) as u64;
        u64::MAX - below
    }
}

/// The signed value that an unsigned 64-bit number stands for: its bit
/// pattern read as signed, so a number from 2^63 on wraps downward by 2^64.
pub open spec fn signed_of(raw: u64) -> i64 {
    if raw <= i64::MAX {
        raw as i64
    } else {
        (raw - 0x1_0000_0000_0000_0000) as i64
    }
}

/// Reads an unsigned number as signed.
pub fn as_signed(raw: u64) -> (value: i64)
    ensures
        value == signed_of(raw),
{
    if raw <= 0x7fff_ffff_ffff_ffff {
        raw as i64
    } else {
        let above: u64 = u64::MAX - raw;
        -1 - (above as i64)
    }
}

/// The view of an optional text.
pub open spec fn text_view(text: Option<String>) -> Option<Seq<char>> {
    match text {
        Some(s) => Some(s@),
        None => None,
    }
}

/// Copies an optional text.
pub fn copy_optional_text(text: &Option<String>) -> (copy: Option<String>)
    ensures
        text_view(copy) == text_view(*text),
{
    match text {
        Some(s) => Some(s.clone()),
        None => None,
    }
}

/// Copies a list of texts.
pub fn copy_texts(texts: &Vec<String>) -> (copy: Vec<String>)
    ensures
        copy.deep_view() == texts.deep_view(),
{
    let mut copy: Vec<String> = Vec::new();
    let mut i: usize = 0;
    while i < texts.len()
        invariant
            i <= texts.len(),
            copy.len() == i,
            forall|j: int| 0 <= j < i ==> (#[trigger] copy[j])@ == texts[j]@,
        decreases texts.len() - i,
    {
        copy.push(texts[i].clone());
        i += 1;
    }
    assert(copy.deep_view() =~= texts.deep_view());
    copy
}

/// Copies a list of ids.
pub fn copy_ids(ids: &Vec<i64>) -> (copy: Vec<i64>)
    ensures
        copy@ == ids@,
{
    let mut copy: Vec<i64> = Vec::new();
    let mut i: usize = 0;
    while i < ids.len()
        invariant
            i <= ids.len(),
            copy@ == ids@.take(i as int),
        decreases ids.len() - i,
    {
        copy.push(ids[i]);
        assert(copy@ =~= ids@.take(i + 1));
        i += 1;
    }
    assert(ids@.take(ids.len() as int) == ids@);
    copy
}

/// Vote counters of one entity: the running period and all time.
#[derive(Debug, Copy, Clone)]
pub struct VoteStats {
    pub votes: u64,
    pub all_time_votes: u64,
}

impl Default for VoteStats {
    fn default() -> (stats: Self)
        ensures
            stats == VoteStats::zero(),
    {
        VoteStats { votes: 0, all_time_votes: 0 }
    }
}

impl VoteStats {
    /// The counters of an entity without votes.
    pub open spec fn zero() -> VoteStats {
        VoteStats { votes: 0, all_time_votes: 0 }
    }

    /// The counters that two signed values of the row store stand for,
    /// each read as unsigned.
    pub open spec fn of_counters(votes: i64, all_time_votes: i64) -> VoteStats {
        VoteStats { votes: unsigned_of(votes), all_time_votes: unsigned_of(all_time_votes) }
    }

    /// Counters from the signed values the row store hands out, each read
    /// as unsigned.
    pub fn new(votes: i64, all_time_votes: i64) -> (stats: Self)
        ensures
            stats == VoteStats::of_counters(votes, all_time_votes),
    {
        VoteStats {
            votes: as_unsigned(votes),
            all_time_votes: as_unsigned(all_time_votes),
        }
    }

    /// Votes of the running period.
    pub fn votes(&self) -> (count: u64)
        ensures
            count == self.votes,
    {
        self.votes
    }

    /// Votes of all time.
    pub fn all_time_votes(&self) -> (count: u64)
        ensures
            count == self.all_time_votes,
    {
        self.all_time_votes
    }
}

/// One row of a counter table: the entity's id, then its two signed
/// counters.
pub struct CounterRow {
    pub id: i64,
    pub votes: i64,
    pub all_time_votes: i64,
}

/// The vote table that a run of counter rows stands for: each row sets its
/// id's counters, a later row replacing an earlier one with the same id.
pub open spec fn votes_of_rows(rows: Seq<CounterRow>) -> Map<i64, VoteStats>
    decreases rows.len(),
{
    if rows.len() == 0 {
        Map::empty()
    } else {
        let row = rows.last();
        votes_of_rows(rows.drop_last()).insert(
            row.id,
            VoteStats::of_counters(row.votes, row.all_time_votes),
        )
    }
}

/// Builds the vote table from the counter rows, in the order they came.
pub fn process_rows(rows: &Vec<CounterRow>) -> (table: HashMap<i64, VoteStats>)
    ensures
        table@ == votes_of_rows(rows@),
{
    let mut table: HashMap<i64, VoteStats> = HashMap::new();
    let mut i: usize = 0;
    while i < rows.len()
        invariant
            i <= rows.len(),
            table@ == votes_of_rows(rows@.take(i as int)),
        decreases rows.len() - i,
    {
        let row = &rows[i];
        table.insert(row.id, VoteStats::new(row.votes, row.all_time_votes));
        proof {
            assert(rows@.take(i + 1).drop_last() == rows@.take(i as int));
        }
        i += 1;
    }
    proof {
        assert(rows@.take(rows.len() as int) == rows@);
    }
    table
}

} // verus!
