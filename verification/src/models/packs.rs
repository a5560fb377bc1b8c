//! Pack rows, the live cache of the packs that are on show, and the tables
//! that packs are ranked by.

use crate::models::bots::{
    get_bot_data, hidden_in, is_hidden, trending_in, votes_in, Bot, LiveBots,
};
use crate::models::utils::{process_rows, votes_of_rows, CounterRow, VoteStats};
use crate::search::document::{
    add_i64, add_text, document_entries, new_document, FieldEntry, FieldValue,
};
use crate::search::index_impls::packs::PackFields;
use std::collections::HashMap;
use tantivy::Document;
use vstd::prelude::*;
use vstd::std_specs::iter::IteratorSpec;

verus! {

/// A pack as the row store holds it.
#[derive(Debug)]
pub struct Pack {
    /// The id of the pack.
    pub id: i64,
    /// The name of the pack.
    pub name: String,
    /// The description of the pack.
    pub description: String,
    /// When the pack was created, in seconds since the epoch.
    pub created_on: i64,
    /// The tag of the pack.
    pub tag: String,
    /// The ids of the bots in the pack, in the pack's order.
    pub bots: Vec<i64>,
    /// Whether the owner has hidden the pack.
    pub is_hidden: bool,
    /// Whether an admin has hidden the pack.
    pub is_forced_into_hiding: bool,
    /// The pack's primary owner.
    pub owner_id: i64,
    /// The pack's co-owners.
    pub co_owner_ids: Vec<i64>,
}

/// What a pack row says.
pub struct PackView {
    pub id: i64,
    pub name: Seq<char>,
    pub description: Seq<char>,
    pub created_on: i64,
    pub tag: Seq<char>,
    pub bots: Seq<i64>,
    pub is_hidden: bool,
    pub is_forced_into_hiding: bool,
    pub owner_id: i64,
    pub co_owner_ids: Seq<i64>,
}

impl View for Pack {
    type V = PackView;

    open spec fn view(&self) -> PackView {
        PackView {
            id: self.id,
            name: self.name@,
            description: self.description@,
            created_on: self.created_on,
            tag: self.tag@,
            bots: self.bots@,
            is_hidden: self.is_hidden,
            is_forced_into_hiding: self.is_forced_into_hiding,
            owner_id: self.owner_id,
            co_owner_ids: self.co_owner_ids@,
        }
    }
}

impl PackView {
    /// A row is withheld from the listing when its owner or an admin has
    /// hidden it.
    pub open spec fn withheld(self) -> bool {
        self.is_hidden || self.is_forced_into_hiding
    }
}

impl Pack {
    /// Whether the owner or an admin has hidden the row.
    pub fn withheld(&self) -> (hidden: bool)
        ensures
            hidden == self@.withheld(),
    {
        self.is_hidden || self.is_forced_into_hiding
    }
}

/// The entries of a pack's document: the id, the name, the description,
/// then the tag under the text field and under the aggregation field.
pub open spec fn document_of(pack: PackView, fields: PackFields) -> Seq<FieldEntry> {
    seq![
        FieldEntry { field: fields.id, value: FieldValue::I64(pack.id) },
        FieldEntry { field: fields.name, value: FieldValue::Text(pack.name) },
        FieldEntry { field: fields.description, value: FieldValue::Text(pack.description) },
        FieldEntry { field: fields.tag, value: FieldValue::Text(pack.tag) },
        FieldEntry { field: fields.tag_agg, value: FieldValue::Text(pack.tag) },
    ]
}

impl Pack {
    /// The document that the index holds for the pack.
    pub fn as_tantivy_doc(&self, fields: &PackFields) -> (document: Document)
        ensures
            document_entries(document) == document_of(self@, *fields),
    {
        let mut document = new_document();
        add_i64(&mut document, fields.id, self.id);
        add_text(&mut document, fields.name, self.name.as_str());
        add_text(&mut document, fields.description, self.description.as_str());
        add_text(&mut document, fields.tag, self.tag.as_str());
        add_text(&mut document, fields.tag_agg, self.tag.as_str());
        assert(document_entries(document) =~= document_of(self@, *fields));
        document
    }
}

/// The packs that are on show, by id.
pub struct LivePacks {
    rows: HashMap<i64, Pack>,
}

impl View for LivePacks {
    type V = Map<i64, Pack>;

    closed spec fn view(&self) -> Map<i64, Pack> {
        self.rows@
    }
}

impl LivePacks {
    /// Every row is filed under its own id, and no row is withheld.
    pub open spec fn wf(&self) -> bool {
        forall|id: i64| #[trigger]
            self@.contains_key(id) ==> self@[id].id == id && !self@[id]@.withheld()
    }

    /// A cache without rows.
    pub fn new() -> (live: Self)
        ensures
            live@ == Map::<i64, Pack>::empty(),
            live.wf(),
    {
        LivePacks { rows: HashMap::new() }
    }

    /// The number of packs on show.
    pub fn len(&self) -> (count: usize)
        ensures
            count == self@.len(),
            self@.dom().finite(),
    {
        self.rows.len()
    }
}

/// The vote counters of a pack: those on file, or zero.
pub fn vote_stats(votes: &HashMap<i64, VoteStats>, id: i64) -> (stats: VoteStats)
    ensures
        stats == votes_in(votes@, id),
{
    match votes.get(&id) {
        Some(stats) => *stats,
        None => VoteStats::default(),
    }
}

/// Replaces the vote table by the one that the counter rows stand for.
pub fn refresh_latest_votes(votes: &mut HashMap<i64, VoteStats>, rows: &Vec<CounterRow>)
    ensures
        final(votes)@ == votes_of_rows(rows@),
{
    *votes = process_rows(rows);
}

/// Replaces the table of trending keys.
pub fn set_pack_trending_data(trending: &mut HashMap<i64, i64>, data: HashMap<i64, i64>)
    ensures
        final(trending)@ == data@,
{
    *trending = data;
}

/// The pack on show under an id, if there is one.
pub fn get_pack_data(live: &LivePacks, id: i64) -> (row: Option<&Pack>)
    ensures
        live@.contains_key(id) ==> row == Some(&live@[id]),
        !live@.contains_key(id) ==> row.is_none(),
{
    live.rows.get(&id)
}

/// Takes a pack off show.
pub fn remove_pack_from_live(live: &mut LivePacks, pack_id: i64)
    ensures
        final(live)@ == old(live)@.remove(pack_id),
        old(live).wf() ==> final(live).wf(),
{
    live.rows.remove(&pack_id);
    proof {
        if old(live).wf() {
            assert forall|id: i64| #[trigger] live@.contains_key(id) implies live@[id].id == id
                && !live@[id]@.withheld() by {
                assert(old(live)@.contains_key(id));
            }
        }
    }
}

/// The cache after a row has arrived: a withheld row leaves the show, any
/// other row is put on show under its id.
pub open spec fn live_after(live: Map<i64, Pack>, pack: Pack) -> Map<i64, Pack> {
    if pack@.withheld() {
        live.remove(pack.id)
    } else {
        live.insert(pack.id, pack)
    }
}

/// Files a row that has arrived from the row store.
pub fn update_live_data(live: &mut LivePacks, pack: Pack)
    ensures
        final(live)@ == live_after(old(live)@, pack),
        old(live).wf() ==> final(live).wf(),
{
    if pack.withheld() {
        live.rows.remove(&pack.id);
    } else {
        live.rows.insert(pack.id, pack);
    }
    proof {
        if old(live).wf() {
            assert forall|id: i64| #[trigger] live@.contains_key(id) implies live@[id].id == id
                && !live@[id]@.withheld() by {
                if id != pack.id {
                    assert(old(live)@.contains_key(id));
                }
            }
        }
    }
}

/// The cache that a bulk scan of the row store stands for: the rows filed
/// one after the other, starting from nothing.
pub open spec fn live_of_rows(rows: Seq<Pack>) -> Map<i64, Pack>
    decreases rows.len(),
{
    if rows.len() == 0 {
        Map::empty()
    } else {
        live_after(live_of_rows(rows.drop_last()), rows.last())
    }
}

/// Replaces the cache as a whole by what a bulk scan returned.
pub fn refresh_latest_data(live: &mut LivePacks, rows: Vec<Pack>)
    ensures
        final(live)@ == live_of_rows(rows@),
        final(live).wf(),
{
    let mut fresh = LivePacks::new();
    let ghost all = rows@;
    for row in it: rows.into_iter()
        invariant
            it.seq() == all,
            fresh@ == live_of_rows(all.take(it.index() as int)),
            fresh.wf(),
    {
        proof {
            assert(all.take(it.index() + 1).drop_last() == all.take(it.index() as int));
        }
        update_live_data(&mut fresh, row);
    }
    proof {
        assert(all.take(all.len() as int) == all);
    }
    *live = fresh;
}

/// The ids of the packs on show, each once, in no particular order.
pub fn all_packs(live: &LivePacks) -> (ids: Vec<i64>)
    ensures
        ids@.no_duplicates(),
        ids@.to_set() == live@.dom(),
{
    let mut ids: Vec<i64> = Vec::new();
    let ghost keys: Seq<i64> = live.rows.keys().remaining().unref();
    proof {
        vstd::std_specs::hash::axiom_spec_keys_iter(&live.rows);
    }
    for id in it: live.rows.keys()
        invariant
            it.seq().unref() == keys,
            ids@ == keys.take(it.index() as int),
    {
        proof {
            assert(keys.take(it.index() + 1) == keys.take(it.index() as int).push(*id));
        }
        ids.push(*id);
    }
    proof {
        assert(keys.take(keys.len() as int) == keys);
    }
    ids
}

/// The likes of the running period that a table holds for an id.
pub fn get_pack_likes(votes: &HashMap<i64, VoteStats>, pack_id: i64) -> (count: u64)
    ensures
        count == votes_in(votes@, pack_id).votes,
{
    vote_stats(votes, pack_id).votes()
}

/// No pack is premium.
pub fn get_pack_premium(_pack_id: i64) -> (premium: bool)
    ensures
        !premium,
{
    false
}

/// The trending key of a pack. A key stands for a trending score: a higher
/// key is a higher score, and zero is the score of a pack that has none.
pub fn get_pack_trending_score(trending: &HashMap<i64, i64>, pack_id: i64) -> (key: i64)
    ensures
        key == trending_in(trending@, pack_id),
{
    match trending.get(&pack_id) {
        Some(key) => *key,
        None => 0,
    }
}

/// Whether a member of a pack is shown with it: the bot is on show and
/// is not kept out of packs.
pub open spec fn shown_in_pack(bots: Map<i64, Bot>) -> spec_fn(i64) -> bool {
    |id: i64| bots.contains_key(id) && !hidden_in(bots, id)
}

/// The number of bots that a pack on show is shown with, or zero.
pub open spec fn bot_count_in(packs: Map<i64, Pack>, bots: Map<i64, Bot>, id: i64) -> nat {
    if packs.contains_key(id) {
        packs[id].bots@.filter(shown_in_pack(bots)).len()
    } else {
        0
    }
}

/// The number of member bots that a pack is shown with; zero for a pack
/// that is not on show.
pub fn get_pack_bot_count(packs: &LivePacks, bots: &LiveBots, pack_id: i64) -> (count: u64)
    ensures
        count == bot_count_in(packs@, bots@, pack_id),
{
    match packs.rows.get(&pack_id) {
        Some(pack) => {
            let members = &pack.bots;
            let mut count: u64 = 0;
            let mut i: usize = 0;
            assert(members@.take(0).filter(shown_in_pack(bots@)).len() == 0) by {
                reveal(Seq::filter);
            }
            while i < members.len()
                invariant
                    i <= members.len(),
                    count == members@.take(i as int).filter(shown_in_pack(bots@)).len(),
                    count <= i,
                decreases members.len() - i,
            {
                proof {
                    reveal(Seq::filter);
                    assert(members@.take(i + 1).drop_last() == members@.take(i as int));
                }
                let member = members[i];
                if get_shown(bots, member) {
                    count += 1;
                }
                i += 1;
            }
            proof {
                assert(members@.take(members.len() as int) == members@);
            }
            count
        },
        None => 0,
    }
}

/// Whether a bot is shown with the packs it is in.
pub fn get_shown(bots: &LiveBots, id: i64) -> (shown: bool)
    ensures
        shown == shown_in_pack(bots@)(id),
{
    match get_bot_data(bots, id) {
        Some(_) => !is_hidden(bots, id),
        None => false,
    }
}

} // verus!
