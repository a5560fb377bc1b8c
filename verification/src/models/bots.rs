//! Bot rows, the live cache of the rows that are on show, and the tables
//! that bots are ranked by.

use crate::models::utils::{
    as_unsigned, process_rows, text_view, unsigned_of, votes_of_rows, CounterRow, VoteStats,
};
use crate::search::document::{
    add_i64, add_text, add_u64, document_entries, new_document, FieldEntry, FieldValue,
};
use crate::search::index_impls::bots::BotFields;
use std::collections::HashMap;
use tantivy::Document;
use vstd::std_specs::iter::IteratorSpec;
use vstd::prelude::*;

verus! {

/// The bit of `flags` that marks a premium bot.
pub const PREMIUM: i64 = 1;

/// A bot as the row store holds it.
#[derive(Debug)]
pub struct Bot {
    /// The snowflake id of the bot.
    pub id: i64,
    /// The bot's username.
    pub username: String,
    /// The bot's avatar hash, if it has one.
    pub avatar: Option<String>,
    /// The bot's discriminator.
    pub discriminator: i32,
    /// The bot's prefix, if it has one.
    pub prefix: Option<String>,
    /// Whether the bot may be put in a pack.
    pub is_packable: bool,
    /// The slug under which the bot can be reached, if it has one.
    pub slug: Option<String>,
    /// The listing's flags; bit 0 marks a premium bot.
    pub flags: i64,
    /// The bot's features, one bit each.
    pub features: i64,
    /// The bot's invite url.
    pub invite_url: String,
    /// The bot's tags.
    pub tags: Vec<String>,
    /// When the bot was created, in seconds since the epoch.
    pub created_on: i64,
    /// Whether the owner has hidden the bot.
    pub is_hidden: bool,
    /// Whether an admin has hidden the bot.
    pub is_forced_into_hiding: bool,
    /// The bot's primary owner.
    pub owner_id: i64,
    /// The bot's co-owners.
    pub co_owner_ids: Vec<i64>,
    /// The number of guilds the bot is in, if known.
    pub guild_count: Option<i32>,
    /// The short description of the bot.
    pub brief_description: String,
}

/// What a bot row says.
pub struct BotView {
    pub id: i64,
    pub username: Seq<char>,
    pub avatar: Option<Seq<char>>,
    pub discriminator: i32,
    pub prefix: Option<Seq<char>>,
    pub is_packable: bool,
    pub slug: Option<Seq<char>>,
    pub flags: i64,
    pub features: i64,
    pub invite_url: Seq<char>,
    pub tags: Seq<Seq<char>>,
    pub created_on: i64,
    pub is_hidden: bool,
    pub is_forced_into_hiding: bool,
    pub owner_id: i64,
    pub co_owner_ids: Seq<i64>,
    pub guild_count: Option<i32>,
    pub brief_description: Seq<char>,
}

impl View for Bot {
    type V = BotView;

    open spec fn view(&self) -> BotView {
        BotView {
            id: self.id,
            username: self.username@,
            avatar: text_view(self.avatar),
            discriminator: self.discriminator,
            prefix: text_view(self.prefix),
            is_packable: self.is_packable,
            slug: text_view(self.slug),
            flags: self.flags,
            features: self.features,
            invite_url: self.invite_url@,
            tags: self.tags.deep_view(),
            created_on: self.created_on,
            is_hidden: self.is_hidden,
            is_forced_into_hiding: self.is_forced_into_hiding,
            owner_id: self.owner_id,
            co_owner_ids: self.co_owner_ids@,
            guild_count: self.guild_count,
            brief_description: self.brief_description@,
        }
    }
}

impl BotView {
    /// A row is withheld from the listing when its owner or an admin has
    /// hidden it.
    pub open spec fn withheld(self) -> bool {
        self.is_hidden || self.is_forced_into_hiding
    }

    /// Whether bit 0 of the flags is set.
    pub open spec fn premium(self) -> bool {
        self.flags & PREMIUM != 0
    }

    /// The guild count as a ranking key: zero when unknown, else the count
    /// widened to 64 bits and read as unsigned.
    pub open spec fn popularity(self) -> u64 {
        match self.guild_count {
            Some(count) => unsigned_of(count as i64),
            None => 0,
        }
    }
}

impl Bot {
    /// Whether the owner or an admin has hidden the row.
    pub fn withheld(&self) -> (hidden: bool)
        ensures
            hidden == self@.withheld(),
    {
        self.is_hidden || self.is_forced_into_hiding
    }

    /// Whether the row is flagged premium.
    pub fn premium(&self) -> (premium: bool)
        ensures
            premium == self@.premium(),
    {
        (self.flags & PREMIUM) != 0
    }
}

/// The two entries of a tag: the tag under the text field and under the
/// aggregation field.
pub open spec fn tag_entries(tag: Seq<char>, fields: BotFields) -> Seq<FieldEntry> {
    seq![
        FieldEntry { field: fields.tags, value: FieldValue::Text(tag) },
        FieldEntry { field: fields.tags_agg, value: FieldValue::Text(tag) },
    ]
}

/// The entries of a run of tags, tag by tag.
pub open spec fn tags_entries(tags: Seq<Seq<char>>, fields: BotFields) -> Seq<FieldEntry>
    decreases tags.len(),
{
    if tags.len() == 0 {
        Seq::empty()
    } else {
        tags_entries(tags.drop_last(), fields) + tag_entries(tags.last(), fields)
    }
}

/// The entries of a bot's document: the id; the premium flag, 1 or 0; the
/// username; the short description; the feature bits, read as unsigned;
/// then the tags.
pub open spec fn document_of(bot: BotView, fields: BotFields) -> Seq<FieldEntry> {
    seq![
        FieldEntry { field: fields.id, value: FieldValue::I64(bot.id) },
        FieldEntry {
            field: fields.premium,
            value: FieldValue::U64(
                if bot.premium() {
                    1
                } else {
                    0
                },
            ),
        },
        FieldEntry { field: fields.username, value: FieldValue::Text(bot.username) },
        FieldEntry { field: fields.description, value: FieldValue::Text(bot.brief_description) },
        FieldEntry { field: fields.features, value: FieldValue::U64(unsigned_of(bot.features)) },
    ] + tags_entries(bot.tags, fields)
}

impl Bot {
    /// The document that the index holds for the bot.
    pub fn as_tantivy_doc(&self, fields: &BotFields) -> (document: Document)
        ensures
            document_entries(document) == document_of(self@, *fields),
    {
        let mut document = new_document();
        add_i64(&mut document, fields.id, self.id);
        let flag: u64 = if self.premium() {
            1
        } else {
            0
        };
        add_u64(&mut document, fields.premium, flag);
        add_text(&mut document, fields.username, self.username.as_str());
        add_text(&mut document, fields.description, self.brief_description.as_str());
        add_u64(&mut document, fields.features, as_unsigned(self.features));
        let ghost head = document_entries(document);
        let ghost tags = self.tags.deep_view();
        assert(head =~= document_of(self@, *fields).take(5));
        let mut i: usize = 0;
        while i < self.tags.len()
            invariant
                i <= self.tags.len(),
                tags == self.tags.deep_view(),
                document_entries(document) == head + tags_entries(tags.take(i as int), *fields),
            decreases self.tags.len() - i,
        {
            let ghost before = document_entries(document);
            add_text(&mut document, fields.tags, self.tags[i].as_str());
            add_text(&mut document, fields.tags_agg, self.tags[i].as_str());
            proof {
                assert(tags.take(i + 1).drop_last() == tags.take(i as int));
                assert(document_entries(document) =~= before + tag_entries(tags[i as int], *fields));
            }
            i += 1;
        }
        proof {
            assert(tags.take(tags.len() as int) == tags);
        }
        document
    }
}

/// The rows that are on show, by id.
pub struct LiveBots {
    rows: HashMap<i64, Bot>,
}

impl View for LiveBots {
    type V = Map<i64, Bot>;

    closed spec fn view(&self) -> Map<i64, Bot> {
        self.rows@
    }
}

impl LiveBots {
    /// Every row is filed under its own id, and no row is withheld.
    pub open spec fn wf(&self) -> bool {
        forall|id: i64| #[trigger]
            self@.contains_key(id) ==> self@[id].id == id && !self@[id]@.withheld()
    }

    /// A cache without rows.
    pub fn new() -> (live: Self)
        ensures
            live@ == Map::<i64, Bot>::empty(),
            live.wf(),
    {
        LiveBots { rows: HashMap::new() }
    }

    /// The number of rows on show.
    pub fn len(&self) -> (count: usize)
        ensures
            count == self@.len(),
            self@.dom().finite(),
    {
        self.rows.len()
    }
}

/// The counters that a vote table holds for an id: those on file, or zero.
pub open spec fn votes_in(table: Map<i64, VoteStats>, id: i64) -> VoteStats {
    if table.contains_key(id) {
        table[id]
    } else {
        VoteStats::zero()
    }
}

/// The vote counters of a bot: those on file, or zero.
pub fn vote_stats(votes: &HashMap<i64, VoteStats>, id: i64) -> (stats: VoteStats)
    ensures
        stats == votes_in(votes@, id),
{
    match votes.get(&id) {
        Some(stats) => *stats,
        None => VoteStats::default(),
    }
}

/// Replaces the vote table by the one that the counter rows stand for.
pub fn refresh_latest_votes(votes: &mut HashMap<i64, VoteStats>, rows: &Vec<CounterRow>)
    ensures
        final(votes)@ == votes_of_rows(rows@),
{
    *votes = process_rows(rows);
}

/// Replaces the table of trending keys.
pub fn set_bot_trending_data(trending: &mut HashMap<i64, i64>, data: HashMap<i64, i64>)
    ensures
        final(trending)@ == data@,
{
    *trending = data;
}

/// The row on show under an id, if there is one.
pub fn get_bot_data(live: &LiveBots, id: i64) -> (row: Option<&Bot>)
    ensures
        live@.contains_key(id) ==> row == Some(&live@[id]),
        !live@.contains_key(id) ==> row.is_none(),
{
    live.rows.get(&id)
}

/// Whether a bot on show is kept out of packs: it is not packable, or it is
/// withheld. A bot that is not on show is not reported here.
pub open spec fn hidden_in(live: Map<i64, Bot>, id: i64) -> bool {
    live.contains_key(id) && (!live[id].is_packable || live[id]@.withheld())
}

/// Whether a bot on show is kept out of packs.
pub fn is_hidden(live: &LiveBots, id: i64) -> (hidden: bool)
    ensures
        hidden == hidden_in(live@, id),
{
    match live.rows.get(&id) {
        Some(row) => !row.is_packable || row.is_hidden || row.is_forced_into_hiding,
        None => false,
    }
}

/// Takes a bot off show.
pub fn remove_bot_from_live(live: &mut LiveBots, bot_id: i64)
    ensures
        final(live)@ == old(live)@.remove(bot_id),
        old(live).wf() ==> final(live).wf(),
{
    live.rows.remove(&bot_id);
    proof {
        if old(live).wf() {
            assert forall|id: i64| #[trigger] live@.contains_key(id) implies live@[id].id == id
                && !live@[id]@.withheld() by {
                assert(old(live)@.contains_key(id));
            }
        }
    }
}

/// The cache after a row has arrived: a withheld row leaves the show, any
/// other row is put on show under its id.
pub open spec fn live_after(live: Map<i64, Bot>, bot: Bot) -> Map<i64, Bot> {
    if bot@.withheld() {
        live.remove(bot.id)
    } else {
        live.insert(bot.id, bot)
    }
}

/// Files a row that has arrived from the row store.
pub fn update_live_data(live: &mut LiveBots, bot: Bot)
    ensures
        final(live)@ == live_after(old(live)@, bot),
        old(live).wf() ==> final(live).wf(),
{
    if bot.withheld() {
        live.rows.remove(&bot.id);
    } else {
        live.rows.insert(bot.id, bot);
    }
    proof {
        if old(live).wf() {
            assert forall|id: i64| #[trigger] live@.contains_key(id) implies live@[id].id == id
                && !live@[id]@.withheld() by {
                if id != bot.id {
                    assert(old(live)@.contains_key(id));
                }
            }
        }
    }
}

/// The cache that a bulk scan of the row store stands for: the rows filed
/// one after the other, starting from nothing.
pub open spec fn live_of_rows(rows: Seq<Bot>) -> Map<i64, Bot>
    decreases rows.len(),
{
    if rows.len() == 0 {
        Map::empty()
    } else {
        live_after(live_of_rows(rows.drop_last()), rows.last())
    }
}

/// Replaces the cache as a whole by what a bulk scan returned.
pub fn refresh_latest_data(live: &mut LiveBots, rows: Vec<Bot>)
    ensures
        final(live)@ == live_of_rows(rows@),
        final(live).wf(),
{
    let mut fresh = LiveBots::new();
    let ghost all = rows@;
    for row in it: rows.into_iter()
        invariant
            it.seq() == all,
            fresh@ == live_of_rows(all.take(it.index() as int)),
            fresh.wf(),
    {
        proof {
            assert(all.take(it.index() + 1).drop_last() == all.take(it.index() as int));
        }
        update_live_data(&mut fresh, row);
    }
    proof {
        assert(all.take(all.len() as int) == all);
    }
    *live = fresh;
}

/// The ids of the rows on show, each once, in no particular order.
pub fn all_bots(live: &LiveBots) -> (ids: Vec<i64>)
    ensures
        ids@.no_duplicates(),
        ids@.to_set() == live@.dom(),
{
    let mut ids: Vec<i64> = Vec::new();
    let ghost keys: Seq<i64> = live.rows.keys().remaining().unref();
    proof {
        vstd::std_specs::hash::axiom_spec_keys_iter(&live.rows);
    }
    for id in it: live.rows.keys()
        invariant
            it.seq().unref() == keys,
            ids@ == keys.take(it.index() as int),
    {
        proof {
            assert(keys.take(it.index() + 1) == keys.take(it.index() as int).push(*id));
        }
        ids.push(*id);
    }
    proof {
        assert(keys.take(keys.len() as int) == keys);
    }
    ids
}

/// The votes of the running period that a table holds for an id.
pub fn get_bot_votes(votes: &HashMap<i64, VoteStats>, bot_id: i64) -> (count: u64)
    ensures
        count == votes_in(votes@, bot_id).votes,
{
    vote_stats(votes, bot_id).votes()
}

/// Whether the bot is on show and flagged premium.
pub open spec fn premium_in(live: Map<i64, Bot>, id: i64) -> bool {
    live.contains_key(id) && live[id]@.premium()
}

/// Whether the bot is on show and flagged premium.
pub fn get_bot_premium(live: &LiveBots, bot_id: i64) -> (premium: bool)
    ensures
        premium == premium_in(live@, bot_id),
{
    match live.rows.get(&bot_id) {
        Some(row) => row.premium(),
        None => false,
    }
}

/// The trending key on file for an id, or zero.
pub open spec fn trending_in(table: Map<i64, i64>, id: i64) -> i64 {
    if table.contains_key(id) {
        table[id]
    } else {
        0
    }
}

/// The trending key of a bot. A key stands for a trending score: a higher
/// key is a higher score, and zero is the score of a bot that has none.
pub fn get_bot_trending_score(trending: &HashMap<i64, i64>, bot_id: i64) -> (key: i64)
    ensures
        key == trending_in(trending@, bot_id),
{
    match trending.get(&bot_id) {
        Some(key) => *key,
        None => 0,
    }
}

/// When the bot on show was created, or zero.
pub open spec fn age_in(live: Map<i64, Bot>, id: i64) -> i64 {
    if live.contains_key(id) {
        live[id].created_on
    } else {
        0
    }
}

/// When the bot was created, in seconds since the epoch; zero for a bot
/// that is not on show.
pub fn get_bot_age(live: &LiveBots, bot_id: i64) -> (seconds: i64)
    ensures
        seconds == age_in(live@, bot_id),
{
    match live.rows.get(&bot_id) {
        Some(row) => row.created_on,
        None => 0,
    }
}

/// The popularity key of the bot on show, or zero.
pub open spec fn guild_count_in(live: Map<i64, Bot>, id: i64) -> u64 {
    if live.contains_key(id) {
        live[id]@.popularity()
    } else {
        0
    }
}

/// The number of guilds the bot is in, as a ranking key; zero for a bot
/// that is not on show or whose count is unknown.
pub fn get_bot_guild_count(live: &LiveBots, bot_id: i64) -> (count: u64)
    ensures
        count == guild_count_in(live@, bot_id),
{
    match live.rows.get(&bot_id) {
        Some(row) => match row.guild_count {
            Some(count) => as_unsigned(count as i64),
            None => 0,
        },
        None => 0,
    }
}

} // verus!
