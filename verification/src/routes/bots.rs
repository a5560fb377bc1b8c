//! The bot operations: the shape of a bot hit, of a bot search and of its
//! answer.

use crate::models::bots::{all_bots, get_bot_data, get_bot_votes, votes_in, Bot, BotView, LiveBots};
use crate::models::utils::{
    as_signed, copy_ids, copy_optional_text, copy_texts, signed_of, text_view, VoteStats,
};
use crate::routes::{
    check_limit, check_query, limit_in_order, limit_or_default, page_limit, query_in_order,
    query_or_wildcard, response_query, StandardResponse, MAX_OFFSET,
};
use crate::search::document::{document_entries, first_i64, first_i64_of};
use crate::search::index::IdTerm;
use crate::search::index_impls::bots::{refresh_ops, upsert_ops, BotIndex};
use crate::search::queries::{distribution_of, plan_of, query_view};
use crate::search::ranking::Order;
use crate::search::readers::bots::{
    aggregate_request_of, stage_request_of, BotFilter, BotsSortBy, InnerReader,
};
use crate::search::readers::{DocAddress, SearchResult, SearchRun, TagCount};
use crate::search::writer::{op_views, WriterOp, WriterOpView};
use crate::search::FromTantivyDoc;
use std::collections::HashMap;
use tantivy::Document;
use vstd::prelude::*;

verus! {

/// A bot as a search returns it.
#[derive(Debug)]
pub struct BotHit {
    /// The snowflake id of the bot.
    pub id: i64,
    /// The bot's username.
    pub username: String,
    /// The bot's avatar hash, if it has one.
    pub avatar: Option<String>,
    /// The bot's discriminator.
    pub discriminator: i32,
    /// The bot's prefix, if it has one.
    pub prefix: Option<String>,
    /// The listing's flags.
    pub flags: i64,
    /// The bot's features, one bit each.
    pub features: i64,
    /// The bot's tags.
    pub tags: Vec<String>,
    /// When the bot was created, in seconds since the epoch.
    pub created_on: i64,
    /// The bot's primary owner.
    pub owner_id: i64,
    /// The bot's co-owners.
    pub co_owner_ids: Vec<i64>,
    /// The number of guilds the bot is in, if known.
    pub guild_count: Option<i32>,
    /// The short description of the bot.
    pub brief_description: String,
    /// The votes of the running period, read as signed.
    pub votes: i64,
    /// The bot's invite url.
    pub invite_url: String,
}

/// What a bot hit says.
pub struct BotHitView {
    pub id: i64,
    pub username: Seq<char>,
    pub avatar: Option<Seq<char>>,
    pub discriminator: i32,
    pub prefix: Option<Seq<char>>,
    pub flags: i64,
    pub features: i64,
    pub tags: Seq<Seq<char>>,
    pub created_on: i64,
    pub owner_id: i64,
    pub co_owner_ids: Seq<i64>,
    pub guild_count: Option<i32>,
    pub brief_description: Seq<char>,
    pub votes: i64,
    pub invite_url: Seq<char>,
}

impl View for BotHit {
    type V = BotHitView;

    open spec fn view(&self) -> BotHitView {
        BotHitView {
            id: self.id,
            username: self.username@,
            avatar: text_view(self.avatar),
            discriminator: self.discriminator,
            prefix: text_view(self.prefix),
            flags: self.flags,
            features: self.features,
            tags: self.tags.deep_view(),
            created_on: self.created_on,
            owner_id: self.owner_id,
            co_owner_ids: self.co_owner_ids@,
            guild_count: self.guild_count,
            brief_description: self.brief_description@,
            votes: self.votes,
            invite_url: self.invite_url@,
        }
    }
}

/// The hit of a bot row with the given vote counters.
pub open spec fn bot_hit_of(bot: BotView, stats: VoteStats) -> BotHitView {
    BotHitView {
        id: bot.id,
        username: bot.username,
        avatar: bot.avatar,
        discriminator: bot.discriminator,
        prefix: bot.prefix,
        flags: bot.flags,
        features: bot.features,
        tags: bot.tags,
        created_on: bot.created_on,
        owner_id: bot.owner_id,
        co_owner_ids: bot.co_owner_ids,
        guild_count: bot.guild_count,
        brief_description: bot.brief_description,
        votes: signed_of(stats.votes),
        invite_url: bot.invite_url,
    }
}

/// The hit of the bot that is on show under an id, if there is one.
pub open spec fn hit_in(live: Map<i64, Bot>, votes: Map<i64, VoteStats>, id: i64) -> Option<
    BotHitView,
> {
    if live.contains_key(id) {
        Some(bot_hit_of(live[id]@, votes_in(votes, live[id].id)))
    } else {
        None
    }
}

/// The live data that bot hits are filled from.
pub struct BotSource<'a> {
    pub live: &'a LiveBots,
    pub votes: &'a HashMap<i64, VoteStats>,
}

impl BotHit {
    /// The hit of a row, with the votes that the table holds for it.
    pub fn from(bot: &Bot, votes: &HashMap<i64, VoteStats>) -> (hit: BotHit)
        ensures
            hit@ == bot_hit_of(bot@, votes_in(votes@, bot.id)),
    {
        BotHit {
            id: bot.id,
            username: bot.username.clone(),
            avatar: copy_optional_text(&bot.avatar),
            discriminator: bot.discriminator,
            prefix: copy_optional_text(&bot.prefix),
            flags: bot.flags,
            features: bot.features,
            tags: copy_texts(&bot.tags),
            created_on: bot.created_on,
            owner_id: bot.owner_id,
            co_owner_ids: copy_ids(&bot.co_owner_ids),
            guild_count: bot.guild_count,
            brief_description: bot.brief_description.clone(),
            votes: as_signed(get_bot_votes(votes, bot.id)),
            invite_url: bot.invite_url.clone(),
        }
    }
}

impl<'a> FromTantivyDoc<BotSource<'a>> for BotHit {
    open spec fn hit_of(source: &BotSource<'a>, id_field: u32, doc: Document) -> Option<BotHitView> {
        match first_i64_of(document_entries(doc), id_field) {
            Some(id) => hit_in(source.live@, source.votes@, id),
            None => None,
        }
    }

    fn from_doc(source: &BotSource<'a>, id_field: u32, doc: &Document) -> (hit: Option<BotHit>) {
        match first_i64(doc, id_field) {
            Some(id) => match get_bot_data(source.live, id) {
                Some(bot) => Some(BotHit::from(bot, source.votes)),
                None => None,
            },
            None => None,
        }
    }
}

/// A bot search as the transport hands it in.
#[derive(Debug)]
pub struct BotSearchPayload {
    /// The free text; absent for a search over everything.
    pub query: Option<String>,
    /// The size of the page; 20 when absent.
    pub limit: Option<usize>,
    /// How many hits to pass over first.
    pub offset: usize,
    /// The filter.
    pub filter: BotFilter,
    /// What to sort by.
    pub sort: BotsSortBy,
    /// The direction of the sort.
    pub order: Order,
}

impl BotSearchPayload {
    /// The free text of the request.
    pub open spec fn query_view(&self) -> Option<Seq<char>> {
        text_view(self.query)
    }

    /// A request is in order when its query has from 1 to 50 characters,
    /// its page has from 1 to 50 hits, its offset is 40000 at most, and
    /// its filter is in order.
    pub open spec fn valid(&self) -> bool {
        &&& query_in_order(self.query_view())
        &&& limit_in_order(self.limit)
        &&& self.offset <= MAX_OFFSET
        &&& self.filter@.valid()
    }

    /// Whether the request is in order.
    pub fn is_valid(&self) -> (valid: bool)
        ensures
            valid == self.valid(),
    {
        check_query(&self.query) && check_limit(self.limit) && self.offset <= MAX_OFFSET
            && self.filter.is_valid()
    }
}

/// The answer to a bot search.
#[derive(Debug)]
pub struct BotSearchResult {
    /// The page of hits.
    pub hits: Vec<BotHit>,
    /// The size of the page that was asked for.
    pub limit: usize,
    /// The number of hits passed over.
    pub offset: usize,
    /// The query that was searched for; `*` for a search over everything.
    pub query: String,
    /// The number of documents that matched.
    pub nb_hits: usize,
    /// How often each tag occurs among the documents that matched.
    pub tag_distribution: Vec<TagCount>,
}

/// The bot operations.
#[derive(Debug, Copy, Clone)]
pub struct BotApi;

/// The free text that a search is planned for.
pub open spec fn planned_query(query: &Option<String>) -> Option<Seq<char>> {
    text_view(*query)
}

impl BotApi {
    /// The ids of the bots on show, each once.
    pub fn get_bot_ids(&self, live: &LiveBots) -> (ids: Vec<i64>)
        ensures
            ids@.no_duplicates(),
            ids@.to_set() == live@.dom(),
    {
        all_bots(live)
    }

    /// The operations that an update puts to the writer, for the row that
    /// the row store gave under the bot's id; a bad request when it gave
    /// none.
    pub fn update_bot(&self, index: &BotIndex, fetched: Option<&Bot>) -> (ops: Result<
        Vec<WriterOp>,
        StandardResponse,
    >)
        ensures
            fetched.is_none() ==> ops == Err::<Vec<WriterOp>, StandardResponse>(
                StandardResponse::BadRequest,
            ),
            fetched.is_some() ==> ops.is_ok() && op_views(ops.unwrap()@) == upsert_ops(
                index.fields(),
                fetched.unwrap()@,
            ),
    {
        match index.upsert_bot(fetched) {
            Ok(ops) => Ok(ops),
            Err(_) => Err(StandardResponse::BadRequest),
        }
    }

    /// The operation that a removal puts to the writer. The id comes from
    /// the path unsigned and is read as signed.
    pub fn remove_bot(&self, index: &BotIndex, id: u64) -> (op: WriterOp)
        ensures
            op@ == WriterOpView::RemoveDocuments(
                IdTerm { field: index.fields().id, id: signed_of(id) },
            ),
    {
        index.remove_bot(as_signed(id))
    }

    /// The operations that a full refresh puts to the writer.
    pub fn refresh_bots(&self, index: &BotIndex, rows: &Vec<Bot>) -> (ops: Vec<WriterOp>)
        ensures
            op_views(ops@) == refresh_ops(index.fields(), rows@),
    {
        index.full_refresh(rows)
    }

    /// The answer to a search that matched nothing.
    pub fn empty_answer(&self, payload: &BotSearchPayload) -> (answer: BotSearchResult)
        ensures
            answer.hits@.len() == 0,
            answer.tag_distribution@.len() == 0,
            answer.nb_hits == 0,
            answer.limit == limit_or_default(payload.limit),
            answer.offset == payload.offset,
            answer.query@ == query_or_wildcard(payload.query_view()),
    {
        BotSearchResult {
            hits: Vec::new(),
            limit: page_limit(payload.limit),
            offset: payload.offset,
            query: response_query(&payload.query),
            nb_hits: 0,
            tag_distribution: Vec::new(),
        }
    }

    /// Sets up the search of a request that is in order. A request that is
    /// not in order is answered at once, with nothing found.
    pub fn search(&self, reader: &InnerReader, payload: &BotSearchPayload) -> (started: Result<
        SearchRun<BotsSortBy>,
        BotSearchResult,
    >)
        ensures
            started.is_ok() == payload.valid(),
            started matches Ok(run) ==> {
                &&& run.wf()
                &&& run.limit() == limit_or_default(payload.limit)
                &&& run.offset() == payload.offset
                &&& run.answered() == 0
                &&& run.found() == Seq::<DocAddress>::empty()
                &&& run.stages().len() == plan_of(
                    payload.query_view(),
                    reader.search_fields(),
                ).len()
                &&& forall|i: int|
                    0 <= i < run.stages().len() ==> (#[trigger] run.stages()[i])@
                        == stage_request_of(
                        reader.ctx(),
                        payload.filter@,
                        plan_of(payload.query_view(), reader.search_fields())[i],
                        (limit_or_default(payload.limit) + payload.offset) as usize,
                        payload.sort,
                        payload.order,
                    )
                &&& run.aggregate()@ == aggregate_request_of(
                    reader.ctx(),
                    payload.filter@,
                    distribution_of(payload.query_view(), reader.search_fields()),
                )
            },
            started matches Err(answer) ==> {
                &&& answer.hits@.len() == 0
                &&& answer.tag_distribution@.len() == 0
                &&& answer.nb_hits == 0
                &&& answer.limit == limit_or_default(payload.limit)
                &&& answer.offset == payload.offset
                &&& answer.query@ == query_or_wildcard(payload.query_view())
            },
    {
        if !payload.is_valid() {
            return Err(self.empty_answer(payload));
        }
        let limit = page_limit(payload.limit);
        let query: Option<&str> = match &payload.query {
            Some(text) => Some(text.as_str()),
            None => None,
        };
        assert(query_view(query) == payload.query_view());
        Ok(
            reader.search(
                query,
                &payload.filter,
                limit,
                payload.offset,
                payload.sort,
                payload.order,
            ),
        )
    }

    /// The answer to a search that has run.
    pub fn answer(&self, payload: &BotSearchPayload, result: SearchResult<BotHit>) -> (answer:
        BotSearchResult)
        ensures
            answer.hits == result.hits,
            answer.nb_hits == result.total,
            answer.tag_distribution == result.distribution,
            answer.limit == limit_or_default(payload.limit),
            answer.offset == payload.offset,
            answer.query@ == query_or_wildcard(payload.query_view()),
    {
        BotSearchResult {
            hits: result.hits,
            limit: page_limit(payload.limit),
            offset: payload.offset,
            query: response_query(&payload.query),
            nb_hits: result.total,
            tag_distribution: result.distribution,
        }
    }
}

} // verus!
