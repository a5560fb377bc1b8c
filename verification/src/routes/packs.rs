//! The pack operations: the shape of a pack hit, of a pack search and of
//! its answer.

use crate::models::bots::{get_bot_data, votes_in, Bot, LiveBots};
use crate::models::packs::{
    all_packs, get_pack_data, get_pack_likes, get_shown, shown_in_pack, LivePacks, Pack,
    PackView,
};
use crate::models::utils::{as_signed, copy_ids, signed_of, text_view, VoteStats};
use crate::routes::bots::{bot_hit_of, BotHit, BotHitView};
use crate::routes::{
    check_limit, check_query, limit_in_order, limit_or_default, page_limit, query_in_order,
    query_or_wildcard, response_query, StandardResponse, MAX_OFFSET,
};
use crate::search::document::{document_entries, first_i64, first_i64_of};
use crate::search::index::IdTerm;
use crate::search::index_impls::packs::{refresh_ops, upsert_ops, PackIndex};
use crate::search::queries::{distribution_of, plan_of, query_view};
use crate::search::ranking::Order;
use crate::search::readers::packs::{
    aggregate_request_of, stage_request_of, InnerReader, PackFilter, PacksSortBy,
};
use crate::search::readers::{hit_views, DocAddress, SearchResult, SearchRun, TagCount};
use crate::search::writer::{op_views, WriterOp, WriterOpView};
use crate::search::FromTantivyDoc;
use std::collections::HashMap;
use tantivy::Document;
use vstd::prelude::*;

verus! {

/// A pack as a search returns it.
#[derive(Debug)]
pub struct PackHit {
    /// The id of the pack.
    pub id: i64,
    /// The name of the pack.
    pub name: String,
    /// The description of the pack.
    pub description: String,
    /// When the pack was created, in seconds since the epoch.
    pub created_on: i64,
    /// The tag of the pack.
    pub tag: String,
    /// The bots that the pack is shown with, in the pack's order.
    pub bots: Vec<BotHit>,
    /// The pack's primary owner.
    pub owner_id: i64,
    /// The pack's co-owners.
    pub co_owner_ids: Vec<i64>,
    /// The likes of the running period, read as signed.
    pub likes: i64,
}

/// What a pack hit says.
pub struct PackHitView {
    pub id: i64,
    pub name: Seq<char>,
    pub description: Seq<char>,
    pub created_on: i64,
    pub tag: Seq<char>,
    pub bots: Seq<BotHitView>,
    pub owner_id: i64,
    pub co_owner_ids: Seq<i64>,
    pub likes: i64,
}

impl View for PackHit {
    type V = PackHitView;

    open spec fn view(&self) -> PackHitView {
        PackHitView {
            id: self.id,
            name: self.name@,
            description: self.description@,
            created_on: self.created_on,
            tag: self.tag@,
            bots: hit_views(self.bots@),
            owner_id: self.owner_id,
            co_owner_ids: self.co_owner_ids@,
            likes: self.likes,
        }
    }
}

/// The hits of the members of a pack: one for each member that is shown
/// with the pack, in the pack's order. A member that is not on show, not
/// packable or withheld has none.
pub open spec fn member_hits(
    members: Seq<i64>,
    bots: Map<i64, Bot>,
    bot_votes: Map<i64, VoteStats>,
) -> Seq<BotHitView>
    decreases members.len(),
{
    if members.len() == 0 {
        Seq::empty()
    } else {
        let before = member_hits(members.drop_last(), bots, bot_votes);
        let member = members.last();
        if shown_in_pack(bots)(member) {
            before.push(bot_hit_of(bots[member]@, votes_in(bot_votes, bots[member].id)))
        } else {
            before
        }
    }
}

/// A pack is shown with as many bots as the ranking by bot count counts
/// for it.
pub proof fn lemma_member_hits_count(
    members: Seq<i64>,
    bots: Map<i64, Bot>,
    bot_votes: Map<i64, VoteStats>,
)
    ensures
        member_hits(members, bots, bot_votes).len() == members.filter(shown_in_pack(bots)).len(),
    decreases members.len(),
{
    reveal(Seq::filter);
    if members.len() > 0 {
        lemma_member_hits_count(members.drop_last(), bots, bot_votes);
    }
}

/// The hit of a pack row with the given likes and the bots on show.
pub open spec fn pack_hit_of(
    pack: PackView,
    stats: VoteStats,
    bots: Map<i64, Bot>,
    bot_votes: Map<i64, VoteStats>,
) -> PackHitView {
    PackHitView {
        id: pack.id,
        name: pack.name,
        description: pack.description,
        created_on: pack.created_on,
        tag: pack.tag,
        bots: member_hits(pack.bots, bots, bot_votes),
        owner_id: pack.owner_id,
        co_owner_ids: pack.co_owner_ids,
        likes: signed_of(stats.votes),
    }
}

/// The live data that pack hits are filled from.
pub struct PackSource<'a> {
    pub live: &'a LivePacks,
    pub votes: &'a HashMap<i64, VoteStats>,
    pub bots: &'a LiveBots,
    pub bot_votes: &'a HashMap<i64, VoteStats>,
}

/// The hit of the pack that is on show under an id, if there is one. The
/// likes are those on file under the id.
pub open spec fn hit_in(
    live: Map<i64, Pack>,
    votes: Map<i64, VoteStats>,
    bots: Map<i64, Bot>,
    bot_votes: Map<i64, VoteStats>,
    id: i64,
) -> Option<PackHitView> {
    if live.contains_key(id) {
        Some(pack_hit_of(live[id]@, votes_in(votes, id), bots, bot_votes))
    } else {
        None
    }
}

/// Fills the hits of the members of a pack.
pub fn hydrate_members(members: &Vec<i64>, bots: &LiveBots, bot_votes: &HashMap<i64, VoteStats>) -> (hits:
    Vec<BotHit>)
    ensures
        hit_views(hits@) == member_hits(members@, bots@, bot_votes@),
{
    let mut hits: Vec<BotHit> = Vec::new();
    let mut i: usize = 0;
    assert(hit_views(hits@) =~= member_hits(members@.take(0), bots@, bot_votes@));
    while i < members.len()
        invariant
            i <= members.len(),
            hit_views(hits@) == member_hits(members@.take(i as int), bots@, bot_votes@),
        decreases members.len() - i,
    {
        let ghost before = hit_views(hits@);
        proof {
            assert(members@.take(i + 1).drop_last() == members@.take(i as int));
        }
        let member = members[i];
        if get_shown(bots, member) {
            match get_bot_data(bots, member) {
                Some(bot) => {
                    let hit = BotHit::from(bot, bot_votes);
                    hits.push(hit);
                    assert(hit_views(hits@) =~= before.push(hit@));
                },
                None => {},
            }
        }
        i += 1;
    }
    proof {
        assert(members@.take(members.len() as int) == members@);
    }
    hits
}

impl<'a> FromTantivyDoc<PackSource<'a>> for PackHit {
    open spec fn hit_of(source: &PackSource<'a>, id_field: u32, doc: Document) -> Option<
        PackHitView,
    > {
        match first_i64_of(document_entries(doc), id_field) {
            Some(id) => hit_in(
                source.live@,
                source.votes@,
                source.bots@,
                source.bot_votes@,
                id,
            ),
            None => None,
        }
    }

    fn from_doc(source: &PackSource<'a>, id_field: u32, doc: &Document) -> (hit: Option<PackHit>) {
        match first_i64(doc, id_field) {
            Some(id) => {
                let likes = get_pack_likes(source.votes, id);
                match get_pack_data(source.live, id) {
                    Some(pack) => Some(
                        PackHit {
                            id: pack.id,
                            name: pack.name.clone(),
                            description: pack.description.clone(),
                            created_on: pack.created_on,
                            tag: pack.tag.clone(),
                            bots: hydrate_members(&pack.bots, source.bots, source.bot_votes),
                            owner_id: pack.owner_id,
                            co_owner_ids: copy_ids(&pack.co_owner_ids),
                            likes: as_signed(likes),
                        },
                    ),
                    None => None,
                }
            },
            None => None,
        }
    }
}

/// A pack search as the transport hands it in.
#[derive(Debug)]
pub struct PackSearchPayload {
    /// The free text; absent for a search over everything.
    pub query: Option<String>,
    /// The size of the page; 20 when absent.
    pub limit: Option<usize>,
    /// How many hits to pass over first.
    pub offset: usize,
    /// The filter.
    pub filter: PackFilter,
    /// What to sort by.
    pub sort: PacksSortBy,
    /// The direction of the sort.
    pub order: Order,
}

impl PackSearchPayload {
    /// The free text of the request.
    pub open spec fn query_view(&self) -> Option<Seq<char>> {
        text_view(self.query)
    }

    /// A request is in order when its query has from 1 to 50 characters,
    /// its page has from 1 to 50 hits, its offset is 40000 at most, and
    /// its filter is in order.
    pub open spec fn valid(&self) -> bool {
        &&& query_in_order(self.query_view())
        &&& limit_in_order(self.limit)
        &&& self.offset <= MAX_OFFSET
        &&& self.filter.valid()
    }

    /// Whether the request is in order.
    pub fn is_valid(&self) -> (valid: bool)
        ensures
            valid == self.valid(),
    {
        check_query(&self.query) && check_limit(self.limit) && self.offset <= MAX_OFFSET
            && self.filter.is_valid()
    }
}

/// The answer to a pack search.
#[derive(Debug)]
pub struct PackSearchResult {
    /// The page of hits.
    pub hits: Vec<PackHit>,
    /// The size of the page that was asked for.
    pub limit: usize,
    /// The number of hits passed over.
    pub offset: usize,
    /// The query that was searched for; `*` for a search over everything.
    pub query: String,
    /// The number of documents that matched.
    pub nb_hits: usize,
    /// How often each category occurs among the documents that matched.
    pub tag_distribution: Vec<TagCount>,
}

/// The pack operations.
#[derive(Debug, Copy, Clone)]
pub struct PackApi;

impl PackApi {
    /// The ids of the packs on show, each once.
    pub fn get_pack_ids(&self, live: &LivePacks) -> (ids: Vec<i64>)
        ensures
            ids@.no_duplicates(),
            ids@.to_set() == live@.dom(),
    {
        all_packs(live)
    }

    /// The operations that an update puts to the writer, for the row that
    /// the row store gave under the pack's id; a bad request when it gave
    /// none.
    pub fn update_pack(&self, index: &PackIndex, fetched: Option<&Pack>) -> (ops: Result<
        Vec<WriterOp>,
        StandardResponse,
    >)
        ensures
            fetched.is_none() ==> ops == Err::<Vec<WriterOp>, StandardResponse>(
                StandardResponse::BadRequest,
            ),
            fetched.is_some() ==> ops.is_ok() && op_views(ops.unwrap()@) == upsert_ops(
                index.fields(),
                fetched.unwrap()@,
            ),
    {
        match index.upsert_pack(fetched) {
            Ok(ops) => Ok(ops),
            Err(_) => Err(StandardResponse::BadRequest),
        }
    }

    /// The operation that a removal puts to the writer. The id comes from
    /// the path unsigned and is read as signed.
    pub fn remove_pack(&self, index: &PackIndex, id: u64) -> (op: WriterOp)
        ensures
            op@ == WriterOpView::RemoveDocuments(
                IdTerm { field: index.fields().id, id: signed_of(id) },
            ),
    {
        index.remove_pack(as_signed(id))
    }

    /// The operations that a full refresh puts to the writer.
    pub fn refresh_packs(&self, index: &PackIndex, rows: &Vec<Pack>) -> (ops: Vec<WriterOp>)
        ensures
            op_views(ops@) == refresh_ops(index.fields(), rows@),
    {
        index.full_refresh(rows)
    }

    /// The answer to a search that matched nothing.
    pub fn empty_answer(&self, payload: &PackSearchPayload) -> (answer: PackSearchResult)
        ensures
            answer.hits@.len() == 0,
            answer.tag_distribution@.len() == 0,
            answer.nb_hits == 0,
            answer.limit == limit_or_default(payload.limit),
            answer.offset == payload.offset,
            answer.query@ == query_or_wildcard(payload.query_view()),
    {
        PackSearchResult {
            hits: Vec::new(),
            limit: page_limit(payload.limit),
            offset: payload.offset,
            query: response_query(&payload.query),
            nb_hits: 0,
            tag_distribution: Vec::new(),
        }
    }

    /// Sets up the search of a request that is in order. A request that is
    /// not in order is answered at once, with nothing found.
    pub fn search(&self, reader: &InnerReader, payload: &PackSearchPayload) -> (started: Result<
        SearchRun<PacksSortBy>,
        PackSearchResult,
    >)
        ensures
            started.is_ok() == payload.valid(),
            started matches Ok(run) ==> {
                &&& run.wf()
                &&& run.limit() == limit_or_default(payload.limit)
                &&& run.offset() == payload.offset
                &&& run.answered() == 0
                &&& run.found() == Seq::<DocAddress>::empty()
                &&& run.stages().len() == plan_of(
                    payload.query_view(),
                    reader.search_fields(),
                ).len()
                &&& forall|i: int|
                    0 <= i < run.stages().len() ==> (#[trigger] run.stages()[i])@
                        == stage_request_of(
                        reader.ctx(),
                        payload.filter.category_view(),
                        plan_of(payload.query_view(), reader.search_fields())[i],
                        (limit_or_default(payload.limit) + payload.offset) as usize,
                        payload.sort,
                        payload.order,
                    )
                &&& run.aggregate()@ == aggregate_request_of(
                    reader.ctx(),
                    payload.filter.category_view(),
                    distribution_of(payload.query_view(), reader.search_fields()),
                )
            },
            started matches Err(answer) ==> {
                &&& answer.hits@.len() == 0
                &&& answer.tag_distribution@.len() == 0
                &&& answer.nb_hits == 0
                &&& answer.limit == limit_or_default(payload.limit)
                &&& answer.offset == payload.offset
                &&& answer.query@ == query_or_wildcard(payload.query_view())
            },
    {
        if !payload.is_valid() {
            return Err(self.empty_answer(payload));
        }
        let limit = page_limit(payload.limit);
        let query: Option<&str> = match &payload.query {
            Some(text) => Some(text.as_str()),
            None => None,
        };
        assert(query_view(query) == payload.query_view());
        Ok(
            reader.search(
                query,
                &payload.filter,
                limit,
                payload.offset,
                payload.sort,
                payload.order,
            ),
        )
    }

    /// The answer to a search that has run.
    pub fn answer(&self, payload: &PackSearchPayload, result: SearchResult<PackHit>) -> (answer:
        PackSearchResult)
        ensures
            answer.hits == result.hits,
            answer.nb_hits == result.total,
            answer.tag_distribution == result.distribution,
            answer.limit == limit_or_default(payload.limit),
            answer.offset == payload.offset,
            answer.query@ == query_or_wildcard(payload.query_view()),
    {
        PackSearchResult {
            hits: result.hits,
            limit: page_limit(payload.limit),
            offset: payload.offset,
            query: response_query(&payload.query),
            nb_hits: result.total,
            tag_distribution: result.distribution,
        }
    }
}

} // verus!
