//! The reader of the pack index: the sort options and the filter of a pack
//! search, and the requests that a search puts to the engine.

use crate::models::bots::{trending_in, votes_in, Bot, LiveBots};
use crate::models::packs::{
    bot_count_in, get_pack_bot_count, get_pack_likes, get_pack_trending_score, LivePacks, Pack,
};
use crate::models::utils::{text_view, VoteStats};
use crate::search::queries::{
    distribution_of, distribution_query, parse_query, plan_of, plan_view, query_view, BaseQuery,
    BaseQueryView, FilteredQuery, FilteredQueryView, Occur, TermClause, TermClauseView, TermValue,
    TermValueView,
};
use crate::search::ranking::{Order, RankKey};
use crate::search::readers::{
    search_aggregate, AggregateRequestView, DocAddress, Ranking, SearchRun, StageRequest,
    StageRequestView, DISTRIBUTION_BUCKETS,
};
use std::collections::HashMap;
use vstd::prelude::*;

verus! {

/// The fewest characters of a category.
pub const MIN_CATEGORY_CHARS: usize = 2;

/// The most characters of a category.
pub const MAX_CATEGORY_CHARS: usize = 32;

/// What a pack search sorts by.
#[derive(Debug, Copy, Clone)]
pub enum PacksSortBy {
    /// The engine's own score.
    Relevance,
    /// The likes of the running period.
    Likes,
    /// The trending score.
    Trending,
    /// The number of bots that the pack is shown with.
    NumBots,
}

impl Default for PacksSortBy {
    fn default() -> (sort: Self)
        ensures
            sort == PacksSortBy::Relevance,
    {
        PacksSortBy::Relevance
    }
}

/// The filter of a pack search.
#[derive(Debug)]
pub struct PackFilter {
    /// The category that a pack must have.
    pub category: Option<String>,
}

impl Default for PackFilter {
    fn default() -> (filter: Self)
        ensures
            filter.category.is_none(),
    {
        PackFilter { category: None }
    }
}

impl PackFilter {
    /// The category that the filter names, if any.
    pub open spec fn category_view(&self) -> Option<Seq<char>> {
        text_view(self.category)
    }

    /// A filter is in order when its category, if it names one, has from
    /// 2 to 32 characters.
    pub open spec fn valid(&self) -> bool {
        match self.category {
            Some(category) => MIN_CATEGORY_CHARS <= category@.len() <= MAX_CATEGORY_CHARS,
            None => true,
        }
    }

    /// Whether the filter is in order.
    pub fn is_valid(&self) -> (valid: bool)
        ensures
            valid == self.valid(),
    {
        match &self.category {
            Some(category) => {
                let chars = category.as_str().unicode_len();
                MIN_CATEGORY_CHARS <= chars && chars <= MAX_CATEGORY_CHARS
            },
            None => true,
        }
    }
}

/// The fields of the pack index that a search refers to.
#[derive(Debug, Copy, Clone)]
pub struct FieldContext {
    pub id_field: u32,
    pub tag_agg_field: u32,
}

/// The clauses of a filter: where it names a category, one required exact
/// term on the tag aggregation field.
pub open spec fn clauses_of(tag_field: u32, category: Option<Seq<char>>) -> Seq<TermClauseView> {
    match category {
        Some(text) => seq![
            TermClauseView {
                occur: Occur::Must,
                field: tag_field,
                value: TermValueView::Text(text),
            },
        ],
        None => Seq::empty(),
    }
}

/// Puts a base query under the category clause of a filter.
pub fn apply_filter(tag_field: u32, filter: &PackFilter, existing_query: BaseQuery) -> (filtered:
    FilteredQuery)
    ensures
        filtered@ == (FilteredQueryView {
            base: existing_query@,
            clauses: clauses_of(tag_field, filter.category_view()),
        }),
{
    let mut clauses: Vec<TermClause> = Vec::new();
    if let Some(category) = &filter.category {
        clauses.push(
            TermClause {
                occur: Occur::Must,
                field: tag_field,
                value: TermValue::Text(category.clone()),
            },
        );
    }
    let filtered = FilteredQuery { base: existing_query, clauses };
    assert(filtered@.clauses =~= clauses_of(tag_field, filter.category_view()));
    filtered
}

/// The ranking of a sort option: the engine's score for relevance, else
/// the option's key for the id in the id field.
pub open spec fn ranking_of(ctx: FieldContext, sort_by: PacksSortBy) -> Ranking<PacksSortBy> {
    match sort_by {
        PacksSortBy::Relevance => Ranking::Score,
        _ => Ranking::ByKey { id_field: ctx.id_field, sort: sort_by },
    }
}

/// The request that one stage puts to the engine: the best `limit`
/// documents of the query, ranked as the sort option says. A pack search
/// has no value filter.
pub fn search_docs(
    ctx: FieldContext,
    query: FilteredQuery,
    limit: usize,
    sort_by: PacksSortBy,
    order: Order,
) -> (request: StageRequest<PacksSortBy>)
    ensures
        request@ == (StageRequestView {
            query: query@,
            limit,
            ranking: ranking_of(ctx, sort_by),
            order,
            filter: None,
        }),
{
    let ranking = match sort_by {
        PacksSortBy::Relevance => Ranking::Score,
        PacksSortBy::Likes => Ranking::ByKey { id_field: ctx.id_field, sort: PacksSortBy::Likes },
        PacksSortBy::Trending => Ranking::ByKey {
            id_field: ctx.id_field,
            sort: PacksSortBy::Trending,
        },
        PacksSortBy::NumBots => Ranking::ByKey { id_field: ctx.id_field, sort: PacksSortBy::NumBots },
    };
    StageRequest { query, limit, ranking, order, filter: None }
}

/// The tables that packs are ranked from.
pub struct PackTables<'a> {
    pub live: &'a LivePacks,
    pub votes: &'a HashMap<i64, VoteStats>,
    pub trending: &'a HashMap<i64, i64>,
    pub bots: &'a LiveBots,
}

/// The number that a sort option ranks a pack by: its likes of the running
/// period, its trending key, or the number of bots it is shown with.
/// Relevance ranks by the engine's score and gives every pack the number 0.
pub open spec fn rank_number_of(
    live: Map<i64, Pack>,
    votes: Map<i64, VoteStats>,
    trending: Map<i64, i64>,
    bots: Map<i64, Bot>,
    sort_by: PacksSortBy,
    id: i64,
) -> int {
    match sort_by {
        PacksSortBy::Relevance => 0,
        PacksSortBy::Likes => votes_in(votes, id).votes as int,
        PacksSortBy::Trending => trending_in(trending, id) as int,
        PacksSortBy::NumBots => bot_count_in(live, bots, id) as int,
    }
}

/// The key that a top-K pass ranks a pack by, for a sort option and a
/// direction.
pub fn rank_key(tables: &PackTables, sort_by: PacksSortBy, order: Order, id: i64) -> (key: RankKey)
    ensures
        key.order == order,
        key.number == rank_number_of(
            tables.live@,
            tables.votes@,
            tables.trending@,
            tables.bots@,
            sort_by,
            id,
        ),
{
    let number: i128 = match sort_by {
        PacksSortBy::Relevance => 0,
        PacksSortBy::Likes => get_pack_likes(tables.votes, id) as i128,
        PacksSortBy::Trending => get_pack_trending_score(tables.trending, id) as i128,
        PacksSortBy::NumBots => get_pack_bot_count(tables.live, tables.bots, id) as i128,
    };
    RankKey::new(number, order)
}

/// The request of one stage of a pack search.
pub open spec fn stage_request_of(
    ctx: FieldContext,
    category: Option<Seq<char>>,
    base: BaseQueryView,
    wanted: usize,
    sort_by: PacksSortBy,
    order: Order,
) -> StageRequestView<PacksSortBy> {
    StageRequestView {
        query: FilteredQueryView { base, clauses: clauses_of(ctx.tag_agg_field, category) },
        limit: wanted,
        ranking: ranking_of(ctx, sort_by),
        order,
        filter: None,
    }
}

/// The aggregate request of a pack search: the distribution query under
/// the same clause as the stages, over the tag aggregation field.
pub open spec fn aggregate_request_of(
    ctx: FieldContext,
    category: Option<Seq<char>>,
    base: BaseQueryView,
) -> AggregateRequestView {
    AggregateRequestView {
        query: FilteredQueryView { base, clauses: clauses_of(ctx.tag_agg_field, category) },
        field: ctx.tag_agg_field,
        buckets: DISTRIBUTION_BUCKETS,
        filter: None,
    }
}

/// The counts are taken over what is ranked: the aggregate request of a
/// search carries the clauses and the value filter of its stage requests.
pub proof fn lemma_facets_share_the_filter(
    ctx: FieldContext,
    category: Option<Seq<char>>,
    stage: BaseQueryView,
    distribution: BaseQueryView,
    wanted: usize,
    sort_by: PacksSortBy,
    order: Order,
)
    ensures
        aggregate_request_of(ctx, category, distribution).query.clauses == stage_request_of(
            ctx,
            category,
            stage,
            wanted,
            sort_by,
            order,
        ).query.clauses,
        aggregate_request_of(ctx, category, distribution).filter == stage_request_of(
            ctx,
            category,
            stage,
            wanted,
            sort_by,
            order,
        ).filter,
{
}

/// Sets up a pack search: one request per stage of the plan, each for
/// `limit + offset` documents, and the aggregate request.
pub fn execute_search(
    ctx: FieldContext,
    filter: &PackFilter,
    search_fields: &[u32],
    query: Option<&str>,
    limit: usize,
    offset: usize,
    sort_by: PacksSortBy,
    order: Order,
) -> (run: SearchRun<PacksSortBy>)
    requires
        limit + offset <= usize::MAX,
    ensures
        run.wf(),
        run.limit() == limit,
        run.offset() == offset,
        run.answered() == 0,
        run.found() == Seq::<DocAddress>::empty(),
        run.stages().len() == plan_of(query_view(query), search_fields@).len(),
        forall|i: int|
            0 <= i < run.stages().len() ==> (#[trigger] run.stages()[i])@ == stage_request_of(
                ctx,
                filter.category_view(),
                plan_of(query_view(query), search_fields@)[i],
                (limit + offset) as usize,
                sort_by,
                order,
            ),
        run.aggregate()@ == aggregate_request_of(
            ctx,
            filter.category_view(),
            distribution_of(query_view(query), search_fields@),
        ),
{
    let plan = parse_query(query, search_fields);
    let ghost planned = plan@;
    let ghost wanted = plan_of(query_view(query), search_fields@);
    assert(plan_view(planned).len() == planned.len());
    let mut stages: Vec<StageRequest<PacksSortBy>> = Vec::new();
    for base in it: plan.into_iter()
        invariant
            it.seq() == planned,
            plan_view(planned) == wanted,
            limit + offset <= usize::MAX,
            stages.len() == it.index(),
            forall|i: int|
                0 <= i < stages.len() ==> (#[trigger] stages[i])@ == stage_request_of(
                    ctx,
                    filter.category_view(),
                    wanted[i],
                    (limit + offset) as usize,
                    sort_by,
                    order,
                ),
    {
        assert(plan_view(planned)[it.index() as int] == base@);
        let filtered = apply_filter(ctx.tag_agg_field, filter, base);
        stages.push(search_docs(ctx, filtered, limit + offset, sort_by, order));
    }
    let distribution = apply_filter(
        ctx.tag_agg_field,
        filter,
        distribution_query(query, search_fields),
    );
    let aggregate = search_aggregate(distribution, ctx.tag_agg_field, None);
    SearchRun::new(stages, aggregate, limit, offset)
}

/// The reader of the pack index: the fields it refers to and the text
/// fields it searches.
pub struct InnerReader {
    ctx: FieldContext,
    search_fields: Vec<u32>,
}

impl InnerReader {
    /// The fields of the index that searches refer to.
    pub closed spec fn ctx(self) -> FieldContext {
        self.ctx
    }

    /// The text fields that searches look into, most important first.
    pub closed spec fn search_fields(self) -> Seq<u32> {
        self.search_fields@
    }

    /// A reader over the given fields.
    pub fn new(ctx: FieldContext, search_fields: Vec<u32>) -> (reader: Self)
        ensures
            reader.ctx() == ctx,
            reader.search_fields() == search_fields@,
    {
        InnerReader { ctx, search_fields }
    }

    /// The id field of the index.
    pub fn id_field(&self) -> (field: u32)
        ensures
            field == self.ctx().id_field,
    {
        self.ctx.id_field
    }

    /// Sets up a search over the reader's fields.
    pub fn search(
        &self,
        query: Option<&str>,
        filter: &PackFilter,
        limit: usize,
        offset: usize,
        sort_by: PacksSortBy,
        order: Order,
    ) -> (run: SearchRun<PacksSortBy>)
        requires
            limit + offset <= usize::MAX,
        ensures
            run.wf(),
            run.limit() == limit,
            run.offset() == offset,
            run.answered() == 0,
            run.found() == Seq::<DocAddress>::empty(),
            run.stages().len() == plan_of(query_view(query), self.search_fields()).len(),
            forall|i: int|
                0 <= i < run.stages().len() ==> (#[trigger] run.stages()[i])@ == stage_request_of(
                    self.ctx(),
                    filter.category_view(),
                    plan_of(query_view(query), self.search_fields())[i],
                    (limit + offset) as usize,
                    sort_by,
                    order,
                ),
            run.aggregate()@ == aggregate_request_of(
                self.ctx(),
                filter.category_view(),
                distribution_of(query_view(query), self.search_fields()),
            ),
    {
        execute_search(
            self.ctx,
            filter,
            self.search_fields.as_slice(),
            query,
            limit,
            offset,
            sort_by,
            order,
        )
    }
}

} // verus!
