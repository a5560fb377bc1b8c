//! The reader of the bot index: the sort options and filters of a bot
//! search, and the requests that a search puts to the engine.

use crate::models::bots::{
    get_bot_guild_count, get_bot_premium, get_bot_trending_score, get_bot_votes, guild_count_in,
    premium_in, trending_in, votes_in, Bot, LiveBots,
};
use crate::models::utils::{as_unsigned, unsigned_of, VoteStats};
use crate::search::queries::{
    distribution_of, distribution_query, parse_query, plan_of, plan_view, query_view, BaseQuery,
    BaseQueryView, FilteredQuery, FilteredQueryView, Occur, TermClause, TermClauseView, TermValue,
    TermValueView,
};
use crate::search::ranking::{Order, RankKey};
use crate::search::readers::{
    search_aggregate, AggregateRequestView, DocAddress, Predicate, Ranking, SearchRun, StageRequest,
    StageRequestView, ValueFilter, DISTRIBUTION_BUCKETS,
};
use std::collections::HashMap;
use vstd::prelude::*;

verus! {

/// The most tags that a filter may name.
pub const MAX_FILTER_TAGS: usize = 10;

/// What a bot search sorts by.
#[derive(Debug, Copy, Clone)]
pub enum BotsSortBy {
    /// The engine's own score.
    Relevancy,
    /// The votes of the running period.
    Votes,
    /// The trending score.
    Trending,
    /// The number of guilds the bot is in.
    Popularity,
    /// Premium bots before the others.
    Premium,
}

impl Default for BotsSortBy {
    fn default() -> (sort: Self)
        ensures
            sort == BotsSortBy::Relevancy,
    {
        BotsSortBy::Relevancy
    }
}

/// The filter of a bot search.
#[derive(Debug)]
pub struct BotFilter {
    /// Tags to filter by; at most ten, none twice.
    pub tags: Vec<String>,
    /// Feature bits of which a bot must have at least one.
    pub features: Option<i64>,
    /// Whether the bot must be premium, or must not be.
    pub premium: Option<bool>,
}

/// What a bot filter says.
pub struct BotFilterView {
    pub tags: Seq<Seq<char>>,
    pub features: Option<i64>,
    pub premium: Option<bool>,
}

impl View for BotFilter {
    type V = BotFilterView;

    open spec fn view(&self) -> BotFilterView {
        BotFilterView {
            tags: self.tags.deep_view(),
            features: self.features,
            premium: self.premium,
        }
    }
}

impl Default for BotFilter {
    fn default() -> (filter: Self)
        ensures
            filter@ == (BotFilterView { tags: Seq::empty(), features: None, premium: None }),
    {
        let filter = BotFilter { tags: Vec::new(), features: None, premium: None };
        assert(filter.tags.deep_view() =~= Seq::<Seq<char>>::empty());
        filter
    }
}

impl BotFilterView {
    /// A filter is in order when it names at most ten tags and none twice.
    pub open spec fn valid(self) -> bool {
        self.tags.len() <= MAX_FILTER_TAGS && self.tags.no_duplicates()
    }
}

impl BotFilter {
    /// Whether the filter is in order.
    pub fn is_valid(&self) -> (valid: bool)
        ensures
            valid == self@.valid(),
    {
        if self.tags.len() > MAX_FILTER_TAGS {
            return false;
        }
        let ghost tags = self.tags.deep_view();
        let mut i: usize = 0;
        while i < self.tags.len()
            invariant
                i <= self.tags.len(),
                tags == self.tags.deep_view(),
                forall|a: int, b: int| 0 <= a < b < i ==> tags[a] != tags[b],
            decreases self.tags.len() - i,
        {
            let mut j: usize = 0;
            while j < i
                invariant
                    j <= i < self.tags.len(),
                    tags == self.tags.deep_view(),
                    forall|a: int| 0 <= a < j ==> tags[a] != tags[i as int],
                decreases i - j,
            {
                if self.tags[j] == self.tags[i] {
                    assert(tags[j as int] == tags[i as int]);
                    return false;
                }
                j += 1;
            }
            i += 1;
        }
        true
    }
}

/// The fields of the bot index that a search refers to.
#[derive(Debug, Copy, Clone)]
pub struct FieldContext {
    pub id_field: u32,
    pub premium_field: u32,
    pub tags_agg_field: u32,
    pub features_field: u32,
}

/// The clause for one tag: an optional exact term on the aggregation field.
pub open spec fn tag_clause(ctx: FieldContext, tag: Seq<char>) -> TermClauseView {
    TermClauseView {
        occur: Occur::Should,
        field: ctx.tags_agg_field,
        value: TermValueView::Text(tag),
    }
}

/// The clause for the premium flag: a required exact term on the premium
/// field, 1 for premium and 0 for not premium.
pub open spec fn premium_clause(ctx: FieldContext, premium: bool) -> TermClauseView {
    TermClauseView {
        occur: Occur::Must,
        field: ctx.premium_field,
        value: TermValueView::Unsigned(
            if premium {
                1
            } else {
                0
            },
        ),
    }
}

/// The clauses of a filter: one for each tag, in order, then the one for
/// the premium flag where the filter sets it.
pub open spec fn clauses_of(ctx: FieldContext, filter: BotFilterView) -> Seq<TermClauseView> {
    Seq::new(filter.tags.len(), |i: int| tag_clause(ctx, filter.tags[i])) + match filter.premium {
        Some(premium) => seq![premium_clause(ctx, premium)],
        None => Seq::empty(),
    }
}

/// The value filter of a bot filter: where feature bits are given, a bot
/// must have at least one of them.
pub open spec fn value_filter_of(ctx: FieldContext, features: Option<i64>) -> Option<ValueFilter> {
    match features {
        Some(bits) => Some(
            ValueFilter { field: ctx.features_field, predicate: Predicate::BitsAny(unsigned_of(bits)) },
        ),
        None => None,
    }
}

/// Puts a base query under the tag and premium clauses of a filter.
pub fn apply_filter(ctx: FieldContext, filter: &BotFilter, existing_query: BaseQuery) -> (filtered:
    FilteredQuery)
    ensures
        filtered@ == (FilteredQueryView {
            base: existing_query@,
            clauses: clauses_of(ctx, filter@),
        }),
{
    let mut clauses: Vec<TermClause> = Vec::new();
    let ghost tags = filter.tags.deep_view();
    let mut i: usize = 0;
    while i < filter.tags.len()
        invariant
            i <= filter.tags.len(),
            tags == filter.tags.deep_view(),
            clauses.len() == i,
            forall|j: int| 0 <= j < i ==> (#[trigger] clauses[j])@ == tag_clause(ctx, tags[j]),
        decreases filter.tags.len() - i,
    {
        clauses.push(
            TermClause {
                occur: Occur::Should,
                field: ctx.tags_agg_field,
                value: TermValue::Text(filter.tags[i].clone()),
            },
        );
        i += 1;
    }
    if let Some(premium) = filter.premium {
        let flag: u64 = if premium {
            1
        } else {
            0
        };
        clauses.push(
            TermClause { occur: Occur::Must, field: ctx.premium_field, value: TermValue::Unsigned(flag) },
        );
    }
    let filtered = FilteredQuery { base: existing_query, clauses };
    assert(filtered@.clauses =~= clauses_of(ctx, filter@));
    filtered
}

/// The value filter for the feature bits of a filter.
pub fn features_filter(ctx: FieldContext, filter: &BotFilter) -> (value_filter: Option<ValueFilter>)
    ensures
        value_filter == value_filter_of(ctx, filter@.features),
{
    match filter.features {
        Some(bits) => Some(
            ValueFilter { field: ctx.features_field, predicate: Predicate::BitsAny(as_unsigned(bits)) },
        ),
        None => None,
    }
}

/// The ranking of a sort option: the engine's score for relevancy, else
/// the option's key for the id in the id field.
pub open spec fn ranking_of(ctx: FieldContext, sort_by: BotsSortBy) -> Ranking<BotsSortBy> {
    match sort_by {
        BotsSortBy::Relevancy => Ranking::Score,
        _ => Ranking::ByKey { id_field: ctx.id_field, sort: sort_by },
    }
}

/// The request that one stage puts to the engine: the best `limit`
/// documents of the query, ranked as the sort option says.
pub fn search_docs(
    ctx: FieldContext,
    query: FilteredQuery,
    limit: usize,
    sort_by: BotsSortBy,
    order: Order,
    value_filter: Option<ValueFilter>,
) -> (request: StageRequest<BotsSortBy>)
    ensures
        request@ == (StageRequestView {
            query: query@,
            limit,
            ranking: ranking_of(ctx, sort_by),
            order,
            filter: value_filter,
        }),
{
    let ranking = match sort_by {
        BotsSortBy::Relevancy => Ranking::Score,
        BotsSortBy::Votes => Ranking::ByKey { id_field: ctx.id_field, sort: BotsSortBy::Votes },
        BotsSortBy::Trending => Ranking::ByKey { id_field: ctx.id_field, sort: BotsSortBy::Trending },
        BotsSortBy::Popularity => Ranking::ByKey {
            id_field: ctx.id_field,
            sort: BotsSortBy::Popularity,
        },
        BotsSortBy::Premium => Ranking::ByKey { id_field: ctx.id_field, sort: BotsSortBy::Premium },
    };
    StageRequest { query, limit, ranking, order, filter: value_filter }
}

/// The tables that bots are ranked from.
pub struct BotTables<'a> {
    pub live: &'a LiveBots,
    pub votes: &'a HashMap<i64, VoteStats>,
    pub trending: &'a HashMap<i64, i64>,
}

/// The number that a sort option ranks a bot by: its votes of the running
/// period, its trending key, its guild count, or 1 for a premium bot and 0
/// for another. Relevancy ranks by the engine's score and gives every bot
/// the number 0.
pub open spec fn rank_number_of(
    live: Map<i64, Bot>,
    votes: Map<i64, VoteStats>,
    trending: Map<i64, i64>,
    sort_by: BotsSortBy,
    id: i64,
) -> int {
    match sort_by {
        BotsSortBy::Relevancy => 0,
        BotsSortBy::Votes => votes_in(votes, id).votes as int,
        BotsSortBy::Trending => trending_in(trending, id) as int,
        BotsSortBy::Popularity => guild_count_in(live, id) as int,
        BotsSortBy::Premium => if premium_in(live, id) {
            1
        } else {
            0
        },
    }
}

/// The key that a top-K pass ranks a bot by, for a sort option and a
/// direction.
pub fn rank_key(tables: &BotTables, sort_by: BotsSortBy, order: Order, id: i64) -> (key: RankKey)
    ensures
        key.order == order,
        key.number == rank_number_of(
            tables.live@,
            tables.votes@,
            tables.trending@,
            sort_by,
            id,
        ),
{
    let number: i128 = match sort_by {
        BotsSortBy::Relevancy => 0,
        BotsSortBy::Votes => get_bot_votes(tables.votes, id) as i128,
        BotsSortBy::Trending => get_bot_trending_score(tables.trending, id) as i128,
        BotsSortBy::Popularity => get_bot_guild_count(tables.live, id) as i128,
        BotsSortBy::Premium => if get_bot_premium(tables.live, id) {
            1
        } else {
            0
        },
    };
    RankKey::new(number, order)
}

/// The request of one stage of a bot search.
pub open spec fn stage_request_of(
    ctx: FieldContext,
    filter: BotFilterView,
    base: BaseQueryView,
    wanted: usize,
    sort_by: BotsSortBy,
    order: Order,
) -> StageRequestView<BotsSortBy> {
    StageRequestView {
        query: FilteredQueryView { base, clauses: clauses_of(ctx, filter) },
        limit: wanted,
        ranking: ranking_of(ctx, sort_by),
        order,
        filter: value_filter_of(ctx, filter.features),
    }
}

/// The aggregate request of a bot search: the distribution query under
/// the same clauses and the same value filter as the stages, over the tag
/// aggregation field.
pub open spec fn aggregate_request_of(
    ctx: FieldContext,
    filter: BotFilterView,
    base: BaseQueryView,
) -> AggregateRequestView {
    AggregateRequestView {
        query: FilteredQueryView { base, clauses: clauses_of(ctx, filter) },
        field: ctx.tags_agg_field,
        buckets: DISTRIBUTION_BUCKETS,
        filter: value_filter_of(ctx, filter.features),
    }
}

/// The counts are taken over what is ranked: the aggregate request of a
/// search carries the clauses and the value filter of its stage requests.
pub proof fn lemma_facets_share_the_filter(
    ctx: FieldContext,
    filter: BotFilterView,
    stage: BaseQueryView,
    distribution: BaseQueryView,
    wanted: usize,
    sort_by: BotsSortBy,
    order: Order,
)
    ensures
        aggregate_request_of(ctx, filter, distribution).query.clauses == stage_request_of(
            ctx,
            filter,
            stage,
            wanted,
            sort_by,
            order,
        ).query.clauses,
        aggregate_request_of(ctx, filter, distribution).filter == stage_request_of(
            ctx,
            filter,
            stage,
            wanted,
            sort_by,
            order,
        ).filter,
{
}

/// Sets up a bot search: one request per stage of the plan, each for
/// `limit + offset` documents, and the aggregate request.
pub fn execute_search(
    ctx: FieldContext,
    filter: &BotFilter,
    search_fields: &[u32],
    query: Option<&str>,
    limit: usize,
    offset: usize,
    sort_by: BotsSortBy,
    order: Order,
) -> (run: SearchRun<BotsSortBy>)
    requires
        limit + offset <= usize::MAX,
    ensures
        run.wf(),
        run.limit() == limit,
        run.offset() == offset,
        run.answered() == 0,
        run.found() == Seq::<DocAddress>::empty(),
        run.stages().len() == plan_of(query_view(query), search_fields@).len(),
        forall|i: int|
            0 <= i < run.stages().len() ==> (#[trigger] run.stages()[i])@ == stage_request_of(
                ctx,
                filter@,
                plan_of(query_view(query), search_fields@)[i],
                (limit + offset) as usize,
                sort_by,
                order,
            ),
        run.aggregate()@ == aggregate_request_of(
            ctx,
            filter@,
            distribution_of(query_view(query), search_fields@),
        ),
{
    let value_filter = features_filter(ctx, filter);
    let plan = parse_query(query, search_fields);
    let ghost planned = plan@;
    let ghost wanted = plan_of(query_view(query), search_fields@);
    assert(plan_view(planned).len() == planned.len());
    let mut stages: Vec<StageRequest<BotsSortBy>> = Vec::new();
    for base in it: plan.into_iter()
        invariant
            it.seq() == planned,
            plan_view(planned) == wanted,
            limit + offset <= usize::MAX,
            value_filter == value_filter_of(ctx, filter@.features),
            stages.len() == it.index(),
            forall|i: int|
                0 <= i < stages.len() ==> (#[trigger] stages[i])@ == stage_request_of(
                    ctx,
                    filter@,
                    wanted[i],
                    (limit + offset) as usize,
                    sort_by,
                    order,
                ),
    {
        assert(plan_view(planned)[it.index() as int] == base@);
        let filtered = apply_filter(ctx, filter, base);
        stages.push(search_docs(ctx, filtered, limit + offset, sort_by, order, value_filter));
    }
    let distribution = apply_filter(ctx, filter, distribution_query(query, search_fields));
    let aggregate = search_aggregate(distribution, ctx.tags_agg_field, value_filter);
    SearchRun::new(stages, aggregate, limit, offset)
}

/// The reader of the bot index: the fields it refers to and the text
/// fields it searches.
pub struct InnerReader {
    ctx: FieldContext,
    search_fields: Vec<u32>,
}

impl InnerReader {
    /// The fields of the index that searches refer to.
    pub closed spec fn ctx(self) -> FieldContext {
        self.ctx
    }

    /// The text fields that searches look into, most important first.
    pub closed spec fn search_fields(self) -> Seq<u32> {
        self.search_fields@
    }

    /// A reader over the given fields.
    pub fn new(ctx: FieldContext, search_fields: Vec<u32>) -> (reader: Self)
        ensures
            reader.ctx() == ctx,
            reader.search_fields() == search_fields@,
    {
        InnerReader { ctx, search_fields }
    }

    /// The id field of the index.
    pub fn id_field(&self) -> (field: u32)
        ensures
            field == self.ctx().id_field,
    {
        self.ctx.id_field
    }

    /// Sets up a search over the reader's fields.
    pub fn search(
        &self,
        query: Option<&str>,
        filter: &BotFilter,
        limit: usize,
        offset: usize,
        sort_by: BotsSortBy,
        order: Order,
    ) -> (run: SearchRun<BotsSortBy>)
        requires
            limit + offset <= usize::MAX,
        ensures
            run.wf(),
            run.limit() == limit,
            run.offset() == offset,
            run.answered() == 0,
            run.found() == Seq::<DocAddress>::empty(),
            run.stages().len() == plan_of(query_view(query), self.search_fields()).len(),
            forall|i: int|
                0 <= i < run.stages().len() ==> (#[trigger] run.stages()[i])@ == stage_request_of(
                    self.ctx(),
                    filter@,
                    plan_of(query_view(query), self.search_fields())[i],
                    (limit + offset) as usize,
                    sort_by,
                    order,
                ),
            run.aggregate()@ == aggregate_request_of(
                self.ctx(),
                filter@,
                distribution_of(query_view(query), self.search_fields()),
            ),
    {
        execute_search(
            self.ctx,
            filter,
            self.search_fields.as_slice(),
            query,
            limit,
            offset,
            sort_by,
            order,
        )
    }
}

} // verus!
