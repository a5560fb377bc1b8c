//! The query planner: from a free text and the text fields to the staged
//! fuzzy queries and the distribution query.
//!
//! A plan is plain data. Each stage stands for one boolean query of the
//! engine: per text field a group of prefix-matching fuzzy terms, one for
//! each token, every clause optional, the groups boosted by field position.

use crate::models::utils::copy_texts;
use crate::search::tokenizer::{tokens_of, SimpleTokenStream, SimpleUnicodeTokenizer};
use vstd::prelude::*;
use vstd::utf8::encode_utf8;

verus! {

/// The cap on a token's length, in characters, when a query is tokenized.
pub const QUERY_TOKEN_LIMIT: usize = 10;

/// The boost of the first text field, in tenths.
pub const FIRST_BOOST_TENTHS: i128 = 10;

/// The fuzzy terms of one text field. Each token is matched as a prefix
/// at the stage's edit distance. The group's boost is given in tenths:
/// 10 for the first field, one tenth less for each field after it.
#[derive(Debug)]
pub struct FieldGroup {
    pub field: u32,
    pub boost_tenths: i128,
    pub tokens: Vec<String>,
}

/// What a field group says.
pub struct FieldGroupView {
    pub field: u32,
    pub boost_tenths: int,
    pub tokens: Seq<Seq<char>>,
}

impl View for FieldGroup {
    type V = FieldGroupView;

    open spec fn view(&self) -> FieldGroupView {
        FieldGroupView {
            field: self.field,
            boost_tenths: self.boost_tenths as int,
            tokens: self.tokens.deep_view(),
        }
    }
}

/// One stage of the plan: an edit distance and one group per text field.
#[derive(Debug)]
pub struct StageQuery {
    pub distance: u8,
    pub groups: Vec<FieldGroup>,
}

/// What a stage says.
pub struct StageView {
    pub distance: u8,
    pub groups: Seq<FieldGroupView>,
}

impl View for StageQuery {
    type V = StageView;

    open spec fn view(&self) -> StageView {
        StageView {
            distance: self.distance,
            groups: Seq::new(self.groups@.len(), |i: int| self.groups@[i]@),
        }
    }
}

/// A query before any filter is applied: every document, or a stage.
#[derive(Debug)]
pub enum BaseQuery {
    /// Matches every document.
    All,
    /// Matches by the fuzzy terms of a stage.
    Fuzzy(StageQuery),
}

/// What a base query says.
pub enum BaseQueryView {
    All,
    Fuzzy(StageView),
}

impl View for BaseQuery {
    type V = BaseQueryView;

    open spec fn view(&self) -> BaseQueryView {
        match self {
            BaseQuery::All => BaseQueryView::All,
            BaseQuery::Fuzzy(stage) => BaseQueryView::Fuzzy(stage@),
        }
    }
}

/// Whether a clause of a boolean query is optional or required.
#[derive(Debug, Copy, Clone)]
pub enum Occur {
    /// The clause is optional.
    Should,
    /// The clause is required.
    Must,
}

/// The value of an exact term.
#[derive(Debug)]
pub enum TermValue {
    /// A text, matched verbatim.
    Text(String),
    /// An unsigned integer.
    Unsigned(u64),
}

/// What a term value says.
pub enum TermValueView {
    Text(Seq<char>),
    Unsigned(u64),
}

impl View for TermValue {
    type V = TermValueView;

    open spec fn view(&self) -> TermValueView {
        match self {
            TermValue::Text(text) => TermValueView::Text(text@),
            TermValue::Unsigned(number) => TermValueView::Unsigned(*number),
        }
    }
}

/// One clause of a filter: an exact term on a field.
#[derive(Debug)]
pub struct TermClause {
    pub occur: Occur,
    pub field: u32,
    pub value: TermValue,
}

/// What a clause says.
pub struct TermClauseView {
    pub occur: Occur,
    pub field: u32,
    pub value: TermValueView,
}

impl View for TermClause {
    type V = TermClauseView;

    open spec fn view(&self) -> TermClauseView {
        TermClauseView { occur: self.occur, field: self.field, value: self.value@ }
    }
}

/// A base query under a filter. Without clauses it is the base query
/// itself. With clauses it is the boolean query of two required parts: the
/// base query, and the boolean query of the clauses.
#[derive(Debug)]
pub struct FilteredQuery {
    pub base: BaseQuery,
    pub clauses: Vec<TermClause>,
}

/// What a filtered query says.
pub struct FilteredQueryView {
    pub base: BaseQueryView,
    pub clauses: Seq<TermClauseView>,
}

impl View for FilteredQuery {
    type V = FilteredQueryView;

    open spec fn view(&self) -> FilteredQueryView {
        FilteredQueryView {
            base: self.base@,
            clauses: Seq::new(self.clauses@.len(), |i: int| self.clauses@[i]@),
        }
    }
}

/// The views of a run of base queries.
pub open spec fn plan_view(stages: Seq<BaseQuery>) -> Seq<BaseQueryView> {
    Seq::new(stages.len(), |i: int| stages[i]@)
}

/// Whether a token reaches a stage's length cut, counted in bytes of its
/// UTF-8 form.
pub open spec fn reaches_cut(cut: usize) -> spec_fn(Seq<char>) -> bool {
    |token: Seq<char>| encode_utf8(token).len() >= cut
}

/// The stage for an edit distance and a length cut: nothing when there is
/// no field or no token reaches the cut; else one group per field, in the
/// order of the fields, each with every token that reaches the cut.
pub open spec fn stage_of(
    distance: u8,
    cut: usize,
    fields: Seq<u32>,
    tokens: Seq<Seq<char>>,
) -> Option<StageView> {
    let kept = tokens.filter(reaches_cut(cut));
    if fields.len() == 0 || kept.len() == 0 {
        None
    } else {
        Some(
            StageView {
                distance,
                groups: Seq::new(
                    fields.len(),
                    |i: int|
                        FieldGroupView {
                            field: fields[i],
                            boost_tenths: FIRST_BOOST_TENTHS - i,
                            tokens: kept,
                        },
                ),
            },
        )
    }
}

/// Builds one stage from what is left of the token stream, and sets the
/// stream back to its start.
pub fn build_fuzzy_stage(
    dist: u8,
    length_cut_off: usize,
    fields: &[u32],
    token_stream: &mut SimpleTokenStream,
) -> (stage: Option<StageQuery>)
    ensures
        final(token_stream).tokens() == old(token_stream).tokens(),
        final(token_stream).position() == 0,
        match stage {
            Some(built) => Some(built@),
            None => None,
        } == stage_of(
            dist,
            length_cut_off,
            fields@,
            old(token_stream).tokens().skip(old(token_stream).position() as int),
        ),
{
    let _ = token_stream.remaining();
    let ghost all = token_stream.tokens();
    let ghost start = token_stream.position() as int;
    let ghost left = all.skip(start);
    let mut kept: Vec<String> = Vec::new();
    assert(kept.deep_view() =~= left.take(0).filter(reaches_cut(length_cut_off))) by {
        reveal(Seq::filter);
    }
    loop
        invariant
            token_stream.tokens() == all,
            0 <= start <= token_stream.position() <= all.len(),
            left == all.skip(start),
            kept.deep_view() == left.take(token_stream.position() - start).filter(
                reaches_cut(length_cut_off),
            ),
        ensures
            token_stream.tokens() == all,
            kept.deep_view() == left.filter(reaches_cut(length_cut_off)),
        decreases all.len() - token_stream.position(),
    {
        let ghost at = token_stream.position() as int;
        let ghost before = kept.deep_view();
        match token_stream.next() {
            Some(token) => {
                proof {
                    reveal(Seq::filter);
                    assert(left.take(at + 1 - start).drop_last() == left.take(at - start));
                    assert(left.take(at + 1 - start).last() == token@);
                }
                let long_enough = token.as_str().as_bytes().len() >= length_cut_off;
                assert(long_enough == reaches_cut(length_cut_off)(token@));
                if long_enough {
                    kept.push(token);
                    assert(kept.deep_view() =~= before.push(all[at]));
                }
            },
            None => {
                proof {
                    assert(left.take(at - start) == left);
                }
                break ;
            },
        }
    }
    token_stream.reset();
    if fields.len() == 0 || kept.len() == 0 {
        return None;
    }
    let mut groups: Vec<FieldGroup> = Vec::new();
    let mut boost: i128 = FIRST_BOOST_TENTHS;
    let mut i: usize = 0;
    while i < fields.len()
        invariant
            i <= fields.len(),
            groups.len() == i,
            boost == FIRST_BOOST_TENTHS - i,
            forall|j: int|
                0 <= j < i ==> (#[trigger] groups[j])@ == (FieldGroupView {
                    field: fields[j],
                    boost_tenths: FIRST_BOOST_TENTHS - j,
                    tokens: kept.deep_view(),
                }),
        decreases fields.len() - i,
    {
        groups.push(FieldGroup { field: fields[i], boost_tenths: boost, tokens: copy_texts(&kept) });
        boost = boost - 1;
        i += 1;
    }
    let built = StageQuery { distance: dist, groups };
    proof {
        let want = stage_of(dist, length_cut_off, fields@, left).unwrap();
        assert(built@.groups =~= want.groups);
    }
    Some(built)
}

/// At most one query: the stage, if there is one.
pub open spec fn stage_list(stage: Option<StageView>) -> Seq<BaseQueryView> {
    match stage {
        Some(built) => seq![BaseQueryView::Fuzzy(built)],
        None => Seq::empty(),
    }
}

/// The stages for a run of tokens, in the order they are run: exact
/// prefixes of every token, then one edit on tokens of four bytes or more,
/// then two edits on tokens of eight bytes or more. A stage without tokens
/// is left out.
pub open spec fn stages_of(fields: Seq<u32>, tokens: Seq<Seq<char>>) -> Seq<BaseQueryView> {
    stage_list(stage_of(0, 0, fields, tokens)) + stage_list(stage_of(1, 4, fields, tokens))
        + stage_list(stage_of(2, 8, fields, tokens))
}

/// Plans the stages for the tokens of a stream that stands at its start.
pub fn plan_stages(fields: &[u32], token_stream: &mut SimpleTokenStream) -> (stages: Vec<
    BaseQuery,
>)
    requires
        old(token_stream).position() == 0,
    ensures
        final(token_stream).tokens() == old(token_stream).tokens(),
        final(token_stream).position() == 0,
        plan_view(stages@) == stages_of(fields@, old(token_stream).tokens()),
{
    let ghost tokens = token_stream.tokens();
    assert(tokens.skip(0) == tokens);
    let mut stages: Vec<BaseQuery> = Vec::new();
    if let Some(stage) = build_fuzzy_stage(0, 0, fields, token_stream) {
        stages.push(BaseQuery::Fuzzy(stage));
    }
    assert(plan_view(stages@) =~= stage_list(stage_of(0, 0, fields@, tokens)));
    let ghost first = plan_view(stages@);
    if let Some(stage) = build_fuzzy_stage(1, 4, fields, token_stream) {
        stages.push(BaseQuery::Fuzzy(stage));
    }
    assert(plan_view(stages@) =~= first + stage_list(stage_of(1, 4, fields@, tokens)));
    let ghost second = plan_view(stages@);
    if let Some(stage) = build_fuzzy_stage(2, 8, fields, token_stream) {
        stages.push(BaseQuery::Fuzzy(stage));
    }
    assert(plan_view(stages@) =~= second + stage_list(stage_of(2, 8, fields@, tokens)));
    stages
}

/// The plan for a free text: one query for every document when the text is
/// absent or empty; else the stages of its tokens, which are none when the
/// text holds no token.
pub open spec fn plan_of(query: Option<Seq<char>>, fields: Seq<u32>) -> Seq<BaseQueryView> {
    match query {
        Some(text) if text.len() > 0 => stages_of(fields, tokens_of(text, QUERY_TOKEN_LIMIT)),
        _ => seq![BaseQueryView::All],
    }
}

/// The view of an optional text.
pub open spec fn query_view(query: Option<&str>) -> Option<Seq<char>> {
    match query {
        Some(text) => Some(text@),
        None => None,
    }
}

/// Plans the stages of a search for a free text over the text fields.
pub fn parse_query(query: Option<&str>, fields: &[u32]) -> (stages: Vec<BaseQuery>)
    ensures
        plan_view(stages@) == plan_of(query_view(query), fields@),
{
    match query {
        Some(text) if !text.is_empty() => {
            let tokenizer = SimpleUnicodeTokenizer::with_limit(QUERY_TOKEN_LIMIT);
            let mut token_stream = tokenizer.token_stream(text);
            plan_stages(fields, &mut token_stream)
        },
        _ => {
            let mut stages: Vec<BaseQuery> = Vec::new();
            stages.push(BaseQuery::All);
            assert(plan_view(stages@) =~= seq![BaseQueryView::All]);
            stages
        },
    }
}

/// The distribution query for a run of tokens: the exact-prefix stage when
/// there is one, else every document.
pub open spec fn distribution_of_tokens(fields: Seq<u32>, tokens: Seq<Seq<char>>) -> BaseQueryView {
    match stage_of(0, 0, fields, tokens) {
        Some(stage) => BaseQueryView::Fuzzy(stage),
        None => BaseQueryView::All,
    }
}

/// Plans the distribution query for the tokens of a stream that stands at
/// its start.
pub fn plan_distribution(fields: &[u32], token_stream: &mut SimpleTokenStream) -> (query:
    BaseQuery)
    requires
        old(token_stream).position() == 0,
    ensures
        final(token_stream).tokens() == old(token_stream).tokens(),
        final(token_stream).position() == 0,
        query@ == distribution_of_tokens(fields@, old(token_stream).tokens()),
{
    assert(token_stream.tokens().skip(0) == token_stream.tokens());
    match build_fuzzy_stage(0, 0, fields, token_stream) {
        Some(stage) => BaseQuery::Fuzzy(stage),
        None => BaseQuery::All,
    }
}

/// The distribution query for a free text: the one that the hit count and
/// the tag distribution are taken over.
pub open spec fn distribution_of(query: Option<Seq<char>>, fields: Seq<u32>) -> BaseQueryView {
    match query {
        Some(text) if text.len() > 0 => distribution_of_tokens(
            fields,
            tokens_of(text, QUERY_TOKEN_LIMIT),
        ),
        _ => BaseQueryView::All,
    }
}

/// Plans the distribution query of a search for a free text.
pub fn distribution_query(query: Option<&str>, fields: &[u32]) -> (planned: BaseQuery)
    ensures
        planned@ == distribution_of(query_view(query), fields@),
{
    match query {
        Some(text) if !text.is_empty() => {
            let tokenizer = SimpleUnicodeTokenizer::with_limit(QUERY_TOKEN_LIMIT);
            let mut token_stream = tokenizer.token_stream(text);
            plan_distribution(fields, &mut token_stream)
        },
        _ => BaseQuery::All,
    }
}

/// The hit count and the tag distribution are taken over what the first
/// stage searches: whenever a free text has a stage at all, its first
/// stage is its distribution query.
pub proof fn lemma_first_stage_is_distribution(query: Option<Seq<char>>, fields: Seq<u32>)
    requires
        plan_of(query, fields).len() > 0,
    ensures
        plan_of(query, fields)[0] == distribution_of(query, fields),
{
    match query {
        Some(text) if text.len() > 0 => {
            let tokens = tokens_of(text, QUERY_TOKEN_LIMIT);
            lemma_every_token_reaches_no_cut(tokens);
            if stage_of(0, 0, fields, tokens) is None {
                tokens.lemma_filter_len(reaches_cut(4));
                tokens.lemma_filter_len(reaches_cut(8));
            }
        },
        _ => {},
    }
}

/// Every token reaches the cut of the first stage, which is none.
pub proof fn lemma_every_token_reaches_no_cut(tokens: Seq<Seq<char>>)
    ensures
        tokens.filter(reaches_cut(0)) == tokens,
    decreases tokens.len(),
{
    reveal(Seq::filter);
    if tokens.len() > 0 {
        lemma_every_token_reaches_no_cut(tokens.drop_last());
        assert(tokens.drop_last().push(tokens.last()) == tokens);
    }
}

} // verus!
