//! What the two readers share: the requests that a search puts to the
//! engine, the merging of what the stages found, and the page of hits.
//!
//! A search is run in steps. The run hands out one request at a time; the
//! engine's answer to it is handed back in and merged; once no request is
//! left, the page of addresses is read off and hydrated.

pub mod bots;
pub mod packs;

use crate::search::queries::{FilteredQuery, FilteredQueryView};
use crate::search::ranking::Order;
use crate::search::{hits_of, lemma_hits_within_docs, FromTantivyDoc};
use tantivy::Document;
use vstd::prelude::*;

verus! {

/// The number of buckets asked of the tag distribution.
pub const DISTRIBUTION_BUCKETS: u32 = 1000;

/// The place of a document in a snapshot of the index: a segment and a
/// document within it.
#[derive(Debug, Copy, Clone, PartialEq, Eq, Structural)]
pub struct DocAddress {
    pub segment_ord: u32,
    pub doc_id: u32,
}

/// A test on the value that a document holds in a fast field.
#[derive(Debug, Copy, Clone)]
pub enum Predicate {
    /// The value is the given one.
    Equals(u64),
    /// The value has at least one of the given bits.
    BitsAny(u64),
    /// The value has all of the given bits.
    BitsAll(u64),
}

impl Predicate {
    /// Whether a value passes the test.
    pub open spec fn holds(self, value: u64) -> bool {
        match self {
            Predicate::Equals(wanted) => value == wanted,
            Predicate::BitsAny(mask) => value & mask != 0,
            Predicate::BitsAll(mask) => value & mask == mask,
        }
    }

    /// Tests a value.
    pub fn accepts(&self, value: u64) -> (passes: bool)
        ensures
            passes == self.holds(value),
    {
        match self {
            Predicate::Equals(wanted) => value == *wanted,
            Predicate::BitsAny(mask) => (value & *mask) != 0,
            Predicate::BitsAll(mask) => (value & *mask) == *mask,
        }
    }
}

/// A filter on a fast field: documents whose value fails the test are
/// dropped before they reach a collector.
#[derive(Debug, Copy, Clone)]
pub struct ValueFilter {
    pub field: u32,
    pub predicate: Predicate,
}

/// What the documents of a stage are ranked by.
#[derive(Debug)]
pub enum Ranking<K> {
    /// The engine's own score.
    Score,
    /// The key that the sort option gives to the id held in the fast
    /// field; ties go to the higher score.
    ByKey { id_field: u32, sort: K },
}

/// One request to the engine: the best `limit` documents of a query under
/// a ranking, a direction and an optional value filter.
#[derive(Debug)]
pub struct StageRequest<K> {
    pub query: FilteredQuery,
    pub limit: usize,
    pub ranking: Ranking<K>,
    pub order: Order,
    pub filter: Option<ValueFilter>,
}

/// What a stage request says.
pub struct StageRequestView<K> {
    pub query: FilteredQueryView,
    pub limit: usize,
    pub ranking: Ranking<K>,
    pub order: Order,
    pub filter: Option<ValueFilter>,
}

impl<K> View for StageRequest<K> {
    type V = StageRequestView<K>;

    open spec fn view(&self) -> StageRequestView<K> {
        StageRequestView {
            query: self.query@,
            limit: self.limit,
            ranking: self.ranking,
            order: self.order,
            filter: self.filter,
        }
    }
}

/// The request for the hit count and the tag distribution: the number of
/// documents that match the query and pass the filter, and the most
/// frequent terms of the aggregation field among them.
#[derive(Debug)]
pub struct AggregateRequest {
    pub query: FilteredQuery,
    pub field: u32,
    pub buckets: u32,
    pub filter: Option<ValueFilter>,
}

/// What an aggregate request says.
pub struct AggregateRequestView {
    pub query: FilteredQueryView,
    pub field: u32,
    pub buckets: u32,
    pub filter: Option<ValueFilter>,
}

impl View for AggregateRequest {
    type V = AggregateRequestView;

    open spec fn view(&self) -> AggregateRequestView {
        AggregateRequestView {
            query: self.query@,
            field: self.field,
            buckets: self.buckets,
            filter: self.filter,
        }
    }
}

/// One bucket of the tag distribution.
#[derive(Debug)]
pub struct TagCount {
    pub tag: String,
    pub count: u64,
}

/// What a search returns: the number of documents that matched, the tag
/// distribution, and the page of hits.
#[derive(Debug)]
pub struct SearchResult<T> {
    pub total: usize,
    pub distribution: Vec<TagCount>,
    pub hits: Vec<T>,
}

/// The list of addresses after one stage's findings are merged in: each
/// found address is appended in order, unless it is on the list already or
/// the list holds `wanted` addresses.
pub open spec fn merge_stage(
    so_far: Seq<DocAddress>,
    found: Seq<DocAddress>,
    wanted: nat,
) -> Seq<DocAddress>
    decreases found.len(),
{
    if found.len() == 0 {
        so_far
    } else {
        let before = merge_stage(so_far, found.drop_last(), wanted);
        if before.len() < wanted && !before.contains(found.last()) {
            before.push(found.last())
        } else {
            before
        }
    }
}

/// Merging keeps a list free of repetitions and within `wanted`, keeps
/// what was on it in place, and adds found addresses only.
pub proof fn lemma_merge_stage(so_far: Seq<DocAddress>, found: Seq<DocAddress>, wanted: nat)
    requires
        so_far.no_duplicates(),
        so_far.len() <= wanted,
    ensures
        merge_stage(so_far, found, wanted).no_duplicates(),
        merge_stage(so_far, found, wanted).len() <= wanted,
        so_far.is_prefix_of(merge_stage(so_far, found, wanted)),
        forall|i: int|
            so_far.len() <= i < merge_stage(so_far, found, wanted).len() ==> found.contains(
                #[trigger] merge_stage(so_far, found, wanted)[i],
            ),
    decreases found.len(),
{
    if found.len() > 0 {
        lemma_merge_stage(so_far, found.drop_last(), wanted);
        let before = merge_stage(so_far, found.drop_last(), wanted);
        let after = merge_stage(so_far, found, wanted);
        assert forall|i: int| so_far.len() <= i < after.len() implies found.contains(
            #[trigger] after[i],
        ) by {
            if i < before.len() {
                let j = choose|j: int|
                    0 <= j < found.drop_last().len() && found.drop_last()[j] == before[i];
                assert(found[j] == after[i]);
            } else {
                assert(found[found.len() - 1] == after[i]);
            }
        }
    }
}

/// Merges what a stage found into the list.
pub fn filter_down_addresses(docs: &Vec<DocAddress>, results: &mut Vec<DocAddress>, wanted: usize)
    ensures
        final(results)@ == merge_stage(old(results)@, docs@, wanted as nat),
{
    let ghost start = results@;
    let mut i: usize = 0;
    while i < docs.len()
        invariant
            i <= docs.len(),
            results@ == merge_stage(start, docs@.take(i as int), wanted as nat),
        decreases docs.len() - i,
    {
        let address = docs[i];
        proof {
            assert(docs@.take(i + 1).drop_last() == docs@.take(i as int));
        }
        if results.len() < wanted && !holds_address(results, address) {
            results.push(address);
        }
        i += 1;
    }
    proof {
        assert(docs@.take(docs.len() as int) == docs@);
    }
}

/// Whether the list holds the address.
fn holds_address(list: &Vec<DocAddress>, address: DocAddress) -> (found: bool)
    ensures
        found == list@.contains(address),
{
    let mut i: usize = 0;
    while i < list.len()
        invariant
            i <= list.len(),
            forall|j: int| 0 <= j < i ==> list[j] != address,
        decreases list.len() - i,
    {
        if list[i] == address {
            return true;
        }
        i += 1;
    }
    false
}

/// The views of a run of hits.
pub open spec fn hit_views<T: View>(hits: Seq<T>) -> Seq<T::V> {
    Seq::new(hits.len(), |i: int| hits[i]@)
}

/// The first `limit` of a run of documents, or all of them where there
/// are fewer.
pub open spec fn first_docs(docs: Seq<Document>, limit: nat) -> Seq<Document> {
    if limit < docs.len() {
        docs.take(limit as int)
    } else {
        docs
    }
}

/// Fills the hits of a page from its stored documents, in order, looking
/// at no more than the first `limit` documents. A document whose id the
/// source does not know is passed over.
pub fn extract_search_data<S, T: FromTantivyDoc<S>>(
    source: &S,
    id_field: u32,
    docs: &Vec<Document>,
    limit: usize,
) -> (hits: Vec<T>)
    ensures
        hit_views(hits@) == hits_of::<S, T>(source, id_field, first_docs(docs@, limit as nat)),
        hits@.len() <= limit,
        hits@.len() <= docs@.len(),
{
    let mut hits: Vec<T> = Vec::new();
    let count = if limit < docs.len() {
        limit
    } else {
        docs.len()
    };
    let ghost page = first_docs(docs@, limit as nat);
    let mut i: usize = 0;
    assert(hit_views(hits@) =~= hits_of::<S, T>(source, id_field, page.take(0)));
    while i < count
        invariant
            i <= count,
            count == page.len(),
            count <= docs.len(),
            forall|j: int| 0 <= j < count ==> page[j] == docs[j],
            hit_views(hits@) == hits_of::<S, T>(source, id_field, page.take(i as int)),
        decreases count - i,
    {
        let ghost before = hit_views(hits@);
        proof {
            assert(page.take(i + 1).drop_last() == page.take(i as int));
        }
        match T::from_doc(source, id_field, &docs[i]) {
            Some(hit) => {
                hits.push(hit);
                assert(hit_views(hits@) =~= before.push(hit@));
            },
            None => {},
        }
        i += 1;
    }
    proof {
        assert(page.take(page.len() as int) == page);
        lemma_hits_within_docs::<S, T>(source, id_field, page);
        assert(hit_views(hits@).len() == hits@.len());
    }
    hits
}

/// The request for the hit count and the tag distribution of a query: the
/// most frequent terms of the aggregation field, in 1000 buckets at most.
pub fn search_aggregate(query: FilteredQuery, field: u32, filter: Option<ValueFilter>) -> (request:
    AggregateRequest)
    ensures
        request@ == (AggregateRequestView {
            query: query@,
            field,
            buckets: DISTRIBUTION_BUCKETS,
            filter,
        }),
{
    AggregateRequest { query, field, buckets: DISTRIBUTION_BUCKETS, filter }
}

/// The tag distribution that the engine's answer stands for: its buckets,
/// or none where the aggregation came back without buckets.
pub open spec fn distribution_of_buckets(buckets: Option<Vec<TagCount>>) -> Seq<TagCount> {
    match buckets {
        Some(counts) => counts@,
        None => Seq::empty(),
    }
}

/// The page of a list of addresses: what follows the first `offset`.
pub open spec fn page_of(found: Seq<DocAddress>, offset: nat) -> Seq<DocAddress> {
    if offset >= found.len() {
        Seq::empty()
    } else {
        found.skip(offset as int)
    }
}

/// A list that is full stays as it is: once `wanted` addresses are found,
/// the findings of a further stage add nothing, so no further stage needs
/// to be run.
pub proof fn lemma_full_list_stays(so_far: Seq<DocAddress>, found: Seq<DocAddress>, wanted: nat)
    requires
        so_far.len() >= wanted,
    ensures
        merge_stage(so_far, found, wanted) == so_far,
    decreases found.len(),
{
    if found.len() > 0 {
        lemma_full_list_stays(so_far, found.drop_last(), wanted);
    }
}

/// A page never holds more addresses than the count counts documents,
/// where every address that was found is one of the documents that the
/// count counts. That is so where the stages find nothing but documents
/// that match the distribution query: a search over everything, or one
/// whose tokens are all too short for the fuzzy stages.
pub proof fn lemma_page_within_count(
    found: Seq<DocAddress>,
    offset: nat,
    counted: Set<DocAddress>,
)
    requires
        found.no_duplicates(),
        counted.finite(),
        forall|i: int| 0 <= i < found.len() ==> counted.contains(#[trigger] found[i]),
    ensures
        page_of(found, offset).len() <= counted.len(),
{
    found.unique_seq_to_set();
    assert(found.to_set().subset_of(counted)) by {
        assert forall|address: DocAddress| found.to_set().contains(address) implies counted.contains(
            address,
        ) by {
            let i = choose|i: int| 0 <= i < found.len() && found[i] == address;
            assert(counted.contains(found[i]));
        }
    }
    vstd::set_lib::lemma_len_subset(found.to_set(), counted);
}

/// Whether a value passes an optional value filter.
pub open spec fn passes(filter: Option<ValueFilter>, value: u64) -> bool {
    match filter {
        Some(given) => given.predicate.holds(value),
        None => true,
    }
}

/// A value filter only ever drops documents: of any finite set of
/// documents, those that pass a filter are among those that pass without
/// one, and are no more in number.
pub proof fn lemma_value_filter_narrows(
    matched: Set<DocAddress>,
    values: spec_fn(DocAddress) -> u64,
    filter: ValueFilter,
)
    requires
        matched.finite(),
    ensures
        matched.filter(|address: DocAddress| passes(Some(filter), values(address))).subset_of(
            matched.filter(|address: DocAddress| passes(None, values(address))),
        ),
        matched.filter(|address: DocAddress| passes(None, values(address))) == matched,
        matched.filter(|address: DocAddress| passes(Some(filter), values(address))).len()
            <= matched.len(),
{
    matched.lemma_len_filter(|address: DocAddress| passes(Some(filter), values(address)));
    assert(matched.filter(|address: DocAddress| passes(None, values(address))) =~= matched);
}

/// A search in progress: the requests still to be put to the engine, and
/// the addresses found so far.
pub struct SearchRun<K> {
    stages: Vec<StageRequest<K>>,
    cursor: usize,
    found: Vec<DocAddress>,
    limit: usize,
    offset: usize,
    aggregate: AggregateRequest,
}

impl<K> SearchRun<K> {
    /// The requests of the run, in the order they are put.
    pub closed spec fn stages(self) -> Seq<StageRequest<K>> {
        self.stages@
    }

    /// How many requests have been answered.
    pub closed spec fn answered(self) -> nat {
        self.cursor as nat
    }

    /// The addresses found so far, best first.
    pub closed spec fn found(self) -> Seq<DocAddress> {
        self.found@
    }

    /// The size of a page.
    pub closed spec fn limit(self) -> nat {
        self.limit as nat
    }

    /// How many addresses come before the page.
    pub closed spec fn offset(self) -> nat {
        self.offset as nat
    }

    /// The request for the hit count and the tag distribution.
    pub closed spec fn aggregate(self) -> AggregateRequest {
        self.aggregate
    }

    /// How many addresses the run collects at most: those before the page
    /// and the page.
    pub open spec fn wanted(self) -> nat {
        self.limit() + self.offset()
    }

    /// A run is well formed when no more requests are answered than there
    /// are, and its list is free of repetitions and within what is wanted.
    pub open spec fn wf(self) -> bool {
        &&& self.answered() <= self.stages().len()
        &&& self.wanted() <= usize::MAX
        &&& self.found().len() <= self.wanted()
        &&& self.found().no_duplicates()
    }

    /// Whether a request is still to be put: one is left, and the list is
    /// not full.
    pub open spec fn pending(self) -> bool {
        self.answered() < self.stages().len() && self.found().len() < self.wanted()
    }

    /// A run that has found nothing yet.
    pub fn new(
        stages: Vec<StageRequest<K>>,
        aggregate: AggregateRequest,
        limit: usize,
        offset: usize,
    ) -> (run: Self)
        requires
            limit + offset <= usize::MAX,
        ensures
            run.stages() == stages@,
            run.aggregate() == aggregate,
            run.limit() == limit,
            run.offset() == offset,
            run.answered() == 0,
            run.found() == Seq::<DocAddress>::empty(),
            run.wf(),
    {
        SearchRun { stages, cursor: 0, found: Vec::new(), limit, offset, aggregate }
    }

    /// The next request to put to the engine; `None` when every request is
    /// answered or the list is full.
    pub fn next_request(&self) -> (request: Option<&StageRequest<K>>)
        requires
            self.wf(),
        ensures
            self.pending() ==> request == Some(&self.stages()[self.answered() as int]),
            !self.pending() ==> request.is_none(),
    {
        if self.cursor < self.stages.len() && self.found.len() < self.limit + self.offset {
            Some(&self.stages[self.cursor])
        } else {
            None
        }
    }

    /// Takes the engine's answer to the pending request and merges it into
    /// the list. Without a pending request the answer is dropped.
    pub fn absorb(&mut self, docs: &Vec<DocAddress>)
        requires
            old(self).wf(),
        ensures
            final(self).wf(),
            final(self).stages() == old(self).stages(),
            final(self).aggregate() == old(self).aggregate(),
            final(self).limit() == old(self).limit(),
            final(self).offset() == old(self).offset(),
            old(self).pending() ==> final(self).answered() == old(self).answered() + 1
                && final(self).found() == merge_stage(
                old(self).found(),
                docs@,
                old(self).wanted(),
            ),
            !old(self).pending() ==> final(self).answered() == old(self).answered()
                && final(self).found() == old(self).found(),
    {
        if self.cursor < self.stages.len() && self.found.len() < self.limit + self.offset {
            proof {
                lemma_merge_stage(self.found@, docs@, (self.limit + self.offset) as nat);
            }
            filter_down_addresses(docs, &mut self.found, self.limit + self.offset);
            self.cursor += 1;
        }
    }

    /// The request for the hit count and the tag distribution.
    pub fn aggregate_request(&self) -> (request: &AggregateRequest)
        ensures
            *request == self.aggregate(),
    {
        &self.aggregate
    }

    /// Puts the result of the run together: the count as the engine gave
    /// it, the tag distribution from the engine's buckets, and the hits
    /// that the stored documents of the page stand for. The documents come
    /// in the order of the page; no more than `limit` of them are looked at.
    pub fn finish<S, T: FromTantivyDoc<S>>(
        &self,
        source: &S,
        id_field: u32,
        docs: &Vec<Document>,
        total: usize,
        buckets: Option<Vec<TagCount>>,
    ) -> (result: SearchResult<T>)
        ensures
            result.total == total,
            result.distribution@ == distribution_of_buckets(buckets),
            hit_views(result.hits@) == hits_of::<S, T>(
                source,
                id_field,
                first_docs(docs@, self.limit()),
            ),
            result.hits@.len() <= self.limit(),
            result.hits@.len() <= docs@.len(),
    {
        let hits = extract_search_data::<S, T>(source, id_field, docs, self.limit);
        let distribution = match buckets {
            Some(counts) => counts,
            None => Vec::new(),
        };
        SearchResult { total, distribution, hits }
    }

    /// The page: the found addresses after the first `offset`; never more
    /// than `limit`, and none when fewer than `offset` were found.
    pub fn page(&self) -> (addresses: Vec<DocAddress>)
        requires
            self.wf(),
        ensures
            addresses@ == page_of(self.found(), self.offset()),
            addresses@.len() <= self.limit(),
            addresses@.no_duplicates(),
            self.found().len() <= self.offset() ==> addresses@.len() == 0,
    {
        let mut addresses: Vec<DocAddress> = Vec::new();
        if self.offset >= self.found.len() {
            return addresses;
        }
        let mut i: usize = self.offset;
        while i < self.found.len()
            invariant
                self.offset <= i <= self.found.len(),
                addresses@ == self.found@.subrange(self.offset as int, i as int),
            decreases self.found.len() - i,
        {
            addresses.push(self.found[i]);
            assert(addresses@ =~= self.found@.subrange(self.offset as int, i + 1));
            i += 1;
        }
        assert(addresses@ =~= self.found@.skip(self.offset as int));
        proof {
            assert forall|i: int, j: int|
                0 <= i < addresses@.len() && 0 <= j < addresses@.len() && i != j implies addresses@[i]
                != addresses@[j] by {
                assert(addresses@[i] == self.found@[i + self.offset]);
                assert(addresses@[j] == self.found@[j + self.offset]);
            }
        }
        addresses
    }
}

} // verus!
