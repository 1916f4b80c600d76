//! Document search requests and responses.

use vstd::prelude::*;
use crate::copying::copy_strings;
use crate::proto;
use vstd::std_specs::convert::FromSpecImpl;
use crate::number::Float32;

verus! {

/// Request to search document collections.
#[derive(Clone, Debug)]
pub struct DocumentSearchRequest {
    /// What to look for.
    pub query: String,
    /// Collections to search.
    pub collection_ids: Vec<String>,
    /// Upper bound on results.
    pub limit: Option<i32>,
    /// Measure by which results are ranked.
    pub ranking_metric: RankingMetric,
    /// Guidance for the search.
    pub instructions: Option<String>,
}

/// What a [`DocumentSearchRequest`] holds, as mathematical values.
pub struct DocumentSearchRequestView {
    pub query: Seq<char>,
    pub collection_ids: Seq<Seq<char>>,
    pub limit: Option<i32>,
    pub ranking_metric: RankingMetric,
    pub instructions: Option<Seq<char>>,
}

impl View for DocumentSearchRequest {
    type V = DocumentSearchRequestView;

    open spec fn view(&self) -> DocumentSearchRequestView {
        DocumentSearchRequestView {
            query: self.query@,
            collection_ids: self.collection_ids.deep_view(),
            limit: self.limit,
            ranking_metric: self.ranking_metric,
            instructions: self.instructions.deep_view(),
        }
    }
}

impl DeepView for DocumentSearchRequest {
    type V = DocumentSearchRequestView;

    open spec fn deep_view(&self) -> DocumentSearchRequestView {
        self@
    }
}

/// Measure by which search results are ranked.
#[derive(Clone, Copy, Debug, PartialEq, Eq, Structural)]
pub enum RankingMetric {
    /// Euclidean distance; lower is better.
    L2Distance,
    /// Cosine similarity; higher is better.
    CosineSimilarity,
}

/// Results of a document search.
#[derive(Clone, Debug)]
pub struct DocumentSearchResponse {
    /// Matching chunks.
    pub matches: Vec<SearchMatch>,
}

/// What a [`DocumentSearchResponse`] holds, as mathematical values.
pub struct DocumentSearchResponseView {
    pub matches: Seq<SearchMatchView>,
}

impl View for DocumentSearchResponse {
    type V = DocumentSearchResponseView;

    open spec fn view(&self) -> DocumentSearchResponseView {
        DocumentSearchResponseView {
            matches: self.matches.deep_view(),
        }
    }
}

impl DeepView for DocumentSearchResponse {
    type V = DocumentSearchResponseView;

    open spec fn deep_view(&self) -> DocumentSearchResponseView {
        self@
    }
}

/// One matching chunk of a document.
#[derive(Clone, Debug)]
pub struct SearchMatch {
    /// File the chunk belongs to.
    pub file_id: String,
    /// Identifier of the chunk.
    pub chunk_id: String,
    /// Text of the chunk.
    pub content: String,
    /// Relevance score.
    pub score: Float32,
    /// Collections the file belongs to.
    pub collection_ids: Vec<String>,
}

/// What a [`SearchMatch`] holds, as mathematical values.
pub struct SearchMatchView {
    pub file_id: Seq<char>,
    pub chunk_id: Seq<char>,
    pub content: Seq<char>,
    pub score: Float32,
    pub collection_ids: Seq<Seq<char>>,
}

impl View for SearchMatch {
    type V = SearchMatchView;

    open spec fn view(&self) -> SearchMatchView {
        SearchMatchView {
            file_id: self.file_id@,
            chunk_id: self.chunk_id@,
            content: self.content@,
            score: self.score,
            collection_ids: self.collection_ids.deep_view(),
        }
    }
}

impl DeepView for SearchMatch {
    type V = SearchMatchView;

    open spec fn deep_view(&self) -> SearchMatchView {
        self@
    }
}

impl RankingMetric {
    /// The wire code of a ranking metric.
    pub open spec fn wire_code(self) -> i32 {
        match self {
            RankingMetric::L2Distance => proto::RankingMetric::L2Distance.code_spec(),
            RankingMetric::CosineSimilarity => proto::RankingMetric::CosineSimilarity.code_spec(),
        }
    }

    /// The wire code of the ranking metric.
    pub fn to_code(self) -> (code: i32)
        ensures
            code == self.wire_code(),
    {
        match self {
            RankingMetric::L2Distance => proto::RankingMetric::L2Distance.code(),
            RankingMetric::CosineSimilarity => proto::RankingMetric::CosineSimilarity.code(),
        }
    }
}

impl DocumentSearchRequestView {
    /// The wire form of the request: the collections as the source, and the
    /// ranking metric always given.
    pub open spec fn wire(self) -> proto::SearchRequestView {
        proto::SearchRequestView {
            query: self.query,
            source: Some(proto::DocumentsSourceView { collection_ids: self.collection_ids }),
            limit: self.limit,
            ranking_metric: Some(self.ranking_metric.wire_code()),
            instructions: self.instructions,
        }
    }
}

impl DocumentSearchRequest {
    /// A search for the given query, in no collection yet, ranked by
    /// Euclidean distance.
    pub fn new(query: &str) -> (request: Self)
        ensures
            request@ == (DocumentSearchRequestView {
                query: query@,
                collection_ids: Seq::empty(),
                limit: None,
                ranking_metric: RankingMetric::L2Distance,
                instructions: None,
            }),
    {
        let request = DocumentSearchRequest {
            query: query.to_string(),
            collection_ids: Vec::new(),
            limit: None,
            ranking_metric: RankingMetric::L2Distance,
            instructions: None,
        };
        assert(request.collection_ids.deep_view() =~= Seq::empty());
        request
    }

    /// Adds a collection to search.
    pub fn add_collection(self, collection_id: &str) -> (request: Self)
        ensures
            request@ == (DocumentSearchRequestView {
                collection_ids: self@.collection_ids.push(collection_id@),
                ..self@
            }),
    {
        let mut request = self;
        request.collection_ids.push(collection_id.to_string());
        assert(request.collection_ids.deep_view() =~= self.collection_ids.deep_view().push(
            collection_id@,
        ));
        request
    }

    /// Sets the upper bound on results.
    pub fn with_limit(self, limit: i32) -> (request: Self)
        ensures
            request@ == (DocumentSearchRequestView { limit: Some(limit), ..self@ }),
    {
        let mut request = self;
        request.limit = Some(limit);
        request
    }

    /// Sets the ranking metric.
    pub fn with_ranking_metric(self, metric: RankingMetric) -> (request: Self)
        ensures
            request@ == (DocumentSearchRequestView { ranking_metric: metric, ..self@ }),
    {
        let mut request = self;
        request.ranking_metric = metric;
        request
    }

    /// Sets the guidance for the search.
    pub fn with_instructions(self, instructions: &str) -> (request: Self)
        ensures
            request@ == (DocumentSearchRequestView { instructions: Some(instructions@), ..self@ }),
    {
        let mut request = self;
        request.instructions = Some(instructions.to_string());
        request
    }
}

impl SearchMatchView {
    /// The match that a wire message stands for: the same five values.
    pub open spec fn from_wire(wire: proto::SearchMatchView) -> SearchMatchView {
        SearchMatchView {
            file_id: wire.file_id,
            chunk_id: wire.chunk_id,
            content: wire.chunk_content,
            score: wire.score,
            collection_ids: wire.collection_ids,
        }
    }
}

impl From<proto::SearchMatch> for SearchMatch {
    /// Reads a match from its wire message.
    fn from(proto: proto::SearchMatch) -> (found: SearchMatch)
        ensures
            found@ == SearchMatchView::from_wire(proto@),
    {
        SearchMatch {
            file_id: proto.file_id,
            chunk_id: proto.chunk_id,
            content: proto.chunk_content,
            score: proto.score,
            collection_ids: proto.collection_ids,
        }
    }
}

impl FromSpecImpl<proto::SearchMatch> for SearchMatch {
    open spec fn obeys_from_spec() -> bool {
        false
    }

    open spec fn from_spec(proto: proto::SearchMatch) -> SearchMatch {
        arbitrary()
    }
}

impl DocumentSearchResponseView {
    /// The response that a wire message stands for: the matches one for one
    /// and in the same order.
    pub open spec fn from_wire(wire: proto::SearchResponseView) -> DocumentSearchResponseView {
        DocumentSearchResponseView {
            matches: Seq::new(wire.matches.len(), |i: int| SearchMatchView::from_wire(wire.matches[i])),
        }
    }
}

impl From<proto::SearchResponse> for DocumentSearchResponse {
    /// Reads a search response from its wire message.
    fn from(proto: proto::SearchResponse) -> (response: DocumentSearchResponse)
        ensures
            response@ == DocumentSearchResponseView::from_wire(proto@),
    {
        let mut matches: Vec<SearchMatch> = Vec::new();
        let mut i: usize = 0;
        while i < proto.matches.len()
            invariant
                i <= proto.matches@.len(),
                matches@.len() == i,
                forall|j: int|
                    0 <= j < i ==> (#[trigger] matches@[j])@ == SearchMatchView::from_wire(
                        proto.matches@[j]@,
                    ),
            decreases proto.matches@.len() - i,
        {
            let wire = &proto.matches[i];
            matches.push(
                SearchMatch {
                    file_id: wire.file_id.clone(),
                    chunk_id: wire.chunk_id.clone(),
                    content: wire.chunk_content.clone(),
                    score: wire.score,
                    collection_ids: copy_strings(&wire.collection_ids),
                },
            );
            i += 1;
        }
        assert(matches.deep_view() =~= DocumentSearchResponseView::from_wire(proto@).matches);
        DocumentSearchResponse { matches }
    }
}

impl FromSpecImpl<proto::SearchResponse> for DocumentSearchResponse {
    open spec fn obeys_from_spec() -> bool {
        false
    }

    open spec fn from_spec(proto: proto::SearchResponse) -> DocumentSearchResponse {
        arbitrary()
    }
}

} // verus!
