//! Messages of the document search service.

use vstd::prelude::*;
use crate::number::Float32;

verus! {

/// Request to search documents.
#[derive(Clone, Debug)]
pub struct SearchRequest {
    /// What to look for.
    pub query: String,
    /// Where to look.
    pub source: Option<DocumentsSource>,
    /// Upper bound on results.
    pub limit: Option<i32>,
    /// Code of the ranking metric.
    pub ranking_metric: Option<i32>,
    /// Guidance for the search.
    pub instructions: Option<String>,
}

/// What a [`SearchRequest`] holds, as mathematical values.
pub struct SearchRequestView {
    pub query: Seq<char>,
    pub source: Option<DocumentsSourceView>,
    pub limit: Option<i32>,
    pub ranking_metric: Option<i32>,
    pub instructions: Option<Seq<char>>,
}

impl View for SearchRequest {
    type V = SearchRequestView;

    open spec fn view(&self) -> SearchRequestView {
        SearchRequestView {
            query: self.query@,
            source: self.source.deep_view(),
            limit: self.limit,
            ranking_metric: self.ranking_metric,
            instructions: self.instructions.deep_view(),
        }
    }
}

impl DeepView for SearchRequest {
    type V = SearchRequestView;

    open spec fn deep_view(&self) -> SearchRequestView {
        self@
    }
}

/// Collections to search.
#[derive(Clone, Debug)]
pub struct DocumentsSource {
    /// Identifiers of the collections.
    pub collection_ids: Vec<String>,
}

/// What a [`DocumentsSource`] holds, as mathematical values.
pub struct DocumentsSourceView {
    pub collection_ids: Seq<Seq<char>>,
}

impl View for DocumentsSource {
    type V = DocumentsSourceView;

    open spec fn view(&self) -> DocumentsSourceView {
        DocumentsSourceView {
            collection_ids: self.collection_ids.deep_view(),
        }
    }
}

impl DeepView for DocumentsSource {
    type V = DocumentsSourceView;

    open spec fn deep_view(&self) -> DocumentsSourceView {
        self@
    }
}

/// Results of a document search.
#[derive(Clone, Debug)]
pub struct SearchResponse {
    /// Matching chunks, best first.
    pub matches: Vec<SearchMatch>,
}

/// What a [`SearchResponse`] holds, as mathematical values.
pub struct SearchResponseView {
    pub matches: Seq<SearchMatchView>,
}

impl View for SearchResponse {
    type V = SearchResponseView;

    open spec fn view(&self) -> SearchResponseView {
        SearchResponseView {
            matches: self.matches.deep_view(),
        }
    }
}

impl DeepView for SearchResponse {
    type V = SearchResponseView;

    open spec fn deep_view(&self) -> SearchResponseView {
        self@
    }
}

/// One matching chunk.
#[derive(Clone, Debug)]
pub struct SearchMatch {
    /// File the chunk belongs to.
    pub file_id: String,
    /// Identifier of the chunk.
    pub chunk_id: String,
    /// Text of the chunk.
    pub chunk_content: String,
    /// Relevance score.
    pub score: Float32,
    /// Collections the file belongs to.
    pub collection_ids: Vec<String>,
}

/// What a [`SearchMatch`] holds, as mathematical values.
pub struct SearchMatchView {
    pub file_id: Seq<char>,
    pub chunk_id: Seq<char>,
    pub chunk_content: Seq<char>,
    pub score: Float32,
    pub collection_ids: Seq<Seq<char>>,
}

impl View for SearchMatch {
    type V = SearchMatchView;

    open spec fn view(&self) -> SearchMatchView {
        SearchMatchView {
            file_id: self.file_id@,
            chunk_id: self.chunk_id@,
            chunk_content: self.chunk_content@,
            score: self.score,
            collection_ids: self.collection_ids.deep_view(),
        }
    }
}

impl DeepView for SearchMatch {
    type V = SearchMatchView;

    open spec fn deep_view(&self) -> SearchMatchView {
        self@
    }
}

} // verus!
