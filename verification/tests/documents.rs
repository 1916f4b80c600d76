use xai_grpc_client::proto;
use xai_grpc_client::{
    DocumentSearchRequest, DocumentSearchResponse, Float32, RankingMetric, SearchMatch,
};

fn num(x: f32) -> Float32 {
    Float32::from_bits(x.to_bits())
}

fn val(x: Float32) -> f32 {
    f32::from_bits(x.to_bits())
}

#[test]
fn test_document_search_request_builder() {
    let request = DocumentSearchRequest::new("quantum computing basics")
        .add_collection("col-1")
        .add_collection("col-2")
        .with_limit(20)
        .with_ranking_metric(RankingMetric::CosineSimilarity)
        .with_instructions("Focus on recent research");

    assert_eq!(request.query, "quantum computing basics");
    assert_eq!(request.collection_ids.len(), 2);
    assert_eq!(request.collection_ids[0], "col-1");
    assert_eq!(request.collection_ids[1], "col-2");
    assert_eq!(request.limit, Some(20));
    assert_eq!(request.ranking_metric, RankingMetric::CosineSimilarity);
    assert_eq!(request.instructions, Some("Focus on recent research".to_string()));
}

#[test]
fn test_document_search_request_minimal() {
    let request = DocumentSearchRequest::new("test query");

    assert_eq!(request.query, "test query");
    assert_eq!(request.collection_ids.len(), 0);
    assert_eq!(request.limit, None);
    assert_eq!(request.ranking_metric, RankingMetric::L2Distance);
    assert_eq!(request.instructions, None);
}

#[test]
fn test_ranking_metric() {
    assert_eq!(RankingMetric::L2Distance, RankingMetric::L2Distance);
    assert_eq!(RankingMetric::CosineSimilarity, RankingMetric::CosineSimilarity);
    assert_ne!(RankingMetric::L2Distance, RankingMetric::CosineSimilarity);
}

#[test]
fn test_search_match_from_proto() {
    let proto_match = proto::SearchMatch {
        file_id: "file-123".to_string(),
        chunk_id: "chunk-456".to_string(),
        chunk_content: "This is the matched content".to_string(),
        score: num(0.95),
        collection_ids: vec!["col-1".to_string(), "col-2".to_string()],
    };

    let search_match: SearchMatch = proto_match.into();
    assert_eq!(search_match.file_id, "file-123");
    assert_eq!(search_match.chunk_id, "chunk-456");
    assert_eq!(search_match.content, "This is the matched content");
    assert_eq!(val(search_match.score), 0.95);
    assert_eq!(search_match.collection_ids.len(), 2);
    assert_eq!(search_match.collection_ids[0], "col-1");
}

#[test]
fn test_document_search_response_from_proto() {
    let proto_response = proto::SearchResponse {
        matches: vec![
            proto::SearchMatch {
                file_id: "file-1".to_string(),
                chunk_id: "chunk-1".to_string(),
                chunk_content: "Content 1".to_string(),
                score: num(0.9),
                collection_ids: vec!["col-1".to_string()],
            },
            proto::SearchMatch {
                file_id: "file-2".to_string(),
                chunk_id: "chunk-2".to_string(),
                chunk_content: "Content 2".to_string(),
                score: num(0.8),
                collection_ids: vec!["col-2".to_string()],
            },
        ],
    };

    let response: DocumentSearchResponse = proto_response.into();
    assert_eq!(response.matches.len(), 2);
    assert_eq!(response.matches[0].file_id, "file-1");
    assert_eq!(response.matches[0].content, "Content 1");
    assert_eq!(val(response.matches[0].score), 0.9);
    assert_eq!(response.matches[1].file_id, "file-2");
}

#[test]
fn test_document_search_request_clone() {
    let request = DocumentSearchRequest::new("query")
        .add_collection("col-1")
        .with_limit(10);

    let cloned = request.clone();
    assert_eq!(cloned.query, request.query);
    assert_eq!(cloned.collection_ids, request.collection_ids);
    assert_eq!(cloned.limit, request.limit);
}

#[test]
fn test_search_match_clone() {
    let search_match = SearchMatch {
        file_id: "file-1".to_string(),
        chunk_id: "chunk-1".to_string(),
        content: "content".to_string(),
        score: num(0.9),
        collection_ids: vec!["col-1".to_string()],
    };

    let cloned = search_match.clone();
    assert_eq!(cloned.file_id, search_match.file_id);
    assert_eq!(cloned.chunk_id, search_match.chunk_id);
    assert_eq!(cloned.content, search_match.content);
    assert_eq!(val(cloned.score), val(search_match.score));
}
