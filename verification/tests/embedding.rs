use xai_grpc_client::proto;
use xai_grpc_client::{EmbedEncodingFormat, EmbedInput, EmbedRequest, EmbeddingUsage, ImageDetail};

#[test]
fn test_embed_request_builder() {
    let request = EmbedRequest::new("embed-large-v1")
        .add_text("Hello")
        .add_text("World");

    assert_eq!(request.model, "embed-large-v1");
    assert_eq!(request.inputs.len(), 2);
    assert!(matches!(request.inputs[0], EmbedInput::Text(_)));
}

#[test]
fn test_embed_request_with_images() {
    let request = EmbedRequest::new("embed-vision-v1")
        .add_image("https://example.com/img1.jpg")
        .add_image_with_detail("https://example.com/img2.jpg", ImageDetail::High);

    assert_eq!(request.inputs.len(), 2);
    assert!(matches!(request.inputs[0], EmbedInput::Image { .. }));
    assert!(matches!(request.inputs[1], EmbedInput::Image { .. }));
}

#[test]
fn test_embed_request_mixed() {
    let request = EmbedRequest::new("embed-multimodal-v1")
        .add_text("Description")
        .add_image("https://example.com/img.jpg");

    assert_eq!(request.inputs.len(), 2);
}

#[test]
fn test_encoding_format() {
    let request =
        EmbedRequest::new("embed-large-v1").with_encoding_format(EmbedEncodingFormat::Base64);

    assert_eq!(request.encoding_format, EmbedEncodingFormat::Base64);
}

#[test]
fn test_with_user() {
    let request = EmbedRequest::new("embed-large-v1").with_user("user123");

    assert_eq!(request.user, Some("user123".to_string()));
}

#[test]
fn test_embedding_usage_default() {
    let usage = EmbeddingUsage::default();
    assert_eq!(usage.num_text_embeddings, 0);
    assert_eq!(usage.num_image_embeddings, 0);
}

#[test]
fn test_embedding_usage_from_proto() {
    let proto = proto::EmbeddingUsage {
        num_text_embeddings: 5,
        num_image_embeddings: 2,
    };

    let usage: EmbeddingUsage = proto.into();
    assert_eq!(usage.num_text_embeddings, 5);
    assert_eq!(usage.num_image_embeddings, 2);
}
