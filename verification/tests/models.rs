use xai_grpc_client::models::{modalities_from_codes, modality_from_code};
use xai_grpc_client::proto;
use xai_grpc_client::{EmbeddingModel, ImageGenerationModel, LanguageModel, Modality};

fn create_test_model() -> LanguageModel {
    LanguageModel {
        name: "grok-2".to_string(),
        aliases: vec!["grok-latest".to_string()],
        version: "1.0".to_string(),
        input_modalities: vec![Modality::Text],
        output_modalities: vec![Modality::Text],
        prompt_text_token_price: 500,
        prompt_image_token_price: 0,
        cached_prompt_token_price: 50,
        completion_text_token_price: 1500,
        search_price: 0,
        max_prompt_length: 131072,
        system_fingerprint: "fp_test".to_string(),
    }
}

#[test]
fn test_supports_multimodal_text_only() {
    let text_only = LanguageModel {
        input_modalities: vec![Modality::Text],
        output_modalities: vec![Modality::Text],
        ..create_test_model()
    };

    assert!(!text_only.supports_multimodal());
}

#[test]
fn test_supports_multimodal_vision() {
    let multimodal = LanguageModel {
        input_modalities: vec![Modality::Text, Modality::Image],
        output_modalities: vec![Modality::Text],
        ..create_test_model()
    };

    assert!(multimodal.supports_multimodal());
}

#[test]
fn test_supports_multimodal_image_only() {
    let image_only = LanguageModel {
        input_modalities: vec![Modality::Image],
        output_modalities: vec![Modality::Image],
        ..create_test_model()
    };

    assert!(!image_only.supports_multimodal());
}

#[test]
fn test_modality_from_proto() {
    assert_eq!(Modality::from(proto::Modality::Text), Modality::Text);
    assert_eq!(Modality::from(proto::Modality::Image), Modality::Image);
    assert_eq!(
        Modality::from(proto::Modality::Embedding),
        Modality::Embedding
    );
    // Invalid should default to Text
    assert_eq!(
        Modality::from(proto::Modality::InvalidModality),
        Modality::Text
    );
}

#[test]
fn test_language_model_clone() {
    let model = create_test_model();
    let cloned = model.clone();

    assert_eq!(model.name, cloned.name);
    assert_eq!(model.version, cloned.version);
    assert_eq!(model.max_prompt_length, cloned.max_prompt_length);
}

#[test]
fn test_language_model_debug() {
    let model = create_test_model();
    let debug_str = format!("{model:?}");
    assert!(debug_str.contains("grok-2"));
    assert!(debug_str.contains("1.0"));
}

#[test]
fn test_language_model_aliases() {
    let model = create_test_model();
    assert_eq!(model.aliases.len(), 1);
    assert_eq!(model.aliases[0], "grok-latest");
}

#[test]
fn test_language_model_from_proto() {
    let proto_model = proto::LanguageModel {
        name: "test-model".to_string(),
        aliases: vec!["test-alias".to_string()],
        version: "2.0".to_string(),
        input_modalities: vec![proto::Modality::Text as i32, proto::Modality::Image as i32],
        output_modalities: vec![proto::Modality::Text as i32],
        prompt_text_token_price: 1000,
        prompt_image_token_price: 2000,
        cached_prompt_token_price: 100,
        completion_text_token_price: 3000,
        search_price: 500,
        created: None,
        max_prompt_length: 32768,
        system_fingerprint: "fp_test_123".to_string(),
    };

    let model: LanguageModel = proto_model.into();

    assert_eq!(model.name, "test-model");
    assert_eq!(model.aliases, vec!["test-alias"]);
    assert_eq!(model.version, "2.0");
    assert_eq!(model.input_modalities.len(), 2);
    assert!(model.input_modalities.contains(&Modality::Text));
    assert!(model.input_modalities.contains(&Modality::Image));
    assert_eq!(model.prompt_text_token_price, 1000);
    assert_eq!(model.prompt_image_token_price, 2000);
    assert_eq!(model.cached_prompt_token_price, 100);
    assert_eq!(model.completion_text_token_price, 3000);
    assert_eq!(model.search_price, 500);
    assert_eq!(model.max_prompt_length, 32768);
    assert_eq!(model.system_fingerprint, "fp_test_123");
}

/// The cost in dollars: the exact cost in hundred-millionths, divided.
fn calculate_cost(model: &LanguageModel, prompt: u32, completion: u32, cached: u32) -> f64 {
    model.cost_units(prompt, completion, cached) as f64 / 100_000_000.0
}

#[test]
fn test_calculate_cost_basic() {
    let model = create_test_model();
    let cost = calculate_cost(&model, 1000, 500, 0);
    assert!(
        (cost - 0.0125).abs() < 0.0001,
        "Expected ~$0.0125, got ${cost}"
    );
}

#[test]
fn test_calculate_cost_with_cached() {
    let model = create_test_model();
    let cost = calculate_cost(&model, 1000, 500, 10000);
    assert!(
        (cost - 0.0175).abs() < 0.0001,
        "Expected ~$0.0175, got ${cost}"
    );
}

#[test]
fn test_calculate_cost_large_numbers() {
    let model = create_test_model();
    let cost = calculate_cost(&model, 1_000_000, 100_000, 0);
    assert!((cost - 6.5).abs() < 0.01, "Expected ~$6.50, got ${cost}");
}

#[test]
fn test_calculate_cost_zero() {
    let model = create_test_model();
    let cost = calculate_cost(&model, 0, 0, 0);
    assert_eq!(cost, 0.0);
}

#[test]
fn test_cost_units_basic() {
    let model = create_test_model();
    // 1000 * 500 + 500 * 1500 hundred-millionths of a dollar: $0.0125
    assert_eq!(model.cost_units(1000, 500, 0), 1_250_000);
}

#[test]
fn test_cost_units_with_cached() {
    let model = create_test_model();
    // the cached tokens add 10000 * 50: $0.0175 in all
    assert_eq!(model.cost_units(1000, 500, 10000), 1_750_000);
}

#[test]
fn test_cost_units_large_numbers() {
    let model = create_test_model();
    assert_eq!(model.cost_units(1_000_000, 100_000, 0), 650_000_000);
}

#[test]
fn test_cost_units_zero() {
    let model = create_test_model();
    assert_eq!(model.cost_units(0, 0, 0), 0);
}

#[test]
fn test_cost_units_extremes_do_not_overflow() {
    let model = LanguageModel {
        prompt_text_token_price: i64::MAX,
        cached_prompt_token_price: i64::MAX,
        completion_text_token_price: i64::MAX,
        ..create_test_model()
    };
    let expected = 3 * (u32::MAX as i128) * (i64::MAX as i128);
    assert_eq!(model.cost_units(u32::MAX, u32::MAX, u32::MAX), expected);
    let model = LanguageModel {
        prompt_text_token_price: i64::MIN,
        cached_prompt_token_price: 0,
        completion_text_token_price: -1,
        ..create_test_model()
    };
    assert_eq!(model.cost_units(u32::MAX, 7, 9), (u32::MAX as i128) * (i64::MIN as i128) - 7);
}

#[test]
fn test_modality_codes_outside_the_table_are_unknown() {
    let decoded = modalities_from_codes(&vec![1, 99, 2, -1, 0, 3, 4, i32::MIN]);
    assert_eq!(
        decoded,
        vec![
            Modality::Text,
            Modality::Unknown,
            Modality::Image,
            Modality::Unknown,
            Modality::Text,
            Modality::Embedding,
            Modality::Unknown,
            Modality::Unknown,
        ]
    );
    assert_eq!(modality_from_code(2), Modality::Image);
    assert_eq!(modality_from_code(7), Modality::Unknown);
    assert!(modalities_from_codes(&vec![]).is_empty());
}

#[test]
fn test_unknown_modality_does_not_make_a_model_multimodal() {
    let model = LanguageModel {
        input_modalities: modalities_from_codes(&vec![1, 9]),
        ..create_test_model()
    };
    assert_eq!(model.input_modalities, vec![Modality::Text, Modality::Unknown]);
    assert!(!model.supports_multimodal());
}

#[test]
fn test_wire_modality_codes() {
    assert_eq!(proto::Modality::InvalidModality as i32, proto::Modality::InvalidModality.code());
    assert_eq!(proto::Modality::Text as i32, proto::Modality::Text.code());
    assert_eq!(proto::Modality::Image as i32, proto::Modality::Image.code());
    assert_eq!(proto::Modality::Embedding as i32, proto::Modality::Embedding.code());
    assert_eq!(proto::Modality::from_code(2), Some(proto::Modality::Image));
    assert_eq!(proto::Modality::from_code(4), None);
}

#[test]
fn test_embedding_and_image_model_from_proto() {
    let model: EmbeddingModel = proto::EmbeddingModel {
        name: "embed-1".to_string(),
        aliases: vec!["embed".to_string()],
        version: "1".to_string(),
        input_modalities: vec![1, 2],
        output_modalities: vec![3],
        prompt_text_token_price: 10,
        prompt_image_token_price: 20,
        system_fingerprint: "fp".to_string(),
    }
    .into();
    assert_eq!(model.name, "embed-1");
    assert_eq!(model.input_modalities, vec![Modality::Text, Modality::Image]);
    assert_eq!(model.output_modalities, vec![Modality::Embedding]);
    assert_eq!(model.prompt_image_token_price, 20);

    let model: ImageGenerationModel = proto::ImageGenerationModel {
        name: "image-1".to_string(),
        aliases: vec![],
        version: "2".to_string(),
        input_modalities: vec![1],
        output_modalities: vec![2],
        image_price: 200,
        max_prompt_length: 1024,
        system_fingerprint: "fp".to_string(),
    }
    .into();
    assert_eq!(model.output_modalities, vec![Modality::Image]);
    assert_eq!(model.image_price, 200);
    assert_eq!(model.max_prompt_length, 1024);
}
