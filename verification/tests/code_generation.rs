use si_model::code_generation::{
    CodeGenerated, CodeGenerationRequest, CodeGenerationResultSuccess,
};
use si_model::op::ArrayMeta;

#[test]
fn code_generation_messages_are_compared_by_their_fields() {
    let request = CodeGenerationRequest {
        execution_id: "1".to_string(),
        handler: "handle".to_string(),
        component: "component".to_string(),
        code_base64: "YQ==".to_string(),
    };
    assert_eq!(request.clone(), request);
    let code = CodeGenerated {
        format: "yaml".to_string(),
        code: "a: 1".to_string(),
    };
    let success = |timestamp: u64| CodeGenerationResultSuccess {
        execution_id: "1".to_string(),
        data: code.clone(),
        timestamp,
    };
    assert_eq!(success(7), success(7));
    assert_ne!(success(7), success(8));
}

#[test]
fn array_meta_is_compared_by_length() {
    assert_eq!(ArrayMeta { length: 2 }, ArrayMeta { length: 2 });
    assert_ne!(ArrayMeta { length: 2 }, ArrayMeta { length: 3 });
}
