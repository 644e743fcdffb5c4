//! What is exchanged with the service that generates code for a component.
use vstd::prelude::*;

verus! {

/// Asks for the code of a component, by the handler that is to generate it.
#[derive(Clone, Debug, PartialEq, Eq)]
pub struct CodeGenerationRequest<ComponentView> {
    pub execution_id: String,
    pub handler: String,
    pub component: ComponentView,
    pub code_base64: String,
}

/// Generated code, and the format it is in.
#[derive(Clone, Debug, PartialEq, Eq)]
pub struct CodeGenerated {
    pub format: String,
    pub code: String,
}

/// The answer to a request that succeeded.
#[derive(Debug, PartialEq, Eq)]
pub struct CodeGenerationResultSuccess {
    pub execution_id: String,
    pub data: CodeGenerated,
    pub timestamp: u64,
}

} // verus!
