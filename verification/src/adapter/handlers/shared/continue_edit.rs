//! The `continue_edit` tool, shared by all flavors.
use vstd::prelude::*;
use crate::adapter::tools::ContinueEditTool;
use crate::domain::traits::GenerateParams;

verus! {

/// An edit: its parameters, and the model that the answer reports.
#[derive(Debug, Clone)]
pub struct EditRequest {
    pub params: GenerateParams,
    pub model: String,
}

/// The edit a `continue_edit` call asks for: the prompt, the default model
/// unless given, and the identifier of the image to edit.
pub fn edit_request(tool: ContinueEditTool, default_model: String) -> (request: EditRequest)
    ensures
        request.model == match tool.model {
            Some(m) => m,
            None => default_model,
        },
        request.params == (GenerateParams {
            prompt: tool.prompt,
            model: Some(request.model),
            n: None,
            size: None,
            ratio: None,
            quality: None,
            style: None,
            seed: None,
            image_id: Some(tool.image_id),
        }),
{
    let model = match tool.model {
        Some(m) => m,
        None => default_model,
    };
    let params = GenerateParams::new(tool.prompt).with_model(model.clone()).with_image_id(tool.image_id);
    EditRequest { params, model }
}

} // verus!
