//! The model listing.
use vstd::prelude::*;

use crate::api::types::{ModelListResponse, ModelObject};
use crate::config::OllamaConfig;

verus! {

/// The models listed: each configured model, or the default model when
/// none is configured; all owned by `ollama`.
pub fn list_models(ollama: &OllamaConfig) -> (r: ModelListResponse)
    ensures
        r.object@ == "list"@,
        ollama.models.len() == 0 ==> r.data.len() == 1 && r.data@[0].id@ == ollama.default_model@,
        ollama.models.len() > 0 ==> r.data.len() == ollama.models.len() && forall|i: int|
            0 <= i < r.data.len() ==> (#[trigger] r.data@[i]).id@ == ollama.models@[i].name@,
        forall|i: int|
            0 <= i < r.data.len() ==> (#[trigger] r.data@[i]).object@ == "model"@ && r.data@[i].owned_by@
                == "ollama"@,
{
    let mut data: Vec<ModelObject> = Vec::new();
    if ollama.models.len() == 0 {
        data.push(
            ModelObject {
                id: ollama.default_model.clone(),
                object: "model",
                owned_by: String::from_str("ollama"),
            },
        );
    } else {
        let mut i: usize = 0;
        while i < ollama.models.len()
            invariant
                i <= ollama.models.len(),
                data.len() == i,
                forall|j: int|
                    0 <= j < i ==> (#[trigger] data@[j]).id@ == ollama.models@[j].name@
                        && data@[j].object@ == "model"@ && data@[j].owned_by@ == "ollama"@,
            decreases ollama.models.len() - i,
        {
            data.push(
                ModelObject {
                    id: ollama.models[i].name.clone(),
                    object: "model",
                    owned_by: String::from_str("ollama"),
                },
            );
            i = i + 1;
        }
    }
    ModelListResponse { object: "list", data }
}

} // verus!
