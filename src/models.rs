//! The registry of models the library can call, and their defaults.
use vstd::prelude::*;

verus! {

/// The wire protocol a model speaks, shared by request building and decoding.
#[derive(PartialEq, Eq, Structural, Debug, Clone, Copy)]
pub enum ModelFamily {
    ClaudeV3,
}

/// One known model: its identifier, its family, and whether it reads images.
#[derive(Debug)]
pub struct ModelEntry {
    pub model_id: String,
    pub family: ModelFamily,
    pub multimodal: bool,
}

/// The first entry of `models` for `id`, if any.
pub open spec fn registry_entry(models: Seq<ModelEntry>, id: Seq<char>) -> Option<ModelEntry>
    decreases models.len(),
{
    if models.len() == 0 {
        None
    } else if models[0].model_id@ == id {
        Some(models[0])
    } else {
        registry_entry(models.drop_first(), id)
    }
}

/// The family of a model identifier; `None` for an identifier outside the registry.
pub open spec fn spec_family(models: Seq<ModelEntry>, id: Seq<char>) -> Option<ModelFamily> {
    match registry_entry(models, id) {
        Some(e) => Some(e.family),
        None => None,
    }
}

/// Whether a registered model can read images (and so caption them).
pub open spec fn spec_multimodal(models: Seq<ModelEntry>, id: Seq<char>) -> bool {
    registry_entry(models, id) matches Some(e) && e.multimodal
}

fn find_entry<'a>(models: &'a Vec<ModelEntry>, model_id: &str) -> (r: Option<&'a ModelEntry>)
    ensures
        match r {
            Some(e) => registry_entry(models@, model_id@) == Some(*e),
            None => registry_entry(models@, model_id@) == None::<ModelEntry>,
        },
{
    let id = model_id.to_owned();
    let mut i: usize = 0;
    assert(models@.subrange(0, models@.len() as int) =~= models@);
    while i < models.len()
        invariant
            i <= models@.len(),
            id@ == model_id@,
            registry_entry(models@, model_id@) == registry_entry(
                models@.subrange(i as int, models@.len() as int),
                model_id@,
            ),
        decreases models@.len() - i,
    {
        proof {
            let rest = models@.subrange(i as int, models@.len() as int);
            assert(rest.drop_first() =~= models@.subrange(i + 1, models@.len() as int));
        }
        if models[i].model_id == id {
            assert(models@.subrange(i as int, models@.len() as int)[0] == models@[i as int]);
            return Some(&models[i]);
        }
        i = i + 1;
    }
    None
}

/// Looks a model identifier up in the registry.
pub fn model_family(models: &Vec<ModelEntry>, model_id: &str) -> (r: Option<ModelFamily>)
    ensures
        r == spec_family(models@, model_id@),
{
    match find_entry(models, model_id) {
        Some(e) => Some(e.family),
        None => None,
    }
}

/// Whether a model can caption images.
pub fn is_multimodal(models: &Vec<ModelEntry>, model_id: &str) -> (r: bool)
    ensures
        r == spec_multimodal(models@, model_id@),
{
    match find_entry(models, model_id) {
        Some(e) => e.multimodal,
        None => false,
    }
}

/// Defaults for the ClaudeV3 family.
#[derive(Debug)]
pub struct ClaudeV3Config {
    pub anthropic_version: String,
    pub max_tokens: u32,
    pub role: String,
    pub default_content_type: String,
}

/// Defaults for every model family and the registry of known models,
/// loaded once per process.
#[derive(Debug)]
pub struct ModelConfigs {
    pub claude_v3: ClaudeV3Config,
    pub models: Vec<ModelEntry>,
}

} // verus!
