//! What a model hub gives back, and how fetching one can fail.
use vstd::prelude::*;
use crate::json::JsonValue;
use crate::text::str_eq;

verus! {

/// A file of a model repository and its size, when the hub reports one.
pub struct SiblingFile {
    pub filename: String,
    pub size: Option<u64>,
}

/// A model as fetched: its config and file listing, pinned to a revision.
pub struct ModelArtifact {
    pub source: String,
    pub model_id: String,
    pub commit_sha: Option<String>,
    pub config: JsonValue,
    pub siblings: Vec<SiblingFile>,
}

pub struct ModelNotFoundError(pub String);

pub struct AuthRequiredError(pub String);

pub struct SourceUnavailableError(pub String);

pub enum ModelSourceError {
    NotFound(ModelNotFoundError),
    AuthRequired(AuthRequiredError),
    SourceUnavailable(SourceUnavailableError),
}

impl ModelNotFoundError {
    pub fn to_string(&self) -> (s: String)
        ensures
            s@ == self.0@,
    {
        self.0.clone()
    }
}

impl AuthRequiredError {
    pub fn to_string(&self) -> (s: String)
        ensures
            s@ == self.0@,
    {
        self.0.clone()
    }
}

impl SourceUnavailableError {
    pub fn to_string(&self) -> (s: String)
        ensures
            s@ == self.0@,
    {
        self.0.clone()
    }
}

pub open spec fn error_message(e: ModelSourceError) -> Seq<char> {
    match e {
        ModelSourceError::NotFound(x) => x.0@,
        ModelSourceError::AuthRequired(x) => x.0@,
        ModelSourceError::SourceUnavailable(x) => x.0@,
    }
}

impl ModelSourceError {
    /// The message of the underlying error.
    pub fn to_string(&self) -> (s: String)
        ensures
            s@ == error_message(*self),
    {
        match self {
            ModelSourceError::NotFound(x) => x.0.clone(),
            ModelSourceError::AuthRequired(x) => x.0.clone(),
            ModelSourceError::SourceUnavailable(x) => x.0.clone(),
        }
    }
}

/// A model of the built-in catalog: its id, the other names it answers
/// to, and the metadata a hub would give for it.
pub struct BuiltinModel {
    pub id: String,
    pub aliases: Vec<String>,
    pub commit_sha: Option<String>,
    pub config: JsonValue,
    pub siblings: Vec<SiblingFile>,
}

/// The model answers to `name`, by its id or one of its aliases.
pub open spec fn answers_to(m: BuiltinModel, name: Seq<char>) -> bool {
    m.id@ == name || exists|k: int| 0 <= k < m.aliases@.len() && #[trigger] m.aliases@[k]@ == name
}

pub open spec fn builtin_not_found_message(model_id: Seq<char>) -> Seq<char> {
    "Model '"@ + model_id + "' is not in the built-in catalog."@
}

fn answers_to_exec(m: &BuiltinModel, name: &str) -> (b: bool)
    ensures
        b == answers_to(*m, name@),
{
    if str_eq(m.id.as_str(), name) {
        return true;
    }
    let mut k: usize = 0;
    while k < m.aliases.len()
        invariant
            k <= m.aliases@.len(),
            m.id@ != name@,
            forall|j: int| 0 <= j < k ==> #[trigger] m.aliases@[j]@ != name@,
        decreases m.aliases.len() - k,
    {
        if str_eq(m.aliases[k].as_str(), name) {
            return true;
        }
        k = k + 1;
    }
    false
}

/// Looks a model up in the built-in catalog: the first model that answers
/// to `model_id` becomes an artifact from source `builtin`; none is a
/// not-found error.
pub fn find_builtin(models: Vec<BuiltinModel>, model_id: &str) -> (r: Result<ModelArtifact, ModelSourceError>)
    ensures
        match r {
            Ok(a) => exists|i: int|
                0 <= i < models@.len() && answers_to(#[trigger] models@[i], model_id@) && (forall|j: int|
                    0 <= j < i ==> !answers_to(#[trigger] models@[j], model_id@)) && a.source@ == "builtin"@
                    && a.model_id == models@[i].id && a.commit_sha == models@[i].commit_sha && a.config
                    == models@[i].config && a.siblings == models@[i].siblings,
            Err(e) => {
                &&& forall|i: int| 0 <= i < models@.len() ==> !answers_to(#[trigger] models@[i], model_id@)
                &&& e matches ModelSourceError::NotFound(m) && m.0@ == builtin_not_found_message(model_id@)
            },
        },
{
    let ghost all = models@;
    let mut catalog = models;
    let mut i: usize = 0;
    while i < catalog.len()
        invariant
            catalog@ == all,
            models@ == all,
            i <= all.len(),
            forall|j: int| 0 <= j < i ==> !answers_to(#[trigger] all[j], model_id@),
        decreases catalog.len() - i,
    {
        if answers_to_exec(&catalog[i], model_id) {
            let m = catalog.remove(i);
            assert(m == all[i as int]);
            let a = ModelArtifact {
                source: "builtin".to_string(),
                model_id: m.id,
                commit_sha: m.commit_sha,
                config: m.config,
                siblings: m.siblings,
            };
            assert(answers_to(models@[i as int], model_id@) && a.model_id == models@[i as int].id);
            return Ok(a);
        }
        i = i + 1;
    }
    let mut msg = "Model '".to_string();
    msg.append(model_id);
    msg.append("' is not in the built-in catalog.");
    Err(ModelSourceError::NotFound(ModelNotFoundError(msg)))
}

} // verus!
