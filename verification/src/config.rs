//! Runtime configuration: credentials and endpoints for the collaborators,
//! the administrator identity set, and the token budget.  Loaded from the
//! environment outside the library and passed in by reference.

use vstd::prelude::*;

verus! {

/// Application configuration, immutable after startup.
#[derive(Clone, Debug)]
pub struct AppConfig {
    pub telegram_bot_token: String,
    pub groq_api_key: String,
    pub groq_model: String,
    pub database_url: String,
    /// User identities allowed to resolve approval requests.
    pub admin_ids: Vec<i64>,
    /// Destination for approval requests awaiting review.
    pub admin_group_id: i64,
    pub default_tts_engine: String,
    pub piper_model_path: String,
    pub xtts_sidecar_url: String,
    pub whisper_model_path: String,
    /// Maximum cumulative token count before the context is pruned.
    pub max_context_tokens: usize,
}

impl AppConfig {
    /// A user is an administrator exactly when their id is in `admin_ids`.
    pub fn is_admin(&self, user_id: i64) -> (r: bool)
        ensures
            r == self.admin_ids@.contains(user_id),
    {
        let mut i: usize = 0;
        while i < self.admin_ids.len()
            invariant
                i <= self.admin_ids@.len(),
                forall|j: int| 0 <= j < i ==> self.admin_ids@[j] != user_id,
            decreases self.admin_ids@.len() - i,
        {
            if self.admin_ids[i] == user_id {
                return true;
            }
            i = i + 1;
        }
        false
    }
}

} // verus!
