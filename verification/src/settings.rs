//! The application settings that post-processing reads: the providers, the
//! chosen provider, API keys and models per provider, prompt templates and
//! custom instructions.

use vstd::prelude::*;

use crate::text::same_text;

verus! {

/// An LLM provider for post-processing.
pub struct PostProcessProvider {
    pub id: String,
    pub label: String,
    pub base_url: String,
    pub allow_base_url_edit: bool,
    pub models_endpoint: Option<String>,
    pub supports_structured_output: bool,
}

impl Clone for PostProcessProvider {
    fn clone(&self) -> (r: Self)
        ensures
            r == *self,
    {
        PostProcessProvider {
            id: self.id.clone(),
            label: self.label.clone(),
            base_url: self.base_url.clone(),
            allow_base_url_edit: self.allow_base_url_edit,
            models_endpoint: match &self.models_endpoint {
                Some(e) => Some(e.clone()),
                None => None,
            },
            supports_structured_output: self.supports_structured_output,
        }
    }
}

/// A prompt template the user can select.
pub struct LlmPrompt {
    pub id: String,
    pub name: String,
    pub prompt: String,
}

/// The settings that post-processing reads. A table keyed by provider id is
/// a list of (id, value) pairs; a lookup takes the first pair with the id.
pub struct AppSettings {
    /// The id of the chosen post-processing provider
    pub post_process_provider_id: String,
    /// The known providers
    pub post_process_providers: Vec<PostProcessProvider>,
    /// API key per provider id
    pub post_process_api_keys: Vec<(String, String)>,
    /// Model per provider id
    pub post_process_models: Vec<(String, String)>,
    /// The prompt templates
    pub post_process_prompts: Vec<LlmPrompt>,
    /// The id of the selected prompt template, if any
    pub post_process_selected_prompt_id: Option<String>,
    /// The user's custom instructions, if any
    pub custom_instructions: Option<String>,
}

/// The value of the first pair whose key is `key`.
pub open spec fn lookup(pairs: Seq<(String, String)>, key: Seq<char>) -> Option<Seq<char>>
    decreases pairs.len(),
{
    if pairs.len() == 0 {
        None
    } else if pairs[0].0@ == key {
        Some(pairs[0].1@)
    } else {
        lookup(pairs.skip(1), key)
    }
}

/// The position of the first provider whose id is `id`.
pub open spec fn provider_index(ps: Seq<PostProcessProvider>, id: Seq<char>) -> Option<int>
    decreases ps.len(),
{
    if ps.len() == 0 {
        None
    } else if ps[0].id@ == id {
        Some(0)
    } else {
        match provider_index(ps.skip(1), id) {
            Some(i) => Some(i + 1),
            None => None,
        }
    }
}

/// The first provider whose id is `id`.
pub open spec fn provider_with_id(ps: Seq<PostProcessProvider>, id: Seq<char>) -> Option<
    PostProcessProvider,
> {
    match provider_index(ps, id) {
        Some(i) => Some(ps[i]),
        None => None,
    }
}

/// The prompt of the first template whose id is `id`.
pub open spec fn prompt_with_id(ps: Seq<LlmPrompt>, id: Seq<char>) -> Option<Seq<char>>
    decreases ps.len(),
{
    if ps.len() == 0 {
        None
    } else if ps[0].id@ == id {
        Some(ps[0].prompt@)
    } else {
        prompt_with_id(ps.skip(1), id)
    }
}

proof fn lemma_provider_index_bounds(ps: Seq<PostProcessProvider>, id: Seq<char>)
    ensures
        provider_index(ps, id) matches Some(i) ==> 0 <= i < ps.len() && ps[i].id@ == id,
    decreases ps.len(),
{
    if ps.len() > 0 && ps[0].id@ != id {
        lemma_provider_index_bounds(ps.skip(1), id);
    }
}

impl AppSettings {
    /// The chosen provider: the first known provider with the chosen id.
    pub open spec fn spec_active_provider(&self) -> Option<PostProcessProvider> {
        provider_with_id(self.post_process_providers@, self.post_process_provider_id@)
    }

    /// The API key stored for a provider id.
    pub open spec fn spec_api_key(&self, id: Seq<char>) -> Option<Seq<char>> {
        lookup(self.post_process_api_keys@, id)
    }

    /// The model stored for a provider id.
    pub open spec fn spec_model(&self, id: Seq<char>) -> Option<Seq<char>> {
        lookup(self.post_process_models@, id)
    }

    /// The position of the first provider with an id.
    pub fn provider_position(&self, id: &str) -> (r: Option<usize>)
        ensures
            match r {
                Some(i) => provider_index(self.post_process_providers@, id@) == Some(i as int),
                None => provider_index(self.post_process_providers@, id@) is None,
            },
            r matches Some(i) ==> i < self.post_process_providers@.len(),
    {
        proof {
            lemma_provider_index_bounds(self.post_process_providers@, id@);
        }
        let ps = &self.post_process_providers;
        let n = ps.len();
        let mut i: usize = 0;
        assert(ps@.skip(0) =~= ps@);
        while i < n
            invariant
                n == ps@.len(),
                ps@ == self.post_process_providers@,
                i <= n,
                provider_index(ps@, id@) == match provider_index(ps@.skip(i as int), id@) {
                    Some(k) => Some(k + i),
                    None => None,
                },
            decreases n - i,
        {
            let ghost t = ps@.skip(i as int);
            assert(t[0] == ps@[i as int]);
            assert(t.skip(1) =~= ps@.skip(i + 1));
            if same_text(ps[i].id.as_str(), id) {
                return Some(i);
            }
            i = i + 1;
        }
        assert(ps@.skip(n as int).len() == 0);
        None
    }

    /// The chosen provider, when one of the known providers has the chosen id.
    pub fn active_post_process_provider(&self) -> (r: Option<PostProcessProvider>)
        ensures
            r == self.spec_active_provider(),
    {
        proof {
            lemma_provider_index_bounds(
                self.post_process_providers@,
                self.post_process_provider_id@,
            );
        }
        match self.provider_position(self.post_process_provider_id.as_str()) {
            Some(i) => Some(self.post_process_providers[i].clone()),
            None => None,
        }
    }

    /// The API key stored for a provider id.
    pub fn api_key_for(&self, id: &str) -> (r: Option<String>)
        ensures
            match r {
                Some(k) => self.spec_api_key(id@) == Some(k@),
                None => self.spec_api_key(id@) is None,
            },
    {
        lookup_pairs(&self.post_process_api_keys, id)
    }

    /// The model stored for a provider id.
    pub fn model_for(&self, id: &str) -> (r: Option<String>)
        ensures
            match r {
                Some(m) => self.spec_model(id@) == Some(m@),
                None => self.spec_model(id@) is None,
            },
    {
        lookup_pairs(&self.post_process_models, id)
    }

    /// The prompt of the template with an id.
    pub fn prompt_for(&self, id: &str) -> (r: Option<String>)
        ensures
            match r {
                Some(p) => prompt_with_id(self.post_process_prompts@, id@) == Some(p@),
                None => prompt_with_id(self.post_process_prompts@, id@) is None,
            },
    {
        let ps = &self.post_process_prompts;
        let n = ps.len();
        let mut i: usize = 0;
        assert(ps@.skip(0) =~= ps@);
        while i < n
            invariant
                n == ps@.len(),
                ps@ == self.post_process_prompts@,
                i <= n,
                prompt_with_id(ps@, id@) == prompt_with_id(ps@.skip(i as int), id@),
            decreases n - i,
        {
            let ghost t = ps@.skip(i as int);
            assert(t[0] == ps@[i as int]);
            assert(t.skip(1) =~= ps@.skip(i + 1));
            if same_text(ps[i].id.as_str(), id) {
                return Some(ps[i].prompt.clone());
            }
            i = i + 1;
        }
        assert(ps@.skip(n as int).len() == 0);
        None
    }
}

fn lookup_pairs(pairs: &Vec<(String, String)>, key: &str) -> (r: Option<String>)
    ensures
        match r {
            Some(v) => lookup(pairs@, key@) == Some(v@),
            None => lookup(pairs@, key@) is None,
        },
{
    let n = pairs.len();
    let mut i: usize = 0;
    assert(pairs@.skip(0) =~= pairs@);
    while i < n
        invariant
            n == pairs@.len(),
            i <= n,
            lookup(pairs@, key@) == lookup(pairs@.skip(i as int), key@),
        decreases n - i,
    {
        let ghost t = pairs@.skip(i as int);
        assert(t[0] == pairs@[i as int]);
        assert(t.skip(1) =~= pairs@.skip(i + 1));
        if same_text(pairs[i].0.as_str(), key) {
            return Some(pairs[i].1.clone());
        }
        i = i + 1;
    }
    assert(pairs@.skip(n as int).len() == 0);
    None
}

} // verus!
