//! Providers: the request and response shapes, the provider registry, and
//! each provider's own logic.
pub mod codex;
pub mod codex_tty;
pub mod mock;
pub mod ollama;
pub mod openai;

use vstd::prelude::*;

use crate::env::{spec_codex_file, HostEnvironment};
use crate::text::{
    ascii_lower, ascii_lowercase, ascii_lowercase_chars, chars_of, concat3, first_present, opt_view,
    string_of, trim_end_char,
};

pub use self::codex::CodexProvider;
pub use self::mock::MockProvider;
pub use self::ollama::OllamaProvider;
pub use self::openai::OpenAiProvider;

verus! {

/// A prompt for a provider.
pub struct ProviderRequest {
    pub prompt: String,
}

/// A provider's answer to a prompt.
pub struct ProviderResponse {
    pub provider: String,
    pub output: String,
}

/// A used/limit pair as a provider's status endpoint reports it.
#[derive(Clone, Copy, Debug, PartialEq, Eq, Structural)]
pub struct ProviderUsage {
    pub used: u64,
    pub limit: u64,
}

/// Overrides for a provider's model and base URL.
pub struct ProviderConfig {
    pub model: Option<String>,
    pub base_url: Option<String>,
}

impl Default for ProviderConfig {
    fn default() -> (r: Self)
        ensures
            r.model is None,
            r.base_url is None,
    {
        ProviderConfig { model: None, base_url: None }
    }
}

/// What every provider has: a fixed name.
pub trait Provider {
    /// The provider's name.
    spec fn spec_name(&self) -> Seq<char>;

    /// The provider's name.
    fn name(&self) -> (r: &'static str)
        ensures
            r@ == self.spec_name(),
    ;
}

/// The providers that status collection covers, in the order they are listed.
pub open spec fn spec_provider_names() -> Seq<Seq<char>> {
    seq!["mock"@, "codex"@, "ollama"@, "openai"@]
}

/// The names of the available providers: `mock`, `codex`, `ollama`, `openai`.
pub fn provider_names() -> (r: Vec<&'static str>)
    ensures
        r@.map_values(|s: &'static str| s@) == spec_provider_names(),
{
    let r = vec!["mock", "codex", "ollama", "openai"];
    assert(r@.map_values(|s: &'static str| s@) =~= spec_provider_names());
    r
}

/// The kinds of provider there are.
#[derive(Clone, Copy, Debug, PartialEq, Eq, Structural)]
pub enum ProviderKind {
    Mock,
    Codex,
    Ollama,
    OpenAi,
}

/// The provider that a name selects, ignoring ASCII case.
pub open spec fn spec_provider_kind(name: Seq<char>) -> Option<ProviderKind> {
    let n = ascii_lowercase(name);
    if n == "mock"@ {
        Some(ProviderKind::Mock)
    } else if n == "codex"@ {
        Some(ProviderKind::Codex)
    } else if n == "ollama"@ {
        Some(ProviderKind::Ollama)
    } else if n == "openai"@ {
        Some(ProviderKind::OpenAi)
    } else {
        None
    }
}

/// A provider of any kind.
pub enum ProviderInstance {
    Mock(MockProvider),
    Codex(CodexProvider),
    Ollama(OllamaProvider),
    OpenAi(OpenAiProvider),
}

impl ProviderInstance {
    /// The kind of the provider.
    pub open spec fn kind(self) -> ProviderKind {
        match self {
            ProviderInstance::Mock(_) => ProviderKind::Mock,
            ProviderInstance::Codex(_) => ProviderKind::Codex,
            ProviderInstance::Ollama(_) => ProviderKind::Ollama,
            ProviderInstance::OpenAi(_) => ProviderKind::OpenAi,
        }
    }
}

impl Provider for ProviderInstance {
    open spec fn spec_name(&self) -> Seq<char> {
        match self {
            ProviderInstance::Mock(_) => "mock"@,
            ProviderInstance::Codex(_) => "codex"@,
            ProviderInstance::Ollama(_) => "ollama"@,
            ProviderInstance::OpenAi(_) => "openai"@,
        }
    }

    fn name(&self) -> (r: &'static str) {
        match self {
            ProviderInstance::Mock(p) => p.name(),
            ProviderInstance::Codex(p) => p.name(),
            ProviderInstance::Ollama(p) => p.name(),
            ProviderInstance::OpenAi(p) => p.name(),
        }
    }
}

/// A provider name in ASCII lowercase.
pub fn normalize_provider_name(name: &str) -> (r: String)
    ensures
        r@ == ascii_lowercase(name@),
{
    let c = chars_of(name);
    let l = ascii_lowercase_chars(&c);
    string_of(&l)
}

/// The error for a name that selects no provider.
pub open spec fn unknown_provider_message(name: Seq<char>) -> Seq<char> {
    "provider '"@ + name + "' is not available"@
}

/// The provider that `name` selects (ignoring ASCII case), built from the
/// overrides and the environment, or the error for an unknown name.
pub fn create_provider(name: &str, config: ProviderConfig, env: &HostEnvironment) -> (r: Result<
    ProviderInstance,
    String,
>)
    ensures
        r is Ok <==> spec_provider_kind(name@) is Some,
        r matches Ok(p) ==> Some(p.kind()) == spec_provider_kind(name@),
        r matches Err(e) ==> e@ == unknown_provider_message(name@),
        r matches Ok(ProviderInstance::Mock(m)) ==> m.model@ == (match opt_view(config.model) {
            Some(v) => v,
            None => mock::mock_default_model(),
        }),
        r matches Ok(ProviderInstance::Codex(c)) ==> c.auth_path@ == spec_codex_file(
            opt_view(env.codex_home),
            opt_view(env.home),
            "auth.json"@,
        ),
        r matches Ok(ProviderInstance::Ollama(o)) ==> o.base_url@ == trim_end_char(
            first_present(
                opt_view(config.base_url),
                opt_view(env.ollama_base_url),
                ollama::ollama_default_base_url(),
            ),
            '/',
        ) && o.model@ == first_present(
            opt_view(config.model),
            opt_view(env.ollama_model),
            ollama::ollama_default_model(),
        ),
        r matches Ok(ProviderInstance::OpenAi(o)) ==> o.base_url@ == trim_end_char(
            first_present(
                opt_view(config.base_url),
                opt_view(env.openai_base_url),
                openai::openai_default_base_url(),
            ),
            '/',
        ) && opt_view(o.model) == Some(
            openai::spec_model(opt_view(config.model), opt_view(env.openai_model)),
        ) && opt_view(o.api_key) == openai::spec_api_key(
            opt_view(env.openai_admin_key),
            opt_view(env.openai_api_key),
        ),
{
    let n = normalize_provider_name(name);
    let mock = String::from_str("mock");
    let codex = String::from_str("codex");
    let ollama = String::from_str("ollama");
    let openai = String::from_str("openai");
    if n == mock {
        Ok(ProviderInstance::Mock(MockProvider::new(config)))
    } else if n == codex {
        Ok(ProviderInstance::Codex(CodexProvider::new(config, env)))
    } else if n == ollama {
        Ok(ProviderInstance::Ollama(OllamaProvider::new(config, env)))
    } else if n == openai {
        Ok(ProviderInstance::OpenAi(OpenAiProvider::new(config, env)))
    } else {
        Err(concat3("provider '", name, "' is not available"))
    }
}

/// ASCII lowercasing does nothing to a lowercased string.
pub proof fn lemma_ascii_lowercase_idempotent(s: Seq<char>)
    ensures
        ascii_lowercase(ascii_lowercase(s)) == ascii_lowercase(s),
{
    assert forall|i: int| 0 <= i < s.len() implies ascii_lower(ascii_lower(s[i])) == ascii_lower(
        s[i],
    ) by {
        let c = s[i];
        if 'A' <= c && c <= 'Z' {
            assert(ascii_lower(c) == ((c as int + 32) as u8) as char);
        }
    }
    assert(ascii_lowercase(ascii_lowercase(s)) =~= ascii_lowercase(s));
}

/// Provider names are matched without regard to ASCII case: a name selects the
/// same provider as its lowercase form.
pub proof fn law_provider_lookup_ignores_ascii_case(name: Seq<char>)
    ensures
        spec_provider_kind(name) == spec_provider_kind(ascii_lowercase(name)),
{
    lemma_ascii_lowercase_idempotent(name);
}

/// The names of the providers that a status request covers: the one it names,
/// else all of them.
pub fn status_provider_names(request: &crate::usage::StatusRequest) -> (r: Vec<String>)
    ensures
        request.provider matches Some(p) ==> r@.len() == 1 && r@[0]@ == p@,
        request.provider is None ==> r@.map_values(|s: String| s@) == spec_provider_names(),
{
    match &request.provider {
        Some(p) => {
            let mut v: Vec<String> = Vec::new();
            v.push(crate::text::copy_string(p));
            v
        },
        None => {
            let names = provider_names();
            let mut v: Vec<String> = Vec::new();
            let mut i: usize = 0;
            while i < names.len()
                invariant
                    i <= names@.len(),
                    names@.map_values(|s: &'static str| s@) == spec_provider_names(),
                    v@.map_values(|s: String| s@) == spec_provider_names().take(i as int),
                decreases names@.len() - i,
            {
                let ghost before = v@.map_values(|s: String| s@);
                v.push(String::from_str(names[i]));
                assert(names@.map_values(|s: &'static str| s@)[i as int] == names@[i as int]@);
                assert(v@.map_values(|s: String| s@) =~= before.push(names@[i as int]@));
                assert(spec_provider_names().take(i + 1) =~= spec_provider_names().take(i as int).push(
                    spec_provider_names()[i as int],
                ));
                i += 1;
            }
            assert(spec_provider_names().take(4) =~= spec_provider_names());
            v
        },
    }
}

} // verus!
