//! A local provider with fixed usage figures, for development.
use vstd::prelude::*;

use crate::providers::{Provider, ProviderConfig, ProviderRequest, ProviderResponse};
use crate::text::{chars_of, concat3, concat_str, is_whitespace, is_ws, opt_view, u64_to_string, decimal};
use crate::usage::{
    spec_snapshot, spec_window, FetchSource, ProviderHealth, SourceMode, StatusRequest,
    UsageSnapshot, UsageSnapshotView, UsageWindow,
};

verus! {

/// The model a mock provider reports when none is configured.
pub open spec fn mock_default_model() -> Seq<char> {
    "mock-v1"@
}

/// The mock provider.
pub struct MockProvider {
    pub model: String,
}

/// The number of whitespace-separated words in `s` (`split_whitespace().count()`).
pub open spec fn word_count(s: Seq<char>) -> nat
    decreases s.len(),
{
    if s.len() == 0 {
        0
    } else {
        word_count(s.drop_last()) + if !is_ws(s.last()) && (s.len() == 1 || is_ws(s[s.len() - 2])) {
            1nat
        } else {
            0nat
        }
    }
}

/// The snapshot the mock provider reports for every source: 5 of 100 used.
pub open spec fn spec_mock_snapshot() -> UsageSnapshotView {
    spec_snapshot("mock"@, spec_window(Some(5), Some(100)), FetchSource::Mock, ProviderHealth::Okay)
}

/// The text the mock provider answers a prompt with.
pub open spec fn spec_mock_output(model: Seq<char>, prompt: Seq<char>) -> Seq<char> {
    "[model="@ + model + "] tokens="@ + decimal(word_count(prompt)) + " echo="@ + prompt
}

/// The number of whitespace-separated words in a string.
pub fn count_words(s: &str) -> (r: u64)
    ensures
        r == word_count(s@),
{
    let v = chars_of(s);
    let mut count: u64 = 0;
    let mut i: usize = 0;
    while i < v.len()
        invariant
            i <= v@.len(),
            v@ == s@,
            count == word_count(v@.take(i as int)),
            count <= i,
        decreases v@.len() - i,
    {
        assert(v@.take(i + 1).drop_last() =~= v@.take(i as int));
        if !is_whitespace(v[i]) && (i == 0 || is_whitespace(v[i - 1])) {
            count += 1;
        }
        i += 1;
    }
    assert(v@.take(v@.len() as int) =~= v@);
    count
}

impl MockProvider {
    /// A mock provider with the configured model, or `mock-v1`.
    pub fn new(config: ProviderConfig) -> (r: MockProvider)
        ensures
            r.model@ == (match opt_view(config.model) {
                Some(m) => m,
                None => mock_default_model(),
            }),
    {
        let model = match config.model {
            Some(m) => m,
            None => String::from_str("mock-v1"),
        };
        MockProvider { model }
    }

    /// The fixed snapshot.
    fn status_mock(&self) -> (r: UsageSnapshot)
        ensures
            r@ == spec_mock_snapshot(),
    {
        UsageSnapshot::new(
            self.name(),
            UsageWindow::new(Some(5), Some(100)),
            FetchSource::Mock,
            ProviderHealth::Okay,
        )
    }

    /// The snapshot for the `auto` source.
    pub fn status_auto(&self) -> (r: UsageSnapshot)
        ensures
            r@ == spec_mock_snapshot(),
    {
        self.status_mock()
    }

    /// The snapshot for the `api` source.
    pub fn status_api(&self) -> (r: UsageSnapshot)
        ensures
            r@ == spec_mock_snapshot(),
    {
        self.status_mock()
    }

    /// The snapshot for the `cli` source.
    pub fn status_cli(&self) -> (r: UsageSnapshot)
        ensures
            r@ == spec_mock_snapshot(),
    {
        self.status_mock()
    }

    /// The snapshot for a status request: the same for every source.
    pub fn status(&self, request: &StatusRequest) -> (r: UsageSnapshot)
        ensures
            r@ == spec_mock_snapshot(),
    {
        match request.source_mode {
            SourceMode::Auto => self.status_auto(),
            SourceMode::Api => self.status_api(),
            SourceMode::Cli => self.status_cli(),
        }
    }

    /// The answer to a prompt: `[model=M] tokens=N echo=P` with `N` the number
    /// of words of the prompt.
    pub fn generate(&self, request: &ProviderRequest) -> (r: ProviderResponse)
        ensures
            r.provider@ == "mock"@,
            r.output@ == spec_mock_output(self.model@, request.prompt@),
    {
        let count = count_words(request.prompt.as_str());
        let count_text = u64_to_string(count);
        let a = concat3("[model=", self.model.as_str(), "] tokens=");
        let b = concat3(a.as_str(), count_text.as_str(), " echo=");
        let output = concat_str(b.as_str(), request.prompt.as_str());
        proof {
            reveal_strlit("mock");
        }
        ProviderResponse { provider: String::from_str("mock"), output }
    }
}

impl Provider for MockProvider {
    open spec fn spec_name(&self) -> Seq<char> {
        "mock"@
    }

    fn name(&self) -> (r: &'static str) {
        "mock"
    }
}

} // verus!
