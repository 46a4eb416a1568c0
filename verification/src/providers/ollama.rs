//! The Ollama provider: its endpoints, how its answers and status replies are
//! read, and how `ollama ps` / `ollama ls` listings become a snapshot.
use vstd::prelude::*;

use crate::env::HostEnvironment;
use crate::providers::{Provider, ProviderConfig, ProviderResponse, ProviderUsage};
use crate::text::{
    chars_of, concat3, concat_str, first_present, first_present_string, lines, lines_of, opt_view,
    trim, trim_chars, trim_end_char, trim_end_matches_string, views,
};
use crate::usage::{
    spec_snapshot, spec_window, FetchSource, ProviderHealth, SourceMode, UsageSnapshot,
    UsageSnapshotView, UsageWindow,
};

verus! {

/// The Ollama server used when none is configured.
pub open spec fn ollama_default_base_url() -> Seq<char> {
    "http://127.0.0.1:11434"@
}

/// The model used when none is configured.
pub open spec fn ollama_default_model() -> Seq<char> {
    "llama3.2"@
}

/// The Ollama provider: where its server is and which model it asks.
pub struct OllamaProvider {
    pub base_url: String,
    pub model: String,
}

/// The usage fields of an Ollama status reply (absent fields read as 0).
#[derive(Clone, Copy, Debug, PartialEq, Eq, Structural)]
pub struct OllamaUsageInfo {
    pub current: u64,
    pub used: u64,
    pub limit: u64,
}

/// The usage that a status reply gives: `max(current, used)` used out of
/// `limit`, with 12 of 100 standing in for a missing or zero figure and for a
/// reply that could not be had.
pub open spec fn spec_status_usage(info: Option<OllamaUsageInfo>) -> ProviderUsage {
    match info {
        None => ProviderUsage { used: 12, limit: 100 },
        Some(u) => {
            let m = if u.current >= u.used {
                u.current
            } else {
                u.used
            };
            ProviderUsage {
                used: if m > 0 {
                    m
                } else {
                    12
                },
                limit: if u.limit > 0 {
                    u.limit
                } else {
                    100
                },
            }
        },
    }
}

/// The usage of a status reply: the used figure is at least the reply's
/// current and at least its used, and is one of them whenever either is
/// positive; only when both are 0 (or there is no reply) does 12 stand in.
/// The limit is the reply's limit when positive, else 100.
pub proof fn law_status_usage_takes_the_larger_figure(info: Option<OllamaUsageInfo>)
    ensures
        info is None ==> spec_status_usage(info) == (ProviderUsage { used: 12, limit: 100 }),
        info matches Some(u) ==> ({
            let r = spec_status_usage(info);
            &&& (u.current > 0 || u.used > 0) ==> (r.used >= u.current && r.used >= u.used && (r.used
                == u.current || r.used == u.used))
            &&& (u.current == 0 && u.used == 0) ==> r.used == 12
            &&& r.limit == (if u.limit > 0 {
                u.limit
            } else {
                100
            })
        }),
{
}

/// The number of models in a CLI listing: its non-blank lines after the header line.
pub open spec fn listed_models(output: Seq<char>) -> nat {
    let n = nonblank_count(lines(output), lines(output).len() as int);
    if n > 0 {
        (n - 1) as nat
    } else {
        0
    }
}

/// The number of lines among the first `k` that are not blank.
pub open spec fn nonblank_count(ls: Seq<Seq<char>>, k: int) -> nat
    decreases k,
{
    if k <= 0 || k > ls.len() {
        0
    } else {
        nonblank_count(ls, k - 1) + if trim(ls[k - 1]).len() > 0 {
            1nat
        } else {
            0nat
        }
    }
}

/// The snapshot from the CLI listings: active models as `primary.used`,
/// installed models as `secondary.used`.
pub open spec fn spec_cli_snapshot(active: u64, installed: u64) -> UsageSnapshotView {
    UsageSnapshotView {
        secondary: Some(spec_window(Some(installed), None)),
        ..spec_snapshot("ollama"@, spec_window(Some(active), None), FetchSource::Cli, ProviderHealth::Okay)
    }
}

/// The snapshot when the CLI listings could not be had.
pub open spec fn spec_cli_error_snapshot(message: Seq<char>) -> UsageSnapshotView {
    UsageSnapshotView {
        stale: true,
        error: Some("ollama CLI status collection failed: "@ + message),
        ..spec_snapshot("ollama"@, spec_window(None, None), FetchSource::Cli, ProviderHealth::Error)
    }
}

/// The snapshot from the API status figures.
pub open spec fn spec_api_snapshot(usage: ProviderUsage) -> UsageSnapshotView {
    spec_snapshot(
        "ollama"@,
        spec_window(Some(usage.used), Some(usage.limit)),
        FetchSource::Api,
        ProviderHealth::Okay,
    )
}

impl OllamaProvider {
    /// The provider for the given overrides: the base URL from the config, else
    /// `OLLAMA_BASE_URL`, else the local default, without trailing slashes; the
    /// model from the config, else `OLLAMA_MODEL`, else `llama3.2`.
    pub fn new(config: ProviderConfig, env: &HostEnvironment) -> (r: OllamaProvider)
        ensures
            r.base_url@ == trim_end_char(
                first_present(
                    opt_view(config.base_url),
                    opt_view(env.ollama_base_url),
                    ollama_default_base_url(),
                ),
                '/',
            ),
            r.model@ == first_present(
                opt_view(config.model),
                opt_view(env.ollama_model),
                ollama_default_model(),
            ),
    {
        let base = first_present_string(&config.base_url, &env.ollama_base_url, "http://127.0.0.1:11434");
        let base_url = trim_end_matches_string(base.as_str(), '/');
        let model = first_present_string(&config.model, &env.ollama_model, "llama3.2");
        OllamaProvider { base_url, model }
    }

    /// The generate endpoint.
    pub fn endpoint(&self) -> (r: String)
        ensures
            r@ == self.base_url@ + "/api/generate"@,
    {
        concat_str(self.base_url.as_str(), "/api/generate")
    }

    /// The status endpoint.
    pub fn status_url(&self) -> (r: String)
        ensures
            r@ == self.base_url@ + "/api/status"@,
    {
        concat_str(self.base_url.as_str(), "/api/status")
    }

    /// The usage that a status reply gives; `None` stands for a failed request
    /// or an undecodable body.
    pub fn usage_from_status(info: Option<OllamaUsageInfo>) -> (r: ProviderUsage)
        ensures
            r == spec_status_usage(info),
    {
        match info {
            None => ProviderUsage { used: 12, limit: 100 },
            Some(u) => {
                let m = if u.current >= u.used {
                    u.current
                } else {
                    u.used
                };
                ProviderUsage {
                    used: if m > 0 {
                        m
                    } else {
                        12
                    },
                    limit: if u.limit > 0 {
                        u.limit
                    } else {
                        100
                    },
                }
            },
        }
    }

    /// The snapshot from the API status figures.
    pub fn snapshot_from_usage(usage: ProviderUsage) -> (r: UsageSnapshot)
        ensures
            r@ == spec_api_snapshot(usage),
    {
        UsageSnapshot::new(
            "ollama",
            UsageWindow::new(Some(usage.used), Some(usage.limit)),
            FetchSource::Api,
            ProviderHealth::Okay,
        )
    }

    /// The snapshot from the model counts of `ollama ps` and `ollama ls`.
    pub fn snapshot_from_cli(active: u64, installed: u64) -> (r: UsageSnapshot)
        ensures
            r@ == spec_cli_snapshot(active, installed),
    {
        let mut s = UsageSnapshot::new(
            "ollama",
            UsageWindow::new(Some(active), None),
            FetchSource::Cli,
            ProviderHealth::Okay,
        );
        s.secondary = Some(UsageWindow::new(Some(installed), None));
        s
    }

    /// The snapshot when `--source cli` was asked for and the listings failed.
    pub fn cli_error_snapshot(message: &str) -> (r: UsageSnapshot)
        ensures
            r@ == spec_cli_error_snapshot(message@),
    {
        let mut s = UsageSnapshot::new(
            "ollama",
            UsageWindow::new(None, None),
            FetchSource::Cli,
            ProviderHealth::Error,
        );
        s.stale = true;
        s.error = Some(concat_str("ollama CLI status collection failed: ", message));
        s
    }

    /// The answer in a decoded generate reply: an error reply is an error.
    pub fn response_from_body(response: String, error: Option<String>) -> (r: Result<
        ProviderResponse,
        String,
    >)
        ensures
            error matches Some(m) ==> (r matches Err(e) && e@ == "ollama API returned an error: "@
                + m@),
            error is None ==> (r matches Ok(p) && p.provider@ == "ollama"@ && p.output@
                == response@),
    {
        match error {
            Some(m) => Err(concat_str("ollama API returned an error: ", m.as_str())),
            None => Ok(ProviderResponse { provider: String::from_str("ollama"), output: response }),
        }
    }

    /// The error for a generate request that got an unsuccessful HTTP status.
    pub fn request_failed_message(status: &str, body: &str) -> (r: String)
        ensures
            r@ == "ollama request failed with status "@ + status@ + ": "@ + body@,
    {
        let a = concat3("ollama request failed with status ", status, ": ");
        concat_str(a.as_str(), body)
    }
}

/// The number of models in the output of `ollama ps` or `ollama ls`.
pub fn count_listed_models(output: &str) -> (r: u64)
    ensures
        r == listed_models(output@),
{
    let chars = chars_of(output);
    let ls = lines_of(&chars);
    let ghost all = views(ls@);
    let mut n: u64 = 0;
    let mut k: usize = 0;
    while k < ls.len()
        invariant
            all == views(ls@),
            all == lines(output@),
            k <= ls@.len(),
            n == nonblank_count(all, k as int),
            n <= k,
        decreases ls@.len() - k,
    {
        let t = trim_chars(&ls[k]);
        assert(all[k as int] == ls@[k as int]@);
        if t.len() > 0 {
            n += 1;
        }
        k += 1;
    }
    if n > 0 {
        n - 1
    } else {
        0
    }
}

/// What comes of the CLI listings.
pub enum OllamaCliOutcome {
    /// The snapshot to report.
    Snapshot(UsageSnapshot),
    /// The listings failed under `auto`: the API status is to be asked instead.
    UseApi,
}

impl OllamaProvider {
    /// Whether a request with this source starts with the CLI listings
    /// (`auto` and `cli`) rather than the API (`api`).
    pub fn starts_with_cli(mode: SourceMode) -> (r: bool)
        ensures
            r == (mode != SourceMode::Api),
    {
        match mode {
            SourceMode::Api => false,
            _ => true,
        }
    }

    /// The outcome of the CLI listings (`ollama ps` then `ollama ls` output, or
    /// the failure): their model counts; on failure, under `auto` the API is
    /// tried next, under `cli` an error snapshot is reported.
    pub fn finish_cli_status(mode: SourceMode, listing: Result<(String, String), String>) -> (r:
        OllamaCliOutcome)
        ensures
            listing matches Ok((ps, ls)) ==> (r matches OllamaCliOutcome::Snapshot(s) && s@
                == spec_cli_snapshot(listed_models(ps@) as u64, listed_models(ls@) as u64)),
            listing matches Err(e) ==> (if mode == SourceMode::Auto {
                r is UseApi
            } else {
                r matches OllamaCliOutcome::Snapshot(s) && s@ == spec_cli_error_snapshot(e@)
            }),
    {
        match listing {
            Ok((ps, ls)) => {
                let active = count_listed_models(ps.as_str());
                let installed = count_listed_models(ls.as_str());
                OllamaCliOutcome::Snapshot(Self::snapshot_from_cli(active, installed))
            },
            Err(e) => if mode == SourceMode::Auto {
                OllamaCliOutcome::UseApi
            } else {
                OllamaCliOutcome::Snapshot(Self::cli_error_snapshot(e.as_str()))
            },
        }
    }
}

impl Provider for OllamaProvider {
    open spec fn spec_name(&self) -> Seq<char> {
        "ollama"@
    }

    fn name(&self) -> (r: &'static str) {
        "ollama"
    }
}

} // verus!
