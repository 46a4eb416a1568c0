//! The OpenAI provider: credentials and endpoint resolution, and how an
//! organization usage reply becomes a snapshot.
use vstd::prelude::*;

use crate::env::HostEnvironment;
use crate::providers::{Provider, ProviderConfig};
use crate::text::{
    concat3, concat_str, decimal, first_present, first_present_string, opt_view, trim,
    trim_end_char, trim_end_matches_string, trim_string, u64_to_string,
};
use crate::usage::{
    spec_snapshot, spec_window, FetchSource, ProviderHealth, SourceMode, UsageSnapshot,
    UsageSnapshotView, UsageWindow,
};

verus! {

/// The API base used when none is configured.
pub open spec fn openai_default_base_url() -> Seq<char> {
    "https://api.openai.com/v1"@
}

/// The model filter used when none is configured.
pub open spec fn openai_default_model() -> Seq<char> {
    "gpt-4o-mini"@
}

/// The length of the usage window that is asked for, in seconds.
pub const USAGE_WINDOW_SECONDS: u64 = 86400;

/// The OpenAI provider.
pub struct OpenAiProvider {
    pub base_url: String,
    pub api_key: Option<String>,
    pub model: Option<String>,
}

/// One line of a usage bucket.
#[derive(Clone, Copy, Debug, PartialEq, Eq, Structural)]
pub struct OpenAiUsageResult {
    pub input_tokens: Option<u64>,
    pub output_tokens: Option<u64>,
    pub num_model_requests: Option<u64>,
}

/// One time bucket of an organization usage reply.
pub struct OpenAiUsageBucket {
    pub end_time: u64,
    pub results: Vec<OpenAiUsageResult>,
}

/// An optional figure read as 0 when absent.
pub open spec fn or_zero(v: Option<u64>) -> int {
    match v {
        Some(x) => x as int,
        None => 0,
    }
}

/// The sum of the input tokens of the first `n` results.
pub open spec fn sum_input(rs: Seq<OpenAiUsageResult>, n: int) -> int
    decreases n,
{
    if n <= 0 || n > rs.len() {
        0
    } else {
        sum_input(rs, n - 1) + or_zero(rs[n - 1].input_tokens)
    }
}

/// The sum of the output tokens of the first `n` results.
pub open spec fn sum_output(rs: Seq<OpenAiUsageResult>, n: int) -> int
    decreases n,
{
    if n <= 0 || n > rs.len() {
        0
    } else {
        sum_output(rs, n - 1) + or_zero(rs[n - 1].output_tokens)
    }
}

/// The sum of the request counts of the first `n` results.
pub open spec fn sum_requests(rs: Seq<OpenAiUsageResult>, n: int) -> int
    decreases n,
{
    if n <= 0 || n > rs.len() {
        0
    } else {
        sum_requests(rs, n - 1) + or_zero(rs[n - 1].num_model_requests)
    }
}

proof fn lemma_sums_monotone(rs: Seq<OpenAiUsageResult>, i: int, j: int)
    requires
        0 <= i <= j <= rs.len(),
    ensures
        sum_input(rs, i) <= sum_input(rs, j),
        sum_output(rs, i) <= sum_output(rs, j),
        sum_requests(rs, i) <= sum_requests(rs, j),
    decreases j - i,
{
    if i < j {
        lemma_sums_monotone(rs, i, j - 1);
    }
}

/// The sums of a bucket fit in 64 bits (summing beyond that overflows).
pub open spec fn bucket_sums_fit(rs: Seq<OpenAiUsageResult>) -> bool {
    sum_input(rs, rs.len() as int) <= u64::MAX && sum_output(rs, rs.len() as int) <= u64::MAX
        && sum_requests(rs, rs.len() as int) <= u64::MAX
}

/// A count as `u32`, when it fits.
pub open spec fn fit_u32(v: int) -> Option<u32> {
    if 0 <= v <= u32::MAX {
        Some(v as u32)
    } else {
        None
    }
}

/// The snapshot a usage bucket gives: total tokens (input + output, when that
/// fits in 64 bits) as `primary.used`, requests as `secondary.used`, the token
/// counts that fit in 32 bits, and the bucket's end time as `updated_at`.
pub open spec fn spec_bucket_snapshot(end_time: u64, rs: Seq<OpenAiUsageResult>) -> UsageSnapshotView {
    let p = sum_input(rs, rs.len() as int);
    let c = sum_output(rs, rs.len() as int);
    let q = sum_requests(rs, rs.len() as int);
    let total: Option<u64> = if p + c <= u64::MAX {
        Some((p + c) as u64)
    } else {
        None
    };
    UsageSnapshotView {
        prompt_tokens: fit_u32(p),
        completion_tokens: fit_u32(c),
        total_tokens: match total {
            Some(t) => fit_u32(t as int),
            None => None,
        },
        secondary: Some(spec_window(Some(q as u64), None)),
        updated_at: Some(decimal(end_time as nat)),
        ..spec_snapshot("openai"@, spec_window(total, None), FetchSource::Api, ProviderHealth::Okay)
    }
}

/// The sums over a prefix do not see what comes after it.
proof fn lemma_sums_of_prefix(rs: Seq<OpenAiUsageResult>, r: OpenAiUsageResult, n: int)
    requires
        0 <= n <= rs.len(),
    ensures
        sum_input(rs.push(r), n) == sum_input(rs, n),
        sum_output(rs.push(r), n) == sum_output(rs, n),
        sum_requests(rs.push(r), n) == sum_requests(rs, n),
    decreases n,
{
    if n > 0 {
        lemma_sums_of_prefix(rs, r, n - 1);
    }
}

/// A bucket with no results reports no tokens and no requests; and one more
/// result with `i` input tokens, `o` output tokens and `q` requests (absent
/// ones read as 0) raises the prompt tokens by `i`, the completion tokens by
/// `o`, the total tokens (`primary.used`) by `i + o` and the requests
/// (`secondary.used`) by `q`, as far as the counts fit (the sums of the
/// bucket fit in 64 bits, as [`OpenAiProvider::snapshot_from_bucket`] requires).
pub proof fn law_bucket_snapshot_adds_each_result(
    end_time: u64,
    rs: Seq<OpenAiUsageResult>,
    r: OpenAiUsageResult,
)
    requires
        bucket_sums_fit(rs.push(r)),
    ensures
        spec_bucket_snapshot(end_time, seq![]).prompt_tokens == Some(0u32),
        spec_bucket_snapshot(end_time, seq![]).completion_tokens == Some(0u32),
        spec_bucket_snapshot(end_time, seq![]).primary.used == Some(0u64),
        spec_bucket_snapshot(end_time, seq![]).secondary.unwrap().used == Some(0u64),
        ({
            let before = spec_bucket_snapshot(end_time, rs);
            let after = spec_bucket_snapshot(end_time, rs.push(r));
            let i = match r.input_tokens {
                Some(x) => x as int,
                None => 0int,
            };
            let o = match r.output_tokens {
                Some(x) => x as int,
                None => 0int,
            };
            let q = match r.num_model_requests {
                Some(x) => x as int,
                None => 0int,
            };
            &&& before.prompt_tokens matches Some(p) ==> (p + i <= u32::MAX ==> after.prompt_tokens
                == Some((p + i) as u32))
            &&& before.completion_tokens matches Some(c) ==> (c + o <= u32::MAX
                ==> after.completion_tokens == Some((c + o) as u32))
            &&& before.primary.used matches Some(u) ==> (u + i + o <= u64::MAX
                ==> after.primary.used == Some((u + i + o) as u64))
            &&& before.secondary.unwrap().used matches Some(n) ==> (n + q <= u64::MAX
                ==> after.secondary.unwrap().used == Some((n + q) as u64))
        }),
{
    lemma_sums_of_prefix(rs, r, rs.len() as int);
    let rs2 = rs.push(r);
    lemma_sums_monotone(rs2, rs.len() as int, rs2.len() as int);
    assert(rs2[rs.len() as int] == r);
    assert(sum_input(rs2, rs2.len() as int) == sum_input(rs, rs.len() as int) + or_zero(r.input_tokens));
    assert(sum_output(rs2, rs2.len() as int) == sum_output(rs, rs.len() as int) + or_zero(r.output_tokens));
    assert(sum_requests(rs2, rs2.len() as int) == sum_requests(rs, rs.len() as int) + or_zero(
        r.num_model_requests,
    ));
    let before = spec_bucket_snapshot(end_time, rs);
    let after = spec_bucket_snapshot(end_time, rs2);
    let i = or_zero(r.input_tokens);
    let o = or_zero(r.output_tokens);
    let q = or_zero(r.num_model_requests);
    let p1 = sum_input(rs, rs.len() as int);
    let c1 = sum_output(rs, rs.len() as int);
    let q1 = sum_requests(rs, rs.len() as int);
    assert(0 <= p1 && 0 <= c1 && 0 <= q1) by {
        lemma_sums_monotone(rs, 0, rs.len() as int);
    }
    assert(before.primary.used == (if p1 + c1 <= u64::MAX {
        Some((p1 + c1) as u64)
    } else {
        None
    }));
    assert(after.primary.used == (if p1 + i + c1 + o <= u64::MAX {
        Some((p1 + i + c1 + o) as u64)
    } else {
        None
    }));
    assert(before.secondary.unwrap().used == Some(q1 as u64));
    assert(after.secondary.unwrap().used == Some((q1 + q) as u64));
}

/// The index of the bucket with the latest end time; the last of equals wins
/// (`Iterator::max_by_key`).
pub open spec fn latest_index(ends: Seq<u64>, n: int) -> int
    decreases n,
{
    if n <= 1 {
        0
    } else {
        let prev = latest_index(ends, n - 1);
        if ends[n - 1] >= ends[prev] {
            n - 1
        } else {
            prev
        }
    }
}

/// The end times of a list of buckets.
pub open spec fn bucket_ends(bs: Seq<OpenAiUsageBucket>) -> Seq<u64> {
    bs.map_values(|b: OpenAiUsageBucket| b.end_time)
}

proof fn lemma_latest_index_range(ends: Seq<u64>, n: int)
    requires
        1 <= n <= ends.len(),
    ensures
        0 <= latest_index(ends, n) < n,
    decreases n,
{
    if n > 1 {
        lemma_latest_index_range(ends, n - 1);
    }
}

/// The snapshot when no key is configured.
pub open spec fn spec_missing_credentials_snapshot() -> UsageSnapshotView {
    UsageSnapshotView {
        stale: true,
        error: Some("OPENAI_ADMIN_KEY or OPENAI_API_KEY is not set"@),
        ..spec_snapshot(
            "openai"@,
            spec_window(None, None),
            FetchSource::Unknown,
            ProviderHealth::MissingCredentials,
        )
    }
}

/// The snapshot for `--source cli`, which this provider does not support.
pub open spec fn spec_cli_snapshot() -> UsageSnapshotView {
    UsageSnapshotView {
        stale: true,
        error: Some("openai CLI status strategy is not implemented"@),
        ..spec_snapshot("openai"@, spec_window(None, None), FetchSource::Cli, ProviderHealth::Degraded)
    }
}

/// The snapshot when the usage request failed with `message`.
pub open spec fn spec_api_error_snapshot(message: Seq<char>) -> UsageSnapshotView {
    UsageSnapshotView {
        stale: true,
        error: Some(message),
        ..spec_snapshot("openai"@, spec_window(None, None), FetchSource::Api, ProviderHealth::Error)
    }
}

/// A variable's value, trimmed, when it is set and not blank.
pub open spec fn usable(v: Option<Seq<char>>) -> Option<Seq<char>> {
    match v {
        Some(x) => if trim(x).len() > 0 {
            Some(trim(x))
        } else {
            None
        },
        None => None,
    }
}

/// The key from the environment: `OPENAI_ADMIN_KEY`, trimmed, when it is set
/// and not blank; else `OPENAI_API_KEY`, trimmed, when it is set and not blank.
pub open spec fn spec_api_key(admin: Option<Seq<char>>, api: Option<Seq<char>>) -> Option<Seq<char>> {
    match usable(admin) {
        Some(k) => Some(k),
        None => usable(api),
    }
}

/// The model filter: the configured or `OPENAI_MODEL` one, trimmed, unless
/// blank; else `gpt-4o-mini`.
pub open spec fn spec_model(config: Option<Seq<char>>, env: Option<Seq<char>>) -> Seq<char> {
    let m = match config {
        Some(c) => Some(c),
        None => env,
    };
    match m {
        Some(v) => if trim(v).len() > 0 {
            trim(v)
        } else {
            openai_default_model()
        },
        None => openai_default_model(),
    }
}

/// What a status request asks of the OpenAI provider.
pub enum OpenAiStatusPlan {
    /// The answer is known without a request.
    Done(UsageSnapshot),
    /// The usage endpoint has to be asked.
    QueryUsage,
}

/// Trims an optional string and drops it when blank.
fn trimmed_nonblank(v: &Option<String>) -> (r: Option<String>)
    ensures
        opt_view(r) == usable(opt_view(*v)),
{
    match v {
        Some(x) => {
            let t = trim_string(x.as_str());
            if t.unicode_len() > 0 {
                Some(t)
            } else {
                None
            }
        },
        None => None,
    }
}

impl OpenAiProvider {
    /// The provider for the given overrides and environment.
    pub fn new(config: ProviderConfig, env: &HostEnvironment) -> (r: OpenAiProvider)
        ensures
            r.base_url@ == trim_end_char(
                first_present(
                    opt_view(config.base_url),
                    opt_view(env.openai_base_url),
                    openai_default_base_url(),
                ),
                '/',
            ),
            opt_view(r.model) == Some(spec_model(opt_view(config.model), opt_view(env.openai_model))),
            opt_view(r.api_key) == spec_api_key(
                opt_view(env.openai_admin_key),
                opt_view(env.openai_api_key),
            ),
    {
        let base = first_present_string(
            &config.base_url,
            &env.openai_base_url,
            "https://api.openai.com/v1",
        );
        let base_url = trim_end_matches_string(base.as_str(), '/');
        let chosen_model = match config.model {
            Some(m) => Some(m),
            None => crate::text::copy_opt_string(&env.openai_model),
        };
        let model = match trimmed_nonblank(&chosen_model) {
            Some(m) => Some(m),
            None => Some(String::from_str("gpt-4o-mini")),
        };
        let api_key = match trimmed_nonblank(&env.openai_admin_key) {
            Some(k) => Some(k),
            None => trimmed_nonblank(&env.openai_api_key),
        };
        OpenAiProvider { base_url, api_key, model }
    }

    /// The organization usage endpoint.
    pub fn endpoint(&self) -> (r: String)
        ensures
            r@ == self.base_url@ + "/organization/usage/completions"@,
    {
        concat_str(self.base_url.as_str(), "/organization/usage/completions")
    }

    /// The snapshot for `--source cli`.
    pub fn status_cli(&self) -> (r: UsageSnapshot)
        ensures
            r@ == spec_cli_snapshot(),
    {
        let mut s = UsageSnapshot::new(
            "openai",
            UsageWindow::new(None, None),
            FetchSource::Cli,
            ProviderHealth::Degraded,
        );
        s.stale = true;
        s.error = Some(String::from_str("openai CLI status strategy is not implemented"));
        s
    }

    /// The snapshot when no key is configured.
    pub fn missing_credentials_snapshot(&self) -> (r: UsageSnapshot)
        ensures
            r@ == spec_missing_credentials_snapshot(),
    {
        let mut s = UsageSnapshot::new(
            "openai",
            UsageWindow::new(None, None),
            FetchSource::Unknown,
            ProviderHealth::MissingCredentials,
        );
        s.stale = true;
        s.error = Some(String::from_str("OPENAI_ADMIN_KEY or OPENAI_API_KEY is not set"));
        s
    }

    /// What a status request needs: the CLI source is answered at once, and so
    /// is the API source (also under `auto`) when no key is configured; otherwise
    /// the usage endpoint has to be asked.
    pub fn plan_status(&self, mode: SourceMode) -> (r: OpenAiStatusPlan)
        ensures
            mode == SourceMode::Cli ==> (r matches OpenAiStatusPlan::Done(s) && s@
                == spec_cli_snapshot()),
            mode != SourceMode::Cli && self.api_key is None ==> (r matches OpenAiStatusPlan::Done(s)
                && s@ == spec_missing_credentials_snapshot()),
            mode != SourceMode::Cli && self.api_key is Some ==> r is QueryUsage,
    {
        match mode {
            SourceMode::Cli => OpenAiStatusPlan::Done(self.status_cli()),
            _ => if self.api_key.is_none() {
                OpenAiStatusPlan::Done(self.missing_credentials_snapshot())
            } else {
                OpenAiStatusPlan::QueryUsage
            },
        }
    }

    /// The snapshot once the usage request is answered: the latest bucket's
    /// snapshot, or an error snapshot with the failure's message.
    pub fn finish_status(&self, bucket: Result<OpenAiUsageBucket, String>) -> (r: UsageSnapshot)
        requires
            bucket matches Ok(b) ==> bucket_sums_fit(b.results@),
        ensures
            bucket matches Ok(b) ==> r@ == spec_bucket_snapshot(b.end_time, b.results@),
            bucket matches Err(e) ==> r@ == spec_api_error_snapshot(e@),
    {
        match bucket {
            Ok(b) => self.snapshot_from_bucket(&b),
            Err(message) => {
                let mut s = UsageSnapshot::new(
                    "openai",
                    UsageWindow::new(None, None),
                    FetchSource::Api,
                    ProviderHealth::Error,
                );
                s.stale = true;
                s.error = Some(message);
                s
            },
        }
    }

    /// The snapshot a usage bucket gives.
    pub fn snapshot_from_bucket(&self, bucket: &OpenAiUsageBucket) -> (r: UsageSnapshot)
        requires
            bucket_sums_fit(bucket.results@),
        ensures
            r@ == spec_bucket_snapshot(bucket.end_time, bucket.results@),
    {
        let rs = &bucket.results;
        let mut p: u64 = 0;
        let mut c: u64 = 0;
        let mut q: u64 = 0;
        let mut i: usize = 0;
        while i < rs.len()
            invariant
                i <= rs@.len(),
                bucket_sums_fit(rs@),
                p == sum_input(rs@, i as int),
                c == sum_output(rs@, i as int),
                q == sum_requests(rs@, i as int),
            decreases rs@.len() - i,
        {
            proof {
                lemma_sums_monotone(rs@, i + 1, rs@.len() as int);
            }
            let r = rs[i];
            p = p + match r.input_tokens {
                Some(x) => x,
                None => 0,
            };
            c = c + match r.output_tokens {
                Some(x) => x,
                None => 0,
            };
            q = q + match r.num_model_requests {
                Some(x) => x,
                None => 0,
            };
            i += 1;
        }
        let total = p.checked_add(c);
        let mut s = UsageSnapshot::new(
            "openai",
            UsageWindow::new(total, None),
            FetchSource::Api,
            ProviderHealth::Okay,
        );
        s.prompt_tokens = to_u32(p);
        s.completion_tokens = to_u32(c);
        s.total_tokens = match total {
            Some(t) => to_u32(t),
            None => None,
        };
        s.secondary = Some(UsageWindow::new(Some(q), None));
        s.updated_at = Some(u64_to_string(bucket.end_time));
        s
    }

    /// The error text for an unsuccessful usage request.
    pub fn request_failure_message(status_code: u16, status: &str, body: &str) -> (r: String)
        ensures
            status_code == 403 ==> r@
                == "OpenAI usage API rejected the key (403). An admin-scoped key is required for organization usage endpoints: "@
                + body@,
            status_code != 403 ==> r@ == "OpenAI usage API request failed with status "@ + status@
                + ": "@ + body@,
    {
        if status_code == 403 {
            concat_str(
                "OpenAI usage API rejected the key (403). An admin-scoped key is required for organization usage endpoints: ",
                body,
            )
        } else {
            let a = concat3("OpenAI usage API request failed with status ", status, ": ");
            concat_str(a.as_str(), body)
        }
    }

    /// The window asked for: the last 24 hours up to `now` (from 0 when `now`
    /// is earlier than that).
    pub fn usage_window_bounds(now: u64) -> (r: (u64, u64))
        ensures
            r.0 == (if now >= USAGE_WINDOW_SECONDS {
                now - USAGE_WINDOW_SECONDS
            } else {
                0
            }),
            r.1 == now,
    {
        (now.saturating_sub(USAGE_WINDOW_SECONDS), now)
    }

    /// The query of the usage request at time `now`: the window's start and
    /// end, daily buckets, and the model filter when there is one.
    pub fn usage_query(&self, now: u64) -> (r: Vec<(String, String)>)
        ensures
            pair_views(r@) == spec_usage_query(opt_view(self.model), now),
    {
        let (start, end) = Self::usage_window_bounds(now);
        let mut q: Vec<(String, String)> = Vec::new();
        q.push((String::from_str("start_time"), u64_to_string(start)));
        q.push((String::from_str("end_time"), u64_to_string(end)));
        q.push((String::from_str("bucket_width"), String::from_str("1d")));
        match &self.model {
            Some(m) => {
                q.push((String::from_str("models[]"), crate::text::copy_string(m)));
            },
            None => {},
        }
        proof {
            let base = seq![
                ("start_time"@, decimal(start as nat)),
                ("end_time"@, decimal(end as nat)),
                ("bucket_width"@, "1d"@),
            ];
            if self.model is Some {
                assert(pair_views(q@) =~= base.push(("models[]"@, self.model.unwrap()@)));
            } else {
                assert(pair_views(q@) =~= base);
            }
        }
        q
    }
}

/// The views of a sequence of name/value pairs.
pub open spec fn pair_views(v: Seq<(String, String)>) -> Seq<(Seq<char>, Seq<char>)> {
    v.map_values(|p: (String, String)| (p.0@, p.1@))
}

/// The query of the usage request at time `now`.
pub open spec fn spec_usage_query(model: Option<Seq<char>>, now: u64) -> Seq<(Seq<char>, Seq<char>)> {
    let start: nat = if now >= USAGE_WINDOW_SECONDS {
        (now - USAGE_WINDOW_SECONDS) as nat
    } else {
        0
    };
    let base = seq![
        ("start_time"@, decimal(start)),
        ("end_time"@, decimal(now as nat)),
        ("bucket_width"@, "1d"@),
    ];
    match model {
        Some(m) => base.push(("models[]"@, m)),
        None => base,
    }
}

/// Whether the sums of a bucket's results fit in 64 bits.
pub fn usage_sums_fit(results: &Vec<OpenAiUsageResult>) -> (r: bool)
    ensures
        r == bucket_sums_fit(results@),
{
    let mut p: u64 = 0;
    let mut c: u64 = 0;
    let mut q: u64 = 0;
    let mut i: usize = 0;
    while i < results.len()
        invariant
            i <= results@.len(),
            p == sum_input(results@, i as int),
            c == sum_output(results@, i as int),
            q == sum_requests(results@, i as int),
        decreases results@.len() - i,
    {
        let r = results[i];
        let np = p.checked_add(match r.input_tokens {
            Some(x) => x,
            None => 0,
        });
        let nc = c.checked_add(match r.output_tokens {
            Some(x) => x,
            None => 0,
        });
        let nq = q.checked_add(match r.num_model_requests {
            Some(x) => x,
            None => 0,
        });
        match (np, nc, nq) {
            (Some(a), Some(b), Some(d)) => {
                p = a;
                c = b;
                q = d;
            },
            _ => {
                proof {
                    lemma_sums_monotone(results@, i + 1, results@.len() as int);
                }
                return false;
            },
        }
        i += 1;
    }
    true
}

/// A count as `u32`, when it fits.
fn to_u32(v: u64) -> (r: Option<u32>)
    ensures
        r == fit_u32(v as int),
{
    if v <= 4294967295u64 {
        Some(v as u32)
    } else {
        None
    }
}

/// The error when a usage reply holds no bucket.
pub open spec fn no_buckets_message() -> Seq<char> {
    "OpenAI usage API returned no usage buckets"@
}

/// The bucket with the latest end time (the last of equals), or the error
/// for an empty reply.
pub fn select_latest_bucket(buckets: Vec<OpenAiUsageBucket>) -> (r: Result<OpenAiUsageBucket, String>)
    ensures
        buckets@.len() == 0 ==> (r matches Err(e) && e@ == no_buckets_message()),
        buckets@.len() > 0 ==> (r matches Ok(b) && b == buckets@[latest_index(
            bucket_ends(buckets@),
            buckets@.len() as int,
        )]),
{
    if buckets.len() == 0 {
        return Err(String::from_str("OpenAI usage API returned no usage buckets"));
    }
    let ghost ends = bucket_ends(buckets@);
    let mut best: usize = 0;
    let mut i: usize = 1;
    while i < buckets.len()
        invariant
            1 <= i <= buckets@.len(),
            ends == bucket_ends(buckets@),
            best == latest_index(ends, i as int),
            best < i,
        decreases buckets@.len() - i,
    {
        if buckets[i].end_time >= buckets[best].end_time {
            best = i;
        }
        i += 1;
    }
    let mut buckets = buckets;
    let b = buckets.swap_remove(best);
    Ok(b)
}

impl Provider for OpenAiProvider {
    open spec fn spec_name(&self) -> Seq<char> {
        "openai"@
    }

    fn name(&self) -> (r: &'static str) {
        "openai"
    }
}

} // verus!
