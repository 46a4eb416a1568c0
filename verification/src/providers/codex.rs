//! The Codex provider: reading the app-server's JSON-RPC replies, choosing the
//! Codex rate limit, session token usage, and building the snapshot.
use vstd::prelude::*;

use crate::env::{codex_file_path, spec_codex_file, HostEnvironment};
use crate::providers::codex_tty::CodexTtyStatusSnapshot;
use crate::providers::{Provider, ProviderConfig};
use crate::text::{
    chars_of, concat3, concat_str, copy_opt_string, decimal, eq_ignore_ascii_case,
    eq_ignore_ascii_case_chars, i64_to_string, lines, lines_of, opt_view, signed_decimal,
    string_of, text_lt, text_lt_chars, trim, trim_chars, trim_string, u64_to_string, views,
    lemma_text_lt_asymmetric, lemma_text_lt_total, lemma_text_lt_transitive,
};
use crate::usage::{
    opt_window_view, spec_snapshot, spec_window, FetchSource, ProviderHealth,
    SourceMode, UsageSnapshot, UsageSnapshotView, UsageWindow, UsageWindowView,
};

verus! {

// ---------------------------------------------------------------------------
// The model of the app-server replies
// ---------------------------------------------------------------------------

/// What the local auth file says.
pub struct CodexAuthState {
    pub exists: bool,
    pub auth_mode: Option<String>,
    pub last_refresh: Option<String>,
}

/// The fields of the auth file that are read.
pub struct CodexAuthFile {
    pub auth_mode: Option<String>,
    pub last_refresh: Option<String>,
}

/// The account that `account/read` reports.
pub struct CodexAccount {
    pub account_type: String,
    pub email: Option<String>,
    pub plan_type: Option<String>,
}

/// The result of `account/read`.
pub struct CodexAccountReadResult {
    pub account: Option<CodexAccount>,
    pub requires_openai_auth: bool,
}

/// One rate-limit window: the percentage used and when it resets.
#[derive(Clone, Copy, Debug, PartialEq, Eq, Structural)]
pub struct CodexRateLimitWindow {
    pub used_percent: u32,
    pub resets_at: Option<u64>,
    pub window_duration_mins: Option<u64>,
}

/// One rate limit with its primary and secondary windows.
pub struct CodexRateLimitSnapshot {
    pub limit_id: Option<String>,
    pub limit_name: Option<String>,
    pub primary: Option<CodexRateLimitWindow>,
    pub secondary: Option<CodexRateLimitWindow>,
}

/// The result of `account/rateLimits/read`. The per-id limits are the
/// entries of the reply's map as they come; an entry under an id that came
/// before replaces the earlier one, as it does in a map.
pub struct CodexRateLimitsReadResult {
    pub rate_limits: Option<CodexRateLimitSnapshot>,
    pub rate_limits_by_limit_id: Option<Vec<(String, CodexRateLimitSnapshot)>>,
}

/// What the app-server told about the account and its limits.
pub struct CodexAppServerStatus {
    pub account: Option<CodexAccountReadResult>,
    pub rate_limits: Option<CodexRateLimitsReadResult>,
    pub rate_limits_error: Option<String>,
}

/// The content of a [`CodexAppServerStatus`].
pub struct CodexAppServerStatusView {
    pub account: Option<CodexAccountReadResult>,
    pub rate_limits: Option<CodexRateLimitsReadResult>,
    pub rate_limits_error: Option<Seq<char>>,
}

impl View for CodexAppServerStatus {
    type V = CodexAppServerStatusView;

    open spec fn view(&self) -> CodexAppServerStatusView {
        CodexAppServerStatusView {
            account: self.account,
            rate_limits: self.rate_limits,
            rate_limits_error: opt_view(self.rate_limits_error),
        }
    }
}

impl CodexAppServerStatus {
    /// A status with nothing known.
    pub fn empty() -> (r: CodexAppServerStatus)
        ensures
            r.account is None,
            r.rate_limits is None,
            r.rate_limits_error is None,
    {
        CodexAppServerStatus { account: None, rate_limits: None, rate_limits_error: None }
    }
}

/// A JSON-RPC error object.
pub struct JsonRpcError {
    pub code: i64,
    pub message: String,
}

/// The result payload of a reply, decoded as each of the payloads it may be;
/// `None` where it does not decode as that payload.
pub struct AppServerResult {
    pub as_account: Option<CodexAccountReadResult>,
    pub as_rate_limits: Option<CodexRateLimitsReadResult>,
}

/// One JSON-RPC reply line.
pub struct AppServerResponse {
    pub id: Option<u64>,
    pub result: Option<AppServerResult>,
    pub error: Option<JsonRpcError>,
}

// ---------------------------------------------------------------------------
// Framing and reading the replies
// ---------------------------------------------------------------------------

/// The trimmed non-blank lines among the first `n` of `ls`.
pub open spec fn nonblank_trimmed(ls: Seq<Seq<char>>, n: int) -> Seq<Seq<char>>
    decreases n,
{
    if n <= 0 || n > ls.len() {
        seq![]
    } else if trim(ls[n - 1]).len() > 0 {
        nonblank_trimmed(ls, n - 1).push(trim(ls[n - 1]))
    } else {
        nonblank_trimmed(ls, n - 1)
    }
}

/// The records of a line-oriented output: its lines, trimmed, without the blank ones.
pub open spec fn spec_record_lines(s: Seq<char>) -> Seq<Seq<char>> {
    nonblank_trimmed(lines(s), lines(s).len() as int)
}

/// The views of a sequence of strings.
pub open spec fn string_views(v: Seq<String>) -> Seq<Seq<char>> {
    v.map_values(|x: String| x@)
}

/// The trimmed non-blank lines of a line-oriented output.
pub fn record_lines(s: &str) -> (r: Vec<String>)
    ensures
        string_views(r@) == spec_record_lines(s@),
{
    let chars = chars_of(s);
    let ls = lines_of(&chars);
    let ghost all = views(ls@);
    let mut out: Vec<String> = Vec::new();
    let mut k: usize = 0;
    while k < ls.len()
        invariant
            all == views(ls@),
            all == lines(s@),
            k <= ls@.len(),
            string_views(out@) == nonblank_trimmed(all, k as int),
        decreases ls@.len() - k,
    {
        let t = trim_chars(&ls[k]);
        assert(all[k as int] == ls@[k as int]@);
        if t.len() > 0 {
            let ghost before = string_views(out@);
            out.push(string_of(&t));
            assert(string_views(out@) =~= before.push(t@));
        }
        k += 1;
    }
    out
}

/// How the app-server's output is read: its records when it printed anything,
/// else an error naming the failure.
pub open spec fn spec_app_server_output(
    stdout: Seq<char>,
    success: bool,
    exit_status: Seq<char>,
    stderr: Seq<char>,
) -> Result<Seq<Seq<char>>, Seq<char>> {
    if trim(stdout).len() > 0 {
        Ok(spec_record_lines(stdout))
    } else if !success {
        if trim(stderr).len() == 0 {
            Err("codex app-server exited with status "@ + exit_status)
        } else {
            Err("codex app-server failed: "@ + trim(stderr))
        }
    } else {
        Err("codex app-server returned no output"@)
    }
}

/// The reply records of the app-server, or the error for a run that printed nothing.
pub fn app_server_output(stdout: &str, success: bool, exit_status: &str, stderr: &str) -> (r: Result<
    Vec<String>,
    String,
>)
    ensures
        r matches Ok(v) ==> spec_app_server_output(stdout@, success, exit_status@, stderr@) == Ok::<
            Seq<Seq<char>>,
            Seq<char>,
        >(string_views(v@)),
        r matches Err(e) ==> spec_app_server_output(stdout@, success, exit_status@, stderr@)
            == Err::<Seq<Seq<char>>, Seq<char>>(e@),
{
    let t = trim_string(stdout);
    if t.unicode_len() > 0 {
        return Ok(record_lines(stdout));
    }
    if !success {
        let e = trim_string(stderr);
        if e.unicode_len() == 0 {
            return Err(concat_str("codex app-server exited with status ", exit_status));
        } else {
            return Err(concat_str("codex app-server failed: ", e.as_str()));
        }
    }
    Err(String::from_str("codex app-server returned no output"))
}

/// The error for a reply line that is not JSON-RPC.
pub open spec fn undecodable_reply_message() -> Seq<char> {
    "failed to decode codex app-server JSON-RPC response"@
}

/// The error for an `account/read` error reply.
pub open spec fn account_error_message(code: i64, message: Seq<char>) -> Seq<char> {
    "codex account/read returned error "@ + signed_decimal(code as int) + ": "@ + message
}

/// The error for an `account/rateLimits/read` error reply.
pub open spec fn rate_limits_error_message(code: i64, message: Seq<char>) -> Seq<char> {
    "codex rateLimits/read returned error "@ + signed_decimal(code as int) + ": "@ + message
}

/// Reads the replies `ls[k..]` into `acc`: reply 2 sets the account (its error,
/// a missing or undecodable payload end the reading with an error), reply 3
/// sets the rate limits or records its error, other replies are passed over;
/// in the end an account must have been read.
pub open spec fn read_replies(
    ls: Seq<Option<AppServerResponse>>,
    k: int,
    acc: CodexAppServerStatusView,
) -> Result<CodexAppServerStatusView, Seq<char>>
    decreases ls.len() - k,
{
    if k < 0 || k >= ls.len() {
        if acc.account is None {
            Err("codex account/read returned no response"@)
        } else {
            Ok(acc)
        }
    } else {
        match ls[k] {
            None => Err(undecodable_reply_message()),
            Some(resp) => if resp.id == Some(2u64) {
                match resp.error {
                    Some(e) => Err(account_error_message(e.code, e.message@)),
                    None => match resp.result {
                        None => Err("codex account/read returned no result payload"@),
                        Some(res) => match res.as_account {
                            None => Err("failed to decode codex account/read result payload"@),
                            Some(a) => read_replies(
                                ls,
                                k + 1,
                                CodexAppServerStatusView { account: Some(a), ..acc },
                            ),
                        },
                    },
                }
            } else if resp.id == Some(3u64) {
                match resp.error {
                    Some(e) => read_replies(
                        ls,
                        k + 1,
                        CodexAppServerStatusView {
                            rate_limits_error: Some(rate_limits_error_message(e.code, e.message@)),
                            ..acc
                        },
                    ),
                    None => match resp.result {
                        None => read_replies(ls, k + 1, acc),
                        Some(res) => match res.as_rate_limits {
                            None => Err("failed to decode codex rateLimits/read result payload"@),
                            Some(rl) => read_replies(
                                ls,
                                k + 1,
                                CodexAppServerStatusView { rate_limits: Some(rl), ..acc },
                            ),
                        },
                    },
                }
            } else {
                read_replies(ls, k + 1, acc)
            },
        }
    }
}

/// What the reply lines say, read from an empty status.
pub open spec fn spec_read_app_server_replies(ls: Seq<Option<AppServerResponse>>) -> Result<
    CodexAppServerStatusView,
    Seq<char>,
> {
    read_replies(
        ls,
        0,
        CodexAppServerStatusView { account: None, rate_limits: None, rate_limits_error: None },
    )
}

/// Reads the decoded reply lines of the app-server (`None` for a line that is
/// not JSON-RPC) into the account and rate-limit status.
pub fn parse_app_server_status_response(replies: Vec<Option<AppServerResponse>>) -> (r: Result<
    CodexAppServerStatus,
    String,
>)
    ensures
        r matches Ok(s) ==> spec_read_app_server_replies(replies@) == Ok::<
            CodexAppServerStatusView,
            Seq<char>,
        >(s@),
        r matches Err(e) ==> spec_read_app_server_replies(replies@) == Err::<
            CodexAppServerStatusView,
            Seq<char>,
        >(e@),
{
    let ghost all = replies@;
    let mut rest = replies;
    let mut status = CodexAppServerStatus::empty();
    let ghost mut k: int = 0;
    assert(status@ == CodexAppServerStatusView {
        account: None,
        rate_limits: None,
        rate_limits_error: None,
    });
    while rest.len() > 0
        invariant
            0 <= k <= all.len(),
            all == replies@,
            rest@ == all.skip(k),
            spec_read_app_server_replies(all) == read_replies(all, k, status@),
        decreases rest@.len(),
    {
        let line = rest.remove(0);
        assert(line == all[k]);
        let ghost before = status@;
        match line {
            None => {
                return Err(String::from_str("failed to decode codex app-server JSON-RPC response"));
            },
            Some(resp) => {
                if resp.id == Some(2u64) {
                    match resp.error {
                        Some(e) => {
                            let code = i64_to_string(e.code);
                            let a = concat3(
                                "codex account/read returned error ",
                                code.as_str(),
                                ": ",
                            );
                            return Err(concat_str(a.as_str(), e.message.as_str()));
                        },
                        None => match resp.result {
                            None => {
                                return Err(
                                    String::from_str("codex account/read returned no result payload"),
                                );
                            },
                            Some(res) => match res.as_account {
                                None => {
                                    return Err(
                                        String::from_str(
                                            "failed to decode codex account/read result payload",
                                        ),
                                    );
                                },
                                Some(a) => {
                                    status.account = Some(a);
                                },
                            },
                        },
                    }
                } else if resp.id == Some(3u64) {
                    match resp.error {
                        Some(e) => {
                            let code = i64_to_string(e.code);
                            let a = concat3(
                                "codex rateLimits/read returned error ",
                                code.as_str(),
                                ": ",
                            );
                            status.rate_limits_error = Some(concat_str(a.as_str(), e.message.as_str()));
                        },
                        None => match resp.result {
                            None => {},
                            Some(res) => match res.as_rate_limits {
                                None => {
                                    return Err(
                                        String::from_str(
                                            "failed to decode codex rateLimits/read result payload",
                                        ),
                                    );
                                },
                                Some(rl) => {
                                    status.rate_limits = Some(rl);
                                },
                            },
                        },
                    }
                }
            },
        }
        proof {
            assert(rest@ =~= all.skip(k + 1));
            k = k + 1;
        }
    }
    if status.account.is_none() {
        return Err(String::from_str("codex account/read returned no response"));
    }
    Ok(status)
}

// ---------------------------------------------------------------------------
// Choosing the Codex rate limit
// ---------------------------------------------------------------------------

/// The index of the last entry among the first `n` of `m` whose id is
/// exactly `codex` (the one a map keeps under that id).
pub open spec fn last_exact_codex_index(m: Seq<(String, CodexRateLimitSnapshot)>, n: int) -> Option<int>
    decreases n,
{
    if n <= 0 || n > m.len() {
        None
    } else if m[n - 1].0@ == "codex"@ {
        Some(n - 1)
    } else {
        last_exact_codex_index(m, n - 1)
    }
}

/// The id is `codex` in any ASCII case.
pub open spec fn is_codex_id(id: Seq<char>) -> bool {
    eq_ignore_ascii_case(id, "codex"@)
}

/// Among the first `n` entries of `m` whose id is `codex` in any ASCII case,
/// the index of one with the least id, the last of those under that id.
pub open spec fn least_caseless_codex_index(m: Seq<(String, CodexRateLimitSnapshot)>, n: int) -> Option<
    int,
>
    decreases n,
{
    if n <= 0 || n > m.len() {
        None
    } else {
        let prev = least_caseless_codex_index(m, n - 1);
        if is_codex_id(m[n - 1].0@) && (prev matches Some(p) ==> !text_lt(m[p].0@, m[n - 1].0@)) {
            Some(n - 1)
        } else {
            prev
        }
    }
}

/// The caseless choice is an entry whose id is `codex` in any case and whose
/// id comes first among all such ids; there is one whenever such an id exists.
pub proof fn lemma_least_caseless_codex_index(m: Seq<(String, CodexRateLimitSnapshot)>, n: int)
    requires
        0 <= n <= m.len(),
    ensures
        least_caseless_codex_index(m, n) matches Some(k) ==> 0 <= k < n && is_codex_id(m[k].0@)
            && forall|j: int| 0 <= j < n && is_codex_id(#[trigger] m[j].0@) ==> !text_lt(m[j].0@, m[k].0@),
        least_caseless_codex_index(m, n) is None ==> forall|j: int|
            0 <= j < n ==> !is_codex_id(#[trigger] m[j].0@),
    decreases n,
{
    if n > 0 {
        lemma_least_caseless_codex_index(m, n - 1);
        let prev = least_caseless_codex_index(m, n - 1);
        let kn = m[n - 1].0@;
        match prev {
            Some(p) => {
                let kp = m[p].0@;
                if is_codex_id(kn) && !text_lt(kp, kn) {
                    assert forall|j: int| 0 <= j < n && is_codex_id(#[trigger] m[j].0@) implies !text_lt(
                        m[j].0@,
                        kn,
                    ) by {
                        if j == n - 1 {
                            lemma_text_lt_asymmetric(kn, kn, 0);
                        } else if text_lt(m[j].0@, kn) {
                            if text_lt(kn, kp) {
                                lemma_text_lt_transitive(m[j].0@, kn, kp, 0);
                            } else {
                                lemma_text_lt_total(kp, kn, 0);
                            }
                        }
                    }
                } else if is_codex_id(kn) {
                    lemma_text_lt_asymmetric(kp, kn, 0);
                }
            },
            None => {
                lemma_text_lt_asymmetric(kn, kn, 0);
            },
        }
    }
}

/// The limit's id or name is `codex` in any ASCII case.
pub open spec fn spec_is_codex_limit(s: CodexRateLimitSnapshot) -> bool {
    (s.limit_id matches Some(v) && eq_ignore_ascii_case(v@, "codex"@)) || (s.limit_name matches Some(
        v,
    ) && eq_ignore_ascii_case(v@, "codex"@))
}

/// The limit has a window.
pub open spec fn spec_has_usage(s: CodexRateLimitSnapshot) -> bool {
    s.primary is Some || s.secondary is Some
}

/// The Codex limit: under the id `codex` exactly, else under the least id
/// that is `codex` in another case, else the single reported limit when it is
/// the Codex one or has a window.
pub open spec fn spec_select_codex_rate_limit(rl: Option<CodexRateLimitsReadResult>) -> Option<
    CodexRateLimitSnapshot,
> {
    match rl {
        None => None,
        Some(r) => {
            let from_map: Option<CodexRateLimitSnapshot> = match r.rate_limits_by_limit_id {
                Some(m) => match last_exact_codex_index(m@, m@.len() as int) {
                    Some(i) => Some(m@[i].1),
                    None => match least_caseless_codex_index(m@, m@.len() as int) {
                        Some(i) => Some(m@[i].1),
                        None => None,
                    },
                },
                None => None,
            };
            match from_map {
                Some(s) => Some(s),
                None => match r.rate_limits {
                    Some(s) => if spec_is_codex_limit(s) || spec_has_usage(s) {
                        Some(s)
                    } else {
                        None
                    },
                    None => None,
                },
            }
        },
    }
}

/// When no id is exactly `codex`, the limit chosen among the ids that are
/// `codex` in another case is one under the least such id, whatever the order
/// in which the entries came.
pub proof fn law_codex_limit_under_least_caseless_id(
    rl: CodexRateLimitsReadResult,
    m: Vec<(String, CodexRateLimitSnapshot)>,
    j: int,
)
    requires
        rl.rate_limits_by_limit_id == Some(m),
        last_exact_codex_index(m@, m@.len() as int) is None,
        0 <= j < m@.len(),
        is_codex_id(m@[j].0@),
    ensures
        exists|k: int|
            0 <= k < m@.len() && is_codex_id(m@[k].0@) && spec_select_codex_rate_limit(Some(rl))
                == Some(m@[k].1) && forall|i: int|
                0 <= i < m@.len() && is_codex_id(#[trigger] m@[i].0@) ==> !text_lt(m@[i].0@, m@[k].0@),
{
    lemma_least_caseless_codex_index(m@, m@.len() as int);
    let k = least_caseless_codex_index(m@, m@.len() as int).unwrap();
    assert(spec_select_codex_rate_limit(Some(rl)) == Some(m@[k].1));
}

/// An id exactly `codex` is `codex` in any case; so the exact choice, when
/// there is one, is an entry whose id is `codex` in any case.
proof fn lemma_last_exact_codex_index(m: Seq<(String, CodexRateLimitSnapshot)>, n: int)
    ensures
        last_exact_codex_index(m, n) matches Some(k) ==> 0 <= k < m.len() && m[k].0@ == "codex"@
            && is_codex_id(m[k].0@),
    decreases n,
{
    if n > 0 && n <= m.len() && m[n - 1].0@ != "codex"@ {
        lemma_last_exact_codex_index(m, n - 1);
    }
}

/// When no per-id entry is `codex` in any case (or there are none), a single
/// reported limit with a primary or a secondary window is the Codex limit,
/// whatever its id and name; one with neither window is chosen only when its
/// id or name is `codex` in some case.
pub proof fn law_single_limit_with_window_is_chosen(rl: CodexRateLimitsReadResult, s: CodexRateLimitSnapshot)
    requires
        rl.rate_limits == Some(s),
        rl.rate_limits_by_limit_id matches Some(m) ==> forall|j: int|
            0 <= j < m@.len() ==> !is_codex_id(#[trigger] m@[j].0@),
    ensures
        (s.primary is Some || s.secondary is Some) ==> spec_select_codex_rate_limit(Some(rl)) == Some(s),
        (s.primary is None && s.secondary is None) ==> (spec_select_codex_rate_limit(Some(rl)) is Some
            <==> ((s.limit_id matches Some(v) && eq_ignore_ascii_case(v@, "codex"@)) || (s.limit_name matches Some(v)
            && eq_ignore_ascii_case(v@, "codex"@)))),
{
    match rl.rate_limits_by_limit_id {
        Some(m) => {
            lemma_last_exact_codex_index(m@, m@.len() as int);
            lemma_least_caseless_codex_index(m@, m@.len() as int);
        },
        None => {},
    }
}

/// Whether a limit is the Codex one by id or name.
pub fn is_codex_limit(s: &CodexRateLimitSnapshot) -> (r: bool)
    ensures
        r == spec_is_codex_limit(*s),
{
    let codex = chars_of("codex");
    let by_id = match &s.limit_id {
        Some(v) => {
            let c = chars_of(v.as_str());
            eq_ignore_ascii_case_chars(&c, &codex)
        },
        None => false,
    };
    let by_name = match &s.limit_name {
        Some(v) => {
            let c = chars_of(v.as_str());
            eq_ignore_ascii_case_chars(&c, &codex)
        },
        None => false,
    };
    by_id || by_name
}

/// Whether a limit has a window.
pub fn snapshot_has_usage(s: &CodexRateLimitSnapshot) -> (r: bool)
    ensures
        r == spec_has_usage(*s),
{
    s.primary.is_some() || s.secondary.is_some()
}

/// The Codex rate limit among those reported.
pub fn select_codex_rate_limit(rl: Option<&CodexRateLimitsReadResult>) -> (r: Option<
    &CodexRateLimitSnapshot,
>)
    ensures
        r matches Some(s) ==> spec_select_codex_rate_limit(
            match rl {
                Some(x) => Some(*x),
                None => None,
            },
        ) == Some(*s),
        r is None ==> spec_select_codex_rate_limit(
            match rl {
                Some(x) => Some(*x),
                None => None,
            },
        ) is None,
{
    let r = match rl {
        Some(r) => r,
        None => {
            return None;
        },
    };
    if let Some(m) = &r.rate_limits_by_limit_id {
        let codex = String::from_str("codex");
        let codex_chars = chars_of("codex");
        let mut i: usize = m.len();
        while i > 0
            invariant
                i <= m@.len(),
                r.rate_limits_by_limit_id == Some(*m),
                rl == Some(r),
                codex@ == "codex"@,
                last_exact_codex_index(m@, m@.len() as int) == last_exact_codex_index(m@, i as int),
            decreases i,
        {
            if m[i - 1].0 == codex {
                return Some(&m[i - 1].1);
            }
            i -= 1;
        }
        let mut best: Option<usize> = None;
        let mut j: usize = 0;
        while j < m.len()
            invariant
                j <= m@.len(),
                r.rate_limits_by_limit_id == Some(*m),
                rl == Some(r),
                codex_chars@ == "codex"@,
                last_exact_codex_index(m@, m@.len() as int) is None,
                best matches Some(b) ==> b < j,
                least_caseless_codex_index(m@, j as int) == (match best {
                    Some(b) => Some(b as int),
                    None => None::<int>,
                }),
            decreases m@.len() - j,
        {
            let key = chars_of(m[j].0.as_str());
            if eq_ignore_ascii_case_chars(&key, &codex_chars) {
                match best {
                    None => {
                        best = Some(j);
                    },
                    Some(b) => {
                        let best_key = chars_of(m[b].0.as_str());
                        if !text_lt_chars(&best_key, &key) {
                            best = Some(j);
                        }
                    },
                }
            }
            j += 1;
        }
        if let Some(b) = best {
            return Some(&m[b].1);
        }
    }
    match &r.rate_limits {
        Some(s) => if is_codex_limit(s) || snapshot_has_usage(s) {
            Some(s)
        } else {
            None
        },
        None => None,
    }
}

/// A rate-limit window as a usage window out of 100.
pub open spec fn spec_rate_limit_window(w: CodexRateLimitWindow) -> UsageWindowView {
    UsageWindowView {
        resets_at: match w.resets_at {
            Some(t) => Some(decimal(t as nat)),
            None => None,
        },
        ..spec_window(Some(w.used_percent as u64), Some(100))
    }
}

/// A rate-limit window as a usage window: the percentage used out of 100, and
/// the reset time in seconds since the epoch.
pub fn rate_limit_window_to_usage_window(w: &CodexRateLimitWindow) -> (r: UsageWindow)
    ensures
        r@ == spec_rate_limit_window(*w),
{
    let mut u = UsageWindow::new(Some(w.used_percent as u64), Some(100));
    u.resets_at = match w.resets_at {
        Some(t) => Some(u64_to_string(t)),
        None => None,
    };
    u
}

// ---------------------------------------------------------------------------
// Session token usage
// ---------------------------------------------------------------------------

/// Token totals recorded in a session log.
#[derive(Clone, Copy, Debug, PartialEq, Eq, Structural)]
pub struct CodexSessionTokenTotals {
    pub input_tokens: Option<u64>,
    pub output_tokens: Option<u64>,
    pub reasoning_output_tokens: Option<u64>,
    pub total_tokens: Option<u64>,
}

/// The token information of a session event.
#[derive(Clone, Copy, Debug, PartialEq, Eq, Structural)]
pub struct CodexSessionTokenInfo {
    pub total_token_usage: Option<CodexSessionTokenTotals>,
}

/// The payload of a session event.
pub struct CodexSessionPayload {
    pub payload_type: String,
    pub info: Option<CodexSessionTokenInfo>,
}

/// One event of a session log.
pub struct CodexSessionEvent {
    pub timestamp: Option<String>,
    pub event_type: String,
    pub payload: Option<CodexSessionPayload>,
}

/// Token usage read from a session log.
pub struct CodexTokenUsage {
    pub prompt_tokens: Option<u32>,
    pub completion_tokens: Option<u32>,
    pub total_tokens: Option<u32>,
    pub updated_at: Option<String>,
}

/// The content of a [`CodexTokenUsage`].
pub struct CodexTokenUsageView {
    pub prompt_tokens: Option<u32>,
    pub completion_tokens: Option<u32>,
    pub total_tokens: Option<u32>,
    pub updated_at: Option<Seq<char>>,
}

impl View for CodexTokenUsage {
    type V = CodexTokenUsageView;

    open spec fn view(&self) -> CodexTokenUsageView {
        CodexTokenUsageView {
            prompt_tokens: self.prompt_tokens,
            completion_tokens: self.completion_tokens,
            total_tokens: self.total_tokens,
            updated_at: opt_view(self.updated_at),
        }
    }
}

/// A 64-bit count as `u32`, when it fits.
pub open spec fn u32_of(v: Option<u64>) -> Option<u32> {
    match v {
        Some(x) => if x <= u32::MAX {
            Some(x as u32)
        } else {
            None
        },
        None => None,
    }
}

/// The token usage that an event records: only a `token_count` message event
/// with totals does; completion tokens are output plus reasoning output tokens.
pub open spec fn spec_event_token_usage(e: CodexSessionEvent) -> Option<CodexTokenUsageView> {
    if e.event_type@ != "event_msg"@ {
        None
    } else {
        match e.payload {
            None => None,
            Some(p) => if p.payload_type@ != "token_count"@ {
                None
            } else {
                match p.info {
                    None => None,
                    Some(info) => match info.total_token_usage {
                        None => None,
                        Some(t) => {
                            let out = match t.output_tokens {
                                Some(x) => x as int,
                                None => 0,
                            };
                            let reasoning = match t.reasoning_output_tokens {
                                Some(x) => x as int,
                                None => 0,
                            };
                            let completion: Option<u64> = if out + reasoning <= u64::MAX {
                                Some((out + reasoning) as u64)
                            } else {
                                None
                            };
                            Some(
                                CodexTokenUsageView {
                                    prompt_tokens: u32_of(t.input_tokens),
                                    completion_tokens: u32_of(completion),
                                    total_tokens: u32_of(t.total_tokens),
                                    updated_at: opt_view(e.timestamp),
                                },
                            )
                        },
                    },
                }
            },
        }
    }
}

/// A `token_count` message event reports its counts unchanged whenever they
/// fit in 32 bits, and a count only when it does: the input and total counts
/// as they are, the completion count as output plus reasoning output (absent
/// ones read as 0), and the event's time.
pub proof fn law_session_counts_kept_when_they_fit(e: CodexSessionEvent, t: CodexSessionTokenTotals)
    requires
        e.event_type@ == "event_msg"@,
        e.payload matches Some(p) && p.payload_type@ == "token_count"@ && (p.info matches Some(i)
            && i.total_token_usage == Some(t)),
    ensures
        spec_event_token_usage(e) is Some,
        t.input_tokens matches Some(x) ==> (x <= u32::MAX ==> spec_event_token_usage(e).unwrap().prompt_tokens
                == Some(x as u32)) && (x > u32::MAX ==> spec_event_token_usage(
                e,
            ).unwrap().prompt_tokens is None),
        t.input_tokens is None ==> spec_event_token_usage(e).unwrap().prompt_tokens is None,
        t.total_tokens matches Some(x) ==> (x <= u32::MAX ==> spec_event_token_usage(e).unwrap().total_tokens
                == Some(x as u32)) && (x > u32::MAX ==> spec_event_token_usage(
                e,
            ).unwrap().total_tokens is None),
        t.total_tokens is None ==> spec_event_token_usage(e).unwrap().total_tokens is None,
        ({
            let c = (match t.output_tokens {
                Some(x) => x as int,
                None => 0,
            }) + (match t.reasoning_output_tokens {
                Some(x) => x as int,
                None => 0,
            });
            &&& c <= u32::MAX ==> spec_event_token_usage(e).unwrap().completion_tokens == Some(
                c as u32,
            )
            &&& c > u32::MAX ==> spec_event_token_usage(e).unwrap().completion_tokens is None
        }),
        spec_event_token_usage(e).unwrap().updated_at == opt_view(e.timestamp),
{
}

fn opt_u32(v: Option<u64>) -> (r: Option<u32>)
    ensures
        r == u32_of(v),
{
    match v {
        Some(x) => if x <= 4294967295u64 {
            Some(x as u32)
        } else {
            None
        },
        None => None,
    }
}

/// The token usage that one session event records.
pub fn event_token_usage(e: &CodexSessionEvent) -> (r: Option<CodexTokenUsage>)
    ensures
        r matches Some(u) ==> spec_event_token_usage(*e) == Some(u@),
        r is None ==> spec_event_token_usage(*e) is None,
{
    let event_msg = String::from_str("event_msg");
    let token_count = String::from_str("token_count");
    if e.event_type != event_msg {
        return None;
    }
    let p = match &e.payload {
        Some(p) => p,
        None => {
            return None;
        },
    };
    if p.payload_type != token_count {
        return None;
    }
    let info = match p.info {
        Some(i) => i,
        None => {
            return None;
        },
    };
    let t = match info.total_token_usage {
        Some(t) => t,
        None => {
            return None;
        },
    };
    let out = match t.output_tokens {
        Some(x) => x,
        None => 0,
    };
    let reasoning = match t.reasoning_output_tokens {
        Some(x) => x,
        None => 0,
    };
    let completion = out.checked_add(reasoning);
    Some(
        CodexTokenUsage {
            prompt_tokens: opt_u32(t.input_tokens),
            completion_tokens: opt_u32(completion),
            total_tokens: opt_u32(t.total_tokens),
            updated_at: copy_opt_string(&e.timestamp),
        },
    )
}

/// The usage of the last event among the first `n` that records any.
pub open spec fn latest_usage(events: Seq<Option<CodexSessionEvent>>, n: int) -> Option<
    CodexTokenUsageView,
>
    decreases n,
{
    if n <= 0 || n > events.len() {
        None
    } else {
        let here = match events[n - 1] {
            Some(e) => spec_event_token_usage(e),
            None => None,
        };
        match here {
            Some(u) => Some(u),
            None => latest_usage(events, n - 1),
        }
    }
}

/// The token usage of a session log: that of its last event that records any.
/// `None` entries stand for lines that are not events.
pub fn latest_session_token_usage(events: &Vec<Option<CodexSessionEvent>>) -> (r: Option<
    CodexTokenUsage,
>)
    ensures
        r matches Some(u) ==> latest_usage(events@, events@.len() as int) == Some(u@),
        r is None ==> latest_usage(events@, events@.len() as int) is None,
{
    let mut k: usize = events.len();
    while k > 0
        invariant
            k <= events@.len(),
            latest_usage(events@, events@.len() as int) == latest_usage(events@, k as int),
        decreases k,
    {
        let here = match &events[k - 1] {
            Some(e) => event_token_usage(e),
            None => None,
        };
        match here {
            Some(u) => {
                return Some(u);
            },
            None => {},
        }
        k -= 1;
    }
    None
}

/// Whether a session log modified at `candidate` replaces the latest one found
/// so far (`None` when none was found yet); an unknown time is older than any
/// known one. Times are seconds and nanoseconds since the epoch.
pub fn should_replace_latest(candidate: Option<(u64, u32)>, current: Option<Option<(u64, u32)>>) -> (r:
    bool)
    ensures
        r == (match current {
            None => true,
            Some(c) => match (candidate, c) {
                (None, _) => false,
                (Some(_), None) => true,
                (Some(a), Some(b)) => a.0 > b.0 || (a.0 == b.0 && a.1 > b.1),
            },
        }),
{
    match current {
        None => true,
        Some(c) => match (candidate, c) {
            (None, _) => false,
            (Some(_), None) => true,
            (Some(a), Some(b)) => a.0 > b.0 || (a.0 == b.0 && a.1 > b.1),
        },
    }
}

// ---------------------------------------------------------------------------
// The snapshot
// ---------------------------------------------------------------------------

/// ` (auth_mode=M)` when the auth file names a mode, else nothing.
pub open spec fn spec_auth_mode_suffix(auth_mode: Option<Seq<char>>) -> Seq<char> {
    match auth_mode {
        Some(m) => " (auth_mode="@ + m + ")"@,
        None => seq![],
    }
}

/// ` (auth_mode=M)` when the auth file names a mode, else nothing.
pub fn auth_mode_suffix(auth: &CodexAuthState) -> (r: String)
    ensures
        r@ == spec_auth_mode_suffix(opt_view(auth.auth_mode)),
{
    match &auth.auth_mode {
        Some(m) => concat3(" (auth_mode=", m.as_str(), ")"),
        None => String::new(),
    }
}

/// The app-server reported an account.
pub open spec fn spec_account_available(status: CodexAppServerStatusView) -> bool {
    status.account matches Some(res) && res.account is Some
}

/// The primary window that the app-server's rate limits give, if any.
pub open spec fn spec_app_server_primary(status: CodexAppServerStatusView) -> Option<UsageWindowView> {
    match spec_select_codex_rate_limit(status.rate_limits) {
        Some(rl) => match rl.primary {
            Some(p) => Some(spec_rate_limit_window(p)),
            None => None,
        },
        None => None,
    }
}

/// The interactive `/status` screen is needed: there is an account, and the
/// app-server gave no primary window.
pub open spec fn spec_needs_tty_fallback(status: CodexAppServerStatusView) -> bool {
    spec_account_available(status) && spec_app_server_primary(status) is None
}

/// The snapshot built from the auth file, the app-server status, the `/status`
/// screen windows (consulted only when the app-server gave no primary window)
/// and the session log's token usage.
pub open spec fn spec_app_server_snapshot(
    name: Seq<char>,
    auth_mode: Option<Seq<char>>,
    last_refresh: Option<Seq<char>>,
    status: CodexAppServerStatusView,
    tty: Option<(Option<UsageWindowView>, Option<UsageWindowView>)>,
    tokens: Option<CodexTokenUsageView>,
) -> UsageSnapshotView {
    let base = UsageSnapshotView {
        updated_at: last_refresh,
        auth_mode: auth_mode,
        ..spec_snapshot(name, spec_window(None, None), FetchSource::Cli, ProviderHealth::Okay)
    };
    if !spec_account_available(status) {
        UsageSnapshotView {
            health: ProviderHealth::MissingCredentials,
            stale: true,
            error: Some(
                "codex account is not available via app-server"@ + spec_auth_mode_suffix(auth_mode),
            ),
            ..base
        }
    } else {
        let acc = status.account.unwrap().account.unwrap();
        let s1 = UsageSnapshotView {
            account: opt_view(acc.email),
            plan: opt_view(acc.plan_type),
            ..base
        };
        let s2 = match spec_select_codex_rate_limit(status.rate_limits) {
            Some(rl) => UsageSnapshotView {
                primary: match rl.primary {
                    Some(p) => spec_rate_limit_window(p),
                    None => s1.primary,
                },
                secondary: match rl.secondary {
                    Some(w) => Some(spec_rate_limit_window(w)),
                    None => None,
                },
                ..s1
            },
            None => s1,
        };
        let s3 = if s2.primary.used is None {
            match tty {
                Some(t) => UsageSnapshotView {
                    primary: match t.0 {
                        Some(p) => p,
                        None => s2.primary,
                    },
                    secondary: match t.1 {
                        Some(w) => Some(w),
                        None => s2.secondary,
                    },
                    ..s2
                },
                None => s2,
            }
        } else {
            s2
        };
        let s4 = match tokens {
            Some(t) => UsageSnapshotView {
                prompt_tokens: t.prompt_tokens,
                completion_tokens: t.completion_tokens,
                total_tokens: t.total_tokens,
                updated_at: match t.updated_at {
                    Some(u) => Some(u),
                    None => s3.updated_at,
                },
                ..s3
            },
            None => s3,
        };
        match status.rate_limits_error {
            Some(e) => UsageSnapshotView { health: ProviderHealth::Degraded, error: Some(e), ..s4 },
            None => s4,
        }
    }
}

/// The view of an optional `/status` screen reading.
pub open spec fn tty_view(t: Option<CodexTtyStatusSnapshot>) -> Option<
    (Option<UsageWindowView>, Option<UsageWindowView>),
> {
    match t {
        Some(s) => Some((opt_window_view(s.primary), opt_window_view(s.secondary))),
        None => None,
    }
}

/// The view of an optional token usage.
pub open spec fn tokens_view(t: Option<CodexTokenUsage>) -> Option<CodexTokenUsageView> {
    match t {
        Some(u) => Some(u@),
        None => None,
    }
}

/// Whether the interactive `/status` screen has to be read for this status.
pub fn needs_tty_fallback(status: &CodexAppServerStatus) -> (r: bool)
    ensures
        r == spec_needs_tty_fallback(status@),
{
    let available = match &status.account {
        Some(res) => res.account.is_some(),
        None => false,
    };
    if !available {
        return false;
    }
    match select_codex_rate_limit(status.rate_limits.as_ref()) {
        Some(rl) => rl.primary.is_none(),
        None => true,
    }
}

/// Whether the app-server reported an account (only then is the session log read).
pub fn account_available(status: &CodexAppServerStatus) -> (r: bool)
    ensures
        r == spec_account_available(status@),
{
    match &status.account {
        Some(res) => res.account.is_some(),
        None => false,
    }
}

/// The snapshot from the auth file, the app-server status, the `/status`
/// screen reading (`None` when it was not read or failed) and the session
/// token usage (`None` when there is none).
pub fn snapshot_from_app_server_status(
    provider_name: &str,
    auth: &CodexAuthState,
    status: &CodexAppServerStatus,
    tty: Option<CodexTtyStatusSnapshot>,
    tokens: Option<CodexTokenUsage>,
) -> (r: UsageSnapshot)
    ensures
        r@ == spec_app_server_snapshot(
            provider_name@,
            opt_view(auth.auth_mode),
            opt_view(auth.last_refresh),
            status@,
            tty_view(tty),
            tokens_view(tokens),
        ),
{
    let mut s = UsageSnapshot::new(
        provider_name,
        UsageWindow::new(None, None),
        FetchSource::Cli,
        ProviderHealth::Okay,
    );
    s.updated_at = copy_opt_string(&auth.last_refresh);
    s.auth_mode = copy_opt_string(&auth.auth_mode);
    let acc = match &status.account {
        Some(res) => match &res.account {
            Some(a) => a,
            None => {
                return missing_account_snapshot(s, auth);
            },
        },
        None => {
            return missing_account_snapshot(s, auth);
        },
    };
    s.account = copy_opt_string(&acc.email);
    s.plan = copy_opt_string(&acc.plan_type);
    match select_codex_rate_limit(status.rate_limits.as_ref()) {
        Some(rl) => {
            match &rl.primary {
                Some(p) => {
                    s.primary = rate_limit_window_to_usage_window(p);
                },
                None => {},
            }
            s.secondary = match &rl.secondary {
                Some(w) => Some(rate_limit_window_to_usage_window(w)),
                None => None,
            };
        },
        None => {},
    }
    if s.primary.used.is_none() {
        match tty {
            Some(t) => {
                match t.primary {
                    Some(p) => {
                        s.primary = p;
                    },
                    None => {},
                }
                match t.secondary {
                    Some(w) => {
                        s.secondary = Some(w);
                    },
                    None => {},
                }
            },
            None => {},
        }
    }
    match tokens {
        Some(t) => {
            s.prompt_tokens = t.prompt_tokens;
            s.completion_tokens = t.completion_tokens;
            s.total_tokens = t.total_tokens;
            match t.updated_at {
                Some(u) => {
                    s.updated_at = Some(u);
                },
                None => {},
            }
        },
        None => {},
    }
    match &status.rate_limits_error {
        Some(e) => {
            s.health = ProviderHealth::Degraded;
            s.error = Some(crate::text::copy_string(e));
        },
        None => {},
    }
    s
}

/// `s` marked as lacking an account.
fn missing_account_snapshot(s: UsageSnapshot, auth: &CodexAuthState) -> (r: UsageSnapshot)
    ensures
        r@ == (UsageSnapshotView {
            health: ProviderHealth::MissingCredentials,
            stale: true,
            error: Some(
                "codex account is not available via app-server"@ + spec_auth_mode_suffix(
                    opt_view(auth.auth_mode),
                ),
            ),
            ..s@
        }),
{
    let mut s = s;
    s.health = ProviderHealth::MissingCredentials;
    s.stale = true;
    let suffix = auth_mode_suffix(auth);
    s.error = Some(concat_str("codex account is not available via app-server", suffix.as_str()));
    s
}

/// The snapshot when the app-server could not be queried: the no-account
/// snapshot, degraded, with the failure as its error.
pub open spec fn spec_app_server_failure_snapshot(
    name: Seq<char>,
    auth_mode: Option<Seq<char>>,
    last_refresh: Option<Seq<char>>,
    error: Seq<char>,
) -> UsageSnapshotView {
    UsageSnapshotView {
        health: ProviderHealth::Degraded,
        stale: true,
        error: Some("failed to query codex app-server: "@ + error),
        ..spec_app_server_snapshot(
            name,
            auth_mode,
            last_refresh,
            CodexAppServerStatusView { account: None, rate_limits: None, rate_limits_error: None },
            None,
            None,
        )
    }
}

/// The snapshot when the app-server could not be queried.
pub fn app_server_failure_snapshot(provider_name: &str, auth: &CodexAuthState, error: &str) -> (r:
    UsageSnapshot)
    ensures
        r@ == spec_app_server_failure_snapshot(
            provider_name@,
            opt_view(auth.auth_mode),
            opt_view(auth.last_refresh),
            error@,
        ),
{
    let empty = CodexAppServerStatus::empty();
    let mut s = snapshot_from_app_server_status(provider_name, auth, &empty, None, None);
    s.health = ProviderHealth::Degraded;
    s.stale = true;
    s.error = Some(concat_str("failed to query codex app-server: ", error));
    s
}

/// What the auth file gives: nothing when it does not exist.
pub fn auth_state_from_file(file: Option<CodexAuthFile>) -> (r: CodexAuthState)
    ensures
        r.exists == file is Some,
        file matches Some(f) ==> opt_view(r.auth_mode) == opt_view(f.auth_mode) && opt_view(
            r.last_refresh,
        ) == opt_view(f.last_refresh),
        file is None ==> r.auth_mode is None && r.last_refresh is None,
{
    match file {
        Some(f) => CodexAuthState { exists: true, auth_mode: f.auth_mode, last_refresh: f.last_refresh },
        None => CodexAuthState { exists: false, auth_mode: None, last_refresh: None },
    }
}

// ---------------------------------------------------------------------------
// The provider
// ---------------------------------------------------------------------------

/// The Codex provider: where its auth file is.
pub struct CodexProvider {
    pub auth_path: String,
}

/// What a status request asks of the Codex provider.
pub enum CodexStatusPlan {
    /// The answer is known without asking the CLI.
    Done(UsageSnapshot),
    /// The auth file and the app-server have to be consulted.
    CollectCli,
}

/// The snapshot for `--source api`, which this provider does not support.
pub open spec fn spec_codex_api_snapshot() -> UsageSnapshotView {
    UsageSnapshotView {
        stale: true,
        error: Some("codex API status strategy is not implemented"@),
        ..spec_snapshot("codex"@, spec_window(None, None), FetchSource::Api, ProviderHealth::Degraded)
    }
}

/// The snapshot when there is no auth file.
pub open spec fn spec_missing_auth_snapshot(path: Seq<char>) -> UsageSnapshotView {
    UsageSnapshotView {
        stale: true,
        error: Some("codex auth file not found at "@ + path),
        ..spec_snapshot(
            "codex"@,
            spec_window(None, None),
            FetchSource::Cli,
            ProviderHealth::MissingCredentials,
        )
    }
}

impl CodexProvider {
    /// The provider, with the auth file at `$CODEX_HOME/auth.json`, else
    /// `$HOME/.codex/auth.json`, else `.codex/auth.json`.
    pub fn new(config: ProviderConfig, env: &HostEnvironment) -> (r: CodexProvider)
        ensures
            r.auth_path@ == spec_codex_file(opt_view(env.codex_home), opt_view(env.home), "auth.json"@),
    {
        CodexProvider { auth_path: codex_file_path(env, "auth.json") }
    }

    /// The root directory of the session logs: `sessions` in the Codex home.
    pub fn sessions_root(env: &HostEnvironment) -> (r: String)
        ensures
            r@ == spec_codex_file(opt_view(env.codex_home), opt_view(env.home), "sessions"@),
    {
        codex_file_path(env, "sessions")
    }

    /// The snapshot for `--source api`.
    pub fn status_api(&self) -> (r: UsageSnapshot)
        ensures
            r@ == spec_codex_api_snapshot(),
    {
        let mut s = UsageSnapshot::new(
            "codex",
            UsageWindow::new(None, None),
            FetchSource::Api,
            ProviderHealth::Degraded,
        );
        s.stale = true;
        s.error = Some(String::from_str("codex API status strategy is not implemented"));
        s
    }

    /// The snapshot when the auth file does not exist.
    pub fn missing_auth_snapshot(&self) -> (r: UsageSnapshot)
        ensures
            r@ == spec_missing_auth_snapshot(self.auth_path@),
    {
        let mut s = UsageSnapshot::new(
            "codex",
            UsageWindow::new(None, None),
            FetchSource::Cli,
            ProviderHealth::MissingCredentials,
        );
        s.stale = true;
        s.error = Some(concat_str("codex auth file not found at ", self.auth_path.as_str()));
        s
    }

    /// The answer of the CLI strategy when the auth file alone decides it:
    /// without an auth file the snapshot says so, and the app-server is not
    /// asked; with one, `None` (the app-server has to be asked).
    pub fn status_without_auth(&self, auth: &CodexAuthState) -> (r: Option<UsageSnapshot>)
        ensures
            !auth.exists ==> (r matches Some(s) && s@ == spec_missing_auth_snapshot(self.auth_path@)),
            auth.exists ==> r is None,
    {
        if auth.exists {
            None
        } else {
            Some(self.missing_auth_snapshot())
        }
    }

    /// What a status request needs: `api` is answered at once, `auto` and `cli`
    /// go to the CLI.
    pub fn plan_status(&self, mode: SourceMode) -> (r: CodexStatusPlan)
        ensures
            mode == SourceMode::Api ==> (r matches CodexStatusPlan::Done(s) && s@
                == spec_codex_api_snapshot()),
            mode != SourceMode::Api ==> r is CollectCli,
    {
        match mode {
            SourceMode::Api => CodexStatusPlan::Done(self.status_api()),
            _ => CodexStatusPlan::CollectCli,
        }
    }
}

impl Provider for CodexProvider {
    open spec fn spec_name(&self) -> Seq<char> {
        "codex"@
    }

    fn name(&self) -> (r: &'static str) {
        "codex"
    }
}

} // verus!
