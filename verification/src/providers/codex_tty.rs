//! Reading the rate-limit windows out of the text that the interactive
//! `codex` `/status` screen prints.
use vstd::prelude::*;

use crate::text::{
    all_ws, is_ws, lemma_first_occurrence_after_prefix, lemma_trim_unchanged,
    lemma_trim_ws_suffix, trim_end, trim_start, trim_start_char,
    all_digits, chars_of, contains, find_chars, first_occurrence, is_digit,
    lines, lines_of, parse_digits, parse_u64_digits, string_of, subvec, trim, trim_char,
    trim_char_chars, trim_chars, trim_end_char, trim_end_char_chars, views,
};
use crate::usage::{opt_window_view, spec_window, UsageWindow, UsageWindowView};

verus! {

// ---------------------------------------------------------------------------
// Escape sequences
// ---------------------------------------------------------------------------

/// Length of a CSI sequence body starting at `j`: up to and including the first
/// character in `'@'..='~'`, or to the end.
pub open spec fn csi_len(s: Seq<char>, j: int) -> nat
    decreases s.len() - j,
{
    if j < 0 || j >= s.len() {
        0
    } else if '@' <= s[j] && s[j] <= '~' {
        1
    } else {
        1 + csi_len(s, j + 1)
    }
}

/// Length of an OSC sequence body starting at `j`: up to and including the first
/// BEL or backslash, or to the end.
pub open spec fn osc_len(s: Seq<char>, j: int) -> nat
    decreases s.len() - j,
{
    if j < 0 || j >= s.len() {
        0
    } else if s[j] == '\u{7}' || s[j] == '\\' {
        1
    } else {
        1 + osc_len(s, j + 1)
    }
}

pub proof fn lemma_csi_len_bound(s: Seq<char>, j: int)
    requires
        0 <= j <= s.len(),
    ensures
        j + csi_len(s, j) <= s.len(),
    decreases s.len() - j,
{
    if j < s.len() {
        lemma_csi_len_bound(s, j + 1);
    }
}

pub proof fn lemma_osc_len_bound(s: Seq<char>, j: int)
    requires
        0 <= j <= s.len(),
    ensures
        j + osc_len(s, j) <= s.len(),
    decreases s.len() - j,
{
    if j < s.len() {
        lemma_osc_len_bound(s, j + 1);
    }
}

/// `s[i..]` with ANSI CSI (`ESC [ ... final`) and OSC (`ESC ] ... BEL|\`)
/// sequences, other lone `ESC`s and all carriage returns removed.
pub open spec fn strip_ansi_from(s: Seq<char>, i: int) -> Seq<char>
    decreases s.len() - i,
{
    if i < 0 || i >= s.len() {
        seq![]
    } else if s[i] == '\u{1b}' {
        if i + 1 < s.len() && s[i + 1] == '[' {
            proof {
                lemma_csi_len_bound(s, i + 2);
            }
            strip_ansi_from(s, i + 2 + csi_len(s, i + 2))
        } else if i + 1 < s.len() && s[i + 1] == ']' {
            proof {
                lemma_osc_len_bound(s, i + 2);
            }
            strip_ansi_from(s, i + 2 + osc_len(s, i + 2))
        } else {
            strip_ansi_from(s, i + 1)
        }
    } else if s[i] == '\r' {
        strip_ansi_from(s, i + 1)
    } else {
        seq![s[i]] + strip_ansi_from(s, i + 1)
    }
}

/// The text without terminal escape sequences and carriage returns.
pub open spec fn spec_strip_ansi(s: Seq<char>) -> Seq<char> {
    strip_ansi_from(s, 0)
}

/// Removes terminal escape sequences and carriage returns from captured output.
pub fn strip_ansi(raw: &[char]) -> (r: Vec<char>)
    ensures
        r@ == spec_strip_ansi(raw@),
{
    let n = raw.len();
    let mut out: Vec<char> = Vec::new();
    let mut i: usize = 0;
    while i < n
        invariant
            n == raw@.len(),
            i <= n,
            out@ + strip_ansi_from(raw@, i as int) == spec_strip_ansi(raw@),
        decreases n - i,
    {
        let c = raw[i];
        if c == '\u{1b}' {
            if i + 1 < n && raw[i + 1] == '[' {
                let mut j = i + 2;
                while j < n && !('@' <= raw[j] && raw[j] <= '~')
                    invariant
                        n == raw@.len(),
                        i + 2 <= j <= n,
                        (j - (i + 2)) + csi_len(raw@, j as int) == csi_len(raw@, i + 2),
                    decreases n - j,
                {
                    j += 1;
                }
                if j < n {
                    j += 1;
                }
                assert(j == i + 2 + csi_len(raw@, i + 2));
                i = j;
            } else if i + 1 < n && raw[i + 1] == ']' {
                let mut j = i + 2;
                while j < n && !(raw[j] == '\u{7}' || raw[j] == '\\')
                    invariant
                        n == raw@.len(),
                        i + 2 <= j <= n,
                        (j - (i + 2)) + osc_len(raw@, j as int) == osc_len(raw@, i + 2),
                    decreases n - j,
                {
                    j += 1;
                }
                if j < n {
                    j += 1;
                }
                assert(j == i + 2 + osc_len(raw@, i + 2));
                i = j;
            } else {
                i += 1;
            }
        } else if c == '\r' {
            i += 1;
        } else {
            let ghost before = out@;
            out.push(c);
            assert(out@ + strip_ansi_from(raw@, i + 1) =~= before + strip_ansi_from(
                raw@,
                i as int,
            ));
            i += 1;
        }
    }
    assert(out@ + strip_ansi_from(raw@, i as int) =~= out@);
    out
}

// ---------------------------------------------------------------------------
// Window lines
// ---------------------------------------------------------------------------

/// `s` without its trailing non-digit characters.
pub open spec fn drop_trailing_non_digits(s: Seq<char>) -> Seq<char>
    decreases s.len(),
{
    if s.len() > 0 && !is_digit(s.last()) {
        drop_trailing_non_digits(s.drop_last())
    } else {
        s
    }
}

/// The digits at the end of `s`.
pub open spec fn trailing_digits(s: Seq<char>) -> Seq<char>
    decreases s.len(),
{
    if s.len() > 0 && is_digit(s.last()) {
        trailing_digits(s.drop_last()).push(s.last())
    } else {
        seq![]
    }
}

/// The last run of digits in `s`.
pub open spec fn last_digit_run(s: Seq<char>) -> Seq<char> {
    trailing_digits(drop_trailing_non_digits(s))
}

/// The reset text on a line that holds `(resets ...)`: what follows the
/// marker, trimmed of whitespace, of box-drawing bars and of closing parentheses.
pub open spec fn spec_resets_text(next: Option<Seq<char>>) -> Option<Seq<char>> {
    match next {
        None => None,
        Some(n) => match first_occurrence(n, "(resets "@) {
            None => None,
            Some(start) => {
                let r = trim(trim_end_char(trim(trim_char(trim(n.skip(start + 8)), '│')), ')'));
                if r.len() > 0 {
                    Some(r)
                } else {
                    None
                }
            },
        },
    }
}

/// The window that a `... NN% left` line gives: `used = 100 - NN` (0 when
/// `NN > 100`), `limit = 100`, and the reset text of `next` when it has one.
pub open spec fn spec_parse_tty_window_line(line: Seq<char>, next: Option<Seq<char>>) -> Option<
    UsageWindowView,
> {
    match first_occurrence(line, "% left"@) {
        None => None,
        Some(left) => match parse_digits(last_digit_run(line.take(left))) {
            None => None,
            Some(remaining) => {
                let used: u64 = if remaining <= 100 {
                    (100 - remaining) as u64
                } else {
                    0
                };
                Some(UsageWindowView { resets_at: spec_resets_text(next), ..spec_window(Some(used), Some(100)) })
            },
        },
    }
}

proof fn lemma_trailing_digits_all_digits(s: Seq<char>)
    ensures
        all_digits(trailing_digits(s)),
    decreases s.len(),
{
    if s.len() > 0 && is_digit(s.last()) {
        lemma_trailing_digits_all_digits(s.drop_last());
        let t = trailing_digits(s.drop_last());
        assert forall|i: int| 0 <= i < t.push(s.last()).len() implies is_digit(
            #[trigger] t.push(s.last())[i],
        ) by {
            if i < t.len() {
                assert(is_digit(t[i]));
            }
        }
    }
}

/// The last run of digits in `s[..end]`.
fn last_digit_run_chars(s: &[char], end: usize) -> (r: Vec<char>)
    requires
        end <= s@.len(),
    ensures
        r@ == last_digit_run(s@.take(end as int)),
        all_digits(r@),
{
    let mut j = end;
    while j > 0 && !is_digit_char(s[j - 1])
        invariant
            j <= end <= s@.len(),
            drop_trailing_non_digits(s@.take(end as int)) == drop_trailing_non_digits(
                s@.take(j as int),
            ),
        decreases j,
    {
        assert(s@.take(j as int).drop_last() =~= s@.take(j - 1));
        j -= 1;
    }
    assert(drop_trailing_non_digits(s@.take(j as int)) == s@.take(j as int));
    let stop = j;
    while j > 0 && is_digit_char(s[j - 1])
        invariant
            j <= stop <= end <= s@.len(),
            trailing_digits(s@.take(stop as int)) == trailing_digits(s@.take(j as int)) + s@.subrange(
                j as int,
                stop as int,
            ),
        decreases j,
    {
        assert(s@.take(j as int).drop_last() =~= s@.take(j - 1));
        assert(s@.subrange(j - 1, stop as int) =~= seq![s@[j - 1]] + s@.subrange(
            j as int,
            stop as int,
        ));
        assert(trailing_digits(s@.take(j - 1)).push(s@[j - 1]) + s@.subrange(j as int, stop as int)
            =~= trailing_digits(s@.take(j - 1)) + s@.subrange(j - 1, stop as int));
        j -= 1;
    }
    assert(trailing_digits(s@.take(j as int)) =~= Seq::<char>::empty());
    assert(Seq::<char>::empty() + s@.subrange(j as int, stop as int) =~= s@.subrange(
        j as int,
        stop as int,
    ));
    proof {
        lemma_trailing_digits_all_digits(s@.take(stop as int));
    }
    subvec(s, j, stop)
}

/// Whether `c` is an ASCII digit.
pub fn is_digit_char(c: char) -> (r: bool)
    ensures
        r == is_digit(c),
{
    '0' <= c && c <= '9'
}

/// The reset text of a `(resets ...)` line.
fn resets_text(next: Option<&Vec<char>>) -> (r: Option<String>)
    ensures
        r matches Some(v) ==> spec_resets_text(
            match next {
                Some(n) => Some(n@),
                None => None,
            },
        ) == Some(v@),
        r is None ==> spec_resets_text(
            match next {
                Some(n) => Some(n@),
                None => None,
            },
        ) is None,
{
    match next {
        None => None,
        Some(n) => {
            let marker = chars_of("(resets ");
            proof {
                reveal_strlit("(resets ");
            }
            match find_chars(n, &marker) {
                None => None,
                Some(start) => {
                    assert(marker@.len() == 8);
                    assert(start + 8 <= n@.len());
                    assert(n@.len() == n.len());
                    let rest = subvec(n, start + 8, n.len());
                    assert(rest@ =~= n@.skip(start + 8));
                    let t1 = trim_chars(&rest);
                    let t2 = trim_char_chars(&t1, '│');
                    let t3 = trim_chars(&t2);
                    let t4 = trim_end_char_chars(&t3, ')');
                    let t5 = trim_chars(&t4);
                    if t5.len() > 0 {
                        Some(string_of(&t5))
                    } else {
                        None
                    }
                },
            }
        },
    }
}

/// The window of a `... NN% left` line, with the reset text of `next`.
pub fn parse_tty_window_line(line: &[char], next: Option<&Vec<char>>) -> (r: Option<UsageWindow>)
    ensures
        opt_window_view(r) == spec_parse_tty_window_line(
            line@,
            match next {
                Some(n) => Some(n@),
                None => None,
            },
        ),
{
    let marker = chars_of("% left");
    proof {
        reveal_strlit("% left");
    }
    let left = match find_chars(line, &marker) {
        Some(i) => i,
        None => {
            return None;
        },
    };
    assert(marker@.len() == 6);
    let digits = last_digit_run_chars(line, left);
    let remaining = match parse_u64_digits(&digits) {
        Some(v) => v,
        None => {
            return None;
        },
    };
    let used: u64 = if remaining <= 100 {
        100 - remaining
    } else {
        0
    };
    let mut window = UsageWindow::new(Some(used), Some(100));
    window.resets_at = resets_text(next);
    Some(window)
}

// ---------------------------------------------------------------------------
// The status screen
// ---------------------------------------------------------------------------

/// The lines of `s`, each trimmed of whitespace.
pub open spec fn trimmed_lines(s: Seq<char>) -> Seq<Seq<char>> {
    lines(s).map_values(|l: Seq<char>| trim(l))
}

/// Among `lines[k..end]`: `None` at the first non-empty line that holds
/// `limit:`, else the first non-empty line that holds `(resets `.
pub open spec fn next_reset_from(lines: Seq<Seq<char>>, k: int, end: int) -> Option<Seq<char>>
    decreases end - k,
{
    if k >= end || k < 0 {
        None
    } else if lines[k].len() == 0 {
        next_reset_from(lines, k + 1, end)
    } else if contains(lines[k], "limit:"@) {
        None
    } else if contains(lines[k], "(resets "@) {
        Some(lines[k])
    } else {
        next_reset_from(lines, k + 1, end)
    }
}

/// The reset line for the window line at `index`: looked for among the next four lines.
pub open spec fn spec_find_next_reset_line(lines: Seq<Seq<char>>, index: int) -> Option<Seq<char>> {
    let end = if index + 5 < lines.len() {
        index + 5
    } else {
        lines.len() as int
    };
    next_reset_from(lines, index + 1, end)
}

/// The index of the reset line for the window line at `index`.
pub fn find_next_reset_line(lines: &Vec<Vec<char>>, index: usize) -> (r: Option<usize>)
    requires
        index < lines@.len(),
    ensures
        r matches Some(k) ==> k < lines@.len() && spec_find_next_reset_line(views(lines@), index as int)
            == Some(lines@[k as int]@),
        r is None ==> spec_find_next_reset_line(views(lines@), index as int) is None,
{
    let ghost ls = views(lines@);
    let end: usize = if lines.len() - index > 5 {
        index + 5
    } else {
        lines.len()
    };
    let limit = chars_of("limit:");
    let resets = chars_of("(resets ");
    let mut k = index + 1;
    while k < end
        invariant
            ls == views(lines@),
            index + 1 <= k,
            index < lines@.len(),
            end == (if index + 5 < lines@.len() {
                index + 5
            } else {
                lines@.len() as int
            }),
            limit@ == "limit:"@,
            resets@ == "(resets "@,
            next_reset_from(ls, index + 1, end as int) == next_reset_from(ls, k as int, end as int),
        decreases end - k,
    {
        let line = &lines[k];
        assert(ls[k as int] == line@);
        if line.len() == 0 {
            k += 1;
        } else if contains_chars_vec(line, &limit) {
            assert(next_reset_from(ls, k as int, end as int) is None);
            assert(spec_find_next_reset_line(ls, index as int) == next_reset_from(ls, index + 1, end as int));
            return None;
        } else if contains_chars_vec(line, &resets) {
            assert(next_reset_from(ls, k as int, end as int) == Some(line@));
            return Some(k);
        } else {
            k += 1;
        }
    }
    None
}

fn contains_chars_vec(hay: &Vec<char>, needle: &Vec<char>) -> (r: bool)
    ensures
        r == contains(hay@, needle@),
{
    find_chars(hay, needle).is_some()
}

/// What the status screen exposes: the five-hour window as `primary` and the
/// weekly window as `secondary`.
pub struct CodexTtyStatusSnapshot {
    pub primary: Option<UsageWindow>,
    pub secondary: Option<UsageWindow>,
}

/// The windows found in the first `n` lines; a later line wins over an earlier one.
pub open spec fn tty_scan(lines: Seq<Seq<char>>, n: int) -> (Option<UsageWindowView>, Option<
    UsageWindowView,
>)
    decreases n,
{
    if n <= 0 || n > lines.len() {
        (None, None)
    } else {
        let prev = tty_scan(lines, n - 1);
        let line = lines[n - 1];
        match spec_parse_tty_window_line(line, spec_find_next_reset_line(lines, n - 1)) {
            Some(w) => if contains(line, "5h limit:"@) {
                (Some(w), prev.1)
            } else if contains(line, "Weekly limit:"@) {
                (prev.0, Some(w))
            } else {
                prev
            },
            None => prev,
        }
    }
}

/// The windows that the status screen text shows, or `None` when it shows neither.
pub open spec fn spec_parse_tty_status(raw: Seq<char>) -> Option<
    (Option<UsageWindowView>, Option<UsageWindowView>),
> {
    let ls = trimmed_lines(spec_strip_ansi(raw));
    let found = tty_scan(ls, ls.len() as int);
    if found.0 is None && found.1 is None {
        None
    } else {
        Some(found)
    }
}

/// The error text when the screen shows no window.
pub open spec fn no_tty_windows_message() -> Seq<char> {
    "codex /status did not expose rate limit windows"@
}

/// Reads the five-hour and weekly windows out of captured `/status` output.
pub fn parse_tty_status_snapshot(raw: &str) -> (r: Result<CodexTtyStatusSnapshot, String>)
    ensures
        r matches Ok(s) ==> spec_parse_tty_status(raw@) == Some(
            (opt_window_view(s.primary), opt_window_view(s.secondary)),
        ),
        r matches Err(e) ==> spec_parse_tty_status(raw@) is None && e@
            == no_tty_windows_message(),
{
    let chars = chars_of(raw);
    let sanitized = strip_ansi(&chars);
    let raw_lines = lines_of(&sanitized);
    let mut ls: Vec<Vec<char>> = Vec::new();
    let mut i: usize = 0;
    while i < raw_lines.len()
        invariant
            i <= raw_lines@.len(),
            views(raw_lines@) == lines(sanitized@),
            views(ls@) == trimmed_lines(sanitized@).take(i as int),
        decreases raw_lines@.len() - i,
    {
        let t = trim_chars(&raw_lines[i]);
        let ghost before = views(ls@);
        ls.push(t);
        assert(views(raw_lines@)[i as int] == raw_lines@[i as int]@);
        assert(views(ls@) =~= before.push(t@));
        assert(trimmed_lines(sanitized@).take(i + 1) =~= trimmed_lines(sanitized@).take(
            i as int,
        ).push(trim(lines(sanitized@)[i as int])));
        i += 1;
    }
    assert(trimmed_lines(sanitized@).take(i as int) =~= trimmed_lines(sanitized@));
    let ghost all = views(ls@);
    let five = chars_of("5h limit:");
    let weekly = chars_of("Weekly limit:");
    let mut primary: Option<UsageWindow> = None;
    let mut secondary: Option<UsageWindow> = None;
    let mut k: usize = 0;
    while k < ls.len()
        invariant
            all == views(ls@),
            k <= ls@.len(),
            five@ == "5h limit:"@,
            weekly@ == "Weekly limit:"@,
            tty_scan(all, k as int) == (opt_window_view(primary), opt_window_view(secondary)),
        decreases ls@.len() - k,
    {
        let next_index = find_next_reset_line(&ls, k);
        let next: Option<&Vec<char>> = match next_index {
            Some(j) => Some(&ls[j]),
            None => None,
        };
        let line = &ls[k];
        assert(all[k as int] == line@);
        let parsed = parse_tty_window_line(line, next);
        match parsed {
            Some(window) => {
                if contains_chars_vec(line, &five) {
                    primary = Some(window);
                } else if contains_chars_vec(line, &weekly) {
                    secondary = Some(window);
                }
            },
            None => {},
        }
        k += 1;
    }
    if primary.is_none() && secondary.is_none() {
        let msg = String::from_str("codex /status did not expose rate limit windows");
        return Err(msg);
    }
    Ok(CodexTtyStatusSnapshot { primary, secondary })
}


proof fn lemma_strip_ansi_clean(s: Seq<char>, i: int)
    ensures
        forall|j: int|
            0 <= j < strip_ansi_from(s, i).len() ==> #[trigger] strip_ansi_from(s, i)[j] != '\u{1b}'
                && strip_ansi_from(s, i)[j] != '\r',
    decreases s.len() - i,
{
    if 0 <= i < s.len() {
        if s[i] == '\u{1b}' {
            if i + 1 < s.len() && s[i + 1] == '[' {
                lemma_csi_len_bound(s, i + 2);
                lemma_strip_ansi_clean(s, i + 2 + csi_len(s, i + 2));
                assert(strip_ansi_from(s, i) == strip_ansi_from(s, i + 2 + csi_len(s, i + 2)));
            } else if i + 1 < s.len() && s[i + 1] == ']' {
                lemma_osc_len_bound(s, i + 2);
                lemma_strip_ansi_clean(s, i + 2 + osc_len(s, i + 2));
                assert(strip_ansi_from(s, i) == strip_ansi_from(s, i + 2 + osc_len(s, i + 2)));
            } else {
                lemma_strip_ansi_clean(s, i + 1);
                assert(strip_ansi_from(s, i) == strip_ansi_from(s, i + 1));
            }
        } else if s[i] == '\r' {
            lemma_strip_ansi_clean(s, i + 1);
            assert(strip_ansi_from(s, i) == strip_ansi_from(s, i + 1));
        } else {
            lemma_strip_ansi_clean(s, i + 1);
            let t = strip_ansi_from(s, i + 1);
            assert(strip_ansi_from(s, i) == seq![s[i]] + t);
            assert forall|j: int| 0 <= j < (seq![s[i]] + t).len() implies #[trigger] (seq![s[i]]
                + t)[j] != '\u{1b}' && (seq![s[i]] + t)[j] != '\r' by {
                if j > 0 {
                    assert((seq![s[i]] + t)[j] == t[j - 1]);
                }
            }
        }
    }
}

/// What `strip_ansi` leaves holds no escape character and no carriage
/// return, so stripping it again changes nothing.
pub proof fn law_strip_ansi_output_is_clean(s: Seq<char>)
    ensures
        forall|j: int|
            0 <= j < spec_strip_ansi(s).len() ==> #[trigger] spec_strip_ansi(s)[j] != '\u{1b}'
                && spec_strip_ansi(s)[j] != '\r',
        spec_strip_ansi(spec_strip_ansi(s)) == spec_strip_ansi(s),
{
    lemma_strip_ansi_clean(s, 0);
    lemma_strip_clean_is_identity(spec_strip_ansi(s), 0);
    assert(spec_strip_ansi(s).skip(0) =~= spec_strip_ansi(s));
}

proof fn lemma_strip_clean_is_identity(t: Seq<char>, i: int)
    requires
        0 <= i <= t.len(),
        forall|j: int| 0 <= j < t.len() ==> #[trigger] t[j] != '\u{1b}' && t[j] != '\r',
    ensures
        strip_ansi_from(t, i) == t.skip(i),
    decreases t.len() - i,
{
    if i < t.len() {
        lemma_strip_clean_is_identity(t, i + 1);
        assert(t.skip(i) =~= seq![t[i]] + t.skip(i + 1));
    } else {
        assert(t.skip(i) =~= Seq::<char>::empty());
    }
}

/// A window read from the status screen is out of 100, and what is used and
/// what remains add up to 100 when the percentage left is at most 100.
pub proof fn law_tty_window_adds_up(line: Seq<char>, next: Option<Seq<char>>)
    ensures
        spec_parse_tty_window_line(line, next) matches Some(w) ==> (w.limit == Some(100u64)
            && (w.used matches Some(u) && u <= 100 && w.remaining == Some((100 - u) as u64))),
{
}

/// The reset time on a screen line `… (resets T) │` is exactly `T`: the
/// marker, the closing parenthesis, the padding and the box bar around it are
/// all left out, on a boxed line as on a bare one. `T` is any text that does
/// not itself begin or end with whitespace, a box bar, or (at its end) a
/// closing parenthesis; the line before the marker holds no `(`.
pub proof fn law_resets_text_is_the_time_alone(
    pre: Seq<char>,
    t: Seq<char>,
    pad: Seq<char>,
    tail: Seq<char>,
)
    requires
        forall|k: int| 0 <= k < pre.len() ==> pre[k] != '(',
        t.len() > 0,
        !is_ws(t[0]),
        t[0] != '│',
        !is_ws(t.last()),
        t.last() != '│',
        t.last() != ')',
        all_ws(pad),
        all_ws(tail),
    ensures
        spec_resets_text(Some(pre + "(resets "@ + (t + ")"@ + pad + "│"@ + tail))) == Some(t),
        spec_resets_text(Some(pre + "(resets "@ + (t + ")"@ + pad))) == Some(t),
{
    reveal_strlit("(resets ");
    reveal_strlit(")");
    reveal_strlit("│");
    let marker = "(resets "@;
    let close = ")"@;
    let bar = "│"@;
    let tc = t + close;
    assert(tc.last() == ')');
    assert(tc[0] == t[0]);
    let tcp = tc + pad;
    // the boxed line
    let rest1 = tcp + bar + tail;
    let n1 = pre + marker + rest1;
    lemma_first_occurrence_after_prefix(pre, marker, rest1);
    assert(n1.skip(pre.len() + 8int) =~= rest1);
    let boxed = tcp + bar;
    assert(rest1 =~= boxed + tail);
    assert(boxed[0] == t[0]);
    assert(boxed.last() == '│');
    lemma_trim_ws_suffix(boxed, tail);
    assert(trim_start_char(boxed, '│') == boxed);
    assert(boxed.drop_last() =~= tcp);
    if pad.len() > 0 {
        assert(is_ws(pad[pad.len() - 1]));
        assert(tcp.last() == pad[pad.len() - 1]);
    } else {
        assert(tcp =~= tc);
    }
    assert(trim_end_char(tcp, '│') == tcp);
    assert(trim_char(boxed, '│') == tcp);
    lemma_trim_ws_suffix(tc, pad);
    assert(tc.drop_last() =~= t);
    assert(trim_end_char(tc, ')') == trim_end_char(t, ')'));
    assert(trim_end_char(t, ')') == t);
    lemma_trim_unchanged(t);
    // the bare line
    let n2 = pre + marker + tcp;
    lemma_first_occurrence_after_prefix(pre, marker, tcp);
    assert(n2.skip(pre.len() + 8int) =~= tcp);
    assert(trim_start_char(tc, '│') == tc);
    assert(trim_end_char(tc, '│') == tc);
    assert(trim_char(tc, '│') == tc);
    lemma_trim_unchanged(tc);
}

} // verus!
