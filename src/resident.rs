//! The resident helper: its window title, the detached relaunch command,
//! the bounded search for its own window, and the status line's tone.

use crate::text::{push_signed_decimal, signed_decimal};
use vstd::prelude::*;

verus! {

/// Interval between two searches for the helper's own window.
pub const HELPER_POLL_INTERVAL_MS: u64 = 100;

/// How many searches for the helper's own window are made at most.
pub const HELPER_POLL_ATTEMPTS: u32 = 50;

/// Start-up settings of the resident helper.
#[derive(Clone, Copy, Debug, PartialEq, Eq, Structural)]
pub struct ResidentConfig {
    /// The terminal window, when known at start-up.
    pub terminal_hwnd: Option<isize>,
}

/// The helper window's title: unique per terminal, so that each helper can
/// find its own window by title.
pub open spec fn window_title(config: ResidentConfig) -> Seq<char> {
    "MojiBridge-"@ + signed_decimal(
        match config.terminal_hwnd {
            Some(h) => h as int,
            None => 0,
        },
    )
}

/// The title of the helper window for `config`.
pub fn resident_window_title(config: &ResidentConfig) -> (r: String)
    ensures
        r@ == window_title(*config),
{
    let mut title = String::from_str("MojiBridge-");
    let h = match config.terminal_hwnd {
        Some(h) => h,
        None => 0,
    };
    push_signed_decimal(&mut title, h as i64);
    title
}

/// The views of a list of strings.
pub open spec fn string_views(v: Seq<String>) -> Seq<Seq<char>> {
    v.map_values(|s: String| s@)
}

/// The arguments of the resident relaunch: the mode flag, then the label
/// and the terminal window where known.
pub open spec fn resident_arg_list(label: Option<Seq<char>>, hwnd: Option<isize>) -> Seq<Seq<char>> {
    seq!["--resident"@] + match label {
        Some(l) => seq!["--label"@, l],
        None => Seq::<Seq<char>>::empty(),
    } + match hwnd {
        Some(h) => seq!["--terminal-hwnd"@, signed_decimal(h as int)],
        None => Seq::<Seq<char>>::empty(),
    }
}

/// The arguments for relaunching as the resident helper.
pub fn resident_args(label: &Option<String>, hwnd: Option<isize>) -> (r: Vec<String>)
    ensures
        string_views(r@) == resident_arg_list(
            match label {
                Some(l) => Some(l@),
                None => None,
            },
            hwnd,
        ),
{
    let mut args: Vec<String> = Vec::new();
    args.push(String::from_str("--resident"));
    if let Some(l) = label {
        args.push(String::from_str("--label"));
        args.push(l.clone());
    }
    if let Some(h) = hwnd {
        args.push(String::from_str("--terminal-hwnd"));
        let mut s = String::new();
        push_signed_decimal(&mut s, h as i64);
        args.push(s);
    }
    proof {
        let lv = match label {
            Some(l) => Some(l@),
            None => None,
        };
        assert(string_views(args@) == resident_arg_list(lv, hwnd));
    }
    args
}

/// An argument in single quotes.
pub open spec fn quoted(s: Seq<char>) -> Seq<char> {
    "'"@ + s + "'"@
}

/// The arguments quoted and separated by commas.
pub open spec fn quoted_list(args: Seq<Seq<char>>) -> Seq<char>
    decreases args.len(),
{
    if args.len() == 0 {
        Seq::empty()
    } else if args.len() == 1 {
        quoted(args[0])
    } else {
        quoted_list(args.drop_last()) + ","@ + quoted(args.last())
    }
}

/// The shell command that starts `exe` hidden with `args`.
pub open spec fn start_command(exe: Seq<char>, args: Seq<Seq<char>>) -> Seq<char> {
    "Start-Process '"@ + exe + "' -ArgumentList "@ + quoted_list(args) + " -WindowStyle Hidden"@
}

/// The shell command that relaunches `exe_path` detached with `args`.
pub fn powershell_command(exe_path: &str, args: &Vec<String>) -> (r: String)
    ensures
        r@ == start_command(exe_path@, string_views(args@)),
{
    let mut list = String::new();
    let mut i: usize = 0;
    while i < args.len()
        invariant
            i <= args@.len(),
            list@ == quoted_list(string_views(args@).take(i as int)),
        decreases args.len() - i,
    {
        let ghost before = string_views(args@).take(i as int);
        if i > 0 {
            list.append(",");
        }
        list.append("'");
        list.append(args[i].as_str());
        list.append("'");
        proof {
            let now = string_views(args@).take(i + 1);
            assert(now.drop_last() == before);
            assert(now.last() == args@[i as int]@);
            if i == 0 {
                assert(before.len() == 0);
            }
        }
        i += 1;
    }
    assert(string_views(args@).take(args@.len() as int) == string_views(args@));
    let mut cmd = String::from_str("Start-Process '");
    cmd.append(exe_path);
    cmd.append("' -ArgumentList ");
    cmd.append(list.as_str());
    cmd.append(" -WindowStyle Hidden");
    cmd
}

/// Whether `pat` occurs in `s` starting at `i`.
pub open spec fn occurs_at(s: Seq<char>, pat: Seq<char>, i: int) -> bool {
    0 <= i && i + pat.len() <= s.len() && s.subrange(i, i + pat.len()) == pat
}

/// Whether `pat` occurs anywhere in `s`.
pub open spec fn occurs_in(s: Seq<char>, pat: Seq<char>) -> bool {
    exists|i: int| occurs_at(s, pat, i)
}

fn chars_of(s: &str) -> (r: Vec<char>)
    ensures
        r@ == s@,
{
    let mut v: Vec<char> = Vec::new();
    for c in it: s.chars()
        invariant
            it.seq() == s@,
            v@ == s@.take(it.index()),
    {
        v.push(c);
        assert(v@ == s@.take(it.index() + 1));
    }
    assert(s@.take(s@.len() as int) == s@);
    v
}

fn occurs_at_index(s: &Vec<char>, pat: &Vec<char>, i: usize) -> (r: bool)
    requires
        i + pat@.len() <= s@.len(),
    ensures
        r == occurs_at(s@, pat@, i as int),
{
    let n = s.len();
    let mut j: usize = 0;
    while j < pat.len()
        invariant
            n == s@.len(),
            i + pat@.len() <= s@.len(),
            j <= pat@.len(),
            forall|k: int| 0 <= k < j ==> s@[i + k] == pat@[k],
        decreases pat.len() - j,
    {
        if s[i + j] != pat[j] {
            assert(s@.subrange(i as int, i + pat@.len())[j as int] != pat@[j as int]);
            return false;
        }
        j += 1;
    }
    assert(s@.subrange(i as int, i + pat@.len()) == pat@);
    true
}

/// Whether `pat` occurs in `s`.
pub fn contains_text(s: &str, pat: &str) -> (r: bool)
    ensures
        r == occurs_in(s@, pat@),
{
    let sv = chars_of(s);
    let pv = chars_of(pat);
    if pv.len() > sv.len() {
        return false;
    }
    if pv.len() == 0 {
        assert(s@.subrange(0, 0) == pat@);
        assert(occurs_at(s@, pat@, 0));
        return true;
    }
    let n = sv.len();
    let last = n - pv.len();
    let mut i: usize = 0;
    while i <= last
        invariant
            last + pv@.len() == sv@.len(),
            n == sv@.len(),
            pv@.len() > 0,
            sv@ == s@,
            pv@ == pat@,
            forall|k: int| 0 <= k < i ==> !occurs_at(s@, pat@, k),
        decreases last + 1 - i,
    {
        if occurs_at_index(&sv, &pv, i) {
            return true;
        }
        i += 1;
    }
    assert forall|k: int| !occurs_at(s@, pat@, k) by {
        if 0 <= k < i {
        }
    }
    false
}

/// Whether a status line reports an error (it mentions `error` or
/// `Error`), which decides its colour.
pub fn status_is_error(message: &str) -> (r: bool)
    ensures
        r == (occurs_in(message@, "error"@) || occurs_in(message@, "Error"@)),
{
    contains_text(message, "error") || contains_text(message, "Error")
}

/// How the search for a freshly created window is paced and bounded.
#[derive(Clone, Copy, Debug, PartialEq, Eq, Structural)]
pub struct RetryPolicy {
    pub interval_ms: u64,
    pub max_attempts: u32,
}

/// What to do after one search for the helper's own window.
#[derive(Clone, Copy, Debug, PartialEq, Eq, Structural)]
pub enum PollDecision {
    /// Register this window as the helper target.
    Register(isize),
    /// Wait this many milliseconds, then search again.
    Retry(u64),
    /// The deadline has passed: stop searching.
    GiveUp,
}

impl RetryPolicy {
    /// The helper window's search: every `HELPER_POLL_INTERVAL_MS`, at most
    /// `HELPER_POLL_ATTEMPTS` times.
    pub fn helper_window() -> (r: RetryPolicy)
        ensures
            r.interval_ms == HELPER_POLL_INTERVAL_MS,
            r.max_attempts == HELPER_POLL_ATTEMPTS,
    {
        RetryPolicy { interval_ms: HELPER_POLL_INTERVAL_MS, max_attempts: HELPER_POLL_ATTEMPTS }
    }

    /// The decision after search number `attempt` (counted from 0) found
    /// `found`: a found window is registered; otherwise the search is
    /// repeated after the interval until `max_attempts` searches are made.
    pub fn decide(&self, attempt: u32, found: Option<isize>) -> (r: PollDecision)
        ensures
            r == (match found {
                Some(h) => PollDecision::Register(h),
                None => if attempt as int + 1 >= self.max_attempts as int {
                    PollDecision::GiveUp
                } else {
                    PollDecision::Retry(self.interval_ms)
                },
            }),
    {
        match found {
            Some(h) => PollDecision::Register(h),
            None => {
                if attempt as u64 + 1 >= self.max_attempts as u64 {
                    PollDecision::GiveUp
                } else {
                    PollDecision::Retry(self.interval_ms)
                }
            },
        }
    }
}

} // verus!
