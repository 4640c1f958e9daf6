//! Locating the terminal among the ancestors of the current process.
//!
//! One snapshot of all processes is taken and turned, in a single pass, into
//! a table from process id to (parent id, executable name). The walk then
//! follows parent links from the current process for at most `MAX_HOPS`
//! hops, comparing each name case-insensitively (ASCII) against the known
//! terminal executables.

use std::collections::HashMap;
use vstd::prelude::*;

verus! {

broadcast use vstd::std_specs::hash::group_hash_axioms;

/// How many processes the ancestry walk visits at most.
pub const MAX_HOPS: usize = 10;

/// How many terminal executable names are known.
pub const TERMINAL_NAME_COUNT: usize = 9;

/// One process of a snapshot.
#[derive(Debug)]
pub struct ProcessNode {
    pub pid: u32,
    /// `None` where the platform reports no parent.
    pub parent_pid: Option<u32>,
    pub executable_name: String,
}

/// What the table holds for one process: its parent link and its name.
pub type ProcessEntry = (Option<u32>, Seq<char>);

/// The snapshot as a table: each pid maps to the entry of its last
/// occurrence in the snapshot.
pub open spec fn process_table(nodes: Seq<ProcessNode>) -> Map<u32, ProcessEntry>
    decreases nodes.len(),
{
    if nodes.len() == 0 {
        Map::empty()
    } else {
        let last = nodes.last();
        process_table(nodes.drop_last()).insert(
            last.pid,
            (last.parent_pid, last.executable_name@),
        )
    }
}

/// The executable names of the known terminal emulators and shells.
pub open spec fn terminal_names() -> Seq<Seq<char>> {
    seq![
        "WindowsTerminal.exe"@,
        "cmd.exe"@,
        "powershell.exe"@,
        "pwsh.exe"@,
        "mintty.exe"@,
        "ConEmu64.exe"@,
        "ConEmu.exe"@,
        "alacritty.exe"@,
        "wezterm-gui.exe"@,
    ]
}

/// A character with ASCII upper case folded to lower case, as a code point.
pub open spec fn ascii_folded(c: char) -> u32 {
    if 'A' <= c && c <= 'Z' {
        (c as u32 + 32) as u32
    } else {
        c as u32
    }
}

/// Equality of two names up to ASCII case.
pub open spec fn eq_ignore_ascii_case(a: Seq<char>, b: Seq<char>) -> bool {
    &&& a.len() == b.len()
    &&& forall|i: int| 0 <= i < a.len() ==> ascii_folded(#[trigger] a[i]) == ascii_folded(b[i])
}

/// Whether a name is one of the terminal names, up to ASCII case.
pub open spec fn is_terminal_name(name: Seq<char>) -> bool {
    exists|i: int| 0 <= i < terminal_names().len() && eq_ignore_ascii_case(name, #[trigger] terminal_names()[i])
}

/// The walk: from `pid`, with `hops` visits left, the first process whose
/// name is a terminal name; `None` once the hops run out, a pid is missing
/// from the table, or a process has no parent.
pub open spec fn locate(table: Map<u32, ProcessEntry>, pid: u32, hops: nat) -> Option<u32>
    decreases hops,
{
    if hops == 0 || !table.contains_key(pid) {
        None
    } else if is_terminal_name(table[pid].1) {
        Some(pid)
    } else {
        match table[pid].0 {
            Some(parent) => locate(table, parent, (hops - 1) as nat),
            None => None,
        }
    }
}

/// The `k`-th process on the parent chain of `pid` (`pid` itself for `k ==
/// 0`), as far as the table links it.
pub open spec fn ancestor(table: Map<u32, ProcessEntry>, pid: u32, k: nat) -> Option<u32>
    decreases k,
{
    if k == 0 {
        Some(pid)
    } else {
        match ancestor(table, pid, (k - 1) as nat) {
            Some(a) => if table.contains_key(a) {
                table[a].0
            } else {
                None
            },
            None => None,
        }
    }
}

/// Whether the `k`-th process on the chain is in the table with a terminal
/// name.
pub open spec fn terminal_at(table: Map<u32, ProcessEntry>, pid: u32, k: nat) -> bool {
    match ancestor(table, pid, k) {
        Some(a) => table.contains_key(a) && is_terminal_name(table[a].1),
        None => false,
    }
}

/// The `i`-th terminal name.
fn terminal_name(i: usize) -> (r: &'static str)
    requires
        i < TERMINAL_NAME_COUNT,
    ensures
        r@ == terminal_names()[i as int],
{
    match i {
        0 => "WindowsTerminal.exe",
        1 => "cmd.exe",
        2 => "powershell.exe",
        3 => "pwsh.exe",
        4 => "mintty.exe",
        5 => "ConEmu64.exe",
        6 => "ConEmu.exe",
        7 => "alacritty.exe",
        _ => "wezterm-gui.exe",
    }
}

fn fold_char(c: char) -> (r: u32)
    ensures
        r == ascii_folded(c),
{
    if 'A' <= c && c <= 'Z' {
        c as u32 + 32
    } else {
        c as u32
    }
}

/// Compare two names up to ASCII case.
pub fn names_match(a: &str, b: &str) -> (r: bool)
    ensures
        r == eq_ignore_ascii_case(a@, b@),
{
    let n = a.unicode_len();
    if n != b.unicode_len() {
        return false;
    }
    let mut i: usize = 0;
    while i < n
        invariant
            n == a@.len(),
            n == b@.len(),
            i <= n,
            forall|j: int| 0 <= j < i ==> ascii_folded(#[trigger] a@[j]) == ascii_folded(b@[j]),
        decreases n - i,
    {
        if fold_char(a.get_char(i)) != fold_char(b.get_char(i)) {
            return false;
        }
        i += 1;
    }
    true
}

/// Whether `name` is the executable name of a known terminal.
pub fn is_terminal_process_name(name: &str) -> (r: bool)
    ensures
        r == is_terminal_name(name@),
{
    let mut i: usize = 0;
    while i < TERMINAL_NAME_COUNT
        invariant
            i <= TERMINAL_NAME_COUNT,
            forall|j: int| 0 <= j < i ==> !eq_ignore_ascii_case(name@, #[trigger] terminal_names()[j]),
        decreases TERMINAL_NAME_COUNT - i,
    {
        if names_match(name, terminal_name(i)) {
            return true;
        }
        i += 1;
    }
    assert(terminal_names().len() == TERMINAL_NAME_COUNT);
    false
}

/// The exec table holds, for each pid, exactly what `table` holds.
pub open spec fn table_models(
    m: Map<u32, (Option<u32>, String)>,
    table: Map<u32, ProcessEntry>,
) -> bool {
    &&& m.dom() == table.dom()
    &&& forall|k: u32| #[trigger] m.contains_key(k) ==> m[k].0 == table[k].0 && m[k].1@ == table[k].1
}

/// Build the pid table in one pass over the snapshot.
fn build_table(nodes: &Vec<ProcessNode>) -> (r: HashMap<u32, (Option<u32>, String)>)
    ensures
        table_models(r@, process_table(nodes@)),
{
    let mut m: HashMap<u32, (Option<u32>, String)> = HashMap::new();
    let mut i: usize = 0;
    while i < nodes.len()
        invariant
            i <= nodes@.len(),
            table_models(m@, process_table(nodes@.take(i as int))),
        decreases nodes.len() - i,
    {
        let node = &nodes[i];
        m.insert(node.pid, (node.parent_pid, node.executable_name.clone()));
        assert(nodes@.take(i + 1).drop_last() == nodes@.take(i as int));
        i += 1;
    }
    assert(nodes@.take(nodes@.len() as int) == nodes@);
    m
}

/// The ancestry walk over a snapshot: starting at `start`, the nearest
/// process (itself included) within `MAX_HOPS` visits whose executable name
/// is a terminal name.
pub fn find_terminal_in(nodes: &Vec<ProcessNode>, start: u32) -> (r: Option<u32>)
    ensures
        r == locate(process_table(nodes@), start, MAX_HOPS as nat),
{
    let table = build_table(nodes);
    let ghost t = process_table(nodes@);
    let mut current = start;
    let mut hops: usize = 0;
    while hops < MAX_HOPS
        invariant
            hops <= MAX_HOPS,
            t == process_table(nodes@),
            table_models(table@, t),
            locate(t, start, MAX_HOPS as nat) == locate(t, current, (MAX_HOPS - hops) as nat),
        decreases MAX_HOPS - hops,
    {
        match table.get(&current) {
            None => {
                assert(!t.dom().contains(current));
                return None;
            },
            Some(entry) => {
                assert(table@.contains_key(current));
                assert(t.contains_key(current));
                assert(entry.1@ == t[current].1 && entry.0 == t[current].0);
                if is_terminal_process_name(entry.1.as_str()) {
                    return Some(current);
                }
                match entry.0 {
                    None => {
                        return None;
                    },
                    Some(parent) => {
                        current = parent;
                    },
                }
            },
        }
        hops += 1;
    }
    None
}

/// Following `a + b` links from `pid` is following `a` links, then `b` more.
proof fn lemma_ancestor_add(table: Map<u32, ProcessEntry>, pid: u32, a: nat, b: nat)
    ensures
        ancestor(table, pid, a + b) == match ancestor(table, pid, a) {
            Some(x) => ancestor(table, x, b),
            None => None,
        },
    decreases b,
{
    if b > 0 {
        lemma_ancestor_add(table, pid, a, (b - 1) as nat);
        assert((a + b - 1) as nat == a + (b - 1) as nat);
    }
}

/// Once the chain is broken it stays broken.
proof fn lemma_broken_stays_broken(table: Map<u32, ProcessEntry>, pid: u32, k: nat, j: nat)
    requires
        k <= j,
        ancestor(table, pid, k) is None,
    ensures
        ancestor(table, pid, j) is None,
    decreases j - k,
{
    if k < j {
        lemma_broken_stays_broken(table, pid, k, (j - 1) as nat);
    }
}

/// With no terminal among the first `n` processes of the chain, a walk of
/// `n` hops finds nothing.
proof fn lemma_locate_none(table: Map<u32, ProcessEntry>, pid: u32, n: nat)
    requires
        forall|i: nat| i < n ==> !terminal_at(table, pid, i),
    ensures
        locate(table, pid, n) is None,
    decreases n,
{
    if n > 0 && table.contains_key(pid) {
        assert(!terminal_at(table, pid, 0));
        if let Some(parent) = table[pid].0 {
            assert forall|i: nat| i < (n - 1) as nat implies !terminal_at(table, parent, i) by {
                lemma_ancestor_add(table, pid, 1, i);
                assert(!terminal_at(table, pid, 1 + i));
            }
            lemma_locate_none(table, parent, (n - 1) as nat);
        }
    }
}

/// A walk of `n` hops stops at the first terminal of the chain if that
/// terminal lies within its reach.
proof fn lemma_locate_found(table: Map<u32, ProcessEntry>, pid: u32, n: nat, k: nat)
    requires
        k < n,
        terminal_at(table, pid, k),
        forall|i: nat| i < k ==> !terminal_at(table, pid, i),
    ensures
        locate(table, pid, n) == ancestor(table, pid, k),
    decreases k,
{
    if k > 0 {
        if ancestor(table, pid, 1) is None {
            lemma_broken_stays_broken(table, pid, 1, k);
        }
        assert(ancestor(table, pid, 0) == Some(pid));
        assert(ancestor(table, pid, 1) is Some);
        assert(table.contains_key(pid));
        assert(!terminal_at(table, pid, 0));
        let parent = table[pid].0->0;
        assert forall|i: nat| i < (k - 1) as nat implies !terminal_at(table, parent, i) by {
            lemma_ancestor_add(table, pid, 1, i);
            assert(!terminal_at(table, pid, 1 + i));
        }
        lemma_ancestor_add(table, pid, 1, (k - 1) as nat);
        lemma_locate_found(table, parent, (n - 1) as nat, (k - 1) as nat);
    }
}

/// When the nearest terminal-named process on the parent chain of `start`
/// is `k < MAX_HOPS` links away, the walk returns that process's pid.
pub proof fn lemma_nearest_terminal_found(table: Map<u32, ProcessEntry>, start: u32, k: nat)
    requires
        k < MAX_HOPS,
        terminal_at(table, start, k),
        forall|i: nat| i < k ==> !terminal_at(table, start, i),
    ensures
        ancestor(table, start, k) is Some,
        locate(table, start, MAX_HOPS as nat) == ancestor(table, start, k),
{
    lemma_locate_found(table, start, MAX_HOPS as nat, k);
}

/// When none of the first `MAX_HOPS` processes on the chain has a terminal
/// name (any terminal lies farther away, or there is none), the walk
/// returns `None`.
pub proof fn lemma_no_terminal_within_bound(table: Map<u32, ProcessEntry>, start: u32)
    requires
        forall|i: nat| i < MAX_HOPS ==> !terminal_at(table, start, i),
    ensures
        locate(table, start, MAX_HOPS as nat) is None,
{
    lemma_locate_none(table, start, MAX_HOPS as nat);
}

/// A parent chain that leads back to `start` after `c` links, with no
/// terminal name on the cycle, makes the walk return `None`.
pub proof fn lemma_cycle_returns_none(table: Map<u32, ProcessEntry>, start: u32, c: nat)
    requires
        c >= 1,
        ancestor(table, start, c) == Some(start),
        forall|i: nat| i < c ==> !terminal_at(table, start, i),
    ensures
        locate(table, start, MAX_HOPS as nat) is None,
{
    assert forall|i: nat| i < MAX_HOPS implies !terminal_at(table, start, i) by {
        lemma_cycle_periodic(table, start, c, i);
    }
    lemma_locate_none(table, start, MAX_HOPS as nat);
}

proof fn lemma_cycle_periodic(table: Map<u32, ProcessEntry>, start: u32, c: nat, i: nat)
    requires
        c >= 1,
        ancestor(table, start, c) == Some(start),
        forall|j: nat| j < c ==> !terminal_at(table, start, j),
    ensures
        !terminal_at(table, start, i),
    decreases i,
{
    if i >= c {
        lemma_ancestor_add(table, start, c, (i - c) as nat);
        assert(c + (i - c) as nat == i);
        lemma_cycle_periodic(table, start, c, (i - c) as nat);
    }
}

/// A parent chain that ends at link `k` (no parent, or a parent missing
/// from the snapshot) with no terminal name before it makes the walk return
/// `None`, however far `k` is.
pub proof fn lemma_broken_chain_returns_none(table: Map<u32, ProcessEntry>, start: u32, k: nat)
    requires
        match ancestor(table, start, k) {
            Some(a) => !table.contains_key(a),
            None => true,
        },
        forall|i: nat| i < k ==> !terminal_at(table, start, i),
    ensures
        locate(table, start, MAX_HOPS as nat) is None,
{
    assert forall|i: nat| i < MAX_HOPS implies !terminal_at(table, start, i) by {
        if i > k {
            assert(ancestor(table, start, (k + 1) as nat) is None);
            lemma_broken_stays_broken(table, start, (k + 1) as nat, i);
        }
    }
    lemma_locate_none(table, start, MAX_HOPS as nat);
}

/// Relies on `sysinfo::get_current_pid` and `sysinfo::Pid::as_u32`: the id
/// of the running process, or `None` where the platform is unsupported.
#[verifier::external_body]
fn current_pid() -> (r: Option<u32>) {
    match sysinfo::get_current_pid() {
        Ok(pid) => Some(pid.as_u32()),
        Err(_) => None,
    }
}

/// Relies on `sysinfo::System::new`, `System::refresh_processes` and
/// `System::processes`: one snapshot of the running processes, each with
/// its id, its parent link and its executable name. What it holds depends
/// on the machine, so nothing is promised of it.
#[verifier::external_body]
fn process_snapshot() -> (r: Vec<ProcessNode>) {
    let mut system = sysinfo::System::new();
    system.refresh_processes(sysinfo::ProcessesToUpdate::All, true);
    system.processes().iter().map(|(pid, process)| ProcessNode {
        pid: pid.as_u32(),
        parent_pid: process.parent().map(|parent| parent.as_u32()),
        executable_name: process.name().to_string_lossy().into_owned(),
    }).collect()
}

/// Find the terminal that hosts this process: take one snapshot of the
/// running processes and walk up from the current process. `None` when the
/// current process cannot be identified or no terminal lies within reach;
/// callers then fall back to the foreground window.
pub fn find_terminal_pid() -> (r: Option<u32>) {
    match current_pid() {
        None => None,
        Some(start) => {
            let nodes = process_snapshot();
            find_terminal_in(&nodes, start)
        },
    }
}

/// The terminal process found at start-up, kept for later deliveries.
/// Recorded once: a later record leaves a found pid in place.
pub struct TerminalTracking {
    pid: Option<u32>,
}

impl TerminalTracking {
    /// The pid recorded so far.
    pub closed spec fn recorded_pid(&self) -> Option<u32> {
        self.pid
    }

    /// Nothing recorded yet.
    pub fn new() -> (r: TerminalTracking)
        ensures
            r.recorded_pid() is None,
    {
        TerminalTracking { pid: None }
    }

    /// Record the result of a search: a found pid is kept unless one was
    /// recorded before; `None` records nothing.
    pub fn record(&mut self, found: Option<u32>)
        ensures
            final(self).recorded_pid() == (if old(self).recorded_pid() is Some {
                old(self).recorded_pid()
            } else {
                found
            }),
    {
        if self.pid.is_none() {
            self.pid = found;
        }
    }

    /// The recorded terminal pid.
    pub fn get_terminal_pid(&self) -> (r: Option<u32>)
        ensures
            r == self.recorded_pid(),
    {
        self.pid
    }
}

/// Search for the terminal and record what was found. A pid recorded
/// before stays.
pub fn init_terminal_tracking(tracking: &mut TerminalTracking)
    ensures
        old(tracking).recorded_pid() is Some ==> final(tracking).recorded_pid() == old(tracking).recorded_pid(),
{
    let found = find_terminal_pid();
    tracking.record(found);
}

} // verus!
