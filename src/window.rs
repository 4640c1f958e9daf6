//! Resolving a process to its window, and reading what the window manager
//! reports about windows.
//!
//! The platform layer enumerates the top-level windows, each with the id of
//! its owning process, under one lock; the choice among them is made here.

use vstd::prelude::*;

verus! {

/// A top-level window and the process that owns it, as enumerated.
#[derive(Clone, Copy, Debug, PartialEq, Eq, Structural)]
pub struct WindowOwner {
    pub hwnd: isize,
    pub pid: u32,
}

/// The first window in enumeration order that `pid` owns.
pub open spec fn first_window_of(windows: Seq<WindowOwner>, pid: u32) -> Option<isize>
    decreases windows.len(),
{
    if windows.len() == 0 {
        None
    } else if windows[0].pid == pid {
        Some(windows[0].hwnd)
    } else {
        first_window_of(windows.drop_first(), pid)
    }
}

proof fn lemma_first_window_skip(windows: Seq<WindowOwner>, pid: u32, i: int)
    requires
        0 <= i <= windows.len(),
        forall|j: int| 0 <= j < i ==> (#[trigger] windows[j]).pid != pid,
    ensures
        first_window_of(windows, pid) == first_window_of(windows.subrange(i, windows.len() as int), pid),
    decreases i,
{
    if i > 0 {
        let rest = windows.drop_first();
        assert forall|j: int| 0 <= j < i - 1 implies (#[trigger] rest[j]).pid != pid by {
            assert(rest[j] == windows[j + 1]);
        }
        lemma_first_window_skip(rest, pid, i - 1);
        assert(rest.subrange(i - 1, rest.len() as int) == windows.subrange(i, windows.len() as int));
    } else {
        assert(windows.subrange(0, windows.len() as int) == windows);
    }
}

/// The first enumerated window owned by `pid`; `None` when it owns none
/// (not ready yet: the caller may retry).
pub fn get_window_by_pid(windows: &Vec<WindowOwner>, pid: u32) -> (r: Option<isize>)
    ensures
        r == first_window_of(windows@, pid),
{
    let mut i: usize = 0;
    while i < windows.len()
        invariant
            i <= windows@.len(),
            forall|j: int| 0 <= j < i ==> (#[trigger] windows@[j]).pid != pid,
        decreases windows.len() - i,
    {
        if windows[i].pid == pid {
            proof {
                lemma_first_window_skip(windows@, pid, i as int);
                let rest = windows@.subrange(i as int, windows@.len() as int);
                assert(rest[0] == windows@[i as int]);
            }
            return Some(windows[i].hwnd);
        }
        i += 1;
    }
    proof {
        lemma_first_window_skip(windows@, pid, i as int);
    }
    None
}

/// A process that owns none of the enumerated windows resolves to `None`,
/// however often it is asked; a window it does own is found, and the one
/// found is owned by it.
pub proof fn lemma_resolution_is_exact(windows: Seq<WindowOwner>, pid: u32)
    ensures
        (forall|j: int| 0 <= j < windows.len() ==> (#[trigger] windows[j]).pid != pid) ==> first_window_of(
            windows,
            pid,
        ) is None,
        (exists|j: int| 0 <= j < windows.len() && (#[trigger] windows[j]).pid == pid) ==> first_window_of(
            windows,
            pid,
        ) is Some,
        first_window_of(windows, pid) matches Some(h) ==> exists|j: int|
            0 <= j < windows.len() && (#[trigger] windows[j]).pid == pid && windows[j].hwnd == h,
    decreases windows.len(),
{
    if windows.len() > 0 {
        let rest = windows.drop_first();
        lemma_resolution_is_exact(rest, pid);
        if windows[0].pid != pid {
            if exists|j: int| 0 <= j < windows.len() && (#[trigger] windows[j]).pid == pid {
                let j = choose|j: int| 0 <= j < windows.len() && (#[trigger] windows[j]).pid == pid;
                assert(rest[j - 1] == windows[j]);
            }
            if first_window_of(windows, pid) is Some {
                let j = choose|j: int|
                    0 <= j < rest.len() && (#[trigger] rest[j]).pid == pid && rest[j].hwnd
                        == first_window_of(windows, pid)->0;
                assert(windows[j + 1] == rest[j]);
            }
            assert forall|j: int| 0 <= j < rest.len() && (forall|k: int| 0 <= k < windows.len() ==> (#[trigger] windows[k]).pid != pid) implies (#[trigger] rest[j]).pid != pid by {
                assert(rest[j] == windows[j + 1]);
            }
        }
    }
}

/// The foreground window as reported by the platform, where `0` means that
/// no window is in the foreground.
pub fn get_foreground_window(raw: isize) -> (r: Option<isize>)
    ensures
        r == (if raw == 0 {
            None
        } else {
            Some(raw)
        }),
{
    if raw == 0 {
        None
    } else {
        Some(raw)
    }
}

/// The text that lossy UTF-16 decoding gives for `units`.
pub uninterp spec fn utf16_lossy(units: Seq<u16>) -> Seq<char>;

/// Relies on `String::from_utf16_lossy`: decodes UTF-16, replacing invalid
/// code units with U+FFFD; a function of the units alone.
#[verifier::external_body]
fn decode_utf16_lossy(units: &[u16]) -> (r: String)
    ensures
        r@ == utf16_lossy(units@),
        units@.len() == 0 ==> r@.len() == 0,
{
    String::from_utf16_lossy(units)
}

/// A window's title from the buffer that the platform filled and the
/// number of UTF-16 units it reported.
pub fn get_window_title(buffer: &[u16], len: usize) -> (r: String)
    requires
        len <= buffer@.len(),
    ensures
        r@ == utf16_lossy(buffer@.subrange(0, len as int)),
{
    decode_utf16_lossy(&buffer[0..len])
}

} // verus!
