//! Character-level text rules: blank text, the trigger prefix, the
//! normalisation of submitted text, and decimal rendering of integers.

use vstd::prelude::*;

verus! {

/// Whether a character has the Unicode `White_Space` property.
pub uninterp spec fn white_space(c: char) -> bool;

/// Relies on `char::is_whitespace`: whether `c` has the Unicode
/// `White_Space` property, a function of the character alone.
#[verifier::external_body]
fn is_white_space(c: char) -> (r: bool)
    ensures
        r == white_space(c),
{
    c.is_whitespace()
}

/// Relies on `String::push`: appends one character.
#[verifier::external_body]
fn push_char(s: &mut String, c: char)
    ensures
        final(s)@ == old(s)@.push(c),
{
    s.push(c)
}

/// Every character is white space (the text is empty once trimmed).
pub open spec fn blank(s: Seq<char>) -> bool {
    forall|i: int| 0 <= i < s.len() ==> white_space(#[trigger] s[i])
}

/// The index of the first character at or after `from` that is not white
/// space, or the length when there is none.
pub open spec fn first_non_blank(s: Seq<char>, from: int) -> int
    decreases s.len() - from,
{
    if from < 0 || from >= s.len() || !white_space(s[from]) {
        from
    } else {
        first_non_blank(s, from + 1)
    }
}

/// After leading white space, the text begins with the trigger prefix `//`.
pub open spec fn starts_with_trigger(s: Seq<char>) -> bool {
    let k = first_non_blank(s, 0);
    &&& k + 2 <= s.len()
    &&& s[k] == '/'
    &&& s[k + 1] == '/'
}

/// The text with trailing white space removed.
pub open spec fn trim_end(s: Seq<char>) -> Seq<char>
    decreases s.len(),
{
    if s.len() > 0 && white_space(s.last()) {
        trim_end(s.drop_last())
    } else {
        s
    }
}

/// The text with each `\r\n` pair replaced by `\n`, scanning from the
/// front.
pub open spec fn normalize_newlines(s: Seq<char>) -> Seq<char>
    decreases s.len(),
{
    if s.len() == 0 {
        s
    } else if s.len() >= 2 && s[0] == '\r' && s[1] == '\n' {
        seq!['\n'] + normalize_newlines(s.subrange(2, s.len() as int))
    } else {
        seq![s[0]] + normalize_newlines(s.subrange(1, s.len() as int))
    }
}

proof fn lemma_first_non_blank(s: Seq<char>, i: int, k: int)
    requires
        0 <= i <= k <= s.len(),
        forall|j: int| 0 <= j < k ==> white_space(#[trigger] s[j]),
        k == s.len() || !white_space(s[k]),
    ensures
        first_non_blank(s, i) == k,
    decreases k - i,
{
    if i < k {
        lemma_first_non_blank(s, i + 1, k);
    }
}

proof fn lemma_trim_end(s: Seq<char>, e: int)
    requires
        0 <= e <= s.len(),
        e == 0 || !white_space(s[e - 1]),
        forall|j: int| e <= j < s.len() ==> white_space(#[trigger] s[j]),
    ensures
        trim_end(s) == s.subrange(0, e),
    decreases s.len(),
{
    if s.len() > e {
        assert(white_space(s[s.len() - 1]));
        lemma_trim_end(s.drop_last(), e);
        assert(s.drop_last().subrange(0, e) == s.subrange(0, e));
    } else {
        assert(s.subrange(0, e) == s);
    }
}

/// Whether the text is empty or white space only.
pub fn is_blank(s: &str) -> (r: bool)
    ensures
        r == blank(s@),
{
    let mut all_blank = true;
    for c in it: s.chars()
        invariant
            it.seq() == s@,
            all_blank == (forall|j: int| 0 <= j < it.index() ==> white_space(#[trigger] s@[j])),
    {
        if !is_white_space(c) {
            all_blank = false;
        }
    }
    all_blank
}

/// The number of leading white-space characters.
pub fn leading_blank_count(s: &str) -> (r: usize)
    ensures
        r as int == first_non_blank(s@, 0),
        r <= s@.len(),
{
    let n = s.unicode_len();
    let mut k: usize = 0;
    let mut done = false;
    for c in it: s.chars()
        invariant
            it.seq() == s@,
            n == s@.len(),
            k <= it.index() <= s@.len(),
            forall|j: int| 0 <= j < k ==> white_space(#[trigger] s@[j]),
            !done ==> k == it.index(),
            done ==> k < s@.len() && !white_space(s@[k as int]),
    {
        if !done {
            if is_white_space(c) {
                k += 1;
            } else {
                done = true;
            }
        }
    }
    proof {
        lemma_first_non_blank(s@, 0, k as int);
    }
    k
}

/// Push `c` onto `out`, keeping `end` just past the last character that is
/// not white space.
fn push_tracking_end(out: &mut String, end: &mut usize, c: char)
    requires
        old(out)@.len() < usize::MAX,
        *old(end) <= old(out)@.len(),
        *old(end) == 0 || !white_space(old(out)@[*old(end) - 1]),
        forall|j: int| *old(end) <= j < old(out)@.len() ==> white_space(#[trigger] old(out)@[j]),
    ensures
        final(out)@ == old(out)@.push(c),
        *final(end) <= final(out)@.len(),
        *final(end) == 0 || !white_space(final(out)@[*final(end) - 1]),
        forall|j: int| *final(end) <= j < final(out)@.len() ==> white_space(#[trigger] final(out)@[j]),
{
    let len = out.unicode_len();
    push_char(out, c);
    if !is_white_space(c) {
        *end = len + 1;
    }
}

proof fn lemma_normalize_step(s: Seq<char>, i: int)
    requires
        0 <= i < s.len(),
    ensures
        s[i] == '\r' && i + 1 < s.len() && s[i + 1] == '\n' ==> normalize_newlines(s.subrange(i, s.len() as int))
            == seq!['\n'] + normalize_newlines(s.subrange(i + 2, s.len() as int)),
        !(s[i] == '\r' && i + 1 < s.len() && s[i + 1] == '\n') ==> normalize_newlines(s.subrange(i, s.len() as int))
            == seq![s[i]] + normalize_newlines(s.subrange(i + 1, s.len() as int)),
{
    let t = s.subrange(i, s.len() as int);
    if i + 2 <= s.len() {
        assert(t.subrange(2, t.len() as int) == s.subrange(i + 2, s.len() as int));
    }
    assert(t.subrange(1, t.len() as int) == s.subrange(i + 1, s.len() as int));
}

/// The text with `\r\n` turned into `\n` and trailing white space removed;
/// `None` when nothing is left.
pub fn normalize_submission(text: &str) -> (r: Option<String>)
    ensures
        match r {
            Some(t) => t@ == trim_end(normalize_newlines(text@)) && t@.len() > 0,
            None => trim_end(normalize_newlines(text@)).len() == 0,
        },
{
    let n = text.unicode_len();
    let mut out = String::new();
    let mut pending_cr = false;
    let mut end: usize = 0;
    let ghost mut consumed: int = 0;
    let ghost whole = normalize_newlines(text@);
    assert(text@.subrange(0, text@.len() as int) == text@);
    for c in it: text.chars()
        invariant
            it.seq() == text@,
            n == text@.len(),
            whole == normalize_newlines(text@),
            0 <= consumed <= it.index() <= text@.len(),
            out@.len() <= consumed,
            pending_cr ==> consumed + 1 == it.index() && text@[consumed] == '\r',
            !pending_cr ==> consumed == it.index(),
            out@ + normalize_newlines(text@.subrange(consumed, text@.len() as int)) == whole,
            end <= out@.len(),
            end == 0 || !white_space(out@[end - 1]),
            forall|j: int| end <= j < out@.len() ==> white_space(#[trigger] out@[j]),
    {
        let ghost idx = it.index();
        assert(c == text@[idx]);
        if pending_cr {
            proof {
                lemma_normalize_step(text@, consumed);
            }
            if c == '\n' {
                push_tracking_end(&mut out, &mut end, '\n');
                proof {
                    consumed = consumed + 2;
                }
                pending_cr = false;
            } else {
                push_tracking_end(&mut out, &mut end, '\r');
                proof {
                    consumed = consumed + 1;
                }
                if c == '\r' {
                    pending_cr = true;
                } else {
                    proof {
                        lemma_normalize_step(text@, consumed);
                    }
                    push_tracking_end(&mut out, &mut end, c);
                    proof {
                        consumed = consumed + 1;
                    }
                    pending_cr = false;
                }
            }
        } else if c == '\r' {
            pending_cr = true;
        } else {
            proof {
                lemma_normalize_step(text@, consumed);
            }
            push_tracking_end(&mut out, &mut end, c);
            proof {
                consumed = consumed + 1;
            }
        }
        assert(out@ + normalize_newlines(text@.subrange(consumed, text@.len() as int)) == whole);
    }
    if pending_cr {
        proof {
            lemma_normalize_step(text@, consumed);
        }
        push_tracking_end(&mut out, &mut end, '\r');
        proof {
            consumed = consumed + 1;
        }
    }
    assert(text@.subrange(consumed, text@.len() as int).len() == 0);
    assert(out@ == whole);
    proof {
        lemma_trim_end(out@, end as int);
    }
    if end == 0 {
        None
    } else {
        Some(String::from_str(out.as_str().substring_char(0, end)))
    }
}

/// The decimal digit for `d < 10`.
pub open spec fn digit_char(d: nat) -> char {
    if d == 0 {
        '0'
    } else if d == 1 {
        '1'
    } else if d == 2 {
        '2'
    } else if d == 3 {
        '3'
    } else if d == 4 {
        '4'
    } else if d == 5 {
        '5'
    } else if d == 6 {
        '6'
    } else if d == 7 {
        '7'
    } else if d == 8 {
        '8'
    } else {
        '9'
    }
}

/// The decimal rendering of `n`, without leading zeros.
pub open spec fn decimal(n: nat) -> Seq<char>
    decreases n,
{
    if n < 10 {
        seq![digit_char(n)]
    } else {
        decimal(n / 10).push(digit_char(n % 10))
    }
}

/// The decimal rendering of `n`, with a leading `-` when negative.
pub open spec fn signed_decimal(n: int) -> Seq<char> {
    if n < 0 {
        seq!['-'] + decimal((-n) as nat)
    } else {
        decimal(n as nat)
    }
}

fn digit(d: u64) -> (r: char)
    requires
        d < 10,
    ensures
        r == digit_char(d as nat),
{
    if d == 0 {
        '0'
    } else if d == 1 {
        '1'
    } else if d == 2 {
        '2'
    } else if d == 3 {
        '3'
    } else if d == 4 {
        '4'
    } else if d == 5 {
        '5'
    } else if d == 6 {
        '6'
    } else if d == 7 {
        '7'
    } else if d == 8 {
        '8'
    } else {
        '9'
    }
}

/// Append the decimal rendering of `n`.
pub fn push_decimal(out: &mut String, n: u64)
    ensures
        final(out)@ == old(out)@ + decimal(n as nat),
    decreases n,
{
    if n >= 10 {
        push_decimal(out, n / 10);
    }
    push_char(out, digit(n % 10));
    proof {
        if n < 10 {
            assert(old(out)@ + decimal(n as nat) == old(out)@.push(digit_char(n as nat)));
        } else {
            assert((old(out)@ + decimal((n / 10) as nat)).push(digit_char((n % 10) as nat))
                == old(out)@ + decimal(n as nat));
        }
    }
}

/// Append the decimal rendering of `n`, signed.
pub fn push_signed_decimal(out: &mut String, n: i64)
    ensures
        final(out)@ == old(out)@ + signed_decimal(n as int),
{
    if n < 0 {
        push_char(out, '-');
        let magnitude = (0 - (n as i128)) as u64;
        push_decimal(out, magnitude);
        assert(old(out)@.push('-') + decimal(magnitude as nat) == old(out)@ + signed_decimal(n as int));
    } else {
        push_decimal(out, n as u64);
    }
}

} // verus!
