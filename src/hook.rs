//! The prompt-submit hook protocol: recognising the trigger prompt, checking
//! the raw input, and the text written back to the host.

use crate::text::{blank, decimal, is_blank, leading_blank_count, push_decimal, starts_with_trigger};
use vstd::prelude::*;

verus! {

/// The most input read from the host, in bytes; reading this much means
/// the input was cut off.
pub const MAX_INPUT_SIZE: usize = 102400;

/// What the host sends when a prompt is submitted.
#[derive(Debug)]
pub struct HookInput {
    pub session_id: String,
    pub hook_event_name: String,
    pub user_prompt: String,
    pub permission_mode: String,
}

/// The structured reply to the host.
#[derive(Debug)]
pub struct HookOutput {
    pub hook_specific_output: HookSpecificOutput,
}

#[derive(Debug)]
pub struct HookSpecificOutput {
    pub hook_event_name: String,
    pub additional_context: String,
}

/// Whether a prompt asks for the input helper: after leading white space
/// it begins with `//`.
pub fn is_trigger(prompt: &str) -> (r: bool)
    ensures
        r == starts_with_trigger(prompt@),
{
    let k = leading_blank_count(prompt);
    let n = prompt.unicode_len();
    if n - k < 2 {
        return false;
    }
    let rest = prompt.substring_char(k, n);
    rest.get_char(0) == '/' && rest.get_char(1) == '/'
}

pub open spec fn output_header() -> Seq<char> {
    "[User's actual request from input helper]:\n"@
}

/// The plain text written to the host for `text`: a header line, the text,
/// and a line end.
pub open spec fn hook_output(text: Seq<char>) -> Seq<char> {
    output_header() + text + "\n"@
}

/// The text written to the host for `text`.
pub fn hook_output_text(text: &str) -> (r: String)
    ensures
        r@ == hook_output(text@),
{
    let mut out = String::from_str("[User's actual request from input helper]:\n");
    out.append(text);
    out.append("\n");
    out
}

pub open spec fn input_too_large_message() -> Seq<char> {
    "Input too large (max "@ + decimal(MAX_INPUT_SIZE as nat) + " bytes)"@
}

pub open spec fn no_input_message() -> Seq<char> {
    "No input received from stdin"@
}

/// Check the raw input read from the host before it is parsed: reading the
/// whole limit means it was too large; blank input is missing input.
pub fn check_hook_input(bytes_read: usize, input: &str) -> (r: Result<(), String>)
    ensures
        bytes_read >= MAX_INPUT_SIZE ==> (r matches Err(e) && e@ == input_too_large_message()),
        bytes_read < MAX_INPUT_SIZE && blank(input@) ==> (r matches Err(e) && e@ == no_input_message()),
        bytes_read < MAX_INPUT_SIZE && !blank(input@) ==> r is Ok,
{
    if bytes_read >= MAX_INPUT_SIZE {
        let mut e = String::from_str("Input too large (max ");
        push_decimal(&mut e, MAX_INPUT_SIZE as u64);
        e.append(" bytes)");
        return Err(e);
    }
    if is_blank(input) {
        return Err(String::from_str("No input received from stdin"));
    }
    Ok(())
}

pub open spec fn clipboard_empty_message() -> Seq<char> {
    "Clipboard is empty"@
}

/// The reply built from what was read from the clipboard: a read error is
/// passed on, blank content is an error, other content is wrapped as
/// `hook_output`.
pub fn write_hook_output_from_clipboard(clipboard: Result<String, String>) -> (r: Result<
    String,
    String,
>)
    ensures
        clipboard matches Err(e) ==> r == Err::<String, String>(e),
        clipboard matches Ok(t) ==> (if blank(t@) {
            r matches Err(e) && e@ == clipboard_empty_message()
        } else {
            r matches Ok(o) && o@ == hook_output(t@)
        }),
{
    match clipboard {
        Err(e) => Err(e),
        Ok(text) => {
            if is_blank(text.as_str()) {
                Err(String::from_str("Clipboard is empty"))
            } else {
                Ok(hook_output_text(text.as_str()))
            }
        },
    }
}

} // verus!
