//! The question before anything is changed: does the user's answer confirm?

use vstd::prelude::*;
use vstd::string::*;

verus! {

/// The characters with the Unicode property White_Space.
pub open spec fn is_space(c: char) -> bool {
    let n = c as u32;
    ||| 0x09 <= n <= 0x0d
    ||| n == 0x20
    ||| n == 0x85
    ||| n == 0xa0
    ||| n == 0x1680
    ||| 0x2000 <= n <= 0x200a
    ||| n == 0x2028
    ||| n == 0x2029
    ||| n == 0x202f
    ||| n == 0x205f
    ||| n == 0x3000
}

/// A text without the white space at its start.
pub open spec fn trim_start(text: Seq<char>) -> Seq<char>
    decreases text.len(),
{
    if text.len() > 0 && is_space(text[0]) {
        trim_start(text.drop_first())
    } else {
        text
    }
}

/// A text without the white space at its end.
pub open spec fn trim_end(text: Seq<char>) -> Seq<char>
    decreases text.len(),
{
    if text.len() > 0 && is_space(text.last()) {
        trim_end(text.drop_last())
    } else {
        text
    }
}

/// A text without the white space at both ends.
pub open spec fn trimmed(text: Seq<char>) -> Seq<char> {
    trim_end(trim_start(text))
}

/// An answer confirms when, white space at its ends aside, it is exactly
/// `y` or `yes`, in lower case.
pub open spec fn confirms(answer: Seq<char>) -> bool {
    trimmed(answer) == "y"@ || trimmed(answer) == "yes"@
}

/// Calls `str::trim`.
///
/// Trusted: the result is taken to be `text` without its leading and
/// trailing characters of the Unicode property White_Space.
#[verifier::external_body]
fn trim(text: &str) -> (r: &str)
    ensures
        r@ == trimmed(text@),
{
    text.trim()
}

/// Whether a line typed by the user confirms the plan.
pub fn confirmed(answer: &str) -> (r: bool)
    ensures
        r == confirms(answer@),
{
    let given = String::from_str(trim(answer));
    let short = String::from_str("y");
    let long = String::from_str("yes");
    given == short || given == long
}

/// An answer with no white space at either end is taken as it stands: it
/// confirms exactly when it is `y` or `yes`.
pub proof fn lemma_plain_answer(answer: Seq<char>)
    requires
        answer.len() > 0 ==> !is_space(answer[0]) && !is_space(answer.last()),
    ensures
        trimmed(answer) == answer,
        confirms(answer) <==> (answer == "y"@ || answer == "yes"@),
{
}

} // verus!
