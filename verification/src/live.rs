//! Live microphone classification support: the error of a session that
//! could not start.

use vstd::prelude::*;

use vstd::string::StrSliceExecFns;

use crate::error::SAError;

verus! {

/// Whether `c` is white space in Unicode's sense (the `White_Space`
/// property, as `char::is_whitespace` and `str::trim` use it).
pub open spec fn is_white_space(c: char) -> bool {
    ||| ('\u{9}' <= c <= '\u{d}')
    ||| c == ' '
    ||| c == '\u{85}'
    ||| c == '\u{a0}'
    ||| c == '\u{1680}'
    ||| ('\u{2000}' <= c <= '\u{200a}')
    ||| c == '\u{2028}'
    ||| c == '\u{2029}'
    ||| c == '\u{202f}'
    ||| c == '\u{205f}'
    ||| c == '\u{3000}'
}

/// Whether a text is blank: empty, or white space only.
pub open spec fn is_blank(text: Seq<char>) -> bool {
    forall|i: int| 0 <= i < text.len() ==> is_white_space(#[trigger] text[i])
}

/// The message of a live session that could not start: the bridge's
/// message when it explains something, else a generic one (when the bridge
/// gave none, or only white space).
pub open spec fn start_failure_message(message: Option<String>) -> Seq<char> {
    match message {
        Some(m) => if is_blank(m@) {
            "stream start failed"@
        } else {
            m@
        },
        None => "stream start failed"@,
    }
}

/// Whether `c` is white space (Unicode's `White_Space` property).
fn white_space(c: char) -> (b: bool)
    ensures
        b == is_white_space(c),
{
    ('\u{9}' <= c && c <= '\u{d}') || c == ' ' || c == '\u{85}' || c == '\u{a0}' || c
        == '\u{1680}' || ('\u{2000}' <= c && c <= '\u{200a}') || c == '\u{2028}' || c == '\u{2029}'
        || c == '\u{202f}' || c == '\u{205f}' || c == '\u{3000}'
}

/// Whether a text is empty or white space only.
pub fn blank(text: &str) -> (b: bool)
    ensures
        b == is_blank(text@),
{
    let n = text.unicode_len();
    let mut i: usize = 0;
    while i < n
        invariant
            n == text@.len(),
            i <= n,
            forall|j: int| 0 <= j < i ==> is_white_space(#[trigger] text@[j]),
        decreases n - i,
    {
        if !white_space(text.get_char(i)) {
            assert(!is_white_space(text@[i as int]));
            return false;
        }
        i = i + 1;
    }
    true
}

/// The error of a live session that the bridge could not start. Its
/// message is never blank.
pub fn start_failure(message: Option<String>) -> (e: SAError)
    ensures
        e matches SAError::AnalysisFailed(m) && m@ == start_failure_message(message),
        e matches SAError::AnalysisFailed(m) && !is_blank(m@),
{
    proof {
        reveal_strlit("stream start failed");
        assert(!is_white_space("stream start failed"@[0]));
    }
    match message {
        Some(m) => {
            if blank(m.as_str()) {
                SAError::AnalysisFailed(String::from_str("stream start failed"))
            } else {
                SAError::AnalysisFailed(m)
            }
        },
        None => SAError::AnalysisFailed(String::from_str("stream start failed")),
    }
}

} // verus!
