//! Checks on the file paths handed to the bridge: a path must be UTF-8 and
//! must not hold a NUL byte, since the bridge receives it as a C string.

use vstd::prelude::*;

use vstd::string::StringSliceAdditionalSpecFns;

use crate::error::SAError;
use crate::text::{append_decimal, decimal};

verus! {

/// Which path an error message speaks of.
#[derive(Debug, Clone, Copy, PartialEq, Eq, Structural)]
pub enum PathSubject {
    /// The audio file of a one-shot classification.
    Path,
    /// The audio file of an analyzer or of a classification with a model.
    AudioPath,
    /// A Core ML model file.
    ModelPath,
}

/// How an error message introduces a NUL byte.
#[derive(Debug, Clone, Copy, PartialEq, Eq, Structural)]
pub enum NulWording {
    /// `"<subject> NUL byte: ..."`
    NulByte,
    /// `"<subject> NUL: ..."`
    Nul,
}

/// The words for the path in an error message.
pub open spec fn subject_text(subject: PathSubject) -> Seq<char> {
    match subject {
        PathSubject::Path => "path"@,
        PathSubject::AudioPath => "audio path"@,
        PathSubject::ModelPath => "model path"@,
    }
}

/// Whether byte `i` is the first NUL byte of `bytes`.
pub open spec fn is_first_nul(bytes: Seq<u8>, i: int) -> bool {
    &&& 0 <= i < bytes.len()
    &&& bytes[i] == 0
    &&& forall|j: int| 0 <= j < i ==> bytes[j] != 0
}

/// Whether `bytes` holds a NUL byte.
pub open spec fn has_nul(bytes: Seq<u8>) -> bool {
    exists|i: int| 0 <= i < bytes.len() && bytes[i] == 0
}

/// The position of the first NUL byte of `bytes` (meaningful when there is one).
pub open spec fn first_nul(bytes: Seq<u8>) -> int {
    choose|i: int| is_first_nul(bytes, i)
}

/// The text of the error that a C-string conversion reports for a NUL byte
/// at byte position `pos`.
pub open spec fn nul_error_text(pos: nat) -> Seq<char> {
    "nul byte found in provided data at position: "@ + decimal(pos)
}

/// The message for a path that is not UTF-8.
pub open spec fn non_utf8_message(subject: PathSubject) -> Seq<char> {
    "non-UTF-8 "@ + subject_text(subject)
}

/// The message for a path whose first NUL byte is at `pos`.
pub open spec fn nul_message(subject: PathSubject, wording: NulWording, pos: nat) -> Seq<char> {
    subject_text(subject) + match wording {
        NulWording::NulByte => " NUL byte: "@,
        NulWording::Nul => " NUL: "@,
    } + nul_error_text(pos)
}

/// The message of the error for a path that is UTF-8 (its text is `path`)
/// but holds a NUL byte; `None` when it holds none.
pub open spec fn nul_problem(path: &str, subject: PathSubject, wording: NulWording) -> Option<
    Seq<char>,
> {
    if has_nul(path.spec_bytes()) {
        Some(nul_message(subject, wording, first_nul(path.spec_bytes()) as nat))
    } else {
        None
    }
}

/// The message of the error for a path, `None` standing for a path that is
/// not UTF-8; `None` when the path is accepted.
pub open spec fn path_problem(path: Option<&str>, subject: PathSubject, wording: NulWording) -> Option<
    Seq<char>,
> {
    match path {
        None => Some(non_utf8_message(subject)),
        Some(p) => nul_problem(p, subject, wording),
    }
}

/// Whether `r` is the error `InvalidArgument` with the message `m`.
pub open spec fn is_invalid_argument<T>(r: Result<T, SAError>, m: Seq<char>) -> bool {
    r matches Err(SAError::InvalidArgument(e)) && e@ == m
}

/// A UTF-8 path is accepted exactly when no byte of it is NUL, whatever
/// else it holds (relative or absolute); a path that is not UTF-8 is always
/// refused; a refused UTF-8 path is refused for its first NUL byte.
pub proof fn lemma_path_accepted_iff_nul_free(
    path: &str,
    subject: PathSubject,
    wording: NulWording,
)
    ensures
        path_problem(Some(path), subject, wording) is None <==> (forall|i: int|
            0 <= i < path.spec_bytes().len() ==> path.spec_bytes()[i] != 0),
        path_problem(None, subject, wording) == Some(non_utf8_message(subject)),
        forall|i: int|
            is_first_nul(path.spec_bytes(), i) ==> path_problem(Some(path), subject, wording)
                == Some(nul_message(subject, wording, i as nat)),
{
    assert forall|i: int| is_first_nul(path.spec_bytes(), i) implies path_problem(
        Some(path),
        subject,
        wording,
    ) == Some(nul_message(subject, wording, i as nat)) by {
        lemma_first_nul_is_chosen(path.spec_bytes(), i);
    }
}

/// The first NUL byte of a string, by byte position.
pub fn first_nul_byte(text: &str) -> (pos: Option<usize>)
    ensures
        match pos {
            Some(i) => is_first_nul(text.spec_bytes(), i as int),
            None => !has_nul(text.spec_bytes()),
        },
{
    let bytes = text.as_bytes();
    let n = bytes.len();
    let mut i: usize = 0;
    while i < n
        invariant
            n == bytes@.len(),
            bytes@ == text.spec_bytes(),
            i <= n,
            forall|j: int| 0 <= j < i ==> bytes@[j] != 0,
        decreases n - i,
    {
        if bytes[i] == 0 {
            return Some(i);
        }
        i = i + 1;
    }
    None
}

/// The first NUL byte is the one that `first_nul` names.
proof fn lemma_first_nul_is_chosen(bytes: Seq<u8>, i: int)
    requires
        is_first_nul(bytes, i),
    ensures
        has_nul(bytes),
        first_nul(bytes) == i,
{
    let k = first_nul(bytes);
    assert(is_first_nul(bytes, k));
    if k < i {
        assert(bytes[k] != 0);
    } else if i < k {
        assert(bytes[i] != 0);
    }
}

/// Appends the words for `subject` to `out`.
fn append_subject(out: &mut String, subject: PathSubject)
    ensures
        final(out)@ == old(out)@ + subject_text(subject),
{
    match subject {
        PathSubject::Path => out.append("path"),
        PathSubject::AudioPath => out.append("audio path"),
        PathSubject::ModelPath => out.append("model path"),
    }
}

/// The message for a path whose first NUL byte is at `pos`.
fn nul_message_text(subject: PathSubject, wording: NulWording, pos: usize) -> (m: String)
    ensures
        m@ == nul_message(subject, wording, pos as nat),
{
    let mut out = String::new();
    append_subject(&mut out, subject);
    match wording {
        NulWording::NulByte => out.append(" NUL byte: "),
        NulWording::Nul => out.append(" NUL: "),
    }
    out.append("nul byte found in provided data at position: ");
    append_decimal(&mut out, pos as u64);
    assert(out@ =~= nul_message(subject, wording, pos as nat));
    out
}

/// The message for a path that is not UTF-8.
fn non_utf8_text(subject: PathSubject) -> (m: String)
    ensures
        m@ == non_utf8_message(subject),
{
    let mut out = String::from_str("non-UTF-8 ");
    append_subject(&mut out, subject);
    out
}

/// Checks a UTF-8 path for NUL bytes.
pub fn check_nul_free(path: &str, subject: PathSubject, wording: NulWording) -> (r: Result<
    (),
    SAError,
>)
    ensures
        match nul_problem(path, subject, wording) {
            None => r is Ok,
            Some(m) => is_invalid_argument(r, m),
        },
{
    match first_nul_byte(path) {
        Some(pos) => {
            proof {
                lemma_first_nul_is_chosen(path.spec_bytes(), pos as int);
            }
            Err(SAError::InvalidArgument(nul_message_text(subject, wording, pos)))
        },
        None => Ok(()),
    }
}

/// Checks a path before it goes to the bridge. `path` is the path's text,
/// or `None` when the path is not valid UTF-8. The accepted path comes back
/// unchanged.
pub fn checked_path<'a>(path: Option<&'a str>, subject: PathSubject, wording: NulWording) -> (r:
    Result<&'a str, SAError>)
    ensures
        match path_problem(path, subject, wording) {
            None => r == Ok::<&'a str, SAError>(path.unwrap()),
            Some(m) => is_invalid_argument(r, m),
        },
{
    match path {
        None => Err(SAError::InvalidArgument(non_utf8_text(subject))),
        Some(p) => match check_nul_free(p, subject, wording) {
            Ok(()) => Ok(p),
            Err(e) => Err(e),
        },
    }
}

/// Checks the audio and model paths of a classification with a custom
/// model: first that both are UTF-8 (audio first), then that neither holds
/// a NUL byte (audio first).
pub fn checked_audio_and_model_paths<'a, 'b>(audio: Option<&'a str>, model: Option<&'b str>) -> (r:
    Result<(&'a str, &'b str), SAError>)
    ensures
        audio is None ==> is_invalid_argument(r, non_utf8_message(PathSubject::AudioPath)),
        audio is Some && model is None ==> is_invalid_argument(
            r,
            non_utf8_message(PathSubject::ModelPath),
        ),
        audio is Some && model is Some ==> match nul_problem(
            audio.unwrap(),
            PathSubject::AudioPath,
            NulWording::Nul,
        ) {
            Some(m) => is_invalid_argument(r, m),
            None => match nul_problem(model.unwrap(), PathSubject::ModelPath, NulWording::Nul) {
                Some(m) => is_invalid_argument(r, m),
                None => r == Ok::<(&'a str, &'b str), SAError>((audio.unwrap(), model.unwrap())),
            },
        },
{
    let a = match audio {
        Some(a) => a,
        None => {
            return Err(SAError::InvalidArgument(non_utf8_text(PathSubject::AudioPath)));
        },
    };
    let m = match model {
        Some(m) => m,
        None => {
            return Err(SAError::InvalidArgument(non_utf8_text(PathSubject::ModelPath)));
        },
    };
    match check_nul_free(a, PathSubject::AudioPath, NulWording::Nul) {
        Ok(()) => {},
        Err(e) => {
            return Err(e);
        },
    }
    match check_nul_free(m, PathSubject::ModelPath, NulWording::Nul) {
        Ok(()) => {},
        Err(e) => {
            return Err(e);
        },
    }
    Ok((a, m))
}

} // verus!
