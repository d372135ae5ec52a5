use vstd::prelude::*;

use crate::error::AppError;
use crate::error::Resultish;
use crate::game::WORD_LENGTH;

verus! {

/// Lowercase ASCII letter.
pub open spec fn is_ascii_lower(c: char) -> bool {
    'a' <= c && c <= 'z'
}

/// Uppercase ASCII letter.
pub open spec fn is_ascii_upper(c: char) -> bool {
    'A' <= c && c <= 'Z'
}

/// ASCII letter of either case; everything else is dropped by sanitization.
pub open spec fn is_ascii_letter(c: char) -> bool {
    is_ascii_lower(c) || is_ascii_upper(c)
}

/// ASCII character.
pub open spec fn is_ascii_char(c: char) -> bool {
    c as u32 <= 127
}

/// Every character of the sequence is ASCII.
pub open spec fn all_ascii(s: Seq<char>) -> bool {
    forall|i: int| 0 <= i < s.len() ==> is_ascii_char(#[trigger] s[i])
}

/// Uppercase counterpart of an ASCII letter; other characters are unchanged.
pub open spec fn to_upper(c: char) -> char {
    if is_ascii_lower(c) {
        (c as u32 - 32) as char
    } else {
        c
    }
}

/// What Unicode uppercasing (`str::to_uppercase`) returns. The full mapping
/// depends on the characters of the input alone, so it gets a name here; what
/// the contracts need of it is stated where the call is made.
pub uninterp spec fn upper_of(s: Seq<char>) -> Seq<char>;

/// The ASCII letters of the sequence, in order; everything else dropped.
pub open spec fn keep_ascii_letters(s: Seq<char>) -> Seq<char>
    decreases s.len(),
{
    if s.len() == 0 {
        Seq::<char>::empty()
    } else {
        let rest = keep_ascii_letters(s.drop_last());
        if is_ascii_letter(s.last()) {
            rest.push(s.last())
        } else {
            rest
        }
    }
}

/// What sanitization produces: the input is Unicode-uppercased first, then
/// every ASCII letter of the result is kept, in order; all other characters
/// (whitespace, digits, anything non-ASCII) are dropped.
pub open spec fn spec_sanitize(s: Seq<char>) -> Seq<char> {
    keep_ascii_letters(upper_of(s))
}

/// The sanitization pipeline on ASCII input, where uppercasing is the plain
/// a-to-z map: [`sanitize_word`] guarantees that [`spec_sanitize`] agrees
/// with this on every all-ASCII input.
pub open spec fn spec_sanitize_ascii(s: Seq<char>) -> Seq<char> {
    keep_ascii_letters(s.map_values(|c: char| to_upper(c)))
}

/// Every character of the sequence is an uppercase ASCII letter.
pub open spec fn all_upper_letters(s: Seq<char>) -> bool {
    forall|i: int| 0 <= i < s.len() ==> is_ascii_upper(#[trigger] s[i])
}

fn is_letter(c: char) -> (r: bool)
    ensures
        r == is_ascii_letter(c),
{
    ('a' <= c && c <= 'z') || ('A' <= c && c <= 'Z')
}

/// Relies on str::to_uppercase: the result is a function of the characters
/// of the input alone, named `upper_of`; on all-ASCII input it maps the
/// letters a-z to A-Z and leaves every other character unchanged.
#[verifier::external_body]
fn to_upper_string(s: &str) -> (r: String)
    ensures
        r@ == upper_of(s@),
        all_ascii(s@) ==> r@ == s@.map_values(|c: char| to_upper(c)),
{
    s.to_uppercase()
}

/// Relies on String::push: appends the given character to the end of the string.
#[verifier::external_body]
fn push_char(s: &mut String, c: char)
    ensures
        final(s)@ == old(s)@.push(c),
{
    s.push(c)
}

/// Clean a raw word: uppercase it, keep its ASCII letters, and accept the
/// result only if exactly `WORD_LENGTH` letters remain.
pub fn sanitize_word(word: &str) -> (r: Resultish<String>)
    ensures
        match r {
            Ok(s) => spec_sanitize(word@).len() == WORD_LENGTH && s@ == spec_sanitize(word@),
            Err(e) => spec_sanitize(word@).len() != WORD_LENGTH && e.message_spec()
                == length_error_message(),
        },
        all_ascii(word@) ==> spec_sanitize(word@) == spec_sanitize_ascii(word@),
{
    let up = to_upper_string(word);
    let n = up.as_str().unicode_len();
    let mut out = String::new();
    let mut i: usize = 0;
    while i < n
        invariant
            i <= n,
            n == up@.len(),
            up@ == upper_of(word@),
            all_ascii(word@) ==> up@ == word@.map_values(|c: char| to_upper(c)),
            out@ == keep_ascii_letters(up@.take(i as int)),
        decreases n - i,
    {
        let c = up.as_str().get_char(i);
        proof {
            assert(up@.take(i + 1).drop_last() =~= up@.take(i as int));
            assert(up@.take(i + 1).last() == up@[i as int]);
        }
        if is_letter(c) {
            push_char(&mut out, c);
        }
        i = i + 1;
    }
    proof {
        assert(up@.take(n as int) =~= up@);
    }
    if out.unicode_len() != WORD_LENGTH {
        Err(AppError::new("the word must contain exactly 5 letters".to_owned()))
    } else {
        Ok(out)
    }
}

/// The message carried by the error that [`sanitize_word`] returns when the
/// cleaned word does not have exactly `WORD_LENGTH` letters.
pub open spec fn length_error_message() -> Seq<char> {
    "the word must contain exactly 5 letters"@
}

proof fn lemma_keep_letters_upper(t: Seq<char>)
    requires
        forall|i: int| 0 <= i < t.len() && is_ascii_letter(#[trigger] t[i]) ==> is_ascii_upper(
            t[i],
        ),
    ensures
        all_upper_letters(keep_ascii_letters(t)),
    decreases t.len(),
{
    if t.len() != 0 {
        assert(forall|i: int| 0 <= i < t.drop_last().len() ==> t.drop_last()[i] == t[i]);
        lemma_keep_letters_upper(t.drop_last());
    }
}

proof fn lemma_keep_identity_on_upper(s: Seq<char>)
    requires
        all_upper_letters(s),
    ensures
        keep_ascii_letters(s) == s,
    decreases s.len(),
{
    if s.len() == 0 {
        assert(keep_ascii_letters(s) =~= s);
    } else {
        lemma_keep_identity_on_upper(s.drop_last());
        assert(s.drop_last().push(s.last()) =~= s);
    }
}

proof fn lemma_sanitize_ascii_upper(s: Seq<char>)
    ensures
        all_upper_letters(spec_sanitize_ascii(s)),
{
    let t = s.map_values(|c: char| to_upper(c));
    assert(forall|i: int| 0 <= i < t.len() && is_ascii_letter(#[trigger] t[i]) ==> is_ascii_upper(
        t[i],
    ));
    lemma_keep_letters_upper(t);
}

/// A word made of uppercase ASCII letters — the shape sanitization yields —
/// passes through sanitization unchanged.
pub proof fn lemma_sanitize_fixed_on_upper(s: Seq<char>)
    requires
        all_upper_letters(s),
    ensures
        spec_sanitize_ascii(s) == s,
{
    assert(s.map_values(|c: char| to_upper(c)) =~= s);
    lemma_keep_identity_on_upper(s);
}

/// Sanitizing is idempotent: a word that sanitization produced passes through
/// sanitization unchanged. Stated over the ASCII pipeline, with which
/// [`sanitize_word`] guarantees the full pipeline agrees on all-ASCII input;
/// on wider Unicode input the uppercasing step is only named, not pinned, so
/// the law is not stated there.
pub proof fn lemma_sanitize_idempotent(s: Seq<char>)
    ensures
        spec_sanitize_ascii(spec_sanitize_ascii(s)) == spec_sanitize_ascii(s),
{
    lemma_sanitize_ascii_upper(s);
    lemma_sanitize_fixed_on_upper(spec_sanitize_ascii(s));
}

} // verus!
