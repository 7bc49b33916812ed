use vstd::prelude::*;

verus! {

/// What `str::trim_end` leaves of a string.
pub uninterp spec fn trimmed_end_of(s: Seq<char>) -> Seq<char>;

/// What `str::to_lowercase` makes of a string.
pub uninterp spec fn lowercase_of(s: Seq<char>) -> Seq<char>;

/// Relies on `str::trim_end`: the string without its trailing whitespace,
/// which is a prefix of the string.
#[verifier::external_body]
fn trim_end(s: &str) -> (r: String)
    ensures
        r@ == trimmed_end_of(s@),
        r@ == s@.subrange(0, r@.len() as int),
{
    s.trim_end().to_string()
}

/// Relies on `str::to_lowercase`: the lowercase mapping of each character.
#[verifier::external_body]
fn to_lowercase(s: &str) -> (r: String)
    ensures
        r@ == lowercase_of(s@),
{
    s.to_lowercase()
}

/// A normalized reply that refuses to overwrite an existing directory.
pub open spec fn declines(normalized: Seq<char>) -> bool {
    normalized == seq!['n']
}

/// The normalized form of what the user typed: trailing whitespace removed,
/// then lowercased.
pub open spec fn normalized_reply(reply: Seq<char>) -> Seq<char> {
    lowercase_of(trimmed_end_of(reply))
}

/// Normalizes a line typed at the overwrite prompt.
pub fn normalize_reply(reply: &str) -> (r: String)
    ensures
        r@ == normalized_reply(reply@),
{
    let trimmed = trim_end(reply);
    to_lowercase(trimmed.as_str())
}

/// Tells whether a normalized reply refuses the overwrite: only the exact
/// answer `n` does.
pub fn is_decline(normalized: &str) -> (r: bool)
    ensures
        r == declines(normalized@),
{
    if normalized.unicode_len() != 1 {
        return false;
    }
    let c = normalized.get_char(0);
    if c == 'n' {
        assert(normalized@ =~= seq!['n']);
        true
    } else {
        false
    }
}

} // verus!
