//! Character-level helpers over std's Unicode routines.

use vstd::prelude::*;

verus! {

/// What `char::is_alphanumeric` answers for a character.
pub uninterp spec fn alnum(c: char) -> bool;

/// What `str::to_lowercase` returns for a string.
pub uninterp spec fn lower_of(s: Seq<char>) -> Seq<char>;

/// What `str::to_uppercase` returns for a string.
pub uninterp spec fn upper_of(s: Seq<char>) -> Seq<char>;

/// What `str::trim` returns for a string.
pub uninterp spec fn trim_of(s: Seq<char>) -> Seq<char>;

/// Relies on `char::is_alphanumeric`: Unicode `Alphabetic` or `Numeric`.
#[verifier::external_body]
pub(crate) fn is_alphanumeric(c: char) -> (r: bool)
    ensures
        r == alnum(c),
{
    c.is_alphanumeric()
}

/// Relies on `str::to_lowercase`: the lowercase mapping of every character.
#[verifier::external_body]
pub(crate) fn lowercase(s: &str) -> (r: String)
    ensures
        r@ == lower_of(s@),
        s@.len() == 0 ==> r@.len() == 0,
{
    s.to_lowercase()
}

/// Relies on `str::to_uppercase`: the uppercase mapping of every character.
#[verifier::external_body]
pub(crate) fn uppercase(s: &str) -> (r: String)
    ensures
        r@ == upper_of(s@),
        s@.len() == 0 ==> r@.len() == 0,
{
    s.to_uppercase()
}

/// Relies on `str::trim`: leading and trailing white space removed.
#[verifier::external_body]
pub(crate) fn trim(s: &str) -> (r: &str)
    ensures
        r@ == trim_of(s@),
{
    s.trim()
}

/// Relies on `String::push`: the character is appended at the end.
#[verifier::external_body]
pub(crate) fn push_char(s: &mut String, c: char)
    ensures
        final(s)@ == old(s)@.push(c),
{
    s.push(c)
}

/// A character that a tenant name keeps when it becomes a file key.
pub open spec fn is_name_char(c: char) -> bool {
    alnum(c) || c == '_'
}

/// The characters of `s` that a tenant name keeps, in order.
pub open spec fn kept_chars(s: Seq<char>) -> Seq<char>
    decreases s.len(),
{
    if s.len() == 0 {
        Seq::empty()
    } else if is_name_char(s.last()) {
        kept_chars(s.drop_last()).push(s.last())
    } else {
        kept_chars(s.drop_last())
    }
}

/// The sanitized form of a tenant name: name characters kept, then lower-cased.
pub open spec fn sanitized(s: Seq<char>) -> Seq<char> {
    lower_of(kept_chars(s))
}

/// Keeps the alphanumeric characters and underscores of `name`, in order.
pub fn retain_name_chars(name: &str) -> (r: String)
    ensures
        r@ == kept_chars(name@),
{
    let n = name.unicode_len();
    let mut out = String::new();
    let mut i: usize = 0;
    while i < n
        invariant
            n == name@.len(),
            i <= n,
            out@ == kept_chars(name@.subrange(0, i as int)),
        decreases n - i,
    {
        let c = name.get_char(i);
        let keep = is_alphanumeric(c) || c == '_';
        proof {
            let pre = name@.subrange(0, i as int + 1);
            assert(pre.drop_last() =~= name@.subrange(0, i as int));
            assert(pre.last() == c);
        }
        if keep {
            push_char(&mut out, c);
        }
        i = i + 1;
    }
    proof {
        assert(name@.subrange(0, n as int) =~= name@);
    }
    out
}

/// The file-system key of a tenant name: alphanumerics and underscores,
/// lower-cased.
pub fn sanitize_name(name: &str) -> (r: String)
    ensures
        r@ == sanitized(name@),
{
    let kept = retain_name_chars(name);
    lowercase(kept.as_str())
}

} // verus!
