//! Cleaning of raw text read from a data source.
use vstd::prelude::*;
use vstd::string::*;

verus! {

/// Whether `s` ends with a newline.
pub open spec fn ends_with_newline(s: Seq<char>) -> bool {
    s.len() > 0 && s.last() == '\n'
}

/// `s` with one trailing newline removed, if it has one.
pub open spec fn normalized(s: Seq<char>) -> Seq<char> {
    if ends_with_newline(s) {
        s.drop_last()
    } else {
        s
    }
}

/// Removes a single trailing newline from `s`; any other text is returned as it is.
pub fn pop_newline(s: String) -> (r: String)
    ensures
        r@ == normalized(s@),
{
    let n = s.as_str().unicode_len();
    if n > 0 && s.as_str().get_char(n - 1) == '\n' {
        String::from_str(s.as_str().substring_char(0, n - 1))
    } else {
        s
    }
}

/// Stripping a newline leaves text without one untouched, undoes one appended
/// newline, and never takes away more than one.
pub proof fn lemma_pop_newline_laws(s: Seq<char>)
    ensures
        !ends_with_newline(s) ==> normalized(s) == s,
        normalized(s.push('\n')) == s,
        normalized(s + seq!['\n', '\n']) == s.push('\n'),
{
    assert(s.push('\n').drop_last() =~= s);
    assert((s + seq!['\n', '\n']).drop_last() =~= s.push('\n'));
}

/// The text `str::trim` leaves of `s`: `s` without leading and trailing whitespace.
pub uninterp spec fn trimmed(s: Seq<char>) -> Seq<char>;

/// Relies on `str::trim`: removes the leading and trailing whitespace of `s`.
#[verifier::external_body]
pub(crate) fn trim(s: &str) -> (r: String)
    ensures
        r@ == trimmed(s@),
{
    s.trim().to_string()
}

} // verus!
