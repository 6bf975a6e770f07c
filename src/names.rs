use vstd::prelude::*;
use crate::error::LifeError;

verus! {

/// What `str::trim` leaves of `s`.
pub uninterp spec fn trim_of(s: Seq<char>) -> Seq<char>;

/// Relies on std's `str::trim`: strips leading and trailing Unicode white space;
/// the result depends on the characters alone.
#[verifier::external_body]
pub(crate) fn trim(s: &str) -> (r: String)
    ensures
        r@ == trim_of(s@),
{
    s.trim().to_string()
}

/// An ASCII letter, an ASCII digit, or a space.
pub open spec fn is_name_char(c: char) -> bool {
    ('a' <= c && c <= 'z') || ('A' <= c && c <= 'Z') || ('0' <= c && c <= '9') || c == ' '
}

/// Why `name` is not an acceptable person name, if it is not.
pub open spec fn name_error(name: Seq<char>) -> Option<LifeError> {
    if name.len() == 0 || name.len() >= 256 {
        Some(LifeError::InvalidNameSize)
    } else if exists|i: int| 0 <= i < name.len() && !is_name_char(#[trigger] name[i]) {
        Some(LifeError::IllegalCharacter)
    } else {
        None
    }
}

/// Checks a (trimmed) name: 1 to 255 characters, each ASCII alphanumeric or a space.
pub fn validate_name(name: &str) -> (r: Result<(), LifeError>)
    ensures
        r == (match name_error(name@) {
            Some(e) => Err(e),
            None => Ok(()),
        }),
{
    let n = name.unicode_len();
    if n == 0 || n >= 256 {
        return Err(LifeError::InvalidNameSize);
    }
    let mut i: usize = 0;
    while i < n
        invariant
            n == name@.len(),
            0 < n < 256,
            i <= n,
            forall|j: int| 0 <= j < i ==> is_name_char(#[trigger] name@[j]),
        decreases n - i,
    {
        let c = name.get_char(i);
        if !(('a' <= c && c <= 'z') || ('A' <= c && c <= 'Z') || ('0' <= c && c <= '9') || c
            == ' ') {
            return Err(LifeError::IllegalCharacter);
        }
        i = i + 1;
    }
    Ok(())
}

} // verus!
