//! Small helpers on text.

use vstd::prelude::*;
use vstd::string::*;

verus! {

/// Whether two pieces of text hold the same characters.
pub fn same_text(a: &str, b: &str) -> (r: bool)
    ensures
        r == (a@ == b@),
{
    let left = String::from_str(a);
    let right = String::from_str(b);
    left == right
}

/// Whether two optional pieces of text are both absent or hold the same
/// characters.
pub fn same_optional_text(a: &Option<String>, b: &Option<String>) -> (r: bool)
    ensures
        r == (optional_text(*a) == optional_text(*b)),
{
    match (a, b) {
        (Some(x), Some(y)) => same_text(x.as_str(), y.as_str()),
        (None, None) => true,
        _ => false,
    }
}

/// The characters of an optional piece of text.
pub open spec fn optional_text(text: Option<String>) -> Option<Seq<char>> {
    match text {
        Some(t) => Some(t@),
        None => None,
    }
}

/// A copy of an optional piece of text.
pub fn copy_optional_text(text: &Option<String>) -> (r: Option<String>)
    ensures
        optional_text(r) == optional_text(*text),
{
    match text {
        Some(t) => Some(t.clone()),
        None => None,
    }
}

} // verus!

verus! {

/// True when `p` is the place of the one `@` of the text.
pub open spec fn sole_at(text: Seq<char>, p: int) -> bool {
    &&& 0 <= p < text.len()
    &&& text[p] == '@'
    &&& forall|j: int| 0 <= j < text.len() && j != p ==> text[j] != '@'
}

/// The domain of an email address: what follows its one `@`. An address
/// with no `@`, or with more than one, has none.
pub open spec fn mail_domain(email: Seq<char>) -> Option<Seq<char>> {
    if exists|p: int| sole_at(email, p) {
        let p = choose|p: int| sole_at(email, p);
        Some(email.subrange(p + 1, email.len() as int))
    } else {
        None
    }
}

/// Cuts the domain out of an email address.
pub fn domain_of(email: &str) -> (r: Option<String>)
    ensures
        optional_text(r) == mail_domain(email@),
{
    let n = email.unicode_len();
    let mut found: Option<usize> = None;
    let mut i: usize = 0;
    while i < n
        invariant
            i <= n,
            n == email@.len(),
            match found {
                Some(p) => p < i && email@[p as int] == '@' && forall|j: int|
                    0 <= j < i && j != p ==> email@[j] != '@',
                None => forall|j: int| 0 <= j < i ==> email@[j] != '@',
            },
        decreases n - i,
    {
        if email.get_char(i) == '@' {
            if let Some(p) = found {
                proof {
                    assert forall|q: int| !sole_at(email@, q) by {
                        if sole_at(email@, q) {
                            if q == p {
                                assert(email@[i as int] != '@');
                            } else {
                                assert(email@[p as int] != '@');
                            }
                        }
                    }
                }
                return None;
            }
            found = Some(i);
        }
        i += 1;
    }
    match found {
        Some(p) => {
            proof {
                assert(sole_at(email@, p as int));
                let q = choose|q: int| sole_at(email@, q);
                assert(q == p);
            }
            Some(String::from_str(email.substring_char(p + 1, n)))
        },
        None => None,
    }
}

} // verus!
