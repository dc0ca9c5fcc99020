//! Syntactic validation of account identifiers, required before a
//! collaborator-service address is rotated.

use vstd::prelude::*;
use vstd::string::StrSliceExecFns;

verus! {

/// Lowercase letter or digit: what an identifier must begin and end with.
pub open spec fn is_account_alnum(c: char) -> bool {
    ('a' <= c && c <= 'z') || ('0' <= c && c <= '9')
}

pub open spec fn is_account_separator(c: char) -> bool {
    c == '-' || c == '_' || c == '.'
}

pub open spec fn is_account_char(c: char) -> bool {
    is_account_alnum(c) || is_account_separator(c)
}

/// A syntactically valid account identifier: 2 to 64 characters, each a
/// lowercase letter, a digit, `-`, `_` or `.`; it begins and ends with a
/// letter or digit, and no two separators stand next to each other.
pub open spec fn spec_valid_account_id(s: Seq<char>) -> bool {
    &&& 2 <= s.len() <= 64
    &&& forall|i: int| 0 <= i < s.len() ==> is_account_char(#[trigger] s[i])
    &&& is_account_alnum(s[0])
    &&& is_account_alnum(s[s.len() - 1])
    &&& forall|i: int|
        0 <= i < s.len() - 1 ==> !(is_account_separator(#[trigger] s[i]) && is_account_separator(
            s[i + 1],
        ))
}

pub fn is_valid_account_id(id: &String) -> (r: bool)
    ensures
        r == spec_valid_account_id(id@),
{
    let s = id.as_str();
    let n = s.unicode_len();
    if n < 2 || n > 64 {
        return false;
    }
    let mut i: usize = 0;
    while i < n
        invariant
            2 <= n <= 64,
            n == s@.len(),
            s@ == id@,
            i <= n,
            forall|j: int| 0 <= j < i ==> is_account_char(#[trigger] s@[j]),
            i > 0 ==> is_account_alnum(s@[0]),
            i == n ==> is_account_alnum(s@[n - 1]),
            forall|j: int|
                0 <= j < i - 1 ==> !(is_account_separator(#[trigger] s@[j])
                    && is_account_separator(s@[j + 1])),
        decreases n - i,
    {
        let c = s.get_char(i);
        let u = c as u32;
        let alnum = (97 <= u && u <= 122) || (48 <= u && u <= 57);
        let sep = u == 45 || u == 95 || u == 46;
        if !alnum && !sep {
            return false;
        }
        if i == 0 && !alnum {
            return false;
        }
        if i + 1 == n && !alnum {
            return false;
        }
        if sep && i > 0 {
            let p = s.get_char(i - 1);
            let pu = p as u32;
            if pu == 45 || pu == 95 || pu == 46 {
                return false;
            }
        }
        i += 1;
    }
    true
}

} // verus!
