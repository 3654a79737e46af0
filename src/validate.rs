use vstd::prelude::*;
use vstd::string::StrSliceExecFns;

verus! {

pub open spec fn is_ascii_alpha(c: char) -> bool {
    ('a' <= c && c <= 'z') || ('A' <= c && c <= 'Z')
}

pub open spec fn is_ascii_alnum(c: char) -> bool {
    is_ascii_alpha(c) || ('0' <= c && c <= '9')
}

/// Characters allowed in a username and in each part of an email.
pub open spec fn is_allowed_char(c: char) -> bool {
    is_ascii_alnum(c) || c == ',' || c == '.' || c == '_' || c == '+' || c == '-' || c == '('
        || c == ')' || c == '[' || c == ']' || c == '{' || c == '}' || c == '|'
}

/// Non-empty, starts with an ASCII letter, and holds allowed characters only.
pub open spec fn username_well_formed(s: Seq<char>) -> bool {
    &&& s.len() > 0
    &&& is_ascii_alpha(s[0])
    &&& forall|i: int| 0 <= i < s.len() ==> is_allowed_char(#[trigger] s[i])
}

/// Starts with an ASCII letter and is split by exactly one `@` into two
/// non-empty parts made of allowed characters.
pub open spec fn email_well_formed(s: Seq<char>) -> bool {
    &&& s.len() > 0
    &&& is_ascii_alpha(s[0])
    &&& exists|k: int|
        #![trigger s[k]]
        0 < k < s.len() - 1 && s[k] == '@' && forall|i: int|
            0 <= i < s.len() && i != k ==> is_allowed_char(#[trigger] s[i])
}

pub fn char_is_ascii_alpha(c: char) -> (r: bool)
    ensures
        r == is_ascii_alpha(c),
{
    ('a' <= c && c <= 'z') || ('A' <= c && c <= 'Z')
}

pub fn char_is_allowed(c: char) -> (r: bool)
    ensures
        r == is_allowed_char(c),
{
    char_is_ascii_alpha(c) || ('0' <= c && c <= '9') || c == ',' || c == '.' || c == '_' || c
        == '+' || c == '-' || c == '(' || c == ')' || c == '[' || c == ']' || c == '{' || c == '}'
        || c == '|'
}


/// Checks the character rules of a username (not its uniqueness).
pub fn username_format_ok(s: &str) -> (r: bool)
    ensures
        r == username_well_formed(s@),
{
    let n = s.unicode_len();
    if n == 0 {
        return false;
    }
    if !char_is_ascii_alpha(s.get_char(0)) {
        return false;
    }
    let mut i: usize = 0;
    while i < n
        invariant
            n == s@.len(),
            0 <= i <= n,
            forall|j: int| 0 <= j < i ==> is_allowed_char(#[trigger] s@[j]),
        decreases n - i,
    {
        if !char_is_allowed(s.get_char(i)) {
            return false;
        }
        i = i + 1;
    }
    true
}

/// Checks the character rules of an email (not its uniqueness).
pub fn email_format_ok(s: &str) -> (r: bool)
    ensures
        r == email_well_formed(s@),
{
    let n = s.unicode_len();
    if n == 0 {
        return false;
    }
    if !char_is_ascii_alpha(s.get_char(0)) {
        return false;
    }
    let mut at: Option<usize> = None;
    let mut i: usize = 0;
    while i < n
        invariant
            n == s@.len(),
            n > 0,
            0 <= i <= n,
            match at {
                None => forall|j: int| 0 <= j < i ==> is_allowed_char(#[trigger] s@[j]),
                Some(k) => {
                    &&& k < i
                    &&& s@[k as int] == '@'
                    &&& forall|j: int| 0 <= j < i && j != k ==> is_allowed_char(#[trigger] s@[j])
                },
            },
        decreases n - i,
    {
        let c = s.get_char(i);
        if c == '@' {
            if at.is_some() {
                proof {
                    let k = at->Some_0 as int;
                    assert(!is_allowed_char(s@[k]));
                    assert(!is_allowed_char(s@[i as int]));
                }
                return false;
            }
            at = Some(i);
        } else if !char_is_allowed(c) {
            proof {
                assert(!is_allowed_char(s@[i as int]));
            }
            return false;
        }
        i = i + 1;
    }
    match at {
        None => {
            proof {
                if email_well_formed(s@) {
                    let k = choose|k: int|
                        #![trigger s@[k]]
                        0 < k < s@.len() - 1 && s@[k] == '@' && forall|j: int|
                            0 <= j < s@.len() && j != k ==> is_allowed_char(#[trigger] s@[j]);
                    assert(is_allowed_char(s@[k]));
                }
            }
            false
        },
        Some(k) => {
            if 0 < k && k + 1 < n {
                true
            } else {
                proof {
                    if email_well_formed(s@) {
                        let k2 = choose|k2: int|
                            #![trigger s@[k2]]
                            0 < k2 < s@.len() - 1 && s@[k2] == '@' && forall|j: int|
                                0 <= j < s@.len() && j != k2 ==> is_allowed_char(#[trigger] s@[j]);
                        if k2 != k as int {
                            assert(is_allowed_char(s@[k as int]));
                        }
                    }
                }
                false
            }
        },
    }
}

} // verus!
