//! The pure parts of creating a project from the bundled template.
use vstd::prelude::*;
use vstd::string::{StrSliceExecFns, StringExecFns};
use crate::validate::is_ascii_alnum;

verus! {

/// The text that stands for the project's name in template files.
pub open spec fn placeholder() -> Seq<char> {
    "{{project_name}}"@
}

/// Non-empty, and made of ASCII letters, digits, `-` and `_` only.
pub open spec fn valid_project_name(s: Seq<char>) -> bool {
    s.len() > 0 && forall|i: int|
        0 <= i < s.len() ==> is_ascii_alnum(#[trigger] s[i]) || s[i] == '-' || s[i] == '_'
}

/// `s` with every occurrence of the non-empty `pat` replaced by `to`, the
/// occurrences taken from left to right without overlap.
pub open spec fn replace_all(s: Seq<char>, pat: Seq<char>, to: Seq<char>) -> Seq<char>
    recommends
        pat.len() > 0,
    decreases s.len(),
{
    if s.len() == 0 || pat.len() == 0 {
        s
    } else if s.len() >= pat.len() && s.take(pat.len() as int) == pat {
        to + replace_all(s.skip(pat.len() as int), pat, to)
    } else {
        seq![s[0]] + replace_all(s.drop_first(), pat, to)
    }
}

pub fn is_valid_project_name(name: &str) -> (r: bool)
    ensures
        r == valid_project_name(name@),
{
    let n = name.unicode_len();
    if n == 0 {
        return false;
    }
    let mut i: usize = 0;
    while i < n
        invariant
            n == name@.len(),
            0 <= i <= n,
            forall|j: int|
                0 <= j < i ==> is_ascii_alnum(#[trigger] name@[j]) || name@[j] == '-' || name@[j]
                    == '_',
        decreases n - i,
    {
        let c = name.get_char(i);
        if !(('a' <= c && c <= 'z') || ('A' <= c && c <= 'Z') || ('0' <= c && c <= '9') || c == '-'
            || c == '_') {
            return false;
        }
        i = i + 1;
    }
    true
}

/// `content` with the project-name placeholder replaced by `project_name`.
pub fn replace_placeholders(content: &str, project_name: &str) -> (r: String)
    ensures
        r@ == replace_all(content@, placeholder(), project_name@),
{
    let pat = "{{project_name}}";
    proof {
        reveal_strlit("{{project_name}}");
    }
    let plen = pat.unicode_len();
    let n = content.unicode_len();
    let mut out = String::new();
    let mut i: usize = 0;
    proof {
        assert(content@.skip(0) =~= content@);
        assert(out@ + replace_all(content@, pat@, project_name@) =~= replace_all(
            content@,
            pat@,
            project_name@,
        ));
    }
    while i < n
        invariant
            n == content@.len(),
            plen == pat@.len(),
            pat@ == placeholder(),
            plen > 0,
            0 <= i <= n,
            out@ + replace_all(content@.skip(i as int), pat@, project_name@) == replace_all(
                content@,
                pat@,
                project_name@,
            ),
        decreases n - i,
    {
        let ghost rest = content@.skip(i as int);
        if plen <= n - i && String::from_str(content.substring_char(i, i + plen)) == String::from_str(
            pat,
        ) {
            proof {
                assert(rest.take(plen as int) =~= content@.subrange(i as int, i + plen));
                assert(rest.skip(plen as int) =~= content@.skip(i + plen));
            }
            let ghost before = out@;
            out.append(project_name);
            proof {
                let x = replace_all(content@.skip(i + plen), pat@, project_name@);
                assert(replace_all(rest, pat@, project_name@) == project_name@ + x);
                assert(out@ + x =~= before + (project_name@ + x));
            }
            i = i + plen;
        } else {
            proof {
                if rest.len() >= plen {
                    assert(rest.take(plen as int) =~= content@.subrange(i as int, i + plen));
                }
                assert(rest.drop_first() =~= content@.skip(i + 1));
            }
            let c = content.substring_char(i, i + 1);
            proof {
                assert(c@ =~= seq![rest[0]]);
            }
            let ghost before = out@;
            out.append(c);
            proof {
                let x = replace_all(content@.skip(i + 1), pat@, project_name@);
                assert(replace_all(rest, pat@, project_name@) == seq![rest[0]] + x);
                assert(out@ + x =~= before + (seq![rest[0]] + x));
            }
            i = i + 1;
        }
    }
    proof {
        assert(content@.skip(n as int) =~= Seq::<char>::empty());
        assert(out@ + Seq::<char>::empty() =~= out@);
    }
    out
}

} // verus!
