use vstd::prelude::*;
use vstd::string::{StrSliceExecFns, StringExecFns};

verus! {

/// `s` with every occurrence of `pat` rewritten to `sub`: occurrences are
/// found left to right, do not overlap, and text already substituted is not
/// searched again. An empty pattern matches nothing.
pub open spec fn spec_replace_all(s: Seq<char>, pat: Seq<char>, sub: Seq<char>) -> Seq<char>
    decreases s.len(),
{
    if pat.len() == 0 || s.len() < pat.len() {
        s
    } else if s.subrange(0, pat.len() as int) == pat {
        sub + spec_replace_all(s.skip(pat.len() as int), pat, sub)
    } else {
        seq![s[0]] + spec_replace_all(s.drop_first(), pat, sub)
    }
}

/// Whether `pat` occurs in `s` starting at character position `i`.
fn match_at(s: &str, i: usize, pat: &str) -> (r: bool)
    requires
        i + pat@.len() <= s@.len(),
        i + pat@.len() <= usize::MAX,
    ensures
        r == (s@.subrange(i as int, i + pat@.len()) == pat@),
{
    let patlen = pat.unicode_len();
    let mut j: usize = 0;
    while j < patlen
        invariant
            patlen == pat@.len(),
            i + patlen <= s@.len(),
            i + patlen <= usize::MAX,
            j <= patlen,
            forall|k: int| 0 <= k < j ==> s@[i + k] == pat@[k],
        decreases patlen - j,
    {
        if s.get_char(i + j) != pat.get_char(j) {
            proof {
                assert(s@.subrange(i as int, i + pat@.len())[j as int] != pat@[j as int]);
            }
            return false;
        }
        j = j + 1;
    }
    proof {
        assert(s@.subrange(i as int, i + pat@.len()) =~= pat@);
    }
    true
}

/// Rewrite every occurrence of `pat` in `s` to `sub`, left to right and
/// without overlapping, leaving substituted text unsearched.
pub fn replace_all(s: &str, pat: &str, sub: &str) -> (r: String)
    requires
        pat@.len() >= 1,
    ensures
        r@ == spec_replace_all(s@, pat@, sub@),
{
    let slen = s.unicode_len();
    let patlen = pat.unicode_len();
    if patlen > slen {
        return s.to_owned();
    }
    let mut r = String::new();
    let mut i: usize = 0;
    proof {
        assert(s@.skip(0) =~= s@);
        assert(r@ + spec_replace_all(s@, pat@, sub@) =~= spec_replace_all(s@, pat@, sub@));
    }
    while i <= slen - patlen
        invariant
            slen == s@.len(),
            patlen == pat@.len(),
            1 <= patlen <= slen,
            i <= slen,
            r@ + spec_replace_all(s@.skip(i as int), pat@, sub@) == spec_replace_all(
                s@,
                pat@,
                sub@,
            ),
        decreases slen - i,
    {
        let ghost tail = s@.skip(i as int);
        let ghost r_before = r@;
        proof {
            assert(tail.len() == slen - i);
            assert(tail.subrange(0, patlen as int) =~= s@.subrange(
                i as int,
                i + patlen as int,
            ));
        }
        if match_at(s, i, pat) {
            r.append(sub);
            proof {
                assert(spec_replace_all(tail, pat@, sub@) == sub@ + spec_replace_all(
                    tail.skip(patlen as int),
                    pat@,
                    sub@,
                ));
                assert(tail.skip(patlen as int) =~= s@.skip(i + patlen as int));
                assert((r_before + sub@) + spec_replace_all(
                    s@.skip(i + patlen as int),
                    pat@,
                    sub@,
                ) =~= r_before + (sub@ + spec_replace_all(s@.skip(i + patlen as int), pat@, sub@)));
            }
            i = i + patlen;
        } else {
            let c = s.substring_char(i, i + 1);
            r.append(c);
            proof {
                assert(tail[0] == s@[i as int]);
                assert(spec_replace_all(tail, pat@, sub@) == seq![tail[0]] + spec_replace_all(
                    tail.drop_first(),
                    pat@,
                    sub@,
                ));
                assert(tail.drop_first() =~= s@.skip(i + 1));
                assert(c@ =~= seq![tail[0]]);
                assert((r_before + c@) + spec_replace_all(s@.skip(i + 1), pat@, sub@)
                    =~= r_before + (c@ + spec_replace_all(s@.skip(i + 1), pat@, sub@)));
            }
            i = i + 1;
        }
    }
    let tail = s.substring_char(i, slen);
    r.append(tail);
    proof {
        assert(s@.skip(i as int) =~= s@.subrange(i as int, slen as int));
        assert(s@.skip(i as int).len() < patlen);
        assert(spec_replace_all(s@.skip(i as int), pat@, sub@) == s@.skip(i as int));
    }
    r
}

} // verus!
