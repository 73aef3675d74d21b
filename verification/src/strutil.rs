//! Small verified string helpers: character-wise equality and trailing-slash
//! stripping, the only string surgery the gateway performs.

use vstd::prelude::*;

verus! {

/// Character-wise string equality, decided without trusting any outside code.
pub fn str_eq(a: &str, b: &str) -> (r: bool)
    ensures
        r == (a@ == b@),
{
    let alen = a.unicode_len();
    let blen = b.unicode_len();
    if alen != blen {
        proof {
            if a@ == b@ {
                assert(a@.len() == b@.len());
            }
        }
        return false;
    }
    let mut i: usize = 0;
    while i < alen
        invariant
            alen == a@.len(),
            alen == b@.len(),
            i <= alen,
            forall|j: int| 0 <= j < i ==> a@[j] == b@[j],
        decreases alen - i,
    {
        if a.get_char(i) != b.get_char(i) {
            return false;
        }
        i += 1;
    }
    proof {
        assert(a@ =~= b@);
    }
    true
}

/// The given character sequence with every trailing `/` removed.
pub open spec fn strip_trailing_slashes(s: Seq<char>) -> Seq<char>
    decreases s.len(),
{
    if s.len() > 0 && s.last() == '/' {
        strip_trailing_slashes(s.drop_last())
    } else {
        s
    }
}

/// Strips every trailing `/` from a string slice.
pub fn strip_slashes<'a>(s: &'a str) -> (r: &'a str)
    ensures
        r@ == strip_trailing_slashes(s@),
{
    let len = s.unicode_len();
    let mut end = len;
    proof {
        assert(s@.subrange(0, len as int) =~= s@);
    }
    while end > 0 && s.get_char(end - 1) == '/'
        invariant
            len == s@.len(),
            end <= len,
            strip_trailing_slashes(s@.subrange(0, end as int)) == strip_trailing_slashes(s@),
        decreases end,
    {
        proof {
            let prefix = s@.subrange(0, end as int);
            assert(prefix.drop_last() =~= s@.subrange(0, end - 1));
        }
        end = end - 1;
    }
    proof {
        let prefix = s@.subrange(0, end as int);
        if end > 0 {
            assert(prefix.last() == s@[end - 1]);
        }
        assert(strip_trailing_slashes(prefix) == prefix);
    }
    s.substring_char(0, end)
}

} // verus!
