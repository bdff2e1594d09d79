//! ASCII lowering, used to match configuration keywords without regard to
//! case.

use vstd::prelude::*;

verus! {

/// The lowercase alphabet, the target of ASCII lowering.
pub open spec fn lowercase_alphabet() -> Seq<char> {
    "abcdefghijklmnopqrstuvwxyz"@
}

/// A character after ASCII lowering: the letters 'A' to 'Z' map to their
/// lowercase counterparts, everything else is unchanged.
pub open spec fn lower_char(c: char) -> char {
    if 65 <= c as int <= 90 {
        lowercase_alphabet()[c as int - 65]
    } else {
        c
    }
}

/// A text after ASCII lowering.
pub open spec fn lower(s: Seq<char>) -> Seq<char> {
    s.map_values(|c: char| lower_char(c))
}

/// ASCII-lowercases a text.
pub fn to_ascii_lower(s: &str) -> (r: String)
    ensures
        r@ == lower(s@),
{
    let alphabet = "abcdefghijklmnopqrstuvwxyz";
    proof {
        reveal_strlit("abcdefghijklmnopqrstuvwxyz");
    }
    let n = s.unicode_len();
    let mut out = String::new();
    let mut i: usize = 0;
    while i < n
        invariant
            n == s@.len(),
            i <= n,
            alphabet@ == lowercase_alphabet(),
            alphabet@.len() == 26,
            out@ == lower(s@.subrange(0, i as int)),
        decreases n - i,
    {
        let c = s.get_char(i);
        let code: u32 = c as u32;
        if 65 <= code && code <= 90 {
            let idx = (code - 65) as usize;
            out.append(alphabet.substring_char(idx, idx + 1));
            proof {
                assert(alphabet@.subrange(idx as int, idx + 1 as int) =~= seq![
                    lower_char(s@[i as int]),
                ]);
            }
        } else {
            out.append(s.substring_char(i, i + 1));
            proof {
                assert(s@.subrange(i as int, i + 1 as int) =~= seq![lower_char(s@[i as int])]);
            }
        }
        proof {
            assert(out@ =~= lower(s@.subrange(0, i + 1 as int)));
        }
        i = i + 1;
    }
    proof {
        assert(s@.subrange(0, n as int) =~= s@);
    }
    out
}

} // verus!
