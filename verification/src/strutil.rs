//! Small string helpers shared by the message builders and the query
//! builders: appending a single character and encoding spaces for use in a
//! geocoding query.
use vstd::prelude::*;

verus! {

/// Relies on String::push: appends the given character to the end of the
/// string.
#[verifier::external_body]
pub(crate) fn push_char(s: &mut String, c: char)
    ensures
        final(s)@ == old(s)@.push(c),
{
    s.push(c)
}

/// A space becomes a plus sign; every other character stays itself.
pub open spec fn plus_for_space(c: char) -> char {
    if c == ' ' {
        '+'
    } else {
        c
    }
}

/// The text with every space replaced by a plus sign.
pub open spec fn plus_encoded(s: Seq<char>) -> Seq<char> {
    s.map_values(|c: char| plus_for_space(c))
}

/// Replaces every space with a plus sign, as a geocoding query wants its
/// address words joined.
pub fn encode_spaces(s: &str) -> (r: String)
    ensures
        r@ == plus_encoded(s@),
{
    let n = s.unicode_len();
    let mut r = String::new();
    let mut i: usize = 0;
    while i < n
        invariant
            i <= n,
            n == s@.len(),
            r@ == plus_encoded(s@.take(i as int)),
        decreases n - i,
    {
        let c = s.get_char(i);
        if c == ' ' {
            push_char(&mut r, '+');
        } else {
            push_char(&mut r, c);
        }
        i = i + 1;
        proof {
            assert(s@.take(i as int) =~= s@.take(i - 1).push(s@[i - 1]));
            assert(plus_encoded(s@.take(i as int)) =~= plus_encoded(s@.take(i - 1)).push(
                plus_for_space(s@[i - 1]),
            ));
        }
    }
    proof {
        assert(s@.take(n as int) =~= s@);
    }
    r
}

} // verus!
