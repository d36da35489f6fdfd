//! Small string helpers shared by the rendering code: character-vector
//! construction of text, and the comma join used for span lists and
//! serialized objects.

use vstd::prelude::*;
use vstd::string::StrSliceExecFns;

verus! {

/// `items` joined by single commas, in order; empty when `items` is.
pub open spec fn join_comma(items: Seq<Seq<char>>) -> Seq<char>
    decreases items.len(),
{
    if items.len() == 0 {
        Seq::empty()
    } else if items.len() == 1 {
        items[0]
    } else {
        items[0] + ","@ + join_comma(items.drop_first())
    }
}

/// Joining one more item appends a comma and the item.
pub proof fn lemma_join_comma_snoc(items: Seq<Seq<char>>, x: Seq<char>)
    requires
        items.len() >= 1,
    ensures
        join_comma(items.push(x)) == join_comma(items) + ","@ + x,
    decreases items.len(),
{
    let pushed = items.push(x);
    if items.len() == 1 {
        assert(pushed.drop_first() =~= seq![x]);
        assert(join_comma(seq![x]) == x);
        assert(join_comma(pushed) == items[0] + ","@ + x);
    } else {
        assert(pushed.drop_first() =~= items.drop_first().push(x));
        lemma_join_comma_snoc(items.drop_first(), x);
    }
}

/// The characters of `s`, in order.
pub(crate) fn str_chars(s: &str) -> (v: Vec<char>)
    ensures
        v@ == s@,
{
    let n = s.unicode_len();
    let mut v: Vec<char> = Vec::new();
    for i in 0..n
        invariant
            n == s@.len(),
            v@ == s@.subrange(0, i as int),
    {
        v.push(s.get_char(i));
        proof {
            assert(v@ =~= s@.subrange(0, i + 1));
        }
    }
    proof {
        assert(v@ =~= s@);
    }
    v
}

/// Append the characters of `s` to `out`.
pub(crate) fn push_str_chars(out: &mut Vec<char>, s: &str)
    ensures
        final(out)@ == old(out)@ + s@,
{
    let n = s.unicode_len();
    for i in 0..n
        invariant
            n == s@.len(),
            out@ == old(out)@ + s@.subrange(0, i as int),
    {
        out.push(s.get_char(i));
        proof {
            assert(out@ =~= old(out)@ + s@.subrange(0, i + 1));
        }
    }
    proof {
        assert(old(out)@ + s@.subrange(0, n as int) =~= old(out)@ + s@);
    }
}

/// Collect a character vector into a `String`.
///
/// Relies on `String`'s `FromIterator` over characters: collecting
/// yields a string whose characters are exactly those of the iterator,
/// in order.
#[verifier::external_body]
pub(crate) fn chars_to_string(v: &Vec<char>) -> (r: String)
    ensures
        r@ == v@,
{
    v.iter().collect()
}

} // verus!
