//! Text helpers shared by the validators and the renderer.

use vstd::prelude::*;
use vstd::string::*;

verus! {

/// The parts in their given order, with a comma between neighbours.
pub open spec fn comma_joined(parts: Seq<Seq<char>>) -> Seq<char>
    decreases parts.len(),
{
    if parts.len() == 0 {
        Seq::empty()
    } else if parts.len() == 1 {
        parts[0]
    } else {
        comma_joined(parts.drop_last()) + seq![','] + parts.last()
    }
}

/// Whether two string slices hold the same characters.
pub fn same_text(a: &str, b: &str) -> (r: bool)
    ensures
        r == (a@ == b@),
{
    let n = a.unicode_len();
    if n != b.unicode_len() {
        return false;
    }
    let mut i: usize = 0;
    while i < n
        invariant
            i <= n,
            n == a@.len(),
            n == b@.len(),
            forall|j: int| 0 <= j < i ==> a@[j] == b@[j],
        decreases n - i,
    {
        if a.get_char(i) != b.get_char(i) {
            return false;
        }
        i += 1;
    }
    assert(a@ =~= b@);
    true
}

/// Appends `part` to `out`, after a comma unless `part` is the first.
pub fn push_joined(out: &mut String, first: bool, part: &str)
    ensures
        final(out)@ == if first {
            old(out)@ + part@
        } else {
            old(out)@ + seq![','] + part@
        },
{
    if !first {
        proof {
            reveal_strlit(",");
        }
        out.append(",");
        assert(out@ =~= old(out)@ + seq![',']);
    }
    out.append(part);
}

/// One more part extends joined text by a comma and that part.
pub proof fn lemma_comma_joined_push(parts: Seq<Seq<char>>, part: Seq<char>)
    ensures
        comma_joined(parts.push(part)) == if parts.len() == 0 {
            part
        } else {
            comma_joined(parts) + seq![','] + part
        },
{
    assert(parts.push(part).drop_last() =~= parts);
}

} // verus!
