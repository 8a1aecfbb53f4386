//! The text of a whole listing: the processor-mode directive, then each
//! instruction line after a blank line.
use crate::decoder::texts;
use vstd::prelude::*;

verus! {

/// Each line preceded by a blank line and ended by a newline, in order.
pub open spec fn body_text(ls: Seq<Seq<char>>) -> Seq<char>
    decreases ls.len(),
{
    if ls.len() == 0 {
        Seq::empty()
    } else {
        body_text(ls.drop_last()) + "\n"@ + ls.last() + "\n"@
    }
}

/// The whole output for these instruction lines.
pub open spec fn program_text(ls: Seq<Seq<char>>) -> Seq<char> {
    "bits 16\n"@ + body_text(ls)
}

/// The whole output for `lines`, in the order given.
pub fn render_listing(lines: &Vec<String>) -> (r: String)
    ensures
        r@ == program_text(texts(lines@)),
{
    let mut s = String::from_str("bits 16\n");
    let mut i: usize = 0;
    while i < lines.len()
        invariant
            i <= lines@.len(),
            s@ == "bits 16\n"@ + body_text(texts(lines@.take(i as int))),
        decreases lines@.len() - i,
    {
        let ghost before = s@;
        s.append("\n");
        s.append(lines[i].as_str());
        s.append("\n");
        proof {
            let ls = texts(lines@.take(i + 1));
            assert(ls.drop_last() =~= texts(lines@.take(i as int)));
            assert(ls.last() == lines@[i as int]@);
            assert(s@ =~= "bits 16\n"@ + body_text(ls));
        }
        i = i + 1;
    }
    assert(lines@.take(i as int) =~= lines@);
    s
}

} // verus!
