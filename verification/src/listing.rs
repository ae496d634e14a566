//! The directory-listing text: given the entry names that the filesystem
//! edge enumerated, the text the render pass shows, one name per line. The
//! enumeration itself happens outside the library and hands in plain names;
//! on a read failure it hands in none, and the listing is then empty.

use vstd::prelude::*;

verus! {

/// The listing text built from the first `n` names: each name in order,
/// each followed by a line break.
pub open spec fn listing_text(names: Seq<String>, n: int) -> Seq<char>
    decreases n,
{
    if n <= 0 {
        Seq::<char>::empty()
    } else {
        listing_text(names, n - 1) + names[n - 1]@ + seq!['\n']
    }
}

/// Renders the enumerated entry names as one text, one name per line. An
/// empty enumeration - in particular the result of an unreadable path -
/// yields the empty text.
pub fn format_listing(names: &Vec<String>) -> (r: String)
    ensures
        r@ == listing_text(names@, names@.len() as int),
        names@.len() == 0 ==> r@ == Seq::<char>::empty(),
{
    proof {
        reveal_strlit("\n");
        assert("\n"@ =~= seq!['\n']);
    }
    let mut out = String::new();
    let n = names.len();
    let mut i: usize = 0;
    while i < n
        invariant
            n == names@.len(),
            i <= n,
            out@ == listing_text(names@, i as int),
        decreases n - i,
    {
        out.append(names[i].as_str());
        out.append("\n");
        proof {
            reveal_strlit("\n");
            assert("\n"@ =~= seq!['\n']);
        }
        i = i + 1;
    }
    out
}

} // verus!
