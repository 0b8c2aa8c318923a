use vstd::prelude::*;
use vstd::string::StringExecFns;

verus! {

/// The texts of `segments` one after another, in order.
pub open spec fn concat_all(segments: Seq<Seq<char>>) -> Seq<char>
    decreases segments.len(),
{
    if segments.len() == 0 {
        Seq::empty()
    } else {
        concat_all(segments.drop_last()) + segments.last()
    }
}

/// The views of a list of strings.
pub open spec fn texts_of(segments: Seq<String>) -> Seq<Seq<char>> {
    segments.map_values(|s: String| s@)
}

/// The transcript made of decoded text segments: each segment's text, in
/// order, with nothing between them. No segments give the empty string.
pub fn join_segments(segments: &Vec<String>) -> (r: String)
    ensures
        r@ == concat_all(texts_of(segments@)),
{
    let mut t = String::new();
    let mut i: usize = 0;
    while i < segments.len()
        invariant
            i <= segments@.len(),
            t@ == concat_all(texts_of(segments@.subrange(0, i as int))),
        decreases segments@.len() - i,
    {
        t.append(segments[i].as_str());
        proof {
            let p = segments@.subrange(0, i as int + 1);
            assert(p.drop_last() =~= segments@.subrange(0, i as int));
            assert(texts_of(p).drop_last() =~= texts_of(p.drop_last()));
        }
        i = i + 1;
    }
    assert(segments@.subrange(0, segments@.len() as int) =~= segments@);
    t
}

} // verus!
