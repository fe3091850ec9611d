//! API resources: the handles of each endpoint group, with the paths and
//! queries their requests use.

use vstd::prelude::*;

pub mod containers;
pub mod conversations;
pub mod embeddings;
pub mod realtime;
pub mod responses;
pub mod videos;
pub mod webhooks;

verus! {

/// A request path: each segment after a `/`.
pub open spec fn path_of(segments: Seq<Seq<char>>) -> Seq<char>
    decreases segments.len(),
{
    if segments.len() == 0 {
        seq![]
    } else {
        path_of(segments.drop_last()) + seq!['/'] + segments.last()
    }
}

/// The request path made of the segments, each after a `/` (ids are put in
/// as given).
pub fn resource_path(segments: &[&str]) -> (r: String)
    ensures
        r@ == path_of(segments@.map_values(|s: &str| s@)),
{
    let ghost segs = segments@.map_values(|s: &str| s@);
    let mut path = String::new();
    let n = segments.len();
    let mut i: usize = 0;
    while i < n
        invariant
            i <= n,
            n == segments@.len(),
            segs == segments@.map_values(|s: &str| s@),
            path@ == path_of(segs.take(i as int)),
        decreases n - i,
    {
        path.append("/");
        path.append(segments[i]);
        proof {
            reveal_strlit("/");
            assert(segs.take(i + 1).drop_last() =~= segs.take(i as int));
            assert(segs.take(i + 1).last() == segments@[i as int]@);
        }
        i = i + 1;
    }
    proof {
        assert(segs.take(n as int) =~= segs);
    }
    path
}

} // verus!
