//! Lists of name/value pairs: HTTP headers, broker message headers and
//! settings. A name may occur more than once; the first occurrence counts.

use crate::text::{eq_ignore_ascii_case, pair_views, same_ignoring_ascii_case, same_text};
use vstd::prelude::*;

verus! {

/// The view of an optional text.
pub open spec fn opt_view(o: Option<String>) -> Option<Seq<char>> {
    match o {
        Some(s) => Some(s@),
        None => None,
    }
}

/// The value of the first pair whose name is `name`.
pub open spec fn value_of(pairs: Seq<(Seq<char>, Seq<char>)>, name: Seq<char>) -> Option<
    Seq<char>,
>
    decreases pairs.len(),
{
    if pairs.len() == 0 {
        None
    } else if pairs[0].0 == name {
        Some(pairs[0].1)
    } else {
        value_of(pairs.skip(1), name)
    }
}

/// The value of the first pair whose name is `name` up to the case of ASCII
/// letters.
pub open spec fn value_of_ignoring_case(
    pairs: Seq<(Seq<char>, Seq<char>)>,
    name: Seq<char>,
) -> Option<Seq<char>>
    decreases pairs.len(),
{
    if pairs.len() == 0 {
        None
    } else if same_ignoring_ascii_case(pairs[0].0, name) {
        Some(pairs[0].1)
    } else {
        value_of_ignoring_case(pairs.skip(1), name)
    }
}

/// Looks a name up; the match is exact.
pub fn lookup(pairs: &Vec<(String, String)>, name: &str) -> (r: Option<String>)
    ensures
        opt_view(r) == value_of(pair_views(pairs@), name@),
{
    let ghost all = pair_views(pairs@);
    let mut i: usize = 0;
    assert(all.skip(0) =~= all);
    while i < pairs.len()
        invariant
            i <= pairs.len(),
            all == pair_views(pairs@),
            value_of(all, name@) == value_of(all.skip(i as int), name@),
        decreases pairs.len() - i,
    {
        assert(all.skip(i as int)[0] == all[i as int]);
        assert(all.skip(i as int).skip(1) =~= all.skip(i + 1));
        if same_text(pairs[i].0.as_str(), name) {
            return Some(pairs[i].1.clone());
        }
        i += 1;
    }
    None
}

/// Looks a name up without regard to the case of ASCII letters.
pub fn lookup_ignoring_case(pairs: &Vec<(String, String)>, name: &str) -> (r: Option<String>)
    ensures
        opt_view(r) == value_of_ignoring_case(pair_views(pairs@), name@),
{
    let ghost all = pair_views(pairs@);
    let mut i: usize = 0;
    assert(all.skip(0) =~= all);
    while i < pairs.len()
        invariant
            i <= pairs.len(),
            all == pair_views(pairs@),
            value_of_ignoring_case(all, name@) == value_of_ignoring_case(
                all.skip(i as int),
                name@,
            ),
        decreases pairs.len() - i,
    {
        assert(all.skip(i as int)[0] == all[i as int]);
        assert(all.skip(i as int).skip(1) =~= all.skip(i + 1));
        if eq_ignore_ascii_case(pairs[i].0.as_str(), name) {
            return Some(pairs[i].1.clone());
        }
        i += 1;
    }
    None
}

/// Appends the bytes of `chunk` to `buffer`.
pub fn append_bytes(buffer: &mut Vec<u8>, chunk: &[u8])
    ensures
        final(buffer)@ == old(buffer)@ + chunk@,
{
    let mut i: usize = 0;
    while i < chunk.len()
        invariant
            i <= chunk.len(),
            buffer@ == old(buffer)@ + chunk@.take(i as int),
        decreases chunk.len() - i,
    {
        buffer.push(chunk[i]);
        assert(chunk@.take(i + 1) =~= chunk@.take(i as int).push(chunk@[i as int]));
        assert(buffer@ =~= old(buffer)@ + chunk@.take(i + 1));
        i += 1;
    }
    assert(chunk@.take(chunk.len() as int) =~= chunk@);
}

} // verus!
