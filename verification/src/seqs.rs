//! Sequences of sequences: concatenation, joining with a separator, and
//! turning a sequence of optional values into an optional sequence.

use vstd::prelude::*;

verus! {

/// All the parts, one after the other.
pub open spec fn concat<A>(parts: Seq<Seq<A>>) -> Seq<A>
    decreases parts.len(),
{
    if parts.len() == 0 {
        Seq::empty()
    } else {
        concat(parts.drop_last()) + parts.last()
    }
}

/// All the parts, one after the other, with `sep` between each two.
pub open spec fn join<A>(parts: Seq<Seq<A>>, sep: A) -> Seq<A>
    decreases parts.len(),
{
    if parts.len() == 0 {
        Seq::empty()
    } else if parts.len() == 1 {
        parts[0]
    } else {
        join(parts.drop_last(), sep) + seq![sep] + parts.last()
    }
}

/// The values of all the parts, where none of them is missing.
pub open spec fn sequence<A>(parts: Seq<Option<A>>) -> Option<Seq<A>> {
    if forall|i: int| 0 <= i < parts.len() ==> (#[trigger] parts[i]) is Some {
        Some(Seq::new(parts.len(), |i: int| parts[i].unwrap()))
    } else {
        None
    }
}

/// One more part comes last.
pub proof fn lemma_concat_push<A>(parts: Seq<Seq<A>>, part: Seq<A>)
    ensures
        concat(parts.push(part)) == concat(parts) + part,
{
    assert(parts.push(part).drop_last() =~= parts);
}

/// One more part comes last, after a separator unless it is the only one.
pub proof fn lemma_join_push<A>(parts: Seq<Seq<A>>, part: Seq<A>, sep: A)
    ensures
        join(parts.push(part), sep) == if parts.len() == 0 {
            part
        } else {
            join(parts, sep) + seq![sep] + part
        },
{
    assert(parts.push(part).drop_last() =~= parts);
}

/// With one more part, no value is missing where none was and the new one
/// is there.
pub proof fn lemma_sequence_push<A>(parts: Seq<Option<A>>, part: Option<A>)
    ensures
        sequence(parts.push(part)) == match (sequence(parts), part) {
            (Some(all), Some(one)) => Some(all.push(one)),
            _ => None,
        },
{
    let longer = parts.push(part);
    match (sequence(parts), part) {
        (Some(all), Some(one)) => {
            assert forall|i: int| 0 <= i < longer.len() implies (#[trigger] longer[i]) is Some by {
                if i < parts.len() {
                }
            }
        },
        (None, _) => {
            let i = choose|i: int| 0 <= i < parts.len() && !((#[trigger] parts[i]) is Some);
            assert(longer[i] == parts[i]);
        },
        (_, None) => {
            assert(longer[parts.len() as int] is None);
        },
    }
}

/// Of no parts none is missing.
pub proof fn lemma_sequence_empty<A>(parts: Seq<Option<A>>)
    requires
        parts.len() == 0,
    ensures
        sequence(parts) == Some(Seq::<A>::empty()),
{
}

} // verus!
