use vstd::prelude::*;

use crate::atom::head::{lemma_parse_head_wf, parse_head, seek_to_end, spec_parse_head, Fourcc, Head};
use crate::error::{Error, ErrorKind};
use crate::stream::Stream;

verus! {

/// What is left of a budget of `budget` bytes when `len` of them are used up.
pub open spec fn spec_budget_left(budget: nat, len: nat) -> nat {
    if budget > len {
        (budget - len) as nat
    } else {
        0
    }
}

/// The heads of the atoms that are met on the way through a content of
/// `budget` bytes that starts at offset `pos` of `data`.
///
/// The first atom starts at `pos`, each further one where the one before it
/// ends, and the way ends as soon as the atoms met are `budget` bytes long or
/// longer together. The result is `None` where `data` ends inside a head, or
/// an atom ends at an offset that does not fit in 64 bits.
#[verifier::opaque]
pub open spec fn spec_children(data: Seq<u8>, pos: int, budget: nat) -> Option<Seq<Head>>
    decreases budget,
    when data.len() <= u64::MAX
{
    if budget == 0 {
        Some(Seq::empty())
    } else {
        match spec_parse_head(data, pos) {
            None => None,
            Some(head) => if head.bounds.spec_end() > u64::MAX {
                None
            } else {
                match spec_children(
                    data,
                    head.bounds.spec_end(),
                    spec_budget_left(budget, head.spec_len() as nat),
                ) {
                    None => None,
                    Some(rest) => Some(seq![head] + rest),
                }
            },
        }
    }
}

/// The last of `heads` that has the type code `fourcc`.
pub open spec fn spec_last_of(heads: Seq<Head>, fourcc: Fourcc) -> Option<Head>
    decreases heads.len(),
{
    if heads.len() == 0 {
        None
    } else if heads.last().fourcc == fourcc {
        Some(heads.last())
    } else {
        spec_last_of(heads.drop_last(), fourcc)
    }
}

/// The length of the atoms with the given heads, taken together.
pub open spec fn spec_total_len(heads: Seq<Head>) -> nat
    decreases heads.len(),
{
    if heads.len() == 0 {
        0
    } else {
        heads.first().spec_len() as nat + spec_total_len(heads.drop_first())
    }
}

/// The atoms met on the way through a content lie one behind the other
/// without a gap and without overlap: the first starts where the content
/// starts, each further one where the one before it ends. Each is at least as
/// long as a head, and each starts inside the content. They cover the
/// content: the last one ends at its end or behind it. Their lengths add up
/// to the length of the content exactly where the last one ends at the end of
/// the content.
pub proof fn lemma_children_tile(data: Seq<u8>, pos: int, budget: nat)
    requires
        data.len() <= u64::MAX,
        0 <= pos <= u64::MAX,
    ensures
        spec_children(data, pos, budget) matches Some(heads) ==> {
            &&& heads.len() == 0 <==> budget == 0
            &&& forall|i: int|
                0 <= i < heads.len() ==> {
                    &&& (#[trigger] heads[i]).wf()
                    &&& heads[i].spec_len() >= 8
                    &&& pos <= heads[i].bounds.start < pos + budget
                    &&& heads[i].bounds.spec_end() <= u64::MAX
                    &&& spec_parse_head(data, heads[i].bounds.start as int) == Some(heads[i])
                }
            &&& heads.len() > 0 ==> heads[0].bounds.start == pos
            &&& forall|i: int|
                0 < i < heads.len() ==> (#[trigger] heads[i]).bounds.start == heads[i
                    - 1].bounds.spec_end()
            &&& heads.len() > 0 ==> {
                &&& pos + budget <= heads.last().bounds.spec_end()
                &&& heads.last().bounds.spec_end() == pos + spec_total_len(heads)
            }
            &&& pos + budget <= u64::MAX
        },
    decreases budget,
{
    reveal(spec_children);
    if budget > 0 {
        lemma_parse_head_wf(data, pos);
        match spec_parse_head(data, pos) {
            None => {},
            Some(head) => {
                if head.bounds.spec_end() <= u64::MAX {
                    let left = spec_budget_left(budget, head.spec_len() as nat);
                    lemma_children_tile(data, head.bounds.spec_end(), left);
                    match spec_children(data, head.bounds.spec_end(), left) {
                        None => {},
                        Some(rest) => {
                            let heads = seq![head] + rest;
                            assert(heads.first() == head);
                            assert(heads.drop_first() =~= rest);
                            assert forall|i: int| 0 <= i < heads.len() implies {
                                &&& (#[trigger] heads[i]).wf()
                                &&& heads[i].spec_len() >= 8
                                &&& pos <= heads[i].bounds.start < pos + budget
                                &&& heads[i].bounds.spec_end() <= u64::MAX
                                &&& spec_parse_head(data, heads[i].bounds.start as int) == Some(
                                    heads[i],
                                )
                            } by {
                                if i > 0 {
                                    assert(heads[i] == rest[i - 1]);
                                }
                            }
                            assert forall|i: int| 0 < i < heads.len() implies (
                            #[trigger] heads[i]).bounds.start == heads[i - 1].bounds.spec_end() by {
                                assert(heads[i] == rest[i - 1]);
                                if i > 1 {
                                    assert(heads[i - 1] == rest[i - 2]);
                                }
                            }
                            if rest.len() > 0 {
                                assert(heads.last() == rest.last());
                            }
                        },
                    }
                }
            },
        }
    }
}

/// The atoms met on a way, with those met before them put in front.
pub open spec fn spec_after(seen: Seq<Head>, rest: Option<Seq<Head>>) -> Option<Seq<Head>> {
    match rest {
        Some(rest) => Some(seen + rest),
        None => None,
    }
}

/// A way through no bytes at all meets no atom.
pub proof fn lemma_children_none(data: Seq<u8>, pos: int, seen: Seq<Head>)
    requires
        data.len() <= u64::MAX,
    ensures
        spec_children(data, pos, 0) == Some(Seq::<Head>::empty()),
        spec_after(seen, spec_children(data, pos, 0)) == Some(seen),
{
    reveal(spec_children);
    assert(seen + Seq::<Head>::empty() =~= seen);
}

/// Putting no atoms in front of a way leaves the way as it is.
pub proof fn lemma_after_nothing(rest: Option<Seq<Head>>)
    ensures
        spec_after(Seq::<Head>::empty(), rest) == rest,
{
    match rest {
        Some(heads) => {
            assert(Seq::<Head>::empty() + heads =~= heads);
        },
        None => {},
    }
}

/// One step on a way of `remaining` bytes from `pos`. Without a head at `pos`
/// the way fails. With the head `head` at `pos` it fails where the atom ends
/// at an offset that does not fit in 64 bits, and else goes on behind the
/// atom, with the atom's length taken off `remaining`.
pub proof fn lemma_children_step(data: Seq<u8>, seen: Seq<Head>, pos: int, remaining: nat)
    requires
        data.len() <= u64::MAX,
        remaining > 0,
    ensures
        match spec_parse_head(data, pos) {
            None => spec_children(data, pos, remaining) is None,
            Some(head) => {
                &&& head.bounds.spec_end() > u64::MAX ==> spec_children(data, pos, remaining) is None
                &&& head.bounds.spec_end() <= u64::MAX ==> spec_after(
                    seen,
                    spec_children(data, pos, remaining),
                ) == spec_after(
                    seen.push(head),
                    spec_children(
                        data,
                        head.bounds.spec_end(),
                        spec_budget_left(remaining, head.spec_len() as nat),
                    ),
                )
                &&& spec_after(seen, spec_children(data, pos, remaining)) matches Some(heads) ==> {
                    &&& heads.len() > seen.len()
                    &&& heads[seen.len() as int] == head
                }
            },
        },
{
    reveal(spec_children);
    match spec_parse_head(data, pos) {
        None => {},
        Some(head) => {
            if head.bounds.spec_end() <= u64::MAX {
                match spec_children(
                    data,
                    head.bounds.spec_end(),
                    spec_budget_left(remaining, head.spec_len() as nat),
                ) {
                    Some(rest) => {
                        assert(seen + (seq![head] + rest) =~= seen.push(head) + rest);
                    },
                    None => {},
                }
            }
        },
    }
}

/// An atom that is as long as the content or longer is the only one met on
/// the way through the content, however far behind the end of the content it
/// claims to reach.
pub proof fn lemma_children_single(data: Seq<u8>, pos: int, budget: nat, head: Head)
    requires
        data.len() <= u64::MAX,
        spec_parse_head(data, pos) == Some(head),
        0 < budget <= head.spec_len(),
        head.bounds.spec_end() <= u64::MAX,
    ensures
        spec_children(data, pos, budget) == Some(seq![head]),
{
    reveal(spec_children);
    assert(spec_children(data, head.bounds.spec_end(), 0) == Some(Seq::<Head>::empty()));
    assert(seq![head] + Seq::<Head>::empty() =~= seq![head]);
}

/// The last head of a given type code among the atoms met on a way is one of
/// those atoms, and none behind it has that type code.
pub proof fn lemma_last_of(heads: Seq<Head>, fourcc: Fourcc)
    ensures
        match spec_last_of(heads, fourcc) {
            Some(head) => exists|i: int|
                {
                    &&& 0 <= i < heads.len()
                    &&& #[trigger] heads[i] == head
                    &&& head.fourcc == fourcc
                    &&& forall|j: int| i < j < heads.len() ==> (#[trigger] heads[j]).fourcc != fourcc
                },
            None => forall|i: int| 0 <= i < heads.len() ==> (#[trigger] heads[i]).fourcc != fourcc,
        },
    decreases heads.len(),
{
    if heads.len() > 0 {
        if heads.last().fourcc == fourcc {
            assert(heads[heads.len() - 1] == heads.last());
        } else {
            let front = heads.drop_last();
            lemma_last_of(front, fourcc);
            match spec_last_of(front, fourcc) {
                Some(head) => {
                    let i = choose|i: int|
                        {
                            &&& 0 <= i < front.len()
                            &&& #[trigger] front[i] == head
                            &&& head.fourcc == fourcc
                            &&& forall|j: int|
                                i < j < front.len() ==> (#[trigger] front[j]).fourcc != fourcc
                        };
                    assert(heads[i] == head);
                    assert forall|j: int| i < j < heads.len() implies (
                    #[trigger] heads[j]).fourcc != fourcc by {
                        if j < front.len() {
                            assert(heads[j] == front[j]);
                        }
                    }
                },
                None => {
                    assert forall|i: int| 0 <= i < heads.len() implies (
                    #[trigger] heads[i]).fourcc != fourcc by {
                        if i < front.len() {
                            assert(heads[i] == front[i]);
                        }
                    }
                },
            }
        }
    }
}

/// Walks through a content of `content_len` bytes that starts at the position
/// of `stream`, atom by atom, keeping nothing of what it passes over, and
/// leaves the stream at the end of the content.
///
/// Fails with `ErrorKind::Io`, the stream left where it was, where the stream
/// ends inside the head of an atom, or an atom ends at an offset that does not
/// fit in 64 bits.
pub fn skip_children(stream: &mut Stream, content_len: u64) -> (r: Result<(), Error>)
    ensures
        final(stream).data == old(stream).data,
        match r {
            Ok(_) => {
                &&& spec_children(old(stream).data@, old(stream).pos as int, content_len as nat) is Some
                &&& final(stream).pos == old(stream).pos + content_len
            },
            Err(e) => {
                &&& spec_children(old(stream).data@, old(stream).pos as int, content_len as nat) is None
                &&& e.kind == ErrorKind::Io
                &&& final(stream).pos == old(stream).pos
            },
        },
{
    let start: u64 = stream.position();
    let ghost data = stream.data@;
    let mut remaining: u64 = content_len;
    proof {
        stream.lemma_len_fits();
    }
    while remaining > 0
        invariant
            stream.data == old(stream).data,
            data == old(stream).data@,
            data.len() <= u64::MAX,
            start == old(stream).pos,
            spec_children(data, start as int, content_len as nat) is Some <==> spec_children(
                data,
                stream.pos as int,
                remaining as nat,
            ) is Some,
        decreases remaining,
    {
        proof {
            lemma_parse_head_wf(data, stream.pos as int);
            lemma_children_step(data, Seq::empty(), stream.pos as int, remaining as nat);
        }
        let head = match parse_head(stream) {
            Ok(head) => head,
            Err(e) => {
                stream.seek_to(start);
                return Err(e);
            },
        };
        match stream.skip(head.content_len()) {
            Ok(_) => {},
            Err(e) => {
                stream.seek_to(start);
                return Err(e);
            },
        }
        remaining = remaining.saturating_sub(head.len());
    }
    proof {
        lemma_children_none(data, stream.pos as int, Seq::empty());
        lemma_children_tile(data, start as int, content_len as nat);
    }
    match seek_to_end(stream, start, content_len) {
        Ok(_) => Ok(()),
        Err(e) => {
            stream.seek_to(start);
            Err(e)
        },
    }
}

} // verus!
