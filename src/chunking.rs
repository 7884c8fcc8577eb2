use vstd::prelude::*;

verus! {

/// The chunks that a token stream `s` is cut into under budget `b`: the whole
/// stream when it fits, else windows of `b` tokens taken from the front, the
/// last one possibly shorter.
pub open spec fn chunks_of(s: Seq<u32>, b: nat) -> Seq<Seq<u32>>
    decreases s.len(),
{
    if s.len() <= b || b == 0 {
        seq![s]
    } else {
        seq![s.take(b as int)] + chunks_of(s.skip(b as int), b)
    }
}

/// The tokens of a sequence of chunks, in order.
pub open spec fn concat_chunks(cs: Seq<Seq<u32>>) -> Seq<u32>
    decreases cs.len(),
{
    if cs.len() == 0 {
        Seq::empty()
    } else {
        cs[0] + concat_chunks(cs.drop_first())
    }
}

/// The number of chunks of a stream of `n` tokens under budget `b`:
/// `ceil(n / b)`, and one for an empty stream.
pub open spec fn chunk_count(n: nat, b: nat) -> nat {
    if n == 0 {
        1
    } else {
        ((n + b - 1) / b as int) as nat
    }
}

/// The view of a vector of token vectors.
pub open spec fn chunks_view(v: Seq<Vec<u32>>) -> Seq<Seq<u32>> {
    v.map_values(|c: Vec<u32>| c@)
}

/// Cuts `stream` into chunks of at most `budget` tokens, in order.
pub fn plan_chunks(stream: &Vec<u32>, budget: usize) -> (r: Vec<Vec<u32>>)
    requires
        budget > 0,
    ensures
        chunks_view(r@) == chunks_of(stream@, budget as nat),
{
    let n = stream.len();
    let mut r: Vec<Vec<u32>> = Vec::new();
    if n <= budget {
        r.push(stream.clone());
        proof {
            assert(chunks_view(r@) =~= seq![stream@]);
        }
        return r;
    }
    let mut start: usize = 0;
    proof {
        assert(chunks_view(r@) =~= Seq::<Seq<u32>>::empty());
        assert(stream@.skip(0) =~= stream@);
    }
    while start < n
        invariant
            n == stream@.len(),
            budget > 0,
            n > budget,
            start <= n,
            start < n ==> chunks_view(r@) + chunks_of(stream@.skip(start as int), budget as nat)
                == chunks_of(stream@, budget as nat),
            start == n ==> chunks_view(r@) == chunks_of(stream@, budget as nat),
        decreases n - start,
    {
        let end: usize = if n - start < budget { n } else { start + budget };
        let mut chunk: Vec<u32> = Vec::new();
        let mut i: usize = start;
        while i < end
            invariant
                start <= i <= end <= n,
                n == stream@.len(),
                chunk@ == stream@.subrange(start as int, i as int),
            decreases end - i,
        {
            chunk.push(stream[i]);
            i += 1;
            proof {
                assert(chunk@ =~= stream@.subrange(start as int, i as int));
            }
        }
        let ghost rest = stream@.skip(start as int);
        let ghost old_r = chunks_view(r@);
        r.push(chunk);
        proof {
            assert(chunks_view(r@) =~= old_r + seq![chunk@]);
            if end == n {
                assert(rest.len() <= budget);
                assert(chunk@ =~= rest);
                assert(chunks_of(rest, budget as nat) == seq![rest]);
                assert(chunks_view(r@) =~= old_r + chunks_of(rest, budget as nat));
            } else {
                assert(rest.len() > budget);
                assert(chunk@ =~= rest.take(budget as int));
                assert(rest.skip(budget as int) =~= stream@.skip(end as int));
                assert(chunks_of(rest, budget as nat) == seq![chunk@] + chunks_of(
                    stream@.skip(end as int),
                    budget as nat,
                ));
                assert(old_r + chunks_of(rest, budget as nat) =~= chunks_view(r@) + chunks_of(
                    stream@.skip(end as int),
                    budget as nat,
                ));
            }
        }
        start = end;
    }
    r
}

/// Chunking loses and repeats nothing: for a budget above zero, the chunks
/// put back together in order give the stream, there are `ceil(len / b)` of
/// them (one empty chunk for an empty stream), and none holds more than `b`
/// tokens.
pub proof fn law_chunks_cover_stream(s: Seq<u32>, b: nat)
    requires
        b > 0,
    ensures
        concat_chunks(chunks_of(s, b)) == s,
        chunks_of(s, b).len() == chunk_count(s.len(), b),
        forall|i: int| 0 <= i < chunks_of(s, b).len() ==> #[trigger] chunks_of(s, b)[i].len() <= b,
        s.len() > 0 ==> forall|i: int|
            0 <= i < chunks_of(s, b).len() ==> #[trigger] chunks_of(s, b)[i].len() > 0,
    decreases s.len(),
{
    if s.len() <= b {
        assert(concat_chunks(seq![s].drop_first()) == Seq::<u32>::empty());
        assert(s + Seq::<u32>::empty() =~= s);
        if s.len() > 0 {
            assert((s.len() + b - 1) / b as int == 1) by (nonlinear_arith)
                requires
                    0 < s.len() <= b,
            ;
        }
    } else {
        let rest = s.skip(b as int);
        law_chunks_cover_stream(rest, b);
        let cs = chunks_of(s, b);
        assert(cs.drop_first() =~= chunks_of(rest, b));
        assert(s.take(b as int) + rest =~= s);
        let n = s.len();
        assert((n + b - 1) / b as int == 1 + (((n - b) + b - 1) / b as int)) by (nonlinear_arith)
            requires
                n > b > 0,
        {
            assert(n + b - 1 == (n - b + b - 1) + b);
        }
        assert forall|i: int| 0 <= i < cs.len() implies #[trigger] cs[i].len() <= b && cs[i].len()
            > 0 by {
            if i > 0 {
                assert(cs[i] == chunks_of(rest, b)[i - 1]);
            }
        }
    }
}

/// Chunking is deterministic: the same stream under the same budget is always
/// cut into the same chunks.
pub proof fn law_chunks_deterministic(s1: Seq<u32>, b1: nat, s2: Seq<u32>, b2: nat)
    requires
        s1 == s2,
        b1 == b2,
    ensures
        chunks_of(s1, b1) == chunks_of(s2, b2),
{
}

/// A stream that fits the budget is one chunk, the stream itself.
pub proof fn law_fitting_stream_is_one_chunk(s: Seq<u32>, b: nat)
    requires
        s.len() <= b,
    ensures
        chunks_of(s, b) == seq![s],
{
}

} // verus!
