use vstd::prelude::*;

verus! {

/// Index of the first blank line (two newline bytes) in `s`, or -1.
pub open spec fn first_break(s: Seq<u8>) -> int
    decreases s.len(),
{
    if s.len() < 2 {
        -1
    } else if first_break(s.drop_last()) >= 0 {
        first_break(s.drop_last())
    } else if s[s.len() - 2] == 10 && s.last() == 10 {
        s.len() - 2
    } else {
        -1
    }
}

/// The complete event blocks at the front of `s`, in order, each without
/// the blank line that ends it.
pub open spec fn blocks(s: Seq<u8>) -> Seq<Seq<u8>>
    decreases s.len(),
{
    let p = first_break(s);
    if p < 0 || p + 2 > s.len() {
        Seq::empty()
    } else {
        seq![s.take(p)] + blocks(s.skip(p + 2))
    }
}

/// What is left of `s` after its complete blocks: an event not yet ended.
pub open spec fn remainder(s: Seq<u8>) -> Seq<u8>
    decreases s.len(),
{
    let p = first_break(s);
    if p < 0 || p + 2 > s.len() {
        s
    } else {
        remainder(s.skip(p + 2))
    }
}

pub proof fn lemma_first_break_bounds(s: Seq<u8>)
    ensures
        -1 <= first_break(s),
        first_break(s) >= 0 ==> first_break(s) + 2 <= s.len(),
        first_break(s) >= 0 ==> s[first_break(s)] == 10 && s[first_break(s) + 1] == 10,
    decreases s.len(),
{
    if s.len() >= 2 {
        lemma_first_break_bounds(s.drop_last());
    }
}

/// A blank line found in `s` stays the first one whatever follows `s`.
pub proof fn lemma_first_break_extend(s: Seq<u8>, t: Seq<u8>)
    requires
        first_break(s) >= 0,
    ensures
        first_break(s + t) == first_break(s),
    decreases t.len(),
{
    if t.len() > 0 {
        lemma_first_break_extend(s, t.drop_last());
        assert((s + t).drop_last() =~= s + t.drop_last());
    } else {
        assert(s + t =~= s);
    }
}

/// Cutting a byte stream into event blocks does not depend on where the
/// stream was split into chunks: the blocks of `a` followed by those found
/// once `b` arrives are the blocks of `a + b`, and the same bytes are left.
pub proof fn lemma_chunking_invariant(a: Seq<u8>, b: Seq<u8>)
    ensures
        blocks(a) + blocks(remainder(a) + b) == blocks(a + b),
        remainder(remainder(a) + b) == remainder(a + b),
    decreases a.len(),
{
    let p = first_break(a);
    lemma_first_break_bounds(a);
    if p < 0 {
        assert(blocks(a) =~= Seq::<Seq<u8>>::empty());
        assert(blocks(a) + blocks(remainder(a) + b) =~= blocks(a + b));
    } else {
        lemma_first_break_extend(a, b);
        lemma_first_break_bounds(a + b);
        let rest = a.skip(p + 2);
        lemma_chunking_invariant(rest, b);
        assert((a + b).skip(p + 2) =~= rest + b);
        assert((a + b).take(p) =~= a.take(p));
        assert(blocks(a) + blocks(remainder(a) + b) =~= blocks(a + b));
    }
}

/// The contents of each byte vector of `v`.
pub open spec fn views(v: Seq<Vec<u8>>) -> Seq<Seq<u8>> {
    v.map_values(|b: Vec<u8>| b@)
}

/// Bytes received from an event stream and not yet cut into blocks.
pub struct EventBuffer {
    pending: Vec<u8>,
}

impl EventBuffer {
    pub closed spec fn pending(&self) -> Seq<u8> {
        self.pending@
    }

    pub fn new() -> (r: EventBuffer)
        ensures
            r.pending() == Seq::<u8>::empty(),
    {
        EventBuffer { pending: Vec::new() }
    }

    /// Appends `chunk` and cuts off every block that is now complete.
    pub fn feed(&mut self, chunk: &[u8]) -> (r: Vec<Vec<u8>>)
        ensures
            views(r@) == blocks(old(self).pending() + chunk@),
            final(self).pending() == remainder(old(self).pending() + chunk@),
    {
        let ghost all = self.pending@ + chunk@;
        let mut i: usize = 0;
        while i < chunk.len()
            invariant
                i <= chunk.len(),
                self.pending@ == old(self).pending@ + chunk@.take(i as int),
            decreases chunk.len() - i,
        {
            self.pending.push(chunk[i]);
            i = i + 1;
            assert(chunk@.take(i as int) =~= chunk@.take(i - 1) + seq![chunk@[i - 1]]);
        }
        assert(chunk@.take(chunk.len() as int) =~= chunk@);
        let mut out: Vec<Vec<u8>> = Vec::new();
        loop
            invariant
                all == old(self).pending@ + chunk@,
                views(out@) + blocks(self.pending@) == blocks(all),
                remainder(self.pending@) == remainder(all),
            decreases self.pending@.len(),
        {
            proof {
                lemma_first_break_bounds(self.pending@);
            }
            match find_break(&self.pending) {
                None => {
                    assert(blocks(self.pending@) =~= Seq::<Seq<u8>>::empty());
                    assert(views(out@) =~= blocks(all));
                    assert(remainder(self.pending@) == self.pending@);
                    return out;
                },
                Some(p) => {
                    assert(p + 2 <= self.pending.len());
                    let block = slice_bytes(&self.pending, 0, p);
                    let rest = slice_bytes(&self.pending, p + 2, self.pending.len());
                    let ghost old_out = views(out@);
                    assert(block@ =~= self.pending@.take(p as int));
                    assert(rest@ =~= self.pending@.skip(p + 2));
                    out.push(block);
                    assert(views(out@) =~= old_out.push(block@));
                    assert(old_out.push(block@) + blocks(rest@) =~= old_out + blocks(self.pending@));
                    self.pending = rest;
                },
            }
        }
    }
}

/// Position of the first blank line in `v`.
fn find_break(v: &Vec<u8>) -> (r: Option<usize>)
    ensures
        match r {
            Some(p) => first_break(v@) == p,
            None => first_break(v@) == -1,
        },
{
    if v.len() < 2 {
        return None;
    }
    let mut i: usize = 0;
    while i + 1 < v.len()
        invariant
            v.len() >= 2,
            i + 1 <= v.len(),
            first_break(v@.take(i + 1)) == -1,
        decreases v.len() - i,
    {
        assert(v@.take(i + 2).drop_last() =~= v@.take(i + 1));
        if v[i] == 10 && v[i + 1] == 10 {
            proof {
                lemma_first_break_extend(v@.take(i + 2), v@.skip(i + 2));
                assert(v@.take(i + 2) + v@.skip(i + 2) =~= v@);
            }
            return Some(i);
        }
        i = i + 1;
    }
    assert(v@.take(v.len() as int) =~= v@);
    None
}

/// The bytes of `v` from `from` up to `to`.
fn slice_bytes(v: &Vec<u8>, from: usize, to: usize) -> (r: Vec<u8>)
    requires
        from <= to <= v.len(),
    ensures
        r@ == v@.subrange(from as int, to as int),
{
    let mut r: Vec<u8> = Vec::new();
    let mut i: usize = from;
    while i < to
        invariant
            from <= i <= to <= v.len(),
            r@ == v@.subrange(from as int, i as int),
        decreases to - i,
    {
        r.push(v[i]);
        i = i + 1;
    }
    r
}

} // verus!
