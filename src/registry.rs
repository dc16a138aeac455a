use vstd::prelude::*;

verus! {

/// The entries of `s` whose flag in `failed` is unset, in their order.
pub open spec fn kept<C>(s: Seq<C>, failed: Seq<bool>) -> Seq<C>
    decreases s.len(),
{
    if s.len() == 0 || failed.len() == 0 {
        Seq::empty()
    } else {
        let rest = kept(s.drop_first(), failed.drop_first());
        if failed[0] {
            rest
        } else {
            seq![s[0]] + rest
        }
    }
}

/// The set of viewers that frames are broadcast to.
pub struct Registry<C> {
    connections: Vec<C>,
}

impl<C> View for Registry<C> {
    type V = Seq<C>;

    closed spec fn view(&self) -> Seq<C> {
        self.connections@
    }
}

impl<C> Registry<C> {
    /// An empty registry.
    pub fn new() -> (r: Registry<C>)
        ensures
            r@ == Seq::<C>::empty(),
    {
        Registry { connections: Vec::new() }
    }

    /// Number of registered connections.
    pub fn len(&self) -> (r: usize)
        ensures
            r == self@.len(),
    {
        self.connections.len()
    }

    /// Adds an accepted connection at the end.
    pub fn register(&mut self, connection: C)
        ensures
            final(self)@ == old(self)@.push(connection),
    {
        self.connections.push(connection);
    }

    /// The registered connection at `index`.
    pub fn get(&self, index: usize) -> (r: &C)
        requires
            index < self@.len(),
        ensures
            *r == self@[index as int],
    {
        &self.connections[index]
    }

    /// Removes each connection whose write failed (`failed[i]` for the
    /// connection at `i`); every other connection stays, in its order.
    pub fn evict(&mut self, failed: &Vec<bool>)
        requires
            failed@.len() == old(self)@.len(),
        ensures
            final(self)@ == kept(old(self)@, failed@),
    {
        let n = self.connections.len();
        let ghost s = self.connections@;
        let mut i: usize = n;
        proof {
            assert(s.subrange(n as int, n as int) =~= Seq::<C>::empty());
            assert(s.subrange(0, n as int) =~= s);
            assert(s.subrange(0, n as int) + kept(Seq::<C>::empty(), failed@.subrange(n as int, n as int)) =~= s);
        }
        while i > 0
            invariant
                n == s.len(),
                failed@.len() == n,
                i <= n,
                self.connections@ == s.subrange(0, i as int) + kept(
                    s.subrange(i as int, n as int),
                    failed@.subrange(i as int, n as int),
                ),
            decreases i,
        {
            let j = i - 1;
            proof {
                let tail = s.subrange(j as int, n as int);
                let ftail = failed@.subrange(j as int, n as int);
                assert(tail.drop_first() =~= s.subrange(i as int, n as int));
                assert(ftail.drop_first() =~= failed@.subrange(i as int, n as int));
                assert(tail[0] == s[j as int]);
                assert(ftail[0] == failed@[j as int]);
                assert(s.subrange(0, i as int) =~= s.subrange(0, j as int).push(s[j as int]));
            }
            if failed[j] {
                self.connections.remove(j);
            }
            proof {
                let rest = kept(s.subrange(i as int, n as int), failed@.subrange(i as int, n as int));
                if failed@[j as int] {
                    assert(self.connections@ =~= s.subrange(0, j as int) + rest);
                } else {
                    assert(self.connections@ =~= s.subrange(0, j as int) + (seq![s[j as int]] + rest));
                }
            }
            i = j;
        }
        proof {
            assert(s.subrange(0, 0) + kept(s.subrange(0, n as int), failed@.subrange(0, n as int)) =~= kept(s, failed@)) by {
                assert(s.subrange(0, n as int) =~= s);
                assert(failed@.subrange(0, n as int) =~= failed@);
            }
        }
    }
}

/// A connection whose write failed does not keep any other from staying
/// registered: after eviction exactly the connections without a failure
/// remain, in their order, each one found where it was among them.
pub proof fn eviction_keeps_the_healthy<C>(s: Seq<C>, failed: Seq<bool>, i: int)
    requires
        s.len() == failed.len(),
        0 <= i < s.len(),
        !failed[i],
    ensures
        kept(s, failed).contains(s[i]),
    decreases s.len(),
{
    if i == 0 {
        assert(kept(s, failed)[0] == s[0]);
    } else {
        eviction_keeps_the_healthy(s.drop_first(), failed.drop_first(), i - 1);
        let rest = kept(s.drop_first(), failed.drop_first());
        let j = choose|j: int| 0 <= j < rest.len() && rest[j] == s[i];
        if failed[0] {
            assert(kept(s, failed)[j] == s[i]);
        } else {
            assert(kept(s, failed)[j + 1] == s[i]);
        }
    }
}

/// Eviction removes every connection whose write failed: exactly as many
/// remain as had no failure.
pub proof fn eviction_drops_the_failed<C>(s: Seq<C>, failed: Seq<bool>)
    requires
        s.len() == failed.len(),
    ensures
        kept(s, failed).len() == failed.filter(|f: bool| !f).len(),
    decreases s.len(),
{
    reveal(Seq::filter);
    if s.len() == 0 {
    } else {
        eviction_drops_the_failed(s.drop_first(), failed.drop_first());
        assert(failed.drop_first() =~= failed.subrange(1, failed.len() as int));
        Seq::filter_distributes_over_add(
            seq![failed[0]], failed.drop_first(), |f: bool| !f);
        assert(failed =~= seq![failed[0]] + failed.drop_first());
        let one = seq![failed[0]];
        assert(one.drop_last() =~= Seq::<bool>::empty());
        assert(Seq::<bool>::empty().filter(|f: bool| !f) =~= Seq::<bool>::empty());
        assert(one.filter(|f: bool| !f).len() == if failed[0] { 0int } else { 1int });
    }
}

} // verus!
