//! The pool of channels: at most one for each address, made at the first use
//! of the address and handed out again at every later one.

use vstd::prelude::*;

verus! {

/// Place of `addr` among the entries of a pool, if it has one.
pub open spec fn position<C>(entries: Seq<(Seq<char>, C)>, addr: Seq<char>) -> Option<int> {
    if exists|i: int| 0 <= i < entries.len() && entries[i].0 == addr {
        Some(choose|i: int| 0 <= i < entries.len() && entries[i].0 == addr)
    } else {
        None
    }
}

/// No address has two entries.
pub open spec fn distinct_addrs<C>(entries: Seq<(Seq<char>, C)>) -> bool {
    forall|i: int, j: int|
        0 <= i < entries.len() && 0 <= j < entries.len() && entries[i].0 == entries[j].0 ==> i
            == j
}

/// The entries of a pool after `addr` was asked for, where `made` is the
/// channel that is set up if the pool has none for it yet.
pub open spec fn after_use<C>(entries: Seq<(Seq<char>, C)>, addr: Seq<char>, made: C) -> Seq<
    (Seq<char>, C),
> {
    if position(entries, addr) is Some {
        entries
    } else {
        entries.push((addr, made))
    }
}

/// The channel that serves `addr`, in a pool that has one for it.
pub open spec fn channel_of<C>(entries: Seq<(Seq<char>, C)>, addr: Seq<char>) -> C
    recommends
        position(entries, addr) is Some,
{
    entries[position(entries, addr)->Some_0].1
}

/// Channels by address, in the order in which they were made.
pub struct ChannelPool<C> {
    entries: Vec<(String, C)>,
}

impl<C> ChannelPool<C> {
    /// Addresses and channels, in the order in which the channels were made.
    pub closed spec fn entries(&self) -> Seq<(Seq<char>, C)> {
        Seq::new(self.entries@.len(), |i: int| (self.entries@[i].0@, self.entries@[i].1))
    }

    /// Holds of every pool that this module hands out.
    pub open spec fn wf(&self) -> bool {
        distinct_addrs(self.entries())
    }

    pub open spec fn spec_len(&self) -> nat {
        self.entries().len()
    }

    pub open spec fn spec_contains(&self, addr: Seq<char>) -> bool {
        position(self.entries(), addr) is Some
    }

    pub fn new() -> (pool: ChannelPool<C>)
        ensures
            pool.wf(),
            pool.entries() == Seq::<(Seq<char>, C)>::empty(),
    {
        let pool = ChannelPool { entries: Vec::new() };
        pool
    }

    /// Number of channels.
    pub fn len(&self) -> (len: usize)
        ensures
            len == self.spec_len(),
    {
        self.entries.len()
    }

    /// Place of the channel that serves `addr`.
    pub fn find(&self, addr: &str) -> (place: Option<usize>)
        requires
            self.wf(),
        ensures
            match place {
                Some(i) => position(self.entries(), addr@) == Some(i as int) && i
                    < self.spec_len(),
                None => position(self.entries(), addr@) is None,
            },
    {
        let key = addr.to_owned();
        let mut i: usize = 0;
        while i < self.entries.len()
            invariant
                self.wf(),
                key@ == addr@,
                0 <= i <= self.entries@.len(),
                forall|j: int| 0 <= j < i ==> self.entries()[j].0 != addr@,
            decreases self.entries@.len() - i,
        {
            if self.entries[i].0 == key {
                assert(self.entries()[i as int].0 == addr@);
                return Some(i);
            }
            i += 1;
        }
        None
    }

    /// The channel that serves `addr`, if one was made.
    pub fn get(&self, addr: &str) -> (channel: Option<&C>)
        requires
            self.wf(),
        ensures
            channel is Some <==> self.spec_contains(addr@),
            channel matches Some(found) ==> *found == channel_of(self.entries(), addr@),
    {
        match self.find(addr) {
            Some(i) => Some(&self.entries[i].1),
            None => None,
        }
    }

    /// The channel at a place of the pool.
    pub fn channel(&self, place: usize) -> (channel: &C)
        requires
            place < self.spec_len(),
        ensures
            *channel == self.entries()[place as int].1,
    {
        &self.entries[place].1
    }

    /// The place of the channel that serves `addr`. Where the pool has none
    /// for it yet, `connect` is asked to set one up: its channel joins the
    /// pool, and its failure is handed on and leaves the pool as it was. Where
    /// the pool has one, the pool stays as it is and nothing is set up.
    pub fn get_or_connect<E, F: FnOnce(&str) -> Result<C, E>>(
        &mut self,
        addr: &str,
        connect: F,
    ) -> (outcome: Result<usize, E>)
        requires
            old(self).wf(),
            !old(self).spec_contains(addr@) ==> call_requires(connect, (addr,)),
        ensures
            final(self).wf(),
            old(self).spec_contains(addr@) ==> final(self).entries() == old(self).entries()
                && outcome is Ok,
            !old(self).spec_contains(addr@) ==> exists|made: Result<C, E>|
                #[trigger] call_ensures(connect, (addr,), made) && match made {
                    Ok(channel) => final(self).entries() == after_use(
                        old(self).entries(),
                        addr@,
                        channel,
                    ) && outcome is Ok,
                    Err(error) => final(self).entries() == old(self).entries() && outcome
                        == Err::<usize, E>(error),
                },
            outcome matches Ok(place) ==> position(final(self).entries(), addr@) == Some(
                place as int,
            ) && place < final(self).spec_len(),
            forall|other: Seq<char>|
                old(self).spec_contains(other) ==> #[trigger] final(self).spec_contains(other)
                    && channel_of(final(self).entries(), other) == channel_of(
                    old(self).entries(),
                    other,
                ),
    {
        match self.find(addr) {
            Some(i) => Ok(i),
            None => {
                let made = connect(addr);
                match made {
                    Ok(channel) => {
                        let place = self.entries.len();
                        self.entries.push((addr.to_owned(), channel));
                        proof {
                            let before = old(self).entries();
                            let after = self.entries();
                            assert(after =~= after_use(before, addr@, channel));
                            lemma_use_converges(before, addr@, channel, channel);
                            assert forall|other: Seq<char>|
                                position(before, other) is Some implies #[trigger] position(
                                after,
                                other,
                            ) is Some && channel_of(after, other) == channel_of(before, other) by {
                                lemma_use_keeps_others(before, addr@, channel, other);
                            }
                        }
                        Ok(place)
                    },
                    Err(error) => Err(error),
                }
            },
        }
    }
}

/// Asking twice for one address gives one channel: after the first use the
/// pool serves the address, a second use changes nothing and is served by the
/// same channel, whatever would have been set up then, and that channel is
/// the one that the pool had before, if it had one, and else the first one
/// made, which stands behind all that were there.
pub proof fn lemma_use_converges<C>(
    entries: Seq<(Seq<char>, C)>,
    addr: Seq<char>,
    first: C,
    second: C,
)
    requires
        distinct_addrs(entries),
    ensures
        distinct_addrs(after_use(entries, addr, first)),
        position(after_use(entries, addr, first), addr) is Some,
        position(entries, addr) is None ==> position(after_use(entries, addr, first), addr)
            == Some(entries.len() as int),
        after_use(after_use(entries, addr, first), addr, second) == after_use(
            entries,
            addr,
            first,
        ),
        channel_of(after_use(entries, addr, first), addr) == if position(entries, addr) is Some {
            channel_of(entries, addr)
        } else {
            first
        },
{
    let once = after_use(entries, addr, first);
    if position(entries, addr) is None {
        assert(once[entries.len() as int].0 == addr);
    }
}

/// The use of one address leaves the channels of all others as they are.
pub proof fn lemma_use_keeps_others<C>(
    entries: Seq<(Seq<char>, C)>,
    addr: Seq<char>,
    made: C,
    other: Seq<char>,
)
    requires
        distinct_addrs(entries),
        other != addr,
        position(entries, other) is Some,
    ensures
        position(after_use(entries, addr, made), other) is Some,
        channel_of(after_use(entries, addr, made), other) == channel_of(entries, other),
{
    let after = after_use(entries, addr, made);
    let place = position(entries, other)->Some_0;
    assert(after[place].0 == other);
}

/// The entries of a pool after a run of uses, one after the other: each use
/// names the address asked for and the channel that is set up if the pool
/// has none for it then.
pub open spec fn after_uses<C>(entries: Seq<(Seq<char>, C)>, uses: Seq<(Seq<char>, C)>) -> Seq<
    (Seq<char>, C),
>
    decreases uses.len(),
{
    if uses.len() == 0 {
        entries
    } else {
        after_uses(after_use(entries, uses[0].0, uses[0].1), uses.drop_first())
    }
}

/// Once an address is served, it is served by the same channel for good:
/// however many uses follow, of this address or of others, and whatever
/// they would set up, its channel stays the one that it was.
pub proof fn lemma_uses_keep_channel<C>(
    entries: Seq<(Seq<char>, C)>,
    addr: Seq<char>,
    uses: Seq<(Seq<char>, C)>,
)
    requires
        distinct_addrs(entries),
        position(entries, addr) is Some,
    ensures
        distinct_addrs(after_uses(entries, uses)),
        position(after_uses(entries, uses), addr) is Some,
        channel_of(after_uses(entries, uses), addr) == channel_of(entries, addr),
    decreases uses.len(),
{
    if uses.len() > 0 {
        let next = after_use(entries, uses[0].0, uses[0].1);
        lemma_use_converges(entries, uses[0].0, uses[0].1, uses[0].1);
        if uses[0].0 != addr {
            lemma_use_keeps_others(entries, uses[0].0, uses[0].1, addr);
        }
        lemma_uses_keep_channel(next, addr, uses.drop_first());
    }
}

} // verus!
