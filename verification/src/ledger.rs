//! The bounded observation ledger: a fixed-capacity sliding window of past
//! observed quotes, mutated only by the signature-checked `update_price`
//! state transition.

use vstd::prelude::*;
use std::collections::VecDeque;
use crate::system::Origin;

verus! {

broadcast use vstd::std_specs::vecdeque::group_vec_dequeue_axioms;

/// Capacity of the observation window.
pub const PRICES_VEC_LEN: usize = 10;

/// The only failure an `update_price` transition can report: the caller was
/// not an authenticated account. Value content is never rejected.
#[derive(Clone, Copy, Debug, PartialEq, Eq, Structural)]
pub enum LedgerError {
    AuthorizationFailure,
}

/// An observable notification the ledger emits.
#[derive(Debug, PartialEq, Eq)]
pub enum LedgerEvent {
    /// A new quote was appended, by this account with this value.
    PriceUpdated(u64, Vec<u8>),
}

/// One slot of the window: an observed quote, or a historical gap.
pub open spec fn obs_view(o: Option<Vec<u8>>) -> Option<Seq<u8>> {
    match o {
        Option::Some(v) => Option::Some(v@),
        Option::None => Option::None,
    }
}

/// Appending to the window: a full window first sheds its oldest entry.
pub open spec fn push_evict(s: Seq<Option<Seq<u8>>>, v: Option<Seq<u8>>) -> Seq<Option<Seq<u8>>> {
    if s.len() >= PRICES_VEC_LEN {
        s.drop_first().push(v)
    } else {
        s.push(v)
    }
}

/// The window left by a whole run of appends, oldest first.
pub open spec fn push_evict_all(
    s: Seq<Option<Seq<u8>>>,
    vs: Seq<Option<Seq<u8>>>,
) -> Seq<Option<Seq<u8>>>
    decreases vs.len(),
{
    if vs.len() == 0 {
        s
    } else {
        push_evict_all(push_evict(s, vs[0]), vs.drop_first())
    }
}

/// The observation ledger and its notification log.
pub struct PriceLedger {
    prices: VecDeque<Option<Vec<u8>>>,
    events: Vec<LedgerEvent>,
}

impl PriceLedger {
    /// The stored window, oldest first.
    pub closed spec fn prices_view(&self) -> Seq<Option<Seq<u8>>> {
        self.prices@.map_values(|o: Option<Vec<u8>>| obs_view(o))
    }

    /// The emitted notifications, as (account, value) pairs, oldest first.
    pub closed spec fn events_view(&self) -> Seq<(u64, Seq<u8>)> {
        self.events@.map_values(
            |e: LedgerEvent|
                match e {
                    LedgerEvent::PriceUpdated(who, p) => (who, p@),
                },
        )
    }

    /// The window never outgrows its capacity.
    pub open spec fn wf(&self) -> bool {
        self.prices_view().len() <= PRICES_VEC_LEN
    }

    /// An empty ledger with no notifications.
    pub fn new() -> (ledger: PriceLedger)
        ensures
            ledger.wf(),
            ledger.prices_view() == Seq::<Option<Seq<u8>>>::empty(),
            ledger.events_view() == Seq::<(u64, Seq<u8>)>::empty(),
    {
        let ledger = PriceLedger { prices: VecDeque::new(), events: Vec::new() };
        proof {
            assert(ledger.prices_view() =~= Seq::<Option<Seq<u8>>>::empty());
            assert(ledger.events_view() =~= Seq::<(u64, Seq<u8>)>::empty());
        }
        ledger
    }

    /// How many observations the window holds.
    pub fn len(&self) -> (n: usize)
        ensures
            n == self.prices_view().len(),
    {
        self.prices.len()
    }

    /// Reads one slot of the window, oldest first.
    pub fn dot_prices(&self, i: usize) -> (o: &Option<Vec<u8>>)
        requires
            i < self.prices_view().len(),
        ensures
            obs_view(*o) == self.prices_view()[i as int],
    {
        &self.prices[i]
    }

    /// How many notifications have been emitted.
    pub fn events_len(&self) -> (n: usize)
        ensures
            n == self.events_view().len(),
    {
        self.events.len()
    }

    /// Reads one emitted notification.
    pub fn event(&self, i: usize) -> (e: &LedgerEvent)
        requires
            i < self.events_view().len(),
        ensures
            (e matches LedgerEvent::PriceUpdated(who, p) && self.events_view()[i as int] == (
            *who,
            p@,
            )),
    {
        &self.events[i]
    }

    /// The signed state transition that appends one observed value. A full
    /// window evicts its oldest entry first; an unauthenticated caller is
    /// the only failure, and it changes nothing.
    pub fn update_price(&mut self, origin: Origin, price: Vec<u8>) -> (r: Result<(), LedgerError>)
        requires
            old(self).wf(),
        ensures
            final(self).wf(),
            match origin {
                Origin::Signed(who) => {
                    &&& r is Ok
                    &&& final(self).prices_view() == push_evict(
                        old(self).prices_view(),
                        Option::Some(price@),
                    )
                    &&& final(self).events_view() == old(self).events_view().push((who, price@))
                },
                _ => {
                    &&& (r matches Err(e) && e == LedgerError::AuthorizationFailure)
                    &&& final(self).prices_view() == old(self).prices_view()
                    &&& final(self).events_view() == old(self).events_view()
                },
            },
    {
        let who = match crate::system::ensure_signed(origin) {
            Option::Some(who) => who,
            Option::None => {
                return Err(LedgerError::AuthorizationFailure);
            },
        };
        if self.prices.len() == PRICES_VEC_LEN {
            let _ = self.prices.pop_front();
        }
        let stored = price.clone();
        self.prices.push_back(Option::Some(stored));
        self.events.push(LedgerEvent::PriceUpdated(who, price));
        proof {
            assert(self.prices_view() =~= push_evict(
                old(self).prices_view(),
                Option::Some(price@),
            ));
            assert(self.events_view() =~= old(self).events_view().push((who, price@)));
        }
        Ok(())
    }
}

/// Appending to a full window evicts exactly the oldest entry and keeps the
/// relative order of the remaining entries.
pub proof fn lemma_eviction_order(s: Seq<Option<Seq<u8>>>, v: Option<Seq<u8>>)
    requires
        s.len() == PRICES_VEC_LEN,
    ensures
        push_evict(s, v).len() == PRICES_VEC_LEN,
        push_evict(s, v)[PRICES_VEC_LEN - 1] == v,
        forall|i: int| 0 <= i < PRICES_VEC_LEN - 1 ==> push_evict(s, v)[i] == s[i + 1],
{
}

/// A run of appends never grows the window past its capacity.
pub proof fn lemma_ledger_bound(s: Seq<Option<Seq<u8>>>, vs: Seq<Option<Seq<u8>>>)
    requires
        s.len() <= PRICES_VEC_LEN,
    ensures
        push_evict_all(s, vs).len() <= PRICES_VEC_LEN,
    decreases vs.len(),
{
    if vs.len() > 0 {
        lemma_ledger_bound(push_evict(s, vs[0]), vs.drop_first());
    }
}

/// What a run of appends leaves behind, in full: a run that fits is kept
/// whole behind the starting window, and a longer run leaves exactly the
/// last `PRICES_VEC_LEN` values of window-then-run, in submission order.
pub proof fn lemma_ledger_run(s: Seq<Option<Seq<u8>>>, vs: Seq<Option<Seq<u8>>>)
    requires
        s.len() <= PRICES_VEC_LEN,
    ensures
        push_evict_all(s, vs) == if s.len() + vs.len() <= PRICES_VEC_LEN {
            s + vs
        } else {
            (s + vs).subrange(
                s.len() + vs.len() - PRICES_VEC_LEN,
                (s.len() + vs.len()) as int,
            )
        },
    decreases vs.len(),
{
    if vs.len() == 0 {
        assert(push_evict_all(s, vs) =~= s + vs);
    } else {
        let rest = vs.drop_first();
        if s.len() < PRICES_VEC_LEN {
            let grown = s.push(vs[0]);
            assert(push_evict(s, vs[0]) == grown);
            lemma_ledger_run(grown, rest);
            assert(grown + rest =~= s + vs);
        } else {
            let slid = s.drop_first().push(vs[0]);
            assert(push_evict(s, vs[0]) == slid);
            lemma_ledger_run(slid, rest);
            assert(slid + rest =~= (s + vs).drop_first());
            if slid.len() + rest.len() <= PRICES_VEC_LEN {
                assert(push_evict_all(s, vs) =~= (s + vs).subrange(
                    s.len() + vs.len() - PRICES_VEC_LEN,
                    (s.len() + vs.len()) as int,
                ));
            } else {
                assert(push_evict_all(s, vs) =~= (s + vs).subrange(
                    s.len() + vs.len() - PRICES_VEC_LEN,
                    (s.len() + vs.len()) as int,
                ));
            }
        }
    }
}

/// After at least `PRICES_VEC_LEN` appends to an initially empty ledger,
/// the window is exactly the last `PRICES_VEC_LEN` appended values, in
/// submission order.
pub proof fn lemma_ledger_window(vs: Seq<Option<Seq<u8>>>)
    requires
        vs.len() >= PRICES_VEC_LEN,
    ensures
        push_evict_all(Seq::empty(), vs) == vs.subrange(
            vs.len() - PRICES_VEC_LEN,
            vs.len() as int,
        ),
{
    lemma_ledger_run(Seq::empty(), vs);
    assert((Seq::<Option<Seq<u8>>>::empty() + vs) =~= vs);
    assert(push_evict_all(Seq::empty(), vs) =~= vs.subrange(
        vs.len() - PRICES_VEC_LEN,
        vs.len() as int,
    ));
}

} // verus!
