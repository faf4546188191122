use vstd::prelude::*;
use std::collections::VecDeque;
use crate::messages::{Market, Order, Trade};

verus! {

/// A record that belongs to one market.
pub trait MarketScoped: Sized {
    spec fn market_of(&self) -> i64;

    fn market_id(&self) -> (r: i64)
        ensures
            r == self.market_of(),
    ;
}

impl MarketScoped for Order {
    open spec fn market_of(&self) -> i64 {
        self.market_id
    }

    fn market_id(&self) -> (r: i64) {
        self.market_id
    }
}

impl MarketScoped for Trade {
    open spec fn market_of(&self) -> i64 {
        self.market_id
    }

    fn market_id(&self) -> (r: i64) {
        self.market_id
    }
}

/// The length of the longest prefix of `items` that belongs to market `id`.
pub open spec fn run_len<T: MarketScoped>(items: Seq<T>, id: i64) -> nat
    decreases items.len(),
{
    if items.len() > 0 && items[0].market_of() == id {
        1 + run_len(items.drop_first(), id)
    } else {
        0
    }
}

/// The records of each market in turn, taken from the front of `items`:
/// for each id the longest prefix of what is left that belongs to it.
pub open spec fn chunks<T: MarketScoped>(ids: Seq<i64>, items: Seq<T>) -> Seq<Seq<T>>
    decreases ids.len(),
{
    if ids.len() == 0 {
        seq![]
    } else {
        let n = run_len(items, ids[0]);
        seq![items.take(n as int)] + chunks(ids.drop_first(), items.skip(n as int))
    }
}

proof fn lemma_run_len<T: MarketScoped>(front: Seq<T>, back: Seq<T>, id: i64)
    requires
        forall|i: int| 0 <= i < front.len() ==> front[i].market_of() == id,
        back.len() > 0 ==> back[0].market_of() != id,
    ensures
        run_len(front + back, id) == front.len(),
    decreases front.len(),
{
    if front.len() > 0 {
        assert((front + back).drop_first() =~= front.drop_first() + back);
        lemma_run_len(front.drop_first(), back, id);
    } else {
        assert(front + back =~= back);
    }
}

/// A cursor over records ordered by market, with one record of lookahead.
pub struct Cursor<T> {
    pub peeked: Option<T>,
    pub rest: VecDeque<T>,
}

impl<T: MarketScoped> Cursor<T> {
    /// The records not yet handed out, lookahead first.
    pub open spec fn remaining(&self) -> Seq<T> {
        match self.peeked {
            Some(x) => seq![x] + self.rest@,
            None => self.rest@,
        }
    }

    /// The lookahead is empty only once everything has been handed out.
    pub open spec fn wf(&self) -> bool {
        self.peeked is None ==> self.rest@.len() == 0
    }

    pub fn new(items: Vec<T>) -> (r: Cursor<T>)
        ensures
            r.wf(),
            r.remaining() == items@,
    {
        let mut rest = into_queue(items);
        let peeked = rest.pop_front();
        let r = Cursor { peeked, rest };
        assert(r.remaining() =~= items@);
        r
    }

    /// Hands out the records of market `market_id` at the front of the
    /// cursor, and stops at the first record of another market.
    pub fn take_chunk(&mut self, market_id: i64) -> (chunk: Vec<T>)
        requires
            old(self).wf(),
        ensures
            final(self).wf(),
            chunk@ == old(self).remaining().take(run_len(old(self).remaining(), market_id) as int),
            final(self).remaining() == old(self).remaining().skip(
                run_len(old(self).remaining(), market_id) as int,
            ),
    {
        let mut chunk: Vec<T> = Vec::new();
        let first = self.peeked.take();
        match first {
            None => {
                assert(old(self).remaining() =~= chunk@ + self.remaining());
            },
            Some(v) => {
                if v.market_id() != market_id {
                    self.peeked = Some(v);
                    assert(old(self).remaining() =~= chunk@ + self.remaining());
                } else {
                    chunk.push(v);
                    assert(old(self).remaining() =~= chunk@ + self.rest@);
                    loop
                        invariant_except_break
                            self.peeked is None,
                        invariant
                            old(self).remaining() == chunk@ + self.remaining(),
                            forall|i: int| 0 <= i < chunk@.len() ==> chunk@[i].market_of() == market_id,
                        ensures
                            self.wf(),
                            self.remaining().len() > 0 ==> self.remaining()[0].market_of() != market_id,
                        decreases self.rest@.len(),
                    {
                        let next = self.rest.pop_front();
                        match next {
                            None => {
                                break;
                            },
                            Some(v) => {
                                if v.market_id() != market_id {
                                    self.peeked = Some(v);
                                    break;
                                }
                                chunk.push(v);
                            },
                        }
                    }
                }
            },
        }
        proof {
            lemma_run_len(chunk@, self.remaining(), market_id);
            assert(chunk@ =~= old(self).remaining().take(chunk@.len() as int));
            assert(self.remaining() =~= old(self).remaining().skip(chunk@.len() as int));
        }
        chunk
    }
}

fn into_queue<T>(items: Vec<T>) -> (r: VecDeque<T>)
    ensures
        r@ == items@,
{
    let mut items = items;
    let mut queue: VecDeque<T> = VecDeque::new();
    let ghost all = items@;
    while items.len() > 0
        invariant
            all == items@ + queue@,
        decreases items.len(),
    {
        let x = items.pop().unwrap();
        queue.push_front(x);
        assert(all =~= items@ + queue@);
    }
    assert(queue@ =~= all);
    queue
}

/// `m` and `base` agree on everything but the market's orders and trades.
pub open spec fn same_header(m: Market, base: Market) -> bool {
    &&& m.id == base.id
    &&& m.name == base.name
    &&& m.description == base.description
    &&& m.owner_id == base.owner_id
    &&& m.min_settlement == base.min_settlement
    &&& m.max_settlement == base.max_settlement
    &&& m.settled_price == base.settled_price
}

/// Fills one market with its live orders and its trades, taken from the
/// front of the two cursors.
pub fn fill_market(market: Market, orders: &mut Cursor<Order>, trades: &mut Cursor<Trade>) -> (r: Market)
    requires
        old(orders).wf(),
        old(trades).wf(),
    ensures
        final(orders).wf(),
        final(trades).wf(),
        same_header(r, market),
        r.orders@ == chunks(seq![market.id], old(orders).remaining())[0],
        r.trades@ == chunks(seq![market.id], old(trades).remaining())[0],
        final(orders).remaining() == old(orders).remaining().skip(
            run_len(old(orders).remaining(), market.id) as int,
        ),
        final(trades).remaining() == old(trades).remaining().skip(
            run_len(old(trades).remaining(), market.id) as int,
        ),
{
    let mut market = market;
    let id = market.id;
    market.orders = orders.take_chunk(id);
    market.trades = trades.take_chunk(id);
    market
}

pub open spec fn market_ids(markets: Seq<Market>) -> Seq<i64> {
    markets.map_values(|m: Market| m.id)
}

/// The markets of the snapshot, each with the live orders and trades that
/// the streaming join gives it: every market in turn takes the records of
/// its own id from the front of what is left of each cursor.
pub fn assemble_snapshot(markets: Vec<Market>, orders: Vec<Order>, trades: Vec<Trade>) -> (r: Vec<Market>)
    ensures
        r@.len() == markets@.len(),
        forall|i: int|
            0 <= i < r@.len() ==> {
                &&& same_header(#[trigger] r@[i], markets@[i])
                &&& r@[i].orders@ == chunks(market_ids(markets@), orders@)[i]
                &&& r@[i].trades@ == chunks(market_ids(markets@), trades@)[i]
            },
{
    let ghost ids = market_ids(markets@);
    let ghost all = markets@;
    let mut pending = into_queue(markets);
    let mut order_cursor = Cursor::new(orders);
    let mut trade_cursor = Cursor::new(trades);
    let mut done: Vec<Market> = Vec::new();
    let ghost mut order_chunks: Seq<Seq<Order>> = seq![];
    let ghost mut trade_chunks: Seq<Seq<Trade>> = seq![];
    while pending.len() > 0
        invariant
            order_cursor.wf(),
            trade_cursor.wf(),
            pending@ == all.skip(done@.len() as int),
            done@.len() <= all.len(),
            ids == market_ids(all),
            order_chunks.len() == done@.len(),
            trade_chunks.len() == done@.len(),
            chunks(ids, orders@) == order_chunks + chunks(market_ids(pending@), order_cursor.remaining()),
            chunks(ids, trades@) == trade_chunks + chunks(market_ids(pending@), trade_cursor.remaining()),
            forall|i: int|
                0 <= i < done@.len() ==> {
                    &&& same_header(#[trigger] done@[i], all[i])
                    &&& done@[i].orders@ == order_chunks[i]
                    &&& done@[i].trades@ == trade_chunks[i]
                },
        decreases pending@.len(),
    {
        let ghost before = pending@;
        let ghost rem_o = order_cursor.remaining();
        let ghost rem_t = trade_cursor.remaining();
        let market = pending.pop_front().unwrap();
        assert(market == all[done@.len() as int]);
        let filled = fill_market(market, &mut order_cursor, &mut trade_cursor);
        proof {
            assert(market_ids(before).drop_first() =~= market_ids(pending@));
            assert(market_ids(before)[0] == market.id);
            let co = chunks(market_ids(before), rem_o);
            let ct = chunks(market_ids(before), rem_t);
            assert(chunks(seq![market.id], rem_o)[0] == co[0]);
            assert(chunks(seq![market.id], rem_t)[0] == ct[0]);
            assert(co =~= seq![co[0]] + chunks(market_ids(pending@), order_cursor.remaining()));
            assert(ct =~= seq![ct[0]] + chunks(market_ids(pending@), trade_cursor.remaining()));
            order_chunks = order_chunks.push(filled.orders@);
            trade_chunks = trade_chunks.push(filled.trades@);
        }
        done.push(filled);
        proof {
            assert(pending@ =~= all.skip(done@.len() as int));
            assert(chunks(ids, orders@) =~= order_chunks + chunks(market_ids(pending@), order_cursor.remaining()));
            assert(chunks(ids, trades@) =~= trade_chunks + chunks(market_ids(pending@), trade_cursor.remaining()));
        }
    }
    proof {
        assert(done@.len() == all.len());
        assert(market_ids(pending@) =~= seq![]);
        assert(order_chunks =~= chunks(ids, orders@));
        assert(trade_chunks =~= chunks(ids, trades@));
    }
    done
}

/// Whether a record belongs to market `id`.
pub open spec fn of_market<T: MarketScoped>(id: i64) -> spec_fn(T) -> bool {
    |x: T| x.market_of() == id
}

/// The records are ordered by market id.
pub open spec fn sorted_by_market<T: MarketScoped>(items: Seq<T>) -> bool {
    forall|i: int, j: int| 0 <= i <= j < items.len() ==> items[i].market_of() <= items[j].market_of()
}

/// The market ids are strictly increasing.
pub open spec fn strictly_increasing(ids: Seq<i64>) -> bool {
    forall|i: int, j: int| 0 <= i < j < ids.len() ==> ids[i] < ids[j]
}

/// Every record belongs to one of the markets.
pub open spec fn all_listed<T: MarketScoped>(items: Seq<T>, ids: Seq<i64>) -> bool {
    forall|k: int| 0 <= k < items.len() ==> ids.contains(#[trigger] items[k].market_of())
}

proof fn lemma_filter_all<T: MarketScoped>(s: Seq<T>, id: i64)
    requires
        forall|i: int| 0 <= i < s.len() ==> s[i].market_of() == id,
    ensures
        s.filter(of_market(id)) == s,
    decreases s.len(),
{
    reveal(Seq::filter);
    if s.len() > 0 {
        lemma_filter_all(s.drop_last(), id);
        assert(s.drop_last().push(s.last()) =~= s);
    }
}

proof fn lemma_filter_none<T: MarketScoped>(s: Seq<T>, id: i64)
    requires
        forall|i: int| 0 <= i < s.len() ==> s[i].market_of() != id,
    ensures
        s.filter(of_market(id)) == Seq::<T>::empty(),
    decreases s.len(),
{
    reveal(Seq::filter);
    if s.len() > 0 {
        lemma_filter_none(s.drop_last(), id);
    }
}

proof fn lemma_run_len_bounds<T: MarketScoped>(items: Seq<T>, id: i64)
    ensures
        run_len(items, id) <= items.len(),
        forall|i: int| 0 <= i < run_len(items, id) ==> items[i].market_of() == id,
        run_len(items, id) < items.len() ==> items[run_len(items, id) as int].market_of() != id,
    decreases items.len(),
{
    if items.len() > 0 && items[0].market_of() == id {
        lemma_run_len_bounds(items.drop_first(), id);
        assert forall|i: int| 0 <= i < run_len(items, id) implies items[i].market_of() == id by {
            if i > 0 {
                assert(items[i] == items.drop_first()[i - 1]);
            }
        }
    }
}

/// When the markets come in strictly increasing id order and their records
/// ordered by market id, each belonging to a listed market, the streaming
/// join gives every market exactly its own records, in their order: the
/// snapshot equals the projection of the whole record set onto each market.
pub proof fn lemma_join_matches_projection<T: MarketScoped>(ids: Seq<i64>, items: Seq<T>)
    requires
        sorted_by_market(items),
        strictly_increasing(ids),
        all_listed(items, ids),
    ensures
        chunks(ids, items).len() == ids.len(),
        forall|i: int|
            0 <= i < ids.len() ==> #[trigger] chunks(ids, items)[i] == items.filter(of_market(ids[i])),
    decreases ids.len(),
{
    if ids.len() > 0 {
        let id0 = ids[0];
        let n = run_len(items, id0);
        lemma_run_len_bounds(items, id0);
        let head = items.take(n as int);
        let tail = items.skip(n as int);
        let rest = ids.drop_first();
        assert(items =~= head + tail);
        assert forall|k: int| 0 <= k < tail.len() implies tail[k].market_of() > id0
            && rest.contains(#[trigger] tail[k].market_of()) by {
            assert(tail[k] == items[n + k]);
            assert(ids.contains(items[n as int].market_of()));
            let j0 = choose|j: int| 0 <= j < ids.len() && ids[j] == items[n as int].market_of();
            assert(j0 != 0);
            assert(items[n as int].market_of() > id0);
            assert(ids.contains(items[n + k].market_of()));
            let j = choose|j: int| 0 <= j < ids.len() && ids[j] == items[n + k].market_of();
            assert(j != 0);
            assert(rest[j - 1] == ids[j]);
        }
        assert(sorted_by_market(tail)) by {
            assert forall|i: int, j: int| 0 <= i <= j < tail.len() implies tail[i].market_of()
                <= tail[j].market_of() by {
                assert(tail[i] == items[n + i]);
                assert(tail[j] == items[n + j]);
            }
        }
        assert(strictly_increasing(rest)) by {
            assert forall|i: int, j: int| 0 <= i < j < rest.len() implies rest[i] < rest[j] by {
                assert(rest[i] == ids[i + 1]);
                assert(rest[j] == ids[j + 1]);
            }
        }
        lemma_join_matches_projection(rest, tail);
        assert forall|i: int| 0 <= i < ids.len() implies #[trigger] chunks(ids, items)[i]
            == items.filter(of_market(ids[i])) by {
            Seq::filter_distributes_over_add(head, tail, of_market(ids[i]));
            if i == 0 {
                lemma_filter_all(head, id0);
                lemma_filter_none(tail, id0);
                assert(head + Seq::<T>::empty() =~= head);
            } else {
                assert(ids[i] > id0);
                lemma_filter_none(head, ids[i]);
                assert(rest[i - 1] == ids[i]);
                assert(chunks(ids, items)[i] == chunks(rest, tail)[i - 1]);
                assert(Seq::<T>::empty() + tail.filter(of_market(ids[i])) =~= tail.filter(
                    of_market(ids[i]),
                ));
            }
        }
    }
}

} // verus!
