//! The trades that wait for the next batch: for each symbol the newest one.

use vstd::prelude::*;
use crate::finance::price::Price;
use crate::text::same;

verus! {

/// One trade as the price feed reports it.
#[derive(Debug)]
pub struct TradeData {
    pub symbol: String,
    pub price: Price,
    /// When the trade took place, in milliseconds.
    pub timestamp: u64,
}

/// Whether a waiting list takes a trade: it does not where it already holds a trade of the
/// same symbol that is as new.
pub open spec fn takes(waiting: Map<Seq<char>, TradeData>, trade: TradeData) -> bool {
    !(waiting.contains_key(trade.symbol@) && waiting[trade.symbol@].timestamp >= trade.timestamp)
}

/// A waiting list after one more trade was offered.
pub open spec fn offered(waiting: Map<Seq<char>, TradeData>, trade: TradeData) -> Map<
    Seq<char>,
    TradeData,
> {
    if takes(waiting, trade) {
        waiting.insert(trade.symbol@, trade)
    } else {
        waiting
    }
}

/// A waiting list after a list of trades was offered, one after the other.
pub open spec fn all_offered(waiting: Map<Seq<char>, TradeData>, trades: Seq<TradeData>) -> Map<
    Seq<char>,
    TradeData,
>
    decreases trades.len(),
{
    if trades.len() == 0 {
        waiting
    } else {
        offered(all_offered(waiting, trades.drop_last()), trades.last())
    }
}

/// Whether any trade of the list is taken when they are offered one after the other.
pub open spec fn any_taken(waiting: Map<Seq<char>, TradeData>, trades: Seq<TradeData>) -> bool
    decreases trades.len(),
{
    trades.len() > 0 && (any_taken(waiting, trades.drop_last()) || takes(
        all_offered(waiting, trades.drop_last()),
        trades.last(),
    ))
}

/// Whether `trades` lists what a waiting list holds, each trade once.
pub open spec fn lists(trades: Seq<TradeData>, waiting: Map<Seq<char>, TradeData>) -> bool {
    &&& trades.len() == waiting.len()
    &&& forall|i: int, j: int|
        0 <= i < j < trades.len() ==> #[trigger] trades[i].symbol@ != #[trigger] trades[j].symbol@
    &&& forall|i: int|
        0 <= i < trades.len() ==> {
            &&& waiting.contains_key((#[trigger] trades[i]).symbol@)
            &&& waiting[trades[i].symbol@] == trades[i]
        }
    &&& forall|symbol: Seq<char>| #[trigger]
        waiting.contains_key(symbol) ==> exists|i: int|
            0 <= i < trades.len() && (#[trigger] trades[i]).symbol@ == symbol
}

spec fn distinct(entries: Seq<TradeData>) -> bool {
    forall|i: int, j: int|
        0 <= i < j < entries.len() ==> #[trigger] entries[i].symbol@
            != #[trigger] entries[j].symbol@
}

spec fn as_map(entries: Seq<TradeData>) -> Map<Seq<char>, TradeData>
    decreases entries.len(),
{
    if entries.len() == 0 {
        Map::empty()
    } else {
        as_map(entries.drop_last()).insert(entries.last().symbol@, entries.last())
    }
}

proof fn as_map_lists(entries: Seq<TradeData>)
    requires
        distinct(entries),
    ensures
        as_map(entries).dom().finite(),
        lists(entries, as_map(entries)),
    decreases entries.len(),
{
    if entries.len() > 0 {
        let front = entries.drop_last();
        let last = entries.last();
        assert(distinct(front)) by {
            assert forall|i: int, j: int| 0 <= i < j < front.len() implies #[trigger] front[i].symbol@
                != #[trigger] front[j].symbol@ by {
                assert(entries[i].symbol@ != entries[j].symbol@);
            }
        }
        as_map_lists(front);
        assert(!as_map(front).contains_key(last.symbol@)) by {
            if as_map(front).contains_key(last.symbol@) {
                let i = choose|i: int|
                    0 <= i < front.len() && (#[trigger] front[i]).symbol@ == last.symbol@;
                assert(entries[i].symbol@ != entries[entries.len() - 1].symbol@);
            }
        }
        assert forall|i: int| 0 <= i < entries.len() implies {
            &&& as_map(entries).contains_key((#[trigger] entries[i]).symbol@)
            &&& as_map(entries)[entries[i].symbol@] == entries[i]
        } by {
            if i < front.len() {
                assert(front[i] == entries[i]);
                assert(entries[i].symbol@ != entries[entries.len() - 1].symbol@);
            }
        }
        assert forall|symbol: Seq<char>| #[trigger]
            as_map(entries).contains_key(symbol) implies exists|i: int|
            0 <= i < entries.len() && (#[trigger] entries[i]).symbol@ == symbol by {
            if symbol == last.symbol@ {
                assert(entries[entries.len() - 1].symbol@ == symbol);
            } else {
                let i = choose|i: int|
                    0 <= i < front.len() && (#[trigger] front[i]).symbol@ == symbol;
                assert(entries[i].symbol@ == symbol);
            }
        }
    }
}

proof fn as_map_update(entries: Seq<TradeData>, at: int, trade: TradeData)
    requires
        distinct(entries),
        0 <= at < entries.len(),
        entries[at].symbol@ == trade.symbol@,
    ensures
        distinct(entries.update(at, trade)),
        as_map(entries.update(at, trade)) == as_map(entries).insert(trade.symbol@, trade),
{
    let after = entries.update(at, trade);
    assert(distinct(after)) by {
        assert forall|i: int, j: int| 0 <= i < j < after.len() implies #[trigger] after[i].symbol@
            != #[trigger] after[j].symbol@ by {
            assert(entries[i].symbol@ != entries[j].symbol@);
        }
    }
    as_map_lists(entries);
    as_map_lists(after);
    let left = as_map(after);
    let right = as_map(entries).insert(trade.symbol@, trade);
    assert forall|s: Seq<char>| left.contains_key(s) == right.contains_key(s) by {
        if left.contains_key(s) {
            let i = choose|i: int| 0 <= i < after.len() && (#[trigger] after[i]).symbol@ == s;
            assert(as_map(entries).contains_key(entries[i].symbol@));
        }
        if right.contains_key(s) {
            if s == trade.symbol@ {
                assert(left.contains_key(after[at].symbol@));
            } else {
                let i = choose|i: int|
                    0 <= i < entries.len() && (#[trigger] entries[i]).symbol@ == s;
                assert(left.contains_key(after[i].symbol@));
            }
        }
    }
    assert forall|s: Seq<char>| left.contains_key(s) implies left[s] == right[s] by {
        let i = choose|i: int| 0 <= i < after.len() && (#[trigger] after[i]).symbol@ == s;
        assert(left[after[i].symbol@] == after[i]);
        if i != at {
            assert(as_map(entries)[entries[i].symbol@] == entries[i]);
            if s == trade.symbol@ {
                assert(after[at].symbol@ == s);
                assert(left[after[at].symbol@] == after[at]);
                if i < at {
                    assert(after[i].symbol@ != after[at].symbol@);
                } else {
                    assert(after[at].symbol@ != after[i].symbol@);
                }
            }
        }
    }
    assert(left =~= right);
}

/// The trades that wait for the next batch, at most one for each symbol.
#[derive(Debug)]
pub struct TradeQueue {
    entries: Vec<TradeData>,
}

impl View for TradeQueue {
    type V = Map<Seq<char>, TradeData>;

    closed spec fn view(&self) -> Map<Seq<char>, TradeData> {
        as_map(self.entries@)
    }
}

impl TradeQueue {
    #[verifier::type_invariant]
    spec fn holds_each_symbol_once(self) -> bool {
        distinct(self.entries@)
    }

    /// An empty queue.
    pub fn new() -> (r: Self)
        ensures
            r@ == Map::<Seq<char>, TradeData>::empty(),
    {
        TradeQueue { entries: Vec::new() }
    }

    /// How many trades wait.
    pub fn len(&self) -> (r: usize)
        ensures
            r == self@.len(),
    {
        proof {
            use_type_invariant(self);
            as_map_lists(self.entries@);
        }
        self.entries.len()
    }

    /// Whether no trade waits.
    pub fn is_empty(&self) -> (r: bool)
        ensures
            r == (self@ == Map::<Seq<char>, TradeData>::empty()),
            r == (self@.len() == 0),
    {
        proof {
            use_type_invariant(self);
            as_map_lists(self.entries@);
            if self.entries@.len() > 0 {
                assert(self@.contains_key(self.entries@[0].symbol@));
            }
        }
        self.entries.len() == 0
    }

    /// Offers a trade. It is taken, in place of an older one of its symbol, unless the queue
    /// holds one of its symbol that is as new. Says whether it was taken.
    pub fn offer(&mut self, trade: TradeData) -> (r: bool)
        ensures
            r == takes(old(self)@, trade),
            final(self)@ == offered(old(self)@, trade),
    {
        proof {
            use_type_invariant(&*self);
            as_map_lists(self.entries@);
        }
        let mut entries: Vec<TradeData> = Vec::new();
        std::mem::swap(&mut entries, &mut self.entries);
        let ghost before = entries@;
        let mut at: usize = 0;
        while at < entries.len()
            invariant
                at <= entries@.len(),
                entries@ == before,
                before == old(self).entries@,
                distinct(before),
                lists(before, as_map(before)),
                distinct(self.entries@),
                forall|k: int| 0 <= k < at ==> (#[trigger] before[k]).symbol@ != trade.symbol@,
            decreases entries@.len() - at,
        {
            if same(entries[at].symbol.as_str(), trade.symbol.as_str()) {
                assert(as_map(before).contains_key(before[at as int].symbol@));
                if entries[at].timestamp >= trade.timestamp {
                    self.entries = entries;
                    return false;
                }
                proof {
                    as_map_update(before, at as int, trade);
                }
                entries.set(at, trade);
                self.entries = entries;
                return true;
            }
            at += 1;
        }
        proof {
            assert(!as_map(before).contains_key(trade.symbol@));
            let after = before.push(trade);
            assert(after.drop_last() =~= before);
            assert(distinct(after)) by {
                assert forall|i: int, j: int| 0 <= i < j < after.len() implies #[trigger] after[i].symbol@
                    != #[trigger] after[j].symbol@ by {
                    if j < before.len() {
                        assert(before[i].symbol@ != before[j].symbol@);
                    } else {
                        assert(before[i].symbol@ != trade.symbol@);
                    }
                }
            }
        }
        entries.push(trade);
        self.entries = entries;
        true
    }

    /// Takes out all waiting trades and leaves the queue empty.
    pub fn take_all(&mut self) -> (r: Vec<TradeData>)
        ensures
            lists(r@, old(self)@),
            final(self)@ == Map::<Seq<char>, TradeData>::empty(),
    {
        proof {
            use_type_invariant(&*self);
            as_map_lists(self.entries@);
        }
        let mut entries: Vec<TradeData> = Vec::new();
        std::mem::swap(&mut entries, &mut self.entries);
        entries
    }
}

/// What a waiting list keeps when a trade is offered: every symbol stays, no symbol's trade
/// gets older, and the offered trade's symbol then has a trade that is as new.
pub proof fn offer_keeps_newest(waiting: Map<Seq<char>, TradeData>, trade: TradeData)
    ensures
        ({
            let after = offered(waiting, trade);
            &&& forall|s: Seq<char>| #[trigger]
                waiting.contains_key(s) ==> after.contains_key(s) && after[s].timestamp
                    >= waiting[s].timestamp
            &&& after.contains_key(trade.symbol@)
            &&& after[trade.symbol@].timestamp >= trade.timestamp
        }),
{
}

/// After a list of trades was offered, every symbol that waited still waits with a trade that
/// is as new; every trade of the list has its symbol waiting with a trade that is as new; and
/// what waits was waiting before or is a trade of the list.
pub proof fn offers_keep_newest(waiting: Map<Seq<char>, TradeData>, trades: Seq<TradeData>)
    ensures
        ({
            let after = all_offered(waiting, trades);
            &&& forall|s: Seq<char>| #[trigger]
                waiting.contains_key(s) ==> after.contains_key(s) && after[s].timestamp
                    >= waiting[s].timestamp
            &&& forall|i: int|
                0 <= i < trades.len() ==> after.contains_key((#[trigger] trades[i]).symbol@)
                    && after[trades[i].symbol@].timestamp >= trades[i].timestamp
            &&& forall|s: Seq<char>| #[trigger]
                after.contains_key(s) ==> (waiting.contains_key(s) && after[s] == waiting[s]) || (
                exists|i: int|
                    0 <= i < trades.len() && #[trigger] trades[i] == after[s] && trades[i].symbol@
                        == s)
        }),
    decreases trades.len(),
{
    if trades.len() > 0 {
        let front = trades.drop_last();
        let mid = all_offered(waiting, front);
        let after = all_offered(waiting, trades);
        offers_keep_newest(waiting, front);
        offer_keeps_newest(mid, trades.last());
        assert forall|i: int| 0 <= i < trades.len() implies after.contains_key(
            (#[trigger] trades[i]).symbol@,
        ) && after[trades[i].symbol@].timestamp >= trades[i].timestamp by {
            if i < front.len() {
                assert(front[i] == trades[i]);
                assert(mid.contains_key(front[i].symbol@));
            }
        }
        assert forall|s: Seq<char>| #[trigger]
            after.contains_key(s) implies (waiting.contains_key(s) && after[s] == waiting[s]) || (
        exists|i: int|
            0 <= i < trades.len() && #[trigger] trades[i] == after[s] && trades[i].symbol@
                == s) by {
            if takes(mid, trades.last()) && s == trades.last().symbol@ {
                assert(trades[trades.len() - 1] == after[s]);
            } else {
                assert(mid.contains_key(s));
                if !(waiting.contains_key(s) && mid[s] == waiting[s]) {
                    let i = choose|i: int|
                        0 <= i < front.len() && #[trigger] front[i] == mid[s] && front[i].symbol@
                            == s;
                    assert(trades[i] == after[s]);
                }
            }
        }
    }
}

proof fn taken_adds_or_renews(waiting: Map<Seq<char>, TradeData>, trades: Seq<TradeData>)
    requires
        any_taken(waiting, trades),
    ensures
        exists|s: Seq<char>| #[trigger]
            all_offered(waiting, trades).contains_key(s) && (!waiting.contains_key(s)
                || all_offered(waiting, trades)[s].timestamp > waiting[s].timestamp),
    decreases trades.len(),
{
    let front = trades.drop_last();
    let mid = all_offered(waiting, front);
    let after = all_offered(waiting, trades);
    offer_keeps_newest(mid, trades.last());
    if any_taken(waiting, front) {
        taken_adds_or_renews(waiting, front);
        let s = choose|s: Seq<char>| #[trigger]
            mid.contains_key(s) && (!waiting.contains_key(s) || mid[s].timestamp
                > waiting[s].timestamp);
        assert(after.contains_key(s));
    } else {
        offers_keep_newest(waiting, front);
        let s = trades.last().symbol@;
        assert(after.contains_key(s));
        if waiting.contains_key(s) {
            assert(mid.contains_key(s));
        }
    }
}

/// Offering one list of trades after another is offering both as one list.
pub proof fn offers_add_up(
    waiting: Map<Seq<char>, TradeData>,
    first: Seq<TradeData>,
    second: Seq<TradeData>,
)
    ensures
        all_offered(waiting, first + second) == all_offered(all_offered(waiting, first), second),
    decreases second.len(),
{
    if second.len() == 0 {
        assert(first + second =~= first);
    } else {
        assert((first + second).drop_last() =~= first + second.drop_last());
        offers_add_up(waiting, first, second.drop_last());
    }
}

proof fn stale_offers_change_nothing(waiting: Map<Seq<char>, TradeData>, trades: Seq<TradeData>)
    requires
        forall|i: int| 0 <= i < trades.len() ==> !takes(waiting, #[trigger] trades[i]),
    ensures
        all_offered(waiting, trades) == waiting,
        !any_taken(waiting, trades),
    decreases trades.len(),
{
    if trades.len() > 0 {
        let front = trades.drop_last();
        assert forall|i: int| 0 <= i < front.len() implies !takes(waiting, #[trigger] front[i]) by {
            assert(front[i] == trades[i]);
        }
        stale_offers_change_nothing(waiting, front);
        assert(!takes(waiting, trades[trades.len() - 1]));
    }
}

/// Offering the same trades again changes nothing, and none of them is taken.
pub proof fn repeated_offers_change_nothing(
    waiting: Map<Seq<char>, TradeData>,
    trades: Seq<TradeData>,
)
    ensures
        ({
            let after = all_offered(waiting, trades);
            &&& all_offered(after, trades) == after
            &&& !any_taken(after, trades)
        }),
{
    let after = all_offered(waiting, trades);
    offers_keep_newest(waiting, trades);
    assert forall|i: int| 0 <= i < trades.len() implies !takes(after, #[trigger] trades[i]) by {
        assert(after.contains_key(trades[i].symbol@));
    }
    stale_offers_change_nothing(after, trades);
}

/// Offering trades changes the waiting list exactly where one of them is taken.
pub proof fn waiting_changes_where_taken(
    waiting: Map<Seq<char>, TradeData>,
    trades: Seq<TradeData>,
)
    ensures
        any_taken(waiting, trades) <==> all_offered(waiting, trades) != waiting,
    decreases trades.len(),
{
    if any_taken(waiting, trades) {
        taken_adds_or_renews(waiting, trades);
    } else if trades.len() > 0 {
        waiting_changes_where_taken(waiting, trades.drop_last());
    }
}

/// A trade replaces what waits under its symbol exactly where it is newer, and touches no other
/// symbol: where nothing waits under its symbol it is taken; where what waits is older it takes the
/// place; where what waits is as new, nothing changes at all.
pub proof fn only_newer_trade_replaces(
    waiting: Map<Seq<char>, TradeData>,
    trade: TradeData,
    other: Seq<char>,
)
    requires
        other != trade.symbol@,
    ensures
        !waiting.contains_key(trade.symbol@) ==> takes(waiting, trade) && offered(
            waiting,
            trade,
        )[trade.symbol@] == trade,
        waiting.contains_key(trade.symbol@) && waiting[trade.symbol@].timestamp < trade.timestamp
            ==> takes(waiting, trade) && offered(waiting, trade)[trade.symbol@] == trade,
        waiting.contains_key(trade.symbol@) && waiting[trade.symbol@].timestamp >= trade.timestamp
            ==> !takes(waiting, trade) && offered(waiting, trade) == waiting,
        offered(waiting, trade).contains_key(other) == waiting.contains_key(other),
        waiting.contains_key(other) ==> offered(waiting, trade)[other] == waiting[other],
{
}

/// Trades are taken in their order: offering a list is offering its first trade and then the rest,
/// and offering nothing changes nothing.
pub proof fn trades_are_offered_in_order(
    waiting: Map<Seq<char>, TradeData>,
    trade: TradeData,
    rest: Seq<TradeData>,
)
    ensures
        all_offered(waiting, seq![trade] + rest) == all_offered(offered(waiting, trade), rest),
        all_offered(waiting, seq![]) == waiting,
        any_taken(waiting, seq![trade]) == takes(waiting, trade),
        !any_taken(waiting, seq![]),
{
    offers_add_up(waiting, seq![trade], rest);
    reveal_with_fuel(all_offered, 2);
    reveal_with_fuel(any_taken, 2);
    assert(seq![trade].drop_last() =~= Seq::<TradeData>::empty());
}

/// A list of what waits holds every waiting trade as it is, once, and nothing else.
pub proof fn listed_trades_are_those_waiting(
    trades: Seq<TradeData>,
    waiting: Map<Seq<char>, TradeData>,
)
    requires
        lists(trades, waiting),
    ensures
        trades.len() == waiting.len(),
        forall|s: Seq<char>| #[trigger] waiting.contains_key(s) ==> trades.contains(waiting[s]),
        forall|i: int|
            0 <= i < trades.len() ==> waiting.contains_key((#[trigger] trades[i]).symbol@)
                && waiting[trades[i].symbol@] == trades[i],
        forall|i: int, j: int|
            0 <= i < j < trades.len() ==> #[trigger] trades[i].symbol@
                != #[trigger] trades[j].symbol@,
{
    assert forall|s: Seq<char>| #[trigger] waiting.contains_key(s) implies trades.contains(
        waiting[s],
    ) by {
        let i = choose|i: int| 0 <= i < trades.len() && (#[trigger] trades[i]).symbol@ == s;
        assert(waiting[trades[i].symbol@] == trades[i]);
    }
}

} // verus!
