//! What one trade, or one quote, writes to the table of prices.

use vstd::prelude::*;
use crate::finance::price::Price;
use crate::finance::queue::TradeData;
use crate::text::same;

verus! {

/// A row of the table of prices.
#[derive(Debug)]
pub struct DatabaseTradeData {
    pub symbol: String,
    pub price: Price,
    pub previous_close: Price,
    pub price_change: Price,
    pub percentage_change: Price,
    pub direction: String,
    /// Microseconds since the start of 1970.
    pub last_updated: i64,
}

/// What the quote service says of a symbol.
#[derive(Clone, Copy, Debug, PartialEq, Eq, Structural)]
pub struct QuoteResponse {
    pub current_price: Price,
    pub change: Price,
    pub percent_change: Price,
    pub previous_close: Price,
}

/// Where a price went.
#[derive(Clone, Copy, Debug, PartialEq, Eq, Structural)]
pub enum Direction {
    Up,
    Down,
}

/// The change of a price, as it is written to the table.
#[derive(Clone, Copy, Debug, PartialEq, Eq, Structural)]
pub struct TradeWrite {
    pub price: Price,
    pub price_change: Price,
    pub percentage_change: Price,
    pub direction: Direction,
}

/// What to do next with a trade.
#[derive(Clone, Copy, Debug, PartialEq, Eq, Structural)]
pub enum TradeStep {
    /// Ask the quote service, and report what it said.
    FetchQuote,
    /// Work out the change from `previous_close` to `price`, and report it.
    MeasureChange { price: Price, previous_close: Price },
    /// Write nothing: there is no previous close to compare with.
    SkipNoPreviousClose,
    /// Write nothing: the price is not above zero.
    SkipInvalidPrice,
}

/// A trade on its way to the table.
#[derive(Debug)]
pub struct TradeJob {
    /// The row of the symbol, or the row that a new symbol starts with.
    pub record: DatabaseTradeData,
    /// Whether the symbol has no row yet.
    pub is_new: bool,
    /// The price of the trade.
    pub price: Price,
}

/// The direction that a change of price shows.
pub open spec fn direction_of(price_change: Price) -> Direction {
    if price_change.is_at_least_zero() {
        Direction::Up
    } else {
        Direction::Down
    }
}

/// Whether `at` is the row of a symbol: the last one, should there be several.
pub open spec fn is_row_of(rows: Seq<DatabaseTradeData>, symbol: Seq<char>, at: int) -> bool {
    &&& 0 <= at < rows.len()
    &&& rows[at].symbol@ == symbol
    &&& forall|k: int| at < k < rows.len() ==> (#[trigger] rows[k]).symbol@ != symbol
}

/// The previous close to use where the table has none above zero: that of the quote, else the
/// current price of the quote, else the price of the trade.
pub open spec fn settled_close(quote: Option<QuoteResponse>, price: Price) -> Price {
    match quote {
        Some(q) => {
            if q.previous_close.is_above_zero() {
                q.previous_close
            } else if q.current_price.is_above_zero() {
                q.current_price
            } else {
                price
            }
        },
        None => price,
    }
}

/// What a quote writes beside its previous close.
pub open spec fn quote_written(quote: QuoteResponse) -> Option<TradeWrite> {
    if quote.change.sign() == Some(1int) || quote.change.sign() == Some(-1int) {
        Some(
            TradeWrite {
                price: quote.current_price,
                price_change: quote.change,
                percentage_change: quote.percent_change,
                direction: direction_of(quote.change),
            },
        )
    } else {
        None
    }
}

/// Whether a job is that of a trade: with the row of its symbol, or with a first row of a new
/// symbol, which holds its price and the time `now`.
pub open spec fn is_job_of(
    trade: TradeData,
    rows: Seq<DatabaseTradeData>,
    now: i64,
    job: TradeJob,
) -> bool {
    &&& job.price == trade.price
    &&& job.is_new == forall|k: int|
        0 <= k < rows.len() ==> (#[trigger] rows[k]).symbol@ != trade.symbol@
    &&& !job.is_new ==> exists|at: int| is_row_of(rows, trade.symbol@, at) && job.record == rows[at]
    &&& job.is_new ==> {
        &&& job.record.symbol == trade.symbol
        &&& job.record.price == trade.price
        &&& job.record.previous_close.bits == 0
        &&& job.record.price_change.bits == 0
        &&& job.record.percentage_change.bits == 0
        &&& job.record.direction@ == "up"@
        &&& job.record.last_updated == now
    }
    &&& job.record.symbol@ == trade.symbol@
}

/// What follows once the previous close is settled.
pub open spec fn measuring(price: Price, previous_close: Price) -> TradeStep {
    if previous_close.is_at_most_zero() {
        TradeStep::SkipNoPreviousClose
    } else if price.is_at_most_zero() {
        TradeStep::SkipInvalidPrice
    } else {
        TradeStep::MeasureChange { price, previous_close }
    }
}

/// The first thing to do with a trade.
pub open spec fn starting(price: Price, previous_close: Price) -> TradeStep {
    if previous_close.is_at_most_zero() {
        TradeStep::FetchQuote
    } else {
        measuring(price, previous_close)
    }
}

impl Direction {
    /// The word for it in the table.
    pub fn word(&self) -> (r: &'static str)
        ensures
            r@ == match *self {
                Direction::Up => "up"@,
                Direction::Down => "down"@,
            },
    {
        match self {
            Direction::Up => "up",
            Direction::Down => "down",
        }
    }

    /// The direction that a change of price shows.
    pub fn of_change(price_change: Price) -> (r: Self)
        ensures
            r == direction_of(price_change),
    {
        if price_change.at_least_zero() {
            Direction::Up
        } else {
            Direction::Down
        }
    }
}

/// The row of a symbol: the last one, should there be several.
pub fn find_row(rows: &Vec<DatabaseTradeData>, symbol: &str) -> (r: Option<usize>)
    ensures
        match r {
            Some(at) => is_row_of(rows@, symbol@, at as int),
            None => forall|k: int| 0 <= k < rows@.len() ==> (#[trigger] rows@[k]).symbol@ != symbol@,
        },
{
    let mut end: usize = rows.len();
    while end > 0
        invariant
            end <= rows@.len(),
            forall|k: int| end <= k < rows@.len() ==> (#[trigger] rows@[k]).symbol@ != symbol@,
        decreases end,
    {
        if same(rows[end - 1].symbol.as_str(), symbol) {
            return Some(end - 1);
        }
        end -= 1;
    }
    None
}

impl TradeJob {
    /// What is written to the row once the change is known.
    pub open spec fn written(self, price_change: Price, percentage_change: Price) -> TradeWrite {
        TradeWrite {
            price: self.price,
            price_change,
            percentage_change,
            direction: direction_of(price_change),
        }
    }

    /// Takes up a trade: with a copy of the row of its symbol, or with a first row of a new
    /// symbol, which holds its price and the time `now`.
    pub fn open(trade: TradeData, rows: &Vec<DatabaseTradeData>, now: i64) -> (r: Self)
        ensures
            is_job_of(trade, rows@, now, r),
    {
        let price: Price = trade.price;
        match find_row(rows, trade.symbol.as_str()) {
            Some(at) => {
                let row: &DatabaseTradeData = &rows[at];
                let record = DatabaseTradeData {
                    symbol: row.symbol.clone(),
                    price: row.price,
                    previous_close: row.previous_close,
                    price_change: row.price_change,
                    percentage_change: row.percentage_change,
                    direction: row.direction.clone(),
                    last_updated: row.last_updated,
                };
                assert(is_row_of(rows@, trade.symbol@, at as int) && record == rows@[at as int]);
                TradeJob { record, is_new: false, price }
            },
            None => {
                let record = DatabaseTradeData {
                    symbol: trade.symbol,
                    price,
                    previous_close: Price::zero(),
                    price_change: Price::zero(),
                    percentage_change: Price::zero(),
                    direction: "up".to_owned(),
                    last_updated: now,
                };
                TradeJob { record, is_new: true, price }
            },
        }
    }

    /// The first thing to do: to ask for a quote where the row has no previous close above
    /// zero, else to measure the change.
    pub fn start(&self) -> (r: TradeStep)
        ensures
            r == starting(self.price, self.record.previous_close),
    {
        if self.record.previous_close.at_most_zero() {
            TradeStep::FetchQuote
        } else {
            self.measure()
        }
    }

    /// Settles the previous close from what the quote service said, if it said anything, and
    /// returns it, to be written to the row.
    pub fn settle(&mut self, quote: Option<QuoteResponse>) -> (r: Price)
        ensures
            r == settled_close(quote, old(self).price),
            quote matches Some(q) ==> {
                &&& 0 < q.previous_close.bits <= 0x7ff0_0000_0000_0000 ==> r == q.previous_close
                &&& !(0 < q.previous_close.bits <= 0x7ff0_0000_0000_0000) && 0
                    < q.current_price.bits <= 0x7ff0_0000_0000_0000 ==> r == q.current_price
            },
            *final(self) == (TradeJob {
                record: DatabaseTradeData { previous_close: r, ..old(self).record },
                ..*old(self)
            }),
    {
        let close: Price = match quote {
            Some(q) => {
                if q.previous_close.above_zero() {
                    q.previous_close
                } else if q.current_price.above_zero() {
                    q.current_price
                } else {
                    self.price
                }
            },
            None => self.price,
        };
        self.record.previous_close = close;
        close
    }

    /// What follows once the previous close is settled.
    pub fn measure(&self) -> (r: TradeStep)
        ensures
            r == measuring(self.price, self.record.previous_close),
    {
        if self.record.previous_close.at_most_zero() {
            TradeStep::SkipNoPreviousClose
        } else if self.price.at_most_zero() {
            TradeStep::SkipInvalidPrice
        } else {
            TradeStep::MeasureChange {
                price: self.price,
                previous_close: self.record.previous_close,
            }
        }
    }

    /// What is written to the row once the change is known.
    pub fn write(&self, price_change: Price, percentage_change: Price) -> (r: TradeWrite)
        ensures
            r == self.written(price_change, percentage_change),
    {
        TradeWrite {
            price: self.price,
            price_change,
            percentage_change,
            direction: Direction::of_change(price_change),
        }
    }
}

/// What a quote writes beside its previous close: its price and change, where the change is
/// above or below zero.
pub fn quote_write(quote: &QuoteResponse) -> (r: Option<TradeWrite>)
    ensures
        r == quote_written(*quote),
{
    if quote.change.above_zero() || quote.change.below_zero() {
        Some(
            TradeWrite {
                price: quote.current_price,
                price_change: quote.change,
                percentage_change: quote.percent_change,
                direction: Direction::of_change(quote.change),
            },
        )
    } else {
        None
    }
}

/// A quote is asked for at most once: after the previous close was settled, no step asks again.
pub proof fn quote_is_asked_once(price: Price, quote: Option<QuoteResponse>)
    ensures
        measuring(price, settled_close(quote, price)) != TradeStep::FetchQuote,
{
}

/// A change is measured only between a price and a previous close of which neither is zero or
/// less.
pub proof fn measured_prices_are_positive(price: Price, previous_close: Price)
    ensures
        measuring(price, previous_close) matches TradeStep::MeasureChange {
            price: p,
            previous_close: c,
        } ==> p == price && c == previous_close && !p.is_at_most_zero() && !c.is_at_most_zero(),
{
}

/// A trade at a price above zero is measured, whatever the table and the quote service say:
/// the price itself is the last resort for the previous close.
pub proof fn positive_price_is_measured(price: Price, quote: Option<QuoteResponse>)
    requires
        price.is_above_zero(),
    ensures
        measuring(price, settled_close(quote, price)) == (TradeStep::MeasureChange {
            price,
            previous_close: settled_close(quote, price),
        }),
{
}

/// A quote with a previous close above zero settles the previous close, whatever the trade and the
/// current price of the quote say; without one, a current price above zero does; and only where the
/// quote has neither, or there is no quote, does the price of the trade. "Above zero" is said by the
/// bits: from the smallest magnitude up to infinity, without the sign.
pub proof fn quote_settles_close(quote: QuoteResponse, price: Price, other_price: Price)
    ensures
        0 < quote.previous_close.bits <= 0x7ff0_0000_0000_0000 ==> settled_close(
            Some(quote),
            price,
        ) == quote.previous_close,
        !(0 < quote.previous_close.bits <= 0x7ff0_0000_0000_0000) && 0 < quote.current_price.bits
            <= 0x7ff0_0000_0000_0000 ==> settled_close(Some(quote), price) == quote.current_price,
        !(0 < quote.previous_close.bits <= 0x7ff0_0000_0000_0000) && !(0
            < quote.current_price.bits <= 0x7ff0_0000_0000_0000) ==> settled_close(
            Some(quote),
            price,
        ) == price,
        settled_close(None, price) == price,
        0 < quote.previous_close.bits <= 0x7ff0_0000_0000_0000 || 0 < quote.current_price.bits
            <= 0x7ff0_0000_0000_0000 ==> settled_close(Some(quote), price) == settled_close(
            Some(quote),
            other_price,
        ),
{
}

/// The change and the percentage of change of a quote have no say in the previous close.
pub proof fn change_settles_nothing(
    quote: QuoteResponse,
    other: QuoteResponse,
    price: Price,
)
    requires
        quote.previous_close == other.previous_close,
        quote.current_price == other.current_price,
    ensures
        settled_close(Some(quote), price) == settled_close(Some(other), price),
{
}

/// A trade at a price above zero, whose row has no close above zero, is measured against the close
/// that the quote gives; one whose row has a close above zero is measured against that, and no quote
/// is asked for.
pub proof fn trade_is_measured_against_its_close(
    price: Price,
    row_close: Price,
    quote: QuoteResponse,
)
    requires
        0 < price.bits <= 0x7ff0_0000_0000_0000,
    ensures
        row_close.bits == 0 || 0x8000_0000_0000_0000 <= row_close.bits <= 0xfff0_0000_0000_0000
            ==> starting(price, row_close) == TradeStep::FetchQuote,
        0 < quote.previous_close.bits <= 0x7ff0_0000_0000_0000 ==> measuring(
            price,
            settled_close(Some(quote), price),
        ) == (TradeStep::MeasureChange { price, previous_close: quote.previous_close }),
        0 < row_close.bits <= 0x7ff0_0000_0000_0000 ==> starting(price, row_close) == (
        TradeStep::MeasureChange { price, previous_close: row_close }),
{
}

/// What a trade is skipped for: a close that is zero or less, and, with a close above zero, a price
/// that is zero or less.
pub proof fn skipped_trades_lack_a_price(price: Price, close: Price)
    ensures
        measuring(price, close) == TradeStep::SkipNoPreviousClose <==> close.bits == 0
            || 0x8000_0000_0000_0000 <= close.bits <= 0xfff0_0000_0000_0000,
        0 < close.bits <= 0x7ff0_0000_0000_0000 ==> (measuring(price, close)
            == TradeStep::SkipInvalidPrice <==> price.bits == 0 || 0x8000_0000_0000_0000
            <= price.bits <= 0xfff0_0000_0000_0000),
{
}

/// The direction follows the sign of the change: down for a change below zero, up for one above it
/// and for none.
pub proof fn direction_follows_change(change: Price)
    ensures
        change.bits <= 0x7ff0_0000_0000_0000 || change.bits == 0x8000_0000_0000_0000
            ==> direction_of(change) == Direction::Up,
        0x8000_0000_0000_0000 < change.bits <= 0xfff0_0000_0000_0000 ==> direction_of(change)
            == Direction::Down,
        change.bits > 0xfff0_0000_0000_0000 ==> direction_of(change) == Direction::Down,
{
}

/// A quote writes its own current price, change and percentage, with the direction of the change,
/// where the change is above or below zero, and nothing where there is no change.
pub proof fn quote_writes_its_numbers(quote: QuoteResponse)
    ensures
        0 < quote.change.bits <= 0x7ff0_0000_0000_0000 ==> quote_written(quote) == Some(
            TradeWrite {
                price: quote.current_price,
                price_change: quote.change,
                percentage_change: quote.percent_change,
                direction: Direction::Up,
            },
        ),
        0x8000_0000_0000_0000 < quote.change.bits <= 0xfff0_0000_0000_0000 ==> quote_written(quote)
            == Some(
            TradeWrite {
                price: quote.current_price,
                price_change: quote.change,
                percentage_change: quote.percent_change,
                direction: Direction::Down,
            },
        ),
        quote.change.bits == 0 || quote.change.bits == 0x8000_0000_0000_0000 ==> quote_written(
            quote,
        ) is None,
{
}

/// A trade of a known symbol works on the last row of its symbol, every column of it; a trade of an
/// unknown symbol starts a row with its price and no close.
pub proof fn job_holds_the_row_of_its_symbol(
    trade: TradeData,
    rows: Seq<DatabaseTradeData>,
    now: i64,
    job: TradeJob,
    at: int,
)
    requires
        is_job_of(trade, rows, now, job),
    ensures
        job.price == trade.price,
        job.record.symbol@ == trade.symbol@,
        0 <= at < rows.len() && rows[at].symbol@ == trade.symbol@ && (forall|k: int|
            at < k < rows.len() ==> (#[trigger] rows[k]).symbol@ != trade.symbol@) ==> {
            &&& !job.is_new
            &&& job.record.price == rows[at].price
            &&& job.record.previous_close == rows[at].previous_close
            &&& job.record.price_change == rows[at].price_change
            &&& job.record.percentage_change == rows[at].percentage_change
            &&& job.record.direction == rows[at].direction
            &&& job.record.last_updated == rows[at].last_updated
        },
        (forall|k: int| 0 <= k < rows.len() ==> (#[trigger] rows[k]).symbol@ != trade.symbol@)
            ==> {
            &&& job.is_new
            &&& job.record.price == trade.price
            &&& job.record.previous_close.bits == 0
            &&& job.record.price_change.bits == 0
            &&& job.record.percentage_change.bits == 0
            &&& job.record.direction@ == "up"@
            &&& job.record.last_updated == now
        },
{
    if 0 <= at < rows.len() && rows[at].symbol@ == trade.symbol@ && (forall|k: int|
        at < k < rows.len() ==> (#[trigger] rows[k]).symbol@ != trade.symbol@) {
        let found = choose|found: int|
            is_row_of(rows, trade.symbol@, found) && job.record == rows[found];
        assert(rows[found].symbol@ == trade.symbol@);
        if found < at {
            assert(rows[at].symbol@ != trade.symbol@);
        }
    }
}

/// A trade writes its own price, the change and the percentage that were measured, each in its place,
/// and the direction of the change.
pub proof fn trade_writes_its_numbers(job: TradeJob, price_change: Price, percentage_change: Price)
    ensures
        job.written(price_change, percentage_change).price == job.price,
        job.written(price_change, percentage_change).price_change == price_change,
        job.written(price_change, percentage_change).percentage_change == percentage_change,
        0 < price_change.bits <= 0x7ff0_0000_0000_0000 ==> job.written(
            price_change,
            percentage_change,
        ).direction == Direction::Up,
        0x8000_0000_0000_0000 < price_change.bits <= 0xfff0_0000_0000_0000 ==> job.written(
            price_change,
            percentage_change,
        ).direction == Direction::Down,
{
}

} // verus!
