//! What the finance service is set up with, and the texts that it sends.

use vstd::prelude::*;
use crate::outside::{header_char, is_header_value, json_strings, parse_json_strings};
use crate::text::views;

verus! {

/// How many symbols are put into the table at a time.
pub const SYMBOL_BATCH_SIZE: usize = 5;

/// Milliseconds before each group of symbols.
pub const SYMBOL_BATCH_PAUSE: u64 = 100;

/// How many quotes are asked for at a time.
pub const QUOTE_BATCH_SIZE: usize = 3;

/// Milliseconds before each group of quotes.
pub const QUOTE_BATCH_PAUSE: u64 = 1500;

/// How many trades of a batch are processed at a time.
pub const TRADE_CONCURRENCY: usize = 5;

/// Seconds between the loss of the price feed and the next attempt to connect.
pub const RECONNECT_PAUSE: u64 = 300;

/// Milliseconds after which a request for a quote is given up.
pub const QUOTE_TIMEOUT: u64 = 10000;

/// Why the finance service cannot be set up.
#[derive(Clone, Copy, Debug, PartialEq, Eq, Structural)]
pub enum FinanceConfigError {
    /// The file of subscriptions cannot be read.
    MissingFile,
    /// The file of subscriptions is no list of texts.
    UnreadableFile,
    /// The key of the price service is not set.
    MissingKey,
    /// The key of the price service cannot stand in a header.
    UnusableKey,
}

/// What the finance service is set up with.
#[derive(Debug)]
pub struct FinanceState {
    pub api_key: String,
    pub subscriptions: Vec<String>,
}

impl FinanceConfigError {
    /// The error in words.
    pub fn message(&self) -> (r: &'static str)
        ensures
            r@ == match *self {
                FinanceConfigError::MissingFile => "Finance configs missing..."@,
                FinanceConfigError::UnreadableFile => "Failed parsing finance configs as Json"@,
                FinanceConfigError::MissingKey => "Finnhub API key needs to be set in .env"@,
                FinanceConfigError::UnusableKey => "Failed casting api_key to HeaderValue"@,
            },
    {
        match self {
            FinanceConfigError::MissingFile => "Finance configs missing...",
            FinanceConfigError::UnreadableFile => "Failed parsing finance configs as Json",
            FinanceConfigError::MissingKey => "Finnhub API key needs to be set in .env",
            FinanceConfigError::UnusableKey => "Failed casting api_key to HeaderValue",
        }
    }
}

/// Whether a text can stand in a header.
pub open spec fn fits_header(text: Seq<char>) -> bool {
    forall|k: int| 0 <= k < text.len() ==> header_char(#[trigger] text[k])
}

/// Whether that is what the finance service is set up with, or why it cannot be.
pub open spec fn is_state_of(
    subscriptions: Result<Vec<String>, String>,
    api_key: Option<String>,
    r: Result<FinanceState, FinanceConfigError>,
) -> bool {
    match subscriptions {
        Err(_) => r == Err::<FinanceState, FinanceConfigError>(
            FinanceConfigError::UnreadableFile,
        ),
        Ok(list) => match api_key {
            None => r == Err::<FinanceState, FinanceConfigError>(
                FinanceConfigError::MissingKey,
            ),
            Some(key) => if fits_header(key@) {
                r == Ok::<FinanceState, FinanceConfigError>(
                    FinanceState { api_key: key, subscriptions: list },
                )
            } else {
                r == Err::<FinanceState, FinanceConfigError>(FinanceConfigError::UnusableKey)
            },
        },
    }
}

/// Sets up the finance service from what its file was read as and from its key.
pub fn finance_state(
    subscriptions: Result<Vec<String>, String>,
    api_key: Option<String>,
) -> (r: Result<FinanceState, FinanceConfigError>)
    ensures
        is_state_of(subscriptions, api_key, r),
{
    match subscriptions {
        Err(_) => Err(FinanceConfigError::UnreadableFile),
        Ok(list) => match api_key {
            None => Err(FinanceConfigError::MissingKey),
            Some(key) => {
                if is_header_value(key.as_str()) {
                    Ok(FinanceState { api_key: key, subscriptions: list })
                } else {
                    Err(FinanceConfigError::UnusableKey)
                }
            },
        },
    }
}

impl FinanceState {
    /// Sets up the finance service from the text of its file, if the file could be read, and
    /// from its key, if that is set. The first thing that is wrong is reported.
    pub fn new(file: Option<String>, api_key: Option<String>) -> (r: Result<
        Self,
        FinanceConfigError,
    >)
        ensures
            match file {
                None => r == Err::<Self, FinanceConfigError>(FinanceConfigError::MissingFile),
                Some(text) => match json_strings(text@) {
                    Err(_) => r == Err::<Self, FinanceConfigError>(
                        FinanceConfigError::UnreadableFile,
                    ),
                    Ok(list) => match api_key {
                        None => r == Err::<Self, FinanceConfigError>(
                            FinanceConfigError::MissingKey,
                        ),
                        Some(key) => if fits_header(key@) {
                            &&& r is Ok
                            &&& r->Ok_0.api_key == key
                            &&& views(r->Ok_0.subscriptions@) == list
                        } else {
                            r == Err::<Self, FinanceConfigError>(FinanceConfigError::UnusableKey)
                        },
                    },
                },
            },
    {
        match file {
            None => Err(FinanceConfigError::MissingFile),
            Some(text) => finance_state(parse_json_strings(text.as_str()), api_key),
        }
    }
}

/// The address of the price feed.
pub fn feed_url(api_key: &str) -> (r: String)
    ensures
        r@ == "wss://ws.finnhub.io/?token="@ + api_key@,
{
    let mut url: String = "wss://ws.finnhub.io/?token=".to_owned();
    url.append(api_key);
    url
}

/// The message that subscribes to a symbol.
pub fn subscribe_message(symbol: &str) -> (r: String)
    ensures
        r@ == "{\"type\":\"subscribe\",\"symbol\":\""@ + symbol@ + "\"}"@,
{
    let mut message: String = "{\"type\":\"subscribe\",\"symbol\":\"".to_owned();
    message.append(symbol);
    message.append("\"}");
    message
}

/// The messages that subscribe to a list of symbols, in their order.
pub fn subscribe_messages(symbols: &Vec<String>) -> (r: Vec<String>)
    ensures
        r@.len() == symbols@.len(),
        forall|i: int|
            0 <= i < r@.len() ==> (#[trigger] r@[i])@ == "{\"type\":\"subscribe\",\"symbol\":\""@
                + symbols@[i]@ + "\"}"@,
{
    let mut out: Vec<String> = Vec::new();
    let mut i: usize = 0;
    while i < symbols.len()
        invariant
            i <= symbols@.len(),
            out@.len() == i,
            forall|k: int|
                0 <= k < i ==> (#[trigger] out@[k])@ == "{\"type\":\"subscribe\",\"symbol\":\""@
                    + symbols@[k]@ + "\"}"@,
        decreases symbols@.len() - i,
    {
        out.push(subscribe_message(symbols[i].as_str()));
        i += 1;
    }
    out
}

/// The address of the quote of a symbol.
pub fn quote_url(symbol: &str) -> (r: String)
    ensures
        r@ == "https://finnhub.io/api/v1/quote?symbol="@ + symbol@,
{
    let mut url: String = "https://finnhub.io/api/v1/quote?symbol=".to_owned();
    url.append(symbol);
    url
}

/// A list cut into groups of `size`, the last of which may be smaller.
pub open spec fn grouped<T>(items: Seq<T>, size: int) -> Seq<Seq<T>>
    decreases items.len(),
{
    if size <= 0 || items.len() == 0 {
        seq![]
    } else if items.len() <= size {
        seq![items]
    } else {
        seq![items.take(size)] + grouped(items.skip(size), size)
    }
}

/// The groups put together again.
pub open spec fn ungrouped<T>(groups: Seq<Seq<T>>) -> Seq<T>
    decreases groups.len(),
{
    if groups.len() == 0 {
        seq![]
    } else {
        groups[0] + ungrouped(groups.drop_first())
    }
}

/// Cutting into groups loses, repeats and reorders nothing, and no group is empty or larger
/// than asked for.
pub proof fn groups_hold_all<T>(items: Seq<T>, size: int)
    requires
        size > 0,
    ensures
        ungrouped(grouped(items, size)) == items,
        forall|i: int|
            0 <= i < grouped(items, size).len() ==> 0 < (#[trigger] grouped(items, size)[i]).len()
                <= size,
    decreases items.len(),
{
    let groups = grouped(items, size);
    if items.len() == 0 {
        assert(ungrouped(groups) =~= items);
    } else if items.len() <= size {
        assert(groups.drop_first() =~= Seq::<Seq<T>>::empty());
        assert(ungrouped(groups.drop_first()) =~= Seq::<T>::empty());
        assert(ungrouped(groups) =~= items);
    } else {
        let rest = items.skip(size);
        groups_hold_all(rest, size);
        assert(groups.drop_first() =~= grouped(rest, size));
        assert(ungrouped(groups) =~= items);
        assert forall|i: int| 0 <= i < groups.len() implies 0 < (#[trigger] groups[i]).len()
            <= size by {
            if i > 0 {
                assert(groups[i] == grouped(rest, size)[i - 1]);
            }
        }
    }
}

/// The views of the texts of each group.
pub open spec fn group_views(groups: Seq<Vec<String>>) -> Seq<Seq<Seq<char>>> {
    groups.map_values(|g: Vec<String>| views(g@))
}

/// Cuts a list of symbols into groups of `size`, the last of which may be smaller.
pub fn symbol_groups(symbols: &Vec<String>, size: usize) -> (r: Vec<Vec<String>>)
    requires
        size > 0,
    ensures
        group_views(r@) == grouped(views(symbols@), size as int),
{
    let mut groups: Vec<Vec<String>> = Vec::new();
    let mut at: usize = 0;
    let ghost all = views(symbols@);
    assert(all.skip(0) =~= all);
    assert(group_views(groups@) + grouped(all, size as int) =~= grouped(all, size as int));
    while at < symbols.len()
        invariant
            size > 0,
            at <= symbols@.len(),
            all == views(symbols@),
            group_views(groups@) + grouped(all.skip(at as int), size as int) == grouped(
                all,
                size as int,
            ),
        decreases symbols@.len() - at,
    {
        let end: usize = if symbols.len() - at <= size {
            symbols.len()
        } else {
            at + size
        };
        let mut group: Vec<String> = Vec::new();
        let mut k: usize = at;
        while k < end
            invariant
                at <= k <= end <= symbols@.len(),
                all == views(symbols@),
                views(group@) == all.subrange(at as int, k as int),
            decreases end - k,
        {
            let ghost front = group@;
            let symbol: String = symbols[k].clone();
            group.push(symbol);
            proof {
                assert(all[k as int] == symbols@[k as int]@);
                assert(views(group@) =~= views(front).push(symbol@));
                assert(all.subrange(at as int, k + 1) =~= all.subrange(at as int, k as int).push(
                    all[k as int],
                ));
            }
            k += 1;
        }
        proof {
            let rest = all.skip(at as int);
            let before = group_views(groups@);
            let after = group_views(groups@.push(group));
            assert(after =~= before.push(views(group@)));
            if rest.len() <= size {
                assert(views(group@) =~= rest);
                assert(all.skip(end as int).len() == 0);
                assert(after + grouped(all.skip(end as int), size as int) =~= before + grouped(
                    rest,
                    size as int,
                ));
            } else {
                assert(views(group@) =~= rest.take(size as int));
                assert(all.skip(end as int) =~= rest.skip(size as int));
                assert(after + grouped(all.skip(end as int), size as int) =~= before + grouped(
                    rest,
                    size as int,
                ));
            }
        }
        groups.push(group);
        at = end;
    }
    proof {
        assert(all.skip(at as int).len() == 0);
        assert(group_views(groups@) + grouped(all.skip(at as int), size as int) =~= group_views(
            groups@,
        ));
    }
    groups
}

/// Whether an item of a group is the item of the list that its place says.
pub open spec fn is_in_place<T>(
    groups: Seq<Seq<T>>,
    items: Seq<T>,
    size: int,
    group: int,
    at: int,
) -> bool {
    &&& 0 <= group * size + at < items.len()
    &&& groups[group][at] == items[group * size + at]
}

/// The groups are as large as asked for: every group but the last has that many, and each holds the
/// items of its part of the list in their order.
pub proof fn groups_are_full<T>(items: Seq<T>, size: int)
    requires
        size > 0,
    ensures
        grouped(items, size).len() == 0 <==> items.len() == 0,
        forall|i: int|
            0 <= i < grouped(items, size).len() - 1 ==> (#[trigger] grouped(items, size)[i]).len()
                == size,
        forall|i: int, k: int|
            0 <= i < grouped(items, size).len() && 0 <= k < grouped(items, size)[i].len()
                ==> #[trigger] is_in_place(grouped(items, size), items, size, i, k),
    decreases items.len(),
{
    let groups = grouped(items, size);
    assert(0 * size == 0) by (nonlinear_arith);
    if items.len() > size {
        let rest = items.skip(size);
        let others = grouped(rest, size);
        groups_are_full(rest, size);
        assert forall|i: int| 0 <= i < groups.len() - 1 implies (#[trigger] groups[i]).len()
            == size by {
            if i > 0 {
                assert(groups[i] == others[i - 1]);
            }
        }
        assert forall|i: int, k: int|
            0 <= i < groups.len() && 0 <= k < groups[i].len() implies #[trigger] is_in_place(
            groups,
            items,
            size,
            i,
            k,
        ) by {
            if i > 0 {
                assert(groups[i] == others[i - 1]);
                assert(is_in_place(others, rest, size, i - 1, k));
                assert((i - 1) * size + size == i * size) by (nonlinear_arith);
            }
        }
    }
}

/// A text can stand in a header exactly where its parts can.
pub proof fn header_parts_fit(first: Seq<char>, second: Seq<char>)
    ensures
        fits_header(first + second) <==> fits_header(first) && fits_header(second),
{
    let whole = first + second;
    if fits_header(whole) {
        assert forall|k: int| 0 <= k < first.len() implies header_char(#[trigger] first[k]) by {
            assert(header_char(whole[k]));
        }
        assert forall|k: int| 0 <= k < second.len() implies header_char(#[trigger] second[k]) by {
            assert(header_char(whole[first.len() + k]));
        }
    }
}

/// A text with a line break, or any other control character but the tab, cannot stand in a header.
pub proof fn control_characters_do_not_fit(text: Seq<char>, at: int)
    requires
        0 <= at < text.len(),
        text[at] != '\t',
        text[at] < ' ' || text[at] as int == 0x7f,
    ensures
        !fits_header(text),
{
    assert(!header_char(text[at]));
}

/// The service is set up with the symbols of its file, all of them in their order, and with its key;
/// what is wrong first is reported: the file, then a missing key, then a key that no header takes.
pub proof fn state_holds_symbols_and_key(
    symbols: Vec<String>,
    key: String,
    api_key: Option<String>,
    error: String,
    good: Result<FinanceState, FinanceConfigError>,
    keyless: Result<FinanceState, FinanceConfigError>,
    unread: Result<FinanceState, FinanceConfigError>,
)
    requires
        is_state_of(Ok(symbols), Some(key), good),
        is_state_of(Ok(symbols), None, keyless),
        is_state_of(Err(error), api_key, unread),
    ensures
        fits_header(key@) ==> (good matches Ok(state) && state.api_key == key
            && state.subscriptions@ == symbols@),
        !fits_header(key@) ==> good == Err::<FinanceState, FinanceConfigError>(
            FinanceConfigError::UnusableKey,
        ),
        keyless == Err::<FinanceState, FinanceConfigError>(FinanceConfigError::MissingKey),
        unread == Err::<FinanceState, FinanceConfigError>(FinanceConfigError::UnreadableFile),
{
}

} // verus!
