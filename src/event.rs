use vstd::prelude::*;
use crate::book::{BybitOrderBookL1, DecodeError};
use crate::time::Timestamp;

verus! {

/// The exchange a market event comes from.
#[derive(Debug, Clone, Copy, PartialEq, Eq, Structural)]
pub enum ExchangeId {
    BybitSpot,
    BybitPerpetualsUsd,
}

/// One side's price level: a price and the amount available at it.
#[derive(Debug, PartialEq)]
pub struct Level<N> {
    pub price: N,
    pub amount: N,
}

/// The best bid and best ask of an order book.
#[derive(Debug, PartialEq)]
pub struct OrderBookL1<N> {
    pub last_update_time: Timestamp,
    pub best_bid: Level<N>,
    pub best_ask: Level<N>,
}

/// An exchange-agnostic market event.
#[derive(Debug, PartialEq)]
pub struct MarketEvent<InstrumentId, Kind> {
    pub exchange_time: Timestamp,
    pub received_time: Timestamp,
    pub exchange: ExchangeId,
    pub instrument: InstrumentId,
    pub kind: Kind,
}

/// The events one exchange message yields, each a success or a failure.
#[derive(Debug)]
pub struct MarketIter<InstrumentId, Kind>(pub Vec<Result<MarketEvent<InstrumentId, Kind>, DecodeError>>);

/// `out` is what the number text `text` becomes: the parser's reading of it, or `zero` where the
/// parser finds no number in it.
pub open spec fn parsed_or<N, F: Fn(&String) -> Option<N>>(
    parse: F,
    text: &String,
    zero: N,
    out: N,
) -> bool {
    exists|p: Option<N>|
        #[trigger] parse.ensures((text,), p) && out == (match p {
            Some(x) => x,
            None => zero,
        })
}

/// `out` is the best level of `levels`: read from the first level, each of price and amount on
/// its own, or `zero` for both where there is no level.
pub open spec fn best_level_of<N, F: Fn(&String) -> Option<N>>(
    parse: F,
    levels: Seq<[String; 2]>,
    zero: N,
    out: Level<N>,
) -> bool {
    if levels.len() == 0 {
        out == Level { price: zero, amount: zero }
    } else {
        &&& parsed_or(parse, &levels[0][0], zero, out.price)
        &&& parsed_or(parse, &levels[0][1], zero, out.amount)
    }
}

/// `r` is the one successful top-of-book event that `book` maps to.
pub open spec fn maps_to<InstrumentId, N, F: Fn(&String) -> Option<N>>(
    r: MarketIter<InstrumentId, OrderBookL1<N>>,
    exchange: ExchangeId,
    instrument: InstrumentId,
    book: BybitOrderBookL1,
    received_time: Timestamp,
    parse: F,
    zero: N,
) -> bool {
    &&& r.0@.len() == 1
    &&& r.0@[0] matches Ok(ev)
    &&& ev.exchange_time == book.ts
    &&& ev.received_time == received_time
    &&& ev.exchange == exchange
    &&& ev.instrument == instrument
    &&& ev.kind.last_update_time == book.ts
    &&& best_level_of(parse, book.data.b@, zero, ev.kind.best_bid)
    &&& best_level_of(parse, book.data.a@, zero, ev.kind.best_ask)
}

fn number_or<N: Copy, F: Fn(&String) -> Option<N>>(parse: &F, text: &String, zero: N) -> (r: N)
    requires
        parse.requires((text,)),
    ensures
        parsed_or(*parse, text, zero, r),
{
    let p = parse(text);
    let r = match p {
        Some(x) => x,
        None => zero,
    };
    assert(parse.ensures((text,), p));
    r
}

fn best_level<N: Copy, F: Fn(&String) -> Option<N>>(
    parse: &F,
    levels: &Vec<[String; 2]>,
    zero: N,
) -> (r: Level<N>)
    requires
        forall|s: &String| parse.requires((s,)),
    ensures
        best_level_of(*parse, levels@, zero, r),
{
    if levels.len() == 0 {
        Level { price: zero, amount: zero }
    } else {
        let first = &levels[0];
        let price = number_or(parse, &first[0], zero);
        let amount = number_or(parse, &first[1], zero);
        Level { price, amount }
    }
}

impl<InstrumentId, N: Copy> MarketIter<InstrumentId, OrderBookL1<N>> {
    /// Maps a top-of-book message to its one canonical event, received at `received_time`.
    ///
    /// Prices and amounts are read from the first bid and ask level with `parse`; a side without
    /// levels, or a text that `parse` finds no number in, gives `zero` for that field alone.
    pub fn from_order_book_l1<F: Fn(&String) -> Option<N>>(
        exchange: ExchangeId,
        instrument: InstrumentId,
        book: BybitOrderBookL1,
        received_time: Timestamp,
        parse: &F,
        zero: N,
    ) -> (r: Self)
        requires
            forall|s: &String| parse.requires((s,)),
        ensures
            maps_to(r, exchange, instrument, book, received_time, *parse, zero),
            book.data.b@.len() == 0 ==> r.0@[0]->Ok_0.kind.best_bid == (Level { price: zero, amount: zero }),
            book.data.a@.len() == 0 ==> r.0@[0]->Ok_0.kind.best_ask == (Level { price: zero, amount: zero }),
    {
        let best_bid = best_level(parse, &book.data.b, zero);
        let best_ask = best_level(parse, &book.data.a, zero);
        let ts = book.ts;
        let mut events: Vec<Result<MarketEvent<InstrumentId, OrderBookL1<N>>, DecodeError>> = Vec::new();
        events.push(
            Ok(
                MarketEvent {
                    exchange_time: ts,
                    received_time,
                    exchange,
                    instrument,
                    kind: OrderBookL1 { last_update_time: ts, best_bid, best_ask },
                },
            ),
        );
        MarketIter(events)
    }

    /// Maps a top-of-book message as `from_order_book_l1` does, received now by the wall clock.
    pub fn from_order_book_l1_now<F: Fn(&String) -> Option<N>>(
        exchange: ExchangeId,
        instrument: InstrumentId,
        book: BybitOrderBookL1,
        parse: &F,
        zero: N,
    ) -> (r: Self)
        requires
            forall|s: &String| parse.requires((s,)),
        ensures
            exists|t: Timestamp| maps_to(r, exchange, instrument, book, t, *parse, zero),
    {
        let now = Timestamp::now();
        let r = Self::from_order_book_l1(exchange, instrument, book, now, parse, zero);
        assert(maps_to(r, exchange, instrument, book, now, *parse, zero));
        r
    }
}

/// A price or amount whose text the parser never reads as a number is `zero`, whatever the other
/// field of the level holds.
pub proof fn lemma_unparsable_field_is_zero<N, F: Fn(&String) -> Option<N>>(
    parse: F,
    levels: Seq<[String; 2]>,
    zero: N,
    out: Level<N>,
    k: int,
)
    requires
        best_level_of(parse, levels, zero, out),
        levels.len() > 0,
        0 <= k < 2,
        forall|p: Option<N>| parse.ensures((&levels[0][k],), p) ==> p is None,
    ensures
        k == 0 ==> out.price == zero,
        k == 1 ==> out.amount == zero,
{
}

/// With a parser that reads each text one way only, mapping is a function of its inputs: two
/// mappings of the same message, in any order or on any thread, yield the same events.
pub proof fn lemma_mapping_deterministic<InstrumentId, N, F: Fn(&String) -> Option<N>>(
    r1: MarketIter<InstrumentId, OrderBookL1<N>>,
    r2: MarketIter<InstrumentId, OrderBookL1<N>>,
    exchange: ExchangeId,
    instrument: InstrumentId,
    book: BybitOrderBookL1,
    received_time: Timestamp,
    parse: F,
    zero: N,
)
    requires
        forall|s: &String, p: Option<N>, q: Option<N>|
            parse.ensures((s,), p) && parse.ensures((s,), q) ==> p == q,
        maps_to(r1, exchange, instrument, book, received_time, parse, zero),
        maps_to(r2, exchange, instrument, book, received_time, parse, zero),
    ensures
        r1.0@ == r2.0@,
{
    let e1 = r1.0@[0]->Ok_0;
    let e2 = r2.0@[0]->Ok_0;
    assert(e1.kind.best_bid == e2.kind.best_bid);
    assert(e1.kind.best_ask == e2.kind.best_ask);
    assert(e1 == e2);
    assert(r1.0@ =~= r2.0@);
}

} // verus!
