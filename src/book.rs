use vstd::prelude::*;
use crate::json::{JsonValue, first_with_key, get_field, lemma_lookup_at, lookup};
use crate::time::{Timestamp, millis_representable};
use barter_integration::model::SubscriptionId;

verus! {

/// The identifier type of barter's stream routing, a plain wrapper around the key text.
#[verifier::external_type_specification]
pub struct ExSubscriptionId(SubscriptionId);

/// Canonical name of Bybit's top-of-book channel.
pub const ORDER_BOOK_L1: &'static str = "orderbook.1";

/// A field of the top-of-book message, as named by a decode error.
#[derive(Debug, Clone, Copy, PartialEq, Eq, Structural)]
pub enum Field {
    /// The message itself, which must be an object.
    Payload,
    Topic,
    Ts,
    UpdateType,
    Data,
    Symbol,
    Bids,
    Asks,
    UpdateId,
    Sequence,
    Cts,
}

/// Why a payload is not a top-of-book message.
#[derive(Debug, Clone, Copy, PartialEq, Eq, Structural)]
pub enum DecodeError {
    /// A required field is absent.
    Missing(Field),
    /// A field is present but its value has the wrong shape or is out of range.
    Malformed(Field),
}

/// One price level as sent on the wire: price and amount, both decimal text.
pub type LevelText = (Seq<char>, Seq<char>);

/// What a decoded `data` object holds.
pub struct DataModel {
    pub symbol: Seq<char>,
    pub bids: Seq<LevelText>,
    pub asks: Seq<LevelText>,
    pub update_id: u64,
    pub sequence: u64,
}

/// What a decoded top-of-book message holds; `ts` is in milliseconds since the Unix epoch.
pub struct BookModel {
    pub topic: Seq<char>,
    pub ts: i64,
    pub update_type: Seq<char>,
    pub data: DataModel,
    pub cts: u64,
}

/// The nested payload of a top-of-book update.
#[derive(Debug)]
pub struct BybitOrderBookL1Data {
    /// Instrument symbol.
    pub s: String,
    /// Bid levels `[price, amount]`, best first.
    pub b: Vec<[String; 2]>,
    /// Ask levels `[price, amount]`, best first.
    pub a: Vec<[String; 2]>,
    /// Update counter.
    pub u: u64,
    /// Sequence counter.
    pub seq: u64,
}

/// A top-of-book update message of Bybit's `orderbook.1` channel.
#[derive(Debug)]
pub struct BybitOrderBookL1 {
    pub topic: String,
    /// Exchange timestamp.
    pub ts: Timestamp,
    /// `"snapshot"` or `"delta"`.
    pub update_type: String,
    pub data: BybitOrderBookL1Data,
    /// Matching-engine timestamp in milliseconds.
    pub cts: u64,
}

pub open spec fn level_text(l: [String; 2]) -> LevelText {
    (l[0]@, l[1]@)
}

pub open spec fn level_texts(ls: Seq<[String; 2]>) -> Seq<LevelText> {
    ls.map_values(|l: [String; 2]| level_text(l))
}

impl View for BybitOrderBookL1Data {
    type V = DataModel;

    open spec fn view(&self) -> DataModel {
        DataModel {
            symbol: self.s@,
            bids: level_texts(self.b@),
            asks: level_texts(self.a@),
            update_id: self.u,
            sequence: self.seq,
        }
    }
}

impl View for BybitOrderBookL1 {
    type V = BookModel;

    open spec fn view(&self) -> BookModel {
        BookModel {
            topic: self.topic@,
            ts: self.ts@,
            update_type: self.update_type@,
            data: self.data@,
            cts: self.cts,
        }
    }
}

// ---------------------------------------------------------------------------
// Decoding, stated over the payload tree.
// ---------------------------------------------------------------------------

pub open spec fn owned(v: Option<&JsonValue>) -> Option<JsonValue> {
    match v {
        Some(x) => Some(*x),
        None => None,
    }
}

pub open spec fn text_field(v: Option<JsonValue>, f: Field) -> Result<Seq<char>, DecodeError> {
    match v {
        None => Err(DecodeError::Missing(f)),
        Some(JsonValue::Text(s)) => Ok(s@),
        Some(_) => Err(DecodeError::Malformed(f)),
    }
}

pub open spec fn unsigned_field(v: Option<JsonValue>, f: Field) -> Result<u64, DecodeError> {
    match v {
        None => Err(DecodeError::Missing(f)),
        Some(JsonValue::Integer(n)) => if 0 <= n <= u64::MAX {
            Ok(n as u64)
        } else {
            Err(DecodeError::Malformed(f))
        },
        Some(_) => Err(DecodeError::Malformed(f)),
    }
}

/// A millisecond timestamp: an integer that chrono can represent as an instant.
pub open spec fn millis_field(v: Option<JsonValue>, f: Field) -> Result<i64, DecodeError> {
    match v {
        None => Err(DecodeError::Missing(f)),
        Some(JsonValue::Integer(n)) => if i64::MIN <= n <= i64::MAX && millis_representable(
            n as i64,
        ) {
            Ok(n as i64)
        } else {
            Err(DecodeError::Malformed(f))
        },
        Some(_) => Err(DecodeError::Malformed(f)),
    }
}

pub open spec fn text_of(v: JsonValue) -> Seq<char> {
    match v {
        JsonValue::Text(s) => s@,
        _ => Seq::empty(),
    }
}

/// A level on the wire is an array of exactly two strings.
pub open spec fn is_level(v: JsonValue) -> bool {
    &&& v matches JsonValue::Array(xs)
    &&& xs@.len() == 2
    &&& xs@[0] is Text
    &&& xs@[1] is Text
}

pub open spec fn level_of(v: JsonValue) -> LevelText {
    match v {
        JsonValue::Array(xs) => (text_of(xs@[0]), text_of(xs@[1])),
        _ => (Seq::empty(), Seq::empty()),
    }
}

pub open spec fn levels_field(v: Option<JsonValue>, f: Field) -> Result<Seq<LevelText>, DecodeError> {
    match v {
        None => Err(DecodeError::Missing(f)),
        Some(JsonValue::Array(xs)) => if forall|i: int| 0 <= i < xs@.len() ==> is_level(#[trigger] xs@[i]) {
            Ok(xs@.map_values(|x: JsonValue| level_of(x)))
        } else {
            Err(DecodeError::Malformed(f))
        },
        Some(_) => Err(DecodeError::Malformed(f)),
    }
}

/// Decoding of the entries of the `data` object; fields are checked in the order
/// `s`, `b`, `a`, `u`, `seq`, and the first failure is reported.
pub open spec fn data_entries(fs: Seq<(String, JsonValue)>) -> Result<DataModel, DecodeError> {
    match text_field(lookup(fs, "s"@), Field::Symbol) {
        Err(e) => Err(e),
        Ok(symbol) => match levels_field(lookup(fs, "b"@), Field::Bids) {
            Err(e) => Err(e),
            Ok(bids) => match levels_field(lookup(fs, "a"@), Field::Asks) {
                Err(e) => Err(e),
                Ok(asks) => match unsigned_field(lookup(fs, "u"@), Field::UpdateId) {
                    Err(e) => Err(e),
                    Ok(update_id) => match unsigned_field(lookup(fs, "seq"@), Field::Sequence) {
                        Err(e) => Err(e),
                        Ok(sequence) => Ok(DataModel { symbol, bids, asks, update_id, sequence }),
                    },
                },
            },
        },
    }
}

pub open spec fn data_field(v: Option<JsonValue>) -> Result<DataModel, DecodeError> {
    match v {
        None => Err(DecodeError::Missing(Field::Data)),
        Some(JsonValue::Object(fs)) => data_entries(fs@),
        Some(_) => Err(DecodeError::Malformed(Field::Data)),
    }
}

/// Decoding of the entries of a message; fields are checked in the order
/// `topic`, `ts`, `type`, `data` (and what it holds), `cts`, and the first failure is reported.
/// Entries with other keys are ignored; of repeated keys the first counts.
pub open spec fn message_entries(fs: Seq<(String, JsonValue)>) -> Result<BookModel, DecodeError> {
    match text_field(lookup(fs, "topic"@), Field::Topic) {
        Err(e) => Err(e),
        Ok(topic) => match millis_field(lookup(fs, "ts"@), Field::Ts) {
            Err(e) => Err(e),
            Ok(ts) => match text_field(lookup(fs, "type"@), Field::UpdateType) {
                Err(e) => Err(e),
                Ok(update_type) => match data_field(lookup(fs, "data"@)) {
                    Err(e) => Err(e),
                    Ok(data) => match unsigned_field(lookup(fs, "cts"@), Field::Cts) {
                        Err(e) => Err(e),
                        Ok(cts) => Ok(BookModel { topic, ts, update_type, data, cts }),
                    },
                },
            },
        },
    }
}

/// The message that a payload encodes, or the first reason it does not encode one.
pub open spec fn decode_message(v: JsonValue) -> Result<BookModel, DecodeError> {
    match v {
        JsonValue::Object(fs) => message_entries(fs@),
        _ => Err(DecodeError::Malformed(Field::Payload)),
    }
}

fn decode_text(v: Option<&JsonValue>, f: Field) -> (r: Result<String, DecodeError>)
    ensures
        match r {
            Ok(s) => text_field(owned(v), f) == Ok::<Seq<char>, DecodeError>(s@),
            Err(e) => text_field(owned(v), f) == Err::<Seq<char>, DecodeError>(e),
        },
{
    match v {
        None => Err(DecodeError::Missing(f)),
        Some(JsonValue::Text(s)) => Ok(s.clone()),
        Some(_) => Err(DecodeError::Malformed(f)),
    }
}

fn decode_unsigned(v: Option<&JsonValue>, f: Field) -> (r: Result<u64, DecodeError>)
    ensures
        r == unsigned_field(owned(v), f),
{
    match v {
        None => Err(DecodeError::Missing(f)),
        Some(JsonValue::Integer(n)) => if 0 <= *n && *n <= u64::MAX as i128 {
            Ok(*n as u64)
        } else {
            Err(DecodeError::Malformed(f))
        },
        Some(_) => Err(DecodeError::Malformed(f)),
    }
}

fn decode_timestamp(v: Option<&JsonValue>, f: Field) -> (r: Result<Timestamp, DecodeError>)
    ensures
        match r {
            Ok(t) => millis_field(owned(v), f) == Ok::<i64, DecodeError>(t@),
            Err(e) => millis_field(owned(v), f) == Err::<i64, DecodeError>(e),
        },
{
    match v {
        None => Err(DecodeError::Missing(f)),
        Some(JsonValue::Integer(n)) => {
            if *n < i64::MIN as i128 || *n > i64::MAX as i128 {
                return Err(DecodeError::Malformed(f));
            }
            match Timestamp::from_millis(*n as i64) {
                Some(t) => Ok(t),
                None => Err(DecodeError::Malformed(f)),
            }
        },
        Some(_) => Err(DecodeError::Malformed(f)),
    }
}

proof fn lemma_bad_level(xs: Seq<JsonValue>, i: int)
    requires
        0 <= i < xs.len(),
        !is_level(xs[i]),
    ensures
        !(forall|j: int| 0 <= j < xs.len() ==> is_level(#[trigger] xs[j])),
{
}

fn decode_level(x: &JsonValue) -> (r: Option<[String; 2]>)
    ensures
        r is Some <==> is_level(*x),
        r matches Some(l) ==> level_text(l) == level_of(*x),
{
    match x {
        JsonValue::Array(pair) => {
            if pair.len() != 2 {
                return None;
            }
            match (&pair[0], &pair[1]) {
                (JsonValue::Text(price), JsonValue::Text(amount)) => {
                    let l = [price.clone(), amount.clone()];
                    assert(l[0] == *price && l[1] == *amount);
                    Some(l)
                },
                _ => None,
            }
        },
        _ => None,
    }
}

fn decode_levels(v: Option<&JsonValue>, f: Field) -> (r: Result<Vec<[String; 2]>, DecodeError>)
    ensures
        match r {
            Ok(ls) => levels_field(owned(v), f) == Ok::<Seq<LevelText>, DecodeError>(
                level_texts(ls@),
            ),
            Err(e) => levels_field(owned(v), f) == Err::<Seq<LevelText>, DecodeError>(e),
        },
{
    match v {
        None => Err(DecodeError::Missing(f)),
        Some(JsonValue::Array(xs)) => {
            let mut out: Vec<[String; 2]> = Vec::new();
            let mut i: usize = 0;
            while i < xs.len()
                invariant
                    owned(v) == Some(JsonValue::Array(*xs)),
                    i <= xs@.len(),
                    out@.len() == i,
                    forall|j: int| 0 <= j < i ==> is_level(#[trigger] xs@[j]),
                    forall|j: int| 0 <= j < i ==> level_text(#[trigger] out@[j]) == level_of(xs@[j]),
                decreases xs@.len() - i,
            {
                let level = match decode_level(&xs[i]) {
                    Some(l) => l,
                    None => {
                        proof {
                            lemma_bad_level(xs@, i as int);
                        }
                        return Err(DecodeError::Malformed(f));
                    },
                };
                out.push(level);
                i = i + 1;
            }
            assert(level_texts(out@) =~= xs@.map_values(|x: JsonValue| level_of(x)));
            Ok(out)
        },
        Some(_) => Err(DecodeError::Malformed(f)),
    }
}

fn decode_data(v: Option<&JsonValue>) -> (r: Result<BybitOrderBookL1Data, DecodeError>)
    ensures
        match r {
            Ok(d) => data_field(owned(v)) == Ok::<DataModel, DecodeError>(d@),
            Err(e) => data_field(owned(v)) == Err::<DataModel, DecodeError>(e),
        },
{
    let fs = match v {
        Some(JsonValue::Object(fs)) => fs,
        Some(_) => return Err(DecodeError::Malformed(Field::Data)),
        None => return Err(DecodeError::Missing(Field::Data)),
    };
    let s = match decode_text(get_field(fs, "s"), Field::Symbol) {
        Ok(s) => s,
        Err(e) => return Err(e),
    };
    let b = match decode_levels(get_field(fs, "b"), Field::Bids) {
        Ok(b) => b,
        Err(e) => return Err(e),
    };
    let a = match decode_levels(get_field(fs, "a"), Field::Asks) {
        Ok(a) => a,
        Err(e) => return Err(e),
    };
    let u = match decode_unsigned(get_field(fs, "u"), Field::UpdateId) {
        Ok(u) => u,
        Err(e) => return Err(e),
    };
    let seq = match decode_unsigned(get_field(fs, "seq"), Field::Sequence) {
        Ok(q) => q,
        Err(e) => return Err(e),
    };
    Ok(BybitOrderBookL1Data { s, b, a, u, seq })
}

/// The key under which a stream of `channel` for instrument `symbol` is routed.
pub open spec fn subscription_key(channel: Seq<char>, symbol: Seq<char>) -> Seq<char> {
    channel + "|"@ + symbol
}

/// Builds the routing key `<channel>|<symbol>`.
pub fn subscription_key_of(channel: &str, symbol: &str) -> (r: String)
    ensures
        r@ == subscription_key(channel@, symbol@),
{
    let mut key = channel.to_owned();
    key.append("|");
    key.append(symbol);
    key
}

/// Under one channel, two symbols share a routing key exactly when they are equal.
pub proof fn lemma_subscription_key_injective(channel: Seq<char>, s1: Seq<char>, s2: Seq<char>)
    ensures
        subscription_key(channel, s1) == subscription_key(channel, s2) <==> s1 == s2,
{
    reveal_strlit("|");
    let n = channel.len() + 1;
    let k1 = subscription_key(channel, s1);
    let k2 = subscription_key(channel, s2);
    assert(k1.subrange(n as int, k1.len() as int) =~= s1);
    assert(k2.subrange(n as int, k2.len() as int) =~= s2);
}

impl BybitOrderBookL1 {
    /// Decodes a payload into a top-of-book message, or names the first field that is missing or
    /// malformed.
    pub fn decode(v: &JsonValue) -> (r: Result<BybitOrderBookL1, DecodeError>)
        ensures
            match r {
                Ok(m) => decode_message(*v) == Ok::<BookModel, DecodeError>(m@),
                Err(e) => decode_message(*v) == Err::<BookModel, DecodeError>(e),
            },
    {
        let fs = match v {
            JsonValue::Object(fs) => fs,
            _ => return Err(DecodeError::Malformed(Field::Payload)),
        };
        let topic = match decode_text(get_field(fs, "topic"), Field::Topic) {
            Ok(t) => t,
            Err(e) => return Err(e),
        };
        let ts = match decode_timestamp(get_field(fs, "ts"), Field::Ts) {
            Ok(t) => t,
            Err(e) => return Err(e),
        };
        let update_type = match decode_text(get_field(fs, "type"), Field::UpdateType) {
            Ok(t) => t,
            Err(e) => return Err(e),
        };
        let data = match decode_data(get_field(fs, "data")) {
            Ok(d) => d,
            Err(e) => return Err(e),
        };
        let cts = match decode_unsigned(get_field(fs, "cts"), Field::Cts) {
            Ok(c) => c,
            Err(e) => return Err(e),
        };
        Ok(BybitOrderBookL1 { topic, ts, update_type, data, cts })
    }

    /// The routing key of the stream this message belongs to: the top-of-book channel and the
    /// message's symbol.
    pub fn id(&self) -> (r: Option<SubscriptionId>)
        ensures
            r matches Some(id) && id.0@ == subscription_key(ORDER_BOOK_L1@, self.data.s@),
    {
        Some(SubscriptionId(subscription_key_of(ORDER_BOOK_L1, self.data.s.as_str())))
    }
}

// ---------------------------------------------------------------------------
// Encoding back into the payload tree.
// ---------------------------------------------------------------------------

pub open spec fn is_text(v: JsonValue, s: Seq<char>) -> bool {
    v matches JsonValue::Text(t) && t@ == s
}

pub open spec fn is_integer(v: JsonValue, n: int) -> bool {
    v matches JsonValue::Integer(m) && m == n
}

/// `v` is an array that holds, in order, one `[price, amount]` pair of strings per level of `ls`.
pub open spec fn encodes_levels(v: JsonValue, ls: Seq<LevelText>) -> bool {
    &&& v matches JsonValue::Array(xs)
    &&& xs@.len() == ls.len()
    &&& forall|i: int| 0 <= i < ls.len() ==> is_level(#[trigger] xs@[i]) && level_of(xs@[i]) == ls[i]
}

/// `e` is an entry with key `key`.
pub open spec fn has_key(e: (String, JsonValue), key: Seq<char>) -> bool {
    e.0@ == key
}

/// `v` is the object `{s, b, a, u, seq}` that carries `d`.
pub open spec fn encodes_data(v: JsonValue, d: DataModel) -> bool {
    &&& v matches JsonValue::Object(fs)
    &&& fs@.len() == 5
    &&& has_key(fs@[0], "s"@) && is_text(fs@[0].1, d.symbol)
    &&& has_key(fs@[1], "b"@) && encodes_levels(fs@[1].1, d.bids)
    &&& has_key(fs@[2], "a"@) && encodes_levels(fs@[2].1, d.asks)
    &&& has_key(fs@[3], "u"@) && is_integer(fs@[3].1, d.update_id as int)
    &&& has_key(fs@[4], "seq"@) && is_integer(fs@[4].1, d.sequence as int)
}

/// `v` is the object `{topic, ts, type, data, cts}` that carries `m`.
pub open spec fn encodes_message(v: JsonValue, m: BookModel) -> bool {
    &&& v matches JsonValue::Object(fs)
    &&& fs@.len() == 5
    &&& has_key(fs@[0], "topic"@) && is_text(fs@[0].1, m.topic)
    &&& has_key(fs@[1], "ts"@) && is_integer(fs@[1].1, m.ts as int)
    &&& has_key(fs@[2], "type"@) && is_text(fs@[2].1, m.update_type)
    &&& has_key(fs@[3], "data"@) && encodes_data(fs@[3].1, m.data)
    &&& has_key(fs@[4], "cts"@) && is_integer(fs@[4].1, m.cts as int)
}

fn levels_to_json(ls: &Vec<[String; 2]>) -> (r: JsonValue)
    ensures
        encodes_levels(r, level_texts(ls@)),
{
    let mut xs: Vec<JsonValue> = Vec::new();
    let mut i: usize = 0;
    while i < ls.len()
        invariant
            i <= ls@.len(),
            xs@.len() == i,
            forall|j: int|
                0 <= j < i ==> is_level(#[trigger] xs@[j]) && level_of(xs@[j]) == level_text(ls@[j]),
        decreases ls@.len() - i,
    {
        let level = &ls[i];
        let mut pair: Vec<JsonValue> = Vec::new();
        pair.push(JsonValue::Text(level[0].clone()));
        pair.push(JsonValue::Text(level[1].clone()));
        xs.push(JsonValue::Array(pair));
        i = i + 1;
    }
    JsonValue::Array(xs)
}

/// Levels written by `encodes_levels` decode to the same levels.
proof fn lemma_levels_round_trip(v: JsonValue, ls: Seq<LevelText>, f: Field)
    requires
        encodes_levels(v, ls),
    ensures
        levels_field(Some(v), f) == Ok::<Seq<LevelText>, DecodeError>(ls),
{
    if let JsonValue::Array(xs) = v {
        assert(xs@.map_values(|x: JsonValue| level_of(x)) =~= ls);
    }
}

proof fn lemma_key_literals()
    ensures
        "topic"@ != "ts"@, "topic"@ != "type"@, "topic"@ != "data"@, "topic"@ != "cts"@,
        "ts"@ != "type"@, "ts"@ != "data"@, "ts"@ != "cts"@,
        "type"@ != "data"@, "type"@ != "cts"@, "data"@ != "cts"@,
        "s"@ != "b"@, "s"@ != "a"@, "s"@ != "u"@, "s"@ != "seq"@,
        "b"@ != "a"@, "b"@ != "u"@, "b"@ != "seq"@,
        "a"@ != "u"@, "a"@ != "seq"@, "u"@ != "seq"@,
{
    reveal_strlit("topic");
    reveal_strlit("ts");
    reveal_strlit("type");
    reveal_strlit("data");
    reveal_strlit("cts");
    reveal_strlit("s");
    reveal_strlit("b");
    reveal_strlit("a");
    reveal_strlit("u");
    reveal_strlit("seq");
    assert("topic"@[1] != "ts"@[1]);
    assert("topic"@[1] != "type"@[1]);
    assert("topic"@[0] != "data"@[0]);
    assert("topic"@[0] != "cts"@[0]);
    assert("ts"@.len() != "type"@.len());
    assert("ts"@[0] != "data"@[0]);
    assert("ts"@.len() != "cts"@.len());
    assert("type"@[0] != "data"@[0]);
    assert("type"@.len() != "cts"@.len());
    assert("data"@.len() != "cts"@.len());
    assert("s"@[0] != "b"@[0]);
    assert("s"@[0] != "a"@[0]);
    assert("s"@[0] != "u"@[0]);
    assert("s"@.len() != "seq"@.len());
    assert("b"@[0] != "a"@[0]);
    assert("b"@[0] != "u"@[0]);
    assert("b"@.len() != "seq"@.len());
    assert("a"@[0] != "u"@[0]);
    assert("a"@.len() != "seq"@.len());
    assert("u"@.len() != "seq"@.len());
}

/// The `data` object written by `encodes_data` decodes to the same data.
proof fn lemma_data_round_trip(v: JsonValue, d: DataModel)
    requires
        encodes_data(v, d),
    ensures
        data_field(Some(v)) == Ok::<DataModel, DecodeError>(d),
{
    lemma_key_literals();
    if let JsonValue::Object(fs) = v {
        let fs = fs@;
        assert(first_with_key(fs, "s"@, 0));
        assert(first_with_key(fs, "b"@, 1));
        assert(first_with_key(fs, "a"@, 2));
        assert(first_with_key(fs, "u"@, 3));
        assert(first_with_key(fs, "seq"@, 4));
        lemma_lookup_at(fs, "s"@, 0);
        lemma_lookup_at(fs, "b"@, 1);
        lemma_lookup_at(fs, "a"@, 2);
        lemma_lookup_at(fs, "u"@, 3);
        lemma_lookup_at(fs, "seq"@, 4);
        lemma_levels_round_trip(fs[1].1, d.bids, Field::Bids);
        lemma_levels_round_trip(fs[2].1, d.asks, Field::Asks);
    }
}

/// A message written by `encodes_message` decodes to the same message, provided its timestamp
/// is one that chrono can represent.
pub proof fn lemma_encode_decode(v: JsonValue, m: BookModel)
    requires
        encodes_message(v, m),
        millis_representable(m.ts),
    ensures
        decode_message(v) == Ok::<BookModel, DecodeError>(m),
{
    lemma_key_literals();
    if let JsonValue::Object(fs) = v {
        let fs = fs@;
        assert(first_with_key(fs, "topic"@, 0));
        assert(first_with_key(fs, "ts"@, 1));
        assert(first_with_key(fs, "type"@, 2));
        assert(first_with_key(fs, "data"@, 3));
        assert(first_with_key(fs, "cts"@, 4));
        lemma_lookup_at(fs, "topic"@, 0);
        lemma_lookup_at(fs, "ts"@, 1);
        lemma_lookup_at(fs, "type"@, 2);
        lemma_lookup_at(fs, "data"@, 3);
        lemma_lookup_at(fs, "cts"@, 4);
        lemma_data_round_trip(fs[3].1, m.data);
    }
}

/// Decoding a payload and writing the decoded message back yields a payload that decodes to the
/// same field values.
pub proof fn lemma_decode_reencode(v: JsonValue, w: JsonValue)
    requires
        decode_message(v) is Ok,
        encodes_message(w, decode_message(v)->Ok_0),
    ensures
        decode_message(w) == decode_message(v),
{
    let m = decode_message(v)->Ok_0;
    if let JsonValue::Object(fs) = v {
        assert(millis_representable(m.ts));
    }
    lemma_encode_decode(w, m);
}

impl BybitOrderBookL1Data {
    /// The `data` object `{s, b, a, u, seq}` of this payload.
    pub fn to_json(&self) -> (r: JsonValue)
        ensures
            encodes_data(r, self@),
    {
        let mut fs: Vec<(String, JsonValue)> = Vec::new();
        fs.push(("s".to_owned(), JsonValue::Text(self.s.clone())));
        fs.push(("b".to_owned(), levels_to_json(&self.b)));
        fs.push(("a".to_owned(), levels_to_json(&self.a)));
        fs.push(("u".to_owned(), JsonValue::Integer(self.u as i128)));
        fs.push(("seq".to_owned(), JsonValue::Integer(self.seq as i128)));
        JsonValue::Object(fs)
    }
}

impl BybitOrderBookL1 {
    /// The wire payload `{topic, ts, type, data, cts}` of this message.
    pub fn to_json(&self) -> (r: JsonValue)
        ensures
            encodes_message(r, self@),
            decode_message(r) == Ok::<BookModel, DecodeError>(self@),
    {
        let ts = self.ts.timestamp_millis();
        let mut fs: Vec<(String, JsonValue)> = Vec::new();
        fs.push(("topic".to_owned(), JsonValue::Text(self.topic.clone())));
        fs.push(("ts".to_owned(), JsonValue::Integer(ts as i128)));
        fs.push(("type".to_owned(), JsonValue::Text(self.update_type.clone())));
        fs.push(("data".to_owned(), self.data.to_json()));
        fs.push(("cts".to_owned(), JsonValue::Integer(self.cts as i128)));
        let r = JsonValue::Object(fs);
        proof {
            lemma_encode_decode(r, self@);
        }
        r
    }
}

} // verus!
