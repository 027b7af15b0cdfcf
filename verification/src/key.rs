//! The key of an instrument, its fingerprint, and the hash by which
//! fingerprints are spread over shards and partitions.

use vstd::prelude::*;
use vstd::string::*;

verus! {

/// The kind of market in which an instrument trades.
#[derive(Clone, Copy, Debug, PartialEq, Eq, Structural)]
pub enum InstrumentKind {
    Spot,
    Perpetual,
    Other,
}

/// What identifies an instrument: the exchange, the two currencies, and the
/// kind of market.
#[derive(Debug)]
pub struct InstrumentKey {
    pub exchange_id: String,
    pub base: String,
    pub quote: String,
    pub kind: InstrumentKind,
}

/// An instrument key as a mathematical value.
pub struct InstrumentKeyView {
    pub exchange_id: Seq<char>,
    pub base: Seq<char>,
    pub quote: Seq<char>,
    pub kind: InstrumentKind,
}

impl View for InstrumentKey {
    type V = InstrumentKeyView;

    open spec fn view(&self) -> InstrumentKeyView {
        InstrumentKeyView {
            exchange_id: self.exchange_id@,
            base: self.base@,
            quote: self.quote@,
            kind: self.kind,
        }
    }
}

impl Clone for InstrumentKey {
    fn clone(&self) -> (r: Self)
        ensures
            r@ == self@,
    {
        InstrumentKey {
            exchange_id: self.exchange_id.clone(),
            base: self.base.clone(),
            quote: self.quote.clone(),
            kind: self.kind,
        }
    }
}

/// The name of a kind of market, as fingerprints spell it.
pub open spec fn kind_name(kind: InstrumentKind) -> Seq<char> {
    match kind {
        InstrumentKind::Spot => "spot"@,
        InstrumentKind::Perpetual => "perpetual"@,
        InstrumentKind::Other => "other"@,
    }
}

/// The symbol of an instrument: its base, a slash, and its quote.
pub open spec fn symbol_spec(key: InstrumentKeyView) -> Seq<char> {
    key.base + "/"@ + key.quote
}

/// The fingerprint of an instrument: its exchange, a colon, its symbol, a
/// colon, and its kind.
pub open spec fn fingerprint_spec(key: InstrumentKeyView) -> Seq<char> {
    key.exchange_id + ":"@ + key.base + "/"@ + key.quote + ":"@ + kind_name(key.kind)
}

impl InstrumentKey {
    /// The symbol of the instrument.
    pub fn symbol(&self) -> (s: String)
        ensures
            s@ == symbol_spec(self@),
    {
        let mut s = self.base.clone();
        s.append("/");
        s.append(self.quote.as_str());
        s
    }

    /// The fingerprint of the instrument, which keys its monitor and routes
    /// its events.
    pub fn fingerprint(&self) -> (s: String)
        ensures
            s@ == fingerprint_spec(self@),
    {
        let mut s = self.exchange_id.clone();
        s.append(":");
        s.append(self.base.as_str());
        s.append("/");
        s.append(self.quote.as_str());
        s.append(":");
        match self.kind {
            InstrumentKind::Spot => s.append("spot"),
            InstrumentKind::Perpetual => s.append("perpetual"),
            InstrumentKind::Other => s.append("other"),
        }
        s
    }
}

/// The value from which hashing starts.
pub const HASH_SEED: u64 = 14_695_981_039_346_656_037;

/// The factor by which the hash grows with each byte.
pub const HASH_FACTOR: u64 = 1_099_511_628_211;

/// The modulus of the hash: the largest prime below 2^64.
pub const HASH_MODULUS: u64 = 18_446_744_073_709_551_557;

/// The hash of a sequence of bytes: from the seed, each byte in turn takes
/// the hash to `(hash * factor + byte) mod modulus`.
pub open spec fn hash_bytes(bytes: Seq<u8>) -> int
    decreases bytes.len(),
{
    if bytes.len() == 0 {
        HASH_SEED as int % HASH_MODULUS as int
    } else {
        (hash_bytes(bytes.drop_last()) * HASH_FACTOR + bytes.last()) % (HASH_MODULUS as int)
    }
}

/// The hash of a text: that of its bytes in UTF-8.
pub open spec fn hash_text(text: Seq<char>) -> int {
    hash_bytes(vstd::utf8::encode_utf8(text))
}

/// The shard or partition, out of `count`, to which a text belongs; 0 where
/// there is none to choose from.
pub open spec fn slot_of(text: Seq<char>, count: int) -> int {
    if count <= 0 {
        0
    } else {
        hash_text(text) % count
    }
}

/// The hash of a text.
pub fn hash_key(key: &str) -> (h: u64)
    ensures
        h == hash_text(key@),
        h < HASH_MODULUS,
{
    let bytes = key.as_bytes();
    let mut h: u64 = HASH_SEED % HASH_MODULUS;
    let mut i: usize = 0;
    while i < bytes.len()
        invariant
            i <= bytes@.len(),
            h == hash_bytes(bytes@.subrange(0, i as int)),
            h < HASH_MODULUS,
        decreases bytes@.len() - i,
    {
        proof {
            assert(bytes@.subrange(0, i + 1).drop_last() =~= bytes@.subrange(0, i as int));
            assert(h as int * HASH_FACTOR as int <= 0xFFFF_FFFF_FFFF_FFFF * 1_099_511_628_211)
                by (nonlinear_arith)
                requires
                    0 <= h as int <= 0xFFFF_FFFF_FFFF_FFFF,
                    HASH_FACTOR as int == 1_099_511_628_211,
            ;
        }
        let wide: u128 = (h as u128) * (HASH_FACTOR as u128) + (bytes[i] as u128);
        h = (wide % (HASH_MODULUS as u128)) as u64;
        i = i + 1;
    }
    assert(bytes@.subrange(0, bytes@.len() as int) =~= bytes@);
    h
}

/// The shard or partition, out of `count`, to which a text belongs; 0 where
/// there is none to choose from.
pub fn slot_for(key: &str, count: u64) -> (slot: u64)
    ensures
        slot == slot_of(key@, count as int),
        count > 0 ==> slot < count,
{
    if count == 0 {
        0
    } else {
        hash_key(key) % count
    }
}

/// A hash is a number below the modulus.
pub proof fn lemma_hash_in_range(bytes: Seq<u8>)
    ensures
        0 <= hash_bytes(bytes) < HASH_MODULUS,
    decreases bytes.len(),
{
}

/// A slot is one of those to choose from.
pub proof fn lemma_slot_in_range(text: Seq<char>, count: int)
    ensures
        count > 0 ==> 0 <= slot_of(text, count) < count,
        count <= 0 ==> slot_of(text, count) == 0,
{
}

} // verus!
