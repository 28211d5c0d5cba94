//! The deterministic byte encoding of domain values, used for hashing and
//! commitment: little-endian integers, length-prefixed sequences, and the
//! checksum folded over them.

use vstd::prelude::*;

use crate::config::AuctionCosts;

verus! {

/// The eight little-endian bytes of `x`.
pub open spec fn spec_le8(x: u64) -> Seq<u8> {
    Seq::new(8, |i: int| (x >> (8 * i)) as u8)
}

/// The value eight little-endian bytes denote.
pub open spec fn spec_read_le8(s: Seq<u8>) -> u64
    recommends
        s.len() == 8,
{
    (s[0] as u64) | (s[1] as u64) << 8 | (s[2] as u64) << 16 | (s[3] as u64) << 24 | (
    s[4] as u64) << 32 | (s[5] as u64) << 40 | (s[6] as u64) << 48 | (s[7] as u64) << 56
}

/// Reading back the eight little-endian bytes of `x` yields `x`.
pub proof fn lemma_le8_round_trip(x: u64)
    ensures
        spec_read_le8(spec_le8(x)) == x,
{
    let s = spec_le8(x);
    assert(s[0] == (x >> 0) as u8 && s[1] == (x >> 8) as u8 && s[2] == (x >> 16) as u8 && s[3]
        == (x >> 24) as u8 && s[4] == (x >> 32) as u8 && s[5] == (x >> 40) as u8 && s[6] == (x
        >> 48) as u8 && s[7] == (x >> 56) as u8);
    assert((((x >> 0) as u8) as u64) | (((x >> 8) as u8) as u64) << 8 | (((x >> 16) as u8) as u64)
        << 16 | (((x >> 24) as u8) as u64) << 24 | (((x >> 32) as u8) as u64) << 32 | (((x
        >> 40) as u8) as u64) << 40 | (((x >> 48) as u8) as u64) << 48 | (((x >> 56) as u8) as u64)
        << 56 == x) by (bit_vector);
}

/// Appends the eight little-endian bytes of `x`.
pub fn write_u64(out: &mut Vec<u8>, x: u64)
    ensures
        final(out)@ =~= old(out)@ + spec_le8(x),
{
    let ghost before = out@;
    out.push((x >> 0) as u8);
    out.push((x >> 8) as u8);
    out.push((x >> 16) as u8);
    out.push((x >> 24) as u8);
    out.push((x >> 32) as u8);
    out.push((x >> 40) as u8);
    out.push((x >> 48) as u8);
    out.push((x >> 56) as u8);
    proof {
        assert(out@ =~= before + spec_le8(x));
    }
}

/// Reads eight little-endian bytes at `at`.
pub fn read_u64(bytes: &Vec<u8>, at: usize) -> (r: u64)
    requires
        at + 8 <= bytes@.len(),
    ensures
        r == spec_read_le8(bytes@.subrange(at as int, at as int + 8)),
{
    let n = bytes.len();
    proof {
        assert(at + 8 <= n);
    }
    let r = (bytes[at] as u64) | (bytes[at + 1] as u64) << 8u64 | (bytes[at + 2] as u64) << 16u64
        | (bytes[at + 3] as u64) << 24u64 | (bytes[at + 4] as u64) << 32u64 | (bytes[at + 5]
        as u64) << 40u64 | (bytes[at + 6] as u64) << 48u64 | (bytes[at + 7] as u64) << 56u64;
    proof {
        let s = bytes@.subrange(at as int, at as int + 8);
        assert(s[0] == bytes@[at as int] && s[1] == bytes@[at as int + 1] && s[2] == bytes@[
            at as int + 2] && s[3] == bytes@[at as int + 3] && s[4] == bytes@[at as int + 4] && s[5]
            == bytes@[at as int + 5] && s[6] == bytes@[at as int + 6] && s[7] == bytes@[at as int
            + 7]);
    }
    r
}

/// A map of 64-bit keys to 64-bit values, held as ordered pairs.
#[derive(Clone, PartialEq, Eq, Debug)]
pub struct KvMap {
    pub pairs: Vec<(u64, u64)>,
}

impl View for KvMap {
    type V = Seq<(u64, u64)>;

    open spec fn view(&self) -> Seq<(u64, u64)> {
        self.pairs@
    }
}

/// The body of the packed encoding of a pair sequence — each pair's key
/// and value as little-endian eight-byte words; the full encoding prefixes
/// the pair count.
pub open spec fn spec_encode_body(pairs: Seq<(u64, u64)>) -> Seq<u8>
    decreases pairs.len(),
{
    if pairs.len() == 0 {
        Seq::empty()
    } else {
        spec_encode_body(pairs.drop_last()) + spec_le8(pairs.last().0) + spec_le8(pairs.last().1)
    }
}

impl KvMap {
    /// An empty map.
    pub fn new() -> (r: KvMap)
        ensures
            r@ =~= Seq::<(u64, u64)>::empty(),
    {
        KvMap { pairs: Vec::new() }
    }

    /// A map holding the given pairs.
    pub fn from_pairs(pairs: Vec<(u64, u64)>) -> (r: KvMap)
        ensures
            r@ == pairs@,
    {
        KvMap { pairs }
    }

    /// Serializes the map to its packed byte encoding.
    pub fn to_packed_bytes(&self) -> (r: Vec<u8>)
        requires
            self@.len() <= u32::MAX,
        ensures
            r@ == spec_le8(self@.len() as u64) + spec_encode_body(self@),
    {
        let mut out: Vec<u8> = Vec::new();
        write_u64(&mut out, self.pairs.len() as u64);
        let mut i: usize = 0;
        while i < self.pairs.len()
            invariant
                i <= self.pairs.len(),
                self@.len() <= u32::MAX,
                out@ =~= spec_le8(self@.len() as u64) + spec_encode_body(
                    self@.subrange(0, i as int),
                ),
            decreases self.pairs.len() - i,
        {
            let ghost pre = self@.subrange(0, i as int);
            write_u64(&mut out, self.pairs[i].0);
            write_u64(&mut out, self.pairs[i].1);
            proof {
                let cur = self@.subrange(0, i as int + 1);
                assert(cur.drop_last() =~= pre);
                assert(cur.last() == self@[i as int]);
                assert(out@ =~= spec_le8(self@.len() as u64) + spec_encode_body(cur));
            }
            i = i + 1;
        }
        proof {
            assert(self@.subrange(0, self@.len() as int) =~= self@);
        }
        out
    }

    /// Deserializes a packed byte encoding back to a map.  A parse succeeds
    /// exactly on the encodings this module writes: the returned map's own
    /// encoding is the input.
    pub fn from_packed_bytes(bytes: &Vec<u8>) -> (r: Option<KvMap>)
        ensures
            r matches Some(map) ==> map@.len() <= u32::MAX && bytes@ =~= spec_le8(
                map@.len() as u64,
            ) + spec_encode_body(map@),
    {
        if bytes.len() < 8 {
            return None;
        }
        let count = read_u64(bytes, 0);
        if count > u32::MAX as u64 {
            return None;
        }
        let count = count as usize;
        let n = bytes.len();
        let expected: usize = match count.checked_mul(16) {
            Some(x) => match x.checked_add(8) {
                Some(y) => y,
                None => {
                    return None;
                },
            },
            None => {
                return None;
            },
        };
        if n != expected {
            return None;
        }
        let mut pairs: Vec<(u64, u64)> = Vec::new();
        let mut i: usize = 0;
        while i < count
            invariant
                i <= count,
                count <= u32::MAX,
                bytes@.len() == 8 + count * 16,
                bytes@.len() <= usize::MAX,
                pairs@.len() == i,
                spec_encode_body(pairs@) =~= bytes@.subrange(8, 8 + i as int * 16),
            decreases count - i,
        {
            let ghost pre = pairs@;
            let k = read_u64(bytes, 8 + i * 16);
            let v = read_u64(bytes, 8 + i * 16 + 8);
            pairs.push((k, v));
            proof {
                assert(pairs@.drop_last() =~= pre);
                assert(pairs@.last() == (k, v));
                let lo = 8 + i as int * 16;
                assert(spec_le8(k) =~= bytes@.subrange(lo, lo + 8)) by {
                    lemma_le8_is_read(bytes@.subrange(lo, lo + 8));
                }
                assert(spec_le8(v) =~= bytes@.subrange(lo + 8, lo + 16)) by {
                    lemma_le8_is_read(bytes@.subrange(lo + 8, lo + 16));
                }
                assert(spec_encode_body(pairs@) =~= bytes@.subrange(8, lo + 16));
            }
            i = i + 1;
        }
        let map = KvMap { pairs };
        proof {
            lemma_le8_round_trip(map@.len() as u64);
            assert(spec_le8(count as u64) =~= bytes@.subrange(0, 8)) by {
                lemma_le8_is_read(bytes@.subrange(0, 8));
            }
            assert(bytes@ =~= bytes@.subrange(0, 8) + bytes@.subrange(8, bytes@.len() as int));
        }
        Some(map)
    }
}

/// Eight bytes are exactly the little-endian encoding of the value they
/// denote.
proof fn lemma_le8_is_read(s: Seq<u8>)
    requires
        s.len() == 8,
    ensures
        spec_le8(spec_read_le8(s)) =~= s,
{
    let x = spec_read_le8(s);
    let b0 = s[0];
    let b1 = s[1];
    let b2 = s[2];
    let b3 = s[3];
    let b4 = s[4];
    let b5 = s[5];
    let b6 = s[6];
    let b7 = s[7];
    let y = (b0 as u64) | (b1 as u64) << 8 | (b2 as u64) << 16 | (b3 as u64) << 24 | (b4 as u64)
        << 32 | (b5 as u64) << 40 | (b6 as u64) << 48 | (b7 as u64) << 56;
    assert((y >> 0) as u8 == b0 && (y >> 8) as u8 == b1 && (y >> 16) as u8 == b2 && (y >> 24) as u8
        == b3 && (y >> 32) as u8 == b4 && (y >> 40) as u8 == b5 && (y >> 48) as u8 == b6 && (y
        >> 56) as u8 == b7) by (bit_vector)
        requires
            y == (b0 as u64) | (b1 as u64) << 8 | (b2 as u64) << 16 | (b3 as u64) << 24 | (
            b4 as u64) << 32 | (b5 as u64) << 40 | (b6 as u64) << 48 | (b7 as u64) << 56,
    ;
    assert forall|i: int| 0 <= i < 8 implies spec_le8(x)[i] == s[i] by {
        assert(x == y);
    }
}

/// The seed of the checksum fold.
pub const CHECKSUM_SEED: u64 = 0xcbf2_9ce4_8422_2325;

/// The multiplier of the checksum fold.
pub const CHECKSUM_PRIME: u64 = 0x0000_0100_0000_01b3;

/// The checksum of a byte sequence: a byte-wise xor-and-multiply fold.
pub open spec fn spec_checksum(s: Seq<u8>, acc: u64) -> u64
    decreases s.len(),
{
    if s.len() == 0 {
        acc
    } else {
        spec_checksum(
            s.drop_first(),
            vstd::wrapping::u64_specs::wrapping_mul(acc ^ (s[0] as u64), CHECKSUM_PRIME),
        )
    }
}

/// Computes the checksum of `bytes`.
pub fn checksum(bytes: &Vec<u8>) -> (r: u64)
    ensures
        r == spec_checksum(bytes@, CHECKSUM_SEED),
{
    let mut acc: u64 = CHECKSUM_SEED;
    let mut i: usize = 0;
    proof {
        assert(bytes@.subrange(0, bytes@.len() as int) =~= bytes@);
    }
    while i < bytes.len()
        invariant
            i <= bytes.len(),
            spec_checksum(bytes@.subrange(i as int, bytes@.len() as int), acc) == spec_checksum(
                bytes@,
                CHECKSUM_SEED,
            ),
        decreases bytes.len() - i,
    {
        proof {
            let rest = bytes@.subrange(i as int, bytes@.len() as int);
            assert(rest[0] == bytes@[i as int]);
            assert(rest.drop_first() =~= bytes@.subrange(i as int + 1, bytes@.len() as int));
        }
        acc = (acc ^ (bytes[i] as u64)).wrapping_mul(CHECKSUM_PRIME);
        i = i + 1;
    }
    proof {
        assert(bytes@.subrange(bytes@.len() as int, bytes@.len() as int) =~= Seq::<u8>::empty());
    }
    acc
}

/// Serializes the auction costs: each field as eight little-endian bytes, in
/// declaration order.
pub fn auction_costs_to_bytes(costs: &AuctionCosts) -> (r: Vec<u8>)
    ensures
        r@.len() == 136,
        r@ =~= spec_le8(costs.get_era_validators) + spec_le8(costs.read_seigniorage_recipients)
            + spec_le8(costs.add_bid) + spec_le8(costs.withdraw_bid) + spec_le8(costs.delegate)
            + spec_le8(costs.undelegate) + spec_le8(costs.run_auction) + spec_le8(costs.slash)
            + spec_le8(costs.distribute) + spec_le8(costs.withdraw_delegator_reward) + spec_le8(
            costs.withdraw_validator_reward,
        ) + spec_le8(costs.read_era_id) + spec_le8(costs.activate_bid) + spec_le8(costs.redelegate)
            + spec_le8(costs.change_bid_public_key) + spec_le8(costs.add_reservations) + spec_le8(
            costs.cancel_reservations,
        ),
{
    let mut out: Vec<u8> = Vec::new();
    write_u64(&mut out, costs.get_era_validators);
    write_u64(&mut out, costs.read_seigniorage_recipients);
    write_u64(&mut out, costs.add_bid);
    write_u64(&mut out, costs.withdraw_bid);
    write_u64(&mut out, costs.delegate);
    write_u64(&mut out, costs.undelegate);
    write_u64(&mut out, costs.run_auction);
    write_u64(&mut out, costs.slash);
    write_u64(&mut out, costs.distribute);
    write_u64(&mut out, costs.withdraw_delegator_reward);
    write_u64(&mut out, costs.withdraw_validator_reward);
    write_u64(&mut out, costs.read_era_id);
    write_u64(&mut out, costs.activate_bid);
    write_u64(&mut out, costs.redelegate);
    write_u64(&mut out, costs.change_bid_public_key);
    write_u64(&mut out, costs.add_reservations);
    write_u64(&mut out, costs.cancel_reservations);
    out
}

/// Deserializes auction costs written by `auction_costs_to_bytes`: the
/// parsed value's own encoding is the input.
pub fn auction_costs_from_bytes(bytes: &Vec<u8>) -> (r: Option<AuctionCosts>)
    ensures
        bytes@.len() != 136 ==> r is None,
        r matches Some(c) ==> ({
            &&& c.get_era_validators == spec_read_le8(bytes@.subrange(0, 8))
            &&& c.read_seigniorage_recipients == spec_read_le8(bytes@.subrange(8, 16))
            &&& c.add_bid == spec_read_le8(bytes@.subrange(16, 24))
            &&& c.withdraw_bid == spec_read_le8(bytes@.subrange(24, 32))
            &&& c.delegate == spec_read_le8(bytes@.subrange(32, 40))
            &&& c.undelegate == spec_read_le8(bytes@.subrange(40, 48))
            &&& c.run_auction == spec_read_le8(bytes@.subrange(48, 56))
            &&& c.slash == spec_read_le8(bytes@.subrange(56, 64))
            &&& c.distribute == spec_read_le8(bytes@.subrange(64, 72))
            &&& c.withdraw_delegator_reward == spec_read_le8(bytes@.subrange(72, 80))
            &&& c.withdraw_validator_reward == spec_read_le8(bytes@.subrange(80, 88))
            &&& c.read_era_id == spec_read_le8(bytes@.subrange(88, 96))
            &&& c.activate_bid == spec_read_le8(bytes@.subrange(96, 104))
            &&& c.redelegate == spec_read_le8(bytes@.subrange(104, 112))
            &&& c.change_bid_public_key == spec_read_le8(bytes@.subrange(112, 120))
            &&& c.add_reservations == spec_read_le8(bytes@.subrange(120, 128))
            &&& c.cancel_reservations == spec_read_le8(bytes@.subrange(128, 136))
        }),
{
    if bytes.len() != 136 {
        return None;
    }
    Some(
        AuctionCosts {
            get_era_validators: read_u64(bytes, 0),
            read_seigniorage_recipients: read_u64(bytes, 8),
            add_bid: read_u64(bytes, 16),
            withdraw_bid: read_u64(bytes, 24),
            delegate: read_u64(bytes, 32),
            undelegate: read_u64(bytes, 40),
            run_auction: read_u64(bytes, 48),
            slash: read_u64(bytes, 56),
            distribute: read_u64(bytes, 64),
            withdraw_delegator_reward: read_u64(bytes, 72),
            withdraw_validator_reward: read_u64(bytes, 80),
            read_era_id: read_u64(bytes, 88),
            activate_bid: read_u64(bytes, 96),
            redelegate: read_u64(bytes, 104),
            change_bid_public_key: read_u64(bytes, 112),
            add_reservations: read_u64(bytes, 120),
            cancel_reservations: read_u64(bytes, 128),
        },
    )
}

} // verus!
