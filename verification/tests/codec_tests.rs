//! The packed byte encoding: maps, auction costs, and the checksum.

use execution_engine::codec::{
    auction_costs_from_bytes, auction_costs_to_bytes, checksum, KvMap,
};
use execution_engine::config::{AuctionCosts, DEFAULT_ADD_BID_COST, DEFAULT_READ_ERA_ID_COST};

#[test]
fn unit_map_round_trip() {
    let unit_map = KvMap::from_pairs(vec![(0, 0)]);
    let data = unit_map.to_packed_bytes();
    let unit_map2 = KvMap::from_packed_bytes(&data).unwrap();
    assert_eq!(unit_map, unit_map2);
}

#[test]
fn empty_unit_map_round_trip() {
    let unit_map = KvMap::new();
    let data = unit_map.to_packed_bytes();
    let unit_map2 = KvMap::from_packed_bytes(&data).unwrap();
    assert_eq!(unit_map, unit_map2);
}

#[test]
fn u64_map_round_trip() {
    let map = KvMap::from_pairs(vec![(1, 10), (2, 20), (u64::MAX, 3)]);
    let data = map.to_packed_bytes();
    let map2 = KvMap::from_packed_bytes(&data).unwrap();
    assert_eq!(map, map2);
}

#[test]
fn malformed_packed_bytes_are_rejected() {
    assert!(KvMap::from_packed_bytes(&vec![1, 2, 3]).is_none());
    // A count that disagrees with the byte length is refused.
    let mut data = KvMap::from_pairs(vec![(1, 1)]).to_packed_bytes();
    data.push(0);
    assert!(KvMap::from_packed_bytes(&data).is_none());
}

#[test]
fn auction_costs_round_trip() {
    let costs = AuctionCosts::default();
    let bytes = auction_costs_to_bytes(&costs);
    assert_eq!(bytes.len(), 136);
    let back = auction_costs_from_bytes(&bytes).unwrap();
    assert_eq!(costs, back);
    assert_eq!(back.add_bid, DEFAULT_ADD_BID_COST);
    assert_eq!(back.read_era_id, DEFAULT_READ_ERA_ID_COST);
    assert!(auction_costs_from_bytes(&vec![0; 10]).is_none());
}

#[test]
fn checksum_is_deterministic_and_input_sensitive() {
    let a = checksum(&vec![1, 2, 3]);
    let b = checksum(&vec![1, 2, 3]);
    let c = checksum(&vec![3, 2, 1]);
    assert_eq!(a, b);
    assert_ne!(a, c);
}
