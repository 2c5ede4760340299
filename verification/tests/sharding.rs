use sharded_kv::error::ErrorKind;
use sharded_kv::sharding::hash_bytes;
use sharded_kv::sharding::ShardConfig;
use sharded_kv::sharding::FNV_OFFSET_BASIS;
use sharded_kv::sharding::FNV_PRIME;

fn three_nodes(current_shard: usize) -> ShardConfig {
    ShardConfig::new(
        vec![
            "127.0.0.1:8080".to_string(),
            "127.0.0.1:8081".to_string(),
            "127.0.0.1:8082".to_string(),
        ],
        current_shard,
    )
}

#[test]
fn hash_of_nothing_is_the_offset_basis() {
    assert_eq!(hash_bytes(b""), 0xcbf29ce484222325);
    assert_eq!(hash_bytes(b""), FNV_OFFSET_BASIS);
    assert_eq!(FNV_PRIME, 0x100000001b3);
}

#[test]
fn hash_matches_known_values() {
    assert_eq!(hash_bytes(b"a"), 0xaf63dc4c8601ec8c);
    assert_eq!(hash_bytes(b"foo"), 0xdcb27518fed9d577);
    assert_eq!(hash_bytes(b"foobar"), 0x85944171f73967e8);
    assert_eq!(hash_bytes(b"hello"), 0xa430d84680aabd0b);
}

#[test]
fn hash_of_one_byte_is_one_step() {
    let expected = (FNV_OFFSET_BASIS ^ 0x61).wrapping_mul(FNV_PRIME);
    assert_eq!(hash_bytes(&[0x61]), expected);
}

#[test]
fn hash_reads_the_bytes_of_the_encoding() {
    assert_eq!(hash_bytes("é".as_bytes()), 0x0ac21707b7181e01);
    assert_eq!(hash_bytes(&[0xc3, 0xa9]), 0x0ac21707b7181e01);
}

#[test]
fn new_keeps_what_it_is_given() {
    let config = ShardConfig::new(vec!["a:1".to_string(), "b:2".to_string()], 1);
    assert_eq!(config.shards, vec!["a:1".to_string(), "b:2".to_string()]);
    assert_eq!(config.current_shard, 1);
}

#[test]
fn current_address_is_the_address_of_the_own_partition() {
    assert_eq!(three_nodes(0).current_address(), "127.0.0.1:8080");
    assert_eq!(three_nodes(1).current_address(), "127.0.0.1:8081");
    assert_eq!(three_nodes(2).current_address(), "127.0.0.1:8082");
}

#[test]
fn foo_belongs_to_partition_one_of_three() {
    assert_eq!(three_nodes(0).get_shard("foo"), 1);
}

#[test]
fn owner_is_the_hash_modulo_the_number_of_partitions() {
    let config = three_nodes(0);
    assert_eq!(config.get_shard("hello"), 0);
    assert_eq!(config.get_shard("foo"), 1);
    assert_eq!(config.get_shard("world"), 2);
    assert_eq!(config.get_shard("é"), 1);
    assert_eq!(config.get_shard("ключ"), 0);
    assert_eq!(config.get_shard(""), 2);
    let five = ShardConfig::new(vec!["n".to_string(); 5], 0);
    assert_eq!(five.get_shard("foo"), 2);
    assert_eq!(five.get_shard("key2"), 4);
    assert_eq!(five.get_shard("key3"), 0);
}

#[test]
fn owner_is_stable_across_calls_and_nodes() {
    for key in ["foo", "bar", "baz", "user:42", "", "ключ"] {
        let first = three_nodes(0).get_shard(key);
        assert!(first < 3);
        for node in 0..3 {
            let config = three_nodes(node);
            assert_eq!(config.get_shard(key), first);
            assert_eq!(config.get_shard(key), first);
        }
        let other_addresses = ShardConfig::new(vec!["x".to_string(); 3], 2);
        assert_eq!(other_addresses.get_shard(key), first);
    }
}

#[test]
fn a_single_partition_owns_every_key() {
    let config = ShardConfig::new(vec!["127.0.0.1:8080".to_string()], 0);
    for key in ["foo", "bar", "hello", "world", ""] {
        assert_eq!(config.get_shard(key), 0);
        assert!(config.is_local_shard(key));
        assert_eq!(config.get_shard_address(key), "127.0.0.1:8080");
    }
}

#[test]
fn exactly_one_node_holds_a_key_to_be_local() {
    for key in ["foo", "bar", "baz", "hello", "world", "key1", "key2", "key3", "é"] {
        let mut owners = 0;
        for node in 0..3 {
            let config = three_nodes(node);
            if config.is_local_shard(key) {
                owners += 1;
                assert_eq!(config.get_shard(key), node);
            }
        }
        assert_eq!(owners, 1);
    }
}

#[test]
fn is_local_compares_owner_and_own_partition() {
    assert!(!three_nodes(0).is_local_shard("foo"));
    assert!(three_nodes(1).is_local_shard("foo"));
    assert!(!three_nodes(2).is_local_shard("foo"));
    assert!(three_nodes(2).is_local_shard("world"));
}

#[test]
fn is_local_is_false_for_a_partition_outside_the_topology() {
    let config = three_nodes(7);
    for key in ["foo", "hello", "world"] {
        assert!(!config.is_local_shard(key));
    }
}

#[test]
fn shard_address_is_the_address_of_the_owner() {
    let config = three_nodes(0);
    assert_eq!(config.get_shard_address("hello"), "127.0.0.1:8080");
    assert_eq!(config.get_shard_address("foo"), "127.0.0.1:8081");
    assert_eq!(config.get_shard_address("world"), "127.0.0.1:8082");
}

#[test]
fn address_of_looks_the_partition_up() {
    let config = three_nodes(0);
    assert_eq!(config.address_of(0), Ok("127.0.0.1:8080"));
    assert_eq!(config.address_of(2), Ok("127.0.0.1:8082"));
}

#[test]
fn address_of_refuses_a_partition_outside_the_topology() {
    let config = three_nodes(0);
    assert_eq!(config.address_of(3), Err(ErrorKind::InvalidPartition));
    assert_eq!(config.address_of(usize::MAX), Err(ErrorKind::InvalidPartition));
    let empty = ShardConfig::new(Vec::new(), 0);
    assert_eq!(empty.address_of(0), Err(ErrorKind::InvalidPartition));
}
