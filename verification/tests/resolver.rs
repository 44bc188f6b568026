use raft_bridge::error::RaftError;
use raft_bridge::resolver::{address_of, ResolveStep, SimpleNodeResolver};

#[test]
fn first_resolve_looks_up_once_and_second_is_answered_from_the_cache() {
    let mut resolver = SimpleNodeResolver::new();
    let mut lookups = 0;

    let first = match resolver.get_node_address(42) {
        ResolveStep::Cached(address) => address,
        ResolveStep::Lookup(node_id) => {
            assert_eq!(node_id, 42);
            lookups += 1;
            resolver
                .lookup_done::<String>(node_id, Ok("10.0.0.5_suffix".to_string()))
                .unwrap()
        }
    };
    assert_eq!(lookups, 1);
    assert_eq!(first, "10.0.0.5");

    let second = match resolver.get_node_address(42) {
        ResolveStep::Cached(address) => address,
        ResolveStep::Lookup(_) => {
            lookups += 1;
            String::new()
        }
    };
    assert_eq!(lookups, 1);
    assert_eq!(second, first);
}

#[test]
fn failed_lookup_is_not_cached_and_the_next_resolve_looks_up_again() {
    let mut resolver = SimpleNodeResolver::new();
    assert_eq!(resolver.get_node_address(42), ResolveStep::Lookup(42));
    let failed = resolver.lookup_done(42, Err("unreachable"));
    assert_eq!(failed, Err(RaftError::Resolution { node_id: 42 }));
    assert_eq!(resolver.get_node_address(42), ResolveStep::Lookup(42));

    let retried = resolver.lookup_done::<&str>(42, Ok("10.0.0.5_suffix".to_string()));
    assert_eq!(retried, Ok("10.0.0.5".to_string()));
    assert_eq!(
        resolver.get_node_address(42),
        ResolveStep::Cached("10.0.0.5".to_string())
    );
}

#[test]
fn new_resolver_knows_no_address() {
    let resolver = SimpleNodeResolver::new();
    assert_eq!(resolver.get_node_address(0), ResolveStep::Lookup(0));
    assert_eq!(resolver.get_node_address(u64::MAX), ResolveStep::Lookup(u64::MAX));
}

#[test]
fn addresses_are_kept_by_node() {
    let mut resolver = SimpleNodeResolver::new();
    resolver.lookup_done::<()>(1, Ok("host-a:1_x".to_string())).unwrap();
    resolver.lookup_done::<()>(2, Ok("host-b:2_y".to_string())).unwrap();
    assert_eq!(resolver.get_node_address(1), ResolveStep::Cached("host-a:1".to_string()));
    assert_eq!(resolver.get_node_address(2), ResolveStep::Cached("host-b:2".to_string()));
    assert_eq!(resolver.get_node_address(3), ResolveStep::Lookup(3));
}

#[test]
fn known_address_wins_over_a_later_lookup() {
    let mut resolver = SimpleNodeResolver::new();
    resolver.lookup_done::<()>(7, Ok("first_a".to_string())).unwrap();
    let again = resolver.lookup_done::<()>(7, Ok("second_b".to_string()));
    assert_eq!(again, Ok("first".to_string()));
    assert_eq!(resolver.get_node_address(7), ResolveStep::Cached("first".to_string()));
}

#[test]
fn known_address_wins_over_a_later_failure() {
    let mut resolver = SimpleNodeResolver::new();
    resolver.lookup_done::<()>(7, Ok("first_a".to_string())).unwrap();
    assert_eq!(resolver.lookup_done(7, Err(())), Ok("first".to_string()));
    assert_eq!(resolver.get_node_address(7), ResolveStep::Cached("first".to_string()));
}

#[test]
fn failure_for_one_node_leaves_the_others() {
    let mut resolver = SimpleNodeResolver::new();
    resolver.lookup_done::<()>(1, Ok("host-a_x".to_string())).unwrap();
    assert_eq!(
        resolver.lookup_done(2, Err(())),
        Err(RaftError::Resolution { node_id: 2 })
    );
    assert_eq!(resolver.get_node_address(1), ResolveStep::Cached("host-a".to_string()));
    assert_eq!(resolver.get_node_address(2), ResolveStep::Lookup(2));
}

#[test]
fn address_is_what_stands_before_the_first_separator() {
    assert_eq!(address_of("10.0.0.5_suffix"), "10.0.0.5");
    assert_eq!(address_of("a_b_c"), "a");
    assert_eq!(address_of("host:8080_1_2"), "host:8080");
}

#[test]
fn address_without_separator_is_the_whole_value() {
    assert_eq!(address_of("10.0.0.5"), "10.0.0.5");
    assert_eq!(address_of("x"), "x");
}

#[test]
fn address_of_empty_and_leading_separator_is_empty() {
    assert_eq!(address_of(""), "");
    assert_eq!(address_of("_"), "");
    assert_eq!(address_of("_suffix"), "");
    assert_eq!(address_of("__"), "");
}

#[test]
fn address_ending_in_separator_drops_it() {
    assert_eq!(address_of("10.0.0.5_"), "10.0.0.5");
}

#[test]
fn address_with_characters_of_several_bytes() {
    assert_eq!(address_of("héllo_wörld"), "héllo");
    assert_eq!(address_of("節点_1"), "節点");
    assert_eq!(address_of("節点"), "節点");
}
