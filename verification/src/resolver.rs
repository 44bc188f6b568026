//! Resolution of node identifiers to network addresses, with a cache.
//!
//! The lookup itself is a remote query and is made by the caller. The
//! resolver decides when a lookup is needed and what becomes of its outcome:
//! [`SimpleNodeResolver::get_node_address`] answers from the cache or asks
//! for a lookup, and [`SimpleNodeResolver::lookup_done`] takes the outcome.

use crate::error::RaftError;
use std::collections::HashMap;
use vstd::prelude::*;
use vstd::std_specs::hash::group_hash_axioms;
use vstd::std_specs::iter::IteratorSpec;

verus! {

broadcast use group_hash_axioms;

/// The character that ends the address in a looked-up value.
pub const SEPARATOR: char = '_';

/// The position of the first separator in `raw`, or the length of `raw` if it
/// holds none.
pub open spec fn separator_position(raw: Seq<char>) -> int
    decreases raw.len(),
{
    if raw.len() == 0 || raw.first() == SEPARATOR {
        0
    } else {
        1 + separator_position(raw.drop_first())
    }
}

/// The address in a looked-up value: what stands before the first separator.
pub open spec fn address_part(raw: Seq<char>) -> Seq<char> {
    raw.subrange(0, separator_position(raw))
}

/// The separator position lies within the value, no separator stands before
/// it, and one stands at it unless the value holds none.
pub proof fn lemma_separator_position(raw: Seq<char>)
    ensures
        0 <= separator_position(raw) <= raw.len(),
        forall|i: int| 0 <= i < separator_position(raw) ==> raw[i] != SEPARATOR,
        separator_position(raw) < raw.len() ==> raw[separator_position(raw)] == SEPARATOR,
    decreases raw.len(),
{
    if raw.len() == 0 || raw.first() == SEPARATOR {
    } else {
        let rest = raw.drop_first();
        lemma_separator_position(rest);
        assert forall|i: int| 0 <= i < separator_position(raw) implies raw[i] != SEPARATOR by {
            if i > 0 {
                assert(raw[i] == rest[i - 1]);
            }
        }
        if separator_position(raw) < raw.len() {
            assert(raw[separator_position(raw)] == rest[separator_position(rest)]);
        }
    }
}

/// A position with no separator before it, and with a separator or the end of
/// the value at it, is the separator position.
pub proof fn lemma_separator_position_unique(raw: Seq<char>, at: int)
    requires
        0 <= at <= raw.len(),
        forall|i: int| 0 <= i < at ==> raw[i] != SEPARATOR,
        at < raw.len() ==> raw[at] == SEPARATOR,
    ensures
        separator_position(raw) == at,
{
    lemma_separator_position(raw);
    let found = separator_position(raw);
    if found < at {
        assert(raw[found] != SEPARATOR);
    } else if at < found {
        assert(raw[at] != SEPARATOR);
    }
}

/// The address in the looked-up value `raw`.
pub fn address_of(raw: &str) -> (address: String)
    ensures
        address@ == address_part(raw@),
{
    let len = raw.unicode_len();
    let mut chars = raw.chars();
    let mut at: usize = 0;
    loop
        invariant_except_break
            chars.remaining() == raw@.skip(at as int),
        invariant
            len == raw@.len(),
            at <= len,
            forall|i: int| 0 <= i < at ==> raw@[i] != SEPARATOR,
        ensures
            at < len ==> raw@[at as int] == SEPARATOR,
        decreases len - at,
    {
        match chars.next() {
            Some(c) => {
                if c == SEPARATOR {
                    break;
                }
                assert(raw@.skip(at as int).drop_first() =~= raw@.skip(at + 1));
                at = at + 1;
            },
            None => {
                break;
            },
        }
    }
    proof {
        lemma_separator_position_unique(raw@, at as int);
    }
    raw.substring_char(0, at).to_owned()
}

/// What a caller has to do to learn the address of a node.
#[derive(Clone, Debug, PartialEq, Eq)]
pub enum ResolveStep {
    /// The address is known: nothing is looked up.
    Cached(String),
    /// The address is not known: the caller looks it up for this node and
    /// hands the outcome to [`SimpleNodeResolver::lookup_done`].
    Lookup(u64),
}

/// Resolves node identifiers to addresses, remembering every address it has
/// learnt. An entry is never changed or removed.
pub struct SimpleNodeResolver {
    cache: HashMap<u64, String>,
}

impl View for SimpleNodeResolver {
    type V = Map<u64, Seq<char>>;

    /// The addresses known, by node identifier.
    closed spec fn view(&self) -> Map<u64, Seq<char>> {
        Map::new(|node_id: u64| self.cache@.contains_key(node_id), |node_id: u64| self.cache@[node_id]@)
    }
}

/// What `lookup_done` leaves in the cache `known` for `node_id`, where the
/// lookup gave `looked_up` (`None` for a failed lookup): an address already
/// known stays; otherwise the address in a successful lookup is added.
pub open spec fn cache_after(
    known: Map<u64, Seq<char>>,
    node_id: u64,
    looked_up: Option<Seq<char>>,
) -> Map<u64, Seq<char>> {
    match looked_up {
        Some(raw) if !known.contains_key(node_id) => known.insert(node_id, address_part(raw)),
        _ => known,
    }
}

/// The address that `lookup_done` returns for `node_id`, or `None` where it
/// returns an error: an address already known wins over the lookup.
pub open spec fn address_after(
    known: Map<u64, Seq<char>>,
    node_id: u64,
    looked_up: Option<Seq<char>>,
) -> Option<Seq<char>> {
    if known.contains_key(node_id) {
        Some(known[node_id])
    } else {
        match looked_up {
            Some(raw) => Some(address_part(raw)),
            None => None,
        }
    }
}

/// The characters of a lookup's value, or `None` for a failed lookup.
pub open spec fn looked_up_value<E>(outcome: Result<String, E>) -> Option<Seq<char>> {
    match outcome {
        Ok(raw) => Some(raw@),
        Err(_) => None,
    }
}

/// After a successful lookup the node's address is known, and it is the
/// address that was returned for it: a later request for the node is answered
/// from the cache, with that address.
pub proof fn lemma_lookup_is_remembered(known: Map<u64, Seq<char>>, node_id: u64, raw: Seq<char>)
    ensures
        cache_after(known, node_id, Some(raw)).contains_key(node_id),
        address_after(known, node_id, Some(raw)) == Some(
            cache_after(known, node_id, Some(raw))[node_id],
        ),
{
}

/// A failed lookup leaves the cache as it was: a node whose address was not
/// known is looked up again on the next request.
pub proof fn lemma_failed_lookup_is_forgotten(known: Map<u64, Seq<char>>, node_id: u64)
    ensures
        cache_after(known, node_id, None) == known,
        !known.contains_key(node_id) ==> address_after(known, node_id, None) is None,
{
}

/// An address that is known stays known and unchanged, whatever is looked up
/// and for whichever node.
pub proof fn lemma_known_address_stays(
    known: Map<u64, Seq<char>>,
    node_id: u64,
    looked_up: Option<Seq<char>>,
    other: u64,
)
    requires
        known.contains_key(other),
    ensures
        cache_after(known, node_id, looked_up).contains_key(other),
        cache_after(known, node_id, looked_up)[other] == known[other],
{
}

/// A cached address holds no separator.
pub proof fn lemma_address_holds_no_separator(raw: Seq<char>)
    ensures
        !address_part(raw).contains(SEPARATOR),
{
    lemma_separator_position(raw);
}

impl SimpleNodeResolver {
    /// A resolver that knows no address yet.
    pub fn new() -> (resolver: Self)
        ensures
            resolver@ == Map::<u64, Seq<char>>::empty(),
    {
        let resolver = SimpleNodeResolver { cache: HashMap::new() };
        assert(resolver@ =~= Map::<u64, Seq<char>>::empty());
        resolver
    }

    /// The cached address of `node_id`, or the request to look it up.
    pub fn get_node_address(&self, node_id: u64) -> (step: ResolveStep)
        ensures
            match step {
                ResolveStep::Cached(address) => self@.contains_key(node_id) && address@
                    == self@[node_id],
                ResolveStep::Lookup(asked) => !self@.contains_key(node_id) && asked == node_id,
            },
    {
        match self.cache.get(&node_id) {
            Some(address) => ResolveStep::Cached(address.clone()),
            None => ResolveStep::Lookup(node_id),
        }
    }

    /// Takes the outcome of the lookup for `node_id`.
    ///
    /// A successful lookup's address is cached and returned, unless an
    /// address for the node is known already, which then stays and is
    /// returned. A failed lookup leaves the cache as it was and gives a
    /// resolution error, unless the address is known already.
    pub fn lookup_done<E>(&mut self, node_id: u64, outcome: Result<String, E>) -> (result: Result<
        String,
        RaftError,
    >)
        ensures
            final(self)@ == cache_after(old(self)@, node_id, looked_up_value(outcome)),
            match result {
                Ok(address) => address_after(old(self)@, node_id, looked_up_value(outcome))
                    == Some(address@),
                Err(error) => address_after(old(self)@, node_id, looked_up_value(outcome))
                    is None && error == (RaftError::Resolution { node_id }),
            },
    {
        if let Some(address) = self.cache.get(&node_id) {
            return Ok(address.clone());
        }
        match outcome {
            Ok(raw) => {
                let address = address_of(raw.as_str());
                let cached = address.clone();
                self.cache.insert(node_id, cached);
                assert(self@ =~= old(self)@.insert(node_id, address_part(raw@)));
                Ok(address)
            },
            Err(_) => Err(RaftError::Resolution { node_id }),
        }
    }
}

} // verus!
