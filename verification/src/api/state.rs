use crate::chains::{all_chains, chain_index, chain_named, Chain, CHAIN_COUNT};
use vstd::prelude::*;

verus! {

/// Why the API refuses a request that names a chain.
#[derive(Debug, Clone, Copy, PartialEq, Eq, Structural)]
pub enum RouteError {
    /// No chain has that name (HTTP 400).
    BadRequest,
    /// The chain has no configured client (HTTP 404).
    NotFound,
}

/// How the API answers a request naming `name` when `clients` are configured.
pub open spec fn route_outcome<C>(clients: Map<Chain, C>, name: Seq<char>) -> Result<C, RouteError> {
    match chain_named(name) {
        None => Err(RouteError::BadRequest),
        Some(c) => if clients.contains_key(c) {
            Ok(clients[c])
        } else {
            Err(RouteError::NotFound)
        },
    }
}

/// The chains among the first `k` of `Chain::all()` that have a client, in
/// that order.
pub open spec fn configured_prefix<C>(clients: Map<Chain, C>, k: nat) -> Seq<Chain>
    decreases k,
{
    if k == 0 {
        Seq::empty()
    } else {
        let rest = configured_prefix(clients, (k - 1) as nat);
        if clients.contains_key(all_chains()[k - 1]) {
            rest.push(all_chains()[k - 1])
        } else {
            rest
        }
    }
}

/// The chains that have a client, in the order of `Chain::all()`.
pub open spec fn configured<C>(clients: Map<Chain, C>) -> Seq<Chain> {
    configured_prefix(clients, CHAIN_COUNT as nat)
}

/// The state that the API's handlers share: at most one client per chain.
#[derive(Clone)]
pub struct AppState<C> {
    bitcoin: Option<C>,
    ethereum: Option<C>,
    cardano: Option<C>,
    solana: Option<C>,
    polkadot: Option<C>,
}

impl<C> AppState<C> {
    /// The slot of `chain`.
    closed spec fn slot(&self, chain: Chain) -> Option<C> {
        match chain {
            Chain::Bitcoin => self.bitcoin,
            Chain::Ethereum => self.ethereum,
            Chain::Cardano => self.cardano,
            Chain::Solana => self.solana,
            Chain::Polkadot => self.polkadot,
        }
    }

    /// The client of each configured chain.
    pub closed spec fn clients(&self) -> Map<Chain, C> {
        Map::new(|c: Chain| self.slot(c) is Some, |c: Chain| self.slot(c)->Some_0)
    }

    /// A state with no client.
    pub fn new() -> (s: AppState<C>)
        ensures
            s.clients() == Map::<Chain, C>::empty(),
    {
        let s = AppState { bitcoin: None, ethereum: None, cardano: None, solana: None, polkadot: None };
        assert(s.clients() =~= Map::<Chain, C>::empty());
        s
    }

    /// Serves `chain` with `client`, in place of any earlier client, which
    /// is returned.
    pub fn insert(&mut self, chain: Chain, client: C) -> (previous: Option<C>)
        ensures
            final(self).clients() == old(self).clients().insert(chain, client),
            previous == (if old(self).clients().contains_key(chain) {
                Some(old(self).clients()[chain])
            } else {
                None
            }),
    {
        let mut previous = Some(client);
        match chain {
            Chain::Bitcoin => std::mem::swap(&mut self.bitcoin, &mut previous),
            Chain::Ethereum => std::mem::swap(&mut self.ethereum, &mut previous),
            Chain::Cardano => std::mem::swap(&mut self.cardano, &mut previous),
            Chain::Solana => std::mem::swap(&mut self.solana, &mut previous),
            Chain::Polkadot => std::mem::swap(&mut self.polkadot, &mut previous),
        }
        assert(self.clients() =~= old(self).clients().insert(chain, client));
        previous
    }

    /// The client of `chain`, if it has one.
    pub fn get(&self, chain: Chain) -> (r: Option<&C>)
        ensures
            match r {
                Some(c) => self.clients().contains_key(chain) && *c == self.clients()[chain],
                None => !self.clients().contains_key(chain),
            },
    {
        let slot = match chain {
            Chain::Bitcoin => &self.bitcoin,
            Chain::Ethereum => &self.ethereum,
            Chain::Cardano => &self.cardano,
            Chain::Solana => &self.solana,
            Chain::Polkadot => &self.polkadot,
        };
        match slot {
            Some(c) => Some(c),
            None => None,
        }
    }

    /// The chains that have a client, in the order of `Chain::all()`.
    pub fn chains(&self) -> (v: Vec<Chain>)
        ensures
            v@ == configured(self.clients()),
    {
        let all = Chain::all();
        let mut v: Vec<Chain> = Vec::new();
        let mut i: usize = 0;
        while i < CHAIN_COUNT
            invariant
                all@ == all_chains(),
                i <= CHAIN_COUNT,
                v@ == configured_prefix(self.clients(), i as nat),
            decreases CHAIN_COUNT - i,
        {
            let c = all[i];
            assert(chain_index(c) == i as int);
            if self.get(c).is_some() {
                v.push(c);
            }
            i = i + 1;
        }
        v
    }

    /// The number of chains with a client.
    pub fn len(&self) -> (n: usize)
        ensures
            n == configured(self.clients()).len(),
    {
        self.chains().len()
    }

    /// Whether no chain has a client.
    pub fn is_empty(&self) -> (b: bool)
        ensures
            b == (configured(self.clients()).len() == 0),
    {
        self.len() == 0
    }

    /// The client that serves a request naming `chain_name`: `BadRequest`
    /// where no chain has that name, `NotFound` where the chain has no client.
    pub fn resolve(&self, chain_name: &str) -> (r: Result<&C, RouteError>)
        ensures
            match route_outcome(self.clients(), chain_name@) {
                Ok(c) => r matches Ok(x) && *x == c,
                Err(e) => r == Err::<&C, RouteError>(e),
            },
    {
        match Chain::parse(chain_name) {
            Err(_) => Err(RouteError::BadRequest),
            Ok(chain) => match self.get(chain) {
                Some(c) => Ok(c),
                None => Err(RouteError::NotFound),
            },
        }
    }
}

/// A chain is listed among the configured chains exactly when it has a client.
pub proof fn lemma_configured_lists_clients<C>(clients: Map<Chain, C>, c: Chain)
    ensures
        configured(clients).contains(c) <==> clients.contains_key(c),
{
    lemma_configured_prefix(clients, CHAIN_COUNT as nat, c);
}

proof fn lemma_configured_prefix<C>(clients: Map<Chain, C>, k: nat, c: Chain)
    requires
        k <= CHAIN_COUNT,
    ensures
        configured_prefix(clients, k).contains(c) <==> (clients.contains_key(c) && chain_index(c) < k),
    decreases k,
{
    if k > 0 {
        lemma_configured_prefix(clients, (k - 1) as nat, c);
        let rest = configured_prefix(clients, (k - 1) as nat);
        let last = all_chains()[k - 1];
        if clients.contains_key(last) {
            assert(rest.push(last).contains(c) <==> (rest.contains(c) || c == last)) by {
                if rest.push(last).contains(c) {
                    let j = choose|j: int| 0 <= j < rest.push(last).len() && rest.push(last)[j] == c;
                    if j < rest.len() {
                        assert(rest.contains(c));
                    }
                }
                if rest.contains(c) {
                    let j = choose|j: int| 0 <= j < rest.len() && rest[j] == c;
                    assert(rest.push(last)[j] == c);
                }
                if c == last {
                    assert(rest.push(last)[rest.len() as int] == c);
                }
            }
        }
    }
}

/// A request naming a chain that has just been given a client is served by
/// that client.
pub proof fn lemma_configured_chain_resolves<C>(clients: Map<Chain, C>, c: Chain, client: C)
    ensures
        route_outcome(clients.insert(c, client), crate::chains::chain_name(c)) == Ok::<C, RouteError>(client),
{
    crate::chains::lemma_parse_name_roundtrip(c);
}

/// A request naming no chain is refused as bad, whatever is configured; a
/// request naming a chain without a client is answered "not found".
pub proof fn lemma_refused_requests<C>(clients: Map<Chain, C>, name: Seq<char>)
    ensures
        chain_named(name) is None ==> route_outcome(clients, name) == Err::<C, RouteError>(RouteError::BadRequest),
        chain_named(name) matches Some(c) && !clients.contains_key(c) ==> route_outcome(clients, name) == Err::<
            C,
            RouteError,
        >(RouteError::NotFound),
{
}

} // verus!
