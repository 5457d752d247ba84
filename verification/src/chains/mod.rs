pub mod bitcoin;
pub mod cardano;
pub mod ethereum;
pub mod json;
pub mod polkadot;
pub mod solana;
pub mod types;

pub use types::{Block, ChainMetrics, Ratio, Transaction};

use crate::error::{chain_message, Error};
use crate::text::str_equals;
use vstd::prelude::*;

verus! {

/// A monitored blockchain.
#[derive(Debug, Clone, Copy, PartialEq, Eq, Hash, Structural)]
pub enum Chain {
    Bitcoin,
    Ethereum,
    Cardano,
    Solana,
    Polkadot,
}

/// The chains, in the order in which the monitor lists them.
pub open spec fn all_chains() -> Seq<Chain> {
    seq![Chain::Bitcoin, Chain::Ethereum, Chain::Cardano, Chain::Solana, Chain::Polkadot]
}

/// The number of monitored chains.
pub const CHAIN_COUNT: usize = 5;

/// The lower-case name of a chain, as it appears in URLs.
pub open spec fn chain_name(c: Chain) -> Seq<char> {
    match c {
        Chain::Bitcoin => "bitcoin"@,
        Chain::Ethereum => "ethereum"@,
        Chain::Cardano => "cardano"@,
        Chain::Solana => "solana"@,
        Chain::Polkadot => "polkadot"@,
    }
}

/// The place of a chain in `all_chains()`.
pub open spec fn chain_index(c: Chain) -> int {
    match c {
        Chain::Bitcoin => 0,
        Chain::Ethereum => 1,
        Chain::Cardano => 2,
        Chain::Solana => 3,
        Chain::Polkadot => 4,
    }
}

/// The chain whose name is `s`, if any.
pub open spec fn chain_named(s: Seq<char>) -> Option<Chain> {
    if s == "bitcoin"@ {
        Some(Chain::Bitcoin)
    } else if s == "ethereum"@ {
        Some(Chain::Ethereum)
    } else if s == "cardano"@ {
        Some(Chain::Cardano)
    } else if s == "solana"@ {
        Some(Chain::Solana)
    } else if s == "polkadot"@ {
        Some(Chain::Polkadot)
    } else {
        None
    }
}

impl Chain {
    /// The chain's lower-case name.
    pub fn name(&self) -> (r: &'static str)
        ensures
            r@ == chain_name(*self),
    {
        match self {
            Chain::Bitcoin => "bitcoin",
            Chain::Ethereum => "ethereum",
            Chain::Cardano => "cardano",
            Chain::Solana => "solana",
            Chain::Polkadot => "polkadot",
        }
    }

    /// Every chain, each once.
    pub fn all() -> (v: Vec<Chain>)
        ensures
            v@ == all_chains(),
    {
        let v = vec![Chain::Bitcoin, Chain::Ethereum, Chain::Cardano, Chain::Solana, Chain::Polkadot];
        assert(v@ =~= all_chains());
        v
    }

    /// The chain's place in `Chain::all()`.
    pub fn index(&self) -> (i: usize)
        ensures
            i == chain_index(*self),
            i < CHAIN_COUNT,
            all_chains()[i as int] == *self,
    {
        match self {
            Chain::Bitcoin => 0,
            Chain::Ethereum => 1,
            Chain::Cardano => 2,
            Chain::Solana => 3,
            Chain::Polkadot => 4,
        }
    }

    /// The chain named `s`; an error naming `s` when no chain has that name.
    pub fn parse(s: &str) -> (r: Result<Chain, Error>)
        ensures
            match chain_named(s@) {
                Some(c) => r == Ok::<Chain, Error>(c),
                None => r is Err && chain_message(r->Err_0) == Some("Invalid chain: "@ + s@),
            },
    {
        if str_equals(s, "bitcoin") {
            Ok(Chain::Bitcoin)
        } else if str_equals(s, "ethereum") {
            Ok(Chain::Ethereum)
        } else if str_equals(s, "cardano") {
            Ok(Chain::Cardano)
        } else if str_equals(s, "solana") {
            Ok(Chain::Solana)
        } else if str_equals(s, "polkadot") {
            Ok(Chain::Polkadot)
        } else {
            let mut m = String::from_str("Invalid chain: ");
            m.append(s);
            Err(Error::Chain(m))
        }
    }
}

impl core::str::FromStr for Chain {
    type Err = Error;

    fn from_str(s: &str) -> (r: core::result::Result<Chain, Error>)
        ensures
            match chain_named(s@) {
                Some(c) => r == Ok::<Chain, Error>(c),
                None => r is Err && chain_message(r->Err_0) == Some("Invalid chain: "@ + s@),
            },
    {
        Chain::parse(s)
    }
}

/// The first letters and lengths of the chain names, which tell them apart.
proof fn lemma_name_shapes()
    ensures
        "bitcoin"@.len() == 7 && "bitcoin"@[0] == 'b',
        "ethereum"@.len() == 8 && "ethereum"@[0] == 'e',
        "cardano"@.len() == 7 && "cardano"@[0] == 'c',
        "solana"@.len() == 6 && "solana"@[0] == 's',
        "polkadot"@.len() == 8 && "polkadot"@[0] == 'p',
{
    reveal_strlit("bitcoin");
    reveal_strlit("ethereum");
    reveal_strlit("cardano");
    reveal_strlit("solana");
    reveal_strlit("polkadot");
}

/// Parsing a chain's name gives back that chain: `Chain::parse(c.name())`
/// is `Ok(c)` for every chain `c`.
pub proof fn lemma_parse_name_roundtrip(c: Chain)
    ensures
        chain_named(chain_name(c)) == Some(c),
{
    lemma_name_shapes();
}

/// Only names parse: when `Chain::parse(s)` succeeds with `c`, `s` is `c`'s name.
pub proof fn lemma_parsed_text_is_name(s: Seq<char>)
    ensures
        chain_named(s) matches Some(c) ==> s == chain_name(c),
{
}

/// No two chains share a name.
pub proof fn lemma_names_distinct(a: Chain, b: Chain)
    ensures
        chain_name(a) == chain_name(b) ==> a == b,
{
    lemma_parse_name_roundtrip(a);
    lemma_parse_name_roundtrip(b);
}

/// `Chain::all()` lists every chain exactly once, each at its `index()`.
pub proof fn lemma_all_lists_each_once(c: Chain)
    ensures
        all_chains().len() == CHAIN_COUNT,
        all_chains()[chain_index(c)] == c,
        0 <= chain_index(c) < CHAIN_COUNT,
        forall|i: int| 0 <= i < all_chains().len() && all_chains()[i] == c ==> i == chain_index(c),
{
}

} // verus!
