//! The catalog of networks that can be forked.

use vstd::prelude::*;
use vstd::string::*;
use crate::error::AnchorError;
use crate::text::{concat2, eq_ignore_ascii_case, fold};

verus! {

/// A network whose state a fork replays.
#[derive(Clone, Copy, Debug, PartialEq, Eq, Hash, Structural)]
pub enum Network {
    Mainnet,
    Sepolia,
    Base,
    Arbitrum,
    Optimism,
    Berachain,
}

impl Network {
    /// The network's name, in small letters.
    pub open spec fn spec_name(self) -> Seq<char> {
        match self {
            Network::Mainnet => "mainnet"@,
            Network::Sepolia => "sepolia"@,
            Network::Base => "base"@,
            Network::Arbitrum => "arbitrum"@,
            Network::Optimism => "optimism"@,
            Network::Berachain => "berachain"@,
        }
    }

    /// The network's chain identifier.
    pub open spec fn spec_chain_id(self) -> u64 {
        match self {
            Network::Mainnet => 1,
            Network::Sepolia => 11155111,
            Network::Base => 8453,
            Network::Arbitrum => 42161,
            Network::Optimism => 10,
            Network::Berachain => 80094,
        }
    }

    /// The network's upstream endpoint, up to the caller's access key.
    pub open spec fn spec_upstream_template(self) -> Seq<char> {
        match self {
            Network::Mainnet => "https://eth-mainnet.g.alchemy.com/v2/"@,
            Network::Sepolia => "https://eth-sepolia.g.alchemy.com/v2/"@,
            Network::Base => "https://base-mainnet.g.alchemy.com/v2/"@,
            Network::Arbitrum => "https://arb-mainnet.g.alchemy.com/v2/"@,
            Network::Optimism => "https://opt-mainnet.g.alchemy.com/v2/"@,
            Network::Berachain => "https://berachain-mainnet.g.alchemy.com/v2/"@,
        }
    }

    /// The network that a string names: the one whose name the string reads
    /// once its ASCII capitals are folded. Any other string names none.
    pub open spec fn spec_parse(s: Seq<char>) -> Result<Network, AnchorError> {
        let t = fold(s);
        if t == Network::Mainnet.spec_name() {
            Ok(Network::Mainnet)
        } else if t == Network::Sepolia.spec_name() {
            Ok(Network::Sepolia)
        } else if t == Network::Base.spec_name() {
            Ok(Network::Base)
        } else if t == Network::Arbitrum.spec_name() {
            Ok(Network::Arbitrum)
        } else if t == Network::Optimism.spec_name() {
            Ok(Network::Optimism)
        } else if t == Network::Berachain.spec_name() {
            Ok(Network::Berachain)
        } else {
            Err(AnchorError::UnknownNetwork)
        }
    }

    /// The network's name, in small letters.
    pub fn name(&self) -> (r: &'static str)
        ensures
            r@ == self.spec_name(),
    {
        match self {
            Network::Mainnet => "mainnet",
            Network::Sepolia => "sepolia",
            Network::Base => "base",
            Network::Arbitrum => "arbitrum",
            Network::Optimism => "optimism",
            Network::Berachain => "berachain",
        }
    }

    /// The network's chain identifier.
    pub fn chain_id(&self) -> (r: u64)
        ensures
            r == self.spec_chain_id(),
    {
        match self {
            Network::Mainnet => 1,
            Network::Sepolia => 11155111,
            Network::Base => 8453,
            Network::Arbitrum => 42161,
            Network::Optimism => 10,
            Network::Berachain => 80094,
        }
    }

    /// The network's upstream endpoint, up to the caller's access key.
    pub fn upstream_template(&self) -> (r: &'static str)
        ensures
            r@ == self.spec_upstream_template(),
    {
        match self {
            Network::Mainnet => "https://eth-mainnet.g.alchemy.com/v2/",
            Network::Sepolia => "https://eth-sepolia.g.alchemy.com/v2/",
            Network::Base => "https://base-mainnet.g.alchemy.com/v2/",
            Network::Arbitrum => "https://arb-mainnet.g.alchemy.com/v2/",
            Network::Optimism => "https://opt-mainnet.g.alchemy.com/v2/",
            Network::Berachain => "https://berachain-mainnet.g.alchemy.com/v2/",
        }
    }

    /// The upstream endpoint for a caller with the given access key.
    pub fn upstream_url(&self, key: &str) -> (r: String)
        ensures
            r@ == self.spec_upstream_template() + key@,
    {
        concat2(self.upstream_template(), key)
    }

    /// Every network, in catalog order.
    pub fn all() -> (r: Vec<Network>)
        ensures
            r@ == seq![
                Network::Mainnet,
                Network::Sepolia,
                Network::Base,
                Network::Arbitrum,
                Network::Optimism,
                Network::Berachain,
            ],
    {
        let mut v: Vec<Network> = Vec::new();
        v.push(Network::Mainnet);
        v.push(Network::Sepolia);
        v.push(Network::Base);
        v.push(Network::Arbitrum);
        v.push(Network::Optimism);
        v.push(Network::Berachain);
        assert(v@ =~= seq![
            Network::Mainnet,
            Network::Sepolia,
            Network::Base,
            Network::Arbitrum,
            Network::Optimism,
            Network::Berachain,
        ]);
        v
    }

    /// Parses a network name, whatever the case of its letters.
    pub fn parse(s: &str) -> (r: Result<Network, AnchorError>)
        ensures
            r == Network::spec_parse(s@),
    {
        proof {
            lemma_names();
        }
        if eq_ignore_ascii_case(s, "mainnet") {
            Ok(Network::Mainnet)
        } else if eq_ignore_ascii_case(s, "sepolia") {
            Ok(Network::Sepolia)
        } else if eq_ignore_ascii_case(s, "base") {
            Ok(Network::Base)
        } else if eq_ignore_ascii_case(s, "arbitrum") {
            Ok(Network::Arbitrum)
        } else if eq_ignore_ascii_case(s, "optimism") {
            Ok(Network::Optimism)
        } else if eq_ignore_ascii_case(s, "berachain") {
            Ok(Network::Berachain)
        } else {
            Err(AnchorError::UnknownNetwork)
        }
    }
}

impl std::str::FromStr for Network {
    type Err = AnchorError;

    /// Parses a network name, whatever the case of its letters: the same
    /// as `Network::parse`.
    fn from_str(s: &str) -> (r: Result<Network, AnchorError>)
        ensures
            r == Network::spec_parse(s@),
    {
        Network::parse(s)
    }
}

/// The names are written in small letters, and no two networks share one.
pub proof fn lemma_names()
    ensures
        forall|n: Network| fold(#[trigger] n.spec_name()) == n.spec_name(),
        forall|a: Network, b: Network| a.spec_name() == b.spec_name() ==> a == b,
{
    reveal_strlit("mainnet");
    reveal_strlit("sepolia");
    reveal_strlit("base");
    reveal_strlit("arbitrum");
    reveal_strlit("optimism");
    reveal_strlit("berachain");
    assert forall|n: Network| fold(#[trigger] n.spec_name()) == n.spec_name() by {
        assert(fold(n.spec_name()) =~= n.spec_name());
    }
    assert forall|a: Network, b: Network| a.spec_name() == b.spec_name() implies a == b by {
        assert(a.spec_name().len() == b.spec_name().len());
        assert(a.spec_name()[0] == b.spec_name()[0]);
    }
}

/// Parsing is total and blind to case: a string names the network `n`
/// exactly if it reads `n`'s name once its capitals are folded, so every
/// network's name parses in any mix of cases; and a string that reads no
/// network's name is rejected as an unknown network, a schema error.
pub proof fn lemma_parse_any_case(s: Seq<char>, n: Network)
    ensures
        Network::spec_parse(s) == Ok::<Network, AnchorError>(n) <==> fold(s) == n.spec_name(),
        Network::spec_parse(n.spec_name()) == Ok::<Network, AnchorError>(n),
        Network::spec_parse(s) is Err ==> Network::spec_parse(s) == Err::<Network, AnchorError>(
            AnchorError::UnknownNetwork,
        ) && forall|m: Network| fold(s) != m.spec_name(),
{
    lemma_names();
    assert(fold(n.spec_name()) == n.spec_name());
}

} // verus!
