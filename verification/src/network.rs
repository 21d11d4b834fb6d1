//! Network configuration management.
//!
//! Manages RPC endpoints, archive URLs, network passphrases for
//! mainnet/testnet/futurenet/standalone networks.
use vstd::prelude::*;
use vstd::string::*;
use crate::text::{chars_of, str_eq};

verus! {

/// The default per-request timeout, in seconds.
pub const DEFAULT_REQUEST_TIMEOUT_SECS: u64 = 30;

/// A Stellar network.
#[derive(Debug, Clone, Copy, PartialEq, Eq)]
pub enum Network {
    Mainnet,
    Testnet,
    Futurenet,
    Local,
    Custom,
}

/// Connection settings for one network.
#[derive(Debug)]
pub struct NetworkConfig {
    /// Which network this is.
    pub network: Network,
    /// Soroban RPC endpoint.
    pub rpc_url: String,
    /// Network passphrase used when signing.
    pub network_passphrase: String,
    /// History archive URLs.
    pub archive_urls: Vec<String>,
    /// Per-request timeout, in seconds.
    pub request_timeout_secs: u64,
    /// Whether to bypass the local cache.
    pub no_cache: bool,
}

/// The mathematical content of a [`NetworkConfig`].
pub struct NetworkConfigView {
    pub network: Network,
    pub rpc_url: Seq<char>,
    pub network_passphrase: Seq<char>,
    pub archive_urls: Seq<Seq<char>>,
    pub request_timeout_secs: u64,
    pub no_cache: bool,
}

impl View for NetworkConfig {
    type V = NetworkConfigView;

    open spec fn view(&self) -> NetworkConfigView {
        NetworkConfigView {
            network: self.network,
            rpc_url: self.rpc_url@,
            network_passphrase: self.network_passphrase@,
            archive_urls: self.archive_urls@.map_values(|u: String| u@),
            request_timeout_secs: self.request_timeout_secs,
            no_cache: self.no_cache,
        }
    }
}

pub open spec fn config_view(
    network: Network,
    rpc_url: Seq<char>,
    network_passphrase: Seq<char>,
    archive_urls: Seq<Seq<char>>,
) -> NetworkConfigView {
    NetworkConfigView {
        network,
        rpc_url,
        network_passphrase,
        archive_urls,
        request_timeout_secs: DEFAULT_REQUEST_TIMEOUT_SECS,
        no_cache: false,
    }
}

pub open spec fn testnet_view() -> NetworkConfigView {
    config_view(
        Network::Testnet,
        "https://soroban-testnet.stellar.org"@,
        "Test SDF Network ; September 2015"@,
        seq!["https://history.stellar.org/prd/core-testnet/core_testnet_001"@],
    )
}

pub open spec fn mainnet_view() -> NetworkConfigView {
    config_view(
        Network::Mainnet,
        "https://mainnet.sorobanrpc.com"@,
        "Public Global Stellar Network ; September 2015"@,
        seq!["https://history.stellar.org/prd/core-live/core_live_001"@],
    )
}

pub open spec fn futurenet_view() -> NetworkConfigView {
    config_view(
        Network::Futurenet,
        "https://rpc-futurenet.stellar.org"@,
        "Test SDF Future Network ; October 2022"@,
        seq!["https://history-futurenet.stellar.org"@],
    )
}

pub open spec fn local_view() -> NetworkConfigView {
    config_view(
        Network::Local,
        "http://localhost:8000/soroban/rpc"@,
        "Standalone Network ; February 2017"@,
        Seq::empty(),
    )
}

pub open spec fn custom_view(rpc_url: Seq<char>, network_passphrase: Seq<char>) -> NetworkConfigView {
    config_view(Network::Custom, rpc_url, network_passphrase, Seq::empty())
}

fn one_url(url: &str) -> (v: Vec<String>)
    ensures
        v@.map_values(|u: String| u@) == seq![url@],
{
    let v = vec![String::from_str(url)];
    proof {
        assert(v@.map_values(|u: String| u@) =~= seq![url@]);
    }
    v
}

fn no_urls() -> (v: Vec<String>)
    ensures
        v@.map_values(|u: String| u@) == Seq::<Seq<char>>::empty(),
{
    let v: Vec<String> = Vec::new();
    proof {
        assert(v@.map_values(|u: String| u@) =~= Seq::<Seq<char>>::empty());
    }
    v
}

impl NetworkConfig {
    /// The public test network.
    pub fn testnet() -> (c: Self)
        ensures
            c@ == testnet_view(),
    {
        NetworkConfig {
            network: Network::Testnet,
            rpc_url: String::from_str("https://soroban-testnet.stellar.org"),
            network_passphrase: String::from_str("Test SDF Network ; September 2015"),
            archive_urls: one_url("https://history.stellar.org/prd/core-testnet/core_testnet_001"),
            request_timeout_secs: DEFAULT_REQUEST_TIMEOUT_SECS,
            no_cache: false,
        }
    }

    /// The public main network.
    pub fn mainnet() -> (c: Self)
        ensures
            c@ == mainnet_view(),
    {
        NetworkConfig {
            network: Network::Mainnet,
            rpc_url: String::from_str("https://mainnet.sorobanrpc.com"),
            network_passphrase: String::from_str("Public Global Stellar Network ; September 2015"),
            archive_urls: one_url("https://history.stellar.org/prd/core-live/core_live_001"),
            request_timeout_secs: DEFAULT_REQUEST_TIMEOUT_SECS,
            no_cache: false,
        }
    }

    /// The future-protocol test network.
    pub fn futurenet() -> (c: Self)
        ensures
            c@ == futurenet_view(),
    {
        NetworkConfig {
            network: Network::Futurenet,
            rpc_url: String::from_str("https://rpc-futurenet.stellar.org"),
            network_passphrase: String::from_str("Test SDF Future Network ; October 2022"),
            archive_urls: one_url("https://history-futurenet.stellar.org"),
            request_timeout_secs: DEFAULT_REQUEST_TIMEOUT_SECS,
            no_cache: false,
        }
    }

    /// A local standalone network.
    pub fn local() -> (c: Self)
        ensures
            c@ == local_view(),
    {
        NetworkConfig {
            network: Network::Local,
            rpc_url: String::from_str("http://localhost:8000/soroban/rpc"),
            network_passphrase: String::from_str("Standalone Network ; February 2017"),
            archive_urls: no_urls(),
            request_timeout_secs: DEFAULT_REQUEST_TIMEOUT_SECS,
            no_cache: false,
        }
    }

    /// A network reached at a custom RPC URL.
    pub fn custom(rpc_url: &str, network_passphrase: &str) -> (c: Self)
        ensures
            c@ == custom_view(rpc_url@, network_passphrase@),
    {
        NetworkConfig {
            network: Network::Custom,
            rpc_url: String::from_str(rpc_url),
            network_passphrase: String::from_str(network_passphrase),
            archive_urls: no_urls(),
            request_timeout_secs: DEFAULT_REQUEST_TIMEOUT_SECS,
            no_cache: false,
        }
    }

    /// A copy of this configuration.
    pub fn duplicate(&self) -> (c: Self)
        ensures
            c@ == self@,
    {
        let mut urls: Vec<String> = Vec::new();
        let mut k: usize = 0;
        while k < self.archive_urls.len()
            invariant
                k <= self.archive_urls.len(),
                urls@.len() == k,
                forall|i: int| 0 <= i < k ==> (#[trigger] urls@[i])@ == self.archive_urls@[i]@,
            decreases self.archive_urls.len() - k,
        {
            let u = self.archive_urls[k].clone();
            urls.push(u);
            k = k + 1;
        }
        proof {
            assert(urls@.map_values(|u: String| u@) =~= self.archive_urls@.map_values(
                |u: String| u@,
            ));
        }
        NetworkConfig {
            network: self.network,
            rpc_url: self.rpc_url.clone(),
            network_passphrase: self.network_passphrase.clone(),
            archive_urls: urls,
            request_timeout_secs: self.request_timeout_secs,
            no_cache: self.no_cache,
        }
    }
}

/// The lower-case form of a string under the Unicode case mapping
/// (`str::to_lowercase`).
pub uninterp spec fn lowercase(s: Seq<char>) -> Seq<char>;

/// ASCII lower case of a character.
pub open spec fn ascii_lower(c: char) -> char {
    if 'A' <= c <= 'Z' {
        (((c as u32) + 32) as u8) as char
    } else {
        c
    }
}

pub open spec fn is_ascii_text(s: Seq<char>) -> bool {
    forall|k: int| 0 <= k < s.len() ==> (#[trigger] s[k] as u32) < 128
}

/// `str::to_lowercase`: the Unicode lower-case mapping of each character; on
/// ASCII text this is ASCII lower-casing, character by character.
#[verifier::external_body]
fn to_lowercase(s: &str) -> (r: String)
    ensures
        r@ == lowercase(s@),
        is_ascii_text(s@) ==> r@ == s@.map_values(|c: char| ascii_lower(c)),
{
    s.to_lowercase()
}

pub open spec fn starts_with_spec(s: Seq<char>, prefix: Seq<char>) -> bool {
    prefix.len() <= s.len() && s.subrange(0, prefix.len() as int) == prefix
}

/// Whether `s` starts with `prefix`.
pub fn starts_with(s: &str, prefix: &str) -> (b: bool)
    ensures
        b == starts_with_spec(s@, prefix@),
{
    let x = chars_of(s);
    let p = chars_of(prefix);
    if p.len() > x.len() {
        return false;
    }
    let mut k: usize = 0;
    while k < p.len()
        invariant
            p.len() <= x.len(),
            x@ == s@,
            p@ == prefix@,
            k <= p.len(),
            forall|m: int| 0 <= m < k ==> x@[m] == p@[m],
        decreases p.len() - k,
    {
        if x[k] != p[k] {
            proof {
                assert(s@.subrange(0, prefix@.len() as int)[k as int] != prefix@[k as int]);
            }
            return false;
        }
        k = k + 1;
    }
    proof {
        assert(s@.subrange(0, prefix@.len() as int) =~= prefix@);
    }
    true
}

/// The configuration a network name selects, after lower-casing: the three
/// public networks by name or alias, a custom network for a URL, and the
/// test network for anything else.
pub open spec fn resolve_spec(lower: Seq<char>) -> NetworkConfigView {
    if lower == "mainnet"@ || lower == "main"@ || lower == "pubnet"@ {
        mainnet_view()
    } else if lower == "testnet"@ || lower == "test"@ {
        testnet_view()
    } else if lower == "futurenet"@ || lower == "future"@ {
        futurenet_view()
    } else if starts_with_spec(lower, "http"@) {
        custom_view(lower, Seq::empty())
    } else {
        testnet_view()
    }
}

/// Resolve a network name string to a `NetworkConfig`.
///
/// Accepts: "mainnet", "testnet", "futurenet", or a custom RPC URL.
pub fn resolve_network(network_str: &str) -> (c: NetworkConfig)
    ensures
        c@ == resolve_spec(lowercase(network_str@)),
        is_ascii_text(network_str@) ==> c@ == resolve_spec(
            network_str@.map_values(|ch: char| ascii_lower(ch)),
        ),
{
    let lower = to_lowercase(network_str);
    let l = lower.as_str();
    if str_eq(l, "mainnet") || str_eq(l, "main") || str_eq(l, "pubnet") {
        NetworkConfig::mainnet()
    } else if str_eq(l, "testnet") || str_eq(l, "test") {
        NetworkConfig::testnet()
    } else if str_eq(l, "futurenet") || str_eq(l, "future") {
        NetworkConfig::futurenet()
    } else if starts_with(l, "http") {
        proof {
            reveal_strlit("");
            assert(""@ =~= Seq::<char>::empty());
        }
        NetworkConfig::custom(l, "")
    } else {
        NetworkConfig::testnet()
    }
}

/// Get the default network configuration.
pub fn default_network() -> (c: NetworkConfig)
    ensures
        c@ == testnet_view(),
{
    NetworkConfig::testnet()
}

/// Global Prism configuration loaded from disk.
#[derive(Debug)]
pub struct PrismConfig {
    /// Default network to use.
    pub default_network: Network,
    /// Custom network configurations.
    pub networks: Vec<NetworkConfig>,
    /// Local cache directory override.
    pub cache_dir: Option<String>,
    /// Maximum cache size in MB.
    pub max_cache_size_mb: u64,
}

impl Default for PrismConfig {
    fn default() -> (c: Self)
        ensures
            c.default_network == Network::Testnet,
            c.networks@.map_values(|n: NetworkConfig| n@) == seq![
                testnet_view(),
                mainnet_view(),
                futurenet_view(),
                local_view(),
            ],
            c.cache_dir is None,
            c.max_cache_size_mb == 512,
    {
        let networks = vec![
            NetworkConfig::testnet(),
            NetworkConfig::mainnet(),
            NetworkConfig::futurenet(),
            NetworkConfig::local(),
        ];
        proof {
            assert(networks@.map_values(|n: NetworkConfig| n@) =~= seq![
                testnet_view(),
                mainnet_view(),
                futurenet_view(),
                local_view(),
            ]);
        }
        PrismConfig {
            default_network: Network::Testnet,
            networks,
            cache_dir: None,
            max_cache_size_mb: 512,
        }
    }
}

} // verus!
