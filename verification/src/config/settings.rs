//! The application configuration: defaults, per-network sections, the
//! command-line overrides applied on top of the file, and the directories
//! derived from it.

use vstd::prelude::*;
use crate::backend::types::{Network, opt_string_view};
use crate::config::paths::{
    path_join, join_path, default_data_dir, app_dir_spec, tilde_expanded, expand_tilde_with,
    path_has_prefix, path_starts_with, path_components, lemma_components_join,
};
use crate::text::{push_str_chars, string_from_chars, str_eq};

verus! {

/// The mempool strategy used when a network section does not set one.
pub const DEFAULT_MEMPOOL_STRATEGY: &'static str = "bloom-filter";

/// Per-network configuration for settings that vary by network.
#[derive(Debug)]
pub struct NetworkConfig {
    /// Explicit peer addresses to connect to.
    /// When non-empty, the SPV client connects exclusively to these peers.
    pub peers: Vec<String>,
    /// Mempool strategy: "fetch-all" or "bloom-filter".
    pub mempool_strategy: String,
}

/// Mathematical model of a [`NetworkConfig`].
pub struct NetworkConfigView {
    pub peers: Seq<Seq<char>>,
    pub mempool_strategy: Seq<char>,
}

impl View for NetworkConfig {
    type V = NetworkConfigView;

    open spec fn view(&self) -> NetworkConfigView {
        NetworkConfigView { peers: self.peers.deep_view(), mempool_strategy: self.mempool_strategy@ }
    }
}

/// The model of a default network section: no peers, bloom-filter mempool.
pub open spec fn default_network_config() -> NetworkConfigView {
    NetworkConfigView { peers: Seq::empty(), mempool_strategy: "bloom-filter"@ }
}

/// Returns the default mempool strategy.
pub fn default_mempool_strategy() -> (r: String)
    ensures
        r@ == "bloom-filter"@,
{
    String::from_str(DEFAULT_MEMPOOL_STRATEGY)
}

/// Default window width in logical pixels.
pub fn default_window_width() -> (r: u32)
    ensures
        r == 1024,
{
    1024
}

/// Default window height in logical pixels.
pub fn default_window_height() -> (r: u32)
    ensures
        r == 768,
{
    768
}

impl Default for NetworkConfig {
    fn default() -> (r: Self)
        ensures
            r@ == default_network_config(),
    {
        let r = NetworkConfig { peers: Vec::new(), mempool_strategy: default_mempool_strategy() };
        assert(r.peers.deep_view() =~= Seq::<Seq<char>>::empty());
        r
    }
}

impl NetworkConfig {
    /// A copy of this section.
    pub fn duplicate(&self) -> (r: NetworkConfig)
        ensures
            r@ == self@,
    {
        NetworkConfig {
            peers: crate::backend::types::clone_vec(&self.peers),
            mempool_strategy: self.mempool_strategy.clone(),
        }
    }
}

/// The per-network sections of a configuration file (`[mainnet]`,
/// `[testnet]`, `[devnet]`, `[regtest]`); an absent section is `None`.
#[derive(Debug)]
pub struct NetworkSections {
    pub mainnet: Option<NetworkConfig>,
    pub testnet: Option<NetworkConfig>,
    pub devnet: Option<NetworkConfig>,
    pub regtest: Option<NetworkConfig>,
}

impl NetworkSections {
    /// No section at all.
    pub fn new() -> (r: Self)
        ensures
            r.mainnet.is_none(),
            r.testnet.is_none(),
            r.devnet.is_none(),
            r.regtest.is_none(),
    {
        NetworkSections { mainnet: None, testnet: None, devnet: None, regtest: None }
    }

    /// The section of `network`.
    pub open spec fn section(self, network: Network) -> Option<NetworkConfig> {
        match network {
            Network::Mainnet => self.mainnet,
            Network::Testnet => self.testnet,
            Network::Devnet => self.devnet,
            Network::Regtest => self.regtest,
        }
    }

    /// Whether `self` and `other` hold the same sections except the one of
    /// `network`.
    pub open spec fn same_except(self, other: NetworkSections, network: Network) -> bool {
        forall|n: Network| n != network ==> #[trigger] self.section(n) == other.section(n)
    }
}

/// The TOML section key of a network.
pub open spec fn network_key_spec(network: Network) -> Seq<char> {
    match network {
        Network::Mainnet => "mainnet"@,
        Network::Testnet => "testnet"@,
        Network::Devnet => "devnet"@,
        Network::Regtest => "regtest"@,
    }
}

/// The message of the error for a mempool strategy that is not supported.
pub open spec fn invalid_strategy_text(strategy: Seq<char>) -> Seq<char> {
    "invalid mempool_strategy '"@ + strategy + "': must be 'bloom-filter' or 'fetch-all'"@
}

/// The message of the error that refuses to clear a network directory
/// holding the wallets.
pub open spec fn wallet_inside_text() -> Seq<char> {
    "wallet dir is inside network data dir; refusing to clear cache"@
}

/// The strategy a section's `mempool_strategy` stands for: an empty one
/// means the default.
pub open spec fn effective_strategy(s: Seq<char>) -> Seq<char> {
    if s.len() == 0 {
        "bloom-filter"@
    } else {
        s
    }
}

/// The model of a section after the command line's `--peer` and
/// `--mempool-strategy` overrides.
pub open spec fn cli_section(base: NetworkConfigView, cli: Cli) -> NetworkConfigView {
    NetworkConfigView {
        peers: if cli.peer@.len() > 0 {
            cli.peer.deep_view()
        } else {
            base.peers
        },
        mempool_strategy: match cli.mempool_strategy {
            Some(m) => m@,
            None => base.mempool_strategy,
        },
    }
}

/// The mempool strategies the SPV client supports.
pub open spec fn valid_strategy(s: Seq<char>) -> bool {
    s == "bloom-filter"@ || s == "fetch-all"@
}

/// Application configuration loaded from the TOML file and CLI overrides.
#[derive(Debug)]
pub struct AppConfig {
    pub network: Network,
    pub data_dir: String,
    pub wallet_dir: Option<String>,
    pub dev_mode: bool,
    pub log_level: String,
    pub window_width: u32,
    pub window_height: u32,
    /// Use the in-memory mock backend (CLI-only, not persisted).
    pub mock_mode: bool,
    /// Backend selection (CLI-only, not persisted). "native" or "ffi".
    pub backend: String,
    /// Per-network configuration sections (e.g., `[testnet]`, `[mainnet]`).
    pub networks: NetworkSections,
}

/// Command-line overrides. Every field is optional, so it only overrides
/// the file when it was given.
pub struct Cli {
    pub network: Option<Network>,
    pub dev: bool,
    pub mock: bool,
    pub log_level: Option<String>,
    pub backend: Option<String>,
    pub peer: Vec<String>,
    pub mempool_strategy: Option<String>,
    pub data_dir: Option<String>,
}

impl Default for Cli {
    fn default() -> (r: Self)
        ensures
            r.network.is_none(),
            !r.dev,
            !r.mock,
            r.log_level.is_none(),
            r.backend.is_none(),
            r.peer@.len() == 0,
            r.mempool_strategy.is_none(),
            r.data_dir.is_none(),
    {
        Cli {
            network: None,
            dev: false,
            mock: false,
            log_level: None,
            backend: None,
            peer: Vec::new(),
            mempool_strategy: None,
            data_dir: None,
        }
    }
}

/// Errors that can occur during configuration loading or saving.
#[derive(Debug)]
pub enum ConfigError {
    Io(std::io::Error),
    Parse(String),
}

/// `std::io::Error`, carried by [`ConfigError::Io`].
#[verifier::external_type_specification]
#[verifier::external_body]
pub struct ExIoError(std::io::Error);

/// The display text of an I/O error (`<std::io::Error as Display>`); it may
/// come from the operating system and its locale, so nothing is stated of it.
#[verifier::external_body]
fn io_error_text(e: &std::io::Error) -> String {
    e.to_string()
}

impl ConfigError {
    /// The human-readable message of this error (its display text).
    pub fn message(&self) -> (r: String)
        ensures
            match self {
                ConfigError::Io(_) => exists|d: Seq<char>| r@ == "config I/O error: "@ + d,
                ConfigError::Parse(m) => r@ == "config parse error: "@ + m@,
            },
    {
        match self {
            ConfigError::Io(e) => {
                let d = io_error_text(e);
                let mut s = String::from_str("config I/O error: ");
                s.append(d.as_str());
                s
            },
            ConfigError::Parse(m) => {
                let mut s = String::from_str("config parse error: ");
                s.append(m.as_str());
                s
            },
        }
    }
}

impl AppConfig {
    /// The section of the active network, if the configuration has one.
    pub open spec fn active_section(self) -> Option<NetworkConfig> {
        self.networks.section(self.network)
    }

    /// The model of the active network's configuration: its section, or the
    /// default section when there is none.
    pub open spec fn active_config(self) -> NetworkConfigView {
        match self.active_section() {
            Some(c) => c@,
            None => default_network_config(),
        }
    }

    /// The active network's mempool strategy; an empty one means the default.
    pub open spec fn mempool_strategy_spec(self) -> Seq<char> {
        effective_strategy(self.active_config().mempool_strategy)
    }

    /// The resolved wallet directory.
    pub open spec fn wallet_dir_spec(self) -> Seq<char> {
        match self.wallet_dir {
            Some(d) => d@,
            None => path_join(self.data_dir@, "wallets"@),
        }
    }

    /// The network-specific data directory.
    pub open spec fn network_data_dir_spec(self) -> Seq<char> {
        path_join(self.data_dir@, network_key_spec(self.network))
    }

    /// Returns the TOML section key for the given network.
    pub fn network_key(network: Network) -> (r: &'static str)
        ensures
            r@ == network_key_spec(network),
    {
        proof {
            reveal_strlit("mainnet");
            reveal_strlit("testnet");
            reveal_strlit("devnet");
            reveal_strlit("regtest");
        }
        match network {
            Network::Mainnet => "mainnet",
            Network::Testnet => "testnet",
            Network::Devnet => "devnet",
            Network::Regtest => "regtest",
        }
    }

    /// Returns (a copy of) the active network's configuration, or the
    /// default section when the configuration has none for it.
    pub fn network_config(&self) -> (r: NetworkConfig)
        ensures
            r@ == self.active_config(),
    {
        let section = match self.network {
            Network::Mainnet => &self.networks.mainnet,
            Network::Testnet => &self.networks.testnet,
            Network::Devnet => &self.networks.devnet,
            Network::Regtest => &self.networks.regtest,
        };
        match section {
            Some(c) => c.duplicate(),
            None => NetworkConfig::default(),
        }
    }

    /// Returns a mutable reference to the active network's configuration,
    /// creating a default entry if none exists.
    pub fn network_config_mut(&mut self) -> (r: &mut NetworkConfig)
        ensures
            r@ == old(self).active_config(),
            final(self).active_section() == Some(*final(r)),
            final(self).networks.same_except(old(self).networks, old(self).network),
            final(self).network == old(self).network,
            final(self).data_dir == old(self).data_dir,
            final(self).wallet_dir == old(self).wallet_dir,
            final(self).dev_mode == old(self).dev_mode,
            final(self).log_level == old(self).log_level,
            final(self).window_width == old(self).window_width,
            final(self).window_height == old(self).window_height,
            final(self).mock_mode == old(self).mock_mode,
            final(self).backend == old(self).backend,
    {
        match self.network {
            Network::Mainnet => self.networks.mainnet.get_or_insert(NetworkConfig::default()),
            Network::Testnet => self.networks.testnet.get_or_insert(NetworkConfig::default()),
            Network::Devnet => self.networks.devnet.get_or_insert(NetworkConfig::default()),
            Network::Regtest => self.networks.regtest.get_or_insert(NetworkConfig::default()),
        }
    }

    /// Returns the peer list for the active network.
    pub fn peers(&self) -> (r: Vec<String>)
        ensures
            r.deep_view() == self.active_config().peers,
    {
        let c = self.network_config();
        c.peers
    }

    /// Returns the mempool strategy for the active network,
    /// falling back to the default when the section is absent or empty.
    pub fn mempool_strategy(&self) -> (r: String)
        ensures
            r@ == self.mempool_strategy_spec(),
    {
        let c = self.network_config();
        if c.mempool_strategy.unicode_len() == 0 {
            default_mempool_strategy()
        } else {
            c.mempool_strategy
        }
    }

    /// Returns the resolved wallet directory.
    /// Defaults to `<data_dir>/wallets` when `wallet_dir` is `None`.
    pub fn wallet_dir(&self) -> (r: String)
        ensures
            r@ == self.wallet_dir_spec(),
    {
        match &self.wallet_dir {
            Some(d) => d.clone(),
            None => join_path(self.data_dir.as_str(), "wallets"),
        }
    }

    /// Returns the network-specific data directory (e.g., `<data_dir>/testnet`).
    pub fn network_data_dir(&self) -> (r: String)
        ensures
            r@ == self.network_data_dir_spec(),
    {
        join_path(self.data_dir.as_str(), self.network_dir_name())
    }

    /// The directory name of the active network.
    fn network_dir_name(&self) -> (r: &'static str)
        ensures
            r@ == network_key_spec(self.network),
    {
        Self::network_key(self.network)
    }

    /// The network data directory that clearing the cache removes and
    /// recreates, or the error that refuses it because the wallet directory
    /// lies inside it.
    pub fn clear_network_data_dir_target(&self) -> (r: Result<String, ConfigError>)
        ensures
            match r {
                Ok(d) => d@ == self.network_data_dir_spec() && !path_has_prefix(
                    self.wallet_dir_spec(),
                    self.network_data_dir_spec(),
                ),
                Err(e) => path_has_prefix(self.wallet_dir_spec(), self.network_data_dir_spec())
                    && (e matches ConfigError::Parse(m) && m@ == wallet_inside_text()),
            },
    {
        let network_dir = self.network_data_dir();
        let wallet_dir = self.wallet_dir();
        if path_starts_with(wallet_dir.as_str(), network_dir.as_str()) {
            proof {
                reveal_strlit("wallet dir is inside network data dir; refusing to clear cache");
            }
            return Err(
                ConfigError::Parse(
                    String::from_str(
                        "wallet dir is inside network data dir; refusing to clear cache",
                    ),
                ),
            );
        }
        Ok(network_dir)
    }
}


/// The default wallet directory `<data_dir>/wallets` never lies inside a
/// network data directory `<data_dir>/<network>`, so clearing a network's
/// cache is never refused for it.
pub proof fn law_default_wallet_dir_outside_network_dir(data_dir: Seq<char>, network: Network)
    ensures
        !path_has_prefix(path_join(data_dir, "wallets"@), path_join(data_dir, network_key_spec(network))),
{
    reveal_strlit("wallets");
    reveal_strlit("mainnet");
    reveal_strlit("testnet");
    reveal_strlit("devnet");
    reveal_strlit("regtest");
    let key = network_key_spec(network);
    assert(key.len() > 1);
    assert("wallets"@.len() == 7);
    assert(seq!['.'].len() == 1);
    assert(key != seq!['.']);
    assert("wallets"@ != seq!['.']);
    lemma_components_join(data_dir, "wallets"@);
    lemma_components_join(data_dir, key);
    let c = path_components(data_dir);
    let wc = path_components(path_join(data_dir, "wallets"@));
    let nc = path_components(path_join(data_dir, key));
    if path_has_prefix(path_join(data_dir, "wallets"@), path_join(data_dir, key)) {
        assert(wc.subrange(0, nc.len() as int)[c.len() as int] == nc[c.len() as int]);
        assert(wc[c.len() as int] == "wallets"@);
        assert(nc[c.len() as int] == key);
        assert("wallets"@[0] != key[0]);
    }
}

impl Default for AppConfig {
    fn default() -> (r: Self)
        ensures
            r.network == Network::Testnet,
            exists|platform: Option<Seq<char>>| r.data_dir@ == app_dir_spec(platform),
            r.wallet_dir.is_none(),
            !r.dev_mode,
            r.log_level@ == "info"@,
            r.window_width == 1024,
            r.window_height == 768,
            !r.mock_mode,
            r.backend@ == "native"@,
            r.networks.mainnet.is_none(),
            r.networks.testnet.is_none(),
            r.networks.devnet.is_none(),
            r.networks.regtest.is_none(),
    {
        AppConfig {
            network: Network::Testnet,
            data_dir: default_data_dir(),
            wallet_dir: None,
            dev_mode: false,
            log_level: String::from_str("info"),
            window_width: default_window_width(),
            window_height: default_window_height(),
            mock_mode: false,
            backend: String::from_str("native"),
            networks: NetworkSections::new(),
        }
    }
}

impl AppConfig {
    /// The network the command line selects, or the configured one.
    pub open spec fn cli_network(self, cli: Cli) -> Network {
        match cli.network {
            Some(n) => n,
            None => self.network,
        }
    }

    /// The model of the selected network's section before the overrides.
    pub open spec fn cli_base(self, cli: Cli) -> NetworkConfigView {
        match self.networks.section(self.cli_network(cli)) {
            Some(c) => c@,
            None => default_network_config(),
        }
    }

    /// Completes loading: applies the command-line overrides `cli` to this
    /// configuration (as read from the file, or the defaults), checks the
    /// active network's mempool strategy, and expands a leading `~` in the
    /// data and wallet directories with the home directory `home`.
    ///
    /// Priority: CLI args > TOML file > defaults.
    pub fn apply_cli(self, cli: Cli, home: Option<String>) -> (r: Result<AppConfig, ConfigError>)
        ensures
            ({
                let strategy = effective_strategy(
                    cli_section(self.cli_base(cli), cli).mempool_strategy,
                );
                match r {
                    Err(e) => !valid_strategy(strategy) && (e matches ConfigError::Parse(m)
                        && m@ == invalid_strategy_text(strategy)),
                    Ok(c) => {
                        &&& valid_strategy(strategy)
                        &&& c.network == self.cli_network(cli)
                        &&& c.dev_mode == (self.dev_mode || cli.dev)
                        &&& c.mock_mode == (self.mock_mode || cli.mock)
                        &&& c.log_level@ == (match cli.log_level {
                            Some(l) => l@,
                            None => self.log_level@,
                        })
                        &&& c.backend@ == (match cli.backend {
                            Some(b) => b@,
                            None => self.backend@,
                        })
                        &&& c.data_dir@ == tilde_expanded(
                            match cli.data_dir {
                                Some(d) => d@,
                                None => self.data_dir@,
                            },
                            opt_string_view(home),
                        )
                        &&& opt_string_view(c.wallet_dir) == (match self.wallet_dir {
                            Some(w) => Some(tilde_expanded(w@, opt_string_view(home))),
                            None => None,
                        })
                        &&& c.window_width == self.window_width
                        &&& c.window_height == self.window_height
                        &&& c.active_config().peers == cli_section(self.cli_base(cli), cli).peers
                        &&& c.active_config().mempool_strategy == cli_section(
                            self.cli_base(cli),
                            cli,
                        ).mempool_strategy
                        &&& c.active_section().is_some() == (self.networks.section(
                            self.cli_network(cli),
                        ).is_some() || cli.peer@.len() > 0 || cli.mempool_strategy.is_some())
                        &&& c.networks.same_except(self.networks, self.cli_network(cli))
                    },
                }
            }),
    {
        let ghost old_cli = cli;
        let ghost start = self;
        let Cli { network, dev, mock, log_level, backend, peer, mempool_strategy, data_dir } = cli;
        let mut config = self;
        if let Some(n) = network {
            config.network = n;
        }
        if dev {
            config.dev_mode = true;
        }
        if let Some(l) = log_level {
            config.log_level = l;
        }
        if mock {
            config.mock_mode = true;
        }
        if let Some(b) = backend {
            config.backend = b;
        }
        assert(config.networks == start.networks);
        assert(config.active_config() == start.cli_base(old_cli));
        if peer.len() > 0 {
            let c = config.network_config_mut();
            c.peers = peer;
        }
        if let Some(m) = mempool_strategy {
            let c = config.network_config_mut();
            c.mempool_strategy = m;
        }
        assert(config.active_config().peers =~= cli_section(start.cli_base(old_cli), old_cli).peers);
        let strategy = config.mempool_strategy();
        if !(str_eq(strategy.as_str(), "bloom-filter") || str_eq(strategy.as_str(), "fetch-all")) {
            let mut v: Vec<char> = Vec::new();
            push_str_chars(&mut v, "invalid mempool_strategy '");
            push_str_chars(&mut v, strategy.as_str());
            push_str_chars(&mut v, "': must be 'bloom-filter' or 'fetch-all'");
            return Err(ConfigError::Parse(string_from_chars(&v)));
        }
        if let Some(d) = data_dir {
            config.data_dir = d;
        }
        let home2 = crate::backend::types::clone_opt_string(&home);
        config.data_dir = expand_tilde_with(config.data_dir.as_str(), home);
        config.wallet_dir = match config.wallet_dir {
            Some(w) => Some(expand_tilde_with(w.as_str(), home2)),
            None => None,
        };
        Ok(config)
    }
}

impl AppConfig {
    /// The network whose TOML section key is `key`, if any.
    pub fn network_from_key(key: &str) -> (r: Option<Network>)
        ensures
            match r {
                Some(n) => network_key_spec(n) == key@,
                None => forall|n: Network| network_key_spec(n) != key@,
            },
    {
        proof {
            reveal_strlit("mainnet");
            reveal_strlit("testnet");
            reveal_strlit("devnet");
            reveal_strlit("regtest");
        }
        if str_eq(key, "mainnet") {
            Some(Network::Mainnet)
        } else if str_eq(key, "testnet") {
            Some(Network::Testnet)
        } else if str_eq(key, "devnet") {
            Some(Network::Devnet)
        } else if str_eq(key, "regtest") {
            Some(Network::Regtest)
        } else {
            proof {
                assert forall|n: Network| network_key_spec(n) != key@ by {
                    match n {
                        Network::Mainnet => {},
                        Network::Testnet => {},
                        Network::Devnet => {},
                        Network::Regtest => {},
                    }
                }
            }
            None
        }
    }
}

} // verus!
