//! The configuration model of a bitcoind service.
//!
//! Every executable type has a mathematical view: strings become
//! `Seq<char>`, vectors become `Seq`, and the contracts of the crate speak
//! of those views.

use vstd::prelude::*;

verus! {

/// The Bitcoin networks a node can join. Exactly one is active.
#[derive(Debug, Clone, Copy, PartialEq, Eq, Structural)]
pub enum BitcoinNetwork {
    /// The main network; the default.
    Mainnet,
    /// The test network.
    Testnet,
    /// The regression test network.
    Regtest,
    /// The signet network.
    Signet,
}

impl Default for BitcoinNetwork {
    fn default() -> (res: Self)
        ensures
            res == BitcoinNetwork::Mainnet,
    {
        BitcoinNetwork::Mainnet
    }
}

/// How the node prunes old blocks.
#[derive(Debug, Clone, Copy, PartialEq, Eq, Structural)]
pub enum PruneOptions {
    /// Pruning disabled; the default.
    Disable,
    /// Pruning is left to the user, who prunes through RPC calls.
    Manual,
    /// Automatic pruning once the block files reach a size.
    Automatic {
        /// The size in MiB at which pruning sets in; at least 551.
        prune_at: u32,
    },
}

impl Default for PruneOptions {
    fn default() -> (res: Self)
        ensures
            res == PruneOptions::Disable,
    {
        PruneOptions::Disable
    }
}

/// A user of the JSON-RPC interface.
#[derive(Debug, Clone, PartialEq, Eq)]
pub struct BitcoinDaemonServiceRPCUser {
    /// Salt and HMAC-SHA-256 of the password, both in lower-case
    /// hexadecimal, separated by a dollar sign.
    pub password_hmac: String,
    /// The user's name.
    pub name: String,
}

/// The view of a [`BitcoinDaemonServiceRPCUser`].
pub struct RpcUserView {
    pub password_hmac: Seq<char>,
    pub name: Seq<char>,
}

impl View for BitcoinDaemonServiceRPCUser {
    type V = RpcUserView;

    open spec fn view(&self) -> RpcUserView {
        RpcUserView { password_hmac: self.password_hmac@, name: self.name@ }
    }
}

impl DeepView for BitcoinDaemonServiceRPCUser {
    type V = RpcUserView;

    open spec fn deep_view(&self) -> RpcUserView {
        self@
    }
}

/// The configuration of one bitcoind service.
#[derive(Debug, Clone, PartialEq, Eq)]
pub struct BitcoinDaemonService {
    /// The name of the instance.
    pub name: Option<String>,
    /// The user as which to run bitcoind.
    pub user: Option<String>,
    /// The network to join.
    pub network: BitcoinNetwork,
    /// The users of the JSON-RPC interface, in order.
    pub rpc_users: Option<Vec<BitcoinDaemonServiceRPCUser>>,
    /// The port on which to listen for JSON-RPC connections.
    pub rpc_port: Option<u16>,
    /// Whether and how to prune the node.
    pub prune: Option<PruneOptions>,
    /// The size in MiB at which the block files are pruned.
    pub prune_size: Option<u16>,
    /// The port on which to listen for connections.
    pub port: Option<u16>,
    /// Location of the bitcoind pid file.
    pub pid_file: Option<String>,
    /// The bitcoind package to use.
    pub package: Option<String>,
    /// The group as which to run bitcoind.
    pub group: Option<String>,
    /// Further lines for bitcoin.conf, separated by line feeds.
    pub extra_config: Option<String>,
    /// Further command line options for bitcoind.
    pub extra_cmd_line_options: Option<Vec<String>>,
    /// The database cache size in MiB.
    pub db_cache: Option<i16>,
    /// The data directory of bitcoind.
    pub data_dir: Option<String>,
    /// The path of the configuration file handed to bitcoind.
    pub config_file_path: Option<String>,
    /// Whether to keep the transaction index.
    pub tx_index: Option<bool>,
}

/// The view of a [`BitcoinDaemonService`].
pub struct ServiceView {
    pub name: Option<Seq<char>>,
    pub user: Option<Seq<char>>,
    pub network: BitcoinNetwork,
    pub rpc_users: Option<Seq<RpcUserView>>,
    pub rpc_port: Option<u16>,
    pub prune: Option<PruneOptions>,
    pub prune_size: Option<u16>,
    pub port: Option<u16>,
    pub pid_file: Option<Seq<char>>,
    pub package: Option<Seq<char>>,
    pub group: Option<Seq<char>>,
    pub extra_config: Option<Seq<char>>,
    pub extra_cmd_line_options: Option<Seq<Seq<char>>>,
    pub db_cache: Option<i16>,
    pub data_dir: Option<Seq<char>>,
    pub config_file_path: Option<Seq<char>>,
    pub tx_index: Option<bool>,
}

impl ServiceView {
    /// The configuration in which nothing is set and the network is the
    /// main network.
    pub open spec fn unset() -> ServiceView {
        ServiceView {
            name: None,
            user: None,
            network: BitcoinNetwork::Mainnet,
            rpc_users: None,
            rpc_port: None,
            prune: None,
            prune_size: None,
            port: None,
            pid_file: None,
            package: None,
            group: None,
            extra_config: None,
            extra_cmd_line_options: None,
            db_cache: None,
            data_dir: None,
            config_file_path: None,
            tx_index: None,
        }
    }
}

impl View for BitcoinDaemonService {
    type V = ServiceView;

    open spec fn view(&self) -> ServiceView {
        ServiceView {
            name: self.name.deep_view(),
            user: self.user.deep_view(),
            network: self.network,
            rpc_users: self.rpc_users.deep_view(),
            rpc_port: self.rpc_port,
            prune: self.prune,
            prune_size: self.prune_size,
            port: self.port,
            pid_file: self.pid_file.deep_view(),
            package: self.package.deep_view(),
            group: self.group.deep_view(),
            extra_config: self.extra_config.deep_view(),
            extra_cmd_line_options: self.extra_cmd_line_options.deep_view(),
            db_cache: self.db_cache,
            data_dir: self.data_dir.deep_view(),
            config_file_path: self.config_file_path.deep_view(),
            tx_index: self.tx_index,
        }
    }
}

impl Default for BitcoinDaemonService {
    fn default() -> (res: Self)
        ensures
            res@ == ServiceView::unset(),
    {
        BitcoinDaemonService {
            name: None,
            user: None,
            network: BitcoinNetwork::Mainnet,
            rpc_users: None,
            rpc_port: None,
            prune: None,
            prune_size: None,
            port: None,
            pid_file: None,
            package: None,
            group: None,
            extra_config: None,
            extra_cmd_line_options: None,
            db_cache: None,
            data_dir: None,
            config_file_path: None,
            tx_index: None,
        }
    }
}

impl BitcoinDaemonService {
    /// Creates a new [`BitcoinDaemonService`] from the value of each field.
    pub fn new(
        name: Option<String>,
        user: Option<String>,
        network: BitcoinNetwork,
        rpc_users: Option<Vec<BitcoinDaemonServiceRPCUser>>,
        rpc_port: Option<u16>,
        prune: Option<PruneOptions>,
        prune_size: Option<u16>,
        port: Option<u16>,
        pid_file: Option<String>,
        package: Option<String>,
        group: Option<String>,
        extra_config: Option<String>,
        extra_cmd_line_options: Option<Vec<String>>,
        db_cache: Option<i16>,
        data_dir: Option<String>,
        config_file_path: Option<String>,
        tx_index: Option<bool>,
    ) -> (res: Self)
        ensures
            res.name == name,
            res.user == user,
            res.network == network,
            res.rpc_users == rpc_users,
            res.rpc_port == rpc_port,
            res.prune == prune,
            res.prune_size == prune_size,
            res.port == port,
            res.pid_file == pid_file,
            res.package == package,
            res.group == group,
            res.extra_config == extra_config,
            res.extra_cmd_line_options == extra_cmd_line_options,
            res.db_cache == db_cache,
            res.data_dir == data_dir,
            res.config_file_path == config_file_path,
            res.tx_index == tx_index,
    {
        BitcoinDaemonService {
            name,
            user,
            network,
            rpc_users,
            rpc_port,
            prune,
            prune_size,
            port,
            pid_file,
            package,
            group,
            extra_config,
            extra_cmd_line_options,
            db_cache,
            data_dir,
            config_file_path,
            tx_index,
        }
    }
}

} // verus!
