//! Startup configuration assembly.
//!
//! The CLI options and the resolved identity are merged into one node
//! configuration, built once and consumed exactly once by node startup.
//! Each rule is independently visible in the contract; the one coupled
//! policy is relay mutual exclusion: with no relay addresses the node runs
//! a relay server for other peers, with relay addresses it relies on them
//! instead.

use vstd::prelude::*;
use vstd::string::StringExecFns;
use crate::arguments::IpfsCommand;

verus! {

/// Entries kept in the identify protocol's peer-info cache.
pub const IDENTIFY_CACHE_SIZE: u64 = 100;

/// Multiplexer receive-buffer size, in bytes.
pub const MUX_MAX_BUFFER_SIZE: u64 = 4 * 1024 * 1024;

/// Multiplexer per-stream receive-window size, in bytes.
pub const MUX_RECEIVE_WINDOW_SIZE: u64 = 1024 * 1024;

/// The command line, parsed into plain values.
pub struct Options {
    /// Persistence storage path.
    pub path: Option<String>,
    /// Path to the base64, binary-protobuf-shaped keypair file.
    pub keypair: Option<String>,
    /// Path to an external config file; only its embedded identity is read.
    pub config: Option<String>,
    /// Listening addresses, in multiaddress text form.
    pub listen_address: Vec<String>,
    /// Relays to use; giving any disables the node's own relay server.
    pub relays: Vec<String>,
    /// Explicit bootstrap peers, in multiaddress text form.
    pub bootstraps: Vec<String>,
    /// Never run DHT bootstrap.
    pub disable_bootstrap: bool,
    /// Register the well-known default bootstrap set even when explicit
    /// peers were given.
    pub default_bootstrap: bool,
    /// The trailing subcommand, where one was supplied.
    pub command: Option<IpfsCommand>,
}

/// The identify-protocol profile: a fixed agent string, push updates, a
/// bounded peer-info cache.
pub struct IdentifyProfile {
    pub agent_version: String,
    pub push_updates: bool,
    pub cache_size: u64,
}

/// The node configuration handed to the node service, built once from CLI
/// input and never mutated after.
pub struct NodeConfig {
    /// Local-network discovery is on.
    pub enable_mdns: bool,
    /// Relay-client capability is on.
    pub enable_relay_client: bool,
    /// NAT traversal (UPnP) is on.
    pub enable_upnp: bool,
    /// The file-descriptor limit is raised to the platform maximum.
    pub fd_limit_max: bool,
    /// No artificial startup delay.
    pub disable_startup_delay: bool,
    /// The resolved identity's binary-protobuf keypair; `None` lets the
    /// node service generate an ephemeral one.
    pub keypair: Option<Vec<u8>>,
    pub listen_addresses: Vec<String>,
    pub relay_addresses: Vec<String>,
    pub bootstrap_peers: Vec<String>,
    pub disable_bootstrap: bool,
    pub default_bootstrap: bool,
    /// Run a relay server for other peers; mutually exclusive with relying
    /// on given relays.
    pub enable_relay_server: bool,
    pub storage_path: Option<String>,
    pub mux_max_buffer_size: u64,
    pub mux_receive_window_size: u64,
    pub identify: IdentifyProfile,
}

/// Merges CLI options and the resolved identity into the node
/// configuration, and hands the subcommand back for dispatch. Discovery,
/// relay client, UPnP, the raised descriptor limit and the disabled
/// startup delay are fixed; addresses and peers are registered as given;
/// the node serves as a relay exactly when no relay addresses were given.
pub fn build_config(opts: Options, keypair: Option<Vec<u8>>) -> (r: (
    NodeConfig,
    Option<IpfsCommand>,
))
    ensures
        r.0.enable_mdns,
        r.0.enable_relay_client,
        r.0.enable_upnp,
        r.0.fd_limit_max,
        r.0.disable_startup_delay,
        r.0.keypair == keypair,
        r.0.listen_addresses == opts.listen_address,
        r.0.relay_addresses == opts.relays,
        r.0.bootstrap_peers == opts.bootstraps,
        r.0.disable_bootstrap == opts.disable_bootstrap,
        r.0.default_bootstrap == opts.default_bootstrap,
        r.0.enable_relay_server <==> opts.relays@.len() == 0,
        r.0.storage_path == opts.path,
        r.0.mux_max_buffer_size == MUX_MAX_BUFFER_SIZE,
        r.0.mux_receive_window_size == MUX_RECEIVE_WINDOW_SIZE,
        r.0.identify.agent_version@ == "ipfs-server/0.1.0"@,
        r.0.identify.push_updates,
        r.0.identify.cache_size == IDENTIFY_CACHE_SIZE,
        r.1 == opts.command,
{
    let enable_relay_server = opts.relays.len() == 0;
    let config = NodeConfig {
        enable_mdns: true,
        enable_relay_client: true,
        enable_upnp: true,
        fd_limit_max: true,
        disable_startup_delay: true,
        keypair,
        listen_addresses: opts.listen_address,
        relay_addresses: opts.relays,
        bootstrap_peers: opts.bootstraps,
        disable_bootstrap: opts.disable_bootstrap,
        default_bootstrap: opts.default_bootstrap,
        enable_relay_server,
        storage_path: opts.path,
        mux_max_buffer_size: MUX_MAX_BUFFER_SIZE,
        mux_receive_window_size: MUX_RECEIVE_WINDOW_SIZE,
        identify: IdentifyProfile {
            agent_version: String::from_str("ipfs-server/0.1.0"),
            push_updates: true,
            cache_size: IDENTIFY_CACHE_SIZE,
        },
    };
    (config, opts.command)
}

} // verus!
