//! The connection configuration: host and port of the two remote endpoints
//! and the one reusable transport handle, guarded for concurrent reads and
//! occasional exclusive writes. A reader always sees one internally
//! consistent configuration value, never a mixture of two generations.

use vstd::prelude::*;

verus! {

use vstd::rwlock::RwLock;
use vstd::string::StringExecFns;
use crate::transport::build_transport;
use crate::transport::clone_transport;

/// Default port of the nrepl server (the direct evaluation endpoint).
pub const DEFAULT_NREPL_PORT: i32 = 7869;

/// Default port of the streamline server (the management endpoint).
pub const DEFAULT_STREAMLINE_PORT: i32 = 8080;

/// Lowest port the configuration editor accepts for the streamline server.
pub const STREAMLINE_PORT_MIN: i32 = 1000;

/// Highest port the configuration editor accepts for the streamline server.
pub const STREAMLINE_PORT_MAX: i32 = 10000;

/// Connection configuration: the endpoint for direct code evaluation (the
/// nrepl server), the endpoint for block and module management (the
/// streamline server), and the reusable transport handle shared by every
/// protocol call.
pub struct AppConfig {
    /// The port of the nrepl server.
    pub nrepl_port: i32,
    /// The port of the streamline server.
    pub streamline_server_port: i32,
    /// The host of the nrepl server.
    pub nrepl_host: String,
    /// The host of the streamline server.
    pub streamline_host: String,
    /// The reusable transport handle.
    pub client: reqwest::blocking::Client,
}

/// The mathematical value of a configuration: the four endpoint fields.
/// The transport handle is opaque and carries no specification value.
pub ghost struct ConfigView {
    pub nrepl_port: int,
    pub streamline_server_port: int,
    pub nrepl_host: Seq<char>,
    pub streamline_host: Seq<char>,
}

impl View for AppConfig {
    type V = ConfigView;

    open spec fn view(&self) -> ConfigView {
        ConfigView {
            nrepl_port: self.nrepl_port as int,
            streamline_server_port: self.streamline_server_port as int,
            nrepl_host: self.nrepl_host@,
            streamline_host: self.streamline_host@,
        }
    }
}

impl Clone for AppConfig {
    fn clone(&self) -> (r: Self)
        ensures
            r@ == self@,
    {
        AppConfig {
            nrepl_port: self.nrepl_port,
            streamline_server_port: self.streamline_server_port,
            nrepl_host: self.nrepl_host.clone(),
            streamline_host: self.streamline_host.clone(),
            client: clone_transport(&self.client),
        }
    }
}

/// The endpoint fields a configuration holds at process start: both hosts
/// a local loopback name, the two default ports.
pub open spec fn default_config_view() -> ConfigView {
    ConfigView {
        nrepl_port: DEFAULT_NREPL_PORT as int,
        streamline_server_port: DEFAULT_STREAMLINE_PORT as int,
        nrepl_host: "localhost"@,
        streamline_host: "localhost"@,
    }
}

impl AppConfig {
    /// A configuration with the default endpoints, over the given transport.
    pub fn with_transport(client: reqwest::blocking::Client) -> (c: AppConfig)
        ensures
            c@ == default_config_view(),
    {
        AppConfig {
            nrepl_port: DEFAULT_NREPL_PORT,
            streamline_server_port: DEFAULT_STREAMLINE_PORT,
            nrepl_host: String::from_str("localhost"),
            streamline_host: String::from_str("localhost"),
            client,
        }
    }

    /// The configuration at process start: default endpoints and a fresh
    /// transport, or `None` when the transport cannot be constructed.
    pub fn try_default() -> (r: Option<AppConfig>)
        ensures
            (r matches Some(c) ==> c@ == default_config_view()),
    {
        match build_transport() {
            Some(client) => Some(AppConfig::with_transport(client)),
            None => None,
        }
    }
}

/// Clamps a port edit to the range the configuration editor enforces for
/// the streamline server: a value inside the range is kept, one outside is
/// moved to the nearer bound.
pub fn clamp_streamline_port(p: i32) -> (r: i32)
    ensures
        STREAMLINE_PORT_MIN <= r <= STREAMLINE_PORT_MAX,
        STREAMLINE_PORT_MIN <= p <= STREAMLINE_PORT_MAX ==> r == p,
        p < STREAMLINE_PORT_MIN ==> r == STREAMLINE_PORT_MIN,
        p > STREAMLINE_PORT_MAX ==> r == STREAMLINE_PORT_MAX,
{
    if p < STREAMLINE_PORT_MIN {
        STREAMLINE_PORT_MIN
    } else if p > STREAMLINE_PORT_MAX {
        STREAMLINE_PORT_MAX
    } else {
        p
    }
}

/// The invariant the shared holder imposes on a stored configuration: any
/// value is accepted — validating field values is the editing
/// collaborator's concern, not the configuration object's.
pub struct AnyConfig;

impl vstd::rwlock::RwLockPredicate<AppConfig> for AnyConfig {
    open spec fn inv(self, v: AppConfig) -> bool {
        true
    }
}

/// A concurrency-safe holder of the connection configuration. Many callers
/// read it through whole-value snapshots; a configuration editor replaces
/// it through a whole-value write under the exclusive side of the lock, so
/// a concurrent reader observes either the fully-old or the fully-new
/// configuration, never host and port from different generations.
pub struct SharedConfig {
    lock: RwLock<AppConfig, AnyConfig>,
}

impl SharedConfig {
    /// Wraps a configuration for shared use.
    pub fn new(c: AppConfig) -> (s: SharedConfig) {
        SharedConfig { lock: RwLock::new(c, Ghost(AnyConfig)) }
    }

    /// One consistent snapshot of the whole configuration: every field,
    /// the transport handle included, is cloned under a single read
    /// acquisition of the lock, and the lock is released before the
    /// snapshot is used, so no network exchange ever holds it.
    pub fn snapshot(&self) -> (c: AppConfig) {
        let handle = self.lock.acquire_read();
        let c = handle.borrow().clone();
        handle.release_read();
        c
    }

    /// Atomically replaces the stored configuration: all related fields
    /// change in one exclusive write, so a concurrent snapshot sees either
    /// the previous value or `c`, never a mixture of the two.
    pub fn reconfigure(&self, c: AppConfig) {
        let (_previous, handle) = self.lock.acquire_write();
        handle.release_write(c);
    }
}

} // verus!
