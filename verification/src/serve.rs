//! Starting the server: what the command line, the configuration and the build settle.
//!
//! Paths, addresses and configurations are carried without being read.

use vstd::prelude::*;

verus! {

/// From how many bytes on a payload gets the long HTTP timeout.
pub const LONG_PAYLOAD_THRESHOLD_BYTES: usize = 262_144;

/// How many milliseconds lie between two looks at the schedule.
pub const SCHEDULE_INTERVAL_MS: u64 = 200;

/// For how many milliseconds the scheduler's lead is taken.
pub const SCHEDULER_LEASE_MS: u64 = 5_000;

/// The command line of the server. `P` is a path, `L` an address to listen on and `C` the choice
/// of cluster mode.
#[derive(Debug)]
pub struct ServeArgs<P, L, C> {
    /// The configuration file.
    pub config: Option<P>,
    /// The address to listen on.
    pub listen: L,
    /// The port to listen on.
    pub port: Option<u16>,
    /// The directory for data.
    pub data_dir: Option<P>,
    /// Whether to run as a cluster.
    pub cluster: C,
    /// The database of the control plane.
    pub database_url: Option<String>,
    /// Whether the node only dispatches.
    pub dispatch_fleet: bool,
}

/// What the command line overrides in the configuration.
#[derive(Debug)]
pub struct ServeOverrides<P, L, C> {
    /// The configuration file.
    pub config_path: Option<P>,
    /// The address to listen on.
    pub listen: L,
    /// The port to listen on.
    pub port: Option<u16>,
    /// The directory for data.
    pub data_dir: Option<P>,
    /// Whether to run as a cluster.
    pub cluster: C,
    /// The database of the control plane.
    pub database_url: Option<String>,
    /// Whether the node only dispatches, where the command line says so.
    pub dispatch_fleet: Option<bool>,
}

/// The database that the command line names. Only a build for the cloud has one.
pub fn serve_database_url(given: Option<String>, cloud_build: bool) -> (res: Option<String>)
    ensures
        res == (if cloud_build {
            given
        } else {
            None
        }),
{
    if cloud_build {
        given
    } else {
        None
    }
}

/// What the command line overrides. Its dispatch switch can turn the mode on, not off.
pub fn serve_overrides<P, L, C>(args: ServeArgs<P, L, C>, cloud_build: bool) -> (res:
    ServeOverrides<P, L, C>)
    ensures
        res.config_path == args.config,
        res.listen == args.listen,
        res.port == args.port,
        res.data_dir == args.data_dir,
        res.cluster == args.cluster,
        res.database_url == (if cloud_build {
            args.database_url
        } else {
            None
        }),
        res.dispatch_fleet == (if args.dispatch_fleet {
            Some(true)
        } else {
            None
        }),
{
    ServeOverrides {
        config_path: args.config,
        listen: args.listen,
        port: args.port,
        data_dir: args.data_dir,
        cluster: args.cluster,
        database_url: serve_database_url(args.database_url, cloud_build),
        dispatch_fleet: if args.dispatch_fleet {
            Some(true)
        } else {
            None
        },
    }
}

/// The directory for data: as overridden, else as given, else the fallback.
pub fn serve_data_dir<P>(overridden: Option<P>, given: Option<P>, fallback: P) -> (res: P)
    ensures
        res == match (overridden, given) {
            (Some(dir), _) => dir,
            (None, Some(dir)) => dir,
            (None, None) => fallback,
        },
{
    match overridden {
        Some(dir) => dir,
        None => match given {
            Some(dir) => dir,
            None => fallback,
        },
    }
}

/// The configuration file: the given one, else the managed one where it exists.
pub fn serve_config_path<P>(given: Option<P>, managed: P, managed_exists: bool) -> (res: Option<P>)
    ensures
        res == match given {
            Some(path) => Some(path),
            None => if managed_exists {
                Some(managed)
            } else {
                None
            },
        },
{
    match given {
        Some(path) => Some(path),
        None => if managed_exists {
            Some(managed)
        } else {
            None
        },
    }
}

/// The configuration that a cluster is set up from: that of the file, else the managed one. Where
/// there is neither, the server does not start.
pub fn cluster_settings<T>(file: Option<T>, managed: Option<T>) -> (res: Result<T, String>)
    ensures
        match res {
            Ok(settings) => match file {
                Some(f) => settings == f,
                None => managed == Some(settings),
            },
            Err(message) => file is None && managed is None && message@
                == "cluster mode requires saved infrastructure config — use Panel → Infrastructure"@,
        },
{
    match file {
        Some(f) => Ok(f),
        None => match managed {
            Some(m) => Ok(m),
            None => Err(
                "cluster mode requires saved infrastructure config — use Panel → Infrastructure".to_owned(),
            ),
        },
    }
}

/// How the settings want requests to be authenticated.
#[derive(Debug, Clone, Copy, PartialEq, Eq, Structural)]
pub enum AuthMode {
    /// By the control plane.
    Cloud,
    /// By the node itself.
    Local,
}

/// What the server opens in order to authenticate requests.
#[derive(Debug, Clone, Copy, PartialEq, Eq, Structural)]
pub enum AuthStore {
    /// The control plane's database.
    ControlPlane,
    /// The node's own token store.
    LocalTokens,
}

/// What the server opens in order to authenticate requests. A build for self-hosting does not
/// start with the control plane's authentication.
pub fn auth_store(mode: AuthMode, cloud_build: bool) -> (res: Result<AuthStore, String>)
    ensures
        match res {
            Ok(AuthStore::ControlPlane) => mode == AuthMode::Cloud && cloud_build,
            Ok(AuthStore::LocalTokens) => mode == AuthMode::Local,
            Err(message) => mode == AuthMode::Cloud && !cloud_build && message@
                == "auth.mode \"cloud\" is not supported in the self-host build (use auth.mode \"local\")"@,
        },
{
    match mode {
        AuthMode::Local => Ok(AuthStore::LocalTokens),
        AuthMode::Cloud => if cloud_build {
            Ok(AuthStore::ControlPlane)
        } else {
            Err(
                "auth.mode \"cloud\" is not supported in the self-host build (use auth.mode \"local\")".to_owned(),
            )
        },
    }
}

/// What the schema of the configuration says of itself.
pub fn config_description(cloud_build: bool) -> (res: &'static str)
    ensures
        res@ == (if cloud_build {
            "BetterMQ configuration. Run: bettermq config init --template <local|slate|cluster|cloud>"@
        } else {
            "BetterMQ configuration. Run: bettermq config init --template <local|slate|cluster>"@
        }),
{
    if cloud_build {
        "BetterMQ configuration. Run: bettermq config init --template <local|slate|cluster|cloud>"
    } else {
        "BetterMQ configuration. Run: bettermq config init --template <local|slate|cluster>"
    }
}

} // verus!
