//! Laws on starting the server.

use crate::serve::{
    auth_store, cluster_settings, config_description, serve_config_path, serve_data_dir,
    serve_database_url, serve_overrides, AuthMode, AuthStore, ServeArgs, ServeOverrides,
    LONG_PAYLOAD_THRESHOLD_BYTES, SCHEDULER_LEASE_MS, SCHEDULE_INTERVAL_MS,
};
use vstd::prelude::*;

verus! {

/// The schedule is looked at five times a second, the lead is taken for five seconds, and payloads
/// are long from a quarter of a mebibyte on.
pub proof fn law_constants()
    ensures
        LONG_PAYLOAD_THRESHOLD_BYTES == 256 * 1024,
        SCHEDULE_INTERVAL_MS == 200,
        SCHEDULER_LEASE_MS == 5_000,
{
}

/// The command line's database counts in a build for the cloud, and in no other.
pub proof fn law_database_is_for_the_cloud(
    given: Option<String>,
    in_cloud: Option<String>,
    elsewhere: Option<String>,
)
    requires
        call_ensures(serve_database_url, (given, true), in_cloud),
        call_ensures(serve_database_url, (given, false), elsewhere),
    ensures
        in_cloud == given,
        elsewhere is None,
{
}

/// What the command line says overrides the configuration as it is said; its database as far as the
/// build has one, and its dispatch switch only where it is on.
pub proof fn law_command_line_overrides<P, L, C>(
    args: ServeArgs<P, L, C>,
    cloud_build: bool,
    res: ServeOverrides<P, L, C>,
    database_url: Option<String>,
)
    requires
        call_ensures(serve_overrides::<P, L, C>, (args, cloud_build), res),
        call_ensures(serve_database_url, (args.database_url, cloud_build), database_url),
    ensures
        res.config_path == args.config,
        res.listen == args.listen,
        res.port == args.port,
        res.data_dir == args.data_dir,
        res.cluster == args.cluster,
        res.database_url == database_url,
        args.dispatch_fleet ==> res.dispatch_fleet == Some(true),
        !args.dispatch_fleet ==> res.dispatch_fleet is None,
{
}

/// Data is kept where an override says, else where it was given, else at the fallback.
pub proof fn law_data_dir<P>(overridden: Option<P>, given: Option<P>, fallback: P, res: P)
    requires
        call_ensures(serve_data_dir::<P>, (overridden, given, fallback), res),
    ensures
        overridden matches Some(dir) ==> res == dir,
        overridden is None ==> (given matches Some(dir) ==> res == dir),
        overridden is None && given is None ==> res == fallback,
{
}

/// The configuration is read from the file given, else from the managed one where it exists, else
/// from none.
pub proof fn law_config_path<P>(
    given: Option<P>,
    managed: P,
    managed_exists: bool,
    res: Option<P>,
)
    requires
        call_ensures(serve_config_path::<P>, (given, managed, managed_exists), res),
    ensures
        given is Some ==> res == given,
        given is None && managed_exists ==> res == Some(managed),
        given is None && !managed_exists ==> res is None,
{
}

/// A cluster is set up from the file, else from the managed configuration. The server refuses to
/// start exactly where there is neither.
pub proof fn law_cluster_settings<T>(
    file: Option<T>,
    managed: Option<T>,
    res: Result<T, String>,
)
    requires
        call_ensures(cluster_settings::<T>, (file, managed), res),
    ensures
        file matches Some(f) ==> res == Ok::<T, String>(f),
        file is None ==> (managed matches Some(m) ==> res == Ok::<T, String>(m)),
        file is None && managed is None ==> (res matches Err(message) && message@
            == "cluster mode requires saved infrastructure config — use Panel → Infrastructure"@),
{
}

/// The node's own tokens are for local authentication, in any build; the control plane's database is
/// for the cloud's, which only a build for the cloud has.
pub proof fn law_auth_store(
    cloud_build: bool,
    local: Result<AuthStore, String>,
    cloud: Result<AuthStore, String>,
)
    requires
        call_ensures(auth_store, (AuthMode::Local, cloud_build), local),
        call_ensures(auth_store, (AuthMode::Cloud, cloud_build), cloud),
    ensures
        local matches Ok(store) && store is LocalTokens,
        cloud_build ==> (cloud matches Ok(store) && store is ControlPlane),
        !cloud_build ==> (cloud matches Err(message) && message@
            == "auth.mode \"cloud\" is not supported in the self-host build (use auth.mode \"local\")"@),
{
}

/// The description of the configuration names the templates of the build.
pub proof fn law_config_description(in_cloud: &'static str, elsewhere: &'static str)
    requires
        call_ensures(config_description, (true,), in_cloud),
        call_ensures(config_description, (false,), elsewhere),
    ensures
        in_cloud@
            == "BetterMQ configuration. Run: bettermq config init --template <local|slate|cluster|cloud>"@,
        elsewhere@
            == "BetterMQ configuration. Run: bettermq config init --template <local|slate|cluster>"@,
{
}

} // verus!
