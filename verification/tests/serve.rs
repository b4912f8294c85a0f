use bettermq::serve::{
    auth_store, cluster_settings, config_description, serve_config_path, serve_data_dir,
    serve_database_url, serve_overrides, AuthMode, AuthStore, ServeArgs,
    LONG_PAYLOAD_THRESHOLD_BYTES, SCHEDULER_LEASE_MS, SCHEDULE_INTERVAL_MS,
};

fn args(dispatch_fleet: bool) -> ServeArgs<&'static str, u8, Option<bool>> {
    ServeArgs {
        config: Some("file"),
        listen: 5,
        port: Some(80),
        data_dir: Some("dir"),
        cluster: Some(false),
        database_url: Some("db".to_string()),
        dispatch_fleet,
    }
}

#[test]
fn constants() {
    assert_eq!(LONG_PAYLOAD_THRESHOLD_BYTES, 256 * 1024);
    assert_eq!(SCHEDULE_INTERVAL_MS, 200);
    assert_eq!(SCHEDULER_LEASE_MS, 5_000);
}

#[test]
fn overrides_of_the_command_line() {
    let o = serve_overrides(args(true), true);
    assert_eq!((o.config_path, o.listen, o.port), (Some("file"), 5, Some(80)));
    assert_eq!((o.data_dir, o.cluster), (Some("dir"), Some(false)));
    assert_eq!(o.database_url.as_deref(), Some("db"));
    assert_eq!(o.dispatch_fleet, Some(true));
    let o = serve_overrides(args(false), false);
    assert_eq!(o.database_url, None);
    assert_eq!(o.dispatch_fleet, None);
}

#[test]
fn database_is_for_the_cloud() {
    assert_eq!(serve_database_url(Some("db".to_string()), true).as_deref(), Some("db"));
    assert_eq!(serve_database_url(Some("db".to_string()), false), None);
    assert_eq!(serve_database_url(None, true), None);
}

#[test]
fn directory_for_data() {
    assert_eq!(serve_data_dir(Some(1), Some(2), 3), 1);
    assert_eq!(serve_data_dir(None, Some(2), 3), 2);
    assert_eq!(serve_data_dir(None, None, 3), 3);
}

#[test]
fn configuration_file() {
    assert_eq!(serve_config_path(Some(1), 2, true), Some(1));
    assert_eq!(serve_config_path(Some(1), 2, false), Some(1));
    assert_eq!(serve_config_path(None, 2, true), Some(2));
    assert_eq!(serve_config_path(None, 2, false), None);
}

#[test]
fn cluster_needs_settings() {
    assert_eq!(cluster_settings(Some(1), Some(2)), Ok(1));
    assert_eq!(cluster_settings(None, Some(2)), Ok(2));
    assert_eq!(
        cluster_settings::<u8>(None, None),
        Err("cluster mode requires saved infrastructure config — use Panel → Infrastructure"
            .to_string())
    );
}

#[test]
fn authentication() {
    assert_eq!(auth_store(AuthMode::Cloud, true), Ok(AuthStore::ControlPlane));
    assert_eq!(auth_store(AuthMode::Local, true), Ok(AuthStore::LocalTokens));
    assert_eq!(auth_store(AuthMode::Local, false), Ok(AuthStore::LocalTokens));
    assert_eq!(
        auth_store(AuthMode::Cloud, false),
        Err("auth.mode \"cloud\" is not supported in the self-host build (use auth.mode \"local\")"
            .to_string())
    );
}

#[test]
fn description_names_the_templates() {
    assert_eq!(
        config_description(true),
        "BetterMQ configuration. Run: bettermq config init --template <local|slate|cluster|cloud>"
    );
    assert_eq!(
        config_description(false),
        "BetterMQ configuration. Run: bettermq config init --template <local|slate|cluster>"
    );
}
