use bettermq::startup_banner::{print, print_logo, public_base_url, BannerSettings};

#[test]
fn maps_wildcard_bind_to_localhost() {
    assert_eq!(public_base_url("0.0.0.0:8080"), "http://127.0.0.1:8080");
    assert_eq!(public_base_url("127.0.0.1:9090"), "http://127.0.0.1:9090");
}

#[test]
fn ipv6_addresses_are_unwrapped() {
    assert_eq!(public_base_url("[::]:8080"), "http://127.0.0.1:8080");
    assert_eq!(public_base_url(":8080"), "http://127.0.0.1:8080");
    assert_eq!(public_base_url("[::ffff:10.0.0.7]:81"), "http://10.0.0.7:81");
    assert_eq!(public_base_url("[fe80::1]:81"), "http://fe80::1:81");
}

#[test]
fn address_without_port_gets_the_default_one() {
    assert_eq!(public_base_url("example"), "http://example:8080");
    assert_eq!(public_base_url(""), "http://127.0.0.1:8080");
}

#[test]
fn logo_goes_from_dark_to_light() {
    let mut out = vec!["first".to_string()];
    print_logo(&mut out);
    assert_eq!(out.len(), 6);
    assert_eq!(out[0], "first");
    assert_eq!(
        out[1],
        "\x1b[38;2;31;71;200m    __         __  __            __  _______ \x1b[0m"
    );
    let logo = [
        "    __         __  __            __  _______ ",
        "   / /_  ___  / /_/ /____  _____/  |/  / __ \\",
        "  / __ \\/ _ \\/ __/ __/ _ \\/ ___/ /|_/ / / / /",
        " / /_/ /  __/ /_/ /_/  __/ /  / /  / / /_/ / ",
        "/_.___/\\___/\\__\\/\\__\\/\\___/_/  /_/  /_\\/\\___\\_\\ ",
    ];
    for (i, line) in logo.iter().enumerate() {
        let t = i as f32 / 4.0;
        let r = (31.0 + (100.0 - 31.0) * t) as u8;
        let g = (71.0 + (145.0 - 71.0) * t) as u8;
        let b = (200.0 + (255.0 - 200.0) * t) as u8;
        assert_eq!(out[i + 1], format!("\x1b[38;2;{r};{g};{b}m{line}\x1b[0m"));
    }
}

#[test]
fn banner_shows_urls_and_settings() {
    let lines = print(&BannerSettings {
        listen: "0.0.0.0:7000".to_string(),
        data_dir: "/var/lib/mq".to_string(),
        storage: "Local".to_string(),
        cluster_enabled: true,
    });
    assert_eq!(lines.len(), 19);
    assert_eq!(lines[0], "");
    assert_eq!(lines[6], "");
    assert_eq!(lines[7], "\x1b[2m\x1b[1m     Http Messaging & Scheduling\x1b[0m");
    assert_eq!(lines[9], "  \x1b[32m●\x1b[0m \x1b[1mRUNNING\x1b[0m");
    assert_eq!(lines[11], "  \x1b[2mAPI\x1b[0m      http://127.0.0.1:7000");
    assert_eq!(lines[12], "  \x1b[2mPanel\x1b[0m    http://127.0.0.1:7000/panel/");
    assert_eq!(lines[13], "  \x1b[2mDocs\x1b[0m     http://127.0.0.1:7000/docs");
    assert_eq!(lines[14], "  \x1b[2mData\x1b[0m     /var/lib/mq");
    assert_eq!(
        lines[15],
        "  \x1b[2mStorage\x1b[0m  Local  ·  \x1b[2mcluster\x1b[0m on"
    );
    assert_eq!(lines[18], "");
}
