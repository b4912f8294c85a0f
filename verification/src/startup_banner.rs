//! The banner that is shown on a terminal when the server starts.

use crate::text::{
    cut_last, decimal, decimal_text, joined, lemma_cut_before_port, rsplit_once, same_text,
    starts_with, trim, trim_back, trim_brackets, trim_front, CharClass,
};
use vstd::prelude::*;

verus! {

/// What the banner shows.
#[derive(Debug)]
pub struct BannerSettings {
    /// The address that the server listens on.
    pub listen: String,
    /// The directory for data.
    pub data_dir: String,
    /// How messages are stored.
    pub storage: String,
    /// Whether the server runs as a cluster.
    pub cluster_enabled: bool,
}

/// The number of lines of the logo.
pub const LOGO_LINES: usize = 5;

/// A line of the logo.
pub open spec fn logo_text(i: int) -> Seq<char> {
    if i == 0 {
        "    __         __  __            __  _______ "@
    } else if i == 1 {
        "   / /_  ___  / /_/ /____  _____/  |/  / __ \\"@
    } else if i == 2 {
        "  / __ \\/ _ \\/ __/ __/ _ \\/ ___/ /|_/ / / / /"@
    } else if i == 3 {
        " / /_/ /  __/ /_/ /_/  __/ /  / /  / / /_/ / "@
    } else {
        "/_.___/\\___/\\__\\/\\__\\/\\___/_/  /_/  /_\\/\\___\\_\\ "@
    }
}

/// A line of the logo.
fn logo_line(i: usize) -> (res: &'static str)
    ensures
        res@ == logo_text(i as int),
{
    match i {
        0 => "    __         __  __            __  _______ ",
        1 => "   / /_  ___  / /_/ /____  _____/  |/  / __ \\",
        2 => "  / __ \\/ _ \\/ __/ __/ _ \\/ ___/ /|_/ / / / /",
        3 => " / /_/ /  __/ /_/ /_/  __/ /  / /  / / /_/ / ",
        _ => "/_.___/\\___/\\__\\/\\__\\/\\___/_/  /_/  /_\\/\\___\\_\\ ",
    }
}

/// A colour channel that goes from `first` to `last` over the lines of the logo, rounded down.
pub open spec fn shade(first: int, last: int, i: int) -> nat {
    (first + (last - first) * i / (LOGO_LINES - 1)) as nat
}

/// A colour channel that goes from `first` to `last` over the lines of the logo.
fn shade_at(first: u64, last: u64, i: usize) -> (res: u64)
    requires
        first <= last <= 255,
        i < LOGO_LINES,
    ensures
        res == shade(first as int, last as int, i as int),
        first <= res <= last,
{
    let span: u64 = last - first;
    let at: u64 = i as u64;
    assert(span * at <= span * 4 && span * at >= 0) by (nonlinear_arith)
        requires
            at <= 4,
            span <= 255,
    ;
    first + span * at / 4
}

/// A line of the logo in its colour.
pub open spec fn coloured_line(i: int) -> Seq<char> {
    "\x1b[38;2;"@ + decimal(shade(31, 100, i)) + ";"@ + decimal(shade(71, 145, i)) + ";"@ + decimal(
        shade(200, 255, i),
    ) + "m"@ + logo_text(i) + "\x1b[0m"@
}

/// The content of each of a list of lines.
pub open spec fn lines_of(lines: Seq<String>) -> Seq<Seq<char>> {
    lines.map_values(|line: String| line@)
}

/// Adds the lines of the logo, in colours that go from dark to light.
pub fn print_logo(out: &mut Vec<String>)
    ensures
        lines_of(final(out)@) == lines_of(old(out)@) + Seq::new(
            LOGO_LINES as nat,
            |i: int| coloured_line(i),
        ),
{
    let ghost before = lines_of(out@);
    let mut i: usize = 0;
    while i < LOGO_LINES
        invariant
            i <= LOGO_LINES,
            lines_of(out@) == before + Seq::new(i as nat, |k: int| coloured_line(k)),
        decreases LOGO_LINES - i,
    {
        let mut line: String = joined("\x1b[38;2;", decimal_text(shade_at(31, 100, i)).as_str());
        line.append(";");
        line.append(decimal_text(shade_at(71, 145, i)).as_str());
        line.append(";");
        line.append(decimal_text(shade_at(200, 255, i)).as_str());
        line.append("m");
        line.append(logo_line(i));
        line.append("\x1b[0m");
        let ghost lines = out@;
        proof {
            assert(line@ == coloured_line(i as int));
        }
        out.push(line);
        proof {
            assert(lines_of(out@) =~= lines_of(lines).push(line@));
            assert(lines_of(out@) =~= before + Seq::new((i + 1) as nat, |k: int| coloured_line(k)));
        }
        i = i + 1;
    }
}

/// The host and the port of an address to listen on. The port follows the last colon; brackets
/// round the host are dropped. Without a colon the whole is the host, and the port is 8080.
pub open spec fn host_and_port(listen: Seq<char>) -> (Seq<char>, Seq<char>) {
    match cut_last(listen, ':') {
        Some((host, port)) => (trim(host, CharClass::Bracket), port),
        None => (listen, "8080"@),
    }
}

/// The host by which a server that listens on `host` is reached from its own machine: a wildcard
/// is replaced by the loopback address, and an IPv4 address that is written as IPv6 by itself.
pub open spec fn reachable_host(host: Seq<char>) -> Seq<char> {
    if host == "0.0.0.0"@ || host == "::"@ || host == ""@ {
        "127.0.0.1"@
    } else if "::ffff:"@.is_prefix_of(host) {
        host.skip(7)
    } else {
        host
    }
}

/// The URL by which a server that listens on `listen` is reached from its own machine.
pub open spec fn base_url(listen: Seq<char>) -> Seq<char> {
    "http://"@ + reachable_host(host_and_port(listen).0) + ":"@ + host_and_port(listen).1
}

/// The URL by which a server that listens on `listen` is reached from its own machine.
pub fn public_base_url(listen: &str) -> (res: String)
    ensures
        res@ == base_url(listen@),
{
    let (host, port): (&str, &str) = match rsplit_once(listen, ':') {
        Some((h, p)) => (trim_brackets(h), p),
        None => (listen, "8080"),
    };
    let host: &str = if same_text(host, "0.0.0.0") || same_text(host, "::") || same_text(
        host,
        "",
    ) {
        "127.0.0.1"
    } else if starts_with(host, "::ffff:") {
        proof {
            reveal_strlit("::ffff:");
            assert(host@.subrange(7, host@.len() as int) =~= host@.skip(7));
        }
        host.substring_char(7, host.unicode_len())
    } else {
        host
    };
    let mut res: String = joined("http://", host);
    res.append(":");
    res.append(port);
    res
}

/// The lines of the banner.
pub open spec fn banner_lines(settings: BannerSettings) -> Seq<Seq<char>> {
    let base = base_url(settings.listen@);
    let cluster = if settings.cluster_enabled {
        "on"@
    } else {
        "off"@
    };
    let empty = Seq::<char>::empty();
    seq![empty] + Seq::new(LOGO_LINES as nat, |i: int| coloured_line(i)) + seq![
        empty,
        "\x1b[2m\x1b[1m     Http Messaging & Scheduling\x1b[0m"@,
        empty,
        "  \x1b[32m●\x1b[0m \x1b[1mRUNNING\x1b[0m"@,
        empty,
        "  \x1b[2mAPI\x1b[0m      "@ + base,
        "  \x1b[2mPanel\x1b[0m    "@ + base + "/panel/"@,
        "  \x1b[2mDocs\x1b[0m     "@ + base + "/docs"@,
        "  \x1b[2mData\x1b[0m     "@ + settings.data_dir@,
        "  \x1b[2mStorage\x1b[0m  "@ + settings.storage@ + "  ·  \x1b[2mcluster\x1b[0m "@ + cluster,
        empty,
        "\x1b[2m────────────────────────────────────────\x1b[0m"@,
        empty,
    ]
}

/// Adds a line.
fn add_line(out: &mut Vec<String>, line: String)
    ensures
        lines_of(final(out)@) == lines_of(old(out)@).push(line@),
{
    let ghost before = out@;
    out.push(line);
    proof {
        assert(lines_of(out@) =~= lines_of(before).push(line@));
    }
}

/// The lines of the banner.
pub fn print(settings: &BannerSettings) -> (res: Vec<String>)
    ensures
        lines_of(res@) == banner_lines(*settings),
{
    let base: String = public_base_url(settings.listen.as_str());
    let panel: String = joined(base.as_str(), "/panel/");
    let docs: String = joined(base.as_str(), "/docs");
    let cluster: &str = if settings.cluster_enabled {
        "on"
    } else {
        "off"
    };
    let mut out: Vec<String> = Vec::new();
    add_line(&mut out, String::new());
    print_logo(&mut out);
    add_line(&mut out, String::new());
    add_line(&mut out, "\x1b[2m\x1b[1m     Http Messaging & Scheduling\x1b[0m".to_owned());
    add_line(&mut out, String::new());
    add_line(&mut out, "  \x1b[32m●\x1b[0m \x1b[1mRUNNING\x1b[0m".to_owned());
    add_line(&mut out, String::new());
    add_line(&mut out, joined("  \x1b[2mAPI\x1b[0m      ", base.as_str()));
    add_line(&mut out, joined("  \x1b[2mPanel\x1b[0m    ", panel.as_str()));
    add_line(&mut out, joined("  \x1b[2mDocs\x1b[0m     ", docs.as_str()));
    add_line(&mut out, joined("  \x1b[2mData\x1b[0m     ", settings.data_dir.as_str()));
    let mut storage: String = joined("  \x1b[2mStorage\x1b[0m  ", settings.storage.as_str());
    storage.append("  ·  \x1b[2mcluster\x1b[0m ");
    storage.append(cluster);
    add_line(&mut out, storage);
    add_line(&mut out, String::new());
    add_line(
        &mut out,
        "\x1b[2m────────────────────────────────────────\x1b[0m".to_owned(),
    );
    add_line(&mut out, String::new());
    proof {
        let start = "  \x1b[2mPanel\x1b[0m    "@;
        assert(start + panel@ =~= start + base@ + "/panel/"@);
        let start = "  \x1b[2mDocs\x1b[0m     "@;
        assert(start + docs@ =~= start + base@ + "/docs"@);
        assert(lines_of(out@) =~= banner_lines(*settings));
    }
    out
}

/// A server that listens on every interface is reached through the loopback address, on its port.
pub proof fn law_wildcard_becomes_loopback(port: Seq<char>)
    requires
        forall|i: int| 0 <= i < port.len() ==> port[i] != ':',
    ensures
        base_url("0.0.0.0"@ + ":"@ + port) == "http://"@ + "127.0.0.1"@ + ":"@ + port,
        base_url("[::]"@ + ":"@ + port) == "http://"@ + "127.0.0.1"@ + ":"@ + port,
        base_url(":"@ + port) == "http://"@ + "127.0.0.1"@ + ":"@ + port,
{
    reveal_strlit("0.0.0.0");
    reveal_strlit("[::]");
    reveal_strlit("::");
    reveal_strlit("");
    reveal_with_fuel(trim_front, 3);
    reveal_with_fuel(trim_back, 3);
    lemma_cut_before_port("0.0.0.0"@, port);
    lemma_cut_before_port("[::]"@, port);
    lemma_cut_before_port(""@, port);
    assert(""@ + ":"@ + port =~= ":"@ + port);
    assert(trim("0.0.0.0"@, CharClass::Bracket) =~= "0.0.0.0"@);
    let v6 = "[::]"@;
    assert(v6.skip(1).drop_last() =~= "::"@);
    assert(trim_front(v6, CharClass::Bracket) =~= v6.skip(1));
    assert(trim_back(v6.skip(1), CharClass::Bracket) =~= "::"@);
}

/// A server that listens on one address is reached through that address, on its port, unless the
/// address is a wildcard, is written in brackets, or is an IPv4 address that is written as IPv6.
pub proof fn law_other_hosts_are_kept(host: Seq<char>, port: Seq<char>)
    requires
        forall|i: int| 0 <= i < port.len() ==> port[i] != ':',
        trim(host, CharClass::Bracket) == host,
        reachable_host(host) == host,
    ensures
        base_url(host + ":"@ + port) == "http://"@ + host + ":"@ + port,
{
    lemma_cut_before_port(host, port);
}

} // verus!
