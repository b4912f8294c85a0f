//! Laws on the banner.

use crate::startup_banner::{
    coloured_line, lines_of, print, print_logo, public_base_url, BannerSettings,
};
use crate::text::{rsplit_once, trim_brackets};
use vstd::prelude::*;

verus! {

/// A server is reached at the port that follows the last colon of its address, by the host before
/// it, without brackets.
pub proof fn law_address_with_a_port(
    listen: &str,
    res: String,
    before: &str,
    port: &str,
    host: &str,
)
    requires
        call_ensures(public_base_url, (listen,), res),
        call_ensures(rsplit_once, (listen, ':'), Some((before, port))),
        call_ensures(trim_brackets, (before,), host),
    ensures
        host@ == "0.0.0.0"@ || host@ == "::"@ || host@ == ""@ ==> res@ == "http://127.0.0.1:"@
            + port@,
        host@ != "0.0.0.0"@ && host@ != "::"@ && host@ != ""@ && !"::ffff:"@.is_prefix_of(host@)
            ==> res@ == "http://"@ + host@ + ":"@ + port@,
        forall|v4: Seq<char>| #[trigger]
            ("::ffff:"@ + v4) == host@ ==> res@ == "http://"@ + v4 + ":"@ + port@,
{
    lemma_url_texts(host@);
}

/// A server whose address has no colon is reached at the port 8080, by the whole of it.
pub proof fn law_address_without_a_port(listen: &str, res: String)
    requires
        call_ensures(public_base_url, (listen,), res),
        call_ensures(rsplit_once, (listen, ':'), None),
    ensures
        listen@ == "0.0.0.0"@ || listen@ == ""@ ==> res@ == "http://127.0.0.1:8080"@,
        listen@ != "0.0.0.0"@ && listen@ != "::"@ && listen@ != ""@ && !"::ffff:"@.is_prefix_of(
            listen@,
        ) ==> res@ == "http://"@ + listen@ + ":8080"@,
{
    lemma_url_texts(listen@);
    let start = "http://"@ + listen@;
    assert(start + ":"@ + "8080"@ =~= start + ":8080"@);
}

proof fn lemma_url_texts(host: Seq<char>)
    ensures
        "http://"@ + "127.0.0.1"@ + ":"@ == "http://127.0.0.1:"@,
        "http://127.0.0.1:"@ + "8080"@ == "http://127.0.0.1:8080"@,
        ":"@ + "8080"@ == ":8080"@,
        forall|v4: Seq<char>| #[trigger]
            ("::ffff:"@ + v4) == host ==> "::ffff:"@.is_prefix_of(host) && host.skip(7) == v4 && host
                != "0.0.0.0"@ && host != "::"@ && host != ""@,
{
    reveal_strlit("http://");
    reveal_strlit("127.0.0.1");
    reveal_strlit(":");
    reveal_strlit("http://127.0.0.1:");
    reveal_strlit("8080");
    reveal_strlit(":8080");
    reveal_strlit("http://127.0.0.1:8080");
    reveal_strlit("::ffff:");
    reveal_strlit("0.0.0.0");
    reveal_strlit("::");
    reveal_strlit("");
    assert("http://"@ + "127.0.0.1"@ + ":"@ =~= "http://127.0.0.1:"@);
    assert("http://127.0.0.1:"@ + "8080"@ =~= "http://127.0.0.1:8080"@);
    assert(":"@ + "8080"@ =~= ":8080"@);
    assert forall|v4: Seq<char>| #[trigger] ("::ffff:"@ + v4) == host implies "::ffff:"@.is_prefix_of(
        host,
    ) && host.skip(7) == v4 && host != "0.0.0.0"@ && host != "::"@ && host != ""@ by {
        assert(host.skip(7) =~= v4);
        assert(host[2] == 'f');
        assert("0.0.0.0"@[2] == '0');
        assert(host.len() >= 7);
    }
}

/// The logo is five lines, added after those that are there, whatever they are.
pub proof fn law_logo_is_added(
    out: &mut Vec<String>,
    other: &mut Vec<String>,
    i: int,
)
    requires
        call_ensures(print_logo, (out,), ()),
        call_ensures(print_logo, (other,), ()),
    ensures
        final(out)@.len() == old(out)@.len() + 5,
        0 <= i < old(out)@.len() ==> final(out)@[i]@ == old(out)@[i]@,
        0 <= i < 5 ==> final(out)@[old(out)@.len() + i]@ == final(other)@[old(other)@.len() + i]@,
{
    let after = lines_of(final(out)@);
    assert(after.len() == final(out)@.len());
    assert(lines_of(final(other)@).len() == final(other)@.len());
    if 0 <= i < old(out)@.len() {
        assert(after[i] == lines_of(old(out)@)[i]);
    }
    if 0 <= i < 5 {
        assert(after[old(out)@.len() + i] == coloured_line(i));
        assert(lines_of(final(other)@)[old(other)@.len() + i] == coloured_line(i));
    }
}

/// The banner shows the logo, and then where the server is reached, where it keeps its data and how,
/// and whether it runs as a cluster.
pub proof fn law_banner_shows_the_settings(
    settings: BannerSettings,
    res: Vec<String>,
    listen: &str,
    base: String,
    logo: &mut Vec<String>,
    i: int,
)
    requires
        call_ensures(print, (&settings,), res),
        listen@ == settings.listen@,
        call_ensures(public_base_url, (listen,), base),
        call_ensures(print_logo, (logo,), ()),
    ensures
        res@.len() == 19,
        0 <= i < 5 ==> res@[1 + i]@ == final(logo)@[old(logo)@.len() + i]@,
        i == 0 || i == 6 || i == 8 || i == 10 || i == 16 || i == 18 ==> res@[i]@.len() == 0,
        res@[7]@ == "\x1b[2m\x1b[1m     Http Messaging & Scheduling\x1b[0m"@,
        res@[9]@ == "  \x1b[32m●\x1b[0m \x1b[1mRUNNING\x1b[0m"@,
        res@[11]@ == "  \x1b[2mAPI\x1b[0m      "@ + base@,
        res@[12]@ == "  \x1b[2mPanel\x1b[0m    "@ + base@ + "/panel/"@,
        res@[13]@ == "  \x1b[2mDocs\x1b[0m     "@ + base@ + "/docs"@,
        res@[14]@ == "  \x1b[2mData\x1b[0m     "@ + settings.data_dir@,
        settings.cluster_enabled ==> res@[15]@ == "  \x1b[2mStorage\x1b[0m  "@ + settings.storage@
            + "  ·  \x1b[2mcluster\x1b[0m "@ + "on"@,
        !settings.cluster_enabled ==> res@[15]@ == "  \x1b[2mStorage\x1b[0m  "@ + settings.storage@
            + "  ·  \x1b[2mcluster\x1b[0m "@ + "off"@,
        res@[17]@ == "\x1b[2m────────────────────────────────────────\x1b[0m"@,
{
    let lines = lines_of(res@);
    assert(lines.len() == res@.len());
    assert forall|k: int| 0 <= k < res@.len() implies #[trigger] res@[k]@ == lines[k] by {}
    assert(lines_of(final(logo)@).len() == final(logo)@.len());
    if 0 <= i < 5 {
        assert(lines_of(final(logo)@)[old(logo)@.len() + i] == coloured_line(i));
        assert(lines[1 + i] == coloured_line(i));
    }
}

} // verus!
