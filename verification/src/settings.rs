//! Configuration values the pipeline is started with.

use vstd::prelude::*;

verus! {

/// Location of the browser-automation driver binary and of the browser
/// executable it is to launch.
#[derive(Debug)]
pub struct Driver {
    pub driver_path: String,
    pub firefox_binary_path: String,
}

/// Recognized configuration: the driver locations plus an optional HTTP
/// proxy URL applied to both the browser session and the fetch client.
#[derive(Debug)]
pub struct Settings {
    pub driver: Driver,
    pub http_proxy: Option<String>,
}

/// The scheme prefix a proxy URL must carry before it can be handed to the
/// browser session, which expects the bare `host:port` part.
pub open spec fn http_scheme() -> Seq<char> {
    seq!['h', 't', 't', 'p', ':', '/', '/']
}

/// Strips a leading `http://` from a proxy URL, returning the bare
/// `host:port` remainder, or `None` when the URL does not start with that
/// scheme.
pub fn strip_http_prefix(s: &str) -> (r: Option<String>)
    ensures
        r is Some <==> s@.len() >= 7 && s@.subrange(0, 7) == http_scheme(),
        r matches Some(rest) ==> rest@ == s@.skip(7),
{
    let n = s.unicode_len();
    if n < 7 {
        return None;
    }
    if s.get_char(0) == 'h' && s.get_char(1) == 't' && s.get_char(2) == 't' && s.get_char(3)
        == 'p' && s.get_char(4) == ':' && s.get_char(5) == '/' && s.get_char(6) == '/' {
        proof {
            assert(s@.subrange(0, 7) =~= http_scheme());
        }
        let rest = s.substring_char(7, n);
        proof {
            assert(rest@ =~= s@.skip(7));
        }
        Some(rest.to_owned())
    } else {
        proof {
            let sub = s@.subrange(0, 7);
            assert(sub[0] == s@[0] && sub[1] == s@[1] && sub[2] == s@[2] && sub[3] == s@[3]
                && sub[4] == s@[4] && sub[5] == s@[5] && sub[6] == s@[6]);
        }
        None
    }
}

} // verus!
