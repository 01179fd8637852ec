//! The hosts whose videos are relayed, and how a link is matched to one.

use crate::text::{chars_of, occurs, occurs_at};
use vstd::prelude::*;

verus! {

/// A video host that is accepted as the source of a highlight.
#[derive(Clone, Copy, Debug, PartialEq, Eq, Structural)]
pub enum VideoHost {
    Streamable,
    Streamja,
    Streamff,
    Streamin,
    Dubz,
}

/// The link names no accepted video host.
#[derive(Clone, Copy, Debug, PartialEq, Eq, Structural)]
pub struct UnrecognizedHost;

/// The length of the scheme that `url` starts with, `https://` or `http://`,
/// or 0 where it starts with neither.
pub open spec fn scheme_len(url: Seq<char>) -> int {
    if occurs_at(url, "https://"@, 0) {
        "https://"@.len() as int
    } else if occurs_at(url, "http://"@, 0) {
        "http://"@.len() as int
    } else {
        0
    }
}

/// The position at which the host of `url` starts: behind the scheme, and
/// behind a `www.` that follows it.
pub open spec fn host_offset(url: Seq<char>) -> int {
    let k = scheme_len(url);
    if occurs_at(url, "www."@, k) {
        k + "www."@.len()
    } else {
        k
    }
}

impl VideoHost {
    /// The domain under which the host serves its videos.
    pub open spec fn domain(self) -> Seq<char> {
        match self {
            VideoHost::Streamable => "streamable.com"@,
            VideoHost::Streamja => "streamja.com"@,
            VideoHost::Streamff => "streamff.com"@,
            VideoHost::Streamin => "streamin.one"@,
            VideoHost::Dubz => "dubz.link"@,
        }
    }

    /// Whether `url` points to this host: its host part is the domain, which
    /// ends the link or is followed by `/`.
    pub open spec fn serves(self, url: Seq<char>) -> bool {
        let start = host_offset(url);
        let end = start + self.domain().len();
        &&& occurs_at(url, self.domain(), start)
        &&& (end == url.len() || url[end] == '/')
    }

    /// The host that `url` points to, if it is an accepted one.
    pub open spec fn of_url(url: Seq<char>) -> Option<VideoHost> {
        if VideoHost::Streamable.serves(url) {
            Some(VideoHost::Streamable)
        } else if VideoHost::Streamja.serves(url) {
            Some(VideoHost::Streamja)
        } else if VideoHost::Streamff.serves(url) {
            Some(VideoHost::Streamff)
        } else if VideoHost::Streamin.serves(url) {
            Some(VideoHost::Streamin)
        } else if VideoHost::Dubz.serves(url) {
            Some(VideoHost::Dubz)
        } else {
            None
        }
    }

    /// The domain under which the host serves its videos.
    pub fn domain_name(self) -> (name: &'static str)
        ensures
            name@ == self.domain(),
    {
        match self {
            VideoHost::Streamable => "streamable.com",
            VideoHost::Streamja => "streamja.com",
            VideoHost::Streamff => "streamff.com",
            VideoHost::Streamin => "streamin.one",
            VideoHost::Dubz => "dubz.link",
        }
    }

    /// Tests whether the link, given by its characters, points to this host.
    pub fn serves_url(self, url: &Vec<char>) -> (served: bool)
        ensures
            served == self.serves(url@),
    {
        let start = host_start(url);
        let domain = chars_of(self.domain_name());
        if !occurs(url, &domain, start) {
            return false;
        }
        let end: usize = start + domain.len();
        end == url.len() || url[end] == '/'
    }

    /// Matches a link to the accepted host that it points to. No request is
    /// made and no redirection is followed: only the text of the link counts.
    pub fn from_url(url: &str) -> (host: Result<VideoHost, UnrecognizedHost>)
        ensures
            match host {
                Ok(h) => VideoHost::of_url(url@) == Some(h),
                Err(_) => VideoHost::of_url(url@) is None,
            },
            forall|h: VideoHost| h.serves(url@) <==> host == Ok::<VideoHost, UnrecognizedHost>(h),
    {
        proof {
            assert forall|h: VideoHost| h.serves(url@) <==> VideoHost::of_url(url@) == Some(h) by {
                lemma_of_url_is_the_serving_host(url@, h);
            }
        }
        let chars = chars_of(url);
        if VideoHost::Streamable.serves_url(&chars) {
            Ok(VideoHost::Streamable)
        } else if VideoHost::Streamja.serves_url(&chars) {
            Ok(VideoHost::Streamja)
        } else if VideoHost::Streamff.serves_url(&chars) {
            Ok(VideoHost::Streamff)
        } else if VideoHost::Streamin.serves_url(&chars) {
            Ok(VideoHost::Streamin)
        } else if VideoHost::Dubz.serves_url(&chars) {
            Ok(VideoHost::Dubz)
        } else {
            Err(UnrecognizedHost)
        }
    }
}

/// A link points to one host at most.
pub proof fn lemma_one_host_at_most(url: Seq<char>, a: VideoHost, b: VideoHost)
    requires
        a.serves(url),
        b.serves(url),
    ensures
        a == b,
{
    reveal_strlit("streamable.com");
    reveal_strlit("streamja.com");
    reveal_strlit("streamff.com");
    reveal_strlit("streamin.one");
    reveal_strlit("dubz.link");
    let start = host_offset(url);
    let da = a.domain();
    let db = b.domain();
    let host_a = url.subrange(start, start + da.len());
    let host_b = url.subrange(start, start + db.len());
    assert(host_a == da && host_b == db);
    if da.len() < db.len() {
        assert(host_b[da.len() as int] == url[start + da.len()]);
    } else if db.len() < da.len() {
        assert(host_a[db.len() as int] == url[start + db.len()]);
    } else {
        assert(host_a[6] == host_b[6] && host_a[7] == host_b[7]);
    }
}

/// The host that a link is matched to is the one host that it points to.
pub proof fn lemma_of_url_is_the_serving_host(url: Seq<char>, host: VideoHost)
    ensures
        VideoHost::of_url(url) == Some(host) <==> host.serves(url),
        VideoHost::of_url(url) is None <==> forall|h: VideoHost| !h.serves(url),
{
    if host.serves(url) {
        match VideoHost::of_url(url) {
            Some(other) => {
                lemma_one_host_at_most(url, host, other);
            },
            None => {},
        }
    }
}

/// Finds where the host of a link starts.
fn host_start(url: &Vec<char>) -> (start: usize)
    ensures
        start == host_offset(url@),
        start <= url.len(),
{
    let https = chars_of("https://");
    let http = chars_of("http://");
    let www = chars_of("www.");
    let scheme: usize = if occurs(url, &https, 0) {
        https.len()
    } else if occurs(url, &http, 0) {
        http.len()
    } else {
        0
    };
    if occurs(url, &www, scheme) {
        assert(scheme + www.len() <= url.len());
        scheme + www.len()
    } else {
        scheme
    }
}

} // verus!
