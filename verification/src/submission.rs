//! Posts as they come from the feed.

use vstd::prelude::*;

verus! {

/// A post as the rules see it.
pub struct Post {
    pub id: Seq<char>,
    pub title: Seq<char>,
    pub url: Option<Seq<char>>,
    pub created_utc: u64,
}

/// A post of the feed: its identifier, its title, the link it carries, if
/// any, and the time of its creation in seconds since the Unix epoch.
#[derive(Debug, PartialEq, Eq)]
pub struct RedditSubmission {
    pub id: String,
    pub title: String,
    pub url: Option<String>,
    pub created_utc: u64,
}

impl View for RedditSubmission {
    type V = Post;

    open spec fn view(&self) -> Post {
        Post {
            id: self.id@,
            title: self.title@,
            url: match self.url {
                Some(u) => Some(u@),
                None => None,
            },
            created_utc: self.created_utc,
        }
    }
}

impl RedditSubmission {
    pub fn new(id: String, title: String, url: Option<String>, created_utc: u64) -> (post:
        RedditSubmission)
        ensures
            post.id == id,
            post.title == title,
            post.url == url,
            post.created_utc == created_utc,
    {
        RedditSubmission { id, title, url, created_utc }
    }
}

} // verus!
