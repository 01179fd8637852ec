//! The rules that decide whether a post is a goal highlight of a competition.

use crate::competition::{names_two_teams, Competition, Profile};
use crate::submission::{Post, RedditSubmission};
use crate::text::{chars_of, has_char, lowercase_of, split_whitespace, tokens, views};
use crate::videohost::VideoHost;
use vstd::prelude::*;

verus! {

/// The rule that turned a post down.
#[derive(Clone, Copy, Debug, PartialEq, Eq, Structural)]
pub enum Rejection {
    /// The lower-cased title does not name two different teams of the competition.
    NoTeamPair,
    /// No word of the title holds a hyphen.
    NoScoreSeparator,
    /// A word of the title marks a youth fixture.
    YouthFixture,
    /// A word of the title marks a women's fixture.
    WomensFixture,
    /// The post carries no link.
    MissingUrl,
    /// The link points to no accepted video host.
    UnrecognizedHost,
    /// The post is older than the freshness rule allows.
    Stale,
}

/// The age in seconds up to which a post counts as fresh where the freshness
/// rule is switched on with its usual limit.
pub const MAX_AGE_SECS: u64 = 600;

/// The freshness rule: switched off, or switched on with the age in seconds
/// beyond which a post is turned down.
#[derive(Clone, Copy, Debug, PartialEq, Eq, Structural)]
pub enum Freshness {
    Off,
    MaxAge { secs: u64 },
}

/// The lower-case form of an ASCII capital, and any other character unchanged.
pub open spec fn ascii_lower(c: char) -> char {
    if 0x41 <= c as u32 <= 0x5A {
        ((c as u32) + 32) as char
    } else {
        c
    }
}

/// The markers of the age groups from under 7 to under 21.
pub open spec fn youth_markers() -> Seq<Seq<char>> {
    seq![
        seq!['u', '7'],
        seq!['u', '8'],
        seq!['u', '9'],
        seq!['u', '1', '0'],
        seq!['u', '1', '1'],
        seq!['u', '1', '2'],
        seq!['u', '1', '3'],
        seq!['u', '1', '4'],
        seq!['u', '1', '5'],
        seq!['u', '1', '6'],
        seq!['u', '1', '7'],
        seq!['u', '1', '8'],
        seq!['u', '1', '9'],
        seq!['u', '2', '0'],
        seq!['u', '2', '1'],
    ]
}

/// Whether `word` holds a hyphen.
pub open spec fn is_score_separator(word: Seq<char>) -> bool {
    word.contains('-')
}

/// Whether `word` lower-cases to a youth marker. Only `U` lower-cases to `u`
/// and a digit has no case, so only the ASCII capitals need to be folded.
pub open spec fn is_youth_marker(word: Seq<char>) -> bool {
    youth_markers().contains(word.map_values(|c: char| ascii_lower(c)))
}

/// Whether `word` lower-cases to `w`, as `w` and `W` do and no other word.
pub open spec fn is_womens_marker(word: Seq<char>) -> bool {
    word.map_values(|c: char| ascii_lower(c)) == seq!['w']
}

/// Whether a word of `title` holds a hyphen.
pub open spec fn has_score_separator(title: Seq<char>) -> bool {
    exists|k: int| 0 <= k < tokens(title).len() && is_score_separator(#[trigger] tokens(title)[k])
}

/// Whether a word of `title` marks a youth fixture.
pub open spec fn has_youth_marker(title: Seq<char>) -> bool {
    exists|k: int| 0 <= k < tokens(title).len() && is_youth_marker(#[trigger] tokens(title)[k])
}

/// Whether a word of `title` marks a women's fixture.
pub open spec fn has_womens_marker(title: Seq<char>) -> bool {
    exists|k: int| 0 <= k < tokens(title).len() && is_womens_marker(#[trigger] tokens(title)[k])
}

/// What the rules make of a post for a competition, given the lower-case form
/// of its title: the host of its video, or the first rule that it fails.
pub open spec fn verdict(lower_title: Seq<char>, post: Post, profile: Profile) -> Result<
    VideoHost,
    Rejection,
> {
    if !names_two_teams(lower_title, profile.teams) {
        Err(Rejection::NoTeamPair)
    } else if !has_score_separator(post.title) {
        Err(Rejection::NoScoreSeparator)
    } else if has_youth_marker(post.title) {
        Err(Rejection::YouthFixture)
    } else if has_womens_marker(post.title) {
        Err(Rejection::WomensFixture)
    } else {
        match post.url {
            None => Err(Rejection::MissingUrl),
            Some(url) => match VideoHost::of_url(url) {
                Some(host) => Ok(host),
                None => Err(Rejection::UnrecognizedHost),
            },
        }
    }
}

/// Whether a post created at `created_utc` is older than `max_age_secs` at
/// the time `now_secs`, both times in seconds since the Unix epoch.
pub open spec fn is_stale(created_utc: u64, now_secs: i64, max_age_secs: u64) -> bool {
    now_secs - created_utc > max_age_secs
}

/// What the rules make of a post at the time `now_secs` where the freshness
/// rule is added to them as the last one.
pub open spec fn verdict_at(
    lower_title: Seq<char>,
    post: Post,
    profile: Profile,
    freshness: Freshness,
    now_secs: i64,
) -> Result<VideoHost, Rejection> {
    match (verdict(lower_title, post, profile), freshness) {
        (Ok(host), Freshness::MaxAge { secs }) => if is_stale(post.created_utc, now_secs, secs) {
            Err(Rejection::Stale)
        } else {
            Ok(host)
        },
        (outcome, _) => outcome,
    }
}

/// Whether a post is a goal highlight of a competition.
pub open spec fn qualifies(post: Post, profile: Profile) -> bool {
    verdict(lowercase_of(post.title), post, profile) is Ok
}

/// Which characters lower-case to `u` and to `w`; a digit comes from itself alone.
pub proof fn lemma_ascii_lower_of(c: char)
    ensures
        ascii_lower(c) == 'u' <==> c == 'u' || c == 'U',
        ascii_lower(c) == 'w' <==> c == 'w' || c == 'W',
        0x30 <= ascii_lower(c) as u32 <= 0x39 ==> ascii_lower(c) == c,
        0x30 <= c as u32 <= 0x39 ==> ascii_lower(c) == c,
{
    if 0x41 <= c as u32 <= 0x5A {
        assert(ascii_lower(c) as u32 == c as u32 + 32);
    }
}

/// Tests whether a word marks a youth fixture.
pub fn word_is_youth_marker(word: &Vec<char>) -> (marked: bool)
    ensures
        marked == is_youth_marker(word@),
{
    let ghost lowered = word@.map_values(|c: char| ascii_lower(c));
    assert(lowered.len() == word@.len());
    let n = word.len();
    if n != 2 && n != 3 {
        assert forall|k: int| 0 <= k < youth_markers().len() implies youth_markers()[k]
            != lowered by {
            assert(youth_markers()[k].len() == 2 || youth_markers()[k].len() == 3);
        }
        return false;
    }
    let u = word[0];
    let a = word[1];
    assert(lowered[0] == ascii_lower(u) && lowered[1] == ascii_lower(a));
    proof {
        lemma_ascii_lower_of(u);
        lemma_ascii_lower_of(a);
    }
    if u != 'u' && u != 'U' {
        assert forall|k: int| 0 <= k < youth_markers().len() implies youth_markers()[k]
            != lowered by {
            assert(youth_markers()[k][0] == 'u');
        }
        return false;
    }
    if n == 2 {
        if a == '7' || a == '8' || a == '9' {
            let ghost k = (a as u32 - 0x37) as int;
            assert(youth_markers()[k] =~= lowered);
            true
        } else {
            assert forall|k: int| 0 <= k < youth_markers().len() implies youth_markers()[k]
                != lowered by {
                if youth_markers()[k].len() == 2 {
                    assert(youth_markers()[k][1] != ascii_lower(a));
                }
            }
            false
        }
    } else {
        let b = word[2];
        assert(lowered[2] == ascii_lower(b));
        proof {
            lemma_ascii_lower_of(b);
        }
        if a == '1' && ('0' <= b && b <= '9') {
            let ghost k = 3 + (b as u32 - 0x30) as int;
            assert(youth_markers()[k] =~= lowered);
            true
        } else if a == '2' && (b == '0' || b == '1') {
            let ghost k = 13 + (b as u32 - 0x30) as int;
            assert(youth_markers()[k] =~= lowered);
            true
        } else {
            assert forall|k: int| 0 <= k < youth_markers().len() implies youth_markers()[k]
                != lowered by {
                if youth_markers()[k].len() == 3 {
                    assert(youth_markers()[k][1] != ascii_lower(a) || youth_markers()[k][2]
                        != ascii_lower(b));
                }
            }
            false
        }
    }
}

/// Tests whether a word marks a women's fixture.
pub fn word_is_womens_marker(word: &Vec<char>) -> (marked: bool)
    ensures
        marked == is_womens_marker(word@),
{
    let ghost lowered = word@.map_values(|c: char| ascii_lower(c));
    assert(lowered.len() == word@.len());
    assert(seq!['w'].len() == 1 && seq!['w'][0] == 'w');
    if word.len() != 1 {
        return false;
    }
    let c = word[0];
    assert(lowered[0] == ascii_lower(c));
    proof {
        lemma_ascii_lower_of(c);
    }
    if c == 'w' || c == 'W' {
        assert(lowered =~= seq!['w']);
        true
    } else {
        assert(lowered[0] != 'w');
        false
    }
}

/// What the words of a title say about the fixture.
#[derive(Clone, Copy, Debug, PartialEq, Eq, Structural)]
pub struct TitleMarks {
    /// A word holds a hyphen.
    pub separator: bool,
    /// A word marks a youth fixture.
    pub youth: bool,
    /// A word marks a women's fixture.
    pub womens: bool,
}

/// Splits a title at its whitespace and looks for the marks in its words.
pub fn scan_title(title: &str) -> (marks: TitleMarks)
    ensures
        marks.separator == has_score_separator(title@),
        marks.youth == has_youth_marker(title@),
        marks.womens == has_womens_marker(title@),
{
    let chars = chars_of(title);
    let words = split_whitespace(&chars);
    let ghost toks = tokens(title@);
    let mut marks = TitleMarks { separator: false, youth: false, womens: false };
    let mut i: usize = 0;
    while i < words.len()
        invariant
            i <= words.len(),
            toks == tokens(title@),
            views(words@) == toks,
            marks.separator == exists|k: int| 0 <= k < i && is_score_separator(#[trigger] toks[k]),
            marks.youth == exists|k: int| 0 <= k < i && is_youth_marker(#[trigger] toks[k]),
            marks.womens == exists|k: int| 0 <= k < i && is_womens_marker(#[trigger] toks[k]),
        decreases words.len() - i,
    {
        assert(toks[i as int] == words@[i as int]@);
        let separator = has_char(&words[i], '-');
        let youth = word_is_youth_marker(&words[i]);
        let womens = word_is_womens_marker(&words[i]);
        marks = TitleMarks {
            separator: marks.separator || separator,
            youth: marks.youth || youth,
            womens: marks.womens || womens,
        };
        i += 1;
    }
    marks
}

/// Applies the rules to a post whose title is also given in lower case, and
/// names the host of its video or the first rule that it fails.
pub fn evaluate_lowered(
    lower_title: &str,
    submission: &RedditSubmission,
    competition: &Competition,
) -> (outcome: Result<VideoHost, Rejection>)
    ensures
        outcome == verdict(lower_title@, submission@, competition@),
{
    if !competition.lowered_title_names_two_teams(lower_title) {
        return Err(Rejection::NoTeamPair);
    }
    let marks = scan_title(submission.title.as_str());
    if !marks.separator {
        return Err(Rejection::NoScoreSeparator);
    }
    if marks.youth {
        return Err(Rejection::YouthFixture);
    }
    if marks.womens {
        return Err(Rejection::WomensFixture);
    }
    match &submission.url {
        None => Err(Rejection::MissingUrl),
        Some(url) => match VideoHost::from_url(url.as_str()) {
            Ok(host) => Ok(host),
            Err(_) => Err(Rejection::UnrecognizedHost),
        },
    }
}

/// Applies the rules to a post for a competition, and names the host of its
/// video or the first rule that it fails.
pub fn evaluate(submission: &RedditSubmission, competition: &Competition) -> (outcome: Result<
    VideoHost,
    Rejection,
>)
    ensures
        outcome == verdict(lowercase_of(submission@.title), submission@, competition@),
{
    let lower_title = submission.title.as_str().to_lowercase();
    evaluate_lowered(lower_title.as_str(), submission, competition)
}

/// Applies the rules to a post as `evaluate` does and, where the freshness
/// rule is switched on, turns down a post that has passed them all but is
/// too old at the time `now_secs`, in seconds since the Unix epoch.
pub fn evaluate_at(
    submission: &RedditSubmission,
    competition: &Competition,
    freshness: Freshness,
    now_secs: i64,
) -> (outcome: Result<VideoHost, Rejection>)
    ensures
        outcome == verdict_at(
            lowercase_of(submission@.title),
            submission@,
            competition@,
            freshness,
            now_secs,
        ),
        freshness == Freshness::Off ==> outcome == verdict(
            lowercase_of(submission@.title),
            submission@,
            competition@,
        ),
{
    let outcome = evaluate(submission, competition);
    match (outcome, freshness) {
        (Ok(host), Freshness::MaxAge { secs }) => {
            let age: i128 = now_secs as i128 - submission.created_utc as i128;
            if age > secs as i128 {
                Err(Rejection::Stale)
            } else {
                Ok(host)
            }
        },
        (outcome, _) => outcome,
    }
}

/// Returns true if the submission counts as a goal video for the specified
/// competition. The answer depends on the post and the competition alone:
/// the freshness rule is switched off.
pub fn submission_filter(submission: &RedditSubmission, competition: &Competition) -> (accepted:
    bool)
    ensures
        accepted == qualifies(submission@, competition@),
{
    evaluate(submission, competition).is_ok()
}

/// The answer is a function of the post and the competition: the same post
/// and the same competition always get the same answer.
pub proof fn same_inputs_same_answer(
    post: Post,
    profile: Profile,
    same_post: Post,
    same_profile: Profile,
)
    requires
        post == same_post,
        profile == same_profile,
    ensures
        qualifies(post, profile) == qualifies(same_post, same_profile),
{
}

/// A post whose title has no word with a hyphen is turned down, whatever its
/// teams and its link.
pub proof fn no_separator_never_qualifies(post: Post, profile: Profile)
    requires
        !has_score_separator(post.title),
    ensures
        !qualifies(post, profile),
        forall|lower_title: Seq<char>| #[trigger] verdict(lower_title, post, profile) is Err,
{
}

/// Each youth marker marks a youth fixture as it stands.
pub proof fn lemma_markers_are_lower_case(k: int)
    requires
        0 <= k < youth_markers().len(),
    ensures
        is_youth_marker(youth_markers()[k]),
{
    let marker = youth_markers()[k];
    let lowered = marker.map_values(|c: char| ascii_lower(c));
    assert forall|j: int| 0 <= j < marker.len() implies lowered[j] == marker[j] by {
        lemma_ascii_lower_of(marker[j]);
    }
    assert(lowered =~= marker);
}

/// A post whose title has a youth marker among its words is turned down.
pub proof fn youth_marker_never_qualifies(post: Post, profile: Profile, marker: Seq<char>)
    requires
        youth_markers().contains(marker),
        tokens(post.title).contains(marker),
    ensures
        !qualifies(post, profile),
        forall|lower_title: Seq<char>| #[trigger] verdict(lower_title, post, profile) is Err,
{
    let k = choose|k: int| 0 <= k < youth_markers().len() && youth_markers()[k] == marker;
    lemma_markers_are_lower_case(k);
    let t = choose|t: int| 0 <= t < tokens(post.title).len() && tokens(post.title)[t] == marker;
}

/// A post whose title has the word `w` is turned down.
pub proof fn womens_marker_never_qualifies(post: Post, profile: Profile)
    requires
        tokens(post.title).contains(seq!['w']),
    ensures
        !qualifies(post, profile),
        forall|lower_title: Seq<char>| #[trigger] verdict(lower_title, post, profile) is Err,
{
    let t = choose|t: int| 0 <= t < tokens(post.title).len() && tokens(post.title)[t] == seq!['w'];
    let word = tokens(post.title)[t];
    lemma_ascii_lower_of('w');
    assert(word.map_values(|c: char| ascii_lower(c)) =~= seq!['w']);
}

/// A post whose link points to none of the accepted hosts is turned down.
pub proof fn unrecognized_host_never_qualifies(post: Post, profile: Profile)
    requires
        post.url is Some,
        forall|host: VideoHost| !host.serves(post.url->0),
    ensures
        !qualifies(post, profile),
        forall|lower_title: Seq<char>| #[trigger] verdict(lower_title, post, profile) is Err,
{
}

/// A post without a link is turned down.
pub proof fn missing_url_never_qualifies(post: Post, profile: Profile)
    requires
        post.url is None,
    ensures
        !qualifies(post, profile),
{
}

} // verus!
