use goal_relay::competition::{Competition, CompetitionName};
use goal_relay::filter::{
    evaluate, evaluate_at, evaluate_lowered, scan_title, submission_filter,
    word_is_womens_marker, word_is_youth_marker, Freshness, Rejection, MAX_AGE_SECS,
};
use goal_relay::submission::RedditSubmission;
use goal_relay::text::{
    chars_of, contains, has_char, is_whitespace, occurs, same_text, split_whitespace,
};
use goal_relay::videohost::{UnrecognizedHost, VideoHost};

fn premier_league() -> Competition {
    Competition::new(
        CompetitionName::PremierLeague,
        vec!["arsenal".to_string(), "chelsea".to_string(), "liverpool".to_string()],
        -100,
        -200,
    )
}

fn post(title: &str, url: Option<&str>) -> RedditSubmission {
    RedditSubmission::new(
        "abc123".to_string(),
        title.to_string(),
        url.map(|u| u.to_string()),
        1_700_000_000,
    )
}

fn words(title: &str) -> Vec<String> {
    split_whitespace(&chars_of(title)).into_iter().map(|w| w.into_iter().collect()).collect()
}

#[test]
fn goal_title_with_accepted_host_is_accepted() {
    let p = post("Arsenal [2] - [1] Chelsea", Some("https://streamable.com/x1y2z3"));
    assert!(submission_filter(&p, &premier_league()));
    assert_eq!(evaluate(&p, &premier_league()), Ok(VideoHost::Streamable));
}

#[test]
fn youth_fixture_is_rejected() {
    let p = post("Arsenal U18 [1] - [0] Chelsea U18", Some("https://streamable.com/x1y2z3"));
    assert!(!submission_filter(&p, &premier_league()));
    assert_eq!(evaluate(&p, &premier_league()), Err(Rejection::YouthFixture));
}

#[test]
fn womens_fixture_is_rejected() {
    let p = post("Arsenal W [3] - [0] Chelsea W", Some("https://streamable.com/x1y2z3"));
    assert!(!submission_filter(&p, &premier_league()));
    assert_eq!(evaluate(&p, &premier_league()), Err(Rejection::WomensFixture));
}

#[test]
fn title_without_hyphen_is_rejected() {
    let p = post("Arsenal 2 Chelsea 1", Some("https://streamable.com/x1y2z3"));
    assert!(!submission_filter(&p, &premier_league()));
    assert_eq!(evaluate(&p, &premier_league()), Err(Rejection::NoScoreSeparator));
}

#[test]
fn marker_before_the_hyphen_is_seen() {
    let p = post("U19 Arsenal 1 - 0 Chelsea", Some("https://streamable.com/a"));
    assert_eq!(evaluate(&p, &premier_league()), Err(Rejection::YouthFixture));
    let p = post("w Arsenal 1 - 0 Chelsea", Some("https://streamable.com/a"));
    assert_eq!(evaluate(&p, &premier_league()), Err(Rejection::WomensFixture));
}

#[test]
fn unknown_host_is_rejected() {
    let p = post("Arsenal [2] - [1] Chelsea", Some("https://example.com/video"));
    assert!(!submission_filter(&p, &premier_league()));
    assert_eq!(evaluate(&p, &premier_league()), Err(Rejection::UnrecognizedHost));
}

#[test]
fn missing_link_is_rejected() {
    let p = post("Arsenal [2] - [1] Chelsea", None);
    assert!(!submission_filter(&p, &premier_league()));
    assert_eq!(evaluate(&p, &premier_league()), Err(Rejection::MissingUrl));
}

#[test]
fn one_team_is_not_enough() {
    let p = post("Arsenal [2] - [1] Everton", Some("https://streamable.com/a"));
    assert_eq!(evaluate(&p, &premier_league()), Err(Rejection::NoTeamPair));
    let twice = Competition::new(
        CompetitionName::PremierLeague,
        vec!["arsenal".to_string(), "arsenal".to_string()],
        1,
        2,
    );
    let p = post("Arsenal [2] - [1] Arsenal", Some("https://streamable.com/a"));
    assert_eq!(evaluate(&p, &twice), Err(Rejection::NoTeamPair));
    assert!(!twice.is_valid_post_title_for_competition("Arsenal - Arsenal"));
}

#[test]
fn first_failing_rule_is_named() {
    let c = premier_league();
    let p = post("Everton U18 W", None);
    assert_eq!(evaluate(&p, &c), Err(Rejection::NoTeamPair));
    let p = post("Arsenal U18 W Chelsea", None);
    assert_eq!(evaluate(&p, &c), Err(Rejection::NoScoreSeparator));
    let p = post("Arsenal U18 W - Chelsea", None);
    assert_eq!(evaluate(&p, &c), Err(Rejection::YouthFixture));
    let p = post("Arsenal W - Chelsea", None);
    assert_eq!(evaluate(&p, &c), Err(Rejection::WomensFixture));
    let p = post("Arsenal - Chelsea", None);
    assert_eq!(evaluate(&p, &c), Err(Rejection::MissingUrl));
    let p = post("Arsenal - Chelsea", Some("ftp://streamable.com/a"));
    assert_eq!(evaluate(&p, &c), Err(Rejection::UnrecognizedHost));
}

#[test]
fn same_inputs_give_the_same_answer() {
    let c = premier_league();
    let accepted = post("Liverpool 1-0 Chelsea", Some("https://streamja.com/abc"));
    let rejected = post("Liverpool 1-0 Chelsea U21", Some("https://streamja.com/abc"));
    for _ in 0..5 {
        assert!(submission_filter(&accepted, &c));
        assert!(!submission_filter(&rejected, &c));
        assert_eq!(evaluate(&accepted, &c), Ok(VideoHost::Streamja));
    }
}

#[test]
fn title_is_lower_cased_for_the_teams() {
    let c = Competition::new(
        CompetitionName::Internationals,
        vec!["österreich".to_string(), "ísland".to_string()],
        1,
        2,
    );
    assert!(c.is_valid_post_title_for_competition("ÖSTERREICH 1 - 0 ÍSLAND"));
    assert!(!c.lowered_title_names_two_teams("ÖSTERREICH 1 - 0 ÍSLAND"));
    assert!(c.lowered_title_names_two_teams("österreich 1 - 0 ísland"));
    let p = post("ÖSTERREICH 1 - 0 ÍSLAND", Some("https://dubz.link/c/1"));
    assert!(submission_filter(&p, &c));
    assert_eq!(
        evaluate_lowered("österreich 1 - 0 ísland", &p, &c),
        Ok(VideoHost::Dubz)
    );
    assert_eq!(evaluate_lowered("nothing", &p, &c), Err(Rejection::NoTeamPair));
}

#[test]
fn team_names_are_taken_as_written() {
    let c = Competition::new(
        CompetitionName::Bundesliga,
        vec!["Bayern".to_string(), "dortmund".to_string(), "".to_string()],
        1,
        2,
    );
    // The empty name is part of every title; `Bayern` is part of no lower-cased one.
    assert!(c.is_valid_post_title_for_competition("Bayern 1 - 1 Dortmund"));
    assert!(!c.is_valid_post_title_for_competition("Bayern 1 - 1 Leipzig"));
    assert_eq!(c.get_chat_id(), 1);
    assert_eq!(c.get_chat_id_replies(), 2);
}

#[test]
fn whitespace_is_what_std_calls_whitespace() {
    let mut code: u32 = 0;
    while code <= 0x10FFFF {
        if let Some(c) = char::from_u32(code) {
            assert_eq!(is_whitespace(c), c.is_whitespace(), "U+{:04X}", code);
        }
        code += 1;
    }
}

#[test]
fn words_are_split_as_std_splits_them() {
    let samples = [
        "",
        " ",
        "a",
        "  Arsenal [2] - [1]   Chelsea ",
        "tab\tseparated\nlines\r\nhere",
        "no\u{a0}break and\u{2003}em\u{3000}wide",
        "zero\u{200b}width stays",
        "\u{85}next line\u{2028}",
    ];
    for s in samples {
        let expected: Vec<String> = s.split_whitespace().map(|w| w.to_string()).collect();
        assert_eq!(words(s), expected);
    }
    assert_eq!(words("  Arsenal [2] - [1]   Chelsea "), vec!["Arsenal", "[2]", "-", "[1]", "Chelsea"]);
}

#[test]
fn text_helpers() {
    assert_eq!(chars_of("héllo"), vec!['h', 'é', 'l', 'l', 'o']);
    assert!(contains(&chars_of("arsenal - chelsea"), &chars_of("chelsea")));
    assert!(contains(&chars_of("arsenal"), &chars_of("")));
    assert!(contains(&chars_of(""), &chars_of("")));
    assert!(!contains(&chars_of("arsenal"), &chars_of("arsenal ")));
    assert!(!contains(&chars_of("arsenal"), &chars_of("chelsea")));
    assert!(occurs(&chars_of("arsenal"), &chars_of("sen"), 2));
    assert!(!occurs(&chars_of("arsenal"), &chars_of("sen"), 3));
    assert!(!occurs(&chars_of("arsenal"), &chars_of("nal"), 5));
    assert!(occurs(&chars_of("arsenal"), &chars_of(""), 7));
    assert!(!occurs(&chars_of("arsenal"), &chars_of(""), 8));
    assert!(has_char(&chars_of("1-0"), '-'));
    assert!(!has_char(&chars_of("10"), '-'));
    assert!(same_text("abc", "abc"));
    assert!(!same_text("abc", "abd"));
    assert!(!same_text("abc", "ab"));
    assert!(same_text("", ""));
}

#[test]
fn youth_markers_from_under_7_to_under_21() {
    for n in 7..=21 {
        assert!(word_is_youth_marker(&chars_of(&format!("u{}", n))), "u{}", n);
        assert!(word_is_youth_marker(&chars_of(&format!("U{}", n))), "U{}", n);
    }
    for other in ["u6", "u22", "u", "u1", "u2", "u07", "u100", "u18s", "v18", "18", "", "uu", "u1a", "u-1"] {
        assert!(!word_is_youth_marker(&chars_of(other)), "{}", other);
    }
}

#[test]
fn womens_marker_is_a_single_w() {
    assert!(word_is_womens_marker(&chars_of("w")));
    assert!(word_is_womens_marker(&chars_of("W")));
    for other in ["", "ww", "w.", "(w)", "v", "women"] {
        assert!(!word_is_womens_marker(&chars_of(other)), "{}", other);
    }
}

#[test]
fn marks_of_a_title() {
    let m = scan_title("Arsenal [2] - [1] Chelsea");
    assert!(m.separator && !m.youth && !m.womens);
    let m = scan_title("Arsenal 2-1 Chelsea");
    assert!(m.separator);
    let m = scan_title("Arsenal W u21");
    assert!(!m.separator && m.youth && m.womens);
    let m = scan_title("Wolves u210 Wu21");
    assert!(!m.separator && !m.youth && !m.womens);
    let m = scan_title("");
    assert!(!m.separator && !m.youth && !m.womens);
}

#[test]
fn accepted_hosts() {
    assert_eq!(VideoHost::from_url("https://streamable.com/abc"), Ok(VideoHost::Streamable));
    assert_eq!(VideoHost::from_url("http://streamja.com/abc"), Ok(VideoHost::Streamja));
    assert_eq!(VideoHost::from_url("https://www.streamff.com/v/abc"), Ok(VideoHost::Streamff));
    assert_eq!(VideoHost::from_url("streamin.one/v/abc"), Ok(VideoHost::Streamin));
    assert_eq!(VideoHost::from_url("www.dubz.link"), Ok(VideoHost::Dubz));
    assert_eq!(VideoHost::from_url("https://dubz.link/"), Ok(VideoHost::Dubz));
    assert_eq!(VideoHost::Streamable.domain_name(), "streamable.com");
    assert_eq!(VideoHost::Dubz.domain_name(), "dubz.link");
}

#[test]
fn links_that_name_no_accepted_host() {
    for url in [
        "",
        "https://",
        "https://example.com/streamable.com",
        "https://streamable.com.example.org/abc",
        "https://streamable.community/abc",
        "https://notstreamable.com/abc",
        "https://streamable.co",
        "ftp://streamable.com/abc",
        "https://www.www.streamable.com/abc",
        "https://https://streamable.com/abc",
        "HTTPS://STREAMABLE.COM/abc",
        "https://streamable.com:443/abc",
        " https://streamable.com/abc",
    ] {
        assert_eq!(VideoHost::from_url(url), Err(UnrecognizedHost), "{}", url);
    }
    assert!(VideoHost::Streamable.serves_url(&chars_of("https://streamable.com/abc")));
    assert!(!VideoHost::Streamja.serves_url(&chars_of("https://streamable.com/abc")));
}

#[test]
fn freshness_rule_can_be_switched_on() {
    let c = premier_league();
    let p = post("Arsenal [2] - [1] Chelsea", Some("https://streamable.com/a"));
    let created: i64 = 1_700_000_000;
    assert_eq!(MAX_AGE_SECS, 600);
    let on = Freshness::MaxAge { secs: MAX_AGE_SECS };
    assert_eq!(evaluate_at(&p, &c, Freshness::Off, created + 1_000_000), Ok(VideoHost::Streamable));
    assert_eq!(evaluate_at(&p, &c, on, created), Ok(VideoHost::Streamable));
    assert_eq!(evaluate_at(&p, &c, on, created + 600), Ok(VideoHost::Streamable));
    assert_eq!(evaluate_at(&p, &c, on, created + 601), Err(Rejection::Stale));
    assert_eq!(evaluate_at(&p, &c, on, created - 5), Ok(VideoHost::Streamable));
    assert_eq!(evaluate_at(&p, &c, on, i64::MAX), Err(Rejection::Stale));
    assert_eq!(evaluate_at(&p, &c, on, i64::MIN), Ok(VideoHost::Streamable));
    assert_eq!(
        evaluate_at(&p, &c, Freshness::MaxAge { secs: 0 }, created + 1),
        Err(Rejection::Stale)
    );
    let late = RedditSubmission::new(
        "z".to_string(),
        "Arsenal [2] - [1] Chelsea".to_string(),
        Some("https://streamable.com/a".to_string()),
        u64::MAX,
    );
    assert_eq!(evaluate_at(&late, &c, on, i64::MAX), Ok(VideoHost::Streamable));
    // An earlier rule is named before the freshness rule.
    let old_youth = post("Arsenal U18 [2] - [1] Chelsea", Some("https://streamable.com/a"));
    assert_eq!(evaluate_at(&old_youth, &c, on, created + 601), Err(Rejection::YouthFixture));
    assert!(submission_filter(&p, &c));
}

#[test]
fn only_u_and_w_lower_case_to_the_marker_letters() {
    let mut code: u32 = 0;
    while code <= 0x10FFFF {
        if let Some(c) = char::from_u32(code) {
            let lower: String = c.to_lowercase().collect();
            assert_eq!(lower == "u", c == 'u' || c == 'U', "U+{:04X}", code);
            assert_eq!(lower == "w", c == 'w' || c == 'W', "U+{:04X}", code);
            if lower.len() == 1 && lower.chars().all(|l| l.is_ascii_digit()) {
                assert_eq!(lower, c.to_string(), "U+{:04X}", code);
            }
            assert!(!lower.is_empty(), "U+{:04X}", code);
            assert_eq!(lower.contains('-'), c == '-', "U+{:04X}", code);
            assert_eq!(lower.chars().any(|l| l.is_whitespace()), c.is_whitespace(), "U+{:04X}", code);
        }
        code += 1;
    }
}

#[test]
fn marks_are_those_of_the_lower_cased_title() {
    for title in [
        "Arsenal [2] - [1] Chelsea",
        "ARSENAL U18 [1] - [0] CHELSEA U18",
        "Arsenal W [3] - [0] Chelsea W",
        "İstanbul U21 1-0 ΟΔΥΣΣΕΥΣ W",
        "ǅ U7 W - Σ",
        "Ｕ18 Ｗ －",
        "",
    ] {
        assert_eq!(scan_title(title), scan_title(&title.to_lowercase()), "{}", title);
    }
}
