//! Competitions: the teams that play in each, and the channels it reports to.

use crate::text::{chars_of, contains, contains_seq, lowercase_of};
use vstd::prelude::*;

verus! {

/// The competitions whose goals are relayed.
#[derive(Clone, Copy, Debug, PartialEq, Eq, Structural)]
pub enum CompetitionName {
    ChampionsLeague,
    Bundesliga,
    Internationals,
    PremierLeague,
}

/// A competition as its rules see it.
pub struct Profile {
    pub name: CompetitionName,
    pub teams: Seq<Seq<char>>,
    pub chat_id: i64,
    pub chat_id_replies: i64,
}

/// A competition: its name, the names of its teams as they are written in
/// lower-cased titles, the channel that its highlights are sent to and the
/// channel in which replies to them are looked up.
#[derive(Debug, PartialEq, Eq)]
pub struct Competition {
    pub name: CompetitionName,
    pub teams: Vec<String>,
    pub chat_id: i64,
    pub chat_id_replies: i64,
}

impl View for Competition {
    type V = Profile;

    open spec fn view(&self) -> Profile {
        Profile {
            name: self.name,
            teams: self.teams@.map_values(|t: String| t@),
            chat_id: self.chat_id,
            chat_id_replies: self.chat_id_replies,
        }
    }
}

/// Whether two different names of `teams` are parts of `lower_title`.
pub open spec fn names_two_teams(lower_title: Seq<char>, teams: Seq<Seq<char>>) -> bool {
    exists|i: int, j: int|
        0 <= i < teams.len() && 0 <= j < teams.len() && teams[i] != teams[j] && contains_seq(
            lower_title,
            #[trigger] teams[i],
        ) && contains_seq(lower_title, #[trigger] teams[j])
}

impl Competition {
    pub fn new(name: CompetitionName, teams: Vec<String>, chat_id: i64, chat_id_replies: i64) -> (c:
        Competition)
        ensures
            c.name == name,
            c.teams == teams,
            c.chat_id == chat_id,
            c.chat_id_replies == chat_id_replies,
    {
        Competition { name, teams, chat_id, chat_id_replies }
    }

    /// The channel that highlights of this competition are sent to.
    pub fn get_chat_id(&self) -> (id: i64)
        ensures
            id == self@.chat_id,
    {
        self.chat_id
    }

    /// The channel in which replies to highlights of this competition appear.
    pub fn get_chat_id_replies(&self) -> (id: i64)
        ensures
            id == self@.chat_id_replies,
    {
        self.chat_id_replies
    }

    /// Tests whether a title, already in lower case, names two different
    /// teams of this competition.
    pub fn lowered_title_names_two_teams(&self, lower_title: &str) -> (valid: bool)
        ensures
            valid == names_two_teams(lower_title@, self@.teams),
    {
        let hay = chars_of(lower_title);
        let ghost teams = self@.teams;
        let mut first: Option<usize> = None;
        let mut i: usize = 0;
        while i < self.teams.len()
            invariant
                i <= self.teams.len(),
                hay@ == lower_title@,
                teams == self@.teams,
                teams.len() == self.teams.len(),
                match first {
                    None => forall|k: int| 0 <= k < i ==> !contains_seq(hay@, #[trigger] teams[k]),
                    Some(f) => f < i && contains_seq(hay@, teams[f as int]) && forall|k: int|
                        0 <= k < i && contains_seq(hay@, #[trigger] teams[k]) ==> teams[k]
                            == teams[f as int],
                },
            decreases self.teams.len() - i,
        {
            let team = chars_of(self.teams[i].as_str());
            assert(teams[i as int] == self.teams@[i as int]@);
            if contains(&hay, &team) {
                match first {
                    None => {
                        first = Some(i);
                    },
                    Some(f) => {
                        if !(self.teams[f] == self.teams[i]) {
                            return true;
                        }
                    },
                }
            }
            i += 1;
        }
        false
    }

    /// Tests whether the lower-cased title names two different teams of this
    /// competition.
    pub fn is_valid_post_title_for_competition(&self, title: &str) -> (valid: bool)
        ensures
            valid == names_two_teams(lowercase_of(title@), self@.teams),
    {
        let lower_title = title.to_lowercase();
        self.lowered_title_names_two_teams(lower_title.as_str())
    }
}

} // verus!
