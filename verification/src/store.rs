//! The record of what was relayed, kept for correlating later replies.

use crate::competition::CompetitionName;
use crate::text::same_text;
use vstd::prelude::*;

verus! {

/// A relayed highlight as the contracts see it.
pub struct Record {
    pub submission_id: Seq<char>,
    pub competition: CompetitionName,
    pub sent_comment_ids: Seq<Seq<char>>,
    pub reply_id: Option<i32>,
    pub added_time: i64,
}

/// A highlight that was relayed: the post, the competition it was relayed
/// for, the comments already sent after it, the message that replies are
/// attached to, if one was found, and the time of the relay in milliseconds
/// since the Unix epoch.
#[derive(Debug, PartialEq, Eq)]
pub struct GoalSubmission {
    pub submission_id: String,
    pub competition: CompetitionName,
    pub sent_comment_ids: Vec<String>,
    pub reply_id: Option<i32>,
    pub added_time: i64,
}

impl View for GoalSubmission {
    type V = Record;

    open spec fn view(&self) -> Record {
        Record {
            submission_id: self.submission_id@,
            competition: self.competition,
            sent_comment_ids: self.sent_comment_ids@.map_values(|c: String| c@),
            reply_id: self.reply_id,
            added_time: self.added_time,
        }
    }
}

impl GoalSubmission {
    /// The record of a relay that has just been made: no comment was sent yet.
    pub fn new(
        submission_id: String,
        competition: CompetitionName,
        reply_id: Option<i32>,
        added_time: i64,
    ) -> (record: GoalSubmission)
        ensures
            record@ == fresh_record(submission_id@, competition, reply_id, added_time),
    {
        let record = GoalSubmission {
            submission_id,
            competition,
            sent_comment_ids: Vec::new(),
            reply_id,
            added_time,
        };
        assert(record@.sent_comment_ids =~= Seq::empty());
        record
    }
}

/// The record of a relay after which no comment was sent yet.
pub open spec fn fresh_record(
    submission_id: Seq<char>,
    competition: CompetitionName,
    reply_id: Option<i32>,
    added_time: i64,
) -> Record {
    Record { submission_id, competition, sent_comment_ids: Seq::empty(), reply_id, added_time }
}

/// Whether `records` holds a relay of the post `submission_id` for `competition`.
pub open spec fn recorded(
    records: Seq<Record>,
    submission_id: Seq<char>,
    competition: CompetitionName,
) -> bool {
    exists|i: int|
        0 <= i < records.len() && (#[trigger] records[i]).submission_id == submission_id
            && records[i].competition == competition
}

/// Whether no post is recorded twice for one competition.
pub open spec fn no_repeats(records: Seq<Record>) -> bool {
    forall|i: int, j: int|
        0 <= i < j < records.len() ==> !((#[trigger] records[i]).submission_id == (
        #[trigger] records[j]).submission_id && records[i].competition == records[j].competition)
}

/// Whether `after` may follow `before` in the life of a store: every record
/// of `before` is still there, at its place, and has at most gained comments.
pub open spec fn grows_to(before: Seq<Record>, after: Seq<Record>) -> bool {
    &&& before.len() <= after.len()
    &&& forall|i: int|
        0 <= i < before.len() ==> {
            &&& (#[trigger] after[i]).submission_id == before[i].submission_id
            &&& after[i].competition == before[i].competition
            &&& after[i].reply_id == before[i].reply_id
            &&& after[i].added_time == before[i].added_time
            &&& before[i].sent_comment_ids.is_prefix_of(after[i].sent_comment_ids)
        }
}

/// The record `r` with one more comment.
pub open spec fn with_comment(r: Record, comment_id: Seq<char>) -> Record {
    Record { sent_comment_ids: r.sent_comment_ids.push(comment_id), ..r }
}

/// The relays of this run, in the order in which they were made.
pub struct ReplayStore {
    records: Vec<GoalSubmission>,
}

impl View for ReplayStore {
    type V = Seq<Record>;

    closed spec fn view(&self) -> Seq<Record> {
        self.records@.map_values(|r: GoalSubmission| r@)
    }
}

impl ReplayStore {
    #[verifier::type_invariant]
    spec fn well_formed(&self) -> bool {
        no_repeats(self@)
    }

    pub fn new() -> (store: ReplayStore)
        ensures
            store@ == Seq::<Record>::empty(),
    {
        let store = ReplayStore { records: Vec::new() };
        store
    }

    /// The number of relays on record, none of which repeats another.
    pub fn len(&self) -> (n: usize)
        ensures
            n == self@.len(),
            no_repeats(self@),
    {
        proof {
            use_type_invariant(self);
        }
        self.records.len()
    }

    /// The relay at place `i`, counted from the oldest.
    pub fn get(&self, i: usize) -> (record: Option<&GoalSubmission>)
        ensures
            match record {
                Some(r) => i < self@.len() && r@ == self@[i as int],
                None => i >= self@.len(),
            },
    {
        if i < self.records.len() {
            Some(&self.records[i])
        } else {
            None
        }
    }

    /// Tests whether the post was relayed for the competition.
    pub fn is_recorded(&self, submission_id: &str, competition: CompetitionName) -> (found: bool)
        ensures
            found == recorded(self@, submission_id@, competition),
    {
        find_record(&self.records, submission_id, competition)
    }

    /// Puts a relay on record behind all others, unless the post was already
    /// relayed for that competition: then the store stays as it is.
    pub fn append(&mut self, record: GoalSubmission) -> (appended: bool)
        ensures
            appended == !recorded(old(self)@, record@.submission_id, record@.competition),
            appended ==> final(self)@ == old(self)@.push(record@),
            !appended ==> final(self)@ == old(self)@,
            grows_to(old(self)@, final(self)@),
            no_repeats(final(self)@),
    {
        proof {
            use_type_invariant(&*self);
        }
        if find_record(&self.records, record.submission_id.as_str(), record.competition) {
            return false;
        }
        let ghost before = self@;
        let mut records: Vec<GoalSubmission> = Vec::new();
        std::mem::swap(&mut records, &mut self.records);
        records.push(record);
        proof {
            let after = records@.map_values(|r: GoalSubmission| r@);
            assert(after =~= before.push(record@));
            assert(no_repeats(after));
        }
        self.records = records;
        true
    }

    /// Notes on every relay of the post that a comment was sent after it. The
    /// relays themselves, their number and their order stay as they are.
    pub fn record_comment(&mut self, submission_id: &str, comment_id: &str) -> (found: bool)
        ensures
            final(self)@.len() == old(self)@.len(),
            forall|i: int|
                0 <= i < old(self)@.len() ==> #[trigger] final(self)@[i] == (if old(
                    self,
                )@[i].submission_id == submission_id@ {
                    with_comment(old(self)@[i], comment_id@)
                } else {
                    old(self)@[i]
                }),
            found == exists|i: int|
                0 <= i < old(self)@.len() && (#[trigger] old(self)@[i]).submission_id
                    == submission_id@,
            grows_to(old(self)@, final(self)@),
            no_repeats(final(self)@),
    {
        proof {
            use_type_invariant(&*self);
        }
        let ghost before = self@;
        let mut records: Vec<GoalSubmission> = Vec::new();
        std::mem::swap(&mut records, &mut self.records);
        let mut found = false;
        let mut i: usize = 0;
        while i < records.len()
            invariant
                i <= records.len(),
                records@.len() == before.len(),
                forall|k: int|
                    0 <= k < i ==> (#[trigger] records@[k])@ == (if before[k].submission_id
                        == submission_id@ {
                        with_comment(before[k], comment_id@)
                    } else {
                        before[k]
                    }),
                forall|k: int| i <= k < before.len() ==> (#[trigger] records@[k])@ == before[k],
                found == exists|k: int|
                    0 <= k < i && (#[trigger] before[k]).submission_id == submission_id@,
            decreases records.len() - i,
        {
            if same_text(records[i].submission_id.as_str(), submission_id) {
                let ghost comments = records@[i as int]@.sent_comment_ids;
                records[i].sent_comment_ids.push(String::from_str(comment_id));
                assert(records@[i as int]@.sent_comment_ids =~= comments.push(comment_id@));
                found = true;
            }
            i += 1;
        }
        proof {
            let after = records@.map_values(|r: GoalSubmission| r@);
            assert forall|a: int, b: int| 0 <= a < b < after.len() implies !((
            #[trigger] after[a]).submission_id == (#[trigger] after[b]).submission_id
                && after[a].competition == after[b].competition) by {
                assert(after[a].submission_id == before[a].submission_id);
                assert(after[b].submission_id == before[b].submission_id);
            }
        }
        self.records = records;
        found
    }
}

/// Looks for a relay of the post for the competition.
fn find_record(records: &Vec<GoalSubmission>, submission_id: &str, competition: CompetitionName) -> (found:
    bool)
    ensures
        found == recorded(
            records@.map_values(|r: GoalSubmission| r@),
            submission_id@,
            competition,
        ),
{
    let ghost model = records@.map_values(|r: GoalSubmission| r@);
    let mut i: usize = 0;
    while i < records.len()
        invariant
            i <= records.len(),
            model == records@.map_values(|r: GoalSubmission| r@),
            forall|k: int|
                0 <= k < i ==> !((#[trigger] model[k]).submission_id == submission_id@
                    && model[k].competition == competition),
        decreases records.len() - i,
    {
        assert(model[i as int] == records@[i as int]@);
        if records[i].competition == competition && same_text(
            records[i].submission_id.as_str(),
            submission_id,
        ) {
            return true;
        }
        i += 1;
    }
    false
}

} // verus!
