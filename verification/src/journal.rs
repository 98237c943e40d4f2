//! The append-only journal of what was done and what was refused.
//!
//! A record is stamped with the local time at which it is made. Nothing ever
//! leaves the journal or changes in it: a driver writes out the lines that it
//! has not written yet.

use vstd::prelude::*;
use vstd::string::*;

verus! {

/// One entry of the journal: when, and what.
#[derive(Clone, Debug, PartialEq, Eq)]
pub struct LogRecord {
    pub timestamp: String,
    pub action: String,
}

impl View for LogRecord {
    type V = (Seq<char>, Seq<char>);

    open spec fn view(&self) -> (Seq<char>, Seq<char>) {
        (self.timestamp@, self.action@)
    }
}

/// The line that a record is written as: the time in square brackets, a
/// space, the action, and a line feed.
pub open spec fn record_line(record: (Seq<char>, Seq<char>)) -> Seq<char> {
    "["@ + record.0 + "] "@ + record.1 + "\n"@
}

impl LogRecord {
    pub fn line(&self) -> (line: String)
        ensures
            line@ == record_line(self@),
    {
        let mut line = String::from_str("[");
        line.append(self.timestamp.as_str());
        line.append("] ");
        line.append(self.action.as_str());
        line.append("\n");
        line
    }
}

/// The layout in which a record's time is written: year, month and day with
/// hyphens between them, a space, then hour, minute and second with colons.
pub open spec fn stamp_layout() -> Seq<char> {
    "%Y-%m-%d %H:%M:%S"@
}

/// The character that ends a line.
pub open spec fn is_line_feed(c: char) -> bool {
    c == '\n'
}

/// What holds of every time that is written in the layout of
/// [`stamp_layout`]: it has at least 19 characters, four or more for the year
/// and two for each other field with the five marks between them, and no
/// line feed is among them.
pub open spec fn is_stamp(text: Seq<char>) -> bool {
    &&& text.len() >= 19
    &&& forall|i: int| 0 <= i < text.len() ==> !is_line_feed(#[trigger] text[i])
}

/// Reads the clock with `chrono::Local::now` and writes the time out with
/// `DateTime::format` in the layout given. The layout is held to the one that
/// this library uses, which chrono accepts. Which time comes back depends on
/// the clock and on the machine's time zone, so the contract claims only what
/// chrono's formatter gives for this layout whatever the time: a year of four
/// digits or more, with a sign before a year outside 0 to 9999, two digits
/// for each other field, and the marks of the layout, none of which is a line
/// feed. chrono stops the process if the clock reads a time before 1970 or if
/// the machine's zone data gives no local time.
#[verifier::external_body]
fn local_time(layout: &str) -> (stamp: String)
    requires
        layout@ == stamp_layout(),
    ensures
        is_stamp(stamp@),
{
    chrono::Local::now().format(layout).to_string()
}

/// The actions of a run of records, in order.
pub open spec fn actions_of(records: Seq<(Seq<char>, Seq<char>)>) -> Seq<Seq<char>> {
    Seq::new(records.len(), |i: int| records[i].1)
}

/// `after` is `before` with one record more for each of `actions`, in order:
/// what was there is unchanged, nothing else was added, and each new record
/// is stamped with a time.
pub open spec fn grown_by(
    before: Seq<(Seq<char>, Seq<char>)>,
    after: Seq<(Seq<char>, Seq<char>)>,
    actions: Seq<Seq<char>>,
) -> bool {
    &&& after.len() == before.len() + actions.len()
    &&& after.subrange(0, before.len() as int) == before
    &&& actions_of(after.subrange(before.len() as int, after.len() as int)) == actions
    &&& forall|i: int| before.len() <= i < after.len() ==> is_stamp(#[trigger] after[i].0)
}

/// Growing twice is growing once by both runs of actions.
pub proof fn lemma_grown_by_twice(
    start: Seq<(Seq<char>, Seq<char>)>,
    middle: Seq<(Seq<char>, Seq<char>)>,
    end: Seq<(Seq<char>, Seq<char>)>,
    first: Seq<Seq<char>>,
    second: Seq<Seq<char>>,
)
    requires
        grown_by(start, middle, first),
        grown_by(middle, end, second),
    ensures
        grown_by(start, end, first + second),
{
    let m = middle.len() as int;
    let s = start.len() as int;
    assert(end.subrange(0, s) =~= end.subrange(0, m).subrange(0, s));
    let tail = actions_of(end.subrange(s, end.len() as int));
    let mid_tail = actions_of(middle.subrange(s, m));
    let end_tail = actions_of(end.subrange(m, end.len() as int));
    assert forall|i: int| 0 <= i < tail.len() implies tail[i] == (first + second)[i] by {
        if i < first.len() {
            assert(end.subrange(0, m)[s + i] == middle[s + i]);
            assert(mid_tail[i] == middle[s + i].1);
        } else {
            assert(end_tail[i - first.len()] == end[m + (i - first.len())].1);
        }
    }
    assert(tail =~= first + second);
    assert forall|i: int| s <= i < end.len() implies is_stamp(#[trigger] end[i].0) by {
        if i < m {
            assert(end.subrange(0, m)[i] == middle[i]);
        }
    }
}

/// Growing by nothing leaves the records as they were.
pub proof fn lemma_grown_by_nothing(
    before: Seq<(Seq<char>, Seq<char>)>,
    after: Seq<(Seq<char>, Seq<char>)>,
)
    ensures
        grown_by(before, after, seq![]) <==> after == before,
{
    if after == before {
        assert(after.subrange(0, before.len() as int) =~= before);
        assert(actions_of(after.subrange(before.len() as int, after.len() as int)) =~= seq![]);
    }
    if grown_by(before, after, seq![]) {
        assert(after =~= after.subrange(0, before.len() as int));
    }
}

/// Growing by one action adds one record at the end, which holds that action.
pub proof fn lemma_grown_by_one(
    before: Seq<(Seq<char>, Seq<char>)>,
    after: Seq<(Seq<char>, Seq<char>)>,
    action: Seq<char>,
)
    requires
        grown_by(before, after, seq![action]),
    ensures
        after.len() == before.len() + 1,
        after.drop_last() == before,
        after.last().1 == action,
        is_stamp(after.last().0),
{
    let tail = after.subrange(before.len() as int, after.len() as int);
    assert(actions_of(tail)[0] == tail[0].1);
    assert(after.drop_last() =~= after.subrange(0, before.len() as int));
}

/// A record is written as one line: where the action holds no line feed, the
/// line of a stamped record ends in a line feed and holds no other.
pub proof fn lemma_record_is_one_line(record: (Seq<char>, Seq<char>))
    requires
        is_stamp(record.0),
        forall|i: int| 0 <= i < record.1.len() ==> !is_line_feed(#[trigger] record.1[i]),
    ensures
        record_line(record).len() == record.0.len() + record.1.len() + 4,
        is_line_feed(record_line(record).last()),
        forall|i: int|
            0 <= i < record_line(record).len() - 1 ==> !is_line_feed(
                #[trigger] record_line(record)[i],
            ),
{
    reveal_strlit("[");
    reveal_strlit("] ");
    reveal_strlit("\n");
    let line = record_line(record);
    let stamp_end = 1 + record.0.len();
    assert forall|i: int| 0 <= i < line.len() - 1 implies !is_line_feed(#[trigger] line[i]) by {
        if i == 0 {
        } else if i < stamp_end {
            assert(line[i] == record.0[i - 1]);
        } else if i < stamp_end + 2 {
        } else {
            assert(line[i] == record.1[i - stamp_end - 2]);
        }
    }
}

/// Every record made so far, oldest first.
pub struct Journal {
    records: Vec<LogRecord>,
}

impl View for Journal {
    type V = Seq<(Seq<char>, Seq<char>)>;

    closed spec fn view(&self) -> Seq<(Seq<char>, Seq<char>)> {
        Seq::new(self.records@.len(), |i: int| self.records@[i]@)
    }
}

impl Journal {
    #[verifier::type_invariant]
    spec fn stamped(&self) -> bool {
        forall|i: int|
            0 <= i < self.records@.len() ==> is_stamp(#[trigger] self.records@[i].timestamp@)
    }

    pub fn new() -> (journal: Journal)
        ensures
            journal@ == Seq::<(Seq<char>, Seq<char>)>::empty(),
    {
        let journal = Journal { records: Vec::new() };
        assert(journal@ =~= Seq::empty());
        journal
    }

    pub fn len(&self) -> (len: usize)
        ensures
            len == self@.len(),
    {
        self.records.len()
    }

    /// The record at a position, if there is one.
    pub fn get(&self, index: usize) -> (record: Option<&LogRecord>)
        ensures
            record is Some <==> index < self@.len(),
            record matches Some(r) ==> r@ == self@[index as int] && is_stamp(r@.0),
    {
        proof {
            use_type_invariant(self);
        }
        if index < self.records.len() {
            Some(&self.records[index])
        } else {
            None
        }
    }

    /// The line to write out for the record at a position, if there is one.
    pub fn line(&self, index: usize) -> (line: Option<String>)
        ensures
            line is Some <==> index < self@.len(),
            line matches Some(text) ==> text@ == record_line(self@[index as int]) && is_stamp(
                self@[index as int].0,
            ),
    {
        proof {
            use_type_invariant(self);
        }
        if index < self.records.len() {
            Some(self.records[index].line())
        } else {
            None
        }
    }
}

/// Records an action in the journal, stamped with the local time.
pub fn log_action(action: &str, journal: &mut Journal)
    ensures
        grown_by(old(journal)@, final(journal)@, seq![action@]),
{
    proof {
        use_type_invariant(&*journal);
    }
    let timestamp = local_time("%Y-%m-%d %H:%M:%S");
    let record = LogRecord { timestamp, action: String::from_str(action) };
    let mut taken = Journal::new();
    core::mem::swap(journal, &mut taken);
    let mut records = taken.records;
    records.push(record);
    *journal = Journal { records };
    proof {
        let before = old(journal)@;
        let after = journal@;
        assert(after.subrange(0, before.len() as int) =~= before);
        assert(actions_of(after.subrange(before.len() as int, after.len() as int)) =~= seq![
            action@,
        ]);
    }
}

} // verus!
