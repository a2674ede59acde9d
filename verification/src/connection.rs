//! What a connection does with each thing that a read on its socket gives.
//!
//! The caller owns the socket. It reads, hands each event to `Connection::step`,
//! and carries out the action that comes back. A connection holds no state
//! but its peer's address and whether it is still open, so what is done with
//! a line never depends on the lines before it.

use crate::json::{line_fields, read_fields, read_view, FieldsModel, InvalidJson, LineFields};
use crate::pattern::{message_level, Classifier};
use crate::record::{chosen_message, make_record, record_of, LogRecord, RecordModel};
use vstd::prelude::*;
use vstd::string::*;

verus! {

/// What one read on the socket gave.
#[derive(Clone, Debug, PartialEq, Eq)]
pub enum ReadEvent {
    /// A whole line, without its line ending.
    Line(String),
    /// The peer closed the connection.
    EndOfStream,
    /// The read failed.
    Failed,
}

/// `ReadEvent` as mathematics.
pub enum EventModel {
    Line(Seq<char>),
    EndOfStream,
    Failed,
}

impl View for ReadEvent {
    type V = EventModel;

    open spec fn view(&self) -> EventModel {
        match self {
            ReadEvent::Line(text) => EventModel::Line(text@),
            ReadEvent::EndOfStream => EventModel::EndOfStream,
            ReadEvent::Failed => EventModel::Failed,
        }
    }
}

/// What the caller has to do after an event.
#[derive(Clone, Debug, PartialEq, Eq)]
pub enum Action {
    /// Hand the record to the sink, and read on whatever the sink answers.
    Forward(LogRecord),
    /// Write the text to the diagnostic stream, and read on.
    Report(String),
    /// Nothing: the line has no message. Read on.
    Skip,
    /// Stop reading and let the socket go.
    Close,
}

/// `Action` as mathematics.
pub enum ActionModel {
    Forward(RecordModel),
    Report(Seq<char>),
    Skip,
    Close,
}

impl View for Action {
    type V = ActionModel;

    open spec fn view(&self) -> ActionModel {
        match self {
            Action::Forward(record) => ActionModel::Forward(record@),
            Action::Report(text) => ActionModel::Report(text@),
            Action::Skip => ActionModel::Skip,
            Action::Close => ActionModel::Close,
        }
    }
}

/// The diagnostic for a line that is no JSON: it names the peer and gives
/// the parser's words.
pub open spec fn invalid_json_text(peer: Seq<char>, reason: Seq<char>) -> Seq<char> {
    "Invalid JSON from "@ + peer + ": "@ + reason
}

/// The diagnostic for a line from `peer` that is no JSON.
pub fn invalid_json_diagnostic(peer: &str, reason: &str) -> (text: String)
    ensures
        text@ == invalid_json_text(peer@, reason@),
{
    let mut text = "Invalid JSON from ".to_owned();
    text.append(peer);
    text.append(": ");
    text.append(reason);
    text
}

/// What is done with a line, given what reading its fields gave: a record is
/// forwarded, a line without message is skipped, a line that is no JSON is
/// reported.
pub open spec fn fields_action(
    peer: Seq<char>,
    read: Result<FieldsModel, Seq<char>>,
) -> ActionModel {
    match read {
        Ok(fields) => match record_of(fields) {
            Some(record) => ActionModel::Forward(record),
            None => ActionModel::Skip,
        },
        Err(reason) => ActionModel::Report(invalid_json_text(peer, reason)),
    }
}

/// What is done with a line of text from `peer`.
pub open spec fn line_action(peer: Seq<char>, line: Seq<char>) -> ActionModel {
    fields_action(peer, line_fields(line))
}

/// The action for a line, given what reading its fields gave.
pub fn action_for(
    peer: &str,
    read: &Result<LineFields, InvalidJson>,
    classifier: &Classifier,
) -> (action: Action)
    ensures
        action@ == fields_action(peer@, read_view(*read)),
        action !is Close,
{
    match read {
        Ok(fields) => match make_record(fields, classifier) {
            Some(record) => Action::Forward(record),
            None => Action::Skip,
        },
        Err(fault) => Action::Report(invalid_json_diagnostic(peer, fault.reason.as_str())),
    }
}

/// The action for one line of text from `peer`. It never closes the
/// connection.
pub fn process_line(peer: &str, line: &str, classifier: &Classifier) -> (action: Action)
    ensures
        action@ == line_action(peer@, line@),
        action !is Close,
{
    let read = read_fields(line);
    action_for(peer, &read, classifier)
}

/// One accepted connection, as far as decisions need it.
#[derive(Clone, Debug, PartialEq, Eq)]
pub struct Connection {
    peer: String,
    open: bool,
}

/// `Connection` as mathematics.
pub struct ConnectionModel {
    pub peer: Seq<char>,
    pub open: bool,
}

impl View for Connection {
    type V = ConnectionModel;

    closed spec fn view(&self) -> ConnectionModel {
        ConnectionModel { peer: self.peer@, open: self.open }
    }
}

/// State and action after an event. An open connection handles a line and
/// stays open; the end of the stream or a failed read closes it. A closed
/// connection stays closed, whatever comes.
pub open spec fn step_spec(state: ConnectionModel, event: EventModel) -> (
    ConnectionModel,
    ActionModel,
) {
    if !state.open {
        (state, ActionModel::Close)
    } else {
        match event {
            EventModel::Line(line) => (state, line_action(state.peer, line)),
            EventModel::EndOfStream => (
                ConnectionModel { peer: state.peer, open: false },
                ActionModel::Close,
            ),
            EventModel::Failed => (
                ConnectionModel { peer: state.peer, open: false },
                ActionModel::Close,
            ),
        }
    }
}

/// State at the end and the actions, one for each event and in the order
/// of the events, when a connection takes the events one after the other.
pub open spec fn run(state: ConnectionModel, events: Seq<EventModel>) -> (
    ConnectionModel,
    Seq<ActionModel>,
)
    decreases events.len(),
{
    if events.len() == 0 {
        (state, Seq::empty())
    } else {
        let (next, action) = step_spec(state, events[0]);
        let (end, rest) = run(next, events.skip(1));
        (end, seq![action] + rest)
    }
}

/// The views of a sequence of events.
pub open spec fn events_view(events: Seq<ReadEvent>) -> Seq<EventModel> {
    Seq::new(events.len(), |i: int| events[i]@)
}

/// The views of a sequence of actions.
pub open spec fn actions_view(actions: Seq<Action>) -> Seq<ActionModel> {
    Seq::new(actions.len(), |i: int| actions[i]@)
}

impl Connection {
    /// A connection that was just accepted from `peer`.
    pub fn new(peer: String) -> (c: Connection)
        ensures
            c@ == (ConnectionModel { peer: peer@, open: true }),
    {
        Connection { peer, open: true }
    }

    /// The peer's address, as it was given.
    pub fn peer(&self) -> (peer: &str)
        ensures
            peer@ == self@.peer,
    {
        self.peer.as_str()
    }

    /// Whether reading goes on.
    pub fn is_open(&self) -> (open: bool)
        ensures
            open == self@.open,
    {
        self.open
    }

    /// Takes one event and says what to do.
    pub fn step(&mut self, event: &ReadEvent, classifier: &Classifier) -> (action: Action)
        ensures
            (final(self)@, action@) == step_spec(old(self)@, event@),
    {
        if !self.open {
            return Action::Close;
        }
        match event {
            ReadEvent::Line(line) => process_line(self.peer.as_str(), line.as_str(), classifier),
            ReadEvent::EndOfStream => {
                self.open = false;
                Action::Close
            },
            ReadEvent::Failed => {
                self.open = false;
                Action::Close
            },
        }
    }

    /// Takes the events one after the other and gives the action for each,
    /// in the order of the events.
    pub fn step_all(&mut self, events: &Vec<ReadEvent>, classifier: &Classifier) -> (actions: Vec<
        Action,
    >)
        ensures
            (final(self)@, actions_view(actions@)) == run(old(self)@, events_view(events@)),
    {
        let ghost start = self@;
        let ghost all = events_view(events@);
        let mut actions: Vec<Action> = Vec::new();
        let mut i: usize = 0;
        proof {
            assert(all.skip(0) =~= all);
            assert(actions_view(actions@) + run(self@, all.skip(0)).1 =~= run(start, all).1);
        }
        while i < events.len()
            invariant
                i <= events.len(),
                all == events_view(events@),
                run(start, all).0 == run(self@, all.skip(i as int)).0,
                run(start, all).1 == actions_view(actions@) + run(self@, all.skip(i as int)).1,
            decreases events.len() - i,
        {
            let ghost before = self@;
            let ghost done = actions_view(actions@);
            let action = self.step(&events[i], classifier);
            actions.push(action);
            proof {
                let tail = all.skip(i as int);
                assert(tail.len() > 0);
                assert(tail[0] == events[i as int]@);
                assert(tail.skip(1) =~= all.skip(i + 1));
                assert(actions_view(actions@) =~= done + seq![action@]);
                assert(run(before, tail).1 == seq![action@] + run(self@, all.skip(i + 1)).1);
                assert(done + (seq![action@] + run(self@, all.skip(i + 1)).1) =~= (done
                    + seq![action@]) + run(self@, all.skip(i + 1)).1);
            }
            i += 1;
        }
        proof {
            assert(all.skip(i as int).len() == 0);
            assert(actions_view(actions@) + Seq::<ActionModel>::empty() =~= actions_view(
                actions@,
            ));
        }
        actions
    }
}

/// A line never closes a connection, and leaves it as it was.
pub proof fn lemma_line_keeps_connection(state: ConnectionModel, line: Seq<char>)
    requires
        state.open,
    ensures
        step_spec(state, EventModel::Line(line)).0 == state,
        step_spec(state, EventModel::Line(line)).1 == line_action(state.peer, line),
        step_spec(state, EventModel::Line(line)).1 !is Close,
{
}

/// The level of a forwarded record depends on the text of the message and on
/// nothing else: two lines that are JSON and have the same message are both
/// forwarded, at the same level, whatever their peers, their sources and
/// their other fields.
pub proof fn lemma_line_level_depends_on_message_only(
    peer_a: Seq<char>,
    line_a: Seq<char>,
    peer_b: Seq<char>,
    line_b: Seq<char>,
)
    requires
        line_fields(line_a) is Ok,
        line_fields(line_b) is Ok,
        chosen_message(line_fields(line_a)->Ok_0) is Some,
        chosen_message(line_fields(line_a)->Ok_0) == chosen_message(line_fields(line_b)->Ok_0),
    ensures
        line_action(peer_a, line_a) is Forward,
        line_action(peer_b, line_b) is Forward,
        line_action(peer_a, line_a)->Forward_0.level == line_action(
            peer_b,
            line_b,
        )->Forward_0.level,
        line_action(peer_a, line_a)->Forward_0.level == message_level(
            chosen_message(line_fields(line_a)->Ok_0)->0,
        ),
{
}

/// A line that is no JSON is reported and nothing more: the connection stays
/// open, and the line after it is handled as if it had come first.
pub proof fn lemma_invalid_line_is_only_reported(
    state: ConnectionModel,
    bad: Seq<char>,
    next: Seq<char>,
)
    requires
        state.open,
        line_fields(bad) is Err,
    ensures
        step_spec(state, EventModel::Line(bad)).1 is Report,
        step_spec(state, EventModel::Line(bad)).0 == state,
        step_spec(step_spec(state, EventModel::Line(bad)).0, EventModel::Line(next)) == step_spec(
            state,
            EventModel::Line(next),
        ),
{
}

/// The lines of an open connection are handled in the order in which they
/// came, each by itself: the action for a line is the one that the line would
/// get alone, whatever came before it, and the connection is open at the end.
pub proof fn lemma_lines_are_handled_in_order(state: ConnectionModel, lines: Seq<Seq<char>>)
    requires
        state.open,
    ensures
        run(state, Seq::new(lines.len(), |i: int| EventModel::Line(lines[i]))).0 == state,
        run(state, Seq::new(lines.len(), |i: int| EventModel::Line(lines[i]))).1 == Seq::new(
            lines.len(),
            |i: int| line_action(state.peer, lines[i]),
        ),
    decreases lines.len(),
{
    let events = Seq::new(lines.len(), |i: int| EventModel::Line(lines[i]));
    let expected = Seq::new(lines.len(), |i: int| line_action(state.peer, lines[i]));
    if lines.len() == 0 {
        assert(run(state, events).1 =~= expected);
    } else {
        let rest = lines.skip(1);
        lemma_lines_are_handled_in_order(state, rest);
        let rest_events = Seq::new(rest.len(), |i: int| EventModel::Line(rest[i]));
        assert(events.skip(1) =~= rest_events);
        assert(events[0] == EventModel::Line(lines[0]));
        assert(run(state, events).1 =~= expected);
    }
}

/// After the end of the stream or a failed read nothing is handled any more:
/// every later event is answered with `Close`.
pub proof fn lemma_closed_stays_closed(state: ConnectionModel, event: EventModel)
    requires
        !state.open,
    ensures
        step_spec(state, event) == (state, ActionModel::Close),
{
}

/// The end of the stream and a failed read close an open connection.
pub proof fn lemma_end_closes(state: ConnectionModel, event: EventModel)
    requires
        state.open,
        event is EndOfStream || event is Failed,
    ensures
        step_spec(state, event).1 is Close,
        !step_spec(state, event).0.open,
        step_spec(state, event).0.peer == state.peer,
{
}

} // verus!
