//! Taking in what the sources deliver: lines of a file, messages of the socket.

use crate::clock::now_millis;
use crate::event::reader::{classify_line, line_class, LineClass, LineClassView};
use crate::event::socket_client::{
    classify_socket_line, socket_line_message, SocketMessage, SocketMessageView,
};
use crate::state::model::{DashboardState, DashboardStateView};
use crate::state::overview::sat_add;
use vstd::prelude::*;

verus! {

impl DashboardStateView {
    /// The state with one more line read.
    pub open spec fn line_counted(self) -> DashboardStateView {
        DashboardStateView { lines_read: sat_add(self.lines_read, 1), ..self }
    }

    /// The state after a line of the source was taken in at `now`. A blank
    /// line changes nothing. Any other line is counted; an event is folded
    /// in, a tagged line that could not be read is counted as a failure and
    /// dropped, and free text goes to the log.
    pub open spec fn line_taken(self, class: LineClassView, now: u64) -> DashboardStateView {
        match class {
            LineClassView::Blank => self,
            LineClassView::Event(e) => self.line_counted().folded(e, now),
            LineClassView::ParseFailure => DashboardStateView {
                parse_failures: sat_add(self.parse_failures, 1),
                ..self.line_counted()
            },
            LineClassView::Log(text) => self.line_counted().raw_logged(now, text),
        }
    }

    /// The state after a message of the socket was taken in at `now`. The
    /// greeting and what is ignored change nothing.
    pub open spec fn message_taken(self, message: SocketMessageView, now: u64) -> DashboardStateView {
        match message {
            SocketMessageView::Ignored => self,
            SocketMessageView::Welcome(_) => self,
            SocketMessageView::State(snapshot) => self.snapshot_folded(snapshot, now),
            SocketMessageView::Event(e) => self.folded(e, now),
            SocketMessageView::Response(r) => self.response_folded(r, now),
        }
    }
}

/// A tagged line that could not be read adds one to the count of failures
/// and one to the count of lines, and nothing else changes: no event is
/// folded in.
pub proof fn lemma_parse_failure_counts_once(s: DashboardStateView, now: u64)
    ensures
        s.line_taken(LineClassView::ParseFailure, now) == (DashboardStateView {
            parse_failures: sat_add(s.parse_failures, 1),
            lines_read: sat_add(s.lines_read, 1),
            ..s
        }),
        s.parse_failures < u64::MAX ==> s.line_taken(
            LineClassView::ParseFailure,
            now,
        ).parse_failures == s.parse_failures + 1,
        s.line_taken(LineClassView::ParseFailure, now).events_received == s.events_received,
{
}

impl DashboardState {
    /// Counts a line.
    pub fn count_line(&mut self)
        ensures
            final(self)@ == old(self)@.line_counted(),
    {
        self.lines_read = self.lines_read.saturating_add(1);
    }

    /// Counts a tagged line that could not be read.
    pub fn count_parse_failure(&mut self)
        ensures
            final(self)@ == (DashboardStateView {
                parse_failures: sat_add(old(self)@.parse_failures, 1),
                ..old(self)@
            }),
    {
        self.parse_failures = self.parse_failures.saturating_add(1);
    }

    /// Takes in a line of the source that was sorted before, at the time `now`.
    pub fn take_line(&mut self, class: LineClass, now: u64)
        ensures
            final(self)@ == old(self)@.line_taken(class@, now),
            old(self)@.apps_counted() ==> final(self)@.apps_counted(),
    {
        match class {
            LineClass::Blank => {},
            LineClass::Event(e) => {
                self.count_line();
                self.handle_unified_event_at(e, now);
            },
            LineClass::ParseFailure => {
                self.count_line();
                self.count_parse_failure();
            },
            LineClass::Log(text) => {
                self.count_line();
                self.add_raw_log_at(now, text);
            },
        }
    }

    /// Sorts a line of the source and takes it in, at the present time.
    pub fn ingest_line(&mut self, line: &str)
        ensures
            exists|now: u64| final(self)@ == old(self)@.line_taken(line_class(line@), now),
            old(self)@.apps_counted() ==> final(self)@.apps_counted(),
    {
        let now = now_millis();
        self.take_line(classify_line(line), now);
    }

    /// Takes in a message of the socket that was sorted before, at the time `now`.
    pub fn take_message(&mut self, message: SocketMessage, now: u64)
        ensures
            final(self)@ == old(self)@.message_taken(message@, now),
            old(self)@.apps_counted() ==> final(self)@.apps_counted(),
    {
        match message {
            SocketMessage::Ignored => {},
            SocketMessage::Welcome(_) => {},
            SocketMessage::State(snapshot) => self.handle_state_snapshot_at(snapshot, now),
            SocketMessage::Event(e) => self.handle_unified_event_at(e, now),
            SocketMessage::Response(r) => self.handle_command_response_at(r, now),
        }
    }

    /// Sorts a line of the socket and takes it in, at the present time.
    pub fn ingest_socket_line(&mut self, line: &str)
        ensures
            exists|now: u64|
                final(self)@ == old(self)@.message_taken(socket_line_message(line@), now),
            old(self)@.apps_counted() ==> final(self)@.apps_counted(),
    {
        let now = now_millis();
        self.take_message(classify_socket_line(line), now);
    }
}

} // verus!
