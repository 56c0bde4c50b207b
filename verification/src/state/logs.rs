//! The log: bounded lists of entries, over all sessions and of each session.

use crate::clock::now_millis;
use crate::state::keyed::{index_of, keys_of, position, ring_push};
use crate::state::model::{
    DashboardState, DashboardStateView, LogEntry, LogEntryView, LogFilter, LogFilterView,
    LogLevel, SessionLog, SessionLogView, MAX_LOGS, MAX_RECENT_ERRORS, MAX_SESSION_LOGS,
};
use crate::text::{
    chars_of, first_index_from, first_index_from_exec, is_blank, is_blank_exec, occurs_at_exec,
    slice_chars, starts_with, str_eq, string_from_chars, trim_start, trim_start_exec,
};
use vstd::prelude::*;

verus! {

/// The log of `sid` with `entry` at its end; a session without a log gets one.
pub open spec fn session_log_added(
    logs: Seq<SessionLogView>,
    sid: Seq<char>,
    entry: LogEntryView,
) -> Seq<SessionLogView> {
    match index_of(keys_of::<SessionLog>(logs), sid) {
        Some(i) => logs.update(
            i,
            SessionLogView {
                session_id: logs[i].session_id,
                entries: ring_push(logs[i].entries, entry, MAX_SESSION_LOGS as nat),
            },
        ),
        None => logs.push(SessionLogView { session_id: sid, entries: seq![entry] }),
    }
}

/// The log of `sid` emptied; a session without a log gets an empty one.
pub open spec fn session_log_reset(logs: Seq<SessionLogView>, sid: Seq<char>) -> Seq<
    SessionLogView,
> {
    match index_of(keys_of::<SessionLog>(logs), sid) {
        Some(i) => logs.update(
            i,
            SessionLogView { session_id: logs[i].session_id, entries: Seq::empty() },
        ),
        None => logs.push(SessionLogView { session_id: sid, entries: Seq::empty() }),
    }
}

/// The entry that a message makes at the time `now`.
pub open spec fn log_entry(
    now: u64,
    level: LogLevel,
    message: Seq<char>,
    source: Seq<char>,
    session_id: Option<Seq<char>>,
    request_id: Option<Seq<char>>,
) -> LogEntryView {
    LogEntryView { timestamp: now, level, message, source, session_id, request_id }
}

impl LogFilterView {
    /// Whether the filter asks for anything.
    pub open spec fn is_active(self) -> bool {
        self.app_id is Some || self.tool_id is Some || self.session_id is Some || self.level is Some
    }

    /// Whether the filter lets the entry through: the session and the level
    /// must be the ones asked for, where any is.
    pub open spec fn matches(self, entry: LogEntryView) -> bool {
        &&& self.session_id is Some ==> entry.session_id == self.session_id
        &&& self.level matches Some(level) ==> entry.level == level
    }

    /// The entries that the filter shows.
    pub open spec fn shown(self, logs: Seq<LogEntryView>) -> Seq<LogEntryView> {
        if self.is_active() {
            logs.filter(|e: LogEntryView| self.matches(e))
        } else {
            logs
        }
    }
}

impl LogFilter {
    pub fn is_active(&self) -> (r: bool)
        ensures
            r == self@.is_active(),
    {
        self.app_id.is_some() || self.tool_id.is_some() || self.session_id.is_some()
            || self.level.is_some()
    }

    pub fn matches(&self, entry: &LogEntry) -> (r: bool)
        ensures
            r == self@.matches(entry@),
    {
        match &self.session_id {
            Some(wanted) => match &entry.session_id {
                Some(sid) => {
                    if !str_eq(sid.as_str(), wanted.as_str()) {
                        return false;
                    }
                },
                None => {
                    return false;
                },
            },
            None => {},
        }
        match self.level {
            Some(level) => {
                if entry.level != level {
                    return false;
                }
            },
            None => {},
        }
        true
    }

    pub fn clear(&mut self)
        ensures
            final(self)@ == LogFilterView::initial(),
    {
        self.app_id = None;
        self.tool_id = None;
        self.session_id = None;
        self.level = None;
    }
}

impl DashboardStateView {
    /// The state with one more log entry: at the end of the log over all
    /// sessions and, where the entry names a session, of the log of that
    /// session too.
    pub open spec fn logged(self, entry: LogEntryView) -> DashboardStateView {
        DashboardStateView {
            session_logs: match entry.session_id {
                Some(sid) => session_log_added(self.session_logs, sid, entry),
                None => self.session_logs,
            },
            logs: ring_push(self.logs, entry, MAX_LOGS as nat),
            ..self
        }
    }

    /// The state after a message without session or request was logged at `now`.
    pub open spec fn noted(
        self,
        now: u64,
        level: LogLevel,
        message: Seq<char>,
        source: Seq<char>,
    ) -> DashboardStateView {
        self.logged(log_entry(now, level, message, source, None, None))
    }

    /// The state after a fault was shown at `now`: it is counted, joins the
    /// recent faults and is logged.
    pub open spec fn faulted(self, now: u64, error: Seq<char>) -> DashboardStateView {
        DashboardStateView {
            parse_failures: if self.parse_failures == u64::MAX {
                u64::MAX
            } else {
                (self.parse_failures + 1) as u64
            },
            recent_errors: ring_push(self.recent_errors, error, MAX_RECENT_ERRORS as nat),
            ..self
        }.noted(now, LogLevel::Error, error, "system"@)
    }
}

impl DashboardState {
    /// Puts an entry at the end of the log, and of the log of its session.
    pub fn add_log_entry(&mut self, entry: LogEntry)
        ensures
            final(self)@ == old(self)@.logged(entry@),
    {
        let ghost before = self.session_logs.deep_view();
        match &entry.session_id {
            Some(sid) => {
                match position(&self.session_logs, sid.as_str()) {
                    Some(i) => {
                        let mut log = self.session_logs.remove(i);
                        let ghost entries = log.entries.deep_view();
                        log.entries.push(entry.clone());
                        if log.entries.len() > MAX_SESSION_LOGS {
                            log.entries.remove(0);
                        }
                        assert(log.entries.deep_view() =~= ring_push(
                            entries,
                            entry@,
                            MAX_SESSION_LOGS as nat,
                        ));
                        self.session_logs.insert(i, log);
                        assert(self.session_logs.deep_view() =~= session_log_added(
                            before,
                            sid@,
                            entry@,
                        ));
                    },
                    None => {
                        let mut entries: Vec<LogEntry> = Vec::new();
                        entries.push(entry.clone());
                        assert(entries.deep_view() =~= seq![entry@]);
                        self.session_logs.push(SessionLog { session_id: sid.clone(), entries });
                        assert(self.session_logs.deep_view() =~= session_log_added(
                            before,
                            sid@,
                            entry@,
                        ));
                    },
                }
            },
            None => {},
        }
        let ghost logs = self.logs.deep_view();
        let ghost e = entry@;
        self.logs.push(entry);
        if self.logs.len() > MAX_LOGS {
            self.logs.remove(0);
        }
        assert(self.logs.deep_view() =~= ring_push(logs, e, MAX_LOGS as nat));
    }

    /// Logs a message at the time `now`.
    pub fn add_log_with_context(
        &mut self,
        now: u64,
        level: LogLevel,
        message: String,
        source: &str,
        session_id: Option<String>,
        request_id: Option<String>,
    )
        ensures
            final(self)@ == old(self)@.logged(
                log_entry(
                    now,
                    level,
                    message@,
                    source@,
                    session_id.deep_view(),
                    request_id.deep_view(),
                ),
            ),
    {
        let entry = LogEntry {
            timestamp: now,
            level,
            message,
            source: source.to_owned(),
            session_id,
            request_id,
        };
        self.add_log_entry(entry);
    }

    /// Logs a message without session or request at the time `now`.
    pub fn add_log_at(&mut self, now: u64, level: LogLevel, message: String, source: &str)
        ensures
            final(self)@ == old(self)@.noted(now, level, message@, source@),
    {
        self.add_log_with_context(now, level, message, source, None, None);
    }

    /// Logs a message without session or request at the present time.
    pub fn add_log(&mut self, level: LogLevel, message: String, source: &str)
        ensures
            exists|now: u64| final(self)@ == old(self)@.noted(now, level, message@, source@),
    {
        let now = now_millis();
        self.add_log_at(now, level, message, source);
    }

    /// Shows a fault at the time `now`.
    pub fn add_error_at(&mut self, now: u64, error: String)
        ensures
            final(self)@ == old(self)@.faulted(now, error@),
            old(self)@.apps_counted() ==> final(self)@.apps_counted(),
    {
        self.parse_failures = self.parse_failures.saturating_add(1);
        let ghost errors = self.recent_errors.deep_view();
        if self.recent_errors.len() >= MAX_RECENT_ERRORS {
            self.recent_errors.remove(0);
        }
        self.recent_errors.push(error.clone());
        assert(self.recent_errors.deep_view() =~= ring_push(
            errors,
            error@,
            MAX_RECENT_ERRORS as nat,
        ));
        self.add_log_at(now, LogLevel::Error, error, "system");
    }

    /// Shows a fault at the present time.
    pub fn add_error(&mut self, error: String)
        ensures
            exists|now: u64| final(self)@ == old(self)@.faulted(now, error@),
    {
        let now = now_millis();
        self.add_error_at(now, error);
    }
}

/// The level that a log line names after its source, and the message that
/// follows; a line that names no level counts as information.
pub open spec fn level_and_message(after: Seq<char>) -> (LogLevel, Seq<char>) {
    if starts_with(after, "ERROR"@) {
        (LogLevel::Error, trim_start(after.skip("ERROR"@.len() as int)))
    } else if starts_with(after, "WARN"@) {
        (LogLevel::Warn, trim_start(after.skip("WARN"@.len() as int)))
    } else if starts_with(after, "INFO"@) {
        (LogLevel::Info, trim_start(after.skip("INFO"@.len() as int)))
    } else if starts_with(after, "DEBUG"@) {
        (LogLevel::Debug, trim_start(after.skip("DEBUG"@.len() as int)))
    } else if starts_with(after, "VERBOSE"@) {
        (LogLevel::Debug, trim_start(after.skip("VERBOSE"@.len() as int)))
    } else {
        (LogLevel::Info, after)
    }
}

/// The level, the source and the message of a line of the form
/// `[time] [source] LEVEL message`; `None` for a line of another form.
pub open spec fn structured_log(line: Seq<char>) -> Option<(LogLevel, Seq<char>, Seq<char>)> {
    if !(line.len() > 0 && line[0] == '[') {
        None
    } else {
        match first_index_from(line, ']', 0) {
            None => None,
            Some(time_end) => {
                let rest = trim_start(line.skip(time_end + 1));
                if !(rest.len() > 0 && rest[0] == '[') {
                    None
                } else {
                    match first_index_from(rest, ']', 0) {
                        None => None,
                        Some(source_end) => {
                            let found = level_and_message(
                                trim_start(rest.skip(source_end + 1)),
                            );
                            Some((found.0, rest.subrange(1, source_end), found.1))
                        },
                    }
                }
            },
        }
    }
}

fn cut_level(after: &Vec<char>, name: &str) -> (r: Option<Vec<char>>)
    ensures
        r is Some == starts_with(after@, name@),
        r matches Some(m) ==> m@ == trim_start(after@.skip(name@.len() as int)),
{
    let pat = chars_of(name);
    if occurs_at_exec(after, &pat, 0) {
        let tail = slice_chars(after, pat.len(), after.len());
        Some(trim_start_exec(&tail))
    } else {
        None
    }
}

fn level_and_message_exec(after: Vec<char>) -> (r: (LogLevel, Vec<char>))
    ensures
        (r.0, r.1@) == level_and_message(after@),
{
    if let Some(m) = cut_level(&after, "ERROR") {
        (LogLevel::Error, m)
    } else if let Some(m) = cut_level(&after, "WARN") {
        (LogLevel::Warn, m)
    } else if let Some(m) = cut_level(&after, "INFO") {
        (LogLevel::Info, m)
    } else if let Some(m) = cut_level(&after, "DEBUG") {
        (LogLevel::Debug, m)
    } else if let Some(m) = cut_level(&after, "VERBOSE") {
        (LogLevel::Debug, m)
    } else {
        (LogLevel::Info, after)
    }
}

/// Reads a line of the form `[time] [source] LEVEL message`.
pub fn parse_structured_log(line: &str) -> (r: Option<(LogLevel, String, String)>)
    ensures
        match r {
            Some((level, source, message)) => structured_log(line@) == Some(
                (level, source@, message@),
            ),
            None => structured_log(line@) is None,
        },
{
    let chars = chars_of(line);
    if !(chars.len() > 0 && chars[0] == '[') {
        return None;
    }
    let time_end = match first_index_from_exec(&chars, ']', 0) {
        Some(i) => i,
        None => {
            return None;
        },
    };
    let tail = slice_chars(&chars, time_end + 1, chars.len());
    let rest = trim_start_exec(&tail);
    if !(rest.len() > 0 && rest[0] == '[') {
        return None;
    }
    let source_end = match first_index_from_exec(&rest, ']', 0) {
        Some(i) => i,
        None => {
            return None;
        },
    };
    let source = slice_chars(&rest, 1, source_end);
    let tail2 = slice_chars(&rest, source_end + 1, rest.len());
    let after = trim_start_exec(&tail2);
    let found = level_and_message_exec(after);
    Some((found.0, string_from_chars(&source), string_from_chars(&found.1)))
}

impl DashboardStateView {
    /// The state after a line that is no event came in at `now`: a line of
    /// the structured form is logged; a blank line is dropped; any other line
    /// continues the newest log entry, or starts the log where it is empty.
    pub open spec fn raw_logged(self, now: u64, line: Seq<char>) -> DashboardStateView {
        match structured_log(line) {
            Some((level, source, message)) => self.noted(now, level, message, source),
            None => if is_blank(line) {
                self
            } else if self.logs.len() > 0 {
                DashboardStateView {
                    logs: self.logs.update(
                        self.logs.len() - 1,
                        LogEntryView {
                            message: self.logs.last().message + "\n"@ + line,
                            ..self.logs.last()
                        },
                    ),
                    ..self
                }
            } else {
                self.noted(now, LogLevel::Info, line, "output"@)
            },
        }
    }

    /// The log entries of the selected session; none where no session is
    /// selected or the selected one has no log.
    pub open spec fn selected_logs(self) -> Seq<LogEntryView> {
        match self.selected_session {
            Some(sid) => match index_of(keys_of::<SessionLog>(self.session_logs), sid) {
                Some(i) => self.session_logs[i].entries,
                None => Seq::empty(),
            },
            None => Seq::empty(),
        }
    }
}

impl DashboardState {
    /// Takes in a line that is no event, at the time `now`.
    pub fn add_raw_log_at(&mut self, now: u64, line: String)
        ensures
            final(self)@ == old(self)@.raw_logged(now, line@),
            old(self)@.apps_counted() ==> final(self)@.apps_counted(),
    {
        match parse_structured_log(line.as_str()) {
            Some((level, source, message)) => {
                self.add_log_at(now, level, message, source.as_str());
            },
            None => {
                let chars = chars_of(line.as_str());
                if !is_blank_exec(&chars) {
                    let ghost logs = self.logs.deep_view();
                    match self.logs.pop() {
                        Some(last) => {
                            let mut last = last;
                            let ghost l0 = last@;
                            last.message.append("\n");
                            last.message.append(line.as_str());
                            self.logs.push(last);
                            assert(self.logs.deep_view() =~= logs.update(
                                logs.len() - 1,
                                LogEntryView { message: l0.message + "\n"@ + line@, ..l0 },
                            ));
                        },
                        None => {
                            assert(self.logs.deep_view() =~= logs);
                            self.add_log_at(now, LogLevel::Info, line, "output");
                        },
                    }
                }
            },
        }
    }

    /// Takes in a line that is no event, at the present time.
    pub fn add_raw_log(&mut self, line: String)
        ensures
            exists|now: u64| final(self)@ == old(self)@.raw_logged(now, line@),
    {
        let now = now_millis();
        self.add_raw_log_at(now, line);
    }

    /// The log entries that the filter shows, oldest first.
    pub fn filtered_logs(&self) -> (r: Vec<&LogEntry>)
        ensures
            r.deep_view() == self@.log_filter.shown(self@.logs),
    {
        let active = self.log_filter.is_active();
        let ghost pred = |e: LogEntryView| self@.log_filter.matches(e);
        let ghost logs = self.logs.deep_view();
        let mut out: Vec<&LogEntry> = Vec::new();
        let mut i: usize = 0;
        assert(logs.take(0) =~= Seq::<LogEntryView>::empty());
        while i < self.logs.len()
            invariant
                i <= self.logs.len(),
                logs == self.logs.deep_view(),
                active == self@.log_filter.is_active(),
                pred == |e: LogEntryView| self@.log_filter.matches(e),
                active ==> out.deep_view() == logs.take(i as int).filter(pred),
                !active ==> out.deep_view() == logs.take(i as int),
            decreases self.logs.len() - i,
        {
            let ghost o = out.deep_view();
            proof {
                assert(logs.take(i + 1) =~= logs.take(i as int).push(logs[i as int]));
                logs.take(i as int).lemma_filter_push(logs[i as int], pred);
            }
            if !active || self.log_filter.matches(&self.logs[i]) {
                out.push(&self.logs[i]);
                assert(out.deep_view() =~= o.push(logs[i as int]));
            }
            i += 1;
        }
        assert(logs.take(logs.len() as int) =~= logs);
        out
    }

    /// The log entries of the selected session, oldest first.
    pub fn selected_session_logs(&self) -> (r: Vec<&LogEntry>)
        ensures
            r.deep_view() == self@.selected_logs(),
    {
        let mut out: Vec<&LogEntry> = Vec::new();
        assert(out.deep_view() =~= Seq::<LogEntryView>::empty());
        match &self.selected_session {
            Some(sid) => match position(&self.session_logs, sid.as_str()) {
                Some(k) => {
                    let entries = &self.session_logs[k].entries;
                    let mut i: usize = 0;
                    while i < entries.len()
                        invariant
                            i <= entries.len(),
                            out.deep_view() == entries.deep_view().take(i as int),
                        decreases entries.len() - i,
                    {
                        let ghost o = out.deep_view();
                        out.push(&entries[i]);
                        assert(out.deep_view() =~= o.push(entries.deep_view()[i as int]));
                        assert(entries.deep_view().take(i + 1) =~= entries.deep_view().take(
                            i as int,
                        ).push(entries.deep_view()[i as int]));
                        i += 1;
                    }
                    assert(entries.deep_view().take(entries.len() as int) =~= entries.deep_view());
                    out
                },
                None => out,
            },
            None => out,
        }
    }
}

} // verus!
