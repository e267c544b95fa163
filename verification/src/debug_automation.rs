//! Automated investigation of failed tests from node logs.
//!
//! Logs are parsed, ordered into a timeline, matched against known error
//! patterns, correlated in time, and turned into a likely root cause and
//! prioritised fix suggestions.

use vstd::prelude::*;
use crate::text::{
    to_lowercase, to_uppercase, unicode_lowercase, unicode_uppercase, has_substring, trimmed,
    split_on, contains, contains_char, trim, split, lemma_split_nonempty, concat2, concat3, owned,
    string_views, str_eq, decimal, rounded_percent, percent_of, lines_text, write_line, usize_to_text,
    u64_to_text, u128_to_text,
};
use crate::registry::TestAnomaly;
use crate::platform::unix_time_ms;

verus! {

// ---------------------------------------------------------------------------
// Severity and patterns
// ---------------------------------------------------------------------------

/// Severity of an anomaly, from least to most severe.
#[derive(Debug, Clone, Copy, PartialEq, Eq, PartialOrd, Ord, Hash, Structural)]
pub enum Severity {
    /// Informational message.
    Info,
    /// Potential issue.
    Warning,
    /// Definite problem.
    Error,
    /// System failure.
    Critical,
}

impl Severity {
    /// Position in the order `Info < Warning < Error < Critical`.
    pub open spec fn rank(self) -> nat {
        match self {
            Severity::Info => 0,
            Severity::Warning => 1,
            Severity::Error => 2,
            Severity::Critical => 3,
        }
    }

    /// Whether `self` is at least as severe as `other`.
    pub fn at_least(self, other: Severity) -> (r: bool)
        ensures
            r == (self.rank() >= other.rank()),
    {
        let a: u8 = match self {
            Severity::Info => 0,
            Severity::Warning => 1,
            Severity::Error => 2,
            Severity::Critical => 3,
        };
        let b: u8 = match other {
            Severity::Info => 0,
            Severity::Warning => 1,
            Severity::Error => 2,
            Severity::Critical => 3,
        };
        a >= b
    }

    /// The label written for the severity in reports.
    pub open spec fn label_spec(self) -> Seq<char> {
        match self {
            Severity::Info => "INFO"@,
            Severity::Warning => "WARN"@,
            Severity::Error => "ERROR"@,
            Severity::Critical => "CRITICAL"@,
        }
    }

    /// The label written for the severity in reports.
    pub fn label(self) -> (s: &'static str)
        ensures
            s@ == self.label_spec(),
    {
        match self {
            Severity::Info => "INFO",
            Severity::Warning => "WARN",
            Severity::Error => "ERROR",
            Severity::Critical => "CRITICAL",
        }
    }
}

/// A pattern of log messages that indicates a known problem.
pub struct ErrorPattern {
    /// Name of the pattern.
    pub name: String,
    /// Alternatives separated by `|`, matched case-insensitively.
    pub pattern: String,
    /// Severity when matched.
    pub severity: Severity,
    /// Suggested cause.
    pub suggested_cause: String,
    /// Suggested fix.
    pub suggested_fix: String,
}

/// Mathematical value of an [`ErrorPattern`].
pub struct ErrorPatternView {
    pub name: Seq<char>,
    pub pattern: Seq<char>,
    pub severity: Severity,
    pub suggested_cause: Seq<char>,
    pub suggested_fix: Seq<char>,
}

impl View for ErrorPattern {
    type V = ErrorPatternView;

    open spec fn view(&self) -> ErrorPatternView {
        ErrorPatternView {
            name: self.name@,
            pattern: self.pattern@,
            severity: self.severity,
            suggested_cause: self.suggested_cause@,
            suggested_fix: self.suggested_fix@,
        }
    }
}

impl ErrorPattern {
    /// A pattern with the given parts.
    pub fn new(name: &str, pattern: &str, severity: Severity, cause: &str, fix: &str) -> (p: Self)
        ensures
            p@ == (ErrorPatternView {
                name: name@,
                pattern: pattern@,
                severity,
                suggested_cause: cause@,
                suggested_fix: fix@,
            }),
    {
        ErrorPattern {
            name: owned(name),
            pattern: owned(pattern),
            severity,
            suggested_cause: owned(cause),
            suggested_fix: owned(fix),
        }
    }
}

impl ErrorPattern {
    /// An independent copy.
    pub fn duplicate(&self) -> (p: Self)
        ensures
            p@ == self@,
    {
        ErrorPattern {
            name: self.name.clone(),
            pattern: self.pattern.clone(),
            severity: self.severity,
            suggested_cause: self.suggested_cause.clone(),
            suggested_fix: self.suggested_fix.clone(),
        }
    }
}

/// A pattern view built from its parts.
pub open spec fn pattern_of(name: &str, pattern: &str, severity: Severity, cause: &str, fix: &str) -> ErrorPatternView {
    ErrorPatternView { name: name@, pattern: pattern@, severity, suggested_cause: cause@, suggested_fix: fix@ }
}

/// The known failure patterns, in the order they are tried.
pub open spec fn default_patterns_spec() -> Seq<ErrorPatternView> {
    seq![
        pattern_of("zero_active_peers", "active peers|0 active|active_view_size: 0|active view: 0", Severity::Error,
            "HyParView not bootstrapping - no initial peers or join failed",
            "Check registry connectivity, verify peer list is non-empty"),
        pattern_of("address_accumulation", "too many addresses|address overflow|addresses accumulated", Severity::Warning,
            "Address accumulation - peers not pruning stale addresses",
            "Check address TTL settings, verify cleanup task is running"),
        pattern_of("connection_timeout", "connection timeout|timed out|ConnectTimeout|connect failed", Severity::Warning,
            "Connection timeouts - network issues or firewall blocking",
            "Check firewall rules, verify QUIC ports are open (UDP)"),
        pattern_of("state_divergence", "divergent state|state mismatch|convergence failed|not converged", Severity::Critical,
            "CRDT state divergence - nodes not converging",
            "Check vector clock sync, verify gossip message delivery"),
        pattern_of("gossip_drop", "message dropped|gossip failed|broadcast error|delivery failed", Severity::Warning,
            "Gossip messages being dropped",
            "Check message queue sizes, verify network bandwidth"),
        pattern_of("memory_pressure", "out of memory|OOM|memory exhausted|allocation failed", Severity::Critical,
            "Memory exhaustion - likely a leak or unbounded growth",
            "Check for unbounded collections, profile memory usage"),
        pattern_of("certificate_error", "certificate invalid|cert error|TLS failed|handshake failed", Severity::Error,
            "Certificate/TLS issues - likely expired or misconfigured",
            "Check certificate dates, verify crypto configuration"),
        pattern_of("panic", "panic|PANIC|panicked|unwrap failed", Severity::Critical,
            "Code panic - unexpected error condition",
            "Check stack trace for source location"),
        pattern_of("swim_false_positive", "false positive|incorrectly marked dead|alive but dead", Severity::Warning,
            "SWIM false positive - live node marked as dead",
            "Check SWIM timeout settings, reduce suspicion threshold"),
        pattern_of("nat_traversal_failed", "NAT traversal failed|hole punch failed|relay required", Severity::Warning,
            "NAT traversal failing - fallback to relay needed",
            "Check relay availability, verify STUN server connectivity"),
    ]
}

/// Views of a sequence of patterns.
pub open spec fn pattern_views(s: Seq<ErrorPattern>) -> Seq<ErrorPatternView> {
    s.map_values(|p: ErrorPattern| p@)
}

/// The known failure patterns.
pub fn default_error_patterns() -> (v: Vec<ErrorPattern>)
    ensures
        pattern_views(v@) == default_patterns_spec(),
{
    let mut v: Vec<ErrorPattern> = Vec::new();
    v.push(ErrorPattern::new("zero_active_peers", "active peers|0 active|active_view_size: 0|active view: 0", Severity::Error,
        "HyParView not bootstrapping - no initial peers or join failed",
        "Check registry connectivity, verify peer list is non-empty"));
    v.push(ErrorPattern::new("address_accumulation", "too many addresses|address overflow|addresses accumulated", Severity::Warning,
        "Address accumulation - peers not pruning stale addresses",
        "Check address TTL settings, verify cleanup task is running"));
    v.push(ErrorPattern::new("connection_timeout", "connection timeout|timed out|ConnectTimeout|connect failed", Severity::Warning,
        "Connection timeouts - network issues or firewall blocking",
        "Check firewall rules, verify QUIC ports are open (UDP)"));
    v.push(ErrorPattern::new("state_divergence", "divergent state|state mismatch|convergence failed|not converged", Severity::Critical,
        "CRDT state divergence - nodes not converging",
        "Check vector clock sync, verify gossip message delivery"));
    v.push(ErrorPattern::new("gossip_drop", "message dropped|gossip failed|broadcast error|delivery failed", Severity::Warning,
        "Gossip messages being dropped",
        "Check message queue sizes, verify network bandwidth"));
    v.push(ErrorPattern::new("memory_pressure", "out of memory|OOM|memory exhausted|allocation failed", Severity::Critical,
        "Memory exhaustion - likely a leak or unbounded growth",
        "Check for unbounded collections, profile memory usage"));
    v.push(ErrorPattern::new("certificate_error", "certificate invalid|cert error|TLS failed|handshake failed", Severity::Error,
        "Certificate/TLS issues - likely expired or misconfigured",
        "Check certificate dates, verify crypto configuration"));
    v.push(ErrorPattern::new("panic", "panic|PANIC|panicked|unwrap failed", Severity::Critical,
        "Code panic - unexpected error condition",
        "Check stack trace for source location"));
    v.push(ErrorPattern::new("swim_false_positive", "false positive|incorrectly marked dead|alive but dead", Severity::Warning,
        "SWIM false positive - live node marked as dead",
        "Check SWIM timeout settings, reduce suspicion threshold"));
    v.push(ErrorPattern::new("nat_traversal_failed", "NAT traversal failed|hole punch failed|relay required", Severity::Warning,
        "NAT traversal failing - fallback to relay needed",
        "Check relay availability, verify STUN server connectivity"));
    assert(pattern_views(v@) =~= default_patterns_spec());
    v
}

/// Configuration of the debugger.
pub struct DebuggerConfig {
    /// Maximum number of log lines kept for analysis.
    pub max_log_lines: usize,
    /// Time window within which anomalies are related (ms).
    pub correlation_window_ms: u64,
    /// Known error patterns.
    pub error_patterns: Vec<ErrorPattern>,
    /// Minimum severity reported.
    pub min_severity: Severity,
}

impl Default for DebuggerConfig {
    /// 10 000 lines, a 5 s window, the known patterns, warnings and above.
    fn default() -> (c: Self)
        ensures
            c.max_log_lines == 10_000,
            c.correlation_window_ms == 5000,
            pattern_views(c.error_patterns@) == default_patterns_spec(),
            c.min_severity == Severity::Warning,
    {
        DebuggerConfig {
            max_log_lines: 10_000,
            correlation_window_ms: 5000,
            error_patterns: default_error_patterns(),
            min_severity: Severity::Warning,
        }
    }
}

impl DebuggerConfig {
    /// An independent copy.
    pub fn duplicate(&self) -> (c: Self)
        ensures
            c.max_log_lines == self.max_log_lines,
            c.correlation_window_ms == self.correlation_window_ms,
            pattern_views(c.error_patterns@) == pattern_views(self.error_patterns@),
            c.min_severity == self.min_severity,
    {
        let mut pats: Vec<ErrorPattern> = Vec::new();
        let mut i: usize = 0;
        while i < self.error_patterns.len()
            invariant
                0 <= i <= self.error_patterns@.len(),
                pattern_views(pats@) == pattern_views(self.error_patterns@).take(i as int),
            decreases self.error_patterns@.len() - i,
        {
            let ghost before = pats@;
            let p = self.error_patterns[i].duplicate();
            pats.push(p);
            assert(pattern_views(pats@) =~= pattern_views(before).push(self.error_patterns@[i as int]@));
            assert(pattern_views(self.error_patterns@).take(i + 1)
                =~= pattern_views(self.error_patterns@).take(i as int).push(self.error_patterns@[i as int]@));
            i = i + 1;
        }
        assert(pattern_views(self.error_patterns@).take(self.error_patterns@.len() as int) =~= pattern_views(self.error_patterns@));
        DebuggerConfig {
            max_log_lines: self.max_log_lines,
            correlation_window_ms: self.correlation_window_ms,
            error_patterns: pats,
            min_severity: self.min_severity,
        }
    }
}

// ---------------------------------------------------------------------------
// Log entries
// ---------------------------------------------------------------------------

/// A log line of a node.
pub struct LogEntry {
    /// Source node.
    pub node_id: String,
    /// Log time, in milliseconds since the Unix epoch.
    pub timestamp_ms: u64,
    /// Log level.
    pub level: String,
    /// Log message.
    pub message: String,
    /// Source file, if known.
    pub source_file: Option<String>,
    /// Line number, if known.
    pub line_number: Option<u32>,
}

/// Mathematical value of a [`LogEntry`].
pub struct LogEntryView {
    pub node_id: Seq<char>,
    pub timestamp_ms: u64,
    pub level: Seq<char>,
    pub message: Seq<char>,
}

impl View for LogEntry {
    type V = LogEntryView;

    open spec fn view(&self) -> LogEntryView {
        LogEntryView {
            node_id: self.node_id@,
            timestamp_ms: self.timestamp_ms,
            level: self.level@,
            message: self.message@,
        }
    }
}

/// Views of a sequence of log entries.
pub open spec fn log_views(s: Seq<LogEntry>) -> Seq<LogEntryView> {
    s.map_values(|l: LogEntry| l@)
}

impl LogEntry {
    /// An entry of `node_id` at `timestamp_ms` with no source location.
    pub fn new(node_id: &str, timestamp_ms: u64, level: &str, message: &str) -> (e: Self)
        ensures
            e@ == (LogEntryView { node_id: node_id@, timestamp_ms, level: level@, message: message@ }),
            e.source_file is None,
            e.line_number is None,
    {
        LogEntry {
            node_id: owned(node_id),
            timestamp_ms,
            level: owned(level),
            message: owned(message),
            source_file: None,
            line_number: None,
        }
    }

    /// The log time in milliseconds since the Unix epoch.
    pub fn timestamp_ms(&self) -> (t: u64)
        ensures
            t == self.timestamp_ms,
    {
        self.timestamp_ms
    }

    /// An independent copy of the entry.
    pub fn duplicate(&self) -> (e: Self)
        ensures
            e@ == self@,
            e.source_file == self.source_file,
            e.line_number == self.line_number,
    {
        LogEntry {
            node_id: self.node_id.clone(),
            timestamp_ms: self.timestamp_ms,
            level: self.level.clone(),
            message: self.message.clone(),
            source_file: match &self.source_file {
                Some(f) => Some(f.clone()),
                None => None,
            },
            line_number: self.line_number,
        }
    }
}

/// `message` matches `pattern`: case-insensitively, the pattern (or, when it
/// holds `|`, one of its trimmed alternatives) occurs in the message.
pub open spec fn pattern_matches(message: Seq<char>, pattern: Seq<char>) -> bool {
    let m = unicode_lowercase(message);
    let p = unicode_lowercase(pattern);
    if p.contains('|') {
        exists|i: int| 0 <= i < split_on(p, '|').len() && has_substring(m, trimmed(#[trigger] split_on(p, '|')[i]))
    } else {
        has_substring(m, p)
    }
}

/// The level that a trimmed log line is filed under.
pub open spec fn level_of(line: Seq<char>) -> Seq<char> {
    if has_substring(line, "ERROR"@) || has_substring(line, "error"@) {
        "ERROR"@
    } else if has_substring(line, "WARN"@) || has_substring(line, "warn"@) {
        "WARN"@
    } else if has_substring(line, "INFO"@) || has_substring(line, "info"@) {
        "INFO"@
    } else if has_substring(line, "DEBUG"@) || has_substring(line, "debug"@) {
        "DEBUG"@
    } else if has_substring(line, "TRACE"@) || has_substring(line, "trace"@) {
        "TRACE"@
    } else {
        "INFO"@
    }
}

/// The log levels, most severe first.
pub open spec fn level_names() -> Seq<Seq<char>> {
    seq!["ERROR"@, "WARN"@, "INFO"@, "DEBUG"@, "TRACE"@]
}

/// The log levels as they are written in lower case, in the same order.
pub open spec fn lower_level_names() -> Seq<Seq<char>> {
    seq!["error"@, "warn"@, "info"@, "debug"@, "trace"@]
}

/// `line` mentions level `k` of [`level_names`], in upper or lower case.
pub open spec fn mentions_level(line: Seq<char>, k: int) -> bool {
    has_substring(line, level_names()[k]) || has_substring(line, lower_level_names()[k])
}

/// A line is filed under the first level, most severe first, that it
/// mentions, and under INFO when it mentions none.
pub proof fn lemma_level_is_first_mentioned(line: Seq<char>, k: int)
    requires
        0 <= k < 5,
    ensures
        mentions_level(line, k) && (forall|j: int| 0 <= j < k ==> !mentions_level(line, j))
            ==> level_of(line) == level_names()[k],
        (forall|j: int| 0 <= j < 5 ==> !mentions_level(line, j)) ==> level_of(line) == "INFO"@,
{
    if mentions_level(line, k) && (forall|j: int| 0 <= j < k ==> !mentions_level(line, j)) {
        if k >= 1 { assert(!mentions_level(line, 0)); }
        if k >= 2 { assert(!mentions_level(line, 1)); }
        if k >= 3 { assert(!mentions_level(line, 2)); }
        if k >= 4 { assert(!mentions_level(line, 3)); }
    }
    if forall|j: int| 0 <= j < 5 ==> !mentions_level(line, j) {
        assert(!mentions_level(line, 0));
        assert(!mentions_level(line, 1));
        assert(!mentions_level(line, 2));
        assert(!mentions_level(line, 3));
        assert(!mentions_level(line, 4));
    }
}

/// Whether `message` matches `pattern` (see [`pattern_matches`]).
fn matches_pattern(message: &str, pattern: &str) -> (r: bool)
    ensures
        r == pattern_matches(message@, pattern@),
{
    let message_lower = to_lowercase(message);
    let pattern_lower = to_lowercase(pattern);
    if contains_char(pattern_lower.as_str(), '|') {
        let parts = split(pattern_lower.as_str(), '|');
        let ghost pieces = split_on(pattern_lower@, '|');
        let mut i: usize = 0;
        while i < parts.len()
            invariant
                pieces == split_on(pattern_lower@, '|'),
                message_lower@ == unicode_lowercase(message@),
                pattern_lower@ == unicode_lowercase(pattern@),
                pattern_lower@.contains('|'),
                parts@.len() == pieces.len(),
                forall|k: int| 0 <= k < parts@.len() ==> #[trigger] parts@[k]@ == pieces[k],
                0 <= i <= parts@.len(),
                forall|k: int| 0 <= k < i ==> !has_substring(message_lower@, trimmed(#[trigger] pieces[k])),
            decreases parts@.len() - i,
        {
            let piece = trim(parts[i].as_str());
            assert(parts@[i as int]@ == pieces[i as int]);
            if contains(message_lower.as_str(), piece.as_str()) {
                assert(0 <= i < split_on(pattern_lower@, '|').len()
                    && has_substring(message_lower@, trimmed(split_on(pattern_lower@, '|')[i as int])));
                return true;
            }
            i = i + 1;
        }
        false
    } else {
        contains(message_lower.as_str(), pattern_lower.as_str())
    }
}

// ---------------------------------------------------------------------------
// Timeline
// ---------------------------------------------------------------------------

/// Kinds of timeline events.
#[derive(Debug, Clone, Copy, PartialEq, Eq, Structural)]
pub enum EventType {
    /// Node started.
    NodeStart,
    /// Node stopped.
    NodeStop,
    /// Connection established.
    ConnectionEstablished,
    /// Connection lost.
    ConnectionLost,
    /// Error occurred.
    Error,
    /// Warning detected.
    Warning,
    /// State change.
    StateChange,
    /// Test result.
    TestResult,
}

/// One event of a timeline.
pub struct TimelineEvent {
    /// Source node.
    pub node_id: String,
    /// Event time, in milliseconds since the Unix epoch.
    pub timestamp_ms: u64,
    /// Kind of event.
    pub event_type: EventType,
    /// Description.
    pub description: String,
    /// Log entries behind the event.
    pub log_entries: Vec<LogEntry>,
}

/// Mathematical value of a [`TimelineEvent`].
pub struct TimelineEventView {
    pub node_id: Seq<char>,
    pub timestamp_ms: u64,
    pub event_type: EventType,
    pub description: Seq<char>,
    pub log_entries: Seq<LogEntryView>,
}

impl View for TimelineEvent {
    type V = TimelineEventView;

    open spec fn view(&self) -> TimelineEventView {
        TimelineEventView {
            node_id: self.node_id@,
            timestamp_ms: self.timestamp_ms,
            event_type: self.event_type,
            description: self.description@,
            log_entries: log_views(self.log_entries@),
        }
    }
}

impl TimelineEvent {
    /// The event time in milliseconds since the Unix epoch.
    pub fn timestamp_ms(&self) -> (t: u64)
        ensures
            t == self.timestamp_ms,
    {
        self.timestamp_ms
    }
}

/// Views of a sequence of events.
pub open spec fn event_views(s: Seq<TimelineEvent>) -> Seq<TimelineEventView> {
    s.map_values(|e: TimelineEvent| e@)
}

/// Views of a sequence of event references.
pub open spec fn event_ref_views(s: Seq<&TimelineEvent>) -> Seq<TimelineEventView> {
    s.map_values(|e: &TimelineEvent| e@)
}

/// The predicate "happened at `t`".
pub open spec fn at_time(t: u64) -> spec_fn(TimelineEventView) -> bool {
    |e: TimelineEventView| e.timestamp_ms == t
}

/// The predicate "from node `k`".
pub open spec fn event_from(k: Seq<char>) -> spec_fn(TimelineEventView) -> bool {
    |e: TimelineEventView| e.node_id == k
}

/// The predicate "within `[start, end]`".
pub open spec fn event_within(start: u64, end: u64) -> spec_fn(TimelineEventView) -> bool {
    |e: TimelineEventView| start <= e.timestamp_ms && e.timestamp_ms <= end
}

/// Events in non-decreasing time order.
pub open spec fn sorted_by_time(s: Seq<TimelineEventView>) -> bool {
    forall|i: int, j: int| 0 <= i <= j < s.len() ==> (#[trigger] s[i]).timestamp_ms <= (#[trigger] s[j]).timestamp_ms
}

/// `a` holds the events of `b`, with the events of each time in the same
/// relative order; with `sorted_by_time(a)` this makes `a` the stable sort of `b`.
pub open spec fn same_per_time(a: Seq<TimelineEventView>, b: Seq<TimelineEventView>) -> bool {
    forall|t: u64| #[trigger] a.filter(at_time(t)) == b.filter(at_time(t))
}

/// A timeline of events.
pub struct Timeline {
    events: Vec<TimelineEvent>,
}

impl View for Timeline {
    type V = Seq<TimelineEventView>;

    closed spec fn view(&self) -> Seq<TimelineEventView> {
        event_views(self.events@)
    }
}

/// Events at time `t` after inserting `e` at a position `p` whose
/// predecessors are no later and successors later than `e`.
proof fn lemma_insert_per_time(s: Seq<TimelineEventView>, p: int, e: TimelineEventView, t: u64)
    requires
        0 <= p <= s.len(),
        forall|k: int| p <= k < s.len() ==> (#[trigger] s[k]).timestamp_ms > e.timestamp_ms,
    ensures
        s.insert(p, e).filter(at_time(t)) == if e.timestamp_ms == t { s.filter(at_time(t)).push(e) } else { s.filter(at_time(t)) },
{
    let pre = s.subrange(0, p);
    let post = s.subrange(p, s.len() as int);
    assert(s.insert(p, e) =~= pre + seq![e] + post);
    assert(s =~= pre + post);
    Seq::filter_distributes_over_add(pre + seq![e], post, at_time(t));
    Seq::filter_distributes_over_add(pre, seq![e], at_time(t));
    Seq::filter_distributes_over_add(pre, post, at_time(t));
    reveal_with_fuel(Seq::filter, 2);
    assert(seq![e].drop_last() =~= Seq::<TimelineEventView>::empty());
    if e.timestamp_ms == t {
        assert forall|k: int| 0 <= k < post.len() implies !at_time(t)(#[trigger] post[k]) by {
            assert(post[k] == s[p + k]);
        }
        post.lemma_all_neg_filter_empty(at_time(t));
        assert(s.insert(p, e).filter(at_time(t)) =~= s.filter(at_time(t)).push(e));
    } else {
        assert(s.insert(p, e).filter(at_time(t)) =~= s.filter(at_time(t)));
    }
}

impl Timeline {
    /// An empty timeline.
    pub fn new() -> (t: Self)
        ensures
            t@.len() == 0,
    {
        let t = Timeline { events: Vec::new() };
        assert(t@ =~= Seq::<TimelineEventView>::empty());
        t
    }

    /// Appends `event`.
    pub fn add_event(&mut self, event: TimelineEvent)
        ensures
            final(self)@ == old(self)@.push(event@),
    {
        self.events.push(event);
        assert(self@ =~= old(self)@.push(event@));
    }

    /// All events, in timeline order.
    pub fn events(&self) -> (r: &[TimelineEvent])
        ensures
            event_views(r@) == self@,
    {
        self.events.as_slice()
    }

    /// The events of node `node_id`, in timeline order.
    pub fn events_for_node(&self, node_id: &str) -> (r: Vec<&TimelineEvent>)
        ensures
            event_ref_views(r@) == self@.filter(event_from(node_id@)),
    {
        let ghost s = self@;
        let mut r: Vec<&TimelineEvent> = Vec::new();
        let mut i: usize = 0;
        while i < self.events.len()
            invariant
                s == self@,
                0 <= i <= s.len(),
                event_ref_views(r@) == s.take(i as int).filter(event_from(node_id@)),
            decreases s.len() - i,
        {
            proof {
                assert(s.take(i + 1) =~= s.take(i as int).push(s[i as int]));
                s.take(i as int).lemma_filter_push(s[i as int], event_from(node_id@));
            }
            let ghost before = r@;
            if crate::text::str_eq(self.events[i].node_id.as_str(), node_id) {
                r.push(&self.events[i]);
                assert(event_ref_views(r@) =~= event_ref_views(before).push(s[i as int]));
            }
            i = i + 1;
        }
        assert(s.take(s.len() as int) =~= s);
        r
    }

    /// The events from `start_ms` to `end_ms` inclusive, in timeline order.
    pub fn events_in_window(&self, start_ms: u64, end_ms: u64) -> (r: Vec<&TimelineEvent>)
        ensures
            event_ref_views(r@) == self@.filter(event_within(start_ms, end_ms)),
    {
        let ghost s = self@;
        let mut r: Vec<&TimelineEvent> = Vec::new();
        let mut i: usize = 0;
        while i < self.events.len()
            invariant
                s == self@,
                0 <= i <= s.len(),
                event_ref_views(r@) == s.take(i as int).filter(event_within(start_ms, end_ms)),
            decreases s.len() - i,
        {
            proof {
                assert(s.take(i + 1) =~= s.take(i as int).push(s[i as int]));
                s.take(i as int).lemma_filter_push(s[i as int], event_within(start_ms, end_ms));
            }
            let ghost before = r@;
            let ts = self.events[i].timestamp_ms();
            if ts >= start_ms && ts <= end_ms {
                r.push(&self.events[i]);
                assert(event_ref_views(r@) =~= event_ref_views(before).push(s[i as int]));
            }
            i = i + 1;
        }
        assert(s.take(s.len() as int) =~= s);
        r
    }

    /// Orders the events by time, keeping the order of events with equal times.
    pub fn sort_by_time(&mut self)
        ensures
            sorted_by_time(final(self)@),
            same_per_time(final(self)@, old(self)@),
            final(self)@.len() == old(self)@.len(),
            final(self)@.to_multiset() == old(self)@.to_multiset(),
            sorted_by_time(old(self)@) ==> final(self)@ == old(self)@,
    {
        let ghost orig = self@;
        let mut rest: Vec<TimelineEvent> = Vec::new();
        std::mem::swap(&mut rest, &mut self.events);
        assert(event_views(rest@) == orig);
        let mut sorted: Vec<TimelineEvent> = Vec::new();
        let ghost mut done: int = 0;
        while rest.len() > 0
            invariant
                0 <= done <= orig.len(),
                event_views(rest@) == orig.skip(done),
                sorted_by_time(event_views(sorted@)),
                forall|t: u64| #[trigger] event_views(sorted@).filter(at_time(t)) == orig.take(done).filter(at_time(t)),
                sorted@.len() == done,
            decreases rest@.len(),
        {
            let ghost old_rest = rest@;
            assert(event_views(old_rest).len() == old_rest.len());
            assert(done < orig.len());
            let e = rest.remove(0);
            let ghost ev = e@;
            assert(event_views(old_rest)[0] == old_rest[0]@);
            assert(orig.skip(done)[0] == orig[done]);
            assert(ev == orig[done]);
            let ghost sv = event_views(sorted@);
            let mut p: usize = 0;
            while p < sorted.len() && sorted[p].timestamp_ms <= e.timestamp_ms
                invariant
                    sv == event_views(sorted@),
                    0 <= p <= sorted@.len(),
                    forall|k: int| 0 <= k < p ==> (#[trigger] sv[k]).timestamp_ms <= ev.timestamp_ms,
                    ev == e@,
                decreases sorted@.len() - p,
            {
                p = p + 1;
            }
            proof {
                assert forall|k: int| p <= k < sv.len() implies (#[trigger] sv[k]).timestamp_ms > ev.timestamp_ms by {
                    assert(sv[p as int].timestamp_ms > ev.timestamp_ms);
                    assert(sv[p as int].timestamp_ms <= sv[k].timestamp_ms);
                }
            }
            sorted.insert(p, e);
            proof {
                let nv = event_views(sorted@);
                assert(nv =~= sv.insert(p as int, ev));
                assert forall|t: u64| #[trigger] nv.filter(at_time(t)) == orig.take(done + 1).filter(at_time(t)) by {
                    lemma_insert_per_time(sv, p as int, ev, t);
                    assert(orig.take(done + 1) =~= orig.take(done).push(ev));
                    orig.take(done).lemma_filter_push(ev, at_time(t));
                }
                assert forall|i: int, j: int| 0 <= i <= j < nv.len() implies (#[trigger] nv[i]).timestamp_ms <= (#[trigger] nv[j]).timestamp_ms by {
                    if j < p {
                    } else if i > p {
                        assert(nv[i] == sv[i - 1]);
                        assert(nv[j] == sv[j - 1]);
                    } else if i == p {
                        if j > p {
                            assert(nv[j] == sv[j - 1]);
                        }
                    } else {
                        if j > p {
                            assert(nv[j] == sv[j - 1]);
                            assert(sv[i].timestamp_ms <= ev.timestamp_ms);
                        }
                    }
                }
                assert(orig.skip(done + 1) =~= orig.skip(done).drop_first());
                assert(event_views(rest@) =~= orig.skip(done + 1));
                done = done + 1;
            }
        }
        proof {
            assert(orig.skip(done).len() == 0);
            assert(orig.take(done) =~= orig);
            lemma_same_per_time_permutation(event_views(sorted@), orig);
            if sorted_by_time(orig) {
                lemma_stable_sort_unique(event_views(sorted@), orig);
            }
        }
        self.events = sorted;
    }
}

// ---------------------------------------------------------------------------
// Anomalies and suggestions
// ---------------------------------------------------------------------------

/// An anomaly found in the logs.
pub struct Anomaly {
    /// Severity of the matched pattern.
    pub severity: Severity,
    /// Name of the matched pattern.
    pub pattern_name: String,
    /// Node whose log matched.
    pub node_id: String,
    /// Time of the log entry, in milliseconds since the Unix epoch.
    pub timestamp_ms: u64,
    /// The log message.
    pub message: String,
    /// Suggested cause.
    pub suggested_cause: String,
    /// Suggested fix.
    pub suggested_fix: String,
    /// Positions of the anomalies close to this one in time.
    pub related: Vec<usize>,
}

/// Mathematical value of an [`Anomaly`].
pub struct AnomalyView {
    pub severity: Severity,
    pub pattern_name: Seq<char>,
    pub node_id: Seq<char>,
    pub timestamp_ms: u64,
    pub message: Seq<char>,
    pub suggested_cause: Seq<char>,
    pub suggested_fix: Seq<char>,
    pub related: Seq<usize>,
}

impl View for Anomaly {
    type V = AnomalyView;

    open spec fn view(&self) -> AnomalyView {
        AnomalyView {
            severity: self.severity,
            pattern_name: self.pattern_name@,
            node_id: self.node_id@,
            timestamp_ms: self.timestamp_ms,
            message: self.message@,
            suggested_cause: self.suggested_cause@,
            suggested_fix: self.suggested_fix@,
            related: self.related@,
        }
    }
}

/// Views of a sequence of anomalies.
pub open spec fn anomaly_views(s: Seq<Anomaly>) -> Seq<AnomalyView> {
    s.map_values(|a: Anomaly| a@)
}

/// The anomaly that pattern `p` raises for log entry `l`.
pub open spec fn anomaly_from(l: LogEntryView, p: ErrorPatternView) -> AnomalyView {
    AnomalyView {
        severity: p.severity,
        pattern_name: p.name,
        node_id: l.node_id,
        timestamp_ms: l.timestamp_ms,
        message: l.message,
        suggested_cause: p.suggested_cause,
        suggested_fix: p.suggested_fix,
        related: Seq::empty(),
    }
}

/// The map `p => anomaly_from(l, p)`.
pub open spec fn anomalies_of(l: LogEntryView) -> spec_fn(ErrorPatternView) -> AnomalyView {
    |p: ErrorPatternView| anomaly_from(l, p)
}

/// The predicate "pattern fires on `l` and is at least `min` severe".
pub open spec fn fires_on(l: LogEntryView, min: Severity) -> spec_fn(ErrorPatternView) -> bool {
    |p: ErrorPatternView| pattern_matches(l.message, p.pattern) && p.severity.rank() >= min.rank()
}

/// Anomalies raised by `l`, one per firing pattern, in pattern order.
pub open spec fn log_anomalies(l: LogEntryView, pats: Seq<ErrorPatternView>, min: Severity) -> Seq<AnomalyView> {
    pats.filter(fires_on(l, min)).map_values(anomalies_of(l))
}

/// Anomalies raised by `logs`, log by log.
pub open spec fn raw_anomalies(logs: Seq<LogEntryView>, pats: Seq<ErrorPatternView>, min: Severity) -> Seq<AnomalyView>
    decreases logs.len(),
{
    if logs.len() == 0 {
        Seq::empty()
    } else {
        raw_anomalies(logs.drop_last(), pats, min) + log_anomalies(logs.last(), pats, min)
    }
}

/// Two times lie within `w` of each other.
pub open spec fn within_window(a: u64, b: u64, w: u64) -> bool {
    (if a >= b { a - b } else { b - a }) <= w
}

/// The predicate "another anomaly of `s` within `w` of `s[k]`", over positions.
pub open spec fn related_to(s: Seq<AnomalyView>, k: int, w: u64) -> spec_fn(usize) -> bool {
    |j: usize| j != k && within_window(s[j as int].timestamp_ms, s[k].timestamp_ms, w)
}

/// Positions `0, 1, ..., n - 1`.
pub open spec fn positions(n: nat) -> Seq<usize> {
    Seq::new(n, |j: int| j as usize)
}

/// Positions of the anomalies within `w` of anomaly `k`, in increasing order.
pub open spec fn related_positions(s: Seq<AnomalyView>, k: int, w: u64) -> Seq<usize> {
    positions(s.len()).filter(related_to(s, k, w))
}

/// `a` with related positions `r`.
pub open spec fn with_related(a: AnomalyView, r: Seq<usize>) -> AnomalyView {
    AnomalyView { related: r, ..a }
}

/// A suggested fix.
pub struct SuggestedFix {
    /// The fix.
    pub description: String,
    /// Priority; higher is more important.
    pub priority: u32,
    /// Affected component.
    pub component: String,
    /// Code location, if known.
    pub code_location: Option<CodeLocation>,
}

/// A location in the source code.
pub struct CodeLocation {
    /// File path.
    pub file: String,
    /// Line number, if known.
    pub line: Option<u32>,
    /// Function name, if known.
    pub function: Option<String>,
}

/// Mathematical value of a [`SuggestedFix`].
pub struct SuggestedFixView {
    pub description: Seq<char>,
    pub priority: u32,
    pub component: Seq<char>,
    pub has_location: bool,
}

impl View for SuggestedFix {
    type V = SuggestedFixView;

    open spec fn view(&self) -> SuggestedFixView {
        SuggestedFixView {
            description: self.description@,
            priority: self.priority,
            component: self.component@,
            has_location: self.code_location is Some,
        }
    }
}

/// Views of a sequence of fixes.
pub open spec fn fix_views(s: Seq<SuggestedFix>) -> Seq<SuggestedFixView> {
    s.map_values(|f: SuggestedFix| f@)
}

/// Priority of a fix for an anomaly of severity `s`.
pub open spec fn priority_of(s: Severity) -> u32 {
    match s {
        Severity::Critical => 100,
        Severity::Error => 75,
        Severity::Warning => 50,
        Severity::Info => 25,
    }
}

/// The fix suggested for anomaly `a`.
pub open spec fn suggestion_of(a: AnomalyView) -> SuggestedFixView {
    SuggestedFixView {
        description: a.suggested_fix,
        priority: priority_of(a.severity),
        component: a.pattern_name,
        has_location: false,
    }
}

/// The first anomaly of each distinct suggested fix, in order.
pub open spec fn first_fixes(s: Seq<AnomalyView>) -> Seq<AnomalyView>
    decreases s.len(),
{
    if s.len() == 0 {
        Seq::empty()
    } else {
        let prev = first_fixes(s.drop_last());
        if exists|j: int| 0 <= j < s.len() - 1 && (#[trigger] s[j]).suggested_fix == s.last().suggested_fix {
            prev
        } else {
            prev.push(s.last())
        }
    }
}

/// The predicate "has priority `p`".
pub open spec fn has_priority(p: u32) -> spec_fn(SuggestedFixView) -> bool {
    |f: SuggestedFixView| f.priority == p
}

/// The suggestions for anomalies `s`: one per distinct fix, by priority from
/// highest to lowest, keeping first-occurrence order within a priority.
pub open spec fn suggestions_for(s: Seq<AnomalyView>) -> Seq<SuggestedFixView> {
    let d = first_fixes(s).map_values(|a: AnomalyView| suggestion_of(a));
    d.filter(has_priority(100)) + d.filter(has_priority(75)) + d.filter(has_priority(50)) + d.filter(has_priority(25))
}

/// A fix is among the first fixes of `s` exactly when some anomaly of `s` suggests it.
proof fn lemma_first_fixes(s: Seq<AnomalyView>, f: Seq<char>)
    ensures
        (exists|i: int| 0 <= i < first_fixes(s).len() && (#[trigger] first_fixes(s)[i]).suggested_fix == f)
            <==> (exists|j: int| 0 <= j < s.len() && (#[trigger] s[j]).suggested_fix == f),
    decreases s.len(),
{
    if s.len() > 0 {
        let init = s.drop_last();
        lemma_first_fixes(init, f);
        let prev = first_fixes(init);
        let ff = first_fixes(s);
        let dup = exists|k: int| 0 <= k < s.len() - 1 && (#[trigger] s[k]).suggested_fix == s.last().suggested_fix;
        if dup {
            assert(ff == prev);
        } else {
            assert(ff == prev.push(s.last()));
        }
        if exists|j: int| 0 <= j < s.len() && (#[trigger] s[j]).suggested_fix == f {
            let j = choose|j: int| 0 <= j < s.len() && (#[trigger] s[j]).suggested_fix == f;
            if j < init.len() {
                assert(init[j] == s[j]);
                assert(exists|j2: int| 0 <= j2 < init.len() && (#[trigger] init[j2]).suggested_fix == f);
                let i = choose|i: int| 0 <= i < prev.len() && (#[trigger] prev[i]).suggested_fix == f;
                assert(ff[i] == prev[i]);
                assert(exists|i2: int| 0 <= i2 < ff.len() && (#[trigger] ff[i2]).suggested_fix == f);
            } else if dup {
                let k = choose|k: int| 0 <= k < s.len() - 1 && (#[trigger] s[k]).suggested_fix == s.last().suggested_fix;
                assert(init[k] == s[k]);
                assert(exists|j2: int| 0 <= j2 < init.len() && (#[trigger] init[j2]).suggested_fix == f);
                let i = choose|i: int| 0 <= i < prev.len() && (#[trigger] prev[i]).suggested_fix == f;
                assert(ff[i] == prev[i]);
                assert(exists|i2: int| 0 <= i2 < ff.len() && (#[trigger] ff[i2]).suggested_fix == f);
            } else {
                assert(ff[prev.len() as int] == s.last());
                assert(exists|i2: int| 0 <= i2 < ff.len() && (#[trigger] ff[i2]).suggested_fix == f);
            }
        }
        if exists|i: int| 0 <= i < ff.len() && (#[trigger] ff[i]).suggested_fix == f {
            let i = choose|i: int| 0 <= i < ff.len() && (#[trigger] ff[i]).suggested_fix == f;
            if i < prev.len() {
                assert(ff[i] == prev[i]);
                assert(exists|i2: int| 0 <= i2 < prev.len() && (#[trigger] prev[i2]).suggested_fix == f);
                let j = choose|j: int| 0 <= j < init.len() && (#[trigger] init[j]).suggested_fix == f;
                assert(s[j] == init[j]);
                assert(exists|j2: int| 0 <= j2 < s.len() && (#[trigger] s[j2]).suggested_fix == f);
            } else {
                assert(ff[i] == s.last());
                assert(s[s.len() - 1] == s.last());
                assert(exists|j2: int| 0 <= j2 < s.len() && (#[trigger] s[j2]).suggested_fix == f);
            }
        }
    }
}

// ---------------------------------------------------------------------------
// Root cause
// ---------------------------------------------------------------------------

/// Number of anomalies of `s` raised by the pattern named `n`.
pub open spec fn count_pattern(s: Seq<AnomalyView>, n: Seq<char>) -> nat
    decreases s.len(),
{
    if s.len() == 0 {
        0
    } else {
        count_pattern(s.drop_last(), n) + if s.last().pattern_name == n { 1nat } else { 0nat }
    }
}

/// The first anomaly of each distinct pattern, in order of first appearance.
pub open spec fn first_patterns(s: Seq<AnomalyView>) -> Seq<AnomalyView>
    decreases s.len(),
{
    if s.len() == 0 {
        Seq::empty()
    } else {
        let prev = first_patterns(s.drop_last());
        if exists|j: int| 0 <= j < s.len() - 1 && (#[trigger] s[j]).pattern_name == s.last().pattern_name {
            prev
        } else {
            prev.push(s.last())
        }
    }
}

/// Among the first `n` entries of `f`, the position of the first pattern
/// raised most often in `s`.
pub open spec fn leader(f: Seq<AnomalyView>, s: Seq<AnomalyView>, n: nat) -> int
    decreases n,
{
    if n <= 1 {
        0
    } else {
        let b = leader(f, s, (n - 1) as nat);
        if count_pattern(s, f[n - 1].pattern_name) > count_pattern(s, f[b].pattern_name) {
            n - 1
        } else {
            b
        }
    }
}

/// How an anomaly is cited as evidence: `[node] message`.
pub open spec fn evidence_line(a: AnomalyView) -> Seq<char> {
    "["@ + a.node_id + "] "@ + a.message
}

/// Citations of the first five anomalies of `s` raised by pattern `n`.
pub open spec fn evidence_for(s: Seq<AnomalyView>, n: Seq<char>) -> Seq<Seq<char>>
    decreases s.len(),
{
    if s.len() == 0 {
        Seq::empty()
    } else {
        let e = evidence_for(s.drop_last(), n);
        if s.last().pattern_name == n && e.len() < 5 {
            e.push(evidence_line(s.last()))
        } else {
            e
        }
    }
}

/// A pattern name with the number of anomalies of `s` it raised.
pub open spec fn with_count(s: Seq<AnomalyView>) -> spec_fn(AnomalyView) -> (Seq<char>, nat) {
    |a: AnomalyView| (a.pattern_name, count_pattern(s, a.pattern_name))
}

/// Mathematical value of a [`RootCause`].
pub struct RootCauseView {
    pub primary_pattern: Seq<char>,
    pub primary_cause: Seq<char>,
    pub primary_severity: Severity,
    pub primary_count: nat,
    pub total_anomalies: nat,
    pub evidence: Seq<Seq<char>>,
    pub alternatives: Seq<(Seq<char>, nat)>,
}

/// The root cause that anomalies `s` point to: the pattern that raised most
/// of them (the first to appear among equals), explained by the cause of its
/// first anomaly; the other patterns are the alternatives, in order of
/// first appearance. No anomalies, no root cause.
pub open spec fn root_cause_of(s: Seq<AnomalyView>) -> Option<RootCauseView> {
    if s.len() == 0 {
        None
    } else {
        let f = first_patterns(s);
        let p = leader(f, s, f.len());
        let a = f[p];
        Some(RootCauseView {
            primary_pattern: a.pattern_name,
            primary_cause: a.suggested_cause,
            primary_severity: a.severity,
            primary_count: count_pattern(s, a.pattern_name),
            total_anomalies: s.len(),
            evidence: evidence_for(s, a.pattern_name),
            alternatives: (f.take(p) + f.skip(p + 1)).map_values(with_count(s)),
        })
    }
}

/// A pattern occurs among the first patterns of `s` exactly when some
/// anomaly of `s` was raised by it.
proof fn lemma_first_patterns(s: Seq<AnomalyView>, n: Seq<char>)
    ensures
        (exists|i: int| 0 <= i < first_patterns(s).len() && (#[trigger] first_patterns(s)[i]).pattern_name == n)
            <==> (exists|j: int| 0 <= j < s.len() && (#[trigger] s[j]).pattern_name == n),
    decreases s.len(),
{
    if s.len() > 0 {
        let init = s.drop_last();
        lemma_first_patterns(init, n);
        let prev = first_patterns(init);
        let ff = first_patterns(s);
        let dup = exists|k: int| 0 <= k < s.len() - 1 && (#[trigger] s[k]).pattern_name == s.last().pattern_name;
        if dup {
            assert(ff == prev);
        } else {
            assert(ff == prev.push(s.last()));
        }
        if exists|j: int| 0 <= j < s.len() && (#[trigger] s[j]).pattern_name == n {
            let j = choose|j: int| 0 <= j < s.len() && (#[trigger] s[j]).pattern_name == n;
            if j < init.len() {
                assert(init[j] == s[j]);
                assert(exists|j2: int| 0 <= j2 < init.len() && (#[trigger] init[j2]).pattern_name == n);
                let i = choose|i: int| 0 <= i < prev.len() && (#[trigger] prev[i]).pattern_name == n;
                assert(ff[i] == prev[i]);
                assert(exists|i2: int| 0 <= i2 < ff.len() && (#[trigger] ff[i2]).pattern_name == n);
            } else if dup {
                let k = choose|k: int| 0 <= k < s.len() - 1 && (#[trigger] s[k]).pattern_name == s.last().pattern_name;
                assert(init[k] == s[k]);
                assert(exists|j2: int| 0 <= j2 < init.len() && (#[trigger] init[j2]).pattern_name == n);
                let i = choose|i: int| 0 <= i < prev.len() && (#[trigger] prev[i]).pattern_name == n;
                assert(ff[i] == prev[i]);
                assert(exists|i2: int| 0 <= i2 < ff.len() && (#[trigger] ff[i2]).pattern_name == n);
            } else {
                assert(ff[prev.len() as int] == s.last());
                assert(exists|i2: int| 0 <= i2 < ff.len() && (#[trigger] ff[i2]).pattern_name == n);
            }
        }
        if exists|i: int| 0 <= i < ff.len() && (#[trigger] ff[i]).pattern_name == n {
            let i = choose|i: int| 0 <= i < ff.len() && (#[trigger] ff[i]).pattern_name == n;
            if i < prev.len() {
                assert(ff[i] == prev[i]);
                assert(exists|i2: int| 0 <= i2 < prev.len() && (#[trigger] prev[i2]).pattern_name == n);
                let j = choose|j: int| 0 <= j < init.len() && (#[trigger] init[j]).pattern_name == n;
                assert(s[j] == init[j]);
                assert(exists|j2: int| 0 <= j2 < s.len() && (#[trigger] s[j2]).pattern_name == n);
            } else {
                assert(ff[i] == s.last());
                assert(s[s.len() - 1] == s.last());
                assert(exists|j2: int| 0 <= j2 < s.len() && (#[trigger] s[j2]).pattern_name == n);
            }
        }
    }
}

/// A pattern that raised none of `s` counts zero; no count exceeds `s.len()`.
proof fn lemma_count_pattern(s: Seq<AnomalyView>, n: Seq<char>)
    ensures
        count_pattern(s, n) <= s.len(),
        !(exists|j: int| 0 <= j < s.len() && (#[trigger] s[j]).pattern_name == n) ==> count_pattern(s, n) == 0,
    decreases s.len(),
{
    if s.len() > 0 {
        let init = s.drop_last();
        lemma_count_pattern(init, n);
        if !(exists|j: int| 0 <= j < s.len() && (#[trigger] s[j]).pattern_name == n) {
            assert forall|j: int| 0 <= j < init.len() implies (#[trigger] init[j]).pattern_name != n by {
                assert(init[j] == s[j]);
            }
            assert(s[s.len() - 1] == s.last());
        }
    }
}

/// The most likely cause of a failure, with what supports it.
pub struct RootCause {
    /// Pattern that raised most anomalies.
    pub primary_pattern: String,
    /// The cause that pattern suggests.
    pub primary_cause: String,
    /// Severity of that pattern.
    pub primary_severity: Severity,
    /// Anomalies raised by that pattern.
    pub primary_count: usize,
    /// Anomalies in all.
    pub total_anomalies: usize,
    /// Citations of up to five anomalies of that pattern.
    pub evidence: Vec<String>,
    /// The other patterns with their numbers of anomalies.
    pub alternatives: Vec<(String, usize)>,
}

/// Views of pattern names paired with counts.
pub open spec fn alternative_views(s: Seq<(String, usize)>) -> Seq<(Seq<char>, nat)> {
    s.map_values(|x: (String, usize)| (x.0@, x.1 as nat))
}

impl View for RootCause {
    type V = RootCauseView;

    open spec fn view(&self) -> RootCauseView {
        RootCauseView {
            primary_pattern: self.primary_pattern@,
            primary_cause: self.primary_cause@,
            primary_severity: self.primary_severity,
            primary_count: self.primary_count as nat,
            total_anomalies: self.total_anomalies as nat,
            evidence: string_views(self.evidence@),
            alternatives: alternative_views(self.alternatives@),
        }
    }
}

/// Weight, in tenths, that the severity of the primary pattern adds to the
/// confidence in a root cause.
pub open spec fn severity_weight(s: Severity) -> nat {
    match s {
        Severity::Critical => 10,
        Severity::Error => 8,
        Severity::Warning => 6,
        Severity::Info => 4,
    }
}

impl RootCause {
    /// Confidence in the root cause as a fraction `(numerator, denominator)`:
    /// the mean of the share of anomalies the primary pattern raised and the
    /// weight of its severity (1, 0.8, 0.6 or 0.4 from critical to info).
    pub fn confidence_ratio(&self) -> (r: (u128, u128))
        ensures
            r.1 == 20 * self.total_anomalies,
            r.0 == 10 * self.primary_count + severity_weight(self.primary_severity) * self.total_anomalies,
    {
        let w: u128 = match self.primary_severity {
            Severity::Critical => 10,
            Severity::Error => 8,
            Severity::Warning => 6,
            Severity::Info => 4,
        };
        let total = self.total_anomalies as u128;
        let count = self.primary_count as u128;
        assert(total <= usize::MAX);
        assert(w * total <= 10 * total) by (nonlinear_arith)
            requires w <= 10, total >= 0;
        (10 * count + w * total, 20 * total)
    }
}

/// At most five anomalies are cited as evidence.
pub proof fn lemma_evidence_at_most_five(s: Seq<AnomalyView>, n: Seq<char>)
    ensures
        evidence_for(s, n).len() <= 5,
    decreases s.len(),
{
    if s.len() > 0 {
        lemma_evidence_at_most_five(s.drop_last(), n);
    }
}

/// The leading pattern is raised at least as often as any other, and more
/// often than any that appeared before it.
pub proof fn lemma_leader_is_most_frequent(f: Seq<AnomalyView>, s: Seq<AnomalyView>, n: nat)
    requires
        1 <= n <= f.len(),
    ensures
        0 <= leader(f, s, n) < n,
        forall|q: int| 0 <= q < n ==> count_pattern(s, (#[trigger] f[q]).pattern_name)
            <= count_pattern(s, f[leader(f, s, n)].pattern_name),
        forall|q: int| 0 <= q < leader(f, s, n) ==> count_pattern(s, (#[trigger] f[q]).pattern_name)
            < count_pattern(s, f[leader(f, s, n)].pattern_name),
    decreases n,
{
    if n > 1 {
        lemma_leader_is_most_frequent(f, s, (n - 1) as nat);
    }
}

/// A root cause is found exactly when there are anomalies; its pattern
/// raised the most anomalies, and no earlier pattern raised as many.
pub proof fn lemma_root_cause(s: Seq<AnomalyView>)
    ensures
        root_cause_of(s) is Some <==> s.len() > 0,
        root_cause_of(s) matches Some(rc) ==> rc.evidence.len() <= 5 && rc.total_anomalies == s.len()
            && forall|q: int| 0 <= q < first_patterns(s).len() ==>
                count_pattern(s, (#[trigger] first_patterns(s)[q]).pattern_name) <= rc.primary_count,
{
    if s.len() > 0 {
        lemma_first_patterns(s, s[0].pattern_name);
        let f = first_patterns(s);
        lemma_leader_is_most_frequent(f, s, f.len());
        lemma_evidence_at_most_five(s, f[leader(f, s, f.len())].pattern_name);
    }
}

/// Suggested fixes come from the highest priority down: priorities never
/// rise along the list.
pub proof fn lemma_suggestions_by_priority(s: Seq<AnomalyView>)
    ensures
        forall|i: int, j: int| 0 <= i < j < suggestions_for(s).len() ==>
            (#[trigger] suggestions_for(s)[i]).priority >= (#[trigger] suggestions_for(s)[j]).priority,
{
    broadcast use vstd::seq_lib::group_filter_ensures;
    let d = first_fixes(s).map_values(|a: AnomalyView| suggestion_of(a));
    let a = d.filter(has_priority(100));
    let b = d.filter(has_priority(75));
    let c = d.filter(has_priority(50));
    let e = d.filter(has_priority(25));
    let r = a + b + c + e;
    assert(r == suggestions_for(s));
    assert forall|i: int| 0 <= i < r.len() implies (#[trigger] r[i]).priority == (if i < a.len() { 100u32 }
        else if i < a.len() + b.len() { 75u32 } else if i < a.len() + b.len() + c.len() { 50u32 } else { 25u32 }) by {
        if i < a.len() {
            assert(r[i] == a[i]);
            assert(has_priority(100)(a[i]));
        } else if i < a.len() + b.len() {
            assert(r[i] == b[i - a.len()]);
            assert(has_priority(75)(b[i - a.len()]));
        } else if i < a.len() + b.len() + c.len() {
            assert(r[i] == c[i - a.len() - b.len()]);
            assert(has_priority(50)(c[i - a.len() - b.len()]));
        } else {
            assert(r[i] == e[i - a.len() - b.len() - c.len()]);
            assert(has_priority(25)(e[i - a.len() - b.len() - c.len()]));
        }
    }
}

/// Anomalies of `s` that have severity `sev`.
pub open spec fn severity_count(s: Seq<AnomalyView>, sev: Severity) -> nat {
    s.filter(has_severity(sev)).len()
}

/// The predicate "has severity `sev`".
pub open spec fn has_severity(sev: Severity) -> spec_fn(AnomalyView) -> bool {
    |a: AnomalyView| a.severity == sev
}

/// Numbers of anomalies by severity.
pub struct SeverityCounts {
    /// Informational anomalies.
    pub info: usize,
    /// Warnings.
    pub warning: usize,
    /// Errors.
    pub error: usize,
    /// Critical anomalies.
    pub critical: usize,
}

// ---------------------------------------------------------------------------
// Reports
// ---------------------------------------------------------------------------

/// The severity of a [`TestAnomaly`] for an anomaly of severity `s`.
pub open spec fn test_severity(s: Severity) -> u8 {
    match s {
        Severity::Critical => 5,
        Severity::Error => 4,
        Severity::Warning => 3,
        Severity::Info => 2,
    }
}

impl Anomaly {
    /// The anomaly as reported with a proof: its pattern as the kind,
    /// `[SEVERITY] node: message` as the description, severity 5 (critical)
    /// down to 2 (info), and its node as the only node involved.
    pub fn to_test_anomaly(&self) -> (t: TestAnomaly)
        ensures
            t.anomaly_type@ == self.pattern_name@,
            t.description@ == "["@ + self.severity.label_spec() + "] "@ + self.node_id@ + ": "@ + self.message@,
            t.severity == test_severity(self.severity),
            t.nodes_involved@.len() == 1,
            t.nodes_involved@[0]@ == self.node_id@,
            t.detected_at_ms == self.timestamp_ms,
            t.suggested_location is None,
    {
        let severity: u8 = match self.severity {
            Severity::Critical => 5,
            Severity::Error => 4,
            Severity::Warning => 3,
            Severity::Info => 2,
        };
        let head = concat3("[", self.severity.label(), "] ");
        let who = concat3(head.as_str(), self.node_id.as_str(), ": ");
        let description = concat2(who.as_str(), self.message.as_str());
        let mut t = TestAnomaly::new(self.pattern_name.clone(), description, severity, self.timestamp_ms);
        t.nodes_involved.push(self.node_id.clone());
        t
    }
}

/// The anomalies that [`AutomatedDebugger::detect_anomalies`] reports for a
/// debugger in state `d`.
pub open spec fn detected_anomalies(d: AutomatedDebuggerView) -> Seq<AnomalyView> {
    let raw = raw_anomalies(d.logs, d.patterns, d.min_severity);
    Seq::new(raw.len(), |k: int| with_related(raw[k], related_positions(raw, k, d.correlation_window_ms)))
}

/// The distinct nodes that wrote `logs`.
pub open spec fn log_nodes(logs: Seq<LogEntryView>) -> Set<Seq<char>> {
    logs.map_values(|l: LogEntryView| l.node_id).to_set()
}

/// Earliest time among `logs` (zero for none).
pub open spec fn earliest(logs: Seq<LogEntryView>) -> u64
    decreases logs.len(),
{
    if logs.len() == 0 {
        0
    } else if logs.len() == 1 || logs.last().timestamp_ms < earliest(logs.drop_last()) {
        logs.last().timestamp_ms
    } else {
        earliest(logs.drop_last())
    }
}

/// Latest time among `logs` (zero for none).
pub open spec fn latest(logs: Seq<LogEntryView>) -> u64
    decreases logs.len(),
{
    if logs.len() == 0 {
        0
    } else if logs.len() == 1 || logs.last().timestamp_ms > latest(logs.drop_last()) {
        logs.last().timestamp_ms
    } else {
        latest(logs.drop_last())
    }
}

/// Summary figures of an investigation.
pub struct DebugStats {
    /// Log entries analysed.
    pub log_lines_analyzed: usize,
    /// Distinct nodes among them.
    pub nodes_examined: usize,
    /// Time from the earliest to the latest entry, in milliseconds.
    pub time_span_ms: u64,
    /// Anomalies by severity.
    pub anomalies_by_severity: SeverityCounts,
}

/// `r` is the investigation of a debugger in state `d`: the timeline of
/// its logs in stable time order, the anomalies detected, their root cause,
/// the suggested fixes and the summary figures.
pub open spec fn is_investigation(r: DebugReport, d: AutomatedDebuggerView) -> bool {
    &&& sorted_by_time(r.timeline@)
    &&& same_per_time(r.timeline@, d.logs.map_values(|l: LogEntryView| event_of(l)))
    &&& anomaly_views(r.anomalies@) == detected_anomalies(d)
    &&& root_cause_view(r.root_cause) == root_cause_of(detected_anomalies(d))
    &&& fix_views(r.suggested_fixes@) == suggestions_for(detected_anomalies(d))
    &&& r.stats.log_lines_analyzed == d.logs.len()
    &&& r.stats.nodes_examined == log_nodes(d.logs).len()
    &&& r.stats.time_span_ms == latest(d.logs) - earliest(d.logs)
    &&& r.stats.anomalies_by_severity.info == severity_count(detected_anomalies(d), Severity::Info)
    &&& r.stats.anomalies_by_severity.warning == severity_count(detected_anomalies(d), Severity::Warning)
    &&& r.stats.anomalies_by_severity.error == severity_count(detected_anomalies(d), Severity::Error)
    &&& r.stats.anomalies_by_severity.critical == severity_count(detected_anomalies(d), Severity::Critical)
}

/// Result of an investigation.
pub struct DebugReport {
    /// When the investigation started, in milliseconds since the Unix epoch.
    pub started_at_ms: u64,
    /// When it completed, in milliseconds since the Unix epoch.
    pub completed_at_ms: u64,
    /// The events of the logs, in time order.
    pub timeline: Timeline,
    /// The anomalies detected.
    pub anomalies: Vec<Anomaly>,
    /// The most likely root cause, if any anomaly was found.
    pub root_cause: Option<RootCause>,
    /// Suggested fixes, by priority.
    pub suggested_fixes: Vec<SuggestedFix>,
    /// Summary figures.
    pub stats: DebugStats,
}

/// The kind of event a log entry stands for. A disconnect or a lost
/// connection is told apart before an established one, since
/// `disconnected` contains `connected`.
pub open spec fn event_type_of(level: Seq<char>, message: Seq<char>) -> EventType {
    let lv = unicode_uppercase(level);
    let msg = unicode_lowercase(message);
    if has_substring(lv, "ERROR"@) {
        EventType::Error
    } else if has_substring(lv, "WARN"@) {
        EventType::Warning
    } else if has_substring(msg, "disconnected"@) || has_substring(msg, "connection lost"@) {
        EventType::ConnectionLost
    } else if has_substring(msg, "connected"@) {
        EventType::ConnectionEstablished
    } else if has_substring(msg, "starting"@) || has_substring(msg, "initialized"@) {
        EventType::NodeStart
    } else if has_substring(msg, "stopping"@) || has_substring(msg, "shutdown"@) {
        EventType::NodeStop
    } else {
        EventType::StateChange
    }
}

/// How a log entry is classified: an entry whose upper-cased level holds
/// ERROR is an error, else one whose level holds WARN a warning; any other
/// entry goes by its lower-cased message, taking the first of these groups
/// of words that the message holds: a lost connection ("disconnected",
/// "connection lost"), an established one ("connected"), a start
/// ("starting", "initialized"), a stop ("stopping", "shutdown"); a message
/// with none of them is a state change.
pub proof fn lemma_event_type_rules(level: Seq<char>, message: Seq<char>)
    ensures
        ({
            let lv = unicode_uppercase(level);
            let msg = unicode_lowercase(message);
            let t = event_type_of(level, message);
            let severe = has_substring(lv, "ERROR"@) || has_substring(lv, "WARN"@);
            let lost = has_substring(msg, "disconnected"@) || has_substring(msg, "connection lost"@);
            let connected = has_substring(msg, "connected"@);
            let start = has_substring(msg, "starting"@) || has_substring(msg, "initialized"@);
            let stop = has_substring(msg, "stopping"@) || has_substring(msg, "shutdown"@);
            &&& has_substring(lv, "ERROR"@) ==> t == EventType::Error
            &&& !has_substring(lv, "ERROR"@) && has_substring(lv, "WARN"@) ==> t == EventType::Warning
            &&& !severe && lost ==> t == EventType::ConnectionLost
            &&& !severe && !lost && connected ==> t == EventType::ConnectionEstablished
            &&& !severe && !lost && !connected && start ==> t == EventType::NodeStart
            &&& !severe && !lost && !connected && !start && stop ==> t == EventType::NodeStop
            &&& !severe && !lost && !connected && !start && !stop ==> t == EventType::StateChange
        }),
{
}

/// Every event of a timeline that holds the events of `logs` per time (as
/// [`AutomatedDebugger::build_timeline`] gives) is the event of one of the
/// entries, classified by that entry's level and message.
pub proof fn lemma_timeline_events_of_logs(t: Seq<TimelineEventView>, logs: Seq<LogEntryView>, i: int)
    requires
        same_per_time(t, logs.map_values(|l: LogEntryView| event_of(l))),
        0 <= i < t.len(),
    ensures
        exists|j: int| 0 <= j < logs.len() && t[i] == event_of(#[trigger] logs[j])
            && t[i].event_type == event_type_of(logs[j].level, logs[j].message),
{
    let m = logs.map_values(|l: LogEntryView| event_of(l));
    lemma_same_per_time_permutation(t, m);
    t.to_multiset_ensures();
    m.to_multiset_ensures();
    assert(t.contains(t[i]));
    assert(t.to_multiset().count(t[i]) > 0);
    assert(m.contains(t[i]));
    let j = choose|j: int| 0 <= j < m.len() && m[j] == t[i];
    assert(t[i] == event_of(logs[j]));
}

/// The timeline event of a log entry.
pub open spec fn event_of(l: LogEntryView) -> TimelineEventView {
    TimelineEventView {
        node_id: l.node_id,
        timestamp_ms: l.timestamp_ms,
        event_type: event_type_of(l.level, l.message),
        description: l.message,
        log_entries: seq![l],
    }
}

/// Mathematical value of an [`AutomatedDebugger`].
pub struct AutomatedDebuggerView {
    pub max_log_lines: usize,
    pub correlation_window_ms: u64,
    pub patterns: Seq<ErrorPatternView>,
    pub min_severity: Severity,
    pub logs: Seq<LogEntryView>,
}

/// Investigates failed tests from the logs of the nodes.
pub struct AutomatedDebugger {
    config: DebuggerConfig,
    logs: Vec<LogEntry>,
}

impl View for AutomatedDebugger {
    type V = AutomatedDebuggerView;

    closed spec fn view(&self) -> AutomatedDebuggerView {
        AutomatedDebuggerView {
            max_log_lines: self.config.max_log_lines,
            correlation_window_ms: self.config.correlation_window_ms,
            patterns: pattern_views(self.config.error_patterns@),
            min_severity: self.config.min_severity,
            logs: log_views(self.logs@),
        }
    }
}

/// The event type of a log entry (see [`event_type_of`]).
fn classify(level: &str, message: &str) -> (t: EventType)
    ensures
        t == event_type_of(level@, message@),
{
    let lv = to_uppercase(level);
    let msg = to_lowercase(message);
    if contains(lv.as_str(), "ERROR") {
        EventType::Error
    } else if contains(lv.as_str(), "WARN") {
        EventType::Warning
    } else if contains(msg.as_str(), "disconnected") || contains(msg.as_str(), "connection lost") {
        EventType::ConnectionLost
    } else if contains(msg.as_str(), "connected") {
        EventType::ConnectionEstablished
    } else if contains(msg.as_str(), "starting") || contains(msg.as_str(), "initialized") {
        EventType::NodeStart
    } else if contains(msg.as_str(), "stopping") || contains(msg.as_str(), "shutdown") {
        EventType::NodeStop
    } else {
        EventType::StateChange
    }
}

/// Numbers of anomalies of `anomalies` by severity.
fn count_severities(anomalies: &[Anomaly]) -> (c: SeverityCounts)
    ensures
        c.info == severity_count(anomaly_views(anomalies@), Severity::Info),
        c.warning == severity_count(anomaly_views(anomalies@), Severity::Warning),
        c.error == severity_count(anomaly_views(anomalies@), Severity::Error),
        c.critical == severity_count(anomaly_views(anomalies@), Severity::Critical),
{
    let ghost s = anomaly_views(anomalies@);
    let mut c = SeverityCounts { info: 0, warning: 0, error: 0, critical: 0 };
    let mut i: usize = 0;
    while i < anomalies.len()
        invariant
            s == anomaly_views(anomalies@),
            0 <= i <= s.len(),
            c.info == severity_count(s.take(i as int), Severity::Info),
            c.warning == severity_count(s.take(i as int), Severity::Warning),
            c.error == severity_count(s.take(i as int), Severity::Error),
            c.critical == severity_count(s.take(i as int), Severity::Critical),
            c.info <= i && c.warning <= i && c.error <= i && c.critical <= i,
        decreases s.len() - i,
    {
        let ghost prefix = s.take(i as int);
        assert(s.take(i + 1) =~= prefix.push(s[i as int]));
        assert(s[i as int] == anomalies@[i as int]@);
        proof {
            prefix.lemma_filter_push(s[i as int], has_severity(Severity::Info));
            prefix.lemma_filter_push(s[i as int], has_severity(Severity::Warning));
            prefix.lemma_filter_push(s[i as int], has_severity(Severity::Error));
            prefix.lemma_filter_push(s[i as int], has_severity(Severity::Critical));
        }
        match anomalies[i].severity {
            Severity::Info => { c.info = c.info + 1; }
            Severity::Warning => { c.warning = c.warning + 1; }
            Severity::Error => { c.error = c.error + 1; }
            Severity::Critical => { c.critical = c.critical + 1; }
        }
        i = i + 1;
    }
    assert(s.take(s.len() as int) =~= s);
    c
}

/// The earliest time of a non-empty log never exceeds its latest.
proof fn lemma_earliest_latest(logs: Seq<LogEntryView>)
    ensures
        earliest(logs) <= latest(logs),
    decreases logs.len(),
{
    if logs.len() > 1 {
        lemma_earliest_latest(logs.drop_last());
    }
}

/// Number of distinct nodes that wrote `logs`.
fn count_nodes(logs: &[LogEntry]) -> (n: usize)
    ensures
        n == log_nodes(log_views(logs@)).len(),
{
    let ghost s = log_views(logs@);
    let mut ids: Vec<String> = Vec::new();
    let mut i: usize = 0;
    while i < logs.len()
        invariant
            s == log_views(logs@),
            0 <= i <= s.len(),
            string_views(ids@).no_duplicates(),
            string_views(ids@).to_set() == log_nodes(s.take(i as int)),
            ids@.len() <= i,
        decreases s.len() - i,
    {
        let ghost prefix = s.take(i as int);
        let ghost ids_before = string_views(ids@);
        assert(s.take(i + 1) =~= prefix.push(s[i as int]));
        assert(s[i as int] == logs@[i as int]@);
        let id = &logs[i].node_id;
        let mut found = false;
        let mut x: usize = 0;
        while x < ids.len()
            invariant
                0 <= x <= ids@.len(),
                ids_before == string_views(ids@),
                found <==> exists|y: int| 0 <= y < x && (#[trigger] ids_before[y]) == id@,
            decreases ids@.len() - x,
        {
            assert(ids_before[x as int] == ids@[x as int]@);
            if str_eq(ids[x].as_str(), id.as_str()) {
                found = true;
            }
            x = x + 1;
        }
        let ghost nodes_next = s.take(i + 1).map_values(|l: LogEntryView| l.node_id);
        let ghost nodes_prev = prefix.map_values(|l: LogEntryView| l.node_id);
        assert(nodes_next =~= nodes_prev.push(id@));
        if !found {
            ids.push(id.clone());
            proof {
                assert(string_views(ids@) =~= ids_before.push(id@));
                assert(!ids_before.contains(id@));
                assert(string_views(ids@).to_set() =~= log_nodes(s.take(i + 1))) by {
                    assert forall|y: Seq<char>| #[trigger] string_views(ids@).to_set().contains(y)
                        <==> log_nodes(s.take(i + 1)).contains(y) by {
                        if string_views(ids@).contains(y) && y != id@ {
                            let k = choose|k: int| 0 <= k < string_views(ids@).len() && string_views(ids@)[k] == y;
                            assert(ids_before[k] == y);
                            assert(ids_before.to_set().contains(y));
                            let j = choose|j: int| 0 <= j < nodes_prev.len() && nodes_prev[j] == y;
                            assert(nodes_next[j] == y);
                        }
                        if nodes_next.contains(y) && y != id@ {
                            let j = choose|j: int| 0 <= j < nodes_next.len() && nodes_next[j] == y;
                            assert(nodes_prev[j] == y);
                            assert(log_nodes(prefix).contains(y));
                            let k = choose|k: int| 0 <= k < ids_before.len() && ids_before[k] == y;
                            assert(string_views(ids@)[k] == y);
                        }
                        if y == id@ {
                            assert(string_views(ids@)[ids_before.len() as int] == y);
                            assert(nodes_next[i as int] == y);
                        }
                    }
                }
            }
        } else {
            proof {
                let y0 = choose|y: int| 0 <= y < ids_before.len() && (#[trigger] ids_before[y]) == id@;
                assert(ids_before.to_set().contains(id@));
                assert(log_nodes(prefix).contains(id@));
                assert(string_views(ids@).to_set() =~= log_nodes(s.take(i + 1))) by {
                    assert forall|y: Seq<char>| #[trigger] string_views(ids@).to_set().contains(y)
                        <==> log_nodes(s.take(i + 1)).contains(y) by {
                        if nodes_next.contains(y) {
                            let j = choose|j: int| 0 <= j < nodes_next.len() && nodes_next[j] == y;
                            if j < i {
                                assert(nodes_prev[j] == y);
                                assert(log_nodes(prefix).contains(y));
                            }
                        }
                        if nodes_prev.contains(y) {
                            let j = choose|j: int| 0 <= j < nodes_prev.len() && nodes_prev[j] == y;
                            assert(nodes_next[j] == y);
                        }
                    }
                }
            }
        }
        i = i + 1;
    }
    assert(s.take(s.len() as int) =~= s);
    proof { string_views(ids@).unique_seq_to_set(); }
    ids.len()
}

/// Time from the earliest to the latest entry of `logs`.
fn time_span(logs: &[LogEntry]) -> (t: u64)
    ensures
        t == latest(log_views(logs@)) - earliest(log_views(logs@)),
{
    let ghost s = log_views(logs@);
    if logs.len() == 0 {
        return 0;
    }
    let mut lo = logs[0].timestamp_ms;
    let mut hi = logs[0].timestamp_ms;
    assert(s[0] == logs@[0]@);
    assert(s.take(1).drop_last().len() == 0);
    let mut i: usize = 1;
    while i < logs.len()
        invariant
            s == log_views(logs@),
            1 <= i <= s.len(),
            lo == earliest(s.take(i as int)),
            hi == latest(s.take(i as int)),
        decreases s.len() - i,
    {
        assert(s.take(i + 1).drop_last() =~= s.take(i as int));
        assert(s.take(i + 1).last() == s[i as int]);
        assert(s[i as int] == logs@[i as int]@);
        let t = logs[i].timestamp_ms;
        if t < lo {
            lo = t;
        }
        if t > hi {
            hi = t;
        }
        i = i + 1;
    }
    assert(s.take(s.len() as int) =~= s);
    proof { lemma_earliest_latest(s); }
    hi - lo
}

impl AutomatedDebugger {
    /// A debugger with the default configuration and no logs.
    pub fn new() -> (d: Self)
        ensures
            d@.max_log_lines == 10_000,
            d@.correlation_window_ms == 5000,
            d@.patterns == default_patterns_spec(),
            d@.min_severity == Severity::Warning,
            d@.logs.len() == 0,
    {
        Self::with_config(DebuggerConfig::default())
    }

    /// A debugger with configuration `config` and no logs.
    pub fn with_config(config: DebuggerConfig) -> (d: Self)
        ensures
            d@.max_log_lines == config.max_log_lines,
            d@.correlation_window_ms == config.correlation_window_ms,
            d@.patterns == pattern_views(config.error_patterns@),
            d@.min_severity == config.min_severity,
            d@.logs.len() == 0,
    {
        let d = AutomatedDebugger { config, logs: Vec::new() };
        assert(d@.logs =~= Seq::<LogEntryView>::empty());
        d
    }

    /// The configuration.
    pub fn config(&self) -> (c: &DebuggerConfig)
        ensures
            c.max_log_lines == self@.max_log_lines,
            c.correlation_window_ms == self@.correlation_window_ms,
            pattern_views(c.error_patterns@) == self@.patterns,
            c.min_severity == self@.min_severity,
    {
        &self.config
    }

    /// Adds log entries in order, keeping at most `max_log_lines` in all;
    /// the entries that do not fit are dropped.
    pub fn add_logs(&mut self, logs: Vec<LogEntry>)
        ensures
            final(self)@ == (AutomatedDebuggerView {
                logs: old(self)@.logs + log_views(logs@).take(
                    if old(self)@.logs.len() >= old(self)@.max_log_lines { 0 }
                    else if logs@.len() <= old(self)@.max_log_lines - old(self)@.logs.len() { logs@.len() as int }
                    else { old(self)@.max_log_lines - old(self)@.logs.len() }),
                ..old(self)@
            }),
            old(self)@.logs.len() <= old(self)@.max_log_lines ==> final(self)@.logs.len() == (
                if old(self)@.logs.len() + logs@.len() <= old(self)@.max_log_lines { old(self)@.logs.len() + logs@.len() }
                else { old(self)@.max_log_lines as nat }),
    {
        let ghost start = log_views(self.logs@);
        let ghost incoming = log_views(logs@);
        let mut logs = logs;
        let mut taken: usize = 0;
        let n = logs.len();
        let mut i: usize = 0;
        while i < n
            invariant
                n == incoming.len(),
                logs@.len() == n - i,
                log_views(logs@) == incoming.skip(i as int),
                0 <= i <= n,
                taken <= i,
                self.config == old(self).config,
                log_views(self.logs@) == start + incoming.take(taken as int),
                self.logs@.len() == start.len() + taken,
                start.len() >= self.config.max_log_lines ==> taken == 0,
                start.len() < self.config.max_log_lines ==> taken == (if i <= self.config.max_log_lines - start.len() { i as int } else { self.config.max_log_lines - start.len() }),
            decreases n - i,
        {
            let ghost before = logs@;
            let log = logs.remove(0);
            assert(log@ == incoming[i as int]) by {
                assert(log_views(before)[0] == before[0]@);
                assert(incoming.skip(i as int)[0] == incoming[i as int]);
            }
            assert(logs@ =~= before.subrange(1, before.len() as int));
            assert(log_views(logs@) =~= log_views(before).subrange(1, before.len() as int));
            assert(log_views(logs@) =~= incoming.skip(i + 1));
            if self.logs.len() < self.config.max_log_lines {
                let ghost kept = self.logs@;
                self.logs.push(log);
                assert(log_views(self.logs@) =~= log_views(kept).push(incoming[taken as int]));
                assert(incoming.take(taken + 1) =~= incoming.take(taken as int).push(incoming[taken as int]));
                taken = taken + 1;
            }
            i = i + 1;
        }
        assert(self@.logs =~= old(self)@.logs + incoming.take(taken as int));
    }

    /// Parses a raw log line of node `node_id`: the trimmed line becomes the
    /// message, its level is the first of ERROR, WARN, INFO, DEBUG, TRACE that
    /// it mentions (INFO otherwise), and the time is now. Blank lines give `None`.
    pub fn parse_log_line(node_id: &str, line: &str) -> (r: Option<LogEntry>)
        ensures
            r is None <==> trimmed(line@).len() == 0,
            r matches Some(e) ==> e@.node_id == node_id@ && e@.message == trimmed(line@)
                && e@.level == level_of(trimmed(line@)),
    {
        let line = trim(line);
        if line.as_str().is_empty() {
            return None;
        }
        let l = line.as_str();
        let level = if contains(l, "ERROR") || contains(l, "error") {
            "ERROR"
        } else if contains(l, "WARN") || contains(l, "warn") {
            "WARN"
        } else if contains(l, "INFO") || contains(l, "info") {
            "INFO"
        } else if contains(l, "DEBUG") || contains(l, "debug") {
            "DEBUG"
        } else if contains(l, "TRACE") || contains(l, "trace") {
            "TRACE"
        } else {
            "INFO"
        };
        Some(LogEntry::new(node_id, unix_time_ms(), level, l))
    }

    /// The timeline of the collected logs: one event per entry, ordered by
    /// time, entries of equal time in collection order.
    pub fn build_timeline(&self) -> (t: Timeline)
        ensures
            t@.len() == self@.logs.len(),
            sorted_by_time(t@),
            same_per_time(t@, self@.logs.map_values(|l: LogEntryView| event_of(l))),
    {
        let ghost logs = self@.logs;
        let mut timeline = Timeline::new();
        let mut i: usize = 0;
        while i < self.logs.len()
            invariant
                logs == self@.logs,
                0 <= i <= logs.len(),
                timeline@ == logs.take(i as int).map_values(|l: LogEntryView| event_of(l)),
            decreases logs.len() - i,
        {
            let log = &self.logs[i];
            let event_type = classify(log.level.as_str(), log.message.as_str());
            let mut entries: Vec<LogEntry> = Vec::new();
            entries.push(log.duplicate());
            assert(log_views(entries@) =~= seq![log@]);
            let ghost before = timeline@;
            timeline.add_event(TimelineEvent {
                node_id: log.node_id.clone(),
                timestamp_ms: log.timestamp_ms,
                event_type,
                description: log.message.clone(),
                log_entries: entries,
            });
            assert(logs[i as int] == log@);
            assert(logs.take(i + 1) =~= logs.take(i as int).push(logs[i as int]));
            assert(timeline@ =~= logs.take(i + 1).map_values(|l: LogEntryView| event_of(l)));
            i = i + 1;
        }
        assert(logs.take(logs.len() as int) =~= logs);
        timeline.sort_by_time();
        timeline
    }

    /// The anomalies in the collected logs: for each entry, in order, one
    /// anomaly per pattern (in pattern order) that matches its message and is
    /// at least `min_severity`; each anomaly lists the positions of the other
    /// anomalies within the correlation window of it.
    pub fn detect_anomalies(&self) -> (r: Vec<Anomaly>)
        ensures
            r@.len() == raw_anomalies(self@.logs, self@.patterns, self@.min_severity).len(),
            forall|k: int| 0 <= k < r@.len() ==> #[trigger] r@[k]@ == with_related(
                raw_anomalies(self@.logs, self@.patterns, self@.min_severity)[k],
                related_positions(raw_anomalies(self@.logs, self@.patterns, self@.min_severity), k, self@.correlation_window_ms)),
    {
        let ghost logs = self@.logs;
        let ghost pats = self@.patterns;
        let ghost min = self@.min_severity;
        let mut anomalies: Vec<Anomaly> = Vec::new();
        let mut i: usize = 0;
        while i < self.logs.len()
            invariant
                logs == self@.logs,
                pats == self@.patterns,
                min == self@.min_severity,
                0 <= i <= logs.len(),
                anomaly_views(anomalies@) == raw_anomalies(logs.take(i as int), pats, min),
                forall|x: int| 0 <= x < anomalies@.len() ==> (#[trigger] anomalies@[x]).related@.len() == 0,
            decreases logs.len() - i,
        {
            let log = &self.logs[i];
            assert(logs[i as int] == log@);
            let mut k: usize = 0;
            while k < self.config.error_patterns.len()
                invariant
                    logs == self@.logs,
                    pats == self@.patterns,
                    min == self@.min_severity,
                    0 <= i < logs.len(),
                    logs[i as int] == log@,
                    0 <= k <= pats.len(),
                    forall|x: int| 0 <= x < anomalies@.len() ==> (#[trigger] anomalies@[x]).related@.len() == 0,
                    anomaly_views(anomalies@) == raw_anomalies(logs.take(i as int), pats, min)
                        + pats.take(k as int).filter(fires_on(log@, min)).map_values(anomalies_of(log@)),
                decreases pats.len() - k,
            {
                let pattern = &self.config.error_patterns[k];
                assert(pats[k as int] == pattern@);
                proof {
                    assert(pats.take(k + 1) =~= pats.take(k as int).push(pats[k as int]));
                    pats.take(k as int).lemma_filter_push(pats[k as int], fires_on(log@, min));
                }
                let ghost before = anomalies@;
                if matches_pattern(log.message.as_str(), pattern.pattern.as_str()) && pattern.severity.at_least(self.config.min_severity) {
                    anomalies.push(Anomaly {
                        severity: pattern.severity,
                        pattern_name: pattern.name.clone(),
                        node_id: log.node_id.clone(),
                        timestamp_ms: log.timestamp_ms,
                        message: log.message.clone(),
                        suggested_cause: pattern.suggested_cause.clone(),
                        suggested_fix: pattern.suggested_fix.clone(),
                        related: Vec::new(),
                    });
                    proof {
                        let a = anomalies@[anomalies@.len() - 1];
                        assert(a@ =~= anomaly_from(log@, pattern@));
                        assert(anomaly_views(anomalies@) =~= anomaly_views(before).push(anomaly_from(log@, pattern@)));
                        assert(pats.take(k + 1).filter(fires_on(log@, min)).map_values(anomalies_of(log@))
                            =~= pats.take(k as int).filter(fires_on(log@, min)).map_values(anomalies_of(log@)).push(anomaly_from(log@, pattern@)));
                    }
                }
                k = k + 1;
            }
            proof {
                assert(pats.take(pats.len() as int) =~= pats);
                assert(logs.take(i + 1).drop_last() =~= logs.take(i as int));
                assert(logs.take(i + 1).last() == logs[i as int]);
            }
            i = i + 1;
        }
        assert(logs.take(logs.len() as int) =~= logs);
        self.correlate_anomalies(&mut anomalies);
        anomalies
    }

    /// Gives each anomaly the positions of the other anomalies whose times lie
    /// within the correlation window of its own, in increasing order.
    fn correlate_anomalies(&self, anomalies: &mut Vec<Anomaly>)
        requires
            forall|k: int| 0 <= k < old(anomalies)@.len() ==> (#[trigger] old(anomalies)@[k]).related@.len() == 0,
        ensures
            final(anomalies)@.len() == old(anomalies)@.len(),
            forall|k: int| 0 <= k < final(anomalies)@.len() ==> #[trigger] final(anomalies)@[k]@ == with_related(
                old(anomalies)@[k]@, related_positions(anomaly_views(old(anomalies)@), k, self@.correlation_window_ms)),
    {
        let ghost orig = anomaly_views(anomalies@);
        let window = self.config.correlation_window_ms;
        let n = anomalies.len();
        let mut k: usize = 0;
        while k < n
            invariant
                n == anomalies@.len(),
                n == orig.len(),
                window == self@.correlation_window_ms,
                0 <= k <= n,
                forall|j: int| 0 <= j < k ==> #[trigger] anomalies@[j]@ == with_related(orig[j], related_positions(orig, j, window)),
                forall|j: int| k <= j < n ==> #[trigger] anomalies@[j]@ == orig[j],
                forall|j: int| 0 <= j < n ==> (#[trigger] orig[j]).related.len() == 0,
            decreases n - k,
        {
            assert(anomalies@[k as int]@ == orig[k as int]);
            let ts_k = anomalies[k].timestamp_ms;
            let mut rel: Vec<usize> = Vec::new();
            assert(rel@ =~= positions(0).filter(related_to(orig, k as int, window))) by {
                reveal(Seq::filter);
                assert(positions(0) =~= Seq::<usize>::empty());
            }
            proof {
                assert forall|x: int| 0 <= x < n implies #[trigger] anomalies@[x].timestamp_ms == orig[x].timestamp_ms by {
                    if x < k {
                        assert(anomalies@[x]@ == with_related(orig[x], related_positions(orig, x, window)));
                    } else {
                        assert(anomalies@[x]@ == orig[x]);
                    }
                }
            }
            let mut j: usize = 0;
            while j < n
                invariant
                    n == anomalies@.len(),
                    n == orig.len(),
                    0 <= k < n,
                    0 <= j <= n,
                    ts_k == orig[k as int].timestamp_ms,
                    forall|x: int| 0 <= x < n ==> #[trigger] anomalies@[x].timestamp_ms == orig[x].timestamp_ms,
                    rel@ == positions(j as nat).filter(related_to(orig, k as int, window)),
                decreases n - j,
            {
                proof {
                    assert(positions((j + 1) as nat) =~= positions(j as nat).push(j));
                    positions(j as nat).lemma_filter_push(j, related_to(orig, k as int, window));
                }
                let ts_j = anomalies[j].timestamp_ms;
                assert(ts_j == orig[j as int].timestamp_ms);
                let diff = if ts_j >= ts_k { ts_j - ts_k } else { ts_k - ts_j };
                let ghost rb = rel@;
                if j != k && diff <= window {
                    rel.push(j);
                    assert(related_to(orig, k as int, window)(j));
                    assert(rel@ == rb.push(j));
                } else {
                    assert(!related_to(orig, k as int, window)(j));
                }
                j = j + 1;
            }
            let ghost prev = anomalies@;
            let ghost rv = rel@;
            assert(rv == related_positions(orig, k as int, window));
            anomalies[k].related = rel;
            proof {
                assert(anomalies@[k as int]@ =~= with_related(orig[k as int], rv));
                assert forall|x: int| 0 <= x < n && x != k implies #[trigger] anomalies@[x] == prev[x] by {}
            }
            k = k + 1;
        }
    }

    /// The root cause that `anomalies` point to (see [`root_cause_of`]).
    pub fn identify_root_cause(&self, anomalies: &[Anomaly]) -> (r: Option<RootCause>)
        ensures
            (match r { Some(rc) => Some(rc@), None => None::<RootCauseView> }) == root_cause_of(anomaly_views(anomalies@)),
    {
        let ghost s = anomaly_views(anomalies@);
        let n = anomalies.len();
        if n == 0 {
            return None;
        }
        // Distinct patterns (by their first anomaly) and how often each occurs.
        let mut firsts: Vec<usize> = Vec::new();
        let mut counts: Vec<usize> = Vec::new();
        let mut i: usize = 0;
        while i < n
            invariant
                n == anomalies@.len(),
                s == anomaly_views(anomalies@),
                0 <= i <= n,
                firsts@.len() == first_patterns(s.take(i as int)).len(),
                counts@.len() == firsts@.len(),
                forall|x: int| 0 <= x < firsts@.len() ==> (#[trigger] firsts@[x]) < i
                    && s[firsts@[x] as int] == first_patterns(s.take(i as int))[x],
                forall|x: int| 0 <= x < counts@.len() ==> #[trigger] counts@[x]
                    == count_pattern(s.take(i as int), first_patterns(s.take(i as int))[x].pattern_name),
            decreases n - i,
        {
            let ghost prefix = s.take(i as int);
            let ghost next = s.take(i + 1);
            let ghost fp = first_patterns(prefix);
            let ghost nm = s[i as int].pattern_name;
            assert(next.drop_last() =~= prefix);
            assert(next.last() == s[i as int]);
            assert(s[i as int] == anomalies@[i as int]@);
            assert forall|m: Seq<char>| #[trigger] count_pattern(next, m)
                == count_pattern(prefix, m) + if nm == m { 1nat } else { 0nat } by {}
            let mut found = false;
            let mut x: usize = 0;
            while x < firsts.len()
                invariant
                    n == anomalies@.len(),
                    s == anomaly_views(anomalies@),
                    0 <= i < n,
                    prefix == s.take(i as int),
                    next == s.take(i + 1),
                    fp == first_patterns(prefix),
                    nm == s[i as int].pattern_name,
                    nm == anomalies@[i as int].pattern_name@,
                    firsts@.len() == fp.len(),
                    counts@.len() == firsts@.len(),
                    0 <= x <= firsts@.len(),
                    forall|y: int| 0 <= y < firsts@.len() ==> (#[trigger] firsts@[y]) < i && s[firsts@[y] as int] == fp[y],
                    forall|m: Seq<char>| #[trigger] count_pattern(next, m)
                        == count_pattern(prefix, m) + if nm == m { 1nat } else { 0nat },
                    forall|y: int| 0 <= y < x ==> #[trigger] counts@[y] == count_pattern(next, fp[y].pattern_name),
                    forall|y: int| x <= y < counts@.len() ==> #[trigger] counts@[y] == count_pattern(prefix, fp[y].pattern_name),
                    found <==> exists|y: int| 0 <= y < x && (#[trigger] fp[y]).pattern_name == nm,
                decreases firsts@.len() - x,
            {
                let f = firsts[x];
                assert(anomalies@[f as int]@ == s[f as int]);
                if str_eq(anomalies[f].pattern_name.as_str(), anomalies[i].pattern_name.as_str()) {
                    proof { lemma_count_pattern(prefix, fp[x as int].pattern_name); }
                    let c = counts[x] + 1;
                    counts.set(x, c);
                    found = true;
                }
                x = x + 1;
            }
            proof { lemma_first_patterns(prefix, nm); }
            if !found {
                proof {
                    lemma_count_pattern(prefix, nm);
                    if exists|k: int| 0 <= k < next.len() - 1 && (#[trigger] next[k]).pattern_name == next.last().pattern_name {
                        let k = choose|k: int| 0 <= k < next.len() - 1 && (#[trigger] next[k]).pattern_name == next.last().pattern_name;
                        assert(prefix[k] == next[k]);
                        assert(false);
                    }
                    assert(first_patterns(next) == fp.push(s[i as int]));
                }
                firsts.push(i);
                counts.push(1);
            } else {
                proof {
                    let y = choose|y: int| 0 <= y < fp.len() && (#[trigger] fp[y]).pattern_name == nm;
                    let j = choose|j: int| 0 <= j < prefix.len() && (#[trigger] prefix[j]).pattern_name == nm;
                    assert(next[j] == prefix[j]);
                    assert(first_patterns(next) == fp);
                }
            }
            i = i + 1;
        }
        let ghost f = first_patterns(s);
        assert(s.take(n as int) =~= s);
        proof {
            lemma_first_patterns(s, s[0].pattern_name);
        }
        // The first pattern with the highest count leads.
        let mut best: usize = 0;
        let mut q: usize = 1;
        while q < firsts.len()
            invariant
                f.len() == firsts@.len(),
                counts@.len() == firsts@.len(),
                f.len() > 0,
                forall|x: int| 0 <= x < counts@.len() ==> #[trigger] counts@[x] == count_pattern(s, f[x].pattern_name),
                1 <= q <= firsts@.len(),
                best < q,
                best == leader(f, s, q as nat),
            decreases firsts@.len() - q,
        {
            if counts[q] > counts[best] {
                best = q;
            }
            q = q + 1;
        }
        let pf = firsts[best];
        assert(anomalies@[pf as int]@ == f[best as int]);
        let primary = &anomalies[pf];
        // Evidence: the first five anomalies of the leading pattern.
        let mut evidence: Vec<String> = Vec::new();
        let mut i: usize = 0;
        while i < n
            invariant
                n == anomalies@.len(),
                s == anomaly_views(anomalies@),
                0 <= i <= n,
                string_views(evidence@) == evidence_for(s.take(i as int), primary.pattern_name@),
            decreases n - i,
        {
            let ghost prefix = s.take(i as int);
            assert(s.take(i + 1).drop_last() =~= prefix);
            assert(s.take(i + 1).last() == s[i as int]);
            assert(s[i as int] == anomalies@[i as int]@);
            let a = &anomalies[i];
            if str_eq(a.pattern_name.as_str(), primary.pattern_name.as_str()) && evidence.len() < 5 {
                let head = concat3("[", a.node_id.as_str(), "] ");
                let line = concat2(head.as_str(), a.message.as_str());
                let ghost before = evidence@;
                evidence.push(line);
                assert(string_views(evidence@) =~= string_views(before).push(evidence_line(a@)));
            }
            i = i + 1;
        }
        // Alternatives: every other pattern with its count.
        let mut alternatives: Vec<(String, usize)> = Vec::new();
        let mut q: usize = 0;
        while q < firsts.len()
            invariant
                n == anomalies@.len(),
                s == anomaly_views(anomalies@),
                f.len() == firsts@.len(),
                counts@.len() == firsts@.len(),
                best < firsts@.len(),
                forall|x: int| 0 <= x < firsts@.len() ==> (#[trigger] firsts@[x]) < n && s[firsts@[x] as int] == f[x],
                forall|x: int| 0 <= x < counts@.len() ==> #[trigger] counts@[x] == count_pattern(s, f[x].pattern_name),
                0 <= q <= firsts@.len(),
                alternative_views(alternatives@) == (if q <= best { f.take(q as int) }
                    else { f.take(best as int) + f.subrange(best + 1, q as int) }).map_values(with_count(s)),
            decreases firsts@.len() - q,
        {
            if q != best {
                let a = &anomalies[firsts[q]];
                assert(a@ == f[q as int]);
                let ghost before = alternatives@;
                alternatives.push((a.pattern_name.clone(), counts[q]));
                proof {
                    if q < best {
                        assert(f.take(q + 1) =~= f.take(q as int).push(f[q as int]));
                        assert(f.take(q + 1).map_values(with_count(s))
                            =~= f.take(q as int).map_values(with_count(s)).push(with_count(s)(f[q as int])));
                    } else {
                        let lo = f.take(best as int) + f.subrange(best + 1, q as int);
                        assert(f.take(best as int) + f.subrange(best + 1, q + 1) =~= lo.push(f[q as int]));
                        assert(lo.push(f[q as int]).map_values(with_count(s))
                            =~= lo.map_values(with_count(s)).push(with_count(s)(f[q as int])));
                    }
                    assert(alternative_views(alternatives@) =~= alternative_views(before).push(with_count(s)(f[q as int])));
                }
            } else {
                assert(f.take(best as int) + f.subrange(best + 1, best + 1) =~= f.take(best as int));
            }
            q = q + 1;
        }
        assert(f.take(best as int) + f.subrange(best + 1, f.len() as int) =~= f.take(best as int) + f.skip(best + 1));
        let rc = RootCause {
            primary_pattern: primary.pattern_name.clone(),
            primary_cause: primary.suggested_cause.clone(),
            primary_severity: primary.severity,
            primary_count: counts[best],
            total_anomalies: n,
            evidence,
            alternatives,
        };
        Some(rc)
    }

    /// Runs a whole investigation of the collected logs: timeline, anomalies,
    /// root cause, suggested fixes and summary figures.
    pub fn investigate(&self) -> (r: DebugReport)
        ensures
            is_investigation(r, self@),
    {
        let started_at_ms = unix_time_ms();
        let timeline = self.build_timeline();
        let anomalies = self.detect_anomalies();
        assert(anomaly_views(anomalies@) =~= detected_anomalies(self@));
        let root_cause = self.identify_root_cause(anomalies.as_slice());
        let suggested_fixes = self.generate_suggestions(anomalies.as_slice());
        let stats = DebugStats {
            log_lines_analyzed: self.logs.len(),
            nodes_examined: count_nodes(self.logs.as_slice()),
            time_span_ms: time_span(self.logs.as_slice()),
            anomalies_by_severity: count_severities(anomalies.as_slice()),
        };
        DebugReport {
            started_at_ms,
            completed_at_ms: unix_time_ms(),
            timeline,
            anomalies,
            root_cause,
            suggested_fixes,
            stats,
        }
    }

    /// One suggestion per distinct fix among `anomalies` (the first anomaly
    /// proposing it decides priority and component), from highest priority to
    /// lowest, first-occurrence order within a priority.
    pub fn generate_suggestions(&self, anomalies: &[Anomaly]) -> (r: Vec<SuggestedFix>)
        ensures
            fix_views(r@) == suggestions_for(anomaly_views(anomalies@)),
    {
        let ghost s = anomaly_views(anomalies@);
        let mut distinct: Vec<SuggestedFix> = Vec::new();
        let mut seen: Vec<String> = Vec::new();
        let mut i: usize = 0;
        while i < anomalies.len()
            invariant
                s == anomaly_views(anomalies@),
                0 <= i <= s.len(),
                fix_views(distinct@) == first_fixes(s.take(i as int)).map_values(|a: AnomalyView| suggestion_of(a)),
                seen@.len() == first_fixes(s.take(i as int)).len(),
                forall|x: int| 0 <= x < seen@.len() ==> (#[trigger] seen@[x])@ == first_fixes(s.take(i as int))[x].suggested_fix,
            decreases s.len() - i,
        {
            let a = &anomalies[i];
            assert(s[i as int] == a@);
            let ghost prefix = s.take(i as int);
            let ghost next = s.take(i + 1);
            assert(next.drop_last() =~= prefix);
            assert(next.last() == a@);
            let mut found = false;
            let mut x: usize = 0;
            while x < seen.len()
                invariant
                    0 <= x <= seen@.len(),
                    !found ==> forall|y: int| 0 <= y < x ==> (#[trigger] seen@[y])@ != a.suggested_fix@,
                    found ==> exists|y: int| 0 <= y < seen@.len() && (#[trigger] seen@[y])@ == a.suggested_fix@,
                decreases seen@.len() - x,
            {
                if crate::text::str_eq(seen[x].as_str(), a.suggested_fix.as_str()) {
                    found = true;
                }
                x = x + 1;
            }
            proof {
                lemma_first_fixes(prefix, a@.suggested_fix);
                let ff = first_fixes(prefix);
                if found {
                    let y = choose|y: int| 0 <= y < seen@.len() && (#[trigger] seen@[y])@ == a.suggested_fix@;
                    assert(ff[y].suggested_fix == a@.suggested_fix);
                    let j = choose|j: int| 0 <= j < prefix.len() && (#[trigger] prefix[j]).suggested_fix == a@.suggested_fix;
                    assert(next[j] == prefix[j]);
                    assert(exists|k2: int| 0 <= k2 < next.len() - 1 && (#[trigger] next[k2]).suggested_fix == next.last().suggested_fix);
                    assert(first_fixes(next) == ff);
                } else {
                    if exists|k2: int| 0 <= k2 < next.len() - 1 && (#[trigger] next[k2]).suggested_fix == next.last().suggested_fix {
                        let k2 = choose|k2: int| 0 <= k2 < next.len() - 1 && (#[trigger] next[k2]).suggested_fix == next.last().suggested_fix;
                        assert(prefix[k2] == next[k2]);
                        let y = choose|y: int| 0 <= y < ff.len() && (#[trigger] ff[y]).suggested_fix == a@.suggested_fix;
                        assert(seen@[y]@ == ff[y].suggested_fix);
                        assert(false);
                    }
                    assert(first_fixes(next) == ff.push(a@));
                }
            }
            if !found {
                let priority: u32 = match a.severity {
                    Severity::Critical => 100,
                    Severity::Error => 75,
                    Severity::Warning => 50,
                    Severity::Info => 25,
                };
                let ghost before = distinct@;
                distinct.push(SuggestedFix {
                    description: a.suggested_fix.clone(),
                    priority,
                    component: a.pattern_name.clone(),
                    code_location: None,
                });
                seen.push(a.suggested_fix.clone());
                proof {
                    assert(fix_views(distinct@) =~= fix_views(before).push(suggestion_of(a@)));
                    assert(first_fixes(next).map_values(|a: AnomalyView| suggestion_of(a))
                        =~= first_fixes(prefix).map_values(|a: AnomalyView| suggestion_of(a)).push(suggestion_of(a@)));
                }
            }
            i = i + 1;
        }
        assert(s.take(s.len() as int) =~= s);
        let ghost d = fix_views(distinct@);
        assert forall|x: int| 0 <= x < d.len() implies !(#[trigger] d[x]).has_location by {
            assert(d[x] == suggestion_of(first_fixes(s)[x]));
        }
        let mut r: Vec<SuggestedFix> = Vec::new();
        let mut round: usize = 0;
        while round < 4
            invariant
                d == fix_views(distinct@),
                forall|x: int| 0 <= x < d.len() ==> !(#[trigger] d[x]).has_location,
                0 <= round <= 4,
                fix_views(r@) == (if round == 0 { Seq::empty() }
                    else if round == 1 { d.filter(has_priority(100)) }
                    else if round == 2 { d.filter(has_priority(100)) + d.filter(has_priority(75)) }
                    else if round == 3 { d.filter(has_priority(100)) + d.filter(has_priority(75)) + d.filter(has_priority(50)) }
                    else { d.filter(has_priority(100)) + d.filter(has_priority(75)) + d.filter(has_priority(50)) + d.filter(has_priority(25)) }),
            decreases 4 - round,
        {
            let p: u32 = if round == 0 { 100 } else if round == 1 { 75 } else if round == 2 { 50 } else { 25 };
            let ghost base = fix_views(r@);
            let mut j: usize = 0;
            while j < distinct.len()
                invariant
                    d == fix_views(distinct@),
                    forall|x: int| 0 <= x < d.len() ==> !(#[trigger] d[x]).has_location,
                    0 <= j <= d.len(),
                    fix_views(r@) == base + d.take(j as int).filter(has_priority(p)),
                decreases d.len() - j,
            {
                proof {
                    assert(d.take(j + 1) =~= d.take(j as int).push(d[j as int]));
                    d.take(j as int).lemma_filter_push(d[j as int], has_priority(p));
                }
                let f = &distinct[j];
                assert(d[j as int] == f@);
                if f.priority == p {
                    let ghost before = r@;
                    r.push(SuggestedFix {
                        description: f.description.clone(),
                        priority: f.priority,
                        component: f.component.clone(),
                        code_location: None,
                    });
                    assert(fix_views(r@) =~= fix_views(before).push(d[j as int]));
                }
                j = j + 1;
            }
            assert(d.take(d.len() as int) =~= d);
            round = round + 1;
        }
        r
    }

    /// Forgets the collected logs.
    pub fn clear(&mut self)
        ensures
            final(self)@ == (AutomatedDebuggerView { logs: Seq::empty(), ..old(self)@ }),
    {
        self.logs.clear();
        assert(self@.logs =~= Seq::<LogEntryView>::empty());
    }
}


// ---------------------------------------------------------------------------
// Laws of the timeline and the debugger
// ---------------------------------------------------------------------------

/// A sorted sequence holds the time of each of its events no later than
/// its last one's.
proof fn lemma_last_is_latest(a: Seq<TimelineEventView>, t: u64)
    requires
        sorted_by_time(a),
        a.len() > 0,
        a.filter(at_time(t)).len() > 0,
    ensures
        t <= a.last().timestamp_ms,
{
    let e = a.filter(at_time(t))[0];
    assert(a.filter(at_time(t)).contains(e));
    a.lemma_filter_pred(at_time(t), 0);
    a.lemma_filter_contains_rev(at_time(t), e);
    let k = choose|k: int| 0 <= k < a.len() && a[k] == e;
    assert(a[k].timestamp_ms <= a[a.len() - 1].timestamp_ms);
}

/// Law of the timeline order: two time-sorted sequences that hold the same
/// events of each time, in the same order, are the same sequence. So the
/// stable sort of [`Timeline::sort_by_time`] has one outcome, and sorting a
/// timeline that is sorted already changes nothing.
pub proof fn lemma_stable_sort_unique(a: Seq<TimelineEventView>, b: Seq<TimelineEventView>)
    requires
        sorted_by_time(a),
        sorted_by_time(b),
        same_per_time(a, b),
    ensures
        a == b,
    decreases a.len() + b.len(),
{
    if a.len() == 0 && b.len() == 0 {
        assert(a =~= b);
        return;
    }
    if a.len() == 0 || b.len() == 0 {
        let (n, m) = if a.len() == 0 { (b, a) } else { (a, b) };
        let t = n[0].timestamp_ms;
        n.lemma_filter_contains(at_time(t), 0);
        assert(a.filter(at_time(t)) == b.filter(at_time(t)));
        m.lemma_filter_len(at_time(t));
        assert(n.filter(at_time(t)).len() > 0);
        assert(false);
    }
    let x = a.last();
    let y = b.last();
    a.lemma_filter_contains(at_time(x.timestamp_ms), a.len() - 1);
    b.lemma_filter_contains(at_time(y.timestamp_ms), b.len() - 1);
    assert(a.filter(at_time(x.timestamp_ms)) == b.filter(at_time(x.timestamp_ms)));
    assert(a.filter(at_time(y.timestamp_ms)) == b.filter(at_time(y.timestamp_ms)));
    assert(a.filter(at_time(y.timestamp_ms)).len() > 0);
    assert(b.filter(at_time(x.timestamp_ms)).len() > 0);
    lemma_last_is_latest(a, y.timestamp_ms);
    lemma_last_is_latest(b, x.timestamp_ms);
    let t = x.timestamp_ms;
    let ai = a.drop_last();
    let bi = b.drop_last();
    assert(a =~= ai.push(x));
    assert(b =~= bi.push(y));
    ai.lemma_filter_push(x, at_time(t));
    bi.lemma_filter_push(y, at_time(t));
    assert(a.filter(at_time(t)) == b.filter(at_time(t)));
    assert(x == y) by {
        assert(ai.filter(at_time(t)).push(x).last() == bi.filter(at_time(t)).push(y).last());
    }
    assert forall|s: u64| #[trigger] ai.filter(at_time(s)) == bi.filter(at_time(s)) by {
        ai.lemma_filter_push(x, at_time(s));
        bi.lemma_filter_push(y, at_time(s));
        assert(a.filter(at_time(s)) == b.filter(at_time(s)));
        if s == t {
            assert(ai.filter(at_time(s)) =~= ai.filter(at_time(s)).push(x).drop_last());
            assert(bi.filter(at_time(s)) =~= bi.filter(at_time(s)).push(y).drop_last());
        }
    }
    lemma_stable_sort_unique(ai, bi);
}

/// An element occurs as often in a sequence as among its members that
/// satisfy a predicate it satisfies.
proof fn lemma_count_in_filter(s: Seq<TimelineEventView>, p: spec_fn(TimelineEventView) -> bool, e: TimelineEventView)
    requires
        p(e),
    ensures
        s.filter(p).to_multiset().count(e) == s.to_multiset().count(e),
    decreases s.len(),
{
    broadcast use vstd::multiset::group_multiset_axioms;
    if s.len() == 0 {
        reveal_with_fuel(Seq::filter, 1);
    } else {
        let init = s.drop_last();
        let x = s.last();
        lemma_count_in_filter(init, p, e);
        assert(s =~= init.push(x));
        init.lemma_filter_push(x, p);
        vstd::seq_lib::to_multiset_build(init, x);
        if p(x) {
            vstd::seq_lib::to_multiset_build(init.filter(p), x);
        }
    }
}

/// Law of the timeline order: two sequences that hold the same events of
/// each time, in the same order, hold the same events; so the stable sort
/// of [`Timeline::sort_by_time`] is a permutation of the timeline.
pub proof fn lemma_same_per_time_permutation(a: Seq<TimelineEventView>, b: Seq<TimelineEventView>)
    requires
        same_per_time(a, b),
    ensures
        a.to_multiset() == b.to_multiset(),
{
    assert forall|e: TimelineEventView| a.to_multiset().count(e) == b.to_multiset().count(e) by {
        lemma_count_in_filter(a, at_time(e.timestamp_ms), e);
        lemma_count_in_filter(b, at_time(e.timestamp_ms), e);
        assert(a.filter(at_time(e.timestamp_ms)) == b.filter(at_time(e.timestamp_ms)));
    }
    assert(a.to_multiset() =~= b.to_multiset());
}

/// Law of [`AutomatedDebugger::clear`]: a debugger with no logs, as
/// `clear` leaves it, builds an empty timeline (see
/// [`AutomatedDebugger::build_timeline`]) and detects no anomaly (see
/// [`AutomatedDebugger::detect_anomalies`]).
pub proof fn lemma_cleared_debugger_is_quiet(d: AutomatedDebuggerView)
    requires
        d.logs.len() == 0,
    ensures
        d.logs.len() == 0,
        raw_anomalies(d.logs, d.patterns, d.min_severity).len() == 0,
        detected_anomalies(d).len() == 0,
{
}

// ---------------------------------------------------------------------------
// Report text
// ---------------------------------------------------------------------------

/// Lines giving the number of anomalies of each severity found, most
/// severe first.
pub open spec fn severity_count_lines(c: SeverityCounts) -> Seq<Seq<char>> {
    (if c.critical > 0 { seq!["  CRITICAL: "@ + decimal(c.critical as nat)] } else { Seq::empty() })
        + (if c.error > 0 { seq!["  ERROR: "@ + decimal(c.error as nat)] } else { Seq::empty() })
        + (if c.warning > 0 { seq!["  WARN: "@ + decimal(c.warning as nat)] } else { Seq::empty() })
        + (if c.info > 0 { seq!["  INFO: "@ + decimal(c.info as nat)] } else { Seq::empty() })
}

/// Confidence in a root cause, in whole percent (see
/// [`RootCause::confidence_ratio`]); zero when no anomaly was counted.
pub open spec fn confidence_percent(rc: RootCauseView) -> nat {
    if rc.total_anomalies > 0 {
        rounded_percent(10 * rc.primary_count + severity_weight(rc.primary_severity) * rc.total_anomalies,
            20 * rc.total_anomalies)
    } else {
        0
    }
}

/// Lines of a report on root cause `rc`: the cause and its evidence.
pub open spec fn root_cause_lines(rc: RootCauseView) -> Seq<Seq<char>> {
    seq![
        "Root Cause (confidence: "@ + decimal(confidence_percent(rc)) + "%):"@,
        "  "@ + rc.primary_cause,
        ""@,
        "Evidence:"@,
    ] + rc.evidence.map_values(|e: Seq<char>| "  - "@ + e) + seq![""@]
}

/// The view of an optional root cause.
pub open spec fn root_cause_view(o: Option<RootCause>) -> Option<RootCauseView> {
    match o {
        Some(rc) => Some(rc@),
        None => None,
    }
}

/// Line of a report on a suggested fix.
pub open spec fn fix_line(f: SuggestedFixView) -> Seq<char> {
    "  ["@ + decimal(f.priority as nat) + "] "@ + f.component + ": "@ + f.description
}

/// Lines of a report on the suggested fixes, none when there are none.
pub open spec fn fix_lines(fixes: Seq<SuggestedFixView>) -> Seq<Seq<char>> {
    if fixes.len() > 0 {
        seq!["Suggested Fixes (by priority):"@] + fixes.map_values(|f: SuggestedFixView| fix_line(f))
    } else {
        Seq::empty()
    }
}

/// Lines of the text of a report with figures `stats`, root cause `rc` and
/// suggested fixes `fixes`.
pub open spec fn debug_report_lines(stats: DebugStats, rc: Option<RootCauseView>, fixes: Seq<SuggestedFixView>) -> Seq<Seq<char>> {
    seq![
        "Debug Investigation Report"@,
        "=========================="@,
        ""@,
        "Statistics:"@,
        "  Log lines analyzed: "@ + decimal(stats.log_lines_analyzed as nat),
        "  Nodes examined: "@ + decimal(stats.nodes_examined as nat),
        "  Time span: "@ + decimal(stats.time_span_ms as nat) + " ms"@,
        ""@,
        "Anomalies by Severity:"@,
    ] + severity_count_lines(stats.anomalies_by_severity) + seq![""@]
        + (match rc { Some(r) => root_cause_lines(r), None => Seq::empty() })
        + fix_lines(fixes)
}

/// Writes `label` and `n` as a line when `n` is not zero.
fn write_count_line(out: &mut String, label: &str, n: usize, Ghost(lines): Ghost<Seq<Seq<char>>>) -> (r: Ghost<Seq<Seq<char>>>)
    requires
        old(out)@ == lines_text(lines),
    ensures
        r@ == lines + (if n > 0 { seq![label@ + decimal(n as nat)] } else { Seq::empty() }),
        final(out)@ == lines_text(r@),
{
    if n > 0 {
        let line = concat2(label, usize_to_text(n).as_str());
        write_line(out, line.as_str(), Ghost(lines));
        assert(lines.push(line@) =~= lines + seq![label@ + decimal(n as nat)]);
        Ghost(lines.push(line@))
    } else {
        assert(lines + Seq::<Seq<char>>::empty() =~= lines);
        Ghost(lines)
    }
}

impl RootCause {
    /// Confidence in the root cause, in whole percent, ties to even.
    pub fn confidence_percent(&self) -> (p: u128)
        ensures
            p == confidence_percent(self@),
    {
        if self.total_anomalies == 0 {
            return 0;
        }
        let (num, den) = self.confidence_ratio();
        assert(self.total_anomalies <= usize::MAX);
        assert(severity_weight(self.primary_severity) <= 10);
        assert(num <= 20 * usize::MAX) by (nonlinear_arith)
            requires
                num == 10 * self.primary_count + severity_weight(self.primary_severity) * self.total_anomalies,
                severity_weight(self.primary_severity) <= 10,
                self.primary_count <= usize::MAX,
                self.total_anomalies <= usize::MAX;
        percent_of(num, den)
    }
}

/// Writes the lines of root cause `rc`.
fn write_root_cause(out: &mut String, rc: &RootCause, Ghost(lines): Ghost<Seq<Seq<char>>>) -> (r: Ghost<Seq<Seq<char>>>)
    requires
        old(out)@ == lines_text(lines),
    ensures
        r@ == lines + root_cause_lines(rc@),
        final(out)@ == lines_text(r@),
{
    let ghost mut cur = lines;
    let pct = u128_to_text(rc.confidence_percent());
    let h = concat3("Root Cause (confidence: ", pct.as_str(), "%):");
    write_line(out, h.as_str(), Ghost(cur));
    proof { cur = cur.push(h@); }
    let cause = concat2("  ", rc.primary_cause.as_str());
    write_line(out, cause.as_str(), Ghost(cur));
    proof { cur = cur.push(cause@); }
    write_line(out, "", Ghost(cur));
    proof { cur = cur.push(""@); }
    write_line(out, "Evidence:", Ghost(cur));
    proof { cur = cur.push("Evidence:"@); }
    let ghost ev = rc@.evidence.map_values(|x: Seq<char>| "  - "@ + x);
    let ghost before_ev = cur;
    let mut i: usize = 0;
    while i < rc.evidence.len()
        invariant
            0 <= i <= rc.evidence@.len(),
            ev == rc@.evidence.map_values(|x: Seq<char>| "  - "@ + x),
            rc@.evidence == string_views(rc.evidence@),
            cur == before_ev + ev.take(i as int),
            out@ == lines_text(cur),
        decreases rc.evidence@.len() - i,
    {
        let item = concat2("  - ", rc.evidence[i].as_str());
        write_line(out, item.as_str(), Ghost(cur));
        proof {
            assert(item@ == ev[i as int]);
            assert(before_ev + ev.take(i + 1) =~= (before_ev + ev.take(i as int)).push(item@));
            cur = cur.push(item@);
        }
        i = i + 1;
    }
    write_line(out, "", Ghost(cur));
    proof {
        assert(ev.take(rc.evidence@.len() as int) =~= ev);
        cur = cur.push(""@);
        assert(cur =~= lines + root_cause_lines(rc@));
    }
    Ghost(cur)
}

/// Writes the lines of the suggested fixes `fixes`.
fn write_fixes(out: &mut String, fixes: &Vec<SuggestedFix>, Ghost(lines): Ghost<Seq<Seq<char>>>) -> (r: Ghost<Seq<Seq<char>>>)
    requires
        old(out)@ == lines_text(lines),
    ensures
        r@ == lines + fix_lines(fix_views(fixes@)),
        final(out)@ == lines_text(r@),
{
    let ghost fv = fix_views(fixes@);
    if fixes.len() == 0 {
        assert(lines + fix_lines(fv) =~= lines);
        return Ghost(lines);
    }
    let ghost mut cur = lines;
    write_line(out, "Suggested Fixes (by priority):", Ghost(cur));
    proof { cur = cur.push("Suggested Fixes (by priority):"@); }
    let ghost fl = fv.map_values(|f: SuggestedFixView| fix_line(f));
    let ghost before_fl = cur;
    let mut j: usize = 0;
    while j < fixes.len()
        invariant
            0 <= j <= fixes@.len(),
            fv == fix_views(fixes@),
            fl == fv.map_values(|f: SuggestedFixView| fix_line(f)),
            cur == before_fl + fl.take(j as int),
            out@ == lines_text(cur),
        decreases fixes@.len() - j,
    {
        let f = &fixes[j];
        let a1 = concat3("  [", u64_to_text(f.priority as u64).as_str(), "] ");
        let a2 = concat3(a1.as_str(), f.component.as_str(), ": ");
        let item = concat2(a2.as_str(), f.description.as_str());
        write_line(out, item.as_str(), Ghost(cur));
        proof {
            assert(item@ == fl[j as int]);
            assert(before_fl + fl.take(j + 1) =~= (before_fl + fl.take(j as int)).push(item@));
            cur = cur.push(item@);
        }
        j = j + 1;
    }
    proof {
        assert(fl.take(fixes@.len() as int) =~= fl);
        assert(cur =~= lines + fix_lines(fv));
    }
    Ghost(cur)
}

/// Writes the figures and the counts by severity of `stats`.
fn write_stats(out: &mut String, stats: &DebugStats) -> (r: Ghost<Seq<Seq<char>>>)
    requires
        old(out)@.len() == 0,
    ensures
        r@ == debug_report_lines(*stats, None, Seq::empty()),
        final(out)@ == lines_text(r@),
{
    let ghost mut lines: Seq<Seq<char>> = Seq::empty();
    assert(out@ =~= lines_text(lines));
    write_line(out, "Debug Investigation Report", Ghost(lines));
    proof { lines = lines.push("Debug Investigation Report"@); }
    write_line(out, "==========================", Ghost(lines));
    proof { lines = lines.push("=========================="@); }
    write_line(out, "", Ghost(lines));
    proof { lines = lines.push(""@); }
    write_line(out, "Statistics:", Ghost(lines));
    proof { lines = lines.push("Statistics:"@); }
    let l1 = concat2("  Log lines analyzed: ", usize_to_text(stats.log_lines_analyzed).as_str());
    write_line(out, l1.as_str(), Ghost(lines));
    proof { lines = lines.push(l1@); }
    let l2 = concat2("  Nodes examined: ", usize_to_text(stats.nodes_examined).as_str());
    write_line(out, l2.as_str(), Ghost(lines));
    proof { lines = lines.push(l2@); }
    let l3 = concat3("  Time span: ", u64_to_text(stats.time_span_ms).as_str(), " ms");
    write_line(out, l3.as_str(), Ghost(lines));
    proof { lines = lines.push(l3@); }
    write_line(out, "", Ghost(lines));
    proof { lines = lines.push(""@); }
    write_line(out, "Anomalies by Severity:", Ghost(lines));
    proof { lines = lines.push("Anomalies by Severity:"@); }
    let ghost head = lines;
    let c = &stats.anomalies_by_severity;
    let a = write_count_line(out, "  CRITICAL: ", c.critical, Ghost(lines));
    let b = write_count_line(out, "  ERROR: ", c.error, Ghost(a@));
    let d = write_count_line(out, "  WARN: ", c.warning, Ghost(b@));
    let e = write_count_line(out, "  INFO: ", c.info, Ghost(d@));
    proof { lines = e@; }
    write_line(out, "", Ghost(lines));
    proof {
        lines = lines.push(""@);
        assert(lines =~= head + severity_count_lines(stats.anomalies_by_severity) + seq![""@]);
        assert(lines =~= debug_report_lines(*stats, None, Seq::empty()));
    }
    Ghost(lines)
}

impl DebugReport {
    /// The report as text: figures, anomalies by severity, root cause with
    /// its confidence and evidence, and suggested fixes.
    pub fn to_text(&self) -> (s: String)
        ensures
            s@ == lines_text(debug_report_lines(self.stats, root_cause_view(self.root_cause), fix_views(self.suggested_fixes@))),
    {
        let mut out = String::new();
        let head = write_stats(&mut out, &self.stats);
        let mid = match &self.root_cause {
            Some(rc) => write_root_cause(&mut out, rc, Ghost(head@)),
            None => {
                assert(head@ + Seq::<Seq<char>>::empty() =~= head@);
                Ghost(head@)
            },
        };
        let end = write_fixes(&mut out, &self.suggested_fixes, Ghost(mid@));
        proof {
            let rcv = root_cause_view(self.root_cause);
            let base = debug_report_lines(self.stats, None, Seq::empty());
            assert(mid@ == base + (match rcv { Some(r) => root_cause_lines(r), None => Seq::empty() }));
            assert(end@ =~= debug_report_lines(self.stats, rcv, fix_views(self.suggested_fixes@)));
        }
        out
    }
}

} // verus!
