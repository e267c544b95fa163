//! Reports of library defects found by verification runs, written as GitHub
//! issues.
//!
//! The library decides what an issue says and which `gh` command files it;
//! running the command is left to the caller.

use vstd::prelude::*;
use crate::keyed::{KeyedList, unique_keys, upsert, text_entries, lemma_text_upsert};
use crate::platform::{utc_now_ms, format_utc, utc_text};
use crate::text::{
    string_views, joined, join, duplicate_strings, duplicate_opt, opt_view, decimal, usize_to_text,
    concat2, concat3, owned, str_eq, contains, has_substring, has_prefix, split_on, split, chars_of,
    slice_chars, string_from_chars,
};

verus! {

// ---------------------------------------------------------------------------
// Environment
// ---------------------------------------------------------------------------

/// The environment a defect was observed in.
pub struct EnvironmentInfo {
    /// Operating system.
    pub os: String,
    /// Operating system version.
    pub os_version: String,
    /// Rust toolchain version.
    pub rust_version: String,
    /// Version of the library under test.
    pub library_version: String,
    /// Git commit of the library, if known.
    pub commit_hash: Option<String>,
    /// Further context, by key.
    pub additional: KeyedList<String>,
}

/// Mathematical value of an [`EnvironmentInfo`].
pub struct EnvironmentInfoView {
    pub os: Seq<char>,
    pub os_version: Seq<char>,
    pub rust_version: Seq<char>,
    pub library_version: Seq<char>,
    pub commit_hash: Option<Seq<char>>,
    pub additional: Seq<(Seq<char>, Seq<char>)>,
}

impl View for EnvironmentInfo {
    type V = EnvironmentInfoView;

    open spec fn view(&self) -> EnvironmentInfoView {
        EnvironmentInfoView {
            os: self.os@,
            os_version: self.os_version@,
            rust_version: self.rust_version@,
            library_version: self.library_version@,
            commit_hash: opt_view(self.commit_hash),
            additional: text_entries(self.additional@),
        }
    }
}

impl Default for EnvironmentInfo {
    fn default() -> (e: Self)
        ensures
            e@.os.len() == 0,
            e@.os_version.len() == 0,
            e@.rust_version.len() == 0,
            e@.library_version.len() == 0,
            e@.commit_hash is None,
            e.additional@.len() == 0,
            e@.additional.len() == 0,
    {
        EnvironmentInfo {
            os: String::new(),
            os_version: String::new(),
            rust_version: String::new(),
            library_version: String::new(),
            commit_hash: None,
            additional: KeyedList::new(),
        }
    }
}

impl EnvironmentInfo {
    /// The same environment with library version `version`.
    pub fn with_library_version(self, version: &str) -> (e: Self)
        ensures
            e@ == (EnvironmentInfoView { library_version: version@, ..self@ }),
            e.additional@ == self.additional@,
    {
        let mut e = self;
        e.library_version = owned(version);
        e
    }

    /// The same environment with commit `hash`.
    pub fn with_commit_hash(self, hash: &str) -> (e: Self)
        ensures
            e@ == (EnvironmentInfoView { commit_hash: Some(hash@), ..self@ }),
            e.additional@ == self.additional@,
    {
        let mut e = self;
        e.commit_hash = Some(owned(hash));
        e
    }

    /// Records `value` under `key` in the additional context, replacing an
    /// earlier value of the same key.
    pub fn add_context(&mut self, key: &str, value: &str)
        requires
            unique_keys(old(self).additional@),
        ensures
            final(self)@ == (EnvironmentInfoView {
                additional: upsert(old(self)@.additional, key@, value@),
                ..old(self)@
            }),
            unique_keys(final(self).additional@),
    {
        let v = owned(value);
        proof { lemma_text_upsert(self.additional@, key@, v); }
        self.additional.insert(owned(key), v);
    }

    /// An independent copy.
    pub fn duplicate(&self) -> (e: Self)
        ensures
            e@ == self@,
            e.additional@.len() == self.additional@.len(),
    {
        EnvironmentInfo {
            os: self.os.clone(),
            os_version: self.os_version.clone(),
            rust_version: self.rust_version.clone(),
            library_version: self.library_version.clone(),
            commit_hash: duplicate_opt(&self.commit_hash),
            additional: self.additional.duplicate_text(),
        }
    }
}

// ---------------------------------------------------------------------------
// Reports
// ---------------------------------------------------------------------------

/// A defect report, ready to be filed as a GitHub issue.
pub struct IssueReport {
    /// Library the defect was found in.
    pub library: String,
    /// Issue title.
    pub title: String,
    /// Issue body, in Markdown.
    pub body: String,
    /// Labels to apply.
    pub labels: Vec<String>,
    /// Test that found the defect.
    pub test_name: String,
    /// When the report was made, in milliseconds since the Unix epoch.
    pub timestamp_ms: i64,
    /// Environment of the test.
    pub environment: EnvironmentInfo,
}

/// Mathematical value of an [`IssueReport`].
pub struct IssueReportView {
    pub library: Seq<char>,
    pub title: Seq<char>,
    pub body: Seq<char>,
    pub labels: Seq<Seq<char>>,
    pub test_name: Seq<char>,
    pub timestamp_ms: i64,
    pub environment: EnvironmentInfoView,
}

impl View for IssueReport {
    type V = IssueReportView;

    open spec fn view(&self) -> IssueReportView {
        IssueReportView {
            library: self.library@,
            title: self.title@,
            body: self.body@,
            labels: string_views(self.labels@),
            test_name: self.test_name@,
            timestamp_ms: self.timestamp_ms,
            environment: self.environment@,
        }
    }
}

/// Builds an [`IssueReport`] piece by piece.
pub struct IssueReportBuilder {
    library: String,
    title: String,
    body: String,
    labels: Vec<String>,
    test_name: String,
    expected: Option<String>,
    actual: Option<String>,
    steps_to_reproduce: Vec<String>,
    additional_notes: Option<String>,
}

/// Mathematical value of an [`IssueReportBuilder`].
pub struct IssueReportBuilderView {
    pub library: Seq<char>,
    pub title: Seq<char>,
    pub body: Seq<char>,
    pub labels: Seq<Seq<char>>,
    pub test_name: Seq<char>,
    pub expected: Option<Seq<char>>,
    pub actual: Option<Seq<char>>,
    pub steps: Seq<Seq<char>>,
    pub notes: Option<Seq<char>>,
}

impl View for IssueReportBuilder {
    type V = IssueReportBuilderView;

    closed spec fn view(&self) -> IssueReportBuilderView {
        IssueReportBuilderView {
            library: self.library@,
            title: self.title@,
            body: self.body@,
            labels: string_views(self.labels@),
            test_name: self.test_name@,
            expected: opt_view(self.expected),
            actual: opt_view(self.actual),
            steps: string_views(self.steps_to_reproduce@),
            notes: opt_view(self.additional_notes),
        }
    }
}

/// Steps numbered from 1: `1. first`, `2. second`, ...
pub open spec fn numbered(steps: Seq<Seq<char>>) -> Seq<Seq<char>> {
    Seq::new(steps.len(), |i: int| decimal((i + 1) as nat) + ". "@ + steps[i])
}

/// The sections of the body a builder writes: expected and actual
/// behaviour, steps to reproduce and notes, each where given.
pub open spec fn body_sections(b: IssueReportBuilderView) -> Seq<Seq<char>> {
    let expected = match b.expected {
        Some(e) => seq!["**Expected behavior:**\n"@ + e],
        None => Seq::empty(),
    };
    let actual = match b.actual {
        Some(a) => seq!["**Actual behavior:**\n"@ + a],
        None => Seq::empty(),
    };
    let steps = if b.steps.len() == 0 {
        Seq::empty()
    } else {
        seq!["**Steps to reproduce:**\n"@ + joined(numbered(b.steps), "\n"@)]
    };
    let notes = match b.notes {
        Some(n) => seq!["**Additional notes:**\n"@ + n],
        None => Seq::empty(),
    };
    expected + actual + steps + notes
}

/// The body a builder writes when none was set: its sections separated by
/// blank lines.
pub open spec fn formatted_body(b: IssueReportBuilderView) -> Seq<char> {
    joined(body_sections(b), "\n\n"@)
}

impl IssueReportBuilder {
    /// A builder for a report on `library`, with everything else empty.
    pub fn new(library: &str) -> (b: Self)
        ensures
            b@ == (IssueReportBuilderView {
                library: library@,
                title: Seq::empty(),
                body: Seq::empty(),
                labels: Seq::empty(),
                test_name: Seq::empty(),
                expected: None,
                actual: None,
                steps: Seq::empty(),
                notes: None,
            }),
    {
        let b = IssueReportBuilder {
            library: owned(library),
            title: String::new(),
            body: String::new(),
            labels: Vec::new(),
            test_name: String::new(),
            expected: None,
            actual: None,
            steps_to_reproduce: Vec::new(),
            additional_notes: None,
        };
        assert(b@.labels =~= Seq::<Seq<char>>::empty());
        assert(b@.steps =~= Seq::<Seq<char>>::empty());
        b
    }

    /// Sets the title.
    pub fn title(self, title: &str) -> (b: Self)
        ensures
            b@ == (IssueReportBuilderView { title: title@, ..self@ }),
    {
        let mut b = self;
        b.title = owned(title);
        b
    }

    /// Sets the name of the test that found the defect.
    pub fn test_name(self, name: &str) -> (b: Self)
        ensures
            b@ == (IssueReportBuilderView { test_name: name@, ..self@ }),
    {
        let mut b = self;
        b.test_name = owned(name);
        b
    }

    /// Sets the expected behaviour.
    pub fn expected(self, expected: &str) -> (b: Self)
        ensures
            b@ == (IssueReportBuilderView { expected: Some(expected@), ..self@ }),
    {
        let mut b = self;
        b.expected = Some(owned(expected));
        b
    }

    /// Sets the actual behaviour.
    pub fn actual(self, actual: &str) -> (b: Self)
        ensures
            b@ == (IssueReportBuilderView { actual: Some(actual@), ..self@ }),
    {
        let mut b = self;
        b.actual = Some(owned(actual));
        b
    }

    /// Sets the body outright; a non-empty body is used as it is.
    pub fn body(self, body: &str) -> (b: Self)
        ensures
            b@ == (IssueReportBuilderView { body: body@, ..self@ }),
    {
        let mut b = self;
        b.body = owned(body);
        b
    }

    /// Adds a label.
    pub fn label(self, label: &str) -> (b: Self)
        ensures
            b@ == (IssueReportBuilderView { labels: self@.labels.push(label@), ..self@ }),
    {
        let mut b = self;
        b.labels.push(owned(label));
        assert(b@.labels =~= self@.labels.push(label@));
        b
    }

    /// Adds labels, in order.
    pub fn labels(self, labels: &[&str]) -> (b: Self)
        ensures
            b@ == (IssueReportBuilderView {
                labels: self@.labels + labels@.map_values(|l: &str| l@),
                ..self@
            }),
    {
        let mut b = self;
        let mut i: usize = 0;
        while i < labels.len()
            invariant
                0 <= i <= labels@.len(),
                b@ == (IssueReportBuilderView {
                    labels: self@.labels + labels@.take(i as int).map_values(|l: &str| l@),
                    ..self@
                }),
            decreases labels.len() - i,
        {
            let ghost before = b@.labels;
            let l = owned(labels[i]);
            b.labels.push(l);
            assert(string_views(b.labels@) =~= before.push(labels@[i as int]@));
            assert(labels@.take(i + 1).map_values(|l: &str| l@)
                =~= labels@.take(i as int).map_values(|l: &str| l@).push(labels@[i as int]@));
            assert(b@.labels =~= self@.labels + labels@.take(i + 1).map_values(|l: &str| l@));
            i = i + 1;
        }
        assert(labels@.take(labels@.len() as int) =~= labels@);
        b
    }

    /// Adds a step to reproduce the defect.
    pub fn step(self, step: &str) -> (b: Self)
        ensures
            b@ == (IssueReportBuilderView { steps: self@.steps.push(step@), ..self@ }),
    {
        let mut b = self;
        b.steps_to_reproduce.push(owned(step));
        assert(b@.steps =~= self@.steps.push(step@));
        b
    }

    /// Sets additional notes.
    pub fn notes(self, notes: &str) -> (b: Self)
        ensures
            b@ == (IssueReportBuilderView { notes: Some(notes@), ..self@ }),
    {
        let mut b = self;
        b.additional_notes = Some(owned(notes));
        b
    }

    /// The report: the body set outright if it is not empty, the formatted
    /// sections otherwise; made now, in `environment`.
    pub fn build(self, environment: EnvironmentInfo) -> (r: IssueReport)
        ensures
            r@.library == self@.library,
            r@.title == self@.title,
            r@.body == (if self@.body.len() == 0 { formatted_body(self@) } else { self@.body }),
            r@.labels == self@.labels,
            r@.test_name == self@.test_name,
            r@.environment == environment@,
            r.environment.additional@ == environment.additional@,
    {
        let body = if self.body.as_str().is_empty() { self.format_body() } else { self.body.clone() };
        IssueReport {
            library: self.library,
            title: self.title,
            body,
            labels: self.labels,
            test_name: self.test_name,
            timestamp_ms: utc_now_ms(),
            environment,
        }
    }

    /// The body written from the builder's sections (see [`formatted_body`]).
    fn format_body(&self) -> (s: String)
        ensures
            s@ == formatted_body(self@),
    {
        let mut parts: Vec<String> = Vec::new();
        let ghost b = self@;
        let ghost expected: Seq<Seq<char>> = match b.expected {
            Some(e) => seq!["**Expected behavior:**\n"@ + e],
            None => Seq::empty(),
        };
        let ghost actual: Seq<Seq<char>> = match b.actual {
            Some(a) => seq!["**Actual behavior:**\n"@ + a],
            None => Seq::empty(),
        };
        let ghost steps: Seq<Seq<char>> = if b.steps.len() == 0 {
            Seq::empty()
        } else {
            seq!["**Steps to reproduce:**\n"@ + joined(numbered(b.steps), "\n"@)]
        };
        let ghost notes: Seq<Seq<char>> = match b.notes {
            Some(n) => seq!["**Additional notes:**\n"@ + n],
            None => Seq::empty(),
        };
        if let Some(e) = &self.expected {
            parts.push(concat2("**Expected behavior:**\n", e.as_str()));
        }
        assert(string_views(parts@) =~= expected);
        if let Some(a) = &self.actual {
            let ghost before = string_views(parts@);
            parts.push(concat2("**Actual behavior:**\n", a.as_str()));
            assert(string_views(parts@) =~= before.push("**Actual behavior:**\n"@ + a@));
        }
        assert(string_views(parts@) =~= expected + actual);
        if self.steps_to_reproduce.len() > 0 {
            let numbered_steps = self.numbered_steps();
            let listed = join(numbered_steps.as_slice(), "\n");
            let ghost before = string_views(parts@);
            parts.push(concat2("**Steps to reproduce:**\n", listed.as_str()));
            assert(string_views(parts@) =~= before.push("**Steps to reproduce:**\n"@ + listed@));
        }
        assert(string_views(parts@) =~= expected + actual + steps);
        if let Some(n) = &self.additional_notes {
            let ghost before = string_views(parts@);
            parts.push(concat2("**Additional notes:**\n", n.as_str()));
            assert(string_views(parts@) =~= before.push("**Additional notes:**\n"@ + n@));
        }
        assert(string_views(parts@) =~= body_sections(b));
        join(parts.as_slice(), "\n\n")
    }

    /// The steps, numbered from 1.
    fn numbered_steps(&self) -> (r: Vec<String>)
        ensures
            string_views(r@) == numbered(self@.steps),
    {
        let mut r: Vec<String> = Vec::new();
        let mut i: usize = 0;
        let n = self.steps_to_reproduce.len();
        while i < n
            invariant
                n == self@.steps.len(),
                0 <= i <= n,
                string_views(r@) == numbered(self@.steps).take(i as int),
            decreases n - i,
        {
            let ghost before = r@;
            let num = usize_to_text(i + 1);
            let line = concat3(num.as_str(), ". ", self.steps_to_reproduce[i].as_str());
            r.push(line);
            assert(line@ == numbered(self@.steps)[i as int]);
            assert(string_views(r@) =~= string_views(before).push(line@));
            assert(numbered(self@.steps).take(i + 1) =~= numbered(self@.steps).take(i as int).push(line@));
            i = i + 1;
        }
        assert(numbered(self@.steps).take(n as int) =~= numbered(self@.steps));
        r
    }
}

// ---------------------------------------------------------------------------
// Filing
// ---------------------------------------------------------------------------

/// The GitHub repository of a library: `saorsa-gossip` and `ant-quic` are
/// known.
pub open spec fn repo_for(library: Seq<char>) -> Option<Seq<char>> {
    if library == "saorsa-gossip"@ {
        Some("dirvine/saorsa-gossip"@)
    } else if library == "ant-quic"@ {
        Some("dirvine/ant-quic"@)
    } else {
        None
    }
}

/// The commit a report names: its hash, or `unknown`.
pub open spec fn commit_text(c: Option<Seq<char>>) -> Seq<char> {
    match c {
        Some(h) => h,
        None => "unknown"@,
    }
}

/// The Markdown of an issue filed for report `r`.
pub open spec fn markdown_of(r: IssueReportView) -> Seq<char> {
    "## Bug Report\n\n**Library**: "@ + r.library + " v"@ + r.environment.library_version
        + "\n**Test**: "@ + r.test_name
        + "\n**Timestamp**: "@ + utc_text(r.timestamp_ms)
        + "\n\n### Environment\n- OS: "@ + r.environment.os + " "@ + r.environment.os_version
        + "\n- Rust: "@ + r.environment.rust_version
        + "\n- Commit: "@ + commit_text(r.environment.commit_hash)
        + "\n\n### Description\n"@ + r.body
        + "\n\n### Labels\n"@ + joined(r.labels, ", "@)
        + "\n\n---\n*Generated by saorsa-quic-test verification harness*\n"@
}

/// Why an issue could not be filed.
pub enum IssueCreationError {
    /// No repository is known for the library.
    UnknownLibrary(String),
    /// The `gh` tool is not available.
    GhNotAvailable(String),
    /// The `gh` command failed.
    CommandFailed(String),
}

/// What filing an issue came to.
pub enum IssueCreationResult {
    /// A new issue, with its URL.
    Created(String),
    /// An equivalent issue existed already, with its URL.
    AlreadyExists(String),
}

/// An issue that exists already, as `gh issue list` describes it.
pub struct ExistingIssue {
    /// Its URL.
    pub url: String,
    /// Its title.
    pub title: String,
}

impl IssueCreationError {
    /// The message of the error.
    pub fn message(&self) -> (m: String)
        ensures
            m@ == match self {
                IssueCreationError::UnknownLibrary(l) => "Unknown library: "@ + l@,
                IssueCreationError::GhNotAvailable(x) => "gh CLI not available: "@ + x@,
                IssueCreationError::CommandFailed(x) => "Command failed: "@ + x@,
            },
    {
        match self {
            IssueCreationError::UnknownLibrary(l) => concat2("Unknown library: ", l.as_str()),
            IssueCreationError::GhNotAvailable(x) => concat2("gh CLI not available: ", x.as_str()),
            IssueCreationError::CommandFailed(x) => concat2("Command failed: ", x.as_str()),
        }
    }
}

/// The arguments of `gh issue create` for a report filed in `repo`.
pub open spec fn create_args(r: IssueReportView, repo: Seq<char>) -> Seq<Seq<char>> {
    seq!["issue"@, "create"@, "--repo"@, repo, "--title"@, r.title, "--body"@, markdown_of(r)]
        + if r.labels.len() == 0 { Seq::empty() } else { seq!["--label"@, joined(r.labels, ","@)] }
}

/// The arguments of `gh issue list` that search `repo` for issues like `r`.
pub open spec fn search_args(r: IssueReportView, repo: Seq<char>) -> Seq<Seq<char>> {
    seq!["issue"@, "list"@, "--repo"@, repo, "--state"@, "all"@, "--search"@, r.title,
        "--json"@, "url,title"@]
}

/// Titles that name the same defect: one contains the other.
pub open spec fn similar_titles(a: Seq<char>, b: Seq<char>) -> bool {
    has_substring(a, b) || has_substring(b, a)
}

/// The first of `issues` whose title is similar to `title`.
pub open spec fn first_similar(issues: Seq<(Seq<char>, Seq<char>)>, title: Seq<char>) -> Option<Seq<char>>
    decreases issues.len(),
{
    if issues.len() == 0 {
        None
    } else if similar_titles(issues[0].1, title) {
        Some(issues[0].0)
    } else {
        first_similar(issues.drop_first(), title)
    }
}

/// `(url, title)` of each existing issue.
pub open spec fn existing_views(s: Seq<ExistingIssue>) -> Seq<(Seq<char>, Seq<char>)> {
    s.map_values(|e: ExistingIssue| (e.url@, e.title@))
}

/// Pushes `x` onto `v`.
fn push_text(v: &mut Vec<String>, x: &str)
    ensures
        string_views(final(v)@) == string_views(old(v)@).push(x@),
{
    v.push(owned(x));
    assert(string_views(v@) =~= string_views(old(v)@).push(x@));
}

impl IssueReport {
    /// A builder for a report on `library`.
    pub fn builder(library: &str) -> (b: IssueReportBuilder)
        ensures
            b@ == (IssueReportBuilderView {
                library: library@,
                title: Seq::empty(),
                body: Seq::empty(),
                labels: Seq::empty(),
                test_name: Seq::empty(),
                expected: None,
                actual: None,
                steps: Seq::empty(),
                notes: None,
            }),
    {
        IssueReportBuilder::new(library)
    }

    /// The GitHub repository of the library, if one is known.
    pub fn github_repo(&self) -> (r: Option<&'static str>)
        ensures
            match r {
                Some(x) => repo_for(self.library@) == Some(x@),
                None => repo_for(self.library@) is None,
            },
    {
        if str_eq(self.library.as_str(), "saorsa-gossip") {
            Some("dirvine/saorsa-gossip")
        } else if str_eq(self.library.as_str(), "ant-quic") {
            Some("dirvine/ant-quic")
        } else {
            None
        }
    }

    /// The Markdown of the issue (see [`markdown_of`]).
    pub fn to_github_markdown(&self) -> (m: String)
        ensures
            m@ == markdown_of(self@),
    {
        let env = &self.environment;
        let mut m = concat3("## Bug Report\n\n**Library**: ", self.library.as_str(), " v");
        m.append(env.library_version.as_str());
        m.append("\n**Test**: ");
        m.append(self.test_name.as_str());
        m.append("\n**Timestamp**: ");
        let stamp = format_utc(self.timestamp_ms);
        m.append(stamp.as_str());
        m.append("\n\n### Environment\n- OS: ");
        m.append(env.os.as_str());
        m.append(" ");
        m.append(env.os_version.as_str());
        m.append("\n- Rust: ");
        m.append(env.rust_version.as_str());
        m.append("\n- Commit: ");
        match &env.commit_hash {
            Some(h) => m.append(h.as_str()),
            None => m.append("unknown"),
        }
        m.append("\n\n### Description\n");
        m.append(self.body.as_str());
        m.append("\n\n### Labels\n");
        let labels = join(self.labels.as_slice(), ", ");
        m.append(labels.as_str());
        m.append("\n\n---\n*Generated by saorsa-quic-test verification harness*\n");
        m
    }

    /// The arguments of the `gh` command that files the issue, or
    /// `UnknownLibrary` when no repository is known for the library.
    pub fn issue_create_args(&self) -> (r: Result<Vec<String>, IssueCreationError>)
        ensures
            match r {
                Ok(args) => (repo_for(self.library@) matches Some(repo)
                    && string_views(args@) == create_args(self@, repo)),
                Err(e) => repo_for(self.library@) is None
                    && (e matches IssueCreationError::UnknownLibrary(l) && l@ == self.library@),
            },
    {
        let repo = match self.github_repo() {
            Some(repo) => repo,
            None => return Err(IssueCreationError::UnknownLibrary(self.library.clone())),
        };
        let mut args: Vec<String> = Vec::new();
        push_text(&mut args, "issue");
        push_text(&mut args, "create");
        push_text(&mut args, "--repo");
        push_text(&mut args, repo);
        push_text(&mut args, "--title");
        push_text(&mut args, self.title.as_str());
        push_text(&mut args, "--body");
        let md = self.to_github_markdown();
        push_text(&mut args, md.as_str());
        if self.labels.len() > 0 {
            push_text(&mut args, "--label");
            let joined_labels = join(self.labels.as_slice(), ",");
            push_text(&mut args, joined_labels.as_str());
        }
        assert(string_views(args@) =~= create_args(self@, repo@));
        Ok(args)
    }

    /// The arguments of the `gh` command that searches for issues like this
    /// one, or `UnknownLibrary` when no repository is known for the library.
    pub fn issue_search_args(&self) -> (r: Result<Vec<String>, IssueCreationError>)
        ensures
            match r {
                Ok(args) => (repo_for(self.library@) matches Some(repo)
                    && string_views(args@) == search_args(self@, repo)),
                Err(e) => repo_for(self.library@) is None
                    && (e matches IssueCreationError::UnknownLibrary(l) && l@ == self.library@),
            },
    {
        let repo = match self.github_repo() {
            Some(repo) => repo,
            None => return Err(IssueCreationError::UnknownLibrary(self.library.clone())),
        };
        let mut args: Vec<String> = Vec::new();
        push_text(&mut args, "issue");
        push_text(&mut args, "list");
        push_text(&mut args, "--repo");
        push_text(&mut args, repo);
        push_text(&mut args, "--state");
        push_text(&mut args, "all");
        push_text(&mut args, "--search");
        push_text(&mut args, self.title.as_str());
        push_text(&mut args, "--json");
        push_text(&mut args, "url,title");
        assert(string_views(args@) =~= search_args(self@, repo@));
        Ok(args)
    }

    /// The URL of an issue that already reports this defect: when the
    /// search output `listing` mentions the title, the first of `issues`
    /// (the listing, parsed) whose title is similar; otherwise none.
    pub fn find_duplicate(&self, listing: &str, issues: &[ExistingIssue]) -> (r: Option<String>)
        ensures
            opt_view(r) == if has_substring(listing@, self@.title) {
                first_similar(existing_views(issues@), self@.title)
            } else {
                None
            },
    {
        if !contains(listing, self.title.as_str()) {
            return None;
        }
        let ghost all = existing_views(issues@);
        assert(all.skip(0) =~= all);
        let mut i: usize = 0;
        while i < issues.len()
            invariant
                all == existing_views(issues@),
                has_substring(listing@, self@.title),
                0 <= i <= all.len(),
                first_similar(all.skip(i as int), self@.title) == first_similar(all, self@.title),
            decreases all.len() - i,
        {
            let e = &issues[i];
            assert(all.skip(i as int)[0] == (e.url@, e.title@));
            assert(all.skip(i as int).drop_first() =~= all.skip(i + 1));
            let ghost rest = all.skip(i as int);
            assert(rest.len() > 0);
            if contains(e.title.as_str(), self.title.as_str()) || contains(self.title.as_str(), e.title.as_str()) {
                assert(similar_titles(rest[0].1, self@.title));
                assert(first_similar(rest, self@.title) == Some(rest[0].0));
                let url = e.url.clone();
                return Some(url);
            }
            assert(!similar_titles(rest[0].1, self@.title));
            i = i + 1;
        }
        assert(all.skip(all.len() as int).len() == 0);
        None
    }

    /// An independent copy.
    pub fn duplicate(&self) -> (r: Self)
        ensures
            r@ == self@,
            r.environment.additional@.len() == self.environment.additional@.len(),
    {
        IssueReport {
            library: self.library.clone(),
            title: self.title.clone(),
            body: self.body.clone(),
            labels: duplicate_strings(self.labels.as_slice()),
            test_name: self.test_name.clone(),
            timestamp_ms: self.timestamp_ms,
            environment: self.environment.duplicate(),
        }
    }
}


// ---------------------------------------------------------------------------
// Operating system version
// ---------------------------------------------------------------------------

/// Line `i` of a text split at its newlines into `parts`: a line ended by a
/// newline loses one carriage return before it.
pub open spec fn text_line(parts: Seq<Seq<char>>, i: int) -> Seq<char> {
    let p = parts[i];
    if i + 1 < parts.len() && p.len() > 0 && p.last() == '\r' { p.drop_last() } else { p }
}

/// `s` without the copies of `p` that start it, one after another.
pub open spec fn strip_repeated_prefix(s: Seq<char>, p: Seq<char>) -> Seq<char>
    decreases s.len(),
{
    if p.len() > 0 && p.len() <= s.len() && s.subrange(0, p.len() as int) == p {
        strip_repeated_prefix(s.skip(p.len() as int), p)
    } else {
        s
    }
}

/// `s` without the double quotes at its start and at its end.
pub open spec fn strip_quotes(s: Seq<char>) -> Seq<char>
    decreases s.len(),
{
    if s.len() > 0 && s[0] == '"' {
        strip_quotes(s.drop_first())
    } else if s.len() > 0 && s.last() == '"' {
        strip_quotes(s.drop_last())
    } else {
        s
    }
}

/// The value of the first `PRETTY_NAME=` line at or after line `i`, with
/// its quotes taken off.
pub open spec fn pretty_name_from(parts: Seq<Seq<char>>, i: int) -> Option<Seq<char>>
    decreases parts.len() - i,
{
    if i < 0 || i >= parts.len() {
        None
    } else if has_prefix(text_line(parts, i), "PRETTY_NAME="@) {
        Some(strip_quotes(strip_repeated_prefix(text_line(parts, i), "PRETTY_NAME="@)))
    } else {
        pretty_name_from(parts, i + 1)
    }
}

/// The operating system's name and version given by the `os-release` file
/// `content`, or `unknown` where it gives none.
pub open spec fn release_pretty_name(content: Seq<char>) -> Seq<char> {
    match pretty_name_from(split_on(content, '\n'), 0) {
        Some(v) => v,
        None => "unknown"@,
    }
}

/// Whether `s` starts with `p`.
fn chars_start_with(s: &[char], p: &[char]) -> (r: bool)
    ensures
        r == (p@.len() <= s@.len() && s@.subrange(0, p@.len() as int) == p@),
{
    if p.len() > s.len() {
        return false;
    }
    let mut k: usize = 0;
    while k < p.len()
        invariant
            p@.len() <= s@.len(),
            0 <= k <= p@.len(),
            forall|j: int| 0 <= j < k ==> s@[j] == p@[j],
        decreases p@.len() - k,
    {
        if s[k] != p[k] {
            assert(s@.subrange(0, p@.len() as int)[k as int] != p@[k as int]);
            return false;
        }
        k = k + 1;
    }
    assert(s@.subrange(0, p@.len() as int) =~= p@);
    true
}

/// The value of a `PRETTY_NAME=` line.
fn pretty_value(line: &[char], prefix: &[char]) -> (r: Vec<char>)
    requires
        prefix@.len() > 0,
    ensures
        r@ == strip_quotes(strip_repeated_prefix(line@, prefix@)),
{
    let n = line.len();
    let mut from: usize = 0;
    let mut rest = slice_chars(line, 0, n);
    assert(rest@ =~= line@.skip(0));
    assert(line@.skip(0) =~= line@);
    let mut more = chars_start_with(rest.as_slice(), prefix);
    while more
        invariant
            prefix@.len() > 0,
            n == line@.len(),
            from <= line@.len(),
            rest@ == line@.skip(from as int),
            more == (prefix@.len() <= rest@.len() && rest@.subrange(0, prefix@.len() as int) == prefix@),
            strip_repeated_prefix(rest@, prefix@) == strip_repeated_prefix(line@, prefix@),
        decreases line@.len() - from,
    {
        let ghost before = rest@;
        assert(before.len() == line@.len() - from);
        from = from + prefix.len();
        rest = slice_chars(line, from, line.len());
        assert(rest@ =~= line@.skip(from as int));
        assert(before.skip(prefix@.len() as int) =~= rest@);
        more = chars_start_with(rest.as_slice(), prefix);
    }
    assert(strip_repeated_prefix(rest@, prefix@) == rest@);
    assert(rest@.subrange(0, rest@.len() as int) =~= rest@);
    let mut lo: usize = 0;
    let mut hi: usize = rest.len();
    while lo < hi && rest[lo] == '"'
        invariant
            0 <= lo <= hi <= rest@.len(),
            hi == rest@.len(),
            strip_quotes(rest@.subrange(lo as int, hi as int)) == strip_quotes(strip_repeated_prefix(line@, prefix@)),
        decreases hi - lo,
    {
        assert(rest@.subrange(lo as int, hi as int).drop_first() =~= rest@.subrange(lo + 1, hi as int));
        lo = lo + 1;
    }
    while lo < hi && rest[hi - 1] == '"'
        invariant
            0 <= lo <= hi <= rest@.len(),
            lo < hi ==> rest@[lo as int] != '"',
            strip_quotes(rest@.subrange(lo as int, hi as int)) == strip_quotes(strip_repeated_prefix(line@, prefix@)),
        decreases hi - lo,
    {
        assert(rest@.subrange(lo as int, hi as int).drop_last() =~= rest@.subrange(lo as int, hi - 1));
        hi = hi - 1;
    }
    let r = slice_chars(rest.as_slice(), lo, hi);
    r
}

/// The operating system's name and version from the content of an
/// `os-release` file: the value of its first `PRETTY_NAME=` line without
/// the quotes, or `unknown` when it has no such line.
pub fn os_version_from_release(content: &str) -> (r: String)
    ensures
        r@ == release_pretty_name(content@),
{
    let parts = split(content, '\n');
    let ghost ps = split_on(content@, '\n');
    let prefix = chars_of("PRETTY_NAME=");
    proof { reveal_strlit("PRETTY_NAME="); }
    let mut i: usize = 0;
    while i < parts.len()
        invariant
            ps == split_on(content@, '\n'),
            parts@.len() == ps.len(),
            forall|k: int| 0 <= k < parts@.len() ==> #[trigger] parts@[k]@ == ps[k],
            prefix@ == "PRETTY_NAME="@,
            prefix@.len() == 12,
            0 <= i <= parts@.len(),
            pretty_name_from(ps, i as int) == pretty_name_from(ps, 0),
        decreases parts@.len() - i,
    {
        let mut line = chars_of(parts[i].as_str());
        assert(line@ == ps[i as int]);
        if i + 1 < parts.len() && line.len() > 0 && line[line.len() - 1] == '\r' {
            line.pop();
            assert(line@ =~= ps[i as int].drop_last());
        }
        assert(line@ == text_line(ps, i as int));
        if chars_start_with(line.as_slice(), prefix.as_slice()) {
            let v = pretty_value(line.as_slice(), prefix.as_slice());
            assert(pretty_name_from(ps, i as int) == Some(v@));
            return string_from_chars(v.as_slice());
        }
        i = i + 1;
    }
    owned("unknown")
}

} // verus!
