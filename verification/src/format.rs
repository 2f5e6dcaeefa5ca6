//! The engine that turns the configured tokens into the status line.
//!
//! The engine never runs the version-control tool itself. Where a directive
//! needs counts that are not known yet, rendering stops and names the query
//! to make; the caller makes it, records the answer in the `FormatState`, and
//! renders again. An answer is recorded once and then reused by every
//! directive.

use vstd::prelude::*;
use crate::config::{Config, ConfigView};
use crate::p4::{
    get_open_counts, get_status_counts, line_views, open_reply, opened_arguments, opened_command,
    path_text, status_arguments, status_command, status_reply, Exit, OpenCounts, QueryError,
    StatusCounts, StatusEntry,
};
use crate::text::{
    decimal, decimal_string, flatten, join, joined, lemma_decimal_not_empty, same_text,
};

verus! {

/// The keywords that a token of the format list may be.
#[derive(Clone, Copy, Debug, PartialEq, Eq, Structural)]
pub enum Directive {
    Client,
    Login,
    Add,
    Edit,
    Delete,
    ReconcileAdd,
    ReconcileEdit,
    Status,
}

/// The directive a token names, if it names one.
pub open spec fn directive_of(token: Seq<char>) -> Option<Directive> {
    if token == "client"@ {
        Some(Directive::Client)
    } else if token == "login"@ {
        Some(Directive::Login)
    } else if token == "add"@ {
        Some(Directive::Add)
    } else if token == "edit"@ {
        Some(Directive::Edit)
    } else if token == "delete"@ {
        Some(Directive::Delete)
    } else if token == "reconcile_add"@ {
        Some(Directive::ReconcileAdd)
    } else if token == "reconcile_edit"@ {
        Some(Directive::ReconcileEdit)
    } else if token == "status"@ {
        Some(Directive::Status)
    } else {
        None
    }
}

/// Reads a token of the format list.
pub fn parse_directive(token: &str) -> (directive: Option<Directive>)
    ensures
        directive == directive_of(token@),
{
    if same_text(token, "client") {
        Some(Directive::Client)
    } else if same_text(token, "login") {
        Some(Directive::Login)
    } else if same_text(token, "add") {
        Some(Directive::Add)
    } else if same_text(token, "edit") {
        Some(Directive::Edit)
    } else if same_text(token, "delete") {
        Some(Directive::Delete)
    } else if same_text(token, "reconcile_add") {
        Some(Directive::ReconcileAdd)
    } else if same_text(token, "reconcile_edit") {
        Some(Directive::ReconcileEdit)
    } else if same_text(token, "status") {
        Some(Directive::Status)
    } else {
        None
    }
}

/// The queries that rendering may ask the caller to make.
#[derive(Clone, Copy, Debug, PartialEq, Eq, Structural)]
pub enum Query {
    /// The list of opened files.
    OpenCounts,
    /// The status query, which also finds files to reconcile.
    StatusCounts,
}

/// What is known of a query's answer.
#[derive(Debug, PartialEq, Eq, Structural)]
pub enum Lookup<T> {
    /// The query has not been made.
    Pending,
    /// The query was made and failed.
    Failed,
    /// The query was made and gave this.
    Ready(T),
}

impl<T: Copy> Clone for Lookup<T> {
    fn clone(&self) -> (copy: Lookup<T>)
        ensures
            copy == *self,
    {
        *self
    }
}

impl<T: Copy> Copy for Lookup<T> {

}

/// What a query's reply leaves in the state.
pub open spec fn lookup_of<T>(reply: Result<T, QueryError>) -> Lookup<T> {
    match reply {
        Ok(counts) => Lookup::Ready(counts),
        Err(_) => Lookup::Failed,
    }
}

/// What one rendering works from: who the client is, whether a session is
/// open, and the answers to the queries made so far.
#[derive(Debug)]
pub struct FormatState {
    client: String,
    logged_in: bool,
    working_path: Option<String>,
    open_counts: Lookup<OpenCounts>,
    status_counts: Lookup<StatusCounts>,
}

/// A `FormatState` as plain values.
pub struct FormatStateView {
    pub client: Seq<char>,
    pub logged_in: bool,
    pub working_path: Option<Seq<char>>,
    pub open_counts: Lookup<OpenCounts>,
    pub status_counts: Lookup<StatusCounts>,
}

impl FormatStateView {
    /// The state after the list of opened files was answered. Only the first
    /// answer counts.
    pub open spec fn with_open_counts(self, reply: Result<OpenCounts, QueryError>) -> Self {
        if self.open_counts is Pending {
            FormatStateView {
                client: self.client,
                logged_in: self.logged_in,
                working_path: self.working_path,
                open_counts: lookup_of(reply),
                status_counts: self.status_counts,
            }
        } else {
            self
        }
    }

    /// The state after the status query was answered. Only the first answer
    /// counts. Where the list of opened files is still pending, counts that
    /// came back answer it too.
    pub open spec fn with_status_counts(self, reply: Result<StatusCounts, QueryError>) -> Self {
        if self.status_counts is Pending {
            FormatStateView {
                client: self.client,
                logged_in: self.logged_in,
                working_path: self.working_path,
                open_counts: match reply {
                    Ok(counts) if self.open_counts is Pending => Lookup::Ready(counts.opened()),
                    _ => self.open_counts,
                },
                status_counts: lookup_of(reply),
            }
        } else {
            self
        }
    }

    /// Whether the answer to a query is still pending.
    pub open spec fn is_pending(self, query: Query) -> bool {
        match query {
            Query::OpenCounts => self.open_counts is Pending,
            Query::StatusCounts => self.status_counts is Pending,
        }
    }
}

impl View for FormatState {
    type V = FormatStateView;

    closed spec fn view(&self) -> FormatStateView {
        FormatStateView {
            client: self.client@,
            logged_in: self.logged_in,
            working_path: match self.working_path {
                Some(path) => Some(path@),
                None => None,
            },
            open_counts: self.open_counts,
            status_counts: self.status_counts,
        }
    }
}

impl FormatState {
    /// The state at the start of a rendering: no query made yet.
    pub fn new(client: String, logged_in: bool, working_path: Option<String>) -> (state:
        FormatState)
        ensures
            state@ == (FormatStateView {
                client: client@,
                logged_in,
                working_path: match working_path {
                    Some(path) => Some(path@),
                    None => None,
                },
                open_counts: Lookup::Pending,
                status_counts: Lookup::Pending,
            }),
    {
        FormatState {
            client,
            logged_in,
            working_path,
            open_counts: Lookup::Pending,
            status_counts: Lookup::Pending,
        }
    }

    /// The client the line is rendered for.
    pub fn client(&self) -> (client: &String)
        ensures
            client@ == self@.client,
    {
        &self.client
    }

    /// Whether a session is open.
    pub fn logged_in(&self) -> (logged_in: bool)
        ensures
            logged_in == self@.logged_in,
    {
        self.logged_in
    }

    /// The directory the queries are made for, where one was given.
    pub fn working_path(&self) -> (path: Option<&String>)
        ensures
            path_text(path) == self@.working_path,
    {
        self.working_path.as_ref()
    }

    /// What is known of the list of opened files.
    pub fn open_counts(&self) -> (lookup: Lookup<OpenCounts>)
        ensures
            lookup == self@.open_counts,
    {
        self.open_counts
    }

    /// What is known of the status query.
    pub fn status_counts(&self) -> (lookup: Lookup<StatusCounts>)
        ensures
            lookup == self@.status_counts,
    {
        self.status_counts
    }

    /// Records the reply to the query for the list of opened files. A reply
    /// that comes after the first changes nothing.
    pub fn record_open_counts(&mut self, reply: Result<OpenCounts, QueryError>)
        ensures
            final(self)@ == old(self)@.with_open_counts(reply),
    {
        if let Lookup::Pending = self.open_counts {
            self.open_counts = match reply {
                Ok(counts) => Lookup::Ready(counts),
                Err(_) => Lookup::Failed,
            };
        }
    }

    /// Records the reply to the status query. A reply that comes after the
    /// first changes nothing. Counts that come back also answer the query
    /// for the list of opened files where that is still pending, so that it
    /// need not be made.
    pub fn record_status_counts(&mut self, reply: Result<StatusCounts, QueryError>)
        ensures
            final(self)@ == old(self)@.with_status_counts(reply),
    {
        if let Lookup::Pending = self.status_counts {
            match reply {
                Ok(counts) => {
                    if let Lookup::Pending = self.open_counts {
                        self.open_counts = Lookup::Ready(counts.open_counts());
                    }
                    self.status_counts = Lookup::Ready(counts);
                },
                Err(_) => {
                    self.status_counts = Lookup::Failed;
                },
            }
        }
    }

    /// The arguments to run the tool with for a query that rendering waits
    /// for.
    pub fn query_arguments(&self, query: Query, config: &Config) -> (arguments: Vec<String>)
        ensures
            arguments.deep_view() == query_command(query, self@, config@),
    {
        match query {
            Query::OpenCounts => opened_arguments(self.working_path.as_ref()),
            Query::StatusCounts => status_arguments(
                &config.perforce.status_flags,
                self.working_path.as_ref(),
            ),
        }
    }

    /// Records how the run of the tool for a query went: how it ended, and
    /// its output lines, each decoded into a record or `None` where it is no
    /// record. The reply that the run amounts to is recorded as
    /// `record_open_counts` or `record_status_counts` would.
    pub fn record_run(&mut self, query: Query, exit: Exit, lines: &Vec<Option<StatusEntry>>)
        ensures
            final(self)@ == answered(
                old(self)@,
                query,
                open_reply(exit, line_views(lines@)),
                status_reply(exit, line_views(lines@)),
            ),
    {
        match query {
            Query::OpenCounts => self.record_open_counts(get_open_counts(exit, lines)),
            Query::StatusCounts => self.record_status_counts(get_status_counts(exit, lines)),
        }
    }
}

/// The arguments of the run that answers a query: its own command, for the
/// directory of the state where it has one, and for the status query with
/// the configured flags.
pub open spec fn query_command(query: Query, state: FormatStateView, config: ConfigView) -> Seq<
    Seq<char>,
> {
    match query {
        Query::OpenCounts => opened_command(state.working_path),
        Query::StatusCounts => status_command(config.perforce.status_flags, state.working_path),
    }
}

/// The query a directive waits for: the first one whose answer it needs
/// and that has not been made. Nothing is needed while logged out.
pub open spec fn awaited_by(directive: Directive, state: FormatStateView) -> Option<Query> {
    match directive {
        Directive::Client | Directive::Login => None,
        Directive::Add | Directive::Edit | Directive::Delete => if state.logged_in
            && state.open_counts is Pending {
            Some(Query::OpenCounts)
        } else {
            None
        },
        Directive::ReconcileAdd | Directive::ReconcileEdit => if state.logged_in
            && state.status_counts is Pending {
            Some(Query::StatusCounts)
        } else {
            None
        },
        Directive::Status => if !state.logged_in {
            None
        } else if state.open_counts is Pending {
            Some(Query::OpenCounts)
        } else if state.status_counts is Pending {
            Some(Query::StatusCounts)
        } else {
            None
        },
    }
}

/// The count a counting directive shows: the one it is named after, from
/// the answer it draws on. It is zero while logged out, and where the answer
/// is pending or the query failed.
pub open spec fn shown_count(directive: Directive, state: FormatStateView) -> nat {
    if !state.logged_in {
        0
    } else {
        match (directive, state.open_counts, state.status_counts) {
            (Directive::Add, Lookup::Ready(counts), _) => counts.add as nat,
            (Directive::Edit, Lookup::Ready(counts), _) => counts.edit as nat,
            (Directive::Delete, Lookup::Ready(counts), _) => counts.delete as nat,
            (Directive::ReconcileAdd, _, Lookup::Ready(counts)) => counts.add_reconcile as nat,
            (Directive::ReconcileEdit, _, Lookup::Ready(counts)) => counts.edit_reconcile as nat,
            _ => 0,
        }
    }
}

/// The style of a counting directive's badge.
pub open spec fn badge_style(directive: Directive, config: ConfigView) -> Seq<char> {
    match directive {
        Directive::Add => config.tmux.styles.add,
        Directive::Edit => config.tmux.styles.edit,
        Directive::Delete => config.tmux.styles.delete,
        Directive::ReconcileAdd => config.tmux.styles.reconcile_add,
        Directive::ReconcileEdit => config.tmux.styles.reconcile_edit,
        _ => Seq::empty(),
    }
}

/// The icon of a counting directive's badge. Reconciling shares the icons of
/// the opened files.
pub open spec fn badge_icon(directive: Directive, config: ConfigView) -> Seq<char> {
    match directive {
        Directive::Add | Directive::ReconcileAdd => config.tmux.icons.add,
        Directive::Edit | Directive::ReconcileEdit => config.tmux.icons.edit,
        Directive::Delete => config.tmux.icons.delete,
        _ => Seq::empty(),
    }
}

/// The badge of a count: style, numeral and icon, and nothing at all for
/// zero.
pub open spec fn badge(style: Seq<char>, count: nat, icon: Seq<char>) -> Seq<Seq<char>> {
    if count > 0 {
        seq![style, decimal(count), icon]
    } else {
        Seq::empty()
    }
}

/// The badge of a counting directive; no fragments for any other.
pub open spec fn count_fragments(
    directive: Directive,
    state: FormatStateView,
    config: ConfigView,
) -> Seq<Seq<char>> {
    badge(badge_style(directive, config), shown_count(directive, state), badge_icon(directive, config))
}

/// The badges of the `status` directive: those of the opened adds, edits and
/// deletes and of the adds and edits to reconcile, in this order, each as
/// one text, without those that are empty.
pub open spec fn status_badges(state: FormatStateView, config: ConfigView) -> Seq<Seq<char>> {
    seq![
        count_fragments(Directive::Add, state, config).flatten(),
        count_fragments(Directive::Edit, state, config).flatten(),
        count_fragments(Directive::Delete, state, config).flatten(),
        count_fragments(Directive::ReconcileAdd, state, config).flatten(),
        count_fragments(Directive::ReconcileEdit, state, config).flatten(),
    ].filter(|text: Seq<char>| text.len() > 0)
}

/// The fragments a directive emits once nothing it needs is pending.
pub open spec fn fragments_of(directive: Directive, state: FormatStateView, config: ConfigView) -> Seq<
    Seq<char>,
> {
    match directive {
        Directive::Client => seq![config.tmux.styles.client, state.client],
        Directive::Login => if state.logged_in {
            seq![config.tmux.styles.login, config.tmux.icons.login]
        } else {
            seq![config.tmux.styles.logout, config.tmux.icons.logout]
        },
        Directive::Status => seq![joined(status_badges(state, config), config.tmux.status_separator)],
        _ => count_fragments(directive, state, config),
    }
}

/// What a directive adds to the output: nothing while it waits for a query,
/// and its fragments else.
pub open spec fn emitted(directive: Directive, state: FormatStateView, config: ConfigView) -> Seq<
    Seq<char>,
> {
    if awaited_by(directive, state) is Some {
        Seq::empty()
    } else {
        fragments_of(directive, state, config)
    }
}

fn push_fragment(output: &mut Vec<String>, fragment: String)
    ensures
        final(output).deep_view() == old(output).deep_view().push(fragment@),
{
    output.push(fragment);
}

fn push_badge(output: &mut Vec<String>, style: &String, count: u64, icon: &String)
    ensures
        final(output).deep_view() == old(output).deep_view() + badge(style@, count as nat, icon@),
{
    if count > 0 {
        push_fragment(output, style.clone());
        push_fragment(output, decimal_string(count));
        push_fragment(output, icon.clone());
    }
}

/// Says whether the list of opened files has to be queried before a
/// directive that shows its counts can render.
pub fn check_get_open_counts(state: &FormatState) -> (awaited: Option<Query>)
    ensures
        awaited == awaited_by(Directive::Add, state@),
{
    match state.open_counts {
        Lookup::Pending => if state.logged_in {
            Some(Query::OpenCounts)
        } else {
            None
        },
        _ => None,
    }
}

/// Says whether the status query has to be made before a directive that
/// shows its counts can render.
pub fn check_get_status_counts(state: &FormatState) -> (awaited: Option<Query>)
    ensures
        awaited == awaited_by(Directive::ReconcileAdd, state@),
{
    match state.status_counts {
        Lookup::Pending => if state.logged_in {
            Some(Query::StatusCounts)
        } else {
            None
        },
        _ => None,
    }
}

/// The counts of opened files to show: zeros while logged out and where
/// they are not known.
fn shown_open_counts(state: &FormatState) -> (counts: OpenCounts)
    ensures
        counts.add == shown_count(Directive::Add, state@),
        counts.edit == shown_count(Directive::Edit, state@),
        counts.delete == shown_count(Directive::Delete, state@),
{
    match state.open_counts {
        Lookup::Ready(counts) if state.logged_in => counts,
        _ => OpenCounts::default(),
    }
}

/// The counts of the status query to show: zeros while logged out and where
/// they are not known.
fn shown_status_counts(state: &FormatState) -> (counts: StatusCounts)
    ensures
        counts.add_reconcile == shown_count(Directive::ReconcileAdd, state@),
        counts.edit_reconcile == shown_count(Directive::ReconcileEdit, state@),
{
    match state.status_counts {
        Lookup::Ready(counts) if state.logged_in => counts,
        _ => StatusCounts::default(),
    }
}

/// `client`: the client's style and its name, always.
pub fn client_handler(state: &FormatState, config: &Config, output: &mut Vec<String>)
    ensures
        final(output).deep_view() == old(output).deep_view() + fragments_of(
            Directive::Client,
            state@,
            config@,
        ),
{
    push_fragment(output, config.tmux.styles.client.clone());
    push_fragment(output, state.client.clone());
}

/// `login`: the style and icon of an open session, or those of a missing
/// one; always one of the two.
pub fn login_handler(state: &FormatState, config: &Config, output: &mut Vec<String>)
    ensures
        final(output).deep_view() == old(output).deep_view() + fragments_of(
            Directive::Login,
            state@,
            config@,
        ),
{
    if state.logged_in {
        push_fragment(output, config.tmux.styles.login.clone());
        push_fragment(output, config.tmux.icons.login.clone());
    } else {
        push_fragment(output, config.tmux.styles.logout.clone());
        push_fragment(output, config.tmux.icons.logout.clone());
    }
}

/// `add`: the badge of the files opened for add. It waits for the list of
/// opened files while logged in, and shows nothing for a count of zero.
pub fn open_add_handler(state: &FormatState, config: &Config, output: &mut Vec<String>) -> (awaited:
    Option<Query>)
    ensures
        awaited == awaited_by(Directive::Add, state@),
        final(output).deep_view() == old(output).deep_view() + emitted(
            Directive::Add,
            state@,
            config@,
        ),
{
    let awaited = check_get_open_counts(state);
    if awaited.is_none() {
        let added: u64 = shown_open_counts(state).add;
        push_badge(output, &config.tmux.styles.add, added, &config.tmux.icons.add);
    }
    awaited
}

/// `edit`: the badge of the files opened for edit, under the rules of
/// `add`.
pub fn open_edit_handler(state: &FormatState, config: &Config, output: &mut Vec<String>) -> (awaited:
    Option<Query>)
    ensures
        awaited == awaited_by(Directive::Edit, state@),
        final(output).deep_view() == old(output).deep_view() + emitted(
            Directive::Edit,
            state@,
            config@,
        ),
{
    let awaited = check_get_open_counts(state);
    if awaited.is_none() {
        let edited: u64 = shown_open_counts(state).edit;
        push_badge(output, &config.tmux.styles.edit, edited, &config.tmux.icons.edit);
    }
    awaited
}

/// `delete`: the badge of the files opened for delete, under the rules of
/// `add`.
pub fn open_delete_handler(state: &FormatState, config: &Config, output: &mut Vec<String>) -> (awaited:
    Option<Query>)
    ensures
        awaited == awaited_by(Directive::Delete, state@),
        final(output).deep_view() == old(output).deep_view() + emitted(
            Directive::Delete,
            state@,
            config@,
        ),
{
    let awaited = check_get_open_counts(state);
    if awaited.is_none() {
        let deleted: u64 = shown_open_counts(state).delete;
        push_badge(output, &config.tmux.styles.delete, deleted, &config.tmux.icons.delete);
    }
    awaited
}

/// `reconcile_add`: the badge of the files to reconcile as adds. It waits
/// for the status query while logged in, and shows nothing for a count of
/// zero.
pub fn reconcile_add_handler(state: &FormatState, config: &Config, output: &mut Vec<String>) -> (awaited:
    Option<Query>)
    ensures
        awaited == awaited_by(Directive::ReconcileAdd, state@),
        final(output).deep_view() == old(output).deep_view() + emitted(
            Directive::ReconcileAdd,
            state@,
            config@,
        ),
{
    let awaited = check_get_status_counts(state);
    if awaited.is_none() {
        let added: u64 = shown_status_counts(state).add_reconcile;
        push_badge(output, &config.tmux.styles.reconcile_add, added, &config.tmux.icons.add);
    }
    awaited
}

/// `reconcile_edit`: the badge of the files to reconcile as edits, under the
/// rules of `reconcile_add`.
pub fn reconcile_edit_handler(state: &FormatState, config: &Config, output: &mut Vec<String>) -> (awaited:
    Option<Query>)
    ensures
        awaited == awaited_by(Directive::ReconcileEdit, state@),
        final(output).deep_view() == old(output).deep_view() + emitted(
            Directive::ReconcileEdit,
            state@,
            config@,
        ),
{
    let awaited = check_get_status_counts(state);
    if awaited.is_none() {
        let edited: u64 = shown_status_counts(state).edit_reconcile;
        push_badge(output, &config.tmux.styles.reconcile_edit, edited, &config.tmux.icons.edit);
    }
    awaited
}

/// Filtering a sequence with one more item keeps the item where it passes
/// and drops it where it does not.
proof fn lemma_filter_push<A>(items: Seq<A>, item: A, keep: spec_fn(A) -> bool)
    ensures
        items.push(item).filter(keep) == if keep(item) {
            items.filter(keep).push(item)
        } else {
            items.filter(keep)
        },
{
    reveal(Seq::filter);
    assert(items.push(item).drop_last() =~= items);
}

/// Adds the fragments of one badge to the badges as one text, unless there
/// are none.
fn keep_badge(badges: &mut Vec<String>, part: &Vec<String>)
    ensures
        final(badges).deep_view() == if part.deep_view().flatten().len() > 0 {
            old(badges).deep_view().push(part.deep_view().flatten())
        } else {
            old(badges).deep_view()
        },
{
    let text = flatten(part);
    if !text.as_str().is_empty() {
        push_fragment(badges, text);
    }
}

/// `status`: the badges of `add`, `edit`, `delete`, `reconcile_add` and
/// `reconcile_edit`, in this order, as one fragment: the badges that are not
/// empty, with the configured separator between each two. It waits for what
/// the first of the five waits for.
pub fn status_handler(state: &FormatState, config: &Config, output: &mut Vec<String>) -> (awaited:
    Option<Query>)
    ensures
        awaited == awaited_by(Directive::Status, state@),
        final(output).deep_view() == old(output).deep_view() + emitted(
            Directive::Status,
            state@,
            config@,
        ),
{
    let ghost adds = count_fragments(Directive::Add, state@, config@).flatten();
    let ghost edits = count_fragments(Directive::Edit, state@, config@).flatten();
    let ghost deletes = count_fragments(Directive::Delete, state@, config@).flatten();
    let ghost more_adds = count_fragments(Directive::ReconcileAdd, state@, config@).flatten();
    let ghost more_edits = count_fragments(Directive::ReconcileEdit, state@, config@).flatten();
    let ghost keep = |text: Seq<char>| text.len() > 0;
    let ghost none = Seq::<Seq<char>>::empty();
    let mut badges: Vec<String> = Vec::new();
    proof {
        reveal(Seq::filter);
    }

    let mut part: Vec<String> = Vec::new();
    if let Some(query) = open_add_handler(state, config, &mut part) {
        return Some(query);
    }
    keep_badge(&mut badges, &part);
    proof {
        lemma_filter_push(none, adds, keep);
    }

    let mut part: Vec<String> = Vec::new();
    if let Some(query) = open_edit_handler(state, config, &mut part) {
        return Some(query);
    }
    keep_badge(&mut badges, &part);
    proof {
        lemma_filter_push(seq![adds], edits, keep);
    }

    let mut part: Vec<String> = Vec::new();
    if let Some(query) = open_delete_handler(state, config, &mut part) {
        return Some(query);
    }
    keep_badge(&mut badges, &part);
    proof {
        lemma_filter_push(seq![adds, edits], deletes, keep);
    }

    let mut part: Vec<String> = Vec::new();
    if let Some(query) = reconcile_add_handler(state, config, &mut part) {
        return Some(query);
    }
    keep_badge(&mut badges, &part);
    proof {
        lemma_filter_push(seq![adds, edits, deletes], more_adds, keep);
    }

    let mut part: Vec<String> = Vec::new();
    if let Some(query) = reconcile_edit_handler(state, config, &mut part) {
        return Some(query);
    }
    keep_badge(&mut badges, &part);
    proof {
        lemma_filter_push(seq![adds, edits, deletes, more_adds], more_edits, keep);
        assert(seq![adds].push(edits) =~= seq![adds, edits]);
        assert(seq![adds, edits].push(deletes) =~= seq![adds, edits, deletes]);
        assert(seq![adds, edits, deletes].push(more_adds) =~= seq![adds, edits, deletes, more_adds]);
        assert(seq![adds, edits, deletes, more_adds].push(more_edits) =~= seq![
            adds,
            edits,
            deletes,
            more_adds,
            more_edits,
        ]);
        assert(badges.deep_view() == status_badges(state@, config@));
    }

    push_fragment(output, join(&badges, config.tmux.status_separator.as_str()));
    None
}

/// Hands a directive to its handler.
pub fn dispatch(
    directive: Directive,
    state: &FormatState,
    config: &Config,
    output: &mut Vec<String>,
) -> (awaited: Option<Query>)
    ensures
        awaited == awaited_by(directive, state@),
        final(output).deep_view() == old(output).deep_view() + emitted(directive, state@, config@),
{
    match directive {
        Directive::Client => {
            client_handler(state, config, output);
            None
        },
        Directive::Login => {
            login_handler(state, config, output);
            None
        },
        Directive::Add => open_add_handler(state, config, output),
        Directive::Edit => open_edit_handler(state, config, output),
        Directive::Delete => open_delete_handler(state, config, output),
        Directive::ReconcileAdd => reconcile_add_handler(state, config, output),
        Directive::ReconcileEdit => reconcile_edit_handler(state, config, output),
        Directive::Status => status_handler(state, config, output),
    }
}

/// The query a token waits for: that of its directive, and none for
/// literal text.
pub open spec fn token_awaits(token: Seq<char>, state: FormatStateView) -> Option<Query> {
    match directive_of(token) {
        Some(directive) => awaited_by(directive, state),
        None => None,
    }
}

/// The fragments of a token: those of its directive, and the token itself
/// where it names none.
pub open spec fn token_fragments(token: Seq<char>, state: FormatStateView, config: ConfigView) -> Seq<
    Seq<char>,
> {
    match directive_of(token) {
        Some(directive) => fragments_of(directive, state, config),
        None => seq![token],
    }
}

/// The first query, in the order of the tokens, that a token waits for.
pub open spec fn first_awaited(tokens: Seq<Seq<char>>, state: FormatStateView) -> Option<Query>
    decreases tokens.len(),
{
    if tokens.len() == 0 {
        None
    } else if first_awaited(tokens.drop_last(), state) is Some {
        first_awaited(tokens.drop_last(), state)
    } else {
        token_awaits(tokens.last(), state)
    }
}

/// The fragments of the whole line: the clear style, then for each token in
/// order its fragments and the clear style again.
pub open spec fn line_fragments(
    tokens: Seq<Seq<char>>,
    state: FormatStateView,
    config: ConfigView,
) -> Seq<Seq<char>>
    decreases tokens.len(),
{
    if tokens.len() == 0 {
        seq![config.tmux.styles.clear]
    } else {
        line_fragments(tokens.drop_last(), state, config) + token_fragments(
            tokens.last(),
            state,
            config,
        ) + seq![config.tmux.styles.clear]
    }
}

/// Where rendering stands.
#[derive(Debug)]
pub enum Rendering {
    /// The line is rendered: this is its text.
    Complete(String),
    /// The line needs the answer to this query first.
    Awaiting(Query),
}

/// A `Rendering` as plain values.
pub enum RenderingView {
    Complete(Seq<char>),
    Awaiting(Query),
}

impl View for Rendering {
    type V = RenderingView;

    open spec fn view(&self) -> RenderingView {
        match self {
            Rendering::Complete(text) => RenderingView::Complete(text@),
            Rendering::Awaiting(query) => RenderingView::Awaiting(*query),
        }
    }
}

/// Where the rendering of the configured tokens stands in a state: it waits
/// for the first query that a token waits for, and is else the line's
/// fragments as one text.
pub open spec fn rendering(state: FormatStateView, config: ConfigView) -> RenderingView {
    match first_awaited(config.tmux.format, state) {
        Some(query) => RenderingView::Awaiting(query),
        None => RenderingView::Complete(
            line_fragments(config.tmux.format, state, config).flatten(),
        ),
    }
}

/// A query that some leading tokens wait for is what the whole list waits
/// for.
proof fn lemma_first_awaited_prefix(tokens: Seq<Seq<char>>, state: FormatStateView, count: int)
    requires
        0 <= count <= tokens.len(),
        first_awaited(tokens.take(count), state) is Some,
    ensures
        first_awaited(tokens, state) == first_awaited(tokens.take(count), state),
    decreases tokens.len() - count,
{
    if count < tokens.len() {
        assert(tokens.take(count + 1).drop_last() =~= tokens.take(count));
        lemma_first_awaited_prefix(tokens, state, count + 1);
    } else {
        assert(tokens.take(count) =~= tokens);
    }
}

/// The fragments of the line, in order, or the query to make before the
/// line can be rendered.
///
/// The tokens are taken in order. The first one that waits for a query ends
/// the attempt with that query. Where none waits, the fragments are those of
/// `line_fragments`.
pub fn format_fragments(state: &FormatState, config: &Config) -> (result: Result<Vec<String>, Query>)
    ensures
        match result {
            Ok(fragments) => {
                &&& first_awaited(config@.tmux.format, state@) is None
                &&& fragments.deep_view() == line_fragments(config@.tmux.format, state@, config@)
            },
            Err(query) => first_awaited(config@.tmux.format, state@) == Some(query),
        },
{
    let ghost tokens = config@.tmux.format;
    let mut output: Vec<String> = Vec::new();
    push_fragment(&mut output, config.tmux.styles.clear.clone());
    let mut i: usize = 0;
    while i < config.tmux.format.len()
        invariant
            i <= config.tmux.format.len(),
            tokens == config@.tmux.format,
            first_awaited(tokens.take(i as int), state@) is None,
            output.deep_view() == line_fragments(tokens.take(i as int), state@, config@),
        decreases config.tmux.format.len() - i,
    {
        let token = &config.tmux.format[i];
        assert(tokens.take(i + 1).drop_last() =~= tokens.take(i as int));
        match parse_directive(token.as_str()) {
            Some(directive) => {
                if let Some(query) = dispatch(directive, state, config, &mut output) {
                    proof {
                        lemma_first_awaited_prefix(tokens, state@, i + 1);
                    }
                    return Err(query);
                }
            },
            None => {
                push_fragment(&mut output, token.clone());
            },
        }
        push_fragment(&mut output, config.tmux.styles.clear.clone());
        i += 1;
    }
    assert(tokens.take(i as int) =~= tokens);
    Ok(output)
}

/// Renders the status line as far as the state allows.
///
/// Where a token waits for a query, the result names the first such query
/// and nothing is rendered. Else the result is the line: the clear style,
/// then for each token its fragments and the clear style again, all as one
/// text.
pub fn format_output(state: &FormatState, config: &Config) -> (result: Rendering)
    ensures
        result@ == rendering(state@, config@),
{
    match format_fragments(state, config) {
        Ok(fragments) => Rendering::Complete(flatten(&fragments)),
        Err(query) => Rendering::Awaiting(query),
    }
}

/// A directive waits only while logged in, and only for a query whose
/// answer is pending.
pub proof fn lemma_awaited_is_pending(directive: Directive, state: FormatStateView)
    ensures
        awaited_by(directive, state) matches Some(query) ==> state.logged_in && state.is_pending(
            query,
        ),
{
}

/// The tokens wait only while logged in, and only for a query whose answer
/// is pending.
pub proof fn lemma_first_awaited_is_pending(tokens: Seq<Seq<char>>, state: FormatStateView)
    ensures
        first_awaited(tokens, state) matches Some(query) ==> state.logged_in && state.is_pending(
            query,
        ),
    decreases tokens.len(),
{
    if tokens.len() > 0 {
        lemma_first_awaited_is_pending(tokens.drop_last(), state);
    }
}

/// A recorded reply answers its query for good: the query is pending no
/// more, and no later reply to either query makes it pending again.
pub proof fn lemma_answers_stay(
    state: FormatStateView,
    open_reply: Result<OpenCounts, QueryError>,
    status_reply: Result<StatusCounts, QueryError>,
    query: Query,
)
    ensures
        !state.with_open_counts(open_reply).is_pending(Query::OpenCounts),
        !state.with_status_counts(status_reply).is_pending(Query::StatusCounts),
        !state.is_pending(query) ==> !state.with_open_counts(open_reply).is_pending(query),
        !state.is_pending(query) ==> !state.with_status_counts(status_reply).is_pending(query),
{
}

/// The state after the reply to a query was recorded.
pub open spec fn answered(
    state: FormatStateView,
    query: Query,
    open_reply: Result<OpenCounts, QueryError>,
    status_reply: Result<StatusCounts, QueryError>,
) -> FormatStateView {
    match query {
        Query::OpenCounts => state.with_open_counts(open_reply),
        Query::StatusCounts => state.with_status_counts(status_reply),
    }
}

/// How many of the two queries are pending.
pub open spec fn pending_count(state: FormatStateView) -> nat {
    (if state.open_counts is Pending {
        1nat
    } else {
        0nat
    }) + (if state.status_counts is Pending {
        1nat
    } else {
        0nat
    })
}

/// The queries that are made, in order, when the line is rendered from a
/// state: as long as rendering waits for a query, it is made, its reply is
/// recorded, and the line is rendered again.
pub open spec fn queries_made(
    state: FormatStateView,
    config: ConfigView,
    open_reply: Result<OpenCounts, QueryError>,
    status_reply: Result<StatusCounts, QueryError>,
) -> Seq<Query>
    decreases pending_count(state),
{
    match first_awaited(config.tmux.format, state) {
        Some(query) => {
            proof {
                lemma_first_awaited_is_pending(config.tmux.format, state);
            }
            seq![query] + queries_made(
                answered(state, query, open_reply, status_reply),
                config,
                open_reply,
                status_reply,
            )
        },
        None => Seq::empty(),
    }
}

/// The state in which the line is rendered at last, after every query in
/// `queries_made`.
pub open spec fn settled(
    state: FormatStateView,
    config: ConfigView,
    open_reply: Result<OpenCounts, QueryError>,
    status_reply: Result<StatusCounts, QueryError>,
) -> FormatStateView
    decreases pending_count(state),
{
    match first_awaited(config.tmux.format, state) {
        Some(query) => {
            proof {
                lemma_first_awaited_is_pending(config.tmux.format, state);
            }
            settled(
                answered(state, query, open_reply, status_reply),
                config,
                open_reply,
                status_reply,
            )
        },
        None => state,
    }
}

/// Whatever the tokens are and whatever the queries reply, rendering a line
/// makes each of the two queries at most once, none of them for an answer
/// the state had at the start, and then renders the line.
pub proof fn lemma_each_query_at_most_once(
    state: FormatStateView,
    config: ConfigView,
    open_reply: Result<OpenCounts, QueryError>,
    status_reply: Result<StatusCounts, QueryError>,
)
    ensures
        ({
            let made = queries_made(state, config, open_reply, status_reply);
            let last = settled(state, config, open_reply, status_reply);
            &&& made.len() <= pending_count(state)
            &&& made.no_duplicates()
            &&& forall|i: int| 0 <= i < made.len() ==> state.is_pending(#[trigger] made[i])
            &&& rendering(last, config) is Complete
        }),
    decreases pending_count(state),
{
    match first_awaited(config.tmux.format, state) {
        Some(query) => {
            // The query is pending now and answered in the next state, where
            // the rest of the queries are all pending and distinct.
            lemma_first_awaited_is_pending(config.tmux.format, state);
            lemma_each_query_at_most_once(
                answered(state, query, open_reply, status_reply),
                config,
                open_reply,
                status_reply,
            );
        },
        None => {},
    }
}

/// While logged out no directive but `client` and `login` shows anything,
/// whatever the counts are: a counting directive emits no fragment, `status`
/// emits the empty text, and none of them waits for a query.
pub proof fn lemma_logged_out_shows_no_counts(
    directive: Directive,
    state: FormatStateView,
    config: ConfigView,
)
    requires
        !state.logged_in,
        directive != Directive::Client,
        directive != Directive::Login,
    ensures
        awaited_by(directive, state) is None,
        fragments_of(directive, state, config) == if directive == Directive::Status {
            seq![Seq::<char>::empty()]
        } else {
            Seq::<Seq<char>>::empty()
        },
{
    if directive == Directive::Status {
        let keep = |text: Seq<char>| text.len() > 0;
        let nothing = Seq::<char>::empty();
        let none = Seq::<Seq<char>>::empty();
        let texts = seq![nothing, nothing, nothing, nothing, nothing];
        assert(texts.filter(keep) == none) by {
            reveal(Seq::filter);
            lemma_filter_push(none, nothing, keep);
            lemma_filter_push(none.push(nothing), nothing, keep);
            lemma_filter_push(none.push(nothing).push(nothing), nothing, keep);
            lemma_filter_push(none.push(nothing).push(nothing).push(nothing), nothing, keep);
            lemma_filter_push(
                none.push(nothing).push(nothing).push(nothing).push(nothing),
                nothing,
                keep,
            );
            assert(texts =~= none.push(nothing).push(nothing).push(nothing).push(nothing).push(
                nothing,
            ));
        }
    }
}

/// While logged out the line is rendered at once, and it is the same line
/// whatever is known of the counts.
pub proof fn lemma_logged_out_line_ignores_counts(
    state: FormatStateView,
    other: FormatStateView,
    config: ConfigView,
)
    requires
        !state.logged_in,
        !other.logged_in,
        state.client == other.client,
    ensures
        rendering(state, config) is Complete,
        rendering(state, config) == rendering(other, config),
{
    lemma_first_awaited_is_pending(config.tmux.format, state);
    lemma_first_awaited_is_pending(config.tmux.format, other);
    lemma_logged_out_fragments(config.tmux.format, state, other, config);
}

proof fn lemma_logged_out_fragments(
    tokens: Seq<Seq<char>>,
    state: FormatStateView,
    other: FormatStateView,
    config: ConfigView,
)
    requires
        !state.logged_in,
        !other.logged_in,
        state.client == other.client,
    ensures
        line_fragments(tokens, state, config) == line_fragments(tokens, other, config),
    decreases tokens.len(),
{
    if tokens.len() > 0 {
        lemma_logged_out_fragments(tokens.drop_last(), state, other, config);
        match directive_of(tokens.last()) {
            Some(Directive::Client) | Some(Directive::Login) | None => {},
            Some(directive) => {
                lemma_logged_out_shows_no_counts(directive, state, config);
                lemma_logged_out_shows_no_counts(directive, other, config);
            },
        }
    }
}

/// A badge is empty text for a count of zero and for no other count, so
/// `status` keeps the badges of exactly the counts that are not zero.
pub proof fn lemma_badge_empty_for_zero_only(style: Seq<char>, count: nat, icon: Seq<char>)
    ensures
        badge(style, count, icon).flatten() == if count > 0 {
            style + decimal(count) + icon
        } else {
            Seq::empty()
        },
        badge(style, count, icon).flatten().len() > 0 <==> count > 0,
{
    if count > 0 {
        lemma_decimal_not_empty(count);
        let fragments = seq![style, decimal(count), icon];
        assert(fragments.drop_last() =~= seq![style, decimal(count)]);
        assert(fragments.drop_last().drop_last() =~= seq![style]);
        fragments.lemma_flatten_and_flatten_alt_are_equivalent();
        assert(seq![style].flatten_alt() =~= style) by {
            assert(seq![style].drop_last() =~= Seq::<Seq<char>>::empty());
            assert(Seq::<Seq<char>>::empty().flatten_alt() =~= Seq::<char>::empty());
        }
        assert(seq![style, decimal(count)].flatten_alt() =~= style + decimal(count));
    }
}

/// The fragments of the first tokens of a list open the fragments of the
/// whole list.
pub proof fn lemma_line_fragments_prefix(
    tokens: Seq<Seq<char>>,
    state: FormatStateView,
    config: ConfigView,
    count: int,
)
    requires
        0 <= count <= tokens.len(),
    ensures
        line_fragments(tokens.take(count), state, config).is_prefix_of(
            line_fragments(tokens, state, config),
        ),
    decreases tokens.len() - count,
{
    if count < tokens.len() {
        assert(tokens.take(count + 1).drop_last() =~= tokens.take(count));
        lemma_line_fragments_prefix(tokens, state, config, count + 1);
    } else {
        assert(tokens.take(count) =~= tokens);
    }
}

/// A token that names no directive passes through unchanged, with the clear
/// style on both sides: wherever it stands in the list, the fragments up to
/// it end with the clear style, and it adds itself and the clear style,
/// nothing else. It waits for no query.
pub proof fn lemma_literal_token(
    tokens: Seq<Seq<char>>,
    state: FormatStateView,
    config: ConfigView,
    index: int,
)
    requires
        0 <= index < tokens.len(),
        directive_of(tokens[index]) is None,
    ensures
        token_awaits(tokens[index], state) is None,
        line_fragments(tokens.take(index), state, config).last() == config.tmux.styles.clear,
        line_fragments(tokens.take(index + 1), state, config) == line_fragments(
            tokens.take(index),
            state,
            config,
        ) + seq![tokens[index], config.tmux.styles.clear],
        line_fragments(tokens.take(index + 1), state, config).is_prefix_of(
            line_fragments(tokens, state, config),
        ),
{
    assert(tokens.take(index + 1).drop_last() =~= tokens.take(index));
    lemma_line_fragments_prefix(tokens, state, config, index + 1);
}

} // verus!
