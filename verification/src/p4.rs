//! The command-line tool's side of the status line: how each query is
//! invoked, how its output is framed into lines, and how decoded records are
//! counted.

use vstd::prelude::*;
use vstd::string::StrSliceExecFns;
use crate::text::{
    chars_of, lemma_run_before, lemma_run_before_found, lines_of, run_before, same_text,
    without_return,
};

verus! {

/// How a run of the command-line tool ended.
#[derive(Clone, Copy, Debug, PartialEq, Eq, Structural)]
pub enum Exit {
    /// The tool could not be started at all.
    NotStarted,
    /// The tool ran and reported failure.
    Failed,
    /// The tool ran and reported success.
    Succeeded,
}

/// Why a query gave no counts.
#[derive(Clone, Copy, Debug, PartialEq, Eq, Structural)]
pub enum QueryError {
    /// The tool could not be started.
    NotStarted,
    /// The tool exited with failure.
    ExitFailure,
    /// The output line with this index, counted from zero, is no record.
    MalformedLine(usize),
}

/// One record of the tool's output: the pending action on a file and the
/// changelist the file is opened in, each where the record has it.
#[derive(Debug)]
pub struct StatusEntry {
    pub action: Option<String>,
    pub change: Option<String>,
}

/// What a `StatusEntry` holds, as plain text.
pub struct StatusEntryView {
    pub action: Option<Seq<char>>,
    pub change: Option<Seq<char>>,
}

impl View for StatusEntry {
    type V = StatusEntryView;

    open spec fn view(&self) -> StatusEntryView {
        StatusEntryView {
            action: match self.action {
                Some(text) => Some(text@),
                None => None,
            },
            change: match self.change {
                Some(text) => Some(text@),
                None => None,
            },
        }
    }
}

/// The actions the tool reports that a status line counts.
#[derive(Clone, Copy, Debug, PartialEq, Eq, Structural)]
pub enum Action {
    Add,
    Edit,
    Delete,
    MoveAdd,
    MoveDelete,
}

/// The action an action string names, if it names one.
pub open spec fn action_of(name: Seq<char>) -> Option<Action> {
    if name == "add"@ {
        Some(Action::Add)
    } else if name == "edit"@ {
        Some(Action::Edit)
    } else if name == "delete"@ {
        Some(Action::Delete)
    } else if name == "move/add"@ {
        Some(Action::MoveAdd)
    } else if name == "move/delete"@ {
        Some(Action::MoveDelete)
    } else {
        None
    }
}

/// Reads an action string.
pub fn parse_action(name: &str) -> (action: Option<Action>)
    ensures
        action == action_of(name@),
{
    if same_text(name, "add") {
        Some(Action::Add)
    } else if same_text(name, "edit") {
        Some(Action::Edit)
    } else if same_text(name, "delete") {
        Some(Action::Delete)
    } else if same_text(name, "move/add") {
        Some(Action::MoveAdd)
    } else if same_text(name, "move/delete") {
        Some(Action::MoveDelete)
    } else {
        None
    }
}

/// The counters a status line draws on: five for files that are opened, two
/// for files that changed on disk and are not opened yet.
#[derive(Clone, Copy, Debug, PartialEq, Eq, Structural)]
pub enum Counter {
    Add,
    Edit,
    Delete,
    MoveAdd,
    MoveDelete,
    ReconcileAdd,
    ReconcileEdit,
}

/// The counter of opened files that an action feeds.
pub open spec fn open_counter(action: Action) -> Counter {
    match action {
        Action::Add => Counter::Add,
        Action::Edit => Counter::Edit,
        Action::Delete => Counter::Delete,
        Action::MoveAdd => Counter::MoveAdd,
        Action::MoveDelete => Counter::MoveDelete,
    }
}

/// The counter a record of the list of opened files feeds: the one of its
/// action, and none where the action is missing or unknown.
pub open spec fn opened_class(entry: StatusEntryView) -> Option<Counter> {
    match entry.action {
        Some(name) => match action_of(name) {
            Some(action) => Some(open_counter(action)),
            None => None,
        },
        None => None,
    }
}

/// The counter a record of a status query feeds. An add or an edit with a
/// changelist is opened; without one it awaits reconciling. Deletes and moves
/// are always opened. A missing or unknown action feeds no counter.
pub open spec fn status_class(entry: StatusEntryView) -> Option<Counter> {
    match entry.action {
        Some(name) => match action_of(name) {
            Some(Action::Add) => if entry.change is Some {
                Some(Counter::Add)
            } else {
                Some(Counter::ReconcileAdd)
            },
            Some(Action::Edit) => if entry.change is Some {
                Some(Counter::Edit)
            } else {
                Some(Counter::ReconcileEdit)
            },
            Some(action) => Some(open_counter(action)),
            None => None,
        },
        None => None,
    }
}

/// Classifies a record of the list of opened files.
pub fn classify_opened(entry: &StatusEntry) -> (class: Option<Counter>)
    ensures
        class == opened_class(entry@),
{
    match &entry.action {
        Some(name) => match parse_action(name.as_str()) {
            Some(Action::Add) => Some(Counter::Add),
            Some(Action::Edit) => Some(Counter::Edit),
            Some(Action::Delete) => Some(Counter::Delete),
            Some(Action::MoveAdd) => Some(Counter::MoveAdd),
            Some(Action::MoveDelete) => Some(Counter::MoveDelete),
            None => None,
        },
        None => None,
    }
}

/// Classifies a record of a status query.
pub fn classify_status(entry: &StatusEntry) -> (class: Option<Counter>)
    ensures
        class == status_class(entry@),
{
    match &entry.action {
        Some(name) => match parse_action(name.as_str()) {
            Some(Action::Add) => if entry.change.is_some() {
                Some(Counter::Add)
            } else {
                Some(Counter::ReconcileAdd)
            },
            Some(Action::Edit) => if entry.change.is_some() {
                Some(Counter::Edit)
            } else {
                Some(Counter::ReconcileEdit)
            },
            Some(Action::Delete) => Some(Counter::Delete),
            Some(Action::MoveAdd) => Some(Counter::MoveAdd),
            Some(Action::MoveDelete) => Some(Counter::MoveDelete),
            None => None,
        },
        None => None,
    }
}

/// How many files are opened for each kind of change.
#[derive(Clone, Copy, Debug, PartialEq, Eq, Structural)]
pub struct OpenCounts {
    pub add: u64,
    pub delete: u64,
    pub edit: u64,
    pub move_add: u64,
    pub move_del: u64,
}

/// The counts of a status query: the files that are opened, and the files
/// that changed on disk and await reconciling.
#[derive(Clone, Copy, Debug, PartialEq, Eq, Structural)]
pub struct StatusCounts {
    pub add: u64,
    pub delete: u64,
    pub edit: u64,
    pub move_add: u64,
    pub move_del: u64,
    pub add_reconcile: u64,
    pub edit_reconcile: u64,
}

impl OpenCounts {
    /// The value of one counter; the two reconcile counters are not kept
    /// here and read as zero.
    pub open spec fn value(self, counter: Counter) -> nat {
        match counter {
            Counter::Add => self.add as nat,
            Counter::Edit => self.edit as nat,
            Counter::Delete => self.delete as nat,
            Counter::MoveAdd => self.move_add as nat,
            Counter::MoveDelete => self.move_del as nat,
            Counter::ReconcileAdd => 0,
            Counter::ReconcileEdit => 0,
        }
    }

    /// All the counters added up.
    pub open spec fn total(self) -> nat {
        (self.add + self.edit + self.delete + self.move_add + self.move_del) as nat
    }
}

impl Default for OpenCounts {
    fn default() -> (counts: OpenCounts)
        ensures
            counts == (OpenCounts { add: 0, delete: 0, edit: 0, move_add: 0, move_del: 0 }),
    {
        OpenCounts { add: 0, delete: 0, edit: 0, move_add: 0, move_del: 0 }
    }
}

impl StatusCounts {
    /// The value of one counter.
    pub open spec fn value(self, counter: Counter) -> nat {
        match counter {
            Counter::Add => self.add as nat,
            Counter::Edit => self.edit as nat,
            Counter::Delete => self.delete as nat,
            Counter::MoveAdd => self.move_add as nat,
            Counter::MoveDelete => self.move_del as nat,
            Counter::ReconcileAdd => self.add_reconcile as nat,
            Counter::ReconcileEdit => self.edit_reconcile as nat,
        }
    }

    /// All the counters added up.
    pub open spec fn total(self) -> nat {
        (self.add + self.edit + self.delete + self.move_add + self.move_del + self.add_reconcile
            + self.edit_reconcile) as nat
    }

    /// The part of the counts that is about opened files.
    pub open spec fn opened(self) -> OpenCounts {
        OpenCounts {
            add: self.add,
            delete: self.delete,
            edit: self.edit,
            move_add: self.move_add,
            move_del: self.move_del,
        }
    }

    /// The part of the counts that is about opened files.
    pub fn open_counts(&self) -> (counts: OpenCounts)
        ensures
            counts == self.opened(),
    {
        OpenCounts {
            add: self.add,
            delete: self.delete,
            edit: self.edit,
            move_add: self.move_add,
            move_del: self.move_del,
        }
    }
}

impl Default for StatusCounts {
    fn default() -> (counts: StatusCounts)
        ensures
            counts == (StatusCounts {
                add: 0,
                delete: 0,
                edit: 0,
                move_add: 0,
                move_del: 0,
                add_reconcile: 0,
                edit_reconcile: 0,
            }),
    {
        StatusCounts {
            add: 0,
            delete: 0,
            edit: 0,
            move_add: 0,
            move_del: 0,
            add_reconcile: 0,
            edit_reconcile: 0,
        }
    }
}

/// How many of the classes are the given counter.
pub open spec fn hits(classes: Seq<Option<Counter>>, counter: Counter) -> nat
    decreases classes.len(),
{
    if classes.len() == 0 {
        0
    } else {
        hits(classes.drop_last(), counter) + if classes.last() == Some(counter) {
            1nat
        } else {
            0nat
        }
    }
}

/// How many of the classes are a counter at all.
pub open spec fn counted(classes: Seq<Option<Counter>>) -> nat
    decreases classes.len(),
{
    if classes.len() == 0 {
        0
    } else {
        counted(classes.drop_last()) + if classes.last() is Some {
            1nat
        } else {
            0nat
        }
    }
}

/// The decoded lines of a query's output as plain values: a record, or
/// `None` where the line is no record.
pub open spec fn line_views(lines: Seq<Option<StatusEntry>>) -> Seq<Option<StatusEntryView>> {
    lines.map_values(
        |line: Option<StatusEntry>|
            match line {
                Some(entry) => Some(entry@),
                None => None,
            },
    )
}

/// The counter each line of a list of opened files feeds.
pub open spec fn opened_classes(lines: Seq<Option<StatusEntryView>>) -> Seq<Option<Counter>> {
    lines.map_values(
        |line: Option<StatusEntryView>|
            match line {
                Some(entry) => opened_class(entry),
                None => None,
            },
    )
}

/// The counter each line of a status query feeds.
pub open spec fn status_classes(lines: Seq<Option<StatusEntryView>>) -> Seq<Option<Counter>> {
    lines.map_values(
        |line: Option<StatusEntryView>|
            match line {
                Some(entry) => status_class(entry),
                None => None,
            },
    )
}

/// Whether a record's action is one of the five that are counted.
pub open spec fn recognized(entry: StatusEntryView) -> bool {
    entry.action matches Some(name) && action_of(name) is Some
}

/// The lines of the tool's output, split at line feeds as `lines_of` says.
pub fn output_lines(stdout: &[u8]) -> (lines: Vec<Vec<u8>>)
    ensures
        lines.deep_view() == lines_of(stdout@, 10u8, 13u8),
{
    let mut lines: Vec<Vec<u8>> = Vec::new();
    let mut start: usize = 0;
    assert(stdout@.skip(0) =~= stdout@);
    while start < stdout.len()
        invariant
            start <= stdout.len(),
            lines_of(stdout@, 10u8, 13u8) == lines.deep_view() + lines_of(
                stdout@.skip(start as int),
                10u8,
                13u8,
            ),
        decreases stdout.len() - start,
    {
        let ghost rest = stdout@.skip(start as int);
        let mut end: usize = start;
        while end < stdout.len() && stdout[end] != 10u8
            invariant
                start <= end <= stdout.len(),
                forall|i: int| start <= i < end ==> stdout@[i] != 10u8,
            decreases stdout.len() - end,
        {
            end += 1;
        }
        let terminated = end < stdout.len();
        let stop: usize = if terminated && end > start && stdout[end - 1] == 13u8 {
            (end - 1) as usize
        } else {
            end
        };
        let mut line: Vec<u8> = Vec::new();
        let mut i: usize = start;
        while i < stop
            invariant
                start <= i <= stop <= stdout.len(),
                line@ == stdout@.subrange(start as int, i as int),
            decreases stop - i,
        {
            line.push(stdout[i]);
            i += 1;
        }
        proof {
            // The line feed found is the first one of what is left, so the
            // bytes before it are the next line.
            lemma_run_before_found(rest, 10u8, end - start);
            if terminated {
                assert(line@ =~= without_return(rest.take(end - start), 13u8));
                assert(rest.skip(end - start + 1) =~= stdout@.skip(end + 1));
            }
            assert(line.deep_view() =~= line@);
        }
        lines.push(line);
        start = if terminated {
            (end + 1) as usize
        } else {
            end
        };
    }
    lines
}

/// The counts that hold, for each of the seven counters, how many of the
/// classes are that counter.
pub open spec fn status_tally(classes: Seq<Option<Counter>>) -> StatusCounts {
    StatusCounts {
        add: hits(classes, Counter::Add) as u64,
        delete: hits(classes, Counter::Delete) as u64,
        edit: hits(classes, Counter::Edit) as u64,
        move_add: hits(classes, Counter::MoveAdd) as u64,
        move_del: hits(classes, Counter::MoveDelete) as u64,
        add_reconcile: hits(classes, Counter::ReconcileAdd) as u64,
        edit_reconcile: hits(classes, Counter::ReconcileEdit) as u64,
    }
}

/// What a status query replies: the error of a run that did not start or
/// did not succeed, whatever the lines hold; after a successful run the
/// index of the first line that is no record; and else the tally of the
/// classes of all the lines.
pub open spec fn status_reply(exit: Exit, lines: Seq<Option<StatusEntryView>>) -> Result<
    StatusCounts,
    QueryError,
> {
    match exit {
        Exit::NotStarted => Err(QueryError::NotStarted),
        Exit::Failed => Err(QueryError::ExitFailure),
        Exit::Succeeded => if run_before(lines, None) < lines.len() {
            Err(QueryError::MalformedLine(run_before(lines, None) as usize))
        } else {
            Ok(status_tally(status_classes(lines)))
        },
    }
}

/// What the query for the list of opened files replies: as `status_reply`,
/// but with the lines classified by their action alone, and without the two
/// counters that no such line feeds.
pub open spec fn open_reply(exit: Exit, lines: Seq<Option<StatusEntryView>>) -> Result<
    OpenCounts,
    QueryError,
> {
    match exit {
        Exit::NotStarted => Err(QueryError::NotStarted),
        Exit::Failed => Err(QueryError::ExitFailure),
        Exit::Succeeded => if run_before(lines, None) < lines.len() {
            Err(QueryError::MalformedLine(run_before(lines, None) as usize))
        } else {
            Ok(status_tally(opened_classes(lines)).opened())
        },
    }
}

/// The classes of the lines under one of the two ways to classify.
spec fn classes_of(lines: Seq<Option<StatusEntryView>>, reconcile: bool) -> Seq<Option<Counter>> {
    if reconcile {
        status_classes(lines)
    } else {
        opened_classes(lines)
    }
}

/// Each counter of `counts` holds how many of the classes are that counter.
spec fn tallied(counts: StatusCounts, classes: Seq<Option<Counter>>) -> bool {
    &&& counts.add == hits(classes, Counter::Add)
    &&& counts.edit == hits(classes, Counter::Edit)
    &&& counts.delete == hits(classes, Counter::Delete)
    &&& counts.move_add == hits(classes, Counter::MoveAdd)
    &&& counts.move_del == hits(classes, Counter::MoveDelete)
    &&& counts.add_reconcile == hits(classes, Counter::ReconcileAdd)
    &&& counts.edit_reconcile == hits(classes, Counter::ReconcileEdit)
}

/// One more class raises the hits of the counter it names by one and leaves
/// the hits of every other counter as they were.
proof fn lemma_hits_step(classes: Seq<Option<Counter>>, i: int)
    requires
        0 <= i < classes.len(),
    ensures
        forall|counter: Counter|
            hits(classes.take(i + 1), counter) == #[trigger] hits(classes.take(i), counter) + if classes[i]
                == Some(counter) {
                1nat
            } else {
                0nat
            },
{
    assert(classes.take(i + 1).drop_last() =~= classes.take(i));
}

/// No counter is hit more often than there are classes.
pub proof fn lemma_hits_bound(classes: Seq<Option<Counter>>)
    ensures
        forall|counter: Counter| #[trigger] hits(classes, counter) <= classes.len(),
    decreases classes.len(),
{
    if classes.len() > 0 {
        lemma_hits_bound(classes.drop_last());
        assert forall|counter: Counter| #[trigger] hits(classes, counter) <= classes.len() by {
            assert(hits(classes.drop_last(), counter) <= classes.len() - 1);
        }
    }
}

/// Counts the lines of a query's output, each under the counter its class
/// names, unless a line is no record: then the first such line's index comes
/// back.
fn count_lines(lines: &Vec<Option<StatusEntry>>, reconcile: bool) -> (reply: Result<
    StatusCounts,
    usize,
>)
    ensures
        match reply {
            Ok(counts) => {
                &&& run_before(line_views(lines@), None) == lines.len()
                &&& counts == status_tally(classes_of(line_views(lines@), reconcile))
            },
            Err(index) => {
                &&& index < lines.len()
                &&& index == run_before(line_views(lines@), None)
            },
        },
{
    let mut counts = StatusCounts::default();
    let ghost views = line_views(lines@);
    let ghost classes = classes_of(views, reconcile);
    let mut i: usize = 0;
    while i < lines.len()
        invariant
            i <= lines.len(),
            views == line_views(lines@),
            classes == classes_of(views, reconcile),
            forall|j: int| 0 <= j < i ==> views[j] is Some,
            tallied(counts, classes.take(i as int)),
        decreases lines.len() - i,
    {
        let class = match &lines[i] {
            Some(entry) => if reconcile {
                classify_status(entry)
            } else {
                classify_opened(entry)
            },
            None => {
                proof {
                    lemma_run_before_found(views, None, i as int);
                }
                return Err(i);
            },
        };
        proof {
            lemma_hits_step(classes, i as int);
            lemma_hits_bound(classes.take(i as int));
        }
        match class {
            Some(Counter::Add) => {
                counts.add += 1;
            },
            Some(Counter::Edit) => {
                counts.edit += 1;
            },
            Some(Counter::Delete) => {
                counts.delete += 1;
            },
            Some(Counter::MoveAdd) => {
                counts.move_add += 1;
            },
            Some(Counter::MoveDelete) => {
                counts.move_del += 1;
            },
            Some(Counter::ReconcileAdd) => {
                counts.add_reconcile += 1;
            },
            Some(Counter::ReconcileEdit) => {
                counts.edit_reconcile += 1;
            },
            None => {},
        }
        i += 1;
    }
    proof {
        assert(classes.take(i as int) =~= classes);
        lemma_run_before_found(views, None, i as int);
    }
    Ok(counts)
}

/// The counts of a status query, from how the tool's run ended and from its
/// output lines, each decoded into a record or `None` where it is no record.
///
/// A run that did not start or did not succeed gives its error whatever the
/// lines hold. After a successful run the first line that is no record fails
/// the query. Otherwise every line is counted under its `status_class`.
pub fn get_status_counts(exit: Exit, lines: &Vec<Option<StatusEntry>>) -> (reply: Result<
    StatusCounts,
    QueryError,
>)
    ensures
        reply == status_reply(exit, line_views(lines@)),
{
    match exit {
        Exit::NotStarted => Err(QueryError::NotStarted),
        Exit::Failed => Err(QueryError::ExitFailure),
        Exit::Succeeded => match count_lines(lines, true) {
            Ok(counts) => Ok(counts),
            Err(index) => Err(QueryError::MalformedLine(index)),
        },
    }
}

/// The counts of the list of opened files, from how the tool's run ended and
/// from its output lines, each decoded into a record or `None` where it is no
/// record.
///
/// Errors arise as in `get_status_counts`. Otherwise every line is counted
/// under its `opened_class`: whether a record names a changelist plays no
/// part here.
pub fn get_open_counts(exit: Exit, lines: &Vec<Option<StatusEntry>>) -> (reply: Result<
    OpenCounts,
    QueryError,
>)
    ensures
        reply == open_reply(exit, line_views(lines@)),
{
    match exit {
        Exit::NotStarted => Err(QueryError::NotStarted),
        Exit::Failed => Err(QueryError::ExitFailure),
        Exit::Succeeded => match count_lines(lines, false) {
            Ok(counts) => Ok(counts.open_counts()),
            Err(index) => Err(QueryError::MalformedLine(index)),
        },
    }
}

/// Whether the login check found a session: it did where the tool ran and
/// reported success, and in no other case.
pub fn is_logged_in(exit: Exit) -> (logged_in: bool)
    ensures
        logged_in == (exit == Exit::Succeeded),
{
    match exit {
        Exit::Succeeded => true,
        _ => false,
    }
}

/// A list of opened files feeds neither reconcile counter.
pub proof fn lemma_opened_never_reconciles(lines: Seq<Option<StatusEntryView>>)
    ensures
        hits(opened_classes(lines), Counter::ReconcileAdd) == 0,
        hits(opened_classes(lines), Counter::ReconcileEdit) == 0,
    decreases lines.len(),
{
    if lines.len() > 0 {
        lemma_opened_never_reconciles(lines.drop_last());
        assert(opened_classes(lines).drop_last() =~= opened_classes(lines.drop_last()));
    }
}

/// Whether a line is a record whose action is one of the five that are
/// counted.
pub open spec fn is_counted(line: Option<StatusEntryView>) -> bool {
    line matches Some(entry) && recognized(entry)
}

/// The hits of all seven counters add up to the number of classes that are a
/// counter.
pub proof fn lemma_hits_sum(classes: Seq<Option<Counter>>)
    ensures
        hits(classes, Counter::Add) + hits(classes, Counter::Edit) + hits(classes, Counter::Delete)
            + hits(classes, Counter::MoveAdd) + hits(classes, Counter::MoveDelete) + hits(
            classes,
            Counter::ReconcileAdd,
        ) + hits(classes, Counter::ReconcileEdit) == counted(classes),
    decreases classes.len(),
{
    if classes.len() > 0 {
        lemma_hits_sum(classes.drop_last());
        match classes.last() {
            Some(Counter::Add) => {},
            Some(Counter::Edit) => {},
            Some(Counter::Delete) => {},
            Some(Counter::MoveAdd) => {},
            Some(Counter::MoveDelete) => {},
            Some(Counter::ReconcileAdd) => {},
            Some(Counter::ReconcileEdit) => {},
            None => {},
        }
    }
}

/// A status query counts a line exactly where the line is a record with a
/// recognized action.
proof fn lemma_counted_status(lines: Seq<Option<StatusEntryView>>)
    ensures
        counted(status_classes(lines)) == lines.filter(
            |line: Option<StatusEntryView>| is_counted(line),
        ).len(),
    decreases lines.len(),
{
    reveal(Seq::filter);
    if lines.len() > 0 {
        lemma_counted_status(lines.drop_last());
        assert(status_classes(lines).drop_last() =~= status_classes(lines.drop_last()));
    }
}

/// The list of opened files counts a line exactly where the line is a record
/// with a recognized action.
proof fn lemma_counted_opened(lines: Seq<Option<StatusEntryView>>)
    ensures
        counted(opened_classes(lines)) == lines.filter(
            |line: Option<StatusEntryView>| is_counted(line),
        ).len(),
    decreases lines.len(),
{
    reveal(Seq::filter);
    if lines.len() > 0 {
        lemma_counted_opened(lines.drop_last());
        assert(opened_classes(lines).drop_last() =~= opened_classes(lines.drop_last()));
    }
}

/// A reply that is counts came from a successful run whose lines are all
/// records, and each of its counters holds the hits of that counter: the
/// number of lines that the counter's class names.
pub proof fn lemma_status_reply_counts(
    exit: Exit,
    lines: Seq<Option<StatusEntryView>>,
    counter: Counter,
)
    requires
        lines.len() <= usize::MAX,
    ensures
        status_reply(exit, lines) is Ok <==> exit == Exit::Succeeded && forall|i: int|
            0 <= i < lines.len() ==> lines[i] is Some,
        status_reply(exit, lines) matches Ok(counts) ==> counts.value(counter) == hits(
            status_classes(lines),
            counter,
        ),
        status_reply(exit, lines) matches Err(QueryError::MalformedLine(index)) ==> {
            &&& index < lines.len()
            &&& lines[index as int] is None
            &&& forall|i: int| 0 <= i < index ==> lines[i] is Some
        },
{
    lemma_run_before(lines, None);
    lemma_hits_bound(status_classes(lines));
}

/// As `lemma_status_reply_counts`, for the list of opened files: its five
/// counters hold the hits under `opened_class`.
pub proof fn lemma_open_reply_counts(
    exit: Exit,
    lines: Seq<Option<StatusEntryView>>,
    counter: Counter,
)
    requires
        lines.len() <= usize::MAX,
    ensures
        open_reply(exit, lines) is Ok <==> exit == Exit::Succeeded && forall|i: int|
            0 <= i < lines.len() ==> lines[i] is Some,
        open_reply(exit, lines) matches Ok(counts) ==> counts.value(counter) == hits(
            opened_classes(lines),
            counter,
        ),
        open_reply(exit, lines) matches Err(QueryError::MalformedLine(index)) ==> {
            &&& index < lines.len()
            &&& lines[index as int] is None
            &&& forall|i: int| 0 <= i < index ==> lines[i] is Some
        },
{
    lemma_run_before(lines, None);
    lemma_hits_bound(opened_classes(lines));
    lemma_opened_never_reconciles(lines);
}

/// The seven counters of a status query add up to the number of records
/// whose action is recognized: a record with another action, or with none,
/// is in no counter, and a recognized one is in exactly one. This holds of
/// every list of lines that memory can hold.
pub proof fn lemma_status_counts_total(exit: Exit, lines: Seq<Option<StatusEntryView>>)
    requires
        lines.len() <= usize::MAX,
    ensures
        status_reply(exit, lines) matches Ok(counts) ==> counts.total() == lines.filter(
            |line: Option<StatusEntryView>| is_counted(line),
        ).len(),
{
    let classes = status_classes(lines);
    lemma_hits_bound(classes);
    lemma_hits_sum(classes);
    lemma_counted_status(lines);
}

/// The five counters of the list of opened files add up to the number of
/// records whose action is recognized.
pub proof fn lemma_open_counts_total(exit: Exit, lines: Seq<Option<StatusEntryView>>)
    requires
        lines.len() <= usize::MAX,
    ensures
        open_reply(exit, lines) matches Ok(counts) ==> counts.total() == lines.filter(
            |line: Option<StatusEntryView>| is_counted(line),
        ).len(),
{
    let classes = opened_classes(lines);
    lemma_hits_bound(classes);
    lemma_hits_sum(classes);
    lemma_counted_opened(lines);
    lemma_opened_never_reconciles(lines);
}

/// One more record with the action `edit` raises exactly one counter of a
/// status query by one, whatever was counted before: the opened edits where
/// the record names a changelist, the edits to reconcile where it names none.
/// Every other counter keeps its value, and a query that failed fails as it
/// did. This holds of every list of lines that has room for one more.
pub proof fn lemma_edit_record(lines: Seq<Option<StatusEntryView>>, change: Option<Seq<char>>)
    requires
        lines.len() < usize::MAX,
    ensures
        ({
            let entry = StatusEntryView { action: Some("edit"@), change };
            let after = status_reply(Exit::Succeeded, lines.push(Some(entry)));
            match status_reply(Exit::Succeeded, lines) {
                Ok(before) => after == Ok::<StatusCounts, QueryError>(
                    if change is Some {
                        StatusCounts { edit: (before.edit + 1) as u64, ..before }
                    } else {
                        StatusCounts {
                            edit_reconcile: (before.edit_reconcile + 1) as u64,
                            ..before
                        }
                    },
                ),
                Err(error) => after == Err::<StatusCounts, QueryError>(error),
            }
        }),
{
    reveal_strlit("edit");
    reveal_strlit("add");
    assert("edit"@ != "add"@) by {
        assert("edit"@.len() == 4);
        assert("add"@.len() == 3);
    }
    let entry = StatusEntryView { action: Some("edit"@), change };
    let more = lines.push(Some(entry));
    assert(status_classes(more).drop_last() =~= status_classes(lines));
    lemma_hits_bound(status_classes(more));
    lemma_run_before(lines, None);
    let good: int = run_before(lines, None);
    if good < lines.len() {
        assert(more[good] is None);
        lemma_run_before_found(more, None, good);
    } else {
        lemma_run_before_found(more, None, more.len() as int);
    }
}

/// The text an optional path holds.
pub open spec fn path_text(path: Option<&String>) -> Option<Seq<char>> {
    match path {
        Some(text) => Some(text@),
        None => None,
    }
}

/// The arguments that point the tool at a directory, and none where no
/// directory is given.
pub open spec fn scope_arguments(path: Option<Seq<char>>) -> Seq<Seq<char>> {
    match path {
        Some(text) => seq!["-d"@, text],
        None => Seq::empty(),
    }
}

/// The arguments of the query for the list of opened files.
pub open spec fn opened_command(path: Option<Seq<char>>) -> Seq<Seq<char>> {
    scope_arguments(path) + seq!["-Mj"@, "-ztag"@, "opened"@]
}

/// The arguments of the status query.
pub open spec fn status_command(status_flags: Seq<char>, path: Option<Seq<char>>) -> Seq<
    Seq<char>,
> {
    scope_arguments(path) + seq!["-Mj"@, "-ztag"@, "status"@, status_flags]
}

/// The arguments of the login check.
pub open spec fn login_command(path: Option<Seq<char>>) -> Seq<Seq<char>> {
    scope_arguments(path) + seq!["login"@, "-s"@]
}

fn scoped(path: Option<&String>) -> (arguments: Vec<String>)
    ensures
        arguments.deep_view() == scope_arguments(path_text(path)),
{
    let mut arguments: Vec<String> = Vec::new();
    if let Some(text) = path {
        arguments.push("-d".to_string());
        arguments.push(text.clone());
    }
    arguments
}

/// The arguments to run the tool with for the list of opened files: records
/// as one JSON object a line, for the files under `path` where one is given.
pub fn opened_arguments(path: Option<&String>) -> (arguments: Vec<String>)
    ensures
        arguments.deep_view() == opened_command(path_text(path)),
{
    let mut arguments = scoped(path);
    arguments.push("-Mj".to_string());
    arguments.push("-ztag".to_string());
    arguments.push("opened".to_string());
    arguments
}

/// The arguments to run the tool with for a status query: records as one
/// JSON object a line, the configured flags as the query's one argument, for
/// the files under `path` where one is given.
pub fn status_arguments(status_flags: &String, path: Option<&String>) -> (arguments: Vec<String>)
    ensures
        arguments.deep_view() == status_command(status_flags@, path_text(path)),
{
    let mut arguments = scoped(path);
    arguments.push("-Mj".to_string());
    arguments.push("-ztag".to_string());
    arguments.push("status".to_string());
    arguments.push(status_flags.clone());
    arguments
}

/// The arguments to run the tool with for the login check, for the
/// workspace of `path` where one is given.
pub fn login_arguments(path: Option<&String>) -> (arguments: Vec<String>)
    ensures
        arguments.deep_view() == login_command(path_text(path)),
{
    let mut arguments = scoped(path);
    arguments.push("login".to_string());
    arguments.push("-s".to_string());
    arguments
}

/// The client a line of a workspace file names: the line must start with
/// `P4CLIENT=`, and the client is what follows, up to the next `=` or the
/// line's end.
pub open spec fn line_client(line: Seq<char>) -> Option<Seq<char>> {
    let key = "P4CLIENT"@;
    let rest = line.skip(key.len() + 1 as int);
    if line.len() > key.len() && line.take(key.len() as int) == key && line[key.len() as int]
        == '=' {
        Some(rest.take(run_before(rest, '=')))
    } else {
        None
    }
}

/// The client the first line that names one names.
pub open spec fn first_client(lines: Seq<Seq<char>>) -> Option<Seq<char>>
    decreases lines.len(),
{
    if lines.len() == 0 {
        None
    } else if line_client(lines[0]) is Some {
        line_client(lines[0])
    } else {
        first_client(lines.drop_first())
    }
}

/// The client a workspace file names.
pub open spec fn conf_client(conf: Seq<char>) -> Option<Seq<char>> {
    first_client(lines_of(conf, '\n', '\r'))
}

/// Where in `chars` the client stands that the line from `start` to `stop`
/// names, if it names one.
fn client_bounds(chars: &Vec<char>, start: usize, stop: usize) -> (bounds: Option<(usize, usize)>)
    requires
        start <= stop <= chars.len(),
    ensures
        match bounds {
            Some((from, to)) => {
                &&& start <= from <= to <= stop
                &&& line_client(chars@.subrange(start as int, stop as int)) == Some(
                    chars@.subrange(from as int, to as int),
                )
            },
            None => line_client(chars@.subrange(start as int, stop as int)) is None,
        },
{
    let key = chars_of("P4CLIENT");
    let ghost line = chars@.subrange(start as int, stop as int);
    if stop - start <= key.len() {
        return None;
    }
    let mut k: usize = 0;
    while k < key.len()
        invariant
            k <= key.len(),
            key@ == "P4CLIENT"@,
            start + key.len() < stop <= chars.len(),
            line == chars@.subrange(start as int, stop as int),
            forall|j: int| 0 <= j < k ==> line[j] == key@[j],
        decreases key.len() - k,
    {
        if chars[start + k] != key[k] {
            return None;
        }
        k += 1;
    }
    assert(line.take(key.len() as int) =~= key@);
    if chars[start + key.len()] != '=' {
        return None;
    }
    let from: usize = start + key.len() + 1;
    let ghost rest = line.skip(key.len() + 1);
    let mut to: usize = from;
    while to < stop && chars[to] != '='
        invariant
            from <= to <= stop <= chars.len(),
            forall|j: int| from <= j < to ==> chars@[j] != '=',
        decreases stop - to,
    {
        to += 1;
    }
    proof {
        lemma_run_before_found(rest, '=', to - from);
    }
    Some((from, to))
}

/// The client that the text of a workspace file names, if it names one.
///
/// The file is read line by line. The first line that starts with
/// `P4CLIENT=` decides: the client is what follows, up to the next `=` or
/// the end of the line.
pub fn get_client_from_conf(conf: &str) -> (client: Option<String>)
    ensures
        match client {
            Some(name) => conf_client(conf@) == Some(name@),
            None => conf_client(conf@) is None,
        },
{
    let chars = chars_of(conf);
    let mut start: usize = 0;
    assert(chars@.skip(0) =~= chars@);
    while start < chars.len()
        invariant
            start <= chars.len(),
            chars@ == conf@,
            conf_client(conf@) == first_client(lines_of(chars@.skip(start as int), '\n', '\r')),
        decreases chars.len() - start,
    {
        let ghost rest = chars@.skip(start as int);
        let mut end: usize = start;
        while end < chars.len() && chars[end] != '\n'
            invariant
                start <= end <= chars.len(),
                forall|i: int| start <= i < end ==> chars@[i] != '\n',
            decreases chars.len() - end,
        {
            end += 1;
        }
        let terminated = end < chars.len();
        let stop: usize = if terminated && end > start && chars[end - 1] == '\r' {
            (end - 1) as usize
        } else {
            end
        };
        let ghost line = chars@.subrange(start as int, stop as int);
        proof {
            // The line feed found is the first one of what is left, so the
            // characters before it are the first of the lines left.
            lemma_run_before_found(rest, '\n', end - start);
            let lines = lines_of(rest, '\n', '\r');
            if terminated {
                assert(rest.skip(end - start + 1) =~= chars@.skip(end + 1));
                assert(lines.drop_first() =~= lines_of(chars@.skip(end + 1), '\n', '\r'));
            } else {
                assert(lines.drop_first() =~= Seq::<Seq<char>>::empty());
            }
            assert(lines[0] == line);
        }
        match client_bounds(&chars, start, stop) {
            Some((from, to)) => {
                let name = conf.substring_char(from, to).to_string();
                return Some(name);
            },
            None => {},
        }
        start = if terminated {
            (end + 1) as usize
        } else {
            end
        };
    }
    None
}

} // verus!
