//! The exchange between an operation and its host.
//!
//! An operation never touches the system. It hands its host an [`Action`],
//! the host performs it and hands back an [`Outcome`], and the operation
//! decides what comes next. Between two actions it may emit events. A
//! [`Turn`] is one such decision: the events emitted, and either the next
//! action with the state in which the operation waits for its outcome, or
//! the operation's result.

use vstd::prelude::*;
use crate::error::{failure, ErrorKind, Failure, OpError};
use crate::event::{event_views, Event, EventView};
use crate::operations::{device_views, BlockDevice, BlockDeviceView};
use crate::text::{copy, opt_text, texts};

verus! {

/// A tool invocation: the program, its arguments, what is written to its
/// input before the input is closed, and the time it is given.
#[derive(Debug, Clone, PartialEq, Eq)]
pub struct Command {
    pub program: String,
    pub args: Vec<String>,
    pub input: Option<String>,
    pub timeout_secs: Option<u64>,
}

/// The mathematical content of a [`Command`].
pub struct CommandView {
    pub program: Seq<char>,
    pub args: Seq<Seq<char>>,
    pub input: Option<Seq<char>>,
    pub timeout_secs: Option<u64>,
}

impl View for Command {
    type V = CommandView;

    open spec fn view(&self) -> CommandView {
        CommandView {
            program: self.program@,
            args: texts(self.args@),
            input: opt_text(self.input),
            timeout_secs: self.timeout_secs,
        }
    }
}

/// What an operation asks its host to do.
#[derive(Debug, Clone, PartialEq, Eq)]
pub enum Action {
    /// Run a tool and report how it ended.
    Run(Command),
    /// Report whether the path exists.
    ProbePath(String),
    /// Report the names in the registry of active mappings.
    ListMappings,
    /// Wait for the given number of milliseconds.
    Pause(u64),
    /// Read the inventory of disks and partitions.
    ReadInventory,
}

/// The mathematical content of an [`Action`].
pub enum ActionView {
    Run(CommandView),
    ProbePath(Seq<char>),
    ListMappings,
    Pause(u64),
    ReadInventory,
}

impl View for Action {
    type V = ActionView;

    open spec fn view(&self) -> ActionView {
        match self {
            Action::Run(c) => ActionView::Run(c@),
            Action::ProbePath(p) => ActionView::ProbePath(p@),
            Action::ListMappings => ActionView::ListMappings,
            Action::Pause(ms) => ActionView::Pause(*ms),
            Action::ReadInventory => ActionView::ReadInventory,
        }
    }
}

/// How a tool invocation ended.
#[derive(Debug, Clone, PartialEq, Eq)]
pub enum ToolResult {
    /// The tool could not be started; the text says why.
    NotRun { error: String },
    /// The tool did not finish within the time it was given.
    TimedOut,
    /// The tool ran to its end.
    Exited { success: bool, stdout: String, stderr: String },
}

/// The mathematical content of a [`ToolResult`].
pub enum ToolResultView {
    NotRun { error: Seq<char> },
    TimedOut,
    Exited { success: bool, stdout: Seq<char>, stderr: Seq<char> },
}

impl View for ToolResult {
    type V = ToolResultView;

    open spec fn view(&self) -> ToolResultView {
        match self {
            ToolResult::NotRun { error } => ToolResultView::NotRun { error: error@ },
            ToolResult::TimedOut => ToolResultView::TimedOut,
            ToolResult::Exited { success, stdout, stderr } => ToolResultView::Exited {
                success: *success,
                stdout: stdout@,
                stderr: stderr@,
            },
        }
    }
}

/// What the host reports after it performed an action.
#[derive(Debug, Clone, PartialEq, Eq)]
pub enum Outcome {
    /// Answers [`Action::Run`].
    Tool(ToolResult),
    /// Answers [`Action::ProbePath`].
    Exists(bool),
    /// Answers [`Action::ListMappings`]; `None` where the registry cannot be
    /// read.
    Mappings(Option<Vec<String>>),
    /// Answers [`Action::Pause`].
    Resumed,
    /// Answers [`Action::ReadInventory`]; `None` where the inventory cannot
    /// be read.
    Inventory(Option<Vec<BlockDevice>>),
}

/// The mathematical content of an [`Outcome`].
pub enum OutcomeView {
    Tool(ToolResultView),
    Exists(bool),
    Mappings(Option<Seq<Seq<char>>>),
    Resumed,
    Inventory(Option<Seq<BlockDeviceView>>),
}

impl View for Outcome {
    type V = OutcomeView;

    open spec fn view(&self) -> OutcomeView {
        match self {
            Outcome::Tool(r) => OutcomeView::Tool(r@),
            Outcome::Exists(b) => OutcomeView::Exists(*b),
            Outcome::Mappings(m) => OutcomeView::Mappings(
                match m {
                    Some(v) => Some(texts(v@)),
                    None => None,
                },
            ),
            Outcome::Resumed => OutcomeView::Resumed,
            Outcome::Inventory(d) => OutcomeView::Inventory(
                match d {
                    Some(v) => Some(device_views(v@)),
                    None => None,
                },
            ),
        }
    }
}

/// Whether a tool ran and reported success.
pub open spec fn succeeded(o: OutcomeView) -> bool {
    o matches OutcomeView::Tool(ToolResultView::Exited { success, .. }) && success
}

/// What a tool wrote to its output stream; empty where it did not run.
pub open spec fn stdout_of(o: OutcomeView) -> Seq<char> {
    match o {
        OutcomeView::Tool(ToolResultView::Exited { stdout, .. }) => stdout,
        _ => Seq::empty(),
    }
}

/// Where an operation stands after a turn: waiting in a state for the
/// outcome of an action, or done with a result.
#[derive(Debug, PartialEq, Eq)]
pub enum Flow<S, T> {
    Wait(S, Action),
    Done(Result<T, OpError>),
}

/// The mathematical content of a [`Flow`].
pub enum FlowView<SV, TV> {
    Wait(SV, ActionView),
    Done(Result<TV, Failure>),
}

impl<S: View, T: View> View for Flow<S, T> {
    type V = FlowView<S::V, T::V>;

    open spec fn view(&self) -> FlowView<S::V, T::V> {
        match self {
            Flow::Wait(s, a) => FlowView::Wait(s@, a@),
            Flow::Done(Ok(t)) => FlowView::Done(Ok(t@)),
            Flow::Done(Err(e)) => FlowView::Done(Err(e@)),
        }
    }
}

/// One decision of an operation: what it emits and where it stands then.
#[derive(Debug, PartialEq, Eq)]
pub struct Turn<S, T> {
    pub events: Vec<Event>,
    pub flow: Flow<S, T>,
}

/// The mathematical content of a [`Turn`].
pub struct TurnView<SV, TV> {
    pub events: Seq<EventView>,
    pub flow: FlowView<SV, TV>,
}

impl<S: View, T: View> View for Turn<S, T> {
    type V = TurnView<S::V, T::V>;

    open spec fn view(&self) -> TurnView<S::V, T::V> {
        TurnView { events: event_views(self.events@), flow: self.flow@ }
    }
}

/// The turn that emits `events` and then waits in `state` for `action`.
pub open spec fn wait<SV, TV>(events: Seq<EventView>, state: SV, action: ActionView) -> TurnView<
    SV,
    TV,
> {
    TurnView { events, flow: FlowView::Wait(state, action) }
}

/// The turn that emits `events` and ends with `value`.
pub open spec fn finish<SV, TV>(events: Seq<EventView>, value: TV) -> TurnView<SV, TV> {
    TurnView { events, flow: FlowView::Done(Ok(value)) }
}

/// The turn that emits `events` and fails.
pub open spec fn abort<SV, TV>(events: Seq<EventView>, kind: ErrorKind, message: Seq<char>)
    -> TurnView<SV, TV> {
    TurnView { events, flow: FlowView::Done(Err(failure(kind, message))) }
}

/// The turn that emits `events` and fails with a failure met earlier.
pub open spec fn abort_with<SV, TV>(events: Seq<EventView>, f: Failure) -> TurnView<SV, TV> {
    TurnView { events, flow: FlowView::Done(Err(f)) }
}

/// The turn `t` with `events` emitted before its own.
pub open spec fn after<SV, TV>(events: Seq<EventView>, t: TurnView<SV, TV>) -> TurnView<SV, TV> {
    TurnView { events: events + t.events, flow: t.flow }
}

/// The turn of an operation whose part-operation made the turn `t`: while
/// the part waits, the whole waits in the state `wrap` makes of the part's;
/// a failure of the part is the failure of the whole; and when the part is
/// done, the whole goes on with `next` of its result.
pub open spec fn lift<CV, RV, SV, TV>(
    t: TurnView<CV, RV>,
    wrap: spec_fn(CV) -> SV,
    next: spec_fn(RV) -> TurnView<SV, TV>,
) -> TurnView<SV, TV> {
    match t.flow {
        FlowView::Wait(c, a) => wait(t.events, wrap(c), a),
        FlowView::Done(Err(f)) => abort_with(t.events, f),
        FlowView::Done(Ok(r)) => after(t.events, next(r)),
    }
}

/// As [`lift`], for a whole that shows progress while the part runs: a
/// failure of the part ends the progress display before it becomes the
/// failure of the whole.
pub open spec fn lift_closing<CV, RV, SV, TV>(
    t: TurnView<CV, RV>,
    wrap: spec_fn(CV) -> SV,
    next: spec_fn(RV) -> TurnView<SV, TV>,
) -> TurnView<SV, TV> {
    match t.flow {
        FlowView::Wait(c, a) => wait(t.events, wrap(c), a),
        FlowView::Done(Err(f)) => abort_with(t.events.push(crate::event::ended()), f),
        FlowView::Done(Ok(r)) => after(t.events, next(r)),
    }
}

/// The failure that answers an outcome of the wrong kind.
pub open spec fn stray<SV, TV>() -> TurnView<SV, TV> {
    abort(Seq::empty(), ErrorKind::ToolExecution, "Unexpected answer from the host"@)
}

/// The invocation of `program` with `args`, without input or time limit.
pub open spec fn tool(program: Seq<char>, args: Seq<Seq<char>>) -> ActionView {
    ActionView::Run(CommandView { program, args, input: None, timeout_secs: None })
}

/// The invocation of `program` with `args`, given `secs` seconds.
pub open spec fn tool_within(program: Seq<char>, args: Seq<Seq<char>>, secs: u64) -> ActionView {
    ActionView::Run(CommandView { program, args, input: None, timeout_secs: Some(secs) })
}

/// The invocation of `program` with `args`, fed `input`.
pub open spec fn tool_fed(program: Seq<char>, args: Seq<Seq<char>>, input: Seq<char>)
    -> ActionView {
    ActionView::Run(CommandView { program, args, input: Some(input), timeout_secs: None })
}

impl<S: View, T: View> Turn<S, T> {
    pub fn wait(events: Vec<Event>, state: S, action: Action) -> (t: Self)
        ensures
            t@ == wait::<S::V, T::V>(event_views(events@), state@, action@),
    {
        Turn { events, flow: Flow::Wait(state, action) }
    }

    pub fn finish(events: Vec<Event>, value: T) -> (t: Self)
        ensures
            t@ == finish::<S::V, T::V>(event_views(events@), value@),
    {
        Turn { events, flow: Flow::Done(Ok(value)) }
    }

    pub fn abort(events: Vec<Event>, kind: ErrorKind, message: String) -> (t: Self)
        ensures
            t@ == abort::<S::V, T::V>(event_views(events@), kind, message@),
    {
        Turn { events, flow: Flow::Done(Err(OpError { kind, message })) }
    }

    pub fn abort_with(events: Vec<Event>, e: OpError) -> (t: Self)
        ensures
            t@ == abort_with::<S::V, T::V>(event_views(events@), e@),
    {
        Turn { events, flow: Flow::Done(Err(e)) }
    }

    pub fn stray() -> (t: Self)
        ensures
            t@ == stray::<S::V, T::V>(),
    {
        let events = crate::event::ev0();
        Turn {
            events,
            flow: Flow::Done(
                Err(
                    OpError {
                        kind: ErrorKind::ToolExecution,
                        message: copy("Unexpected answer from the host"),
                    },
                ),
            ),
        }
    }

    /// The failure `e` after `events` and the end of the progress display.
    pub fn abort_closing(events: Vec<Event>, e: OpError) -> (t: Self)
        ensures
            t@ == abort_with::<S::V, T::V>(event_views(events@).push(crate::event::ended()), e@),
    {
        let mut events = events;
        let ghost before = event_views(events@);
        events.push(Event::EndProgress);
        assert(event_views(events@) =~= before.push(crate::event::ended()));
        Turn { events, flow: Flow::Done(Err(e)) }
    }

    /// This turn with `events` emitted before its own.
    pub fn after(self, events: Vec<Event>) -> (t: Self)
        ensures
            t@ == after(event_views(events@), self@),
    {
        let Turn { events: own, flow } = self;
        Turn { events: crate::event::chain(events, own), flow }
    }
}

impl Outcome {
    /// Whether a tool ran and reported success.
    pub fn succeeded(&self) -> (b: bool)
        ensures
            b == succeeded(self@),
    {
        match self {
            Outcome::Tool(ToolResult::Exited { success, .. }) => *success,
            _ => false,
        }
    }

    /// What a tool wrote to its output stream.
    pub fn stdout(&self) -> (s: String)
        ensures
            s@ == stdout_of(self@),
    {
        match self {
            Outcome::Tool(ToolResult::Exited { stdout, .. }) => copy(stdout.as_str()),
            _ => String::new(),
        }
    }
}

/// One argument.
pub fn args1(a: &str) -> (v: Vec<String>)
    ensures
        texts(v@) == seq![a@],
{
    let mut v: Vec<String> = Vec::new();
    v.push(copy(a));
    assert(texts(v@) =~= seq![a@]);
    v
}

/// Two arguments.
pub fn args2(a: &str, b: &str) -> (v: Vec<String>)
    ensures
        texts(v@) == seq![a@, b@],
{
    let mut v: Vec<String> = Vec::new();
    v.push(copy(a));
    v.push(copy(b));
    assert(texts(v@) =~= seq![a@, b@]);
    v
}

/// Three arguments.
pub fn args3(a: &str, b: &str, c: &str) -> (v: Vec<String>)
    ensures
        texts(v@) == seq![a@, b@, c@],
{
    let mut v: Vec<String> = Vec::new();
    v.push(copy(a));
    v.push(copy(b));
    v.push(copy(c));
    assert(texts(v@) =~= seq![a@, b@, c@]);
    v
}

/// Four arguments.
pub fn args4(a: &str, b: &str, c: &str, d: &str) -> (v: Vec<String>)
    ensures
        texts(v@) == seq![a@, b@, c@, d@],
{
    let mut v: Vec<String> = Vec::new();
    v.push(copy(a));
    v.push(copy(b));
    v.push(copy(c));
    v.push(copy(d));
    assert(texts(v@) =~= seq![a@, b@, c@, d@]);
    v
}

/// Five arguments.
pub fn args5(a: &str, b: &str, c: &str, d: &str, e: &str) -> (v: Vec<String>)
    ensures
        texts(v@) == seq![a@, b@, c@, d@, e@],
{
    let mut v: Vec<String> = Vec::new();
    v.push(copy(a));
    v.push(copy(b));
    v.push(copy(c));
    v.push(copy(d));
    v.push(copy(e));
    assert(texts(v@) =~= seq![a@, b@, c@, d@, e@]);
    v
}

/// Six arguments.
pub fn args6(a: &str, b: &str, c: &str, d: &str, e: &str, f: &str) -> (v: Vec<String>)
    ensures
        texts(v@) == seq![a@, b@, c@, d@, e@, f@],
{
    let mut v: Vec<String> = Vec::new();
    v.push(copy(a));
    v.push(copy(b));
    v.push(copy(c));
    v.push(copy(d));
    v.push(copy(e));
    v.push(copy(f));
    assert(texts(v@) =~= seq![a@, b@, c@, d@, e@, f@]);
    v
}

/// The invocation of `program` with `args`.
pub fn run(program: &str, args: Vec<String>) -> (a: Action)
    ensures
        a@ == tool(program@, texts(args@)),
{
    Action::Run(Command { program: copy(program), args, input: None, timeout_secs: None })
}

/// The invocation of `program` with `args`, given `secs` seconds.
pub fn run_within(program: &str, args: Vec<String>, secs: u64) -> (a: Action)
    ensures
        a@ == tool_within(program@, texts(args@), secs),
{
    Action::Run(Command { program: copy(program), args, input: None, timeout_secs: Some(secs) })
}

/// The invocation of `program` with `args`, fed `input`.
pub fn run_fed(program: &str, args: Vec<String>, input: String) -> (a: Action)
    ensures
        a@ == tool_fed(program@, texts(args@), input@),
{
    Action::Run(Command { program: copy(program), args, input: Some(input), timeout_secs: None })
}

} // verus!
