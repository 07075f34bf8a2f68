//! The dispatcher as a state machine. A session starts from a plan and hands
//! out one action at a time: lines to print, then one request. The caller
//! performs the request and tells the session what came of it.
use vstd::prelude::*;
use crate::output::{err_line, lines_view, out_line, push_copies, Line, LineView, Stream, Style};
use crate::plan::{no_lines, plan, plan_of, Command, Plan, PlanView, Policy, StageView, Work, WorkView};
use crate::tool::{announce_line, report, report_line, succeeded, CallView, Outcome, ToolCall};

verus! {

/// What the caller does next.
#[derive(Debug)]
pub enum Request {
    /// Start the tool, let it print to the inherited streams, and pass its
    /// outcome to [`Session::advance`].
    Run(ToolCall),
    /// Read the file as text and pass its contents, or `None` if it could
    /// not be read, to [`Session::receive_file`].
    Read(String),
    /// Stop; the flag says whether the subcommand succeeded: the outcome of
    /// the last tool run, or `true` where no tool runs. A caller that is a
    /// program exits with a failure status when it is `false`.
    Finish(bool),
}

/// The mathematical value of a [`Request`].
pub enum RequestView {
    Run(CallView),
    Read(Seq<char>),
    Finish(bool),
}

impl View for Request {
    type V = RequestView;

    open spec fn view(&self) -> RequestView {
        match self {
            Request::Run(c) => RequestView::Run(c@),
            Request::Read(p) => RequestView::Read(p@),
            Request::Finish(ok) => RequestView::Finish(*ok),
        }
    }
}

/// Lines to print, in order, then a request.
#[derive(Debug)]
pub struct Action {
    pub lines: Vec<Line>,
    pub request: Request,
}

/// The mathematical value of an [`Action`].
pub struct ActionView {
    pub lines: Seq<LineView>,
    pub request: RequestView,
}

impl View for Action {
    type V = ActionView;

    open spec fn view(&self) -> ActionView {
        ActionView { lines: lines_view(self.lines@), request: self.request@ }
    }
}

/// What a session waits for.
#[derive(Clone, Copy, Debug, PartialEq, Eq, Structural)]
pub enum Phase {
    /// The outcome of the current stage's tool.
    Running,
    /// The contents of the plan's file.
    Reading,
    /// Nothing: the session has finished.
    Finished,
}

/// A subcommand in progress.
pub struct Session {
    plan: Plan,
    current: usize,
    phase: Phase,
}

/// The mathematical value of a [`Session`].
pub struct SessionView {
    pub plan: PlanView,
    /// The stage whose tool runs or ran last.
    pub current: nat,
    pub phase: Phase,
}

impl View for Session {
    type V = SessionView;

    closed spec fn view(&self) -> SessionView {
        SessionView { plan: self.plan@, current: self.current as nat, phase: self.phase }
    }
}

/// The states that a session can be in.
pub open spec fn session_wf(s: SessionView) -> bool {
    &&& s.phase == Phase::Running ==> s.plan.work is Tools && s.current
        < s.plan.work->Tools_stages.len()
    &&& s.phase == Phase::Reading ==> s.plan.work is ReadFile
}

/// The lines printed when a stage begins: its own, then the announcement of
/// its call.
pub open spec fn stage_opening(st: StageView) -> Seq<LineView> {
    st.before.push(announce_line(st.call))
}

/// Whether, once stage `current` of `count` ended well or not (`ok`), the next
/// stage runs.
pub open spec fn runs_next(policy: Policy, ok: bool, current: nat, count: nat) -> bool {
    current + 1 < count && (policy == Policy::All || !ok)
}

/// The state of a session that has just started on `p`.
pub open spec fn start_state(p: PlanView) -> SessionView {
    SessionView {
        plan: p,
        current: 0,
        phase: match p.work {
            WorkView::Tools { stages, .. } => if stages.len() > 0 {
                Phase::Running
            } else {
                Phase::Finished
            },
            WorkView::ReadFile { .. } => Phase::Reading,
            WorkView::Nothing => Phase::Finished,
        },
    }
}

/// The first action of a session on `p`.
pub open spec fn start_action(p: PlanView) -> ActionView {
    match p.work {
        WorkView::Tools { stages, .. } => if stages.len() > 0 {
            ActionView {
                lines: p.intro + stage_opening(stages[0]),
                request: RequestView::Run(stages[0].call),
            }
        } else {
            ActionView { lines: p.intro, request: RequestView::Finish(true) }
        },
        WorkView::ReadFile { path, .. } => ActionView {
            lines: p.intro,
            request: RequestView::Read(path),
        },
        WorkView::Nothing => ActionView { lines: p.intro, request: RequestView::Finish(true) },
    }
}

/// The state after the current tool ended with `o`.
pub open spec fn after_tool_state(s: SessionView, o: Outcome) -> SessionView {
    let stages = s.plan.work->Tools_stages;
    if runs_next(s.plan.work->Tools_policy, succeeded(o), s.current, stages.len()) {
        SessionView { current: s.current + 1, ..s }
    } else {
        SessionView { phase: Phase::Finished, ..s }
    }
}

/// The action after the current tool ended with `o`: the report, the stage's
/// lines for that outcome, then either the next stage or the end, which
/// carries the outcome.
pub open spec fn after_tool_action(s: SessionView, o: Outcome) -> ActionView {
    let stages = s.plan.work->Tools_stages;
    let st = stages[s.current as int];
    let ok = succeeded(o);
    let reported = seq![report_line(st.call.program, o)] + if ok {
        st.on_success
    } else {
        st.on_failure
    };
    if runs_next(s.plan.work->Tools_policy, ok, s.current, stages.len()) {
        let next = stages[s.current + 1 as int];
        ActionView {
            lines: reported + stage_opening(next),
            request: RequestView::Run(next.call),
        }
    } else {
        ActionView { lines: reported, request: RequestView::Finish(ok) }
    }
}

/// The line that shows the file, or says that it could not be read.
pub open spec fn file_line(path: Seq<char>, content: Option<Seq<char>>) -> LineView {
    match content {
        Some(text) => out_line(Style::BoldBlue, text),
        None => err_line(Style::BoldRed, "Failed to read "@ + path),
    }
}

/// The action once the file was read, or found unreadable: a successful end
/// either way.
pub open spec fn after_read_action(s: SessionView, content: Option<Seq<char>>) -> ActionView {
    ActionView {
        lines: seq![file_line(s.plan.work->ReadFile_path, content)]
            + s.plan.work->ReadFile_after,
        request: RequestView::Finish(true),
    }
}

/// The view of an optional string.
pub open spec fn text_of(content: Option<String>) -> Option<Seq<char>> {
    match content {
        Some(t) => Some(t@),
        None => None,
    }
}

impl Session {
    /// Starts a session on `plan`.
    pub fn start(plan: Plan) -> (r: (Session, Action))
        ensures
            r.0@ == start_state(plan@),
            r.1@ == start_action(plan@),
            session_wf(r.0@),
    {
        let mut lines = no_lines();
        push_copies(&mut lines, &plan.intro);
        proof {
            assert(lines_view(lines@) =~= plan@.intro);
        }
        let (phase, request) = match &plan.work {
            Work::Tools { stages, .. } => {
                if stages.len() > 0 {
                    proof {
                        assert(stages@.map_values(|s: crate::plan::Stage| s@)[0] == stages@[0]@);
                    }
                    push_copies(&mut lines, &stages[0].before);
                    let ghost before = lines@;
                    lines.push(stages[0].call.announce());
                    proof {
                        assert(lines_view(lines@) =~= lines_view(before).push(
                            announce_line(stages@[0].call@),
                        ));
                    }
                    (Phase::Running, Request::Run(stages[0].call.duplicate()))
                } else {
                    (Phase::Finished, Request::Finish(true))
                }
            },
            Work::ReadFile { path, .. } => (Phase::Reading, Request::Read(path.clone())),
            Work::Nothing => (Phase::Finished, Request::Finish(true)),
        };
        (Session { plan, current: 0, phase }, Action { lines, request })
    }

    /// What the session waits for.
    pub fn phase(&self) -> (r: Phase)
        ensures
            r == self@.phase,
    {
        self.phase
    }

    /// Takes the outcome of the current stage's tool.
    pub fn advance(&mut self, outcome: Outcome) -> (r: Action)
        requires
            session_wf(old(self)@),
            old(self)@.phase == Phase::Running,
        ensures
            final(self)@ == after_tool_state(old(self)@, outcome),
            r@ == after_tool_action(old(self)@, outcome),
            session_wf(final(self)@),
    {
        let i = self.current;
        let (lines, request, go_on) = match &self.plan.work {
            Work::Tools { stages, policy } => {
                let ghost views = stages@.map_values(|s: crate::plan::Stage| s@);
                proof {
                    assert(views.len() == stages@.len());
                    assert(views[i as int] == stages@[i as int]@);
                }
                let stage = &stages[i];
                let (ok, reported) = report(stage.call.program.as_str(), &outcome);
                let mut lines = no_lines();
                let ghost empty = lines@;
                lines.push(reported);
                proof {
                    assert(lines_view(lines@) =~= lines_view(empty).push(reported@));
                }
                if ok {
                    push_copies(&mut lines, &stage.on_success);
                } else {
                    push_copies(&mut lines, &stage.on_failure);
                }
                let count = stages.len();
                let go_on = i + 1 < count && (match policy {
                    Policy::All => true,
                    Policy::UntilSuccess => false,
                } || !ok);
                if go_on {
                    proof {
                        assert(views[i + 1] == stages@[i + 1]@);
                    }
                    let next = &stages[i + 1];
                    push_copies(&mut lines, &next.before);
                    let ghost before = lines@;
                    lines.push(next.call.announce());
                    proof {
                        assert(lines_view(lines@) =~= lines_view(before).push(
                            announce_line(next.call@),
                        ));
                    }
                    (lines, Request::Run(next.call.duplicate()), true)
                } else {
                    (lines, Request::Finish(ok), false)
                }
            },
            _ => {
                proof {
                    assert(false);
                }
                (no_lines(), Request::Finish(false), false)
            },
        };
        if go_on {
            self.current = i + 1;
        } else {
            self.phase = Phase::Finished;
        }
        let r = Action { lines, request };
        proof {
            assert(lines_view(r.lines@) =~= after_tool_action(old(self)@, outcome).lines);
        }
        r
    }

    /// Takes the contents of the plan's file, or `None` if it could not be
    /// read.
    pub fn receive_file(&mut self, content: Option<String>) -> (r: Action)
        requires
            session_wf(old(self)@),
            old(self)@.phase == Phase::Reading,
        ensures
            final(self)@ == (SessionView { phase: Phase::Finished, ..old(self)@ }),
            r@ == after_read_action(old(self)@, text_of(content)),
            session_wf(final(self)@),
    {
        let mut lines = no_lines();
        let ghost empty = lines@;
        match &self.plan.work {
            Work::ReadFile { path, after } => {
                let line = match content {
                    Some(text) => Line { stream: Stream::Stdout, style: Style::BoldBlue, text },
                    None => {
                        let mut t = String::from_str("Failed to read ");
                        t.append(path.as_str());
                        Line { stream: Stream::Stderr, style: Style::BoldRed, text: t }
                    },
                };
                lines.push(line);
                proof {
                    assert(lines_view(lines@) =~= lines_view(empty).push(line@));
                }
                push_copies(&mut lines, after);
            },
            _ => {
                proof {
                    assert(false);
                }
            },
        }
        self.phase = Phase::Finished;
        let r = Action { lines, request: Request::Finish(true) };
        proof {
            assert(lines_view(r.lines@) =~= after_read_action(old(self)@, text_of(content)).lines);
        }
        r
    }
}

/// Starts a session on the plan of `command`; no subcommand is `help`.
pub fn dispatch(command: &Option<Command>) -> (r: (Session, Action))
    ensures
        r.0@ == start_state(plan_of(*command)),
        r.1@ == start_action(plan_of(*command)),
        session_wf(r.0@),
{
    Session::start(plan(command))
}

} // verus!
