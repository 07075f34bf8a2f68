//! External tool invocations, what came of them, and the lines reporting both.
use vstd::prelude::*;
use crate::output::{err_line, out_line, Line, LineView, Stream, Style};

verus! {

/// A program to start, with its fixed argument vector.
#[derive(Debug)]
pub struct ToolCall {
    pub program: String,
    pub args: Vec<String>,
}

/// The mathematical value of a [`ToolCall`].
pub struct CallView {
    pub program: Seq<char>,
    pub args: Seq<Seq<char>>,
}

impl View for ToolCall {
    type V = CallView;

    open spec fn view(&self) -> CallView {
        CallView { program: self.program@, args: self.args@.map_values(|a: String| a@) }
    }
}

/// What came of running a tool.
#[derive(Debug)]
pub enum Outcome {
    /// The tool ran and exited with status zero.
    Succeeded,
    /// The tool ran and exited otherwise.
    Failed,
    /// The tool could not be started; the reason as the system gave it.
    NotStarted(String),
}

/// Whether an outcome counts as success. A tool that could not be started
/// counts as failed, as one that exited non-zero does.
pub open spec fn succeeded(o: Outcome) -> bool {
    o is Succeeded
}

/// The arguments separated by single spaces.
pub open spec fn joined(args: Seq<Seq<char>>) -> Seq<char>
    decreases args.len(),
{
    if args.len() == 0 {
        Seq::empty()
    } else if args.len() == 1 {
        args[0]
    } else {
        joined(args.drop_last()) + " "@ + args.last()
    }
}

/// The line printed before a tool is started.
pub open spec fn announce_line(call: CallView) -> LineView {
    out_line(Style::Dimmed, "Executing: "@ + call.program + " "@ + joined(call.args))
}

/// The line printed once a tool's outcome is known.
pub open spec fn report_line(program: Seq<char>, o: Outcome) -> LineView {
    match o {
        Outcome::Succeeded => out_line(
            Style::BoldGreen,
            "Command "@ + program + " completed successfully!"@,
        ),
        Outcome::Failed => err_line(Style::BoldRed, "Command "@ + program + " failed."@),
        Outcome::NotStarted(reason) => err_line(
            Style::BoldRed,
            "Error running "@ + program + ": "@ + reason@,
        ),
    }
}

impl ToolCall {
    /// A call of `program` with no arguments.
    pub fn new(program: &str) -> (r: ToolCall)
        ensures
            r@ == (CallView { program: program@, args: Seq::empty() }),
    {
        let r = ToolCall { program: String::from_str(program), args: Vec::new() };
        proof {
            assert(r@.args =~= Seq::empty());
        }
        r
    }

    /// This call with `arg` added after its arguments.
    pub fn arg(self, arg: &str) -> (r: ToolCall)
        ensures
            r@ == (CallView { program: self@.program, args: self@.args.push(arg@) }),
    {
        let mut args = self.args;
        let ghost before = args@;
        args.push(String::from_str(arg));
        proof {
            assert(args@.map_values(|a: String| a@) =~= before.map_values(|a: String| a@).push(
                arg@,
            ));
        }
        ToolCall { program: self.program, args }
    }

    /// A copy of this call.
    pub fn duplicate(&self) -> (r: ToolCall)
        ensures
            r@ == self@,
    {
        let mut v: Vec<String> = Vec::new();
        let mut i: usize = 0;
        while i < self.args.len()
            invariant
                i <= self.args@.len(),
                v@ == self.args@.subrange(0, i as int),
            decreases self.args@.len() - i,
        {
            v.push(self.args[i].clone());
            proof {
                assert(v@ =~= self.args@.subrange(0, i + 1));
            }
            i = i + 1;
        }
        proof {
            assert(v@ =~= self.args@);
        }
        ToolCall { program: self.program.clone(), args: v }
    }

    /// The arguments separated by single spaces.
    pub fn joined_args(&self) -> (r: String)
        ensures
            r@ == joined(self@.args),
    {
        let ghost args = self@.args;
        let mut s = String::new();
        let mut i: usize = 0;
        while i < self.args.len()
            invariant
                i <= args.len(),
                args == self.args@.map_values(|a: String| a@),
                s@ == joined(args.subrange(0, i as int)),
            decreases args.len() - i,
        {
            proof {
                let next = args.subrange(0, i + 1);
                assert(next.drop_last() =~= args.subrange(0, i as int));
                assert(next.last() == self.args@[i as int]@);
            }
            if i > 0 {
                s.append(" ");
            }
            s.append(self.args[i].as_str());
            i = i + 1;
        }
        proof {
            assert(args.subrange(0, args.len() as int) =~= args);
        }
        s
    }

    /// The line printed before this call is made.
    pub fn announce(&self) -> (r: Line)
        ensures
            r@ == announce_line(self@),
    {
        let mut t = String::from_str("Executing: ");
        t.append(self.program.as_str());
        t.append(" ");
        let args = self.joined_args();
        t.append(args.as_str());
        Line { stream: Stream::Stdout, style: Style::Dimmed, text: t }
    }
}

/// The line printed once the outcome of running `program` is known, and
/// whether that outcome counts as success.
pub fn report(program: &str, outcome: &Outcome) -> (r: (bool, Line))
    ensures
        r.0 == succeeded(*outcome),
        r.1@ == report_line(program@, *outcome),
{
    match outcome {
        Outcome::Succeeded => {
            let mut t = String::from_str("Command ");
            t.append(program);
            t.append(" completed successfully!");
            (true, Line { stream: Stream::Stdout, style: Style::BoldGreen, text: t })
        },
        Outcome::Failed => {
            let mut t = String::from_str("Command ");
            t.append(program);
            t.append(" failed.");
            (false, Line { stream: Stream::Stderr, style: Style::BoldRed, text: t })
        },
        Outcome::NotStarted(reason) => {
            let mut t = String::from_str("Error running ");
            t.append(program);
            t.append(": ");
            t.append(reason.as_str());
            (false, Line { stream: Stream::Stderr, style: Style::BoldRed, text: t })
        },
    }
}

} // verus!
