//! Ordered link attempts and the decisions taken between them.
//!
//! A plan lists the commands to try in order. The caller runs the command
//! that a step names and reports what happened; the plan says what to run
//! next or how the whole link ended. A command that succeeds ends the
//! link; a command that fails moves on to the next attempt; a program that
//! cannot be started skips ahead to the attempt its entry names.

use vstd::prelude::*;
use crate::strs::{strings_view, concat, concat3};

verus! {

/// A program to run with its arguments.
#[derive(Debug, Clone)]
pub struct LinkCommand {
    pub program: String,
    pub args: Vec<String>,
}

/// One command of a plan and how its failures are reported.
#[derive(Debug, Clone)]
pub struct LinkAttempt {
    pub command: LinkCommand,
    /// A failed run is reported as `failure_prefix + stderr + failure_suffix`.
    pub failure_prefix: String,
    pub failure_suffix: String,
    /// A program that cannot be started is reported as `spawn_prefix + error`.
    pub spawn_prefix: String,
    /// Index of the attempt that follows when the program cannot be started.
    pub skip_to: usize,
}

/// An ordered list of link attempts.
#[derive(Debug, Clone)]
pub struct LinkPlan {
    pub attempts: Vec<LinkAttempt>,
    /// Whether failures are remembered for the final error.
    pub records_errors: bool,
    /// When every attempt failed the link ends with
    /// `error_prefix + last remembered failure + error_suffix`.
    pub error_prefix: String,
    pub error_suffix: String,
}

/// What happened when a command was run.
#[derive(Debug, Clone)]
pub enum RunOutcome {
    /// The program ran and exited successfully.
    Succeeded,
    /// The program ran and failed; the text is what it wrote to stderr.
    Failed(String),
    /// The program could not be started; the text describes why.
    NotStarted(String),
}

/// What to do next.
#[derive(Debug)]
pub enum LinkStep {
    /// Run the attempt with this index.
    Run(usize),
    /// The link is over.
    Finished(Result<(), String>),
}

/// Where a link stands: the attempt to run next and the failure remembered
/// so far.
#[derive(Debug, Clone)]
pub struct LinkProgress {
    pub next: usize,
    pub last_error: Option<String>,
}

/// Plain view of one attempt.
pub struct AttemptView {
    pub program: Seq<char>,
    pub args: Seq<Seq<char>>,
    pub failure_prefix: Seq<char>,
    pub failure_suffix: Seq<char>,
    pub spawn_prefix: Seq<char>,
    pub skip_to: int,
}

/// Plain view of a plan.
pub struct PlanView {
    pub attempts: Seq<AttemptView>,
    pub records_errors: bool,
    pub error_prefix: Seq<char>,
    pub error_suffix: Seq<char>,
}

impl View for LinkAttempt {
    type V = AttemptView;

    open spec fn view(&self) -> AttemptView {
        AttemptView {
            program: self.command.program@,
            args: strings_view(self.command.args@),
            failure_prefix: self.failure_prefix@,
            failure_suffix: self.failure_suffix@,
            spawn_prefix: self.spawn_prefix@,
            skip_to: self.skip_to as int,
        }
    }
}

impl View for LinkPlan {
    type V = PlanView;

    open spec fn view(&self) -> PlanView {
        PlanView {
            attempts: self.attempts@.map_values(|a: LinkAttempt| a@),
            records_errors: self.records_errors,
            error_prefix: self.error_prefix@,
            error_suffix: self.error_suffix@,
        }
    }
}

/// An attempt that reports a failed run as `prefix + stderr + suffix` and
/// a program that cannot start as `spawn_prefix + error`.
pub open spec fn attempt_view(
    program: Seq<char>,
    args: Seq<Seq<char>>,
    failure_prefix: Seq<char>,
    failure_suffix: Seq<char>,
    spawn_prefix: Seq<char>,
    skip_to: int,
) -> AttemptView {
    AttemptView { program, args, failure_prefix, failure_suffix, spawn_prefix, skip_to }
}

impl PlanView {
    /// Every attempt skips forward, and never past the end.
    pub open spec fn wf(self) -> bool {
        forall|i: int|
            0 <= i < self.attempts.len() ==> i < #[trigger] self.attempts[i].skip_to
                <= self.attempts.len()
    }

    /// The error that ends a link in which every attempt failed.
    pub open spec fn final_error(self, last: Option<Seq<char>>) -> Seq<char> {
        self.error_prefix + (match last {
            Some(e) => e,
            None => Seq::empty(),
        }) + self.error_suffix
    }
}

/// How a failed run or a program that could not start is reported.
pub open spec fn failure_message(a: AttemptView, outcome: RunOutcome) -> Seq<char> {
    match outcome {
        RunOutcome::Failed(stderr) => a.failure_prefix + stderr@ + a.failure_suffix,
        RunOutcome::NotStarted(err) => a.spawn_prefix + err@,
        RunOutcome::Succeeded => Seq::empty(),
    }
}

/// The attempt that follows a failure of attempt `i`.
pub open spec fn following(a: AttemptView, i: int, outcome: RunOutcome) -> int {
    match outcome {
        RunOutcome::NotStarted(_) => a.skip_to,
        _ => i + 1,
    }
}

/// The step that names attempt `next`, or ends the link with the final
/// error when no attempt is left.
pub open spec fn step_at(plan: PlanView, next: int, last: Option<Seq<char>>) -> Result<int, Seq<char>> {
    if next < plan.attempts.len() {
        Ok(next)
    } else {
        Err(plan.final_error(last))
    }
}

/// The step that names attempt `next`, or ends the link with the final
/// error, in the terms of `step_view`.
pub open spec fn expected_step(plan: PlanView, next: int, last: Option<Seq<char>>) -> Result<int, Result<(), Seq<char>>> {
    match step_at(plan, next, last) {
        Ok(i) => Ok(i),
        Err(e) => Err(Err::<(), Seq<char>>(e)),
    }
}

/// How a step reads in plain terms: `Ok(i)` runs attempt `i`;
/// `Err(Ok(()))` is a successful link; `Err(Err(msg))` a failed one.
pub open spec fn step_view(s: LinkStep) -> Result<int, Result<(), Seq<char>>> {
    match s {
        LinkStep::Run(i) => Ok(i as int),
        LinkStep::Finished(Ok(())) => Err(Ok(())),
        LinkStep::Finished(Err(e)) => Err(Err(e@)),
    }
}

pub open spec fn opt_view(o: Option<String>) -> Option<Seq<char>> {
    match o {
        Some(s) => Some(s@),
        None => None,
    }
}

/// The plain result of a whole link: the outcomes are those of the
/// commands run, in order, from attempt `next` with `last` remembered.
pub open spec fn link_result(plan: PlanView, next: int, last: Option<Seq<char>>, outcomes: Seq<RunOutcome>) -> Option<Result<(), Seq<char>>>
    decreases outcomes.len(),
{
    if next >= plan.attempts.len() {
        Some(Err(plan.final_error(last)))
    } else if outcomes.len() == 0 {
        None
    } else {
        match outcomes[0] {
            RunOutcome::Succeeded => Some(Ok(())),
            _ => {
                let a = plan.attempts[next];
                let last2 = if plan.records_errors {
                    Some(failure_message(a, outcomes[0]))
                } else {
                    last
                };
                link_result(plan, following(a, next, outcomes[0]), last2, outcomes.drop_first())
            },
        }
    }
}

/// A link ends in success as soon as a command succeeds.
pub proof fn lemma_success_ends_link(plan: PlanView, next: int, last: Option<Seq<char>>, outcomes: Seq<RunOutcome>)
    requires
        0 <= next < plan.attempts.len(),
        outcomes.len() > 0,
        outcomes[0] is Succeeded,
    ensures
        link_result(plan, next, last, outcomes) == Some(Ok::<(), Seq<char>>(())),
{
}

/// When every remaining command runs and fails, the link ends with the
/// plan's final error: around the last failure when the plan remembers
/// failures, around what was remembered before otherwise.
pub proof fn lemma_all_runs_fail(plan: PlanView, next: int, last: Option<Seq<char>>, outcomes: Seq<RunOutcome>)
    requires
        0 <= next < plan.attempts.len(),
        outcomes.len() == plan.attempts.len() - next,
        forall|k: int| 0 <= k < outcomes.len() ==> #[trigger] outcomes[k] is Failed,
    ensures
        link_result(plan, next, last, outcomes) == Some(Err::<(), Seq<char>>(plan.final_error(
            if plan.records_errors {
                Some(failure_message(plan.attempts[plan.attempts.len() - 1], outcomes.last()))
            } else {
                last
            },
        ))),
    decreases outcomes.len(),
{
    let a = plan.attempts[next];
    let last2 = if plan.records_errors {
        Some(failure_message(a, outcomes[0]))
    } else {
        last
    };
    assert(outcomes[0] is Failed);
    assert(following(a, next, outcomes[0]) == next + 1);
    if next + 1 < plan.attempts.len() {
        let rest = outcomes.drop_first();
        assert forall|k: int| 0 <= k < rest.len() implies #[trigger] rest[k] is Failed by {
            assert(rest[k] == outcomes[k + 1]);
        }
        lemma_all_runs_fail(plan, next + 1, last2, rest);
        assert(rest.last() == outcomes.last());
    } else {
        assert(outcomes.len() == 1);
    }
}

impl LinkPlan {
    /// Where a link starts: at the first attempt, with nothing remembered.
    pub fn start(&self) -> (r: (LinkProgress, LinkStep))
        ensures
            r.0.next == 0,
            r.0.last_error is None,
            step_view(r.1) == expected_step(self@, 0, None),
    {
        let progress = LinkProgress { next: 0, last_error: None };
        if self.attempts.len() == 0 {
            let msg = concat(self.error_prefix.as_str(), self.error_suffix.as_str());
            assert(msg@ =~= self@.final_error(None));
            (progress, LinkStep::Finished(Err(msg)))
        } else {
            (progress, LinkStep::Run(0))
        }
    }

    /// Takes in what happened to the attempt `progress.next` and decides
    /// what comes next: a success ends the link; a failure is remembered
    /// (when the plan records failures) and the following attempt is named,
    /// or the link ends with the final error when none is left.
    pub fn advance(&self, progress: &LinkProgress, outcome: &RunOutcome) -> (r: (LinkProgress, LinkStep))
        requires
            self@.wf(),
            progress.next < self.attempts@.len(),
        ensures
            outcome is Succeeded ==> step_view(r.1) == Err::<int, Result<(), Seq<char>>>(Ok(())),
            !(outcome is Succeeded) ==> {
                let a = self@.attempts[progress.next as int];
                let last = if self.records_errors {
                    Some(failure_message(a, *outcome))
                } else {
                    opt_view(progress.last_error)
                };
                &&& r.0.next as int == following(a, progress.next as int, *outcome)
                &&& opt_view(r.0.last_error) == last
                &&& step_view(r.1) == expected_step(self@, r.0.next as int, last)
            },
    {
        let i = progress.next;
        let n = self.attempts.len();
        let a = &self.attempts[i];
        assert(self@.attempts[i as int] == a@);
        let (msg, next) = match outcome {
            RunOutcome::Succeeded => {
                return (progress.clone(), LinkStep::Finished(Ok(())));
            },
            RunOutcome::Failed(stderr) => {
                let m = concat3(a.failure_prefix.as_str(), stderr.as_str(), a.failure_suffix.as_str());
                (m, i + 1)
            },
            RunOutcome::NotStarted(err) => {
                let m = concat(a.spawn_prefix.as_str(), err.as_str());
                (m, a.skip_to)
            },
        };
        assert(msg@ == failure_message(a@, *outcome));
        let last_error = if self.records_errors {
            Some(msg)
        } else {
            match &progress.last_error {
                Some(e) => Some(e.clone()),
                None => None,
            }
        };
        if next < self.attempts.len() {
            (LinkProgress { next, last_error }, LinkStep::Run(next))
        } else {
            let tail = match &last_error {
                Some(e) => e.clone(),
                None => String::new(),
            };
            let m = concat3(self.error_prefix.as_str(), tail.as_str(), self.error_suffix.as_str());
            assert(m@ =~= self@.final_error(opt_view(last_error)));
            (LinkProgress { next, last_error }, LinkStep::Finished(Err(m)))
        }
    }

    /// Plays a whole link against outcomes given in advance, one per
    /// command run; `None` when the outcomes run out before the link ends.
    pub fn run_with(&self, outcomes: &Vec<RunOutcome>) -> (r: Option<Result<(), String>>)
        requires
            self@.wf(),
        ensures
            match r {
                Some(Ok(())) => link_result(self@, 0, None, outcomes@) == Some(Ok::<(), Seq<char>>(())),
                Some(Err(e)) => link_result(self@, 0, None, outcomes@) == Some(Err::<(), Seq<char>>(e@)),
                None => link_result(self@, 0, None, outcomes@) is None,
            },
    {
        let (mut progress, mut step) = self.start();
        let mut k: usize = 0;
        assert(outcomes@.skip(0) =~= outcomes@);
        loop
            invariant
                self@.wf(),
                k <= outcomes@.len(),
                link_result(self@, 0, None, outcomes@) == match step_view(step) {
                    Ok(i) => link_result(self@, i, opt_view(progress.last_error), outcomes@.skip(k as int)),
                    Err(res) => Some(res),
                },
                step_view(step) matches Ok(i) ==> i == progress.next && i < self.attempts@.len(),
            decreases outcomes@.len() - k,
        {
            match step {
                LinkStep::Finished(res) => {
                    return Some(res);
                },
                LinkStep::Run(i) => {
                    if k >= outcomes.len() {
                        assert(outcomes@.skip(k as int).len() == 0);
                        return None;
                    }
                    let outcome = &outcomes[k];
                    assert(outcomes@.skip(k as int)[0] == outcomes@[k as int]);
                    assert(outcomes@.skip(k as int).drop_first() =~= outcomes@.skip(k + 1));
                    let ghost rest = outcomes@.skip(k as int);
                    let ghost last = opt_view(progress.last_error);
                    assert(link_result(self@, i as int, last, rest) == match *outcome {
                        RunOutcome::Succeeded => Some(Ok(())),
                        _ => {
                            let a = self@.attempts[i as int];
                            let last2 = if self@.records_errors {
                                Some(failure_message(a, *outcome))
                            } else {
                                last
                            };
                            link_result(self@, following(a, i as int, *outcome), last2, rest.drop_first())
                        },
                    });
                    let (p2, s2) = self.advance(&progress, outcome);
                    proof {
                        if !(outcome is Succeeded) && p2.next >= self.attempts@.len() {
                            let a = self@.attempts[i as int];
                            let last2 = if self@.records_errors {
                                Some(failure_message(a, *outcome))
                            } else {
                                last
                            };
                            assert(link_result(self@, p2.next as int, last2, rest.drop_first())
                                == Some(Err::<(), Seq<char>>(self@.final_error(last2))));
                        }
                    }
                    progress = p2;
                    step = s2;
                    k = k + 1;
                },
            }
        }
    }
}

} // verus!
