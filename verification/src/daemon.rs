//! Restarting the wallpaper daemons: what a `killall` report means, and the
//! order of kills, pauses and checks, as a machine that the caller drives.
use vstd::prelude::*;

use crate::text::{has_substring, str_contains};

verus! {

/// What `killall` prints when no process of that name runs.
pub open spec fn no_match_text() -> Seq<char> {
    "No matching processes belonging to you were found"@
}

/// How a `killall -TERM <name>` run ended.
#[derive(Debug, Clone, PartialEq, Eq)]
pub enum KillReport {
    /// The command could not be run; holds the reason.
    NotLaunched(String),
    /// The command ran; whether it succeeded, and what it wrote to stderr.
    Exited { success: bool, stderr: String },
}

/// A kill report as a value of the specification.
pub enum KillReportModel {
    NotLaunched(Seq<char>),
    Exited { success: bool, stderr: Seq<char> },
}

impl View for KillReport {
    type V = KillReportModel;

    open spec fn view(&self) -> KillReportModel {
        match self {
            KillReport::NotLaunched(m) => KillReportModel::NotLaunched(m@),
            KillReport::Exited { success, stderr } => KillReportModel::Exited {
                success: *success,
                stderr: stderr@,
            },
        }
    }
}

/// Why signalling a daemon failed.
#[derive(Debug, Clone, PartialEq, Eq)]
pub enum DaemonError {
    /// `killall` could not be run; holds the reason.
    Launch(String),
    /// `killall` failed for another reason than the process not running.
    KillFailed { name: String, stderr: String },
}

/// A daemon error as a value of the specification.
pub enum DaemonErrorModel {
    Launch(Seq<char>),
    KillFailed { name: Seq<char>, stderr: Seq<char> },
}

impl View for DaemonError {
    type V = DaemonErrorModel;

    open spec fn view(&self) -> DaemonErrorModel {
        match self {
            DaemonError::Launch(m) => DaemonErrorModel::Launch(m@),
            DaemonError::KillFailed { name, stderr } => DaemonErrorModel::KillFailed {
                name: name@,
                stderr: stderr@,
            },
        }
    }
}

/// The text shown for a daemon error.
pub open spec fn daemon_error_text(e: DaemonErrorModel) -> Seq<char> {
    match e {
        DaemonErrorModel::Launch(m) => m,
        DaemonErrorModel::KillFailed { name, stderr } => "Failed to kill "@ + name + ": "@ + stderr,
    }
}

impl DaemonError {
    /// The message that tells the user what went wrong.
    pub fn message(&self) -> (r: String)
        ensures
            r@ == daemon_error_text(self@),
    {
        match self {
            DaemonError::Launch(m) => m.clone(),
            DaemonError::KillFailed { name, stderr } => {
                let mut r = String::from_str("Failed to kill ");
                r.append(name.as_str());
                r.append(": ");
                r.append(stderr.as_str());
                r
            },
        }
    }

    /// An equal copy of this error.
    pub fn duplicate(&self) -> (r: DaemonError)
        ensures
            r@ == self@,
    {
        match self {
            DaemonError::Launch(m) => DaemonError::Launch(m.clone()),
            DaemonError::KillFailed { name, stderr } => DaemonError::KillFailed {
                name: name.clone(),
                stderr: stderr.clone(),
            },
        }
    }
}

/// What a kill of `name` came to: a success, or a failure whose only cause
/// is that the process was not running, is fine; anything else is an error.
pub open spec fn kill_result(name: Seq<char>, report: KillReportModel) -> Result<(), DaemonErrorModel> {
    match report {
        KillReportModel::NotLaunched(m) => Err(DaemonErrorModel::Launch(m)),
        KillReportModel::Exited { success, stderr } => if success || has_substring(
            stderr,
            no_match_text(),
        ) {
            Ok(())
        } else {
            Err(DaemonErrorModel::KillFailed { name, stderr })
        },
    }
}

/// A kill result as a value of the specification.
pub open spec fn kill_result_model(r: Result<(), DaemonError>) -> Result<(), DaemonErrorModel> {
    match r {
        Ok(()) => Ok(()),
        Err(e) => Err(e@),
    }
}

/// Where a daemon restart stands.
#[derive(Debug, Clone, Copy, PartialEq, Eq)]
pub enum RestartStep {
    Begin,
    Announced,
    KillingRenderer,
    FirstPause,
    KillingAgent,
    SecondPause,
    /// Asking whether the renderer runs; `late` after the extra pause.
    CheckingRenderer { late: bool },
    /// Asking whether the agent runs; `late` after the extra pause.
    CheckingAgent { late: bool },
    ExtraPause,
    Closing,
    Finished,
    Failed,
}

/// What the caller is asked to do next.
#[derive(Debug, PartialEq, Eq)]
pub enum RestartAction {
    /// Print this line.
    Say(String),
    /// Run `killall -TERM` on this process and report how it ended.
    Kill(String),
    /// Wait this many seconds.
    Sleep(u64),
    /// Tell whether a process of this name runs (`pgrep`).
    Check(String),
    /// The restart is over, with this result.
    Done(Result<(), DaemonError>),
}

/// An action as a value of the specification.
pub enum ActionModel {
    Say(Seq<char>),
    Kill(Seq<char>),
    Sleep(u64),
    Check(Seq<char>),
    Done(Result<(), DaemonErrorModel>),
}

impl View for RestartAction {
    type V = ActionModel;

    open spec fn view(&self) -> ActionModel {
        match self {
            RestartAction::Say(s) => ActionModel::Say(s@),
            RestartAction::Kill(s) => ActionModel::Kill(s@),
            RestartAction::Sleep(n) => ActionModel::Sleep(*n),
            RestartAction::Check(s) => ActionModel::Check(s@),
            RestartAction::Done(r) => ActionModel::Done(kill_result_model(*r)),
        }
    }
}

/// What the caller reports back after doing an action.
#[derive(Debug, Clone, PartialEq, Eq)]
pub enum RestartEvent {
    /// Nothing to report (the first call, after printing, after waiting).
    Proceed,
    /// How the requested kill ended.
    Killed(KillReport),
    /// Whether the requested process runs.
    Running(bool),
}

/// An event as a value of the specification.
pub enum EventModel {
    Proceed,
    Killed(KillReportModel),
    Running(bool),
}

impl View for RestartEvent {
    type V = EventModel;

    open spec fn view(&self) -> EventModel {
        match self {
            RestartEvent::Proceed => EventModel::Proceed,
            RestartEvent::Killed(r) => EventModel::Killed(r@),
            RestartEvent::Running(b) => EventModel::Running(*b),
        }
    }
}

/// A restart of the renderer and the agent daemon, step by step.
#[derive(Debug, Clone, PartialEq, Eq)]
pub struct DaemonRestart {
    pub renderer: String,
    pub agent: String,
    pub step: RestartStep,
    /// The error that ended the restart, once it failed.
    pub failure: Option<DaemonError>,
}

/// The line printed when the restart starts.
pub open spec fn announce_text(renderer: Seq<char>, agent: Seq<char>) -> Seq<char> {
    "Restarting daemons: "@ + renderer + " and "@ + agent
}

/// The line printed when both daemons run again.
pub open spec fn success_text(late: bool) -> Seq<char> {
    if late {
        "Daemons restarted successfully (delayed)."@
    } else {
        "Daemons restarted successfully."@
    }
}

/// The line printed when the daemons have not come back in time.
pub open spec fn warning_text() -> Seq<char> {
    "Warning: Daemons did not reappear immediately, but launchd should restart them."@
}

/// The next step and action of a restart of `renderer` and `agent` that
/// stands at `step`, given the event that answers the last action. An event
/// that does not answer the pending kill or check asks for it again.
pub open spec fn transition(
    renderer: Seq<char>,
    agent: Seq<char>,
    step: RestartStep,
    failure: Option<DaemonErrorModel>,
    event: EventModel,
) -> (RestartStep, ActionModel) {
    match step {
        RestartStep::Begin => (RestartStep::Announced, ActionModel::Say(announce_text(renderer, agent))),
        RestartStep::Announced => (RestartStep::KillingRenderer, ActionModel::Kill(renderer)),
        RestartStep::KillingRenderer => match event {
            EventModel::Killed(r) => match kill_result(renderer, r) {
                Ok(()) => (RestartStep::FirstPause, ActionModel::Sleep(1)),
                Err(e) => (RestartStep::Failed, ActionModel::Done(Err(e))),
            },
            _ => (RestartStep::KillingRenderer, ActionModel::Kill(renderer)),
        },
        RestartStep::FirstPause => (RestartStep::KillingAgent, ActionModel::Kill(agent)),
        RestartStep::KillingAgent => match event {
            EventModel::Killed(r) => match kill_result(agent, r) {
                Ok(()) => (RestartStep::SecondPause, ActionModel::Sleep(1)),
                Err(e) => (RestartStep::Failed, ActionModel::Done(Err(e))),
            },
            _ => (RestartStep::KillingAgent, ActionModel::Kill(agent)),
        },
        RestartStep::SecondPause => (
            RestartStep::CheckingRenderer { late: false },
            ActionModel::Check(renderer),
        ),
        RestartStep::CheckingRenderer { late } => match event {
            EventModel::Running(true) => (
                RestartStep::CheckingAgent { late },
                ActionModel::Check(agent),
            ),
            EventModel::Running(false) => not_back(late),
            _ => (RestartStep::CheckingRenderer { late }, ActionModel::Check(renderer)),
        },
        RestartStep::CheckingAgent { late } => match event {
            EventModel::Running(true) => (RestartStep::Closing, ActionModel::Say(success_text(late))),
            EventModel::Running(false) => not_back(late),
            _ => (RestartStep::CheckingAgent { late }, ActionModel::Check(agent)),
        },
        RestartStep::ExtraPause => (
            RestartStep::CheckingRenderer { late: true },
            ActionModel::Check(renderer),
        ),
        RestartStep::Closing => (RestartStep::Finished, ActionModel::Done(Ok(()))),
        RestartStep::Finished => (RestartStep::Finished, ActionModel::Done(Ok(()))),
        RestartStep::Failed => (
            RestartStep::Failed,
            ActionModel::Done(
                match failure {
                    Some(e) => Err(e),
                    None => Ok(()),
                },
            ),
        ),
    }
}

/// A daemon was found not running: the first time, wait two more seconds;
/// after that, warn and finish (launchd restarts them in the end).
pub open spec fn not_back(late: bool) -> (RestartStep, ActionModel) {
    if late {
        (RestartStep::Closing, ActionModel::Say(warning_text()))
    } else {
        (RestartStep::ExtraPause, ActionModel::Sleep(2))
    }
}

/// An optional error as an optional value of the specification.
pub open spec fn failure_model(f: Option<DaemonError>) -> Option<DaemonErrorModel> {
    match f {
        Some(e) => Some(e@),
        None => None,
    }
}

/// Signals the wallpaper daemons so that launchd starts them afresh.
pub struct DaemonManager;

impl DaemonManager {
    /// A restart of `renderer` and then `agent`, not yet begun.
    pub fn restart_daemons(renderer: &str, agent: &str) -> (r: DaemonRestart)
        ensures
            r.renderer@ == renderer@,
            r.agent@ == agent@,
            r.step == RestartStep::Begin,
            r.failure is None,
    {
        DaemonRestart {
            renderer: String::from_str(renderer),
            agent: String::from_str(agent),
            step: RestartStep::Begin,
            failure: None,
        }
    }

    /// What the report of a kill of `name` comes to.
    pub fn kill_process(name: &str, report: &KillReport) -> (r: Result<(), DaemonError>)
        ensures
            kill_result_model(r) == kill_result(name@, report@),
    {
        match report {
            KillReport::NotLaunched(m) => Err(DaemonError::Launch(m.clone())),
            KillReport::Exited { success, stderr } => {
                if *success {
                    Ok(())
                } else if str_contains(
                    stderr.as_str(),
                    "No matching processes belonging to you were found",
                ) {
                    Ok(())
                } else {
                    Err(
                        DaemonError::KillFailed {
                            name: String::from_str(name),
                            stderr: stderr.clone(),
                        },
                    )
                }
            },
        }
    }
}

impl DaemonRestart {
    /// Takes the event that answers the last action and gives the next action.
    pub fn next(&mut self, event: &RestartEvent) -> (action: RestartAction)
        ensures
            final(self).renderer == old(self).renderer,
            final(self).agent == old(self).agent,
            (final(self).step, action@) == transition(
                old(self).renderer@,
                old(self).agent@,
                old(self).step,
                failure_model(old(self).failure),
                event@,
            ),
            old(self).step != RestartStep::Failed && final(self).step == RestartStep::Failed ==> (action@ matches ActionModel::Done(Err(e))
                && failure_model(final(self).failure) == Some(e)),
            old(self).step != RestartStep::Failed && final(self).step != RestartStep::Failed
                ==> final(self).failure == old(self).failure,
    {
        match self.step {
            RestartStep::Begin => {
                self.step = RestartStep::Announced;
                let mut line = String::from_str("Restarting daemons: ");
                line.append(self.renderer.as_str());
                line.append(" and ");
                line.append(self.agent.as_str());
                RestartAction::Say(line)
            },
            RestartStep::Announced => {
                self.step = RestartStep::KillingRenderer;
                RestartAction::Kill(self.renderer.clone())
            },
            RestartStep::KillingRenderer => match event {
                RestartEvent::Killed(report) => match DaemonManager::kill_process(
                    self.renderer.as_str(),
                    report,
                ) {
                    Ok(()) => {
                        self.step = RestartStep::FirstPause;
                        RestartAction::Sleep(1)
                    },
                    Err(e) => self.fail(e),
                },
                _ => RestartAction::Kill(self.renderer.clone()),
            },
            RestartStep::FirstPause => {
                self.step = RestartStep::KillingAgent;
                RestartAction::Kill(self.agent.clone())
            },
            RestartStep::KillingAgent => match event {
                RestartEvent::Killed(report) => match DaemonManager::kill_process(
                    self.agent.as_str(),
                    report,
                ) {
                    Ok(()) => {
                        self.step = RestartStep::SecondPause;
                        RestartAction::Sleep(1)
                    },
                    Err(e) => self.fail(e),
                },
                _ => RestartAction::Kill(self.agent.clone()),
            },
            RestartStep::SecondPause => {
                self.step = RestartStep::CheckingRenderer { late: false };
                RestartAction::Check(self.renderer.clone())
            },
            RestartStep::CheckingRenderer { late } => match event {
                RestartEvent::Running(true) => {
                    self.step = RestartStep::CheckingAgent { late };
                    RestartAction::Check(self.agent.clone())
                },
                RestartEvent::Running(false) => self.not_back(late),
                _ => RestartAction::Check(self.renderer.clone()),
            },
            RestartStep::CheckingAgent { late } => match event {
                RestartEvent::Running(true) => {
                    self.step = RestartStep::Closing;
                    if late {
                        RestartAction::Say(
                            String::from_str("Daemons restarted successfully (delayed)."),
                        )
                    } else {
                        RestartAction::Say(String::from_str("Daemons restarted successfully."))
                    }
                },
                RestartEvent::Running(false) => self.not_back(late),
                _ => RestartAction::Check(self.agent.clone()),
            },
            RestartStep::ExtraPause => {
                self.step = RestartStep::CheckingRenderer { late: true };
                RestartAction::Check(self.renderer.clone())
            },
            RestartStep::Closing => {
                self.step = RestartStep::Finished;
                RestartAction::Done(Ok(()))
            },
            RestartStep::Finished => RestartAction::Done(Ok(())),
            RestartStep::Failed => match &self.failure {
                Some(e) => RestartAction::Done(Err(e.duplicate())),
                None => RestartAction::Done(Ok(())),
            },
        }
    }

    fn fail(&mut self, e: DaemonError) -> (action: RestartAction)
        ensures
            final(self).renderer == old(self).renderer,
            final(self).agent == old(self).agent,
            final(self).step == RestartStep::Failed,
            failure_model(final(self).failure) == Some(e@),
            action@ == ActionModel::Done(Err(e@)),
    {
        let copy = e.duplicate();
        self.step = RestartStep::Failed;
        self.failure = Some(e);
        RestartAction::Done(Err(copy))
    }

    fn not_back(&mut self, late: bool) -> (action: RestartAction)
        ensures
            final(self).renderer == old(self).renderer,
            final(self).agent == old(self).agent,
            final(self).failure == old(self).failure,
            (final(self).step, action@) == not_back(late),
    {
        if late {
            self.step = RestartStep::Closing;
            RestartAction::Say(
                String::from_str(
                    "Warning: Daemons did not reappear immediately, but launchd should restart them.",
                ),
            )
        } else {
            self.step = RestartStep::ExtraPause;
            RestartAction::Sleep(2)
        }
    }
}

/// The steps after both kills went through.
pub open spec fn after_kills(step: RestartStep) -> bool {
    ||| step == RestartStep::SecondPause
    ||| step is CheckingRenderer
    ||| step is CheckingAgent
    ||| step == RestartStep::ExtraPause
    ||| step == RestartStep::Closing
    ||| step == RestartStep::Finished
}

/// Once both daemons have been signalled, the restart cannot fail: whether
/// or not they are seen running again, every later step stays among these
/// steps and never ends in an error.
pub proof fn law_checks_never_fail(
    renderer: Seq<char>,
    agent: Seq<char>,
    step: RestartStep,
    failure: Option<DaemonErrorModel>,
    event: EventModel,
)
    requires
        after_kills(step),
    ensures
        after_kills(transition(renderer, agent, step, failure, event).0),
        !(transition(renderer, agent, step, failure, event).1 matches ActionModel::Done(Err(_))),
{
}

/// A failed kill of either daemon ends the restart with that failure.
pub proof fn law_kill_failure_is_fatal(
    renderer: Seq<char>,
    agent: Seq<char>,
    step: RestartStep,
    failure: Option<DaemonErrorModel>,
    report: KillReportModel,
)
    requires
        step == RestartStep::KillingRenderer || step == RestartStep::KillingAgent,
        kill_result(
            if step == RestartStep::KillingRenderer {
                renderer
            } else {
                agent
            },
            report,
        ) is Err,
    ensures
        transition(renderer, agent, step, failure, EventModel::Killed(report)) == (
            RestartStep::Failed,
            ActionModel::Done(
                kill_result(
                    if step == RestartStep::KillingRenderer {
                        renderer
                    } else {
                        agent
                    },
                    report,
                ),
            ),
        ),
{
}

/// How many answered actions a restart at `step` still has ahead of it.
pub open spec fn steps_left(step: RestartStep) -> nat {
    match step {
        RestartStep::Begin => 12,
        RestartStep::Announced => 11,
        RestartStep::KillingRenderer => 10,
        RestartStep::FirstPause => 9,
        RestartStep::KillingAgent => 8,
        RestartStep::SecondPause => 7,
        RestartStep::CheckingRenderer { late } => if late {
            3
        } else {
            6
        },
        RestartStep::CheckingAgent { late } => if late {
            2
        } else {
            5
        },
        RestartStep::ExtraPause => 4,
        RestartStep::Closing => 1,
        RestartStep::Finished => 0,
        RestartStep::Failed => 0,
    }
}

/// The event answers the action that a restart at `step` asked for.
pub open spec fn answers(step: RestartStep, event: EventModel) -> bool {
    match step {
        RestartStep::KillingRenderer | RestartStep::KillingAgent => event is Killed,
        RestartStep::CheckingRenderer { .. } | RestartStep::CheckingAgent { .. } => event is Running,
        _ => true,
    }
}

/// Every answered action brings the restart closer to its end, and a
/// finished restart only reports that it is done: the restart terminates.
pub proof fn law_restart_terminates(
    renderer: Seq<char>,
    agent: Seq<char>,
    step: RestartStep,
    failure: Option<DaemonErrorModel>,
    event: EventModel,
)
    requires
        answers(step, event),
    ensures
        steps_left(step) > 0 ==> steps_left(transition(renderer, agent, step, failure, event).0)
            < steps_left(step),
        steps_left(step) == 0 ==> transition(renderer, agent, step, failure, event).1 is Done,
{
}

/// A restart announces itself, signals the renderer, pauses a second,
/// signals the agent, pauses a second and then checks on the renderer, in
/// that order, whenever both kills go through.
pub proof fn law_signal_order(
    renderer: Seq<char>,
    agent: Seq<char>,
    failure: Option<DaemonErrorModel>,
    renderer_report: KillReportModel,
    agent_report: KillReportModel,
)
    requires
        kill_result(renderer, renderer_report) is Ok,
        kill_result(agent, agent_report) is Ok,
    ensures
        ({
            let t1 = transition(renderer, agent, RestartStep::Begin, failure, EventModel::Proceed);
            let t2 = transition(renderer, agent, t1.0, failure, EventModel::Proceed);
            let t3 = transition(renderer, agent, t2.0, failure, EventModel::Killed(renderer_report));
            let t4 = transition(renderer, agent, t3.0, failure, EventModel::Proceed);
            let t5 = transition(renderer, agent, t4.0, failure, EventModel::Killed(agent_report));
            let t6 = transition(renderer, agent, t5.0, failure, EventModel::Proceed);
            &&& t1.1 == ActionModel::Say(announce_text(renderer, agent))
            &&& t2.1 == ActionModel::Kill(renderer)
            &&& t3.1 == ActionModel::Sleep(1)
            &&& t4.1 == ActionModel::Kill(agent)
            &&& t5.1 == ActionModel::Sleep(1)
            &&& t6.1 == ActionModel::Check(renderer)
            &&& after_kills(t6.0)
        }),
{
}

/// Success is reported only when both daemons were seen running: a success
/// line is said only on the answer that the agent runs, and the agent is
/// asked about only after the renderer was seen running. A daemon seen not
/// running the first time brings a pause of two seconds and a second round
/// of checks; seen not running in that second round, it brings the warning,
/// never a success line.
pub proof fn law_success_only_when_both_back(
    renderer: Seq<char>,
    agent: Seq<char>,
    step: RestartStep,
    failure: Option<DaemonErrorModel>,
    event: EventModel,
)
    ensures
        ({
            let t = transition(renderer, agent, step, failure, event);
            &&& (t.1 == ActionModel::Say(success_text(true)) || t.1 == ActionModel::Say(
                success_text(false),
            )) ==> step is CheckingAgent && event == EventModel::Running(true)
            &&& t.1 == ActionModel::Say(success_text(true)) ==> step == (RestartStep::CheckingAgent {
                late: true,
            })
            &&& t.0 is CheckingAgent && !(step is CheckingAgent) ==> step is CheckingRenderer
                && event == EventModel::Running(true)
            &&& (step is CheckingRenderer || step is CheckingAgent) && event == EventModel::Running(
                false,
            ) ==> if step == (RestartStep::CheckingRenderer { late: true }) || step == (
                RestartStep::CheckingAgent { late: true }
            ) {
                t == (RestartStep::Closing, ActionModel::Say(warning_text()))
            } else {
                t == (RestartStep::ExtraPause, ActionModel::Sleep(2))
            }
        }),
{
    reveal_strlit("Daemons restarted successfully (delayed).");
    reveal_strlit("Daemons restarted successfully.");
    reveal_strlit("Restarting daemons: ");
    reveal_strlit("Warning: Daemons did not reappear immediately, but launchd should restart them.");
    assert(success_text(true) != success_text(false)) by {
        assert(success_text(true).len() != success_text(false).len());
    }
    assert(announce_text(renderer, agent)[0] == 'R');
    assert(announce_text(renderer, agent) != success_text(true)) by {
        assert(success_text(true)[0] == 'D');
    }
    assert(announce_text(renderer, agent) != success_text(false)) by {
        assert(success_text(false)[0] == 'D');
    }
    assert(warning_text() != success_text(true)) by {
        assert(warning_text()[0] == 'W');
        assert(success_text(true)[0] == 'D');
    }
    assert(warning_text() != success_text(false)) by {
        assert(warning_text()[0] == 'W');
        assert(success_text(false)[0] == 'D');
    }
}

} // verus!
