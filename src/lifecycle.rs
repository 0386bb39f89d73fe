use vstd::prelude::*;
use crate::config::{copy_opt, Rule};
use crate::error::TrampError;
use crate::hooks::{build_hook_env, env_entries, env_lookup, exit_code_reaches_hook, HookContext, HookEnv, HookType};
use crate::text::{copy_strings, decimal, views};

verus! {

/// Everything an invocation needs once its rule is known and rewriting is
/// done: what was invoked, what is to run, and the hooks of the rule.
#[derive(Debug)]
pub struct InvocationPlan {
    pub original_binary: String,
    pub original_args: Vec<String>,
    pub cwd: String,
    /// The binary to run after rewriting.
    pub final_binary: String,
    /// The arguments to run after rewriting.
    pub final_args: Vec<String>,
    pub pre_hook: Option<String>,
    pub intercept_hook: Option<String>,
    pub post_hook: Option<String>,
}

/// Where an invocation stands.
#[derive(Debug, Clone, Copy, PartialEq, Eq, Structural)]
pub enum LifecyclePhase {
    /// Nothing has run yet.
    Start,
    /// The pre-hook is running.
    Pre,
    /// The intercept hook is running in place of the command.
    Intercept,
    /// The command is running.
    Command,
    /// The post-hook is running.
    Post,
    /// The invocation is over.
    Done,
}

/// What the caller is asked to do next.
#[derive(Debug)]
pub enum LifecycleAction {
    /// Run the hook script through a shell in the working directory, with
    /// these environment variables.
    RunHook { hook_type: HookType, hook_path: String, env: HookEnv },
    /// Run the command in the working directory with stdio passed through.
    RunCommand { binary: String, args: Vec<String> },
    /// End the invocation with this exit code.
    Exit { code: i32 },
    /// End the invocation with this error.
    Fail { error: TrampError },
}

/// How the last requested action ended.
#[derive(Debug)]
pub enum LifecycleEvent {
    /// The hook ran and exited with this code.
    HookExited { code: i32 },
    /// The hook could not be started.
    HookFailed { message: String },
    /// The command ran; `None` when it ended without an exit code, such as
    /// by a signal.
    CommandExited { code: Option<i32> },
    /// The command could not be started or found.
    CommandFailed { error: TrampError },
}

/// An invocation going through its hook lifecycle: pre-hook, then either
/// the intercept hook or the command, then the post-hook.
#[derive(Debug)]
pub struct Lifecycle {
    plan: InvocationPlan,
    phase: LifecyclePhase,
    exit_code: i32,
}

/// The environment of a hook of the plan in the given phase.
pub open spec fn plan_env(p: InvocationPlan, t: HookType, exit_code: Option<i32>) -> Seq<
    (Seq<char>, Seq<char>),
> {
    env_entries(
        p.original_binary@,
        views(p.original_args@),
        p.cwd@,
        t,
        if t == HookType::Pre {
            None
        } else {
            Some(p.final_binary@)
        },
        if t == HookType::Pre {
            None
        } else {
            Some(views(p.final_args@))
        },
        exit_code,
    )
}

/// `a` asks to run the hook at `path` in phase `t` with environment `env`.
pub open spec fn runs_hook(
    a: LifecycleAction,
    t: HookType,
    path: Seq<char>,
    env: Seq<(Seq<char>, Seq<char>)>,
) -> bool {
    &&& a is RunHook
    &&& a->hook_type == t
    &&& a->hook_path@ == path
    &&& a->env.view() == env
}

/// `a` asks to run the rewritten command of the plan.
pub open spec fn runs_command(a: LifecycleAction, p: InvocationPlan) -> bool {
    a is RunCommand && a->binary == p.final_binary && a->args@ == p.final_args@
}

/// `a` ends the invocation with exit code `code`.
pub open spec fn exits_with(a: LifecycleAction, code: int) -> bool {
    a is Exit && a->code == code
}

/// The step after a successful pre-hook, or the start when there is none:
/// the intercept hook if there is one, otherwise the command.
pub open spec fn after_pre(p: InvocationPlan, phase: LifecyclePhase, a: LifecycleAction) -> bool {
    match p.intercept_hook {
        Some(h) => phase == LifecyclePhase::Intercept && runs_hook(
            a,
            HookType::Intercept,
            h@,
            plan_env(p, HookType::Intercept, None),
        ),
        None => phase == LifecyclePhase::Command && runs_command(a, p),
    }
}

/// The first step: the pre-hook if there is one.
pub open spec fn start_step(p: InvocationPlan, phase: LifecyclePhase, a: LifecycleAction) -> bool {
    match p.pre_hook {
        Some(h) => phase == LifecyclePhase::Pre && runs_hook(
            a,
            HookType::Pre,
            h@,
            plan_env(p, HookType::Pre, None),
        ),
        None => after_pre(p, phase, a),
    }
}

/// The exit code of a command that ran: its own, or 1 when it had none.
pub open spec fn command_exit_code(code: Option<i32>) -> i32 {
    match code {
        Some(c) => c,
        None => 1,
    }
}

/// The events that can answer the action of a phase.
pub open spec fn event_fits(phase: LifecyclePhase, ev: LifecycleEvent) -> bool {
    match phase {
        LifecyclePhase::Pre | LifecyclePhase::Intercept | LifecyclePhase::Post => ev is HookExited
            || ev is HookFailed,
        LifecyclePhase::Command => ev is CommandExited || ev is CommandFailed,
        _ => false,
    }
}

/// `a` reports that the hook at `path` could not be started.
pub open spec fn fails_to_start(a: LifecycleAction, path: Seq<char>, message: String) -> bool {
    &&& a is Fail
    &&& a->error is HookFailed
    &&& a->error->HookFailed_hook_path@ == path
    &&& a->error->HookFailed_message == message
}

/// One step of the lifecycle: from `phase` with stored exit code `code`,
/// the event `ev` leads to `phase2` with stored exit code `code2` and the
/// action `a`.
pub open spec fn step(
    p: InvocationPlan,
    phase: LifecyclePhase,
    code: i32,
    ev: LifecycleEvent,
    phase2: LifecyclePhase,
    code2: i32,
    a: LifecycleAction,
) -> bool {
    match phase {
        LifecyclePhase::Pre => match ev {
            LifecycleEvent::HookExited { code: c } => if c == 0 {
                after_pre(p, phase2, a)
            } else {
                &&& phase2 == LifecyclePhase::Done
                &&& a is Fail
                &&& a->error is HookNonZeroExit
                &&& a->error->HookNonZeroExit_hook_path == p.pre_hook->0
                &&& a->error->exit_code == c
            },
            LifecycleEvent::HookFailed { message } => phase2 == LifecyclePhase::Done
                && fails_to_start(a, p.pre_hook->0@, message),
            _ => false,
        },
        LifecyclePhase::Intercept => match ev {
            LifecycleEvent::HookExited { code: c } => phase2 == LifecyclePhase::Done && exits_with(
                a,
                c as int,
            ),
            LifecycleEvent::HookFailed { message } => phase2 == LifecyclePhase::Done
                && fails_to_start(a, p.intercept_hook->0@, message),
            _ => false,
        },
        LifecyclePhase::Command => match ev {
            LifecycleEvent::CommandExited { code: c } => {
                let ec = command_exit_code(c);
                &&& code2 == ec
                &&& match p.post_hook {
                    Some(h) => phase2 == LifecyclePhase::Post && runs_hook(
                        a,
                        HookType::Post,
                        h@,
                        plan_env(p, HookType::Post, Some(ec)),
                    ),
                    None => phase2 == LifecyclePhase::Done && exits_with(a, ec as int),
                }
            },
            LifecycleEvent::CommandFailed { error } => phase2 == LifecyclePhase::Done && a
                == LifecycleAction::Fail { error },
            _ => false,
        },
        LifecyclePhase::Post => match ev {
            LifecycleEvent::HookExited { .. } | LifecycleEvent::HookFailed { .. } => phase2
                == LifecyclePhase::Done && exits_with(a, code as int),
            _ => false,
        },
        _ => false,
    }
}

impl InvocationPlan {
    /// The plan for an invocation: the hooks come from the matched rule, if
    /// any.
    pub fn new(
        original_binary: &str,
        original_args: &[String],
        cwd: &str,
        rule: Option<&Rule>,
        final_binary: String,
        final_args: Vec<String>,
    ) -> (p: InvocationPlan)
        ensures
            p.original_binary@ == original_binary@,
            p.original_args@ == original_args@,
            p.cwd@ == cwd@,
            p.final_binary == final_binary,
            p.final_args == final_args,
            match rule {
                Some(r) => p.pre_hook == r.pre_hook && p.intercept_hook == r.intercept_hook
                    && p.post_hook == r.post_hook,
                None => p.pre_hook is None && p.intercept_hook is None && p.post_hook is None,
            },
    {
        let (pre_hook, intercept_hook, post_hook) = match rule {
            Some(r) => (copy_opt(&r.pre_hook), copy_opt(&r.intercept_hook), copy_opt(&r.post_hook)),
            None => (None, None, None),
        };
        InvocationPlan {
            original_binary: String::from_str(original_binary),
            original_args: copy_strings(original_args),
            cwd: String::from_str(cwd),
            final_binary,
            final_args,
            pre_hook,
            intercept_hook,
            post_hook,
        }
    }
}

impl Lifecycle {
    /// The plan being carried out.
    pub closed spec fn spec_plan(&self) -> InvocationPlan {
        self.plan
    }

    /// Where the invocation stands.
    pub closed spec fn spec_phase(&self) -> LifecyclePhase {
        self.phase
    }

    /// The exit code of the command, once it has run.
    pub closed spec fn spec_exit_code(&self) -> i32 {
        self.exit_code
    }

    /// A hook phase is only entered when the plan has that hook.
    pub closed spec fn wf(&self) -> bool {
        &&& (self.phase == LifecyclePhase::Pre ==> self.plan.pre_hook is Some)
        &&& (self.phase == LifecyclePhase::Intercept ==> self.plan.intercept_hook is Some)
        &&& (self.phase == LifecyclePhase::Post ==> self.plan.post_hook is Some)
    }

    /// An invocation that has not started.
    pub fn new(plan: InvocationPlan) -> (r: Lifecycle)
        ensures
            r.wf(),
            r.spec_plan() == plan,
            r.spec_phase() == LifecyclePhase::Start,
    {
        Lifecycle { plan, phase: LifecyclePhase::Start, exit_code: 0 }
    }

    /// Where the invocation stands.
    pub fn phase(&self) -> (r: LifecyclePhase)
        ensures
            r == self.spec_phase(),
    {
        self.phase
    }

    /// The plan being carried out.
    pub fn plan(&self) -> (r: &InvocationPlan)
        ensures
            *r == self.spec_plan(),
    {
        &self.plan
    }

    /// The request to run a hook of the plan.
    fn hook_action(&self, t: HookType, path: &String, exit_code: Option<i32>) -> (a: LifecycleAction)
        requires
            t == HookType::Pre ==> exit_code is None,
        ensures
            runs_hook(a, t, path@, plan_env(self.plan, t, exit_code)),
    {
        let is_pre = match t {
            HookType::Pre => true,
            _ => false,
        };
        let ctx = HookContext {
            original_binary: self.plan.original_binary.as_str(),
            original_args: self.plan.original_args.as_slice(),
            cwd: self.plan.cwd.as_str(),
            hook_type: t,
            executed_binary: if is_pre {
                None
            } else {
                Some(self.plan.final_binary.as_str())
            },
            executed_args: if is_pre {
                None
            } else {
                Some(self.plan.final_args.as_slice())
            },
            exit_code,
        };
        let env = build_hook_env(&ctx);
        LifecycleAction::RunHook { hook_type: t, hook_path: path.clone(), env }
    }

    /// Moves on after a successful pre-hook, or when there is none.
    fn leave_pre(&mut self) -> (a: LifecycleAction)
        ensures
            final(self).wf(),
            final(self).plan == old(self).plan,
            final(self).exit_code == old(self).exit_code,
            after_pre(final(self).plan, final(self).phase, a),
    {
        match &self.plan.intercept_hook {
            Some(h) => {
                let a = self.hook_action(HookType::Intercept, h, None);
                self.phase = LifecyclePhase::Intercept;
                a
            },
            None => {
                self.phase = LifecyclePhase::Command;
                LifecycleAction::RunCommand {
                    binary: self.plan.final_binary.clone(),
                    args: copy_strings(self.plan.final_args.as_slice()),
                }
            },
        }
    }

    /// Starts the invocation: asks for the pre-hook, or else for the
    /// intercept hook, or else for the command.
    pub fn start(&mut self) -> (a: LifecycleAction)
        requires
            old(self).wf(),
            old(self).spec_phase() == LifecyclePhase::Start,
        ensures
            final(self).wf(),
            final(self).spec_plan() == old(self).spec_plan(),
            start_step(final(self).spec_plan(), final(self).spec_phase(), a),
    {
        match &self.plan.pre_hook {
            Some(h) => {
                let a = self.hook_action(HookType::Pre, h, None);
                self.phase = LifecyclePhase::Pre;
                a
            },
            None => self.leave_pre(),
        }
    }

    /// Takes in how the last requested action ended and says what comes
    /// next.
    pub fn advance(&mut self, event: LifecycleEvent) -> (a: LifecycleAction)
        requires
            old(self).wf(),
            event_fits(old(self).spec_phase(), event),
        ensures
            final(self).wf(),
            final(self).spec_plan() == old(self).spec_plan(),
            step(
                old(self).spec_plan(),
                old(self).spec_phase(),
                old(self).spec_exit_code(),
                event,
                final(self).spec_phase(),
                final(self).spec_exit_code(),
                a,
            ),
    {
        match self.phase {
            LifecyclePhase::Pre => match event {
                LifecycleEvent::HookExited { code } => {
                    if code == 0 {
                        self.leave_pre()
                    } else {
                        self.phase = LifecyclePhase::Done;
                        let hook_path = match &self.plan.pre_hook {
                            Some(h) => h.clone(),
                            None => unreached(),
                        };
                        LifecycleAction::Fail {
                            error: TrampError::HookNonZeroExit { hook_path, exit_code: code },
                        }
                    }
                },
                LifecycleEvent::HookFailed { message } => {
                    self.phase = LifecyclePhase::Done;
                    let hook_path = match &self.plan.pre_hook {
                        Some(h) => h.clone(),
                        None => unreached(),
                    };
                    LifecycleAction::Fail { error: TrampError::HookFailed { hook_path, message } }
                },
                _ => unreached(),
            },
            LifecyclePhase::Intercept => match event {
                LifecycleEvent::HookExited { code } => {
                    self.phase = LifecyclePhase::Done;
                    LifecycleAction::Exit { code }
                },
                LifecycleEvent::HookFailed { message } => {
                    self.phase = LifecyclePhase::Done;
                    let hook_path = match &self.plan.intercept_hook {
                        Some(h) => h.clone(),
                        None => unreached(),
                    };
                    LifecycleAction::Fail { error: TrampError::HookFailed { hook_path, message } }
                },
                _ => unreached(),
            },
            LifecyclePhase::Command => match event {
                LifecycleEvent::CommandExited { code } => {
                    let ec = match code {
                        Some(c) => c,
                        None => 1,
                    };
                    self.exit_code = ec;
                    match &self.plan.post_hook {
                        Some(h) => {
                            let a = self.hook_action(HookType::Post, h, Some(ec));
                            self.phase = LifecyclePhase::Post;
                            a
                        },
                        None => {
                            self.phase = LifecyclePhase::Done;
                            LifecycleAction::Exit { code: ec }
                        },
                    }
                },
                LifecycleEvent::CommandFailed { error } => {
                    self.phase = LifecyclePhase::Done;
                    LifecycleAction::Fail { error }
                },
                _ => unreached(),
            },
            LifecyclePhase::Post => {
                self.phase = LifecyclePhase::Done;
                LifecycleAction::Exit { code: self.exit_code }
            },
            _ => unreached(),
        }
    }
}

/// Once an invocation is over, no event is awaited and nothing more runs.
pub open spec fn over(phase: LifecyclePhase) -> bool {
    phase == LifecyclePhase::Done && forall|ev: LifecycleEvent| !event_fits(phase, ev)
}

/// A pre-hook that exits non-zero, or cannot be started, ends the
/// invocation with an error; the command never runs.
pub proof fn failing_pre_hook_prevents_command(
    p: InvocationPlan,
    code: i32,
    ev: LifecycleEvent,
    phase2: LifecyclePhase,
    code2: i32,
    a: LifecycleAction,
)
    requires
        step(p, LifecyclePhase::Pre, code, ev, phase2, code2, a),
        (ev is HookExited && ev->HookExited_code != 0) || ev is HookFailed,
    ensures
        a is Fail,
        over(phase2),
{
}

/// With an intercept hook, the command is never asked for: the intercept
/// hook runs in its place, and its exit code becomes the invocation's exit
/// code exactly.
pub proof fn intercept_hook_decides_exit_code(
    p: InvocationPlan,
    phase1: LifecyclePhase,
    a1: LifecycleAction,
    code: i32,
    c: i32,
    phase2: LifecyclePhase,
    code2: i32,
    a2: LifecycleAction,
)
    requires
        p.intercept_hook is Some,
        after_pre(p, phase1, a1),
        step(p, phase1, code, LifecycleEvent::HookExited { code: c }, phase2, code2, a2),
    ensures
        a1 is RunHook && a1->hook_type == HookType::Intercept,
        exits_with(a2, c as int),
        over(phase2),
{
}

/// The post-hook receives the command's exit code as `TRAMP_EXIT_CODE`,
/// and however the post-hook ends, the invocation ends with the command's
/// exit code.
pub proof fn post_hook_sees_and_keeps_exit_code(
    p: InvocationPlan,
    code: i32,
    c: Option<i32>,
    phase1: LifecyclePhase,
    code1: i32,
    a1: LifecycleAction,
    ev: LifecycleEvent,
    phase2: LifecyclePhase,
    code2: i32,
    a2: LifecycleAction,
)
    requires
        p.post_hook is Some,
        step(
            p,
            LifecyclePhase::Command,
            code,
            LifecycleEvent::CommandExited { code: c },
            phase1,
            code1,
            a1,
        ),
        event_fits(phase1, ev),
        step(p, phase1, code1, ev, phase2, code2, a2),
    ensures
        a1 is RunHook && a1->hook_type == HookType::Post,
        env_lookup(a1->env.view(), "TRAMP_EXIT_CODE"@) == Some(
            decimal(command_exit_code(c) as int),
        ),
        exits_with(a2, command_exit_code(c) as int),
        over(phase2),
{
    exit_code_reaches_hook(
        p.original_binary@,
        views(p.original_args@),
        p.cwd@,
        HookType::Post,
        Some(p.final_binary@),
        Some(views(p.final_args@)),
        command_exit_code(c),
    );
}

/// Without a post-hook, the command's own exit code is the invocation's
/// exit code.
pub proof fn command_exit_code_propagates(
    p: InvocationPlan,
    code: i32,
    c: Option<i32>,
    phase1: LifecyclePhase,
    code1: i32,
    a1: LifecycleAction,
)
    requires
        p.post_hook is None,
        step(
            p,
            LifecyclePhase::Command,
            code,
            LifecycleEvent::CommandExited { code: c },
            phase1,
            code1,
            a1,
        ),
    ensures
        exits_with(a1, command_exit_code(c) as int),
        over(phase1),
{
}

} // verus!
