use vstd::prelude::*;
use crate::text::{digits, decimal, format_int, format_nat, join_spaced, join_spaced_strings, views};

verus! {

/// The phase a hook runs in.
#[derive(Debug, Clone, Copy, PartialEq, Eq, Structural)]
pub enum HookType {
    Pre,
    Post,
    Intercept,
}

/// The name of a phase, as handed to hook scripts.
pub open spec fn hook_type_name(t: HookType) -> Seq<char> {
    match t {
        HookType::Pre => "pre"@,
        HookType::Post => "post"@,
        HookType::Intercept => "intercept"@,
    }
}

impl HookType {
    /// The name of the phase: `pre`, `post` or `intercept`.
    pub fn as_str(&self) -> (r: &'static str)
        ensures
            r@ == hook_type_name(*self),
    {
        match self {
            HookType::Pre => "pre",
            HookType::Post => "post",
            HookType::Intercept => "intercept",
        }
    }
}

/// What a hook is told about the invocation.
#[derive(Debug)]
pub struct HookContext<'a> {
    /// The binary that was invoked.
    pub original_binary: &'a str,
    /// The arguments it was invoked with.
    pub original_args: &'a [String],
    /// The working directory.
    pub cwd: &'a str,
    /// The phase.
    pub hook_type: HookType,
    /// The binary that runs or ran after rewriting (post and intercept).
    pub executed_binary: Option<&'a str>,
    /// The arguments that run or ran after rewriting (post and intercept).
    pub executed_args: Option<&'a [String]>,
    /// The exit code of the command (post only).
    pub exit_code: Option<i32>,
}

/// Environment variables for a hook, in the order they were set. A name set
/// twice takes its last value.
#[derive(Debug)]
pub struct HookEnv {
    pub entries: Vec<(String, String)>,
}

/// The views of name/value pairs.
pub open spec fn entry_views(e: Seq<(String, String)>) -> Seq<(Seq<char>, Seq<char>)> {
    e.map_values(|p: (String, String)| (p.0@, p.1@))
}

/// The value of `key` among the entries: the last one set.
pub open spec fn env_lookup(e: Seq<(Seq<char>, Seq<char>)>, key: Seq<char>) -> Option<Seq<char>>
    decreases e.len(),
{
    if e.len() == 0 {
        None
    } else if e.last().0 == key {
        Some(e.last().1)
    } else {
        env_lookup(e.drop_last(), key)
    }
}

/// One variable per original argument, `TRAMP_ORIGINAL_ARG_<i>`, indexed
/// from 0.
pub open spec fn arg_entries(args: Seq<Seq<char>>) -> Seq<(Seq<char>, Seq<char>)> {
    Seq::new(args.len(), |i: int| ("TRAMP_ORIGINAL_ARG_"@ + digits(i as nat), args[i]))
}

/// The environment built for a hook: original binary, joined arguments,
/// argument count, each argument, working directory and phase; then the
/// executed binary and arguments, and the exit code, where they are given.
pub open spec fn env_entries(
    original_binary: Seq<char>,
    original_args: Seq<Seq<char>>,
    cwd: Seq<char>,
    hook_type: HookType,
    executed_binary: Option<Seq<char>>,
    executed_args: Option<Seq<Seq<char>>>,
    exit_code: Option<i32>,
) -> Seq<(Seq<char>, Seq<char>)> {
    seq![
        ("TRAMP_ORIGINAL_BINARY"@, original_binary),
        ("TRAMP_ORIGINAL_ARGS"@, join_spaced(original_args)),
        ("TRAMP_ORIGINAL_ARGC"@, digits(original_args.len())),
    ] + arg_entries(original_args) + seq![
        ("TRAMP_CWD"@, cwd),
        ("TRAMP_HOOK_TYPE"@, hook_type_name(hook_type)),
    ] + env_tail(executed_binary, executed_args, exit_code)
}

/// The variables that only some phases receive.
pub open spec fn env_tail(
    executed_binary: Option<Seq<char>>,
    executed_args: Option<Seq<Seq<char>>>,
    exit_code: Option<i32>,
) -> Seq<(Seq<char>, Seq<char>)> {
    (match executed_binary {
        Some(b) => seq![("TRAMP_EXECUTED_BINARY"@, b)],
        None => Seq::empty(),
    }) + (match executed_args {
        Some(a) => seq![("TRAMP_EXECUTED_ARGS"@, join_spaced(a))],
        None => Seq::empty(),
    }) + (match exit_code {
        Some(c) => seq![("TRAMP_EXIT_CODE"@, decimal(c as int))],
        None => Seq::empty(),
    })
}

/// The environment built for the hook described by `ctx`.
pub open spec fn hook_env_entries(ctx: HookContext) -> Seq<(Seq<char>, Seq<char>)> {
    env_entries(
        ctx.original_binary@,
        views(ctx.original_args@),
        ctx.cwd@,
        ctx.hook_type,
        match ctx.executed_binary {
            Some(b) => Some(b@),
            None => None,
        },
        match ctx.executed_args {
            Some(a) => Some(views(a@)),
            None => None,
        },
        ctx.exit_code,
    )
}

impl HookEnv {
    /// The name/value pairs, in the order they were set.
    pub open spec fn view(&self) -> Seq<(Seq<char>, Seq<char>)> {
        entry_views(self.entries@)
    }

    /// Sets a variable.
    fn set(&mut self, key: String, value: String)
        ensures
            final(self).view() == old(self).view().push((key@, value@)),
    {
        self.entries.push((key, value));
        assert(final(self).view() =~= old(self).view().push((key@, value@)));
    }

    /// The value of the variable `key`, the last one set.
    pub fn get(&self, key: &str) -> (r: Option<&String>)
        ensures
            match env_lookup(self.view(), key@) {
                None => r is None,
                Some(v) => match r {
                    Some(s) => s@ == v,
                    None => false,
                },
            },
    {
        let mut k: usize = self.entries.len();
        assert(self.view().take(k as int) =~= self.view());
        while k > 0
            invariant
                0 <= k <= self.entries@.len(),
                env_lookup(self.view(), key@) == env_lookup(
                    self.view().take(k as int),
                    key@,
                ),
            decreases k,
        {
            let ghost prefix = self.view().take(k as int);
            assert(prefix.drop_last() =~= self.view().take(k - 1));
            if same_text(self.entries[k - 1].0.as_str(), key) {
                return Some(&self.entries[k - 1].1);
            }
            k = k - 1;
        }
        None
    }
}

/// Tells whether two texts are equal.
fn same_text(a: &str, b: &str) -> (r: bool)
    ensures
        r == (a@ == b@),
{
    let n = a.unicode_len();
    if n != b.unicode_len() {
        return false;
    }
    let mut i: usize = 0;
    while i < n
        invariant
            n == a@.len() == b@.len(),
            0 <= i <= n,
            forall|j: int| 0 <= j < i ==> a@[j] == b@[j],
        decreases n - i,
    {
        if a.get_char(i) != b.get_char(i) {
            return false;
        }
        i = i + 1;
    }
    assert(a@ =~= b@);
    true
}

/// Builds the environment variables a hook script receives.
pub fn build_hook_env(ctx: &HookContext) -> (env: HookEnv)
    ensures
        env.view() == hook_env_entries(*ctx),
{
    let mut env = HookEnv { entries: Vec::new() };
    assert(env.view() =~= Seq::empty());
    env.set(String::from_str("TRAMP_ORIGINAL_BINARY"), String::from_str(ctx.original_binary));
    env.set(String::from_str("TRAMP_ORIGINAL_ARGS"), join_spaced_strings(ctx.original_args));
    assert(views(ctx.original_args@).len() == ctx.original_args@.len());
    env.set(String::from_str("TRAMP_ORIGINAL_ARGC"), format_nat(ctx.original_args.len() as u64));
    let ghost head = env.view();
    let ghost args = views(ctx.original_args@);
    let mut i: usize = 0;
    while i < ctx.original_args.len()
        invariant
            0 <= i <= ctx.original_args@.len(),
            args == views(ctx.original_args@),
            env.view() == head + arg_entries(args).take(i as int),
        decreases ctx.original_args@.len() - i,
    {
        let mut key = String::from_str("TRAMP_ORIGINAL_ARG_");
        let index = format_nat(i as u64);
        key.append(index.as_str());
        env.set(key, ctx.original_args[i].clone());
        assert(arg_entries(args).take(i + 1) =~= arg_entries(args).take(i as int).push(
            arg_entries(args)[i as int],
        ));
        i = i + 1;
    }
    assert(arg_entries(args).take(i as int) =~= arg_entries(args));
    env.set(String::from_str("TRAMP_CWD"), String::from_str(ctx.cwd));
    env.set(String::from_str("TRAMP_HOOK_TYPE"), String::from_str(ctx.hook_type.as_str()));
    if let Some(executed_binary) = ctx.executed_binary {
        env.set(String::from_str("TRAMP_EXECUTED_BINARY"), String::from_str(executed_binary));
    }
    if let Some(executed_args) = ctx.executed_args {
        env.set(String::from_str("TRAMP_EXECUTED_ARGS"), join_spaced_strings(executed_args));
    }
    if let Some(exit_code) = ctx.exit_code {
        env.set(String::from_str("TRAMP_EXIT_CODE"), format_int(exit_code));
    }
    assert(env.view() =~= hook_env_entries(*ctx));
    env
}

/// A hook that is told an exit code finds it under `TRAMP_EXIT_CODE`, in
/// decimal.
pub proof fn exit_code_reaches_hook(
    original_binary: Seq<char>,
    original_args: Seq<Seq<char>>,
    cwd: Seq<char>,
    hook_type: HookType,
    executed_binary: Option<Seq<char>>,
    executed_args: Option<Seq<Seq<char>>>,
    exit_code: i32,
)
    ensures
        env_lookup(
            env_entries(
                original_binary,
                original_args,
                cwd,
                hook_type,
                executed_binary,
                executed_args,
                Some(exit_code),
            ),
            "TRAMP_EXIT_CODE"@,
        ) == Some(decimal(exit_code as int)),
{
    let e = env_entries(
        original_binary,
        original_args,
        cwd,
        hook_type,
        executed_binary,
        executed_args,
        Some(exit_code),
    );
    assert(e.last() == ("TRAMP_EXIT_CODE"@, decimal(exit_code as int)));
}

/// Every hook finds its phase name under `TRAMP_HOOK_TYPE`, since no later
/// variable has that name.
pub proof fn phase_reaches_hook(ctx: HookContext)
    ensures
        env_lookup(hook_env_entries(ctx), "TRAMP_HOOK_TYPE"@) == Some(
            hook_type_name(ctx.hook_type),
        ),
{
    let eb = match ctx.executed_binary {
        Some(b) => Some(b@),
        None => None,
    };
    let ea = match ctx.executed_args {
        Some(a) => Some(views(a@)),
        None => None,
    };
    let e = hook_env_entries(ctx);
    let tail = env_tail(eb, ea, ctx.exit_code);
    let head = e.take(e.len() - tail.len());
    assert(e =~= head + tail);
    reveal_strlit("TRAMP_HOOK_TYPE");
    reveal_strlit("TRAMP_EXECUTED_BINARY");
    reveal_strlit("TRAMP_EXECUTED_ARGS");
    reveal_strlit("TRAMP_EXIT_CODE");
    assert("TRAMP_HOOK_TYPE"@[6] != "TRAMP_EXECUTED_BINARY"@[6]);
    assert("TRAMP_HOOK_TYPE"@[6] != "TRAMP_EXECUTED_ARGS"@[6]);
    assert("TRAMP_HOOK_TYPE"@[6] != "TRAMP_EXIT_CODE"@[6]);
    lookup_skips_tail(head, tail, "TRAMP_HOOK_TYPE"@);
    assert(head.last() == ("TRAMP_HOOK_TYPE"@, hook_type_name(ctx.hook_type)));
}

/// Entries after the last one with a given name do not change its value.
proof fn lookup_skips_tail(
    head: Seq<(Seq<char>, Seq<char>)>,
    tail: Seq<(Seq<char>, Seq<char>)>,
    key: Seq<char>,
)
    requires
        forall|i: int| 0 <= i < tail.len() ==> (#[trigger] tail[i]).0 != key,
    ensures
        env_lookup(head + tail, key) == env_lookup(head, key),
    decreases tail.len(),
{
    if tail.len() > 0 {
        assert((head + tail).drop_last() =~= head + tail.drop_last());
        assert((head + tail).last() == tail.last());
        lookup_skips_tail(head, tail.drop_last(), key);
    } else {
        assert(head + tail =~= head);
    }
}

} // verus!
