use vstd::prelude::*;
use crate::error::TrampError;

verus! {

/// The configuration held by one configuration file.
#[derive(Debug, Clone)]
pub struct Config {
    /// Stop the directory cascade after this directory; the user-level
    /// configuration is still consulted.
    pub root: bool,
    /// This configuration is authoritative: no ancestor and no user-level
    /// configuration is consulted.
    pub no_external_lookup: bool,
    /// Name of an environment variable that, when truthy, suppresses the
    /// user-level configuration.
    pub root_config_lookup_disable_env_var: Option<String>,
    /// The rules, in declaration order.
    pub rules: Vec<Rule>,
}

/// One user-declared policy entry.
///
/// An absent pattern places no constraint on its axis. At most one of the
/// three rewrite strategies may be set (see `validate`).
#[derive(Debug, Clone)]
pub struct Rule {
    /// Pattern for the binary path.
    pub binary_pattern: Option<String>,
    /// Pattern for the working directory.
    pub cwd_pattern: Option<String>,
    /// Substitution applied to the joined arguments.
    pub arg_rewrite: Option<String>,
    /// Substitution applied to the joined binary and arguments.
    pub command_rewrite: Option<String>,
    /// Command run in place of the original binary.
    pub alternate_command: Option<String>,
    /// Script run before the command; a non-zero exit aborts the invocation.
    pub pre_hook: Option<String>,
    /// Script run after the command; its outcome never changes the result.
    pub post_hook: Option<String>,
    /// Script run instead of the command; its exit code is the result.
    pub intercept_hook: Option<String>,
}

/// A configuration together with the path it was read from.
#[derive(Debug, Clone)]
pub struct LoadedConfig {
    pub config: Config,
    pub path: String,
}

/// The rules of a whole cascade, in evaluation order, each tagged with the
/// file that declared it.
#[derive(Debug, Clone)]
pub struct MergedConfig {
    pub rules: Vec<RuleWithSource>,
    /// Set when any merged configuration is authoritative.
    pub no_external_lookup: bool,
}

/// A rule and the configuration file that declared it.
#[derive(Debug, Clone)]
pub struct RuleWithSource {
    pub rule: Rule,
    pub source: String,
}

impl Default for Rule {
    fn default() -> (r: Rule)
        ensures
            r == Rule::empty(),
    {
        Rule {
            binary_pattern: None,
            cwd_pattern: None,
            arg_rewrite: None,
            command_rewrite: None,
            alternate_command: None,
            pre_hook: None,
            post_hook: None,
            intercept_hook: None,
        }
    }
}

impl Default for Config {
    fn default() -> (r: Config)
        ensures
            !r.root,
            !r.no_external_lookup,
            r.root_config_lookup_disable_env_var is None,
            r.rules@.len() == 0,
    {
        Config {
            root: false,
            no_external_lookup: false,
            root_config_lookup_disable_env_var: None,
            rules: Vec::new(),
        }
    }
}

impl Default for MergedConfig {
    fn default() -> (r: MergedConfig)
        ensures
            r.rules@.len() == 0,
            !r.no_external_lookup,
    {
        MergedConfig { rules: Vec::new(), no_external_lookup: false }
    }
}

/// The names of the rewrite strategies that a rule sets, in the fixed order
/// arg_rewrite, command_rewrite, alternate_command.
pub open spec fn strategy_names(r: Rule) -> Seq<Seq<char>> {
    (if r.arg_rewrite is Some { seq!["arg_rewrite"@] } else { Seq::empty() })
    + (if r.command_rewrite is Some { seq!["command_rewrite"@] } else { Seq::empty() })
    + (if r.alternate_command is Some { seq!["alternate_command"@] } else { Seq::empty() })
}

/// A rule is valid when it sets at most one rewrite strategy.
pub open spec fn rule_valid(r: Rule) -> bool {
    strategy_names(r).len() <= 1
}

/// `e` is the error that validation reports for the invalid rule `r`: it
/// names the first two strategies that `r` sets.
pub open spec fn reports_conflict(e: TrampError, r: Rule) -> bool {
    &&& e is MutuallyExclusive
    &&& e->option1@ == strategy_names(r)[0]
    &&& e->option2@ == strategy_names(r)[1]
}

/// Every rule of the configuration is valid.
pub open spec fn config_valid(c: Config) -> bool {
    forall|i: int| 0 <= i < c.rules@.len() ==> rule_valid(#[trigger] c.rules@[i])
}

/// The rules of one loaded configuration, tagged with its path.
pub open spec fn tagged(c: LoadedConfig) -> Seq<RuleWithSource> {
    c.config.rules@.map_values(|r: Rule| RuleWithSource { rule: r, source: c.path })
}

/// The rules of a sequence of configurations, concatenated in order.
pub open spec fn tagged_rules(cs: Seq<LoadedConfig>) -> Seq<RuleWithSource>
    decreases cs.len(),
{
    if cs.len() == 0 {
        Seq::empty()
    } else {
        tagged_rules(cs.drop_last()) + tagged(cs.last())
    }
}

/// Some configuration of the sequence is authoritative.
pub open spec fn any_no_external_lookup(cs: Seq<LoadedConfig>) -> bool {
    exists|i: int| 0 <= i < cs.len() && (#[trigger] cs[i]).config.no_external_lookup
}

impl Rule {
    /// The rule that sets nothing: it matches everything and rewrites nothing.
    pub open spec fn empty() -> Rule {
        Rule {
            binary_pattern: None,
            cwd_pattern: None,
            arg_rewrite: None,
            command_rewrite: None,
            alternate_command: None,
            pre_hook: None,
            post_hook: None,
            intercept_hook: None,
        }
    }

    /// Checks that at most one of arg_rewrite, command_rewrite and
    /// alternate_command is set; otherwise reports the first two that are.
    pub fn validate(&self) -> (r: Result<(), TrampError>)
        ensures
            r is Ok <==> rule_valid(*self),
            r is Err ==> reports_conflict(r->Err_0, *self),
    {
        let mut names: Vec<String> = Vec::new();
        if self.arg_rewrite.is_some() {
            names.push(String::from_str("arg_rewrite"));
        }
        let ghost after_arg = names@;
        if self.command_rewrite.is_some() {
            names.push(String::from_str("command_rewrite"));
        }
        let ghost after_cmd = names@;
        if self.alternate_command.is_some() {
            names.push(String::from_str("alternate_command"));
        }
        assert(names@.map_values(|s: String| s@) =~= strategy_names(*self));
        if names.len() > 1 {
            let option2 = names.remove(1);
            let option1 = names.remove(0);
            return Err(TrampError::MutuallyExclusive { option1, option2 });
        }
        Ok(())
    }
}

impl Config {
    /// Validates every rule, in order; the first invalid rule decides the
    /// error.
    pub fn validate(&self) -> (r: Result<(), TrampError>)
        ensures
            r is Ok <==> config_valid(*self),
            r is Err ==> exists|i: int|
                0 <= i < self.rules@.len()
                && !rule_valid(#[trigger] self.rules@[i])
                && reports_conflict(r->Err_0, self.rules@[i])
                && forall|j: int| 0 <= j < i ==> rule_valid(#[trigger] self.rules@[j]),
    {
        let mut i: usize = 0;
        while i < self.rules.len()
            invariant
                0 <= i <= self.rules@.len(),
                forall|j: int| 0 <= j < i ==> rule_valid(#[trigger] self.rules@[j]),
            decreases self.rules@.len() - i,
        {
            match self.rules[i].validate() {
                Ok(()) => {},
                Err(e) => {
                    return Err(e);
                },
            }
            i = i + 1;
        }
        Ok(())
    }
}

/// A copy of an optional string.
pub fn copy_opt(s: &Option<String>) -> (r: Option<String>)
    ensures
        r == *s,
{
    match s {
        Some(v) => Some(v.clone()),
        None => None,
    }
}

/// A copy of a rule.
pub fn copy_rule(r: &Rule) -> (c: Rule)
    ensures
        c == *r,
{
    Rule {
        binary_pattern: copy_opt(&r.binary_pattern),
        cwd_pattern: copy_opt(&r.cwd_pattern),
        arg_rewrite: copy_opt(&r.arg_rewrite),
        command_rewrite: copy_opt(&r.command_rewrite),
        alternate_command: copy_opt(&r.alternate_command),
        pre_hook: copy_opt(&r.pre_hook),
        post_hook: copy_opt(&r.post_hook),
        intercept_hook: copy_opt(&r.intercept_hook),
    }
}

/// Flattens loaded configurations into one rule list: the rules of each
/// configuration, in its own order and tagged with its path, concatenated in
/// the order of `configs`. The result is authoritative when any input is.
pub fn merge_configs(configs: &[LoadedConfig]) -> (merged: MergedConfig)
    ensures
        merged.rules@ == tagged_rules(configs@),
        merged.no_external_lookup == any_no_external_lookup(configs@),
{
    let mut rules: Vec<RuleWithSource> = Vec::new();
    let mut no_external_lookup = false;
    let mut i: usize = 0;
    while i < configs.len()
        invariant
            0 <= i <= configs@.len(),
            rules@ == tagged_rules(configs@.take(i as int)),
            no_external_lookup == any_no_external_lookup(configs@.take(i as int)),
        decreases configs@.len() - i,
    {
        let loaded = &configs[i];
        let ghost before = rules@;
        let mut j: usize = 0;
        while j < loaded.config.rules.len()
            invariant
                0 <= j <= loaded.config.rules@.len(),
                loaded == configs@[i as int],
                rules@ == before + tagged(*loaded).take(j as int),
            decreases loaded.config.rules@.len() - j,
        {
            rules.push(RuleWithSource {
                rule: copy_rule(&loaded.config.rules[j]),
                source: loaded.path.clone(),
            });
            assert(tagged(*loaded).take(j + 1) =~= tagged(*loaded).take(j as int).push(
                tagged(*loaded)[j as int],
            ));
            j = j + 1;
        }
        assert(tagged(*loaded).take(j as int) =~= tagged(*loaded));
        assert(configs@.take(i + 1).drop_last() =~= configs@.take(i as int));
        if loaded.config.no_external_lookup {
            no_external_lookup = true;
        }
        assert(any_no_external_lookup(configs@.take(i + 1)) == (any_no_external_lookup(
            configs@.take(i as int),
        ) || loaded.config.no_external_lookup)) by {
            let t = configs@.take(i + 1);
            if loaded.config.no_external_lookup {
                assert(t[i as int] == *loaded);
            }
            if any_no_external_lookup(configs@.take(i as int)) {
                let k = choose|k: int|
                    0 <= k < i && (#[trigger] configs@.take(i as int)[k]).config.no_external_lookup;
                assert(t[k] == configs@.take(i as int)[k]);
            }
        }
        i = i + 1;
    }
    assert(configs@.take(i as int) =~= configs@);
    MergedConfig { rules, no_external_lookup }
}

/// Merging keeps cascade order: merging the directory configurations
/// followed by a last configuration gives the directories' rules, in order,
/// followed by the last configuration's rules.
pub proof fn merge_keeps_cascade_order(dirs: Seq<LoadedConfig>, last: LoadedConfig)
    ensures
        tagged_rules(dirs.push(last)) == tagged_rules(dirs) + tagged(last),
{
    assert(dirs.push(last).drop_last() =~= dirs);
}

/// Merging is concatenation: the merged rules of two consecutive stretches
/// of a cascade are the merged rules of the first followed by those of the
/// second.
pub proof fn merge_concatenates(a: Seq<LoadedConfig>, b: Seq<LoadedConfig>)
    ensures
        tagged_rules(a + b) == tagged_rules(a) + tagged_rules(b),
    decreases b.len(),
{
    if b.len() == 0 {
        assert(a + b =~= a);
    } else {
        merge_concatenates(a, b.drop_last());
        assert((a + b).drop_last() =~= a + b.drop_last());
        assert((a + b).last() == b.last());
    }
}

} // verus!
