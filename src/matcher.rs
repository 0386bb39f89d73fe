use vstd::prelude::*;
use crate::config::{copy_rule, MergedConfig, Rule, RuleWithSource};
use crate::error::TrampError;
use crate::pattern::{compile_regex, pattern_finds, regex_accepts, regex_finds, reports_invalid, Pattern};

verus! {

/// The invocation under evaluation.
#[derive(Debug)]
pub struct MatchContext<'a> {
    /// The binary path being executed.
    pub binary_path: &'a str,
    /// The working directory.
    pub cwd: &'a str,
    /// The arguments passed to the command.
    pub args: &'a [String],
}

/// A rule with its patterns compiled.
#[derive(Debug)]
pub struct CompiledRule {
    /// The rule as declared.
    pub rule: Rule,
    /// The compiled binary pattern, when the rule has one.
    pub binary_regex: Option<Pattern>,
    /// The compiled working-directory pattern, when the rule has one.
    pub cwd_regex: Option<Pattern>,
    /// The configuration file that declared the rule.
    pub source: String,
}

/// An optional pattern admits `text`: it is absent or it matches.
pub open spec fn axis_admits(p: Option<Pattern>, text: Seq<char>) -> bool {
    match p {
        None => true,
        Some(p) => regex_finds(p.source(), text),
    }
}

/// An optional pattern text admits `text`: it is absent or it matches.
pub open spec fn text_admits(p: Option<String>, text: Seq<char>) -> bool {
    match p {
        None => true,
        Some(p) => regex_finds(p@, text),
    }
}

/// A compiled rule matches an invocation: each of its patterns matches the
/// corresponding part of it.
pub open spec fn compiled_matches(c: CompiledRule, binary: Seq<char>, cwd: Seq<char>) -> bool {
    axis_admits(c.binary_regex, binary) && axis_admits(c.cwd_regex, cwd)
}

/// A declared rule matches an invocation: each pattern it sets matches the
/// corresponding part of it.
pub open spec fn rule_admits(r: Rule, binary: Seq<char>, cwd: Seq<char>) -> bool {
    text_admits(r.binary_pattern, binary) && text_admits(r.cwd_pattern, cwd)
}

/// An optional compiled pattern is the compilation of an optional text.
pub open spec fn compiled_axis(p: Option<Pattern>, t: Option<String>) -> bool {
    match (p, t) {
        (None, None) => true,
        (Some(p), Some(t)) => p.source() == t@,
        _ => false,
    }
}

/// `c` is the compilation of `rws`.
pub open spec fn compiled_from(c: CompiledRule, rws: RuleWithSource) -> bool {
    &&& c.rule == rws.rule
    &&& c.source == rws.source
    &&& compiled_axis(c.binary_regex, rws.rule.binary_pattern)
    &&& compiled_axis(c.cwd_regex, rws.rule.cwd_pattern)
}

/// Every pattern of the rule compiles.
pub open spec fn patterns_compile(r: Rule) -> bool {
    &&& (r.binary_pattern is Some ==> regex_accepts(r.binary_pattern->0@))
    &&& (r.cwd_pattern is Some ==> regex_accepts(r.cwd_pattern->0@))
}

/// The pattern that compilation of the rule reports: the binary pattern if
/// it fails, the working-directory pattern otherwise.
pub open spec fn failing_pattern(r: Rule) -> Seq<char> {
    if r.binary_pattern is Some && !regex_accepts(r.binary_pattern->0@) {
        r.binary_pattern->0@
    } else {
        r.cwd_pattern->0@
    }
}

/// The position of the first rule, at or after `k`, that matches.
pub open spec fn first_match_from(
    rules: Seq<CompiledRule>,
    binary: Seq<char>,
    cwd: Seq<char>,
    k: int,
) -> Option<int>
    decreases rules.len() - k,
{
    if k < 0 || k >= rules.len() {
        None
    } else if compiled_matches(rules[k], binary, cwd) {
        Some(k)
    } else {
        first_match_from(rules, binary, cwd, k + 1)
    }
}

/// The position of the first rule that matches.
pub open spec fn first_match(rules: Seq<CompiledRule>, binary: Seq<char>, cwd: Seq<char>) -> Option<
    int,
> {
    first_match_from(rules, binary, cwd, 0)
}

/// Compiles an optional pattern text.
fn compile_axis(p: &Option<String>) -> (r: Result<Option<Pattern>, TrampError>)
    ensures
        r is Ok <==> (p is Some ==> regex_accepts(p->0@)),
        r is Ok ==> compiled_axis(r->Ok_0, *p),
        r is Err ==> reports_invalid(r->Err_0, p->0@),
{
    match p {
        None => Ok(None),
        Some(text) => match compile_regex(text.as_str()) {
            Ok(c) => Ok(Some(c)),
            Err(e) => Err(e),
        },
    }
}

impl CompiledRule {
    /// Compiles the patterns of a rule; the first pattern that does not
    /// compile, binary before working directory, is reported.
    pub fn from_rule_with_source(rws: &RuleWithSource) -> (r: Result<CompiledRule, TrampError>)
        ensures
            r is Ok <==> patterns_compile(rws.rule),
            r is Ok ==> compiled_from(r->Ok_0, *rws),
            r is Err ==> reports_invalid(r->Err_0, failing_pattern(rws.rule)),
    {
        let binary_regex = match compile_axis(&rws.rule.binary_pattern) {
            Ok(c) => c,
            Err(e) => {
                return Err(e);
            },
        };
        let cwd_regex = match compile_axis(&rws.rule.cwd_pattern) {
            Ok(c) => c,
            Err(e) => {
                return Err(e);
            },
        };
        Ok(
            CompiledRule {
                rule: copy_rule(&rws.rule),
                binary_regex,
                cwd_regex,
                source: rws.source.clone(),
            },
        )
    }

    /// Tells whether the rule matches the invocation: a binary pattern, when
    /// present, must match the binary path, and a working-directory pattern,
    /// when present, the working directory.
    pub fn matches(&self, ctx: &MatchContext) -> (r: bool)
        ensures
            r == compiled_matches(*self, ctx.binary_path@, ctx.cwd@),
    {
        if let Some(regex) = &self.binary_regex {
            if !pattern_finds(regex, ctx.binary_path) {
                return false;
            }
        }
        if let Some(regex) = &self.cwd_regex {
            if !pattern_finds(regex, ctx.cwd) {
                return false;
            }
        }
        true
    }
}

/// Compiles every rule of the merged configuration, in order; the first
/// rule with a pattern that does not compile aborts the whole batch.
pub fn compile_rules(config: &MergedConfig) -> (r: Result<Vec<CompiledRule>, TrampError>)
    ensures
        r is Ok <==> forall|i: int|
            0 <= i < config.rules@.len() ==> patterns_compile(#[trigger] config.rules@[i].rule),
        r is Ok ==> r->Ok_0@.len() == config.rules@.len() && forall|i: int|
            0 <= i < config.rules@.len() ==> compiled_from(
                #[trigger] r->Ok_0@[i],
                config.rules@[i],
            ),
        r is Err ==> exists|i: int|
            0 <= i < config.rules@.len() && !patterns_compile(#[trigger] config.rules@[i].rule)
                && reports_invalid(r->Err_0, failing_pattern(config.rules@[i].rule)) && forall|
                j: int,
            |
                0 <= j < i ==> patterns_compile(#[trigger] config.rules@[j].rule),
{
    let mut out: Vec<CompiledRule> = Vec::new();
    let mut i: usize = 0;
    while i < config.rules.len()
        invariant
            0 <= i <= config.rules@.len(),
            out@.len() == i,
            forall|j: int| 0 <= j < i ==> patterns_compile(#[trigger] config.rules@[j].rule),
            forall|j: int| 0 <= j < i ==> compiled_from(#[trigger] out@[j], config.rules@[j]),
        decreases config.rules@.len() - i,
    {
        match CompiledRule::from_rule_with_source(&config.rules[i]) {
            Ok(c) => {
                out.push(c);
            },
            Err(e) => {
                return Err(e);
            },
        }
        i = i + 1;
    }
    Ok(out)
}

/// The first rule, in list order, that matches the invocation; none when
/// no rule matches.
pub fn find_matching_rule<'a>(rules: &'a [CompiledRule], ctx: &MatchContext) -> (r: Option<
    &'a CompiledRule,
>)
    ensures
        match first_match(rules@, ctx.binary_path@, ctx.cwd@) {
            None => r is None,
            Some(i) => match r {
                Some(c) => *c == rules@[i],
                None => false,
            },
        },
{
    let mut k: usize = 0;
    while k < rules.len()
        invariant
            0 <= k <= rules@.len(),
            first_match(rules@, ctx.binary_path@, ctx.cwd@) == first_match_from(
                rules@,
                ctx.binary_path@,
                ctx.cwd@,
                k as int,
            ),
        decreases rules@.len() - k,
    {
        if rules[k].matches(ctx) {
            return Some(&rules[k]);
        }
        k = k + 1;
    }
    None
}

/// Between positions `k` and a matching position `i`, the search finds a
/// match no later than `i`.
proof fn first_match_at_most(
    rules: Seq<CompiledRule>,
    binary: Seq<char>,
    cwd: Seq<char>,
    k: int,
    i: int,
)
    requires
        0 <= k <= i < rules.len(),
        compiled_matches(rules[i], binary, cwd),
    ensures
        first_match_from(rules, binary, cwd, k) is Some,
        k <= first_match_from(rules, binary, cwd, k)->0 <= i,
    decreases i - k,
{
    if !compiled_matches(rules[k], binary, cwd) {
        first_match_at_most(rules, binary, cwd, k + 1, i);
    }
}

/// First match wins: when two rules both match an invocation, the one
/// found is never the later of the two but the earlier one or a rule before
/// it; and when no rule before the earlier one matches, it is exactly the
/// earlier one.
pub proof fn first_match_wins(
    rules: Seq<CompiledRule>,
    binary: Seq<char>,
    cwd: Seq<char>,
    i: int,
    j: int,
)
    requires
        0 <= i < j < rules.len(),
        compiled_matches(rules[i], binary, cwd),
        compiled_matches(rules[j], binary, cwd),
    ensures
        first_match(rules, binary, cwd) is Some,
        first_match(rules, binary, cwd)->0 <= i,
        first_match(rules, binary, cwd)->0 != j,
        (forall|k: int| 0 <= k < i ==> !compiled_matches(#[trigger] rules[k], binary, cwd))
            ==> first_match(rules, binary, cwd) == Some(i),
{
    first_match_at_most(rules, binary, cwd, 0, i);
    if forall|k: int| 0 <= k < i ==> !compiled_matches(#[trigger] rules[k], binary, cwd) {
        first_match_skips(rules, binary, cwd, 0, i);
    }
}

/// The search passes over positions that do not match.
proof fn first_match_skips(
    rules: Seq<CompiledRule>,
    binary: Seq<char>,
    cwd: Seq<char>,
    k: int,
    i: int,
)
    requires
        0 <= k <= i < rules.len(),
        compiled_matches(rules[i], binary, cwd),
        forall|m: int| 0 <= m < i ==> !compiled_matches(#[trigger] rules[m], binary, cwd),
    ensures
        first_match_from(rules, binary, cwd, k) == Some(i),
    decreases i - k,
{
    if k < i {
        first_match_skips(rules, binary, cwd, k + 1, i);
    }
}

/// A compiled rule matches exactly the invocations its declared rule
/// admits.
pub proof fn compiled_rule_matches_as_declared(
    c: CompiledRule,
    rws: RuleWithSource,
    binary: Seq<char>,
    cwd: Seq<char>,
)
    requires
        compiled_from(c, rws),
    ensures
        compiled_matches(c, binary, cwd) == rule_admits(rws.rule, binary, cwd),
{
}

/// A rule with neither pattern matches every invocation; a rule with both
/// patterns matches exactly when both of them match.
pub proof fn pattern_axes_combine(r: Rule, binary: Seq<char>, cwd: Seq<char>)
    ensures
        r.binary_pattern is None && r.cwd_pattern is None ==> rule_admits(r, binary, cwd),
        r.binary_pattern is Some && r.cwd_pattern is Some ==> (rule_admits(r, binary, cwd) <==> (
        regex_finds(r.binary_pattern->0@, binary) && regex_finds(r.cwd_pattern->0@, cwd))),
{
}

} // verus!
