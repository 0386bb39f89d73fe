use vstd::prelude::*;
use crate::config::Rule;
use crate::error::TrampError;
use crate::pattern::{
    compile_regex, pattern_replace_every, pattern_replace_first, regex_accepts, regex_finds,
    regex_replace_every, regex_replace_first, reports_invalid, Pattern,
};
use crate::text::{
    contains_char, copy_strings, join_spaced, join_spaced_strings, push_char_of, split_words, views,
    words,
};

verus! {

/// A compiled find/replace directive.
#[derive(Debug)]
pub struct Substitution {
    /// The pattern to find.
    pub pattern: Pattern,
    /// The replacement; `$n` refers to capture group `n`.
    pub replacement: String,
    /// Replace every match rather than only the first.
    pub global: bool,
}

/// The segments of `s` separated by the delimiter `d`, continuing the
/// partial segment `cur`. A backslash before the delimiter makes it literal
/// and is dropped; any other backslash is kept.
pub open spec fn segments_from(s: Seq<char>, d: char, cur: Seq<char>) -> Seq<Seq<char>>
    decreases s.len(),
{
    if s.len() == 0 {
        seq![cur]
    } else if s[0] == '\\' {
        if s.len() > 1 && s[1] == d {
            segments_from(s.skip(2), d, cur.push(d))
        } else {
            segments_from(s.skip(1), d, cur.push('\\'))
        }
    } else if s[0] == d {
        seq![cur] + segments_from(s.skip(1), d, Seq::empty())
    } else {
        segments_from(s.skip(1), d, cur.push(s[0]))
    }
}

/// The delimiter-separated segments of `s`; there is always at least one.
pub open spec fn segments(s: Seq<char>, d: char) -> Seq<Seq<char>> {
    segments_from(s, d, Seq::empty())
}

/// The segments of a substitution text `s<d>pattern<d>replacement<d>flags`,
/// read after the leading `s` and the delimiter.
pub open spec fn sub_parts(t: Seq<char>) -> Seq<Seq<char>> {
    segments(t.skip(2), t[1])
}

/// The text has the shape of a substitution: a leading `s`, a delimiter,
/// and at least a pattern and a replacement segment.
pub open spec fn sub_well_formed(t: Seq<char>) -> bool {
    t.len() >= 2 && t[0] == 's' && sub_parts(t).len() >= 2
}

pub open spec fn sub_pattern(t: Seq<char>) -> Seq<char> {
    sub_parts(t)[0]
}

pub open spec fn sub_replacement(t: Seq<char>) -> Seq<char> {
    sub_parts(t)[1]
}

/// The flags segment, empty when absent; `g` among them makes the
/// substitution global.
pub open spec fn sub_global(t: Seq<char>) -> bool {
    sub_parts(t).len() > 2 && sub_parts(t)[2].contains('g')
}

/// The substitution text parses: it is well formed and its pattern compiles.
pub open spec fn sub_accepted(t: Seq<char>) -> bool {
    sub_well_formed(t) && regex_accepts(sub_pattern(t))
}

/// The text that a parse failure names: the pattern when only its
/// compilation failed, the whole text otherwise.
pub open spec fn sub_error_text(t: Seq<char>) -> Seq<char> {
    if sub_well_formed(t) {
        sub_pattern(t)
    } else {
        t
    }
}

/// `s` after replacing the first match of `pattern`, or every match when
/// `global`.
pub open spec fn substituted(
    pattern: Seq<char>,
    replacement: Seq<char>,
    global: bool,
    s: Seq<char>,
) -> Seq<char> {
    if global {
        regex_replace_every(pattern, replacement, s)
    } else {
        regex_replace_first(pattern, replacement, s)
    }
}

/// `s` after the substitution written as the text `t`.
pub open spec fn substituted_by(t: Seq<char>, s: Seq<char>) -> Seq<char> {
    substituted(sub_pattern(t), sub_replacement(t), sub_global(t), s)
}

impl Substitution {
    /// The substitution applied to `s`.
    pub open spec fn spec_apply(&self, s: Seq<char>) -> Seq<char> {
        substituted(self.pattern.source(), self.replacement@, self.global, s)
    }

    /// Parses `s<d>pattern<d>replacement<d>[flags]`, where `<d>` is the
    /// character after the leading `s`.
    pub fn parse(input: &str) -> (r: Result<Substitution, TrampError>)
        ensures
            r is Ok <==> sub_accepted(input@),
            r is Ok ==> r->Ok_0.pattern.source() == sub_pattern(input@) && r->Ok_0.replacement@
                == sub_replacement(input@) && r->Ok_0.global == sub_global(input@),
            r is Err ==> reports_invalid(r->Err_0, sub_error_text(input@)),
    {
        let n = input.unicode_len();
        if n == 0 || input.get_char(0) != 's' || n < 2 {
            return Err(
                TrampError::InvalidRegex {
                    pattern: String::from_str(input),
                    reason: String::from_str("substitution must start with 's' and a delimiter"),
                },
            );
        }
        let delimiter = input.get_char(1);
        let rest = input.substring_char(2, n);
        assert(rest@ =~= input@.skip(2));
        let mut parts = split_by_delimiter(rest, delimiter);
        if parts.len() < 2 {
            return Err(
                TrampError::InvalidRegex {
                    pattern: String::from_str(input),
                    reason: String::from_str("substitution must have pattern and replacement"),
                },
            );
        }
        let global = parts.len() > 2 && contains_char(parts[2].as_str(), 'g');
        let replacement = parts.remove(1);
        let pattern_text = parts.remove(0);
        match compile_regex(pattern_text.as_str()) {
            Ok(pattern) => Ok(Substitution { pattern, replacement, global }),
            Err(e) => Err(e),
        }
    }

    /// Applies the substitution to `input`: the first match is replaced, or
    /// every match when the substitution is global; a text without a match
    /// comes back unchanged.
    pub fn apply(&self, input: &str) -> (r: String)
        ensures
            r@ == self.spec_apply(input@),
            !regex_finds(self.pattern.source(), input@) ==> r@ == input@,
    {
        if self.global {
            pattern_replace_every(&self.pattern, self.replacement.as_str(), input)
        } else {
            pattern_replace_first(&self.pattern, self.replacement.as_str(), input)
        }
    }
}

/// Splits `input` at each delimiter that is not escaped by a backslash.
pub fn split_by_delimiter(input: &str, delimiter: char) -> (r: Vec<String>)
    ensures
        views(r@) == segments(input@, delimiter),
{
    let n = input.unicode_len();
    let mut parts: Vec<String> = Vec::new();
    let mut current = String::new();
    let mut i: usize = 0;
    assert(input@.subrange(0, n as int) =~= input@);
    assert(views(parts@) + segments(input@, delimiter) =~= segments(input@, delimiter));
    while i < n
        invariant
            n == input@.len(),
            0 <= i <= n,
            segments(input@, delimiter) == views(parts@) + segments_from(
                input@.subrange(i as int, n as int),
                delimiter,
                current@,
            ),
        decreases n - i,
    {
        let ghost rest = input@.subrange(i as int, n as int);
        assert(rest.skip(1) =~= input@.subrange(i + 1, n as int));
        let c = input.get_char(i);
        if c == '\\' {
            if i + 1 < n && input.get_char(i + 1) == delimiter {
                assert(rest.skip(2) =~= input@.subrange(i + 2, n as int));
                push_char_of(&mut current, input, i + 1);
                i = i + 2;
            } else {
                push_char_of(&mut current, input, i);
                i = i + 1;
            }
        } else if c == delimiter {
            let ghost old_parts = parts@;
            parts.push(current);
            assert(views(parts@) =~= views(old_parts) + seq![current@]);
            current = String::new();
            i = i + 1;
        } else {
            push_char_of(&mut current, input, i);
            i = i + 1;
        }
    }
    let ghost old_parts = parts@;
    parts.push(current);
    assert(views(parts@) =~= views(old_parts) + seq![current@]);
    parts
}

/// Rewrites arguments: joins them with single spaces, applies the
/// substitution, and splits the result at whitespace.
pub fn rewrite_args(args: &[String], substitution: &Substitution) -> (r: Vec<String>)
    ensures
        views(r@) == words(substitution.spec_apply(join_spaced(views(args@)))),
{
    let joined = join_spaced_strings(args);
    let rewritten = substitution.apply(joined.as_str());
    split_words(rewritten.as_str())
}

/// The binary and arguments of a rewritten command line: its first word and
/// the rest, or `fallback` with no arguments when it has no word.
pub open spec fn command_parts(line: Seq<char>, fallback: Seq<char>) -> (Seq<char>, Seq<Seq<char>>) {
    if words(line).len() == 0 {
        (fallback, Seq::empty())
    } else {
        (words(line)[0], words(line).skip(1))
    }
}

/// Splits a rewritten command line into binary and arguments; a line with
/// no word keeps `fallback` as binary.
pub fn split_command(line: &str, fallback: &str) -> (r: (String, Vec<String>))
    ensures
        r.0@ == command_parts(line@, fallback@).0,
        views(r.1@) == command_parts(line@, fallback@).1,
{
    let mut parts = split_words(line);
    if parts.len() == 0 {
        (String::from_str(fallback), Vec::new())
    } else {
        let ghost before = parts@;
        let binary = parts.remove(0);
        assert(views(parts@) =~= views(before).skip(1));
        (binary, parts)
    }
}

/// The command line of a binary and its arguments.
pub open spec fn command_line(binary: Seq<char>, args: Seq<String>) -> Seq<char> {
    join_spaced(seq![binary] + views(args))
}

/// Rewrites a whole command: joins binary and arguments with single spaces,
/// applies the substitution, and splits the result into a new binary and
/// arguments.
pub fn rewrite_command(binary: &str, args: &[String], substitution: &Substitution) -> (r: (
    String,
    Vec<String>,
))
    ensures
        r.0@ == command_parts(substitution.spec_apply(command_line(binary@, args@)), binary@).0,
        views(r.1@) == command_parts(
            substitution.spec_apply(command_line(binary@, args@)),
            binary@,
        ).1,
{
    let mut parts: Vec<String> = Vec::new();
    parts.push(String::from_str(binary));
    let mut rest = copy_strings(args);
    parts.append(&mut rest);
    assert(views(parts@) =~= seq![binary@] + views(args@));
    let line = join_spaced_strings(parts.as_slice());
    let rewritten = substitution.apply(line.as_str());
    split_command(rewritten.as_str(), binary)
}

/// What to run once a rule's rewrite strategy has been applied.
#[derive(Debug)]
pub enum RewritePlan {
    /// Run this binary with these arguments.
    Run { binary: String, args: Vec<String> },
    /// Resolve the alternate command on the search path and run it with
    /// these arguments.
    ResolveAlternate { command: String, args: Vec<String> },
    /// Resolve the rewritten command name on the search path and run it with
    /// these arguments.
    ResolveRewritten { command: String, args: Vec<String> },
}

/// Applies the rewrite strategy of `rule` to a binary and its arguments.
/// The strategies are tried in the fixed order alternate command, argument
/// rewrite, command rewrite; with none set, nothing changes.
pub fn plan_rewrite(binary: &str, args: &[String], rule: &Rule) -> (r: Result<RewritePlan, TrampError>)
    ensures
        rule.alternate_command is Some ==> r is Ok && r->Ok_0 is ResolveAlternate
            && r->Ok_0->ResolveAlternate_command == rule.alternate_command->0
            && r->Ok_0->ResolveAlternate_args@ == args@,
        rule.alternate_command is None && rule.arg_rewrite is Some ==> {
            let t = rule.arg_rewrite->0@;
            &&& (r is Ok <==> sub_accepted(t))
            &&& r is Err ==> reports_invalid(r->Err_0, sub_error_text(t))
            &&& r is Ok ==> r->Ok_0 is Run && r->Ok_0->Run_binary@ == binary@
                && views(r->Ok_0->Run_args@) == words(
                substituted_by(t, join_spaced(views(args@))),
            )
        },
        rule.alternate_command is None && rule.arg_rewrite is None && rule.command_rewrite is Some
            ==> {
            let t = rule.command_rewrite->0@;
            let parts = command_parts(substituted_by(t, command_line(binary@, args@)), binary@);
            &&& (r is Ok <==> sub_accepted(t))
            &&& r is Err ==> reports_invalid(r->Err_0, sub_error_text(t))
            &&& r is Ok ==> r->Ok_0 is ResolveRewritten && r->Ok_0->ResolveRewritten_command@
                == parts.0 && views(r->Ok_0->ResolveRewritten_args@) == parts.1
        },
        rule.alternate_command is None && rule.arg_rewrite is None && rule.command_rewrite is None
            ==> r is Ok && r->Ok_0 is Run && r->Ok_0->Run_binary@ == binary@
            && r->Ok_0->Run_args@ == args@,
{
    if let Some(alternate) = &rule.alternate_command {
        return Ok(
            RewritePlan::ResolveAlternate { command: alternate.clone(), args: copy_strings(args) },
        );
    }
    if let Some(rewrite) = &rule.arg_rewrite {
        let sub = match Substitution::parse(rewrite.as_str()) {
            Ok(s) => s,
            Err(e) => {
                return Err(e);
            },
        };
        let new_args = rewrite_args(args, &sub);
        return Ok(RewritePlan::Run { binary: String::from_str(binary), args: new_args });
    }
    if let Some(rewrite) = &rule.command_rewrite {
        let sub = match Substitution::parse(rewrite.as_str()) {
            Ok(s) => s,
            Err(e) => {
                return Err(e);
            },
        };
        let (command, new_args) = rewrite_command(binary, args, &sub);
        return Ok(RewritePlan::ResolveRewritten { command, args: new_args });
    }
    Ok(RewritePlan::Run { binary: String::from_str(binary), args: copy_strings(args) })
}

} // verus!
