use vstd::prelude::*;
use crate::config::{tagged, tagged_rules, LoadedConfig};
use crate::text::views;

verus! {

/// Where a cascade walk stands.
#[derive(Debug, Clone, Copy, PartialEq, Eq, Structural)]
pub enum CascadePhase {
    /// The next directory up is to be examined.
    Walking,
    /// The directory walk is over; the user-level configuration is to be
    /// looked up.
    UserLookup,
    /// Nothing more is to be consulted.
    Finished,
}

/// The configurations found while walking from the most specific directory
/// upward, and where the walk stands.
///
/// The caller examines the directories and reports what it found; the
/// resolver decides how far the walk goes and keeps the cascade order.
pub struct CascadeResolver {
    configs: Vec<LoadedConfig>,
    phase: CascadePhase,
    visited: Ghost<Seq<(Option<LoadedConfig>, bool)>>,
}

/// The state after examining one directory: a configuration found there is
/// appended; an authoritative one replaces everything found before it and
/// ends the cascade; a root one (or the last directory) ends the walk.
pub open spec fn after_directory(
    configs: Seq<LoadedConfig>,
    found: Option<LoadedConfig>,
    has_parent: bool,
) -> (Seq<LoadedConfig>, CascadePhase) {
    match found {
        None => (configs, if has_parent {
            CascadePhase::Walking
        } else {
            CascadePhase::UserLookup
        }),
        Some(c) => if c.config.no_external_lookup {
            (seq![c], CascadePhase::Finished)
        } else {
            (configs.push(c), if c.config.root || !has_parent {
                CascadePhase::UserLookup
            } else {
                CascadePhase::Walking
            })
        },
    }
}

/// The walk over the directories examined so far, from the most specific
/// one upward: each step holds what the directory holds and whether it has
/// a parent. Steps after the walk has stopped change nothing.
pub open spec fn walk_steps(steps: Seq<(Option<LoadedConfig>, bool)>) -> (
    Seq<LoadedConfig>,
    CascadePhase,
)
    decreases steps.len(),
{
    if steps.len() == 0 {
        (Seq::empty(), CascadePhase::Walking)
    } else {
        let prev = walk_steps(steps.drop_last());
        if prev.1 == CascadePhase::Walking {
            after_directory(prev.0, steps.last().0, steps.last().1)
        } else {
            prev
        }
    }
}

/// What the examined directories hold, in order.
pub open spec fn found_in(steps: Seq<(Option<LoadedConfig>, bool)>) -> Seq<Option<LoadedConfig>> {
    steps.map_values(|s: (Option<LoadedConfig>, bool)| s.0)
}

/// The configurations present among the directories, in order.
pub open spec fn present(found: Seq<Option<LoadedConfig>>) -> Seq<LoadedConfig>
    decreases found.len(),
{
    if found.len() == 0 {
        Seq::empty()
    } else {
        present(found.drop_last()) + match found.last() {
            Some(c) => seq![c],
            None => Seq::empty(),
        }
    }
}

/// A configuration that neither stops the walk nor ends the cascade.
pub open spec fn plain(f: Option<LoadedConfig>) -> bool {
    f is Some ==> !f->0.config.root && !f->0.config.no_external_lookup
}

/// Every step before the last one holds a plain directory with a parent,
/// so the walk reaches the last step.
pub open spec fn reaches_last(steps: Seq<(Option<LoadedConfig>, bool)>) -> bool {
    forall|i: int| 0 <= i < steps.len() - 1 ==> plain((#[trigger] steps[i]).0) && steps[i].1
}

/// The names of the variables that may suppress the user-level
/// configuration, in cascade order.
pub open spec fn disable_vars(configs: Seq<LoadedConfig>) -> Seq<Seq<char>>
    decreases configs.len(),
{
    if configs.len() == 0 {
        Seq::empty()
    } else {
        disable_vars(configs.drop_last()) + match configs.last().config.root_config_lookup_disable_env_var {
            Some(v) => seq![v@],
            None => Seq::empty(),
        }
    }
}

/// `c` is `lower` or, for a lowercase ASCII letter, its uppercase form.
pub open spec fn same_letter(c: char, lower: char) -> bool {
    c == lower || ('a' <= lower && lower <= 'z' && c as u32 + 32 == lower as u32)
}

/// `v` equals the lowercase word `w` when case is ignored.
pub open spec fn equals_ignoring_case(v: Seq<char>, w: Seq<char>) -> bool {
    v.len() == w.len() && forall|i: int| 0 <= i < v.len() ==> same_letter(#[trigger] v[i], w[i])
}

/// A truthy value: not empty, and not `0`, `false` or `no` in any case.
pub open spec fn truthy(v: Seq<char>) -> bool {
    v.len() > 0 && !equals_ignoring_case(v, "0"@) && !equals_ignoring_case(v, "false"@)
        && !equals_ignoring_case(v, "no"@)
}

/// Some variable is set to a truthy value.
pub open spec fn any_truthy(values: Seq<Option<String>>) -> bool {
    exists|i: int| 0 <= i < values.len() && (#[trigger] values[i]) is Some && truthy(values[i]->0@)
}

/// Tells whether `v` equals the lowercase word `w` when case is ignored.
fn equal_ignoring_case(v: &str, w: &str) -> (r: bool)
    ensures
        r == equals_ignoring_case(v@, w@),
{
    let n = v.unicode_len();
    if n != w.unicode_len() {
        return false;
    }
    let mut i: usize = 0;
    while i < n
        invariant
            n == v@.len() == w@.len(),
            0 <= i <= n,
            forall|j: int| 0 <= j < i ==> same_letter(#[trigger] v@[j], w@[j]),
        decreases n - i,
    {
        let c = v.get_char(i);
        let lower = w.get_char(i);
        if !(c == lower || ('a' <= lower && lower <= 'z' && c as u32 + 32 == lower as u32)) {
            return false;
        }
        i = i + 1;
    }
    true
}

/// Tells whether a variable's value is truthy: not empty, and not `0`,
/// `false` or `no` in any case.
pub fn is_truthy_value(value: &str) -> (r: bool)
    ensures
        r == truthy(value@),
{
    value.unicode_len() > 0 && !equal_ignoring_case(value, "0") && !equal_ignoring_case(
        value,
        "false",
    ) && !equal_ignoring_case(value, "no")
}

/// Tells whether the user-level configuration is suppressed, given the
/// values of the variables named by the configurations found (`None` for a
/// variable that is not set): it is when any of them is truthy.
pub fn user_config_suppressed(values: &[Option<String>]) -> (r: bool)
    ensures
        r == any_truthy(values@),
{
    let mut i: usize = 0;
    while i < values.len()
        invariant
            0 <= i <= values@.len(),
            forall|j: int|
                0 <= j < i ==> !((#[trigger] values@[j]) is Some && truthy(values@[j]->0@)),
        decreases values@.len() - i,
    {
        if let Some(v) = &values[i] {
            if is_truthy_value(v.as_str()) {
                return true;
            }
        }
        i = i + 1;
    }
    false
}

impl CascadeResolver {
    /// The configurations found so far, most specific first.
    pub closed spec fn spec_configs(&self) -> Seq<LoadedConfig> {
        self.configs@
    }

    /// Where the walk stands.
    pub closed spec fn spec_phase(&self) -> CascadePhase {
        self.phase
    }

    /// The directories reported so far, with what each holds and whether it
    /// has a parent.
    pub closed spec fn spec_visited(&self) -> Seq<(Option<LoadedConfig>, bool)> {
        self.visited@
    }

    /// The state is the walk over the directories reported so far.
    pub open spec fn follows_walk(&self) -> bool {
        (self.spec_configs(), self.spec_phase()) == walk_steps(self.spec_visited())
    }

    /// A walk that has examined nothing yet.
    pub fn new() -> (r: CascadeResolver)
        ensures
            r.spec_visited() == Seq::<(Option<LoadedConfig>, bool)>::empty(),
            r.follows_walk(),
            r.spec_configs() == Seq::<LoadedConfig>::empty(),
            r.spec_phase() == CascadePhase::Walking,
    {
        CascadeResolver {
            configs: Vec::new(),
            phase: CascadePhase::Walking,
            visited: Ghost(Seq::empty()),
        }
    }

    /// Where the walk stands.
    pub fn phase(&self) -> (r: CascadePhase)
        ensures
            r == self.spec_phase(),
    {
        self.phase
    }

    /// The configurations found so far, most specific first.
    pub fn configs(&self) -> (r: &Vec<LoadedConfig>)
        ensures
            r@ == self.spec_configs(),
    {
        &self.configs
    }

    /// The configurations found, most specific first.
    pub fn into_configs(self) -> (r: Vec<LoadedConfig>)
        ensures
            r@ == self.spec_configs(),
    {
        self.configs
    }

    /// Records what one directory holds (`found`) and whether it has a
    /// parent; returns where the walk stands afterwards.
    pub fn visit_directory(&mut self, found: Option<LoadedConfig>, has_parent: bool) -> (r:
        CascadePhase)
        requires
            old(self).follows_walk(),
            old(self).spec_phase() == CascadePhase::Walking,
        ensures
            final(self).spec_visited() == old(self).spec_visited().push((found, has_parent)),
            final(self).follows_walk(),
            (final(self).spec_configs(), final(self).spec_phase()) == after_directory(
                old(self).spec_configs(),
                found,
                has_parent,
            ),
            r == final(self).spec_phase(),
    {
        let ghost step = (found, has_parent);
        match found {
            None => {
                if !has_parent {
                    self.phase = CascadePhase::UserLookup;
                }
            },
            Some(c) => {
                if c.config.no_external_lookup {
                    self.phase = CascadePhase::Finished;
                    self.configs = Vec::new();
                } else if c.config.root || !has_parent {
                    self.phase = CascadePhase::UserLookup;
                }
                self.configs.push(c);
            },
        }
        proof {
            let v = old(self).visited@.push(step);
            assert(v.drop_last() =~= old(self).visited@);
            self.visited = Ghost(v);
        }
        proof {
            if self.phase == CascadePhase::Finished {
                assert(self.configs@ =~= seq![found->0]);
            }
        }
        self.phase
    }

    /// The names of the variables that may suppress the user-level
    /// configuration, in cascade order.
    pub fn user_config_disable_vars(&self) -> (r: Vec<String>)
        ensures
            views(r@) == disable_vars(self.spec_configs()),
    {
        let mut names: Vec<String> = Vec::new();
        let mut i: usize = 0;
        while i < self.configs.len()
            invariant
                0 <= i <= self.configs@.len(),
                views(names@) == disable_vars(self.configs@.take(i as int)),
            decreases self.configs@.len() - i,
        {
            let ghost before = names@;
            assert(self.configs@.take(i + 1).drop_last() =~= self.configs@.take(i as int));
            if let Some(v) = &self.configs[i].config.root_config_lookup_disable_env_var {
                names.push(v.clone());
                assert(views(names@) =~= views(before) + seq![v@]);
            } else {
                assert(views(names@) =~= views(before) + Seq::<Seq<char>>::empty());
            }
            i = i + 1;
        }
        assert(self.configs@.take(i as int) =~= self.configs@);
        names
    }

    /// Ends the lookup. `disable_values` holds the values of the variables
    /// named by `user_config_disable_vars`, in that order (`None` for one
    /// that is not set), and `found` the user-level configuration, if any.
    /// It is appended, last, unless one of the values is truthy.
    pub fn add_user_config(&mut self, disable_values: &[Option<String>], found: Option<LoadedConfig>)
        requires
            old(self).spec_phase() == CascadePhase::UserLookup,
            disable_values@.len() == disable_vars(old(self).spec_configs()).len(),
        ensures
            final(self).spec_phase() == CascadePhase::Finished,
            final(self).spec_visited() == old(self).spec_visited(),
            final(self).spec_configs() == if found is Some && !any_truthy(disable_values@) {
                old(self).spec_configs().push(found->0)
            } else {
                old(self).spec_configs()
            },
    {
        if !user_config_suppressed(disable_values) {
            if let Some(c) = found {
                self.configs.push(c);
            }
        }
        self.phase = CascadePhase::Finished;
    }
}

/// While every directory is plain and has a parent but perhaps the last,
/// the walk collects the configurations present, in order; it ends at the
/// last directory only if that one has no parent.
proof fn walk_collects(steps: Seq<(Option<LoadedConfig>, bool)>)
    requires
        reaches_last(steps),
        steps.len() > 0 ==> plain(steps.last().0),
    ensures
        walk_steps(steps).0 == present(found_in(steps)),
        walk_steps(steps).1 == if steps.len() > 0 && !steps.last().1 {
            CascadePhase::UserLookup
        } else {
            CascadePhase::Walking
        },
    decreases steps.len(),
{
    if steps.len() > 0 {
        let prev = steps.drop_last();
        assert forall|i: int| 0 <= i < prev.len() - 1 implies plain((#[trigger] prev[i]).0)
            && prev[i].1 by {
            assert(prev[i] == steps[i]);
        }
        if prev.len() > 0 {
            assert(prev.last() == steps[steps.len() - 2]);
        }
        walk_collects(prev);
        assert(found_in(steps).drop_last() =~= found_in(prev));
        assert(found_in(steps).last() == steps.last().0);
        match steps.last().0 {
            Some(c) => {
                assert(present(found_in(steps)) =~= present(found_in(prev)).push(c));
            },
            None => {
                assert(present(found_in(steps)) =~= present(found_in(prev)));
            },
        }
    }
}

/// The walk reaches its last directory with the configurations present
/// before it, and that directory decides the outcome.
proof fn walk_reaches_last(steps: Seq<(Option<LoadedConfig>, bool)>)
    requires
        steps.len() > 0,
        reaches_last(steps),
    ensures
        walk_steps(steps) == after_directory(
            present(found_in(steps.drop_last())),
            steps.last().0,
            steps.last().1,
        ),
{
    let prev = steps.drop_last();
    assert forall|i: int| 0 <= i < prev.len() - 1 implies plain((#[trigger] prev[i]).0)
        && prev[i].1 by {
        assert(prev[i] == steps[i]);
    }
    if prev.len() > 0 {
        assert(prev.last() == steps[steps.len() - 2]);
    }
    walk_collects(prev);
}

/// Cascade order: when no directory stops the walk early, the
/// configurations come in directory order, most specific first; a
/// user-level configuration added afterwards comes last, and the merged
/// rules are each directory's rules in that order followed by the
/// user-level rules.
pub proof fn cascade_order(steps: Seq<(Option<LoadedConfig>, bool)>, user: LoadedConfig)
    requires
        reaches_last(steps),
        steps.len() > 0 ==> plain(steps.last().0),
    ensures
        walk_steps(steps).0 == present(found_in(steps)),
        tagged_rules(walk_steps(steps).0.push(user)) == tagged_rules(walk_steps(steps).0)
            + tagged(user),
{
    walk_collects(steps);
    let w = walk_steps(steps).0;
    assert(w.push(user).drop_last() =~= w);
}

/// A root configuration stops the walk after its directory, keeping the
/// configurations found so far in directory order with it last; the
/// user-level lookup still follows.
pub proof fn root_config_stops_walk(steps: Seq<(Option<LoadedConfig>, bool)>)
    requires
        steps.len() > 0,
        reaches_last(steps),
        steps.last().0 is Some,
        steps.last().0->0.config.root,
        !steps.last().0->0.config.no_external_lookup,
    ensures
        walk_steps(steps) == (present(found_in(steps)), CascadePhase::UserLookup),
{
    walk_reaches_last(steps);
    let prev = steps.drop_last();
    assert(found_in(steps).drop_last() =~= found_in(prev));
    assert(found_in(steps).last() == steps.last().0);
    assert(present(found_in(steps)) =~= present(found_in(prev)).push(steps.last().0->0));
}

/// An authoritative configuration ends the cascade: once the walk reaches
/// it, the configurations are that one alone, nothing more is consulted,
/// and the merged rules are its rules alone.
pub proof fn authoritative_config_ends_cascade(steps: Seq<(Option<LoadedConfig>, bool)>)
    requires
        steps.len() > 0,
        reaches_last(steps),
        steps.last().0 is Some,
        steps.last().0->0.config.no_external_lookup,
    ensures
        walk_steps(steps) == (seq![steps.last().0->0], CascadePhase::Finished),
        tagged_rules(walk_steps(steps).0) == tagged(steps.last().0->0),
{
    walk_reaches_last(steps);
    let s = seq![steps.last().0->0];
    assert(s.drop_last() =~= Seq::<LoadedConfig>::empty());
    assert(tagged_rules(s.drop_last()) =~= Seq::<crate::config::RuleWithSource>::empty());
    assert(tagged_rules(s) =~= tagged(steps.last().0->0));
}

/// Once the walk has stopped, later directories change nothing.
pub proof fn stopped_walk_stays(steps: Seq<(Option<LoadedConfig>, bool)>, more: Seq<
    (Option<LoadedConfig>, bool),
>)
    requires
        walk_steps(steps).1 != CascadePhase::Walking,
    ensures
        walk_steps(steps + more) == walk_steps(steps),
    decreases more.len(),
{
    if more.len() == 0 {
        assert(steps + more =~= steps);
    } else {
        stopped_walk_stays(steps, more.drop_last());
        assert((steps + more).drop_last() =~= steps + more.drop_last());
    }
}

} // verus!
