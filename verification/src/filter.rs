//! Filter controller: the active log filter, sourced from an environment
//! override or a default, with an optional reload handle.
//!
//! A directive string is a comma-separated list of directives; a directive is
//! either a bare level name (`info`) setting the global level, or
//! `component=level` scoping a level to one component. A string that does not
//! follow this grammar is malformed: initialization then falls back to the
//! default level and never fails, and a reload leaves the active filter
//! unchanged and reports the error.

use vstd::prelude::*;

use crate::bytes::copy_range;
use crate::bytes::vec_eq;

verus! {

/// The byte that separates directives.
pub const DIRECTIVE_SEPARATOR: u8 = 44;

/// The byte that separates a component from its level.
pub const LEVEL_SEPARATOR: u8 = 61;

/// Log severity / verbosity level, most severe first.
#[derive(Clone, Copy, Debug, PartialEq, Eq, Structural)]
pub enum Level {
    /// Nothing is logged.
    Off,
    /// Only errors.
    Error,
    /// Warnings and errors.
    Warn,
    /// Informational records and above.
    Info,
    /// Debug records and above.
    Debug,
    /// Everything.
    Trace,
}

/// The spelling of a level name in a directive string.
pub open spec fn level_name(l: Level) -> Seq<u8> {
    match l {
        Level::Off => seq![111, 102, 102],
        Level::Error => seq![101, 114, 114, 111, 114],
        Level::Warn => seq![119, 97, 114, 110],
        Level::Info => seq![105, 110, 102, 111],
        Level::Debug => seq![100, 101, 98, 117, 103],
        Level::Trace => seq![116, 114, 97, 99, 101],
    }
}

/// The level spelled by `s`, if any.
pub open spec fn parse_level_spec(s: Seq<u8>) -> Option<Level> {
    if s == level_name(Level::Off) {
        Some(Level::Off)
    } else if s == level_name(Level::Error) {
        Some(Level::Error)
    } else if s == level_name(Level::Warn) {
        Some(Level::Warn)
    } else if s == level_name(Level::Info) {
        Some(Level::Info)
    } else if s == level_name(Level::Debug) {
        Some(Level::Debug)
    } else if s == level_name(Level::Trace) {
        Some(Level::Trace)
    } else {
        None
    }
}

/// One per-component override.
pub struct Directive {
    /// The component the override applies to; non-empty.
    pub component: Vec<u8>,
    /// The level it gets.
    pub level: Level,
}

/// The mathematical value of a [`Directive`].
pub struct DirectiveModel {
    /// The component as a byte sequence.
    pub component: Seq<u8>,
    /// The level it gets.
    pub level: Level,
}

impl View for Directive {
    type V = DirectiveModel;

    open spec fn view(&self) -> DirectiveModel {
        DirectiveModel { component: self.component@, level: self.level }
    }
}

/// The mathematical values of a run of directives.
pub open spec fn dirs_model(ds: Seq<Directive>) -> Seq<DirectiveModel> {
    ds.map_values(|d: Directive| d@)
}

/// The active filter: a global minimum level and per-component overrides.
pub struct FilterState {
    /// Level of every component without an override.
    pub level: Level,
    /// Per-component overrides, in directive order; later ones win.
    pub directives: Vec<Directive>,
}

/// The mathematical value of a [`FilterState`].
pub struct FilterModel {
    /// Level of every component without an override.
    pub level: Level,
    /// Per-component overrides, in directive order; later ones win.
    pub directives: Seq<DirectiveModel>,
}

impl View for FilterState {
    type V = FilterModel;

    open spec fn view(&self) -> FilterModel {
        FilterModel { level: self.level, directives: dirs_model(self.directives@) }
    }
}

/// Raised by a reload whose directive string is malformed.
pub enum FilterParseError {
    /// The string does not follow the directive grammar.
    Malformed,
}

/// Position of the first directive separator at or after `from`, or the end
/// of the string.
pub open spec fn seg_end(s: Seq<u8>, from: int) -> int
    decreases s.len() - from,
    when 0 <= from <= s.len()
{
    if from >= s.len() {
        s.len() as int
    } else if s[from] == DIRECTIVE_SEPARATOR {
        from
    } else {
        seg_end(s, from + 1)
    }
}

/// The segment ends at or after its start, and no later than the string.
pub proof fn lemma_seg_end_bounds(s: Seq<u8>, from: int)
    requires
        0 <= from <= s.len(),
    ensures
        from <= seg_end(s, from) <= s.len(),
    decreases s.len() - from,
{
    if from < s.len() && s[from] != DIRECTIVE_SEPARATOR {
        lemma_seg_end_bounds(s, from + 1);
    }
}

/// Position of the first `b` in `s` between `from` and `to`, or `to`.
pub open spec fn find_in(s: Seq<u8>, b: u8, from: int, to: int) -> int
    decreases to - from,
    when 0 <= from <= to <= s.len()
{
    if from >= to {
        to
    } else if s[from] == b {
        from
    } else {
        find_in(s, b, from + 1, to)
    }
}

/// The found position lies between the search bounds.
pub proof fn lemma_find_in_bounds(s: Seq<u8>, b: u8, from: int, to: int)
    requires
        0 <= from <= to <= s.len(),
    ensures
        from <= find_in(s, b, from, to) <= to,
    decreases to - from,
{
    if from < to && s[from] != b {
        lemma_find_in_bounds(s, b, from + 1, to);
    }
}

/// Parses the directives of `s` from position `from`, over a filter that so
/// far has global level `level` and overrides `dirs`: each directive either
/// replaces the global level or appends one override. `None` exactly when
/// some directive is malformed.
pub open spec fn parse_run(s: Seq<u8>, from: int, level: Level, dirs: Seq<DirectiveModel>) -> Option<
    FilterModel,
>
    decreases s.len() - from,
    when 0 <= from <= s.len()
    via parse_run_decreases
{
    let e = seg_end(s, from);
    let eq = find_in(s, LEVEL_SEPARATOR, from, e);
    if eq == e {
        match parse_level_spec(s.subrange(from, e)) {
            Some(l) => if e >= s.len() {
                Some(FilterModel { level: l, directives: dirs })
            } else {
                parse_run(s, e + 1, l, dirs)
            },
            None => None,
        }
    } else if eq > from {
        match parse_level_spec(s.subrange(eq + 1, e)) {
            Some(l) => {
                let dirs2 = dirs.push(DirectiveModel { component: s.subrange(from, eq), level: l });
                if e >= s.len() {
                    Some(FilterModel { level, directives: dirs2 })
                } else {
                    parse_run(s, e + 1, level, dirs2)
                }
            },
            None => None,
        }
    } else {
        None
    }
}

#[via_fn]
proof fn parse_run_decreases(s: Seq<u8>, from: int, level: Level, dirs: Seq<DirectiveModel>) {
    lemma_seg_end_bounds(s, from);
}

/// The filter denoted by the whole directive string `s`, over the default
/// global level `default`; `None` exactly when `s` is malformed.
pub open spec fn parse_directives_spec(s: Seq<u8>, default: Level) -> Option<FilterModel> {
    parse_run(s, 0, default, Seq::empty())
}

/// The filter model of the default level alone.
pub open spec fn default_model(default: Level) -> FilterModel {
    FilterModel { level: default, directives: Seq::empty() }
}

/// The filter that initialization yields: the environment override when it
/// parses, else the default level.
pub open spec fn init_spec(env_value: Option<Seq<u8>>, default: Level) -> FilterModel {
    match env_value {
        None => default_model(default),
        Some(s) => match parse_directives_spec(s, default) {
            Some(m) => m,
            None => default_model(default),
        },
    }
}

/// Parses the level spelled between `from` and `to`.
fn parse_level_range(v: &Vec<u8>, from: usize, to: usize) -> (r: Option<Level>)
    requires
        from <= to <= v@.len(),
    ensures
        r == parse_level_spec(v@.subrange(from as int, to as int)),
{
    let ghost s = v@.subrange(from as int, to as int);
    let n = to - from;
    if n == 3 && v[from] == 111 && v[from + 1] == 102 && v[from + 2] == 102 {
        proof {
            assert(s =~= level_name(Level::Off));
        }
        Some(Level::Off)
    } else if n == 5 && v[from] == 101 && v[from + 1] == 114 && v[from + 2] == 114 && v[from + 3]
        == 111 && v[from + 4] == 114 {
        proof {
            assert(s =~= level_name(Level::Error));
        }
        Some(Level::Error)
    } else if n == 4 && v[from] == 119 && v[from + 1] == 97 && v[from + 2] == 114 && v[from + 3]
        == 110 {
        proof {
            assert(s =~= level_name(Level::Warn));
        }
        Some(Level::Warn)
    } else if n == 4 && v[from] == 105 && v[from + 1] == 110 && v[from + 2] == 102 && v[from + 3]
        == 111 {
        proof {
            assert(s =~= level_name(Level::Info));
        }
        Some(Level::Info)
    } else if n == 5 && v[from] == 100 && v[from + 1] == 101 && v[from + 2] == 98 && v[from + 3]
        == 117 && v[from + 4] == 103 {
        proof {
            assert(s =~= level_name(Level::Debug));
        }
        Some(Level::Debug)
    } else if n == 5 && v[from] == 116 && v[from + 1] == 114 && v[from + 2] == 97 && v[from + 3]
        == 99 && v[from + 4] == 101 {
        proof {
            assert(s =~= level_name(Level::Trace));
        }
        Some(Level::Trace)
    } else {
        proof {
            assert(s.len() == to - from);
            assert(s != level_name(Level::Off)) by {
                if s == level_name(Level::Off) {
                    assert(s[0] == 111 && s[1] == 102 && s[2] == 102);
                    assert(s[0] == v@[from as int] && s[1] == v@[from + 1] && s[2] == v@[from + 2]);
                }
            }
            assert(s != level_name(Level::Error)) by {
                if s == level_name(Level::Error) {
                    assert(s[0] == 101 && s[1] == 114 && s[2] == 114 && s[3] == 111 && s[4] == 114);
                    assert(s[0] == v@[from as int] && s[1] == v@[from + 1] && s[2] == v@[from + 2]
                        && s[3] == v@[from + 3] && s[4] == v@[from + 4]);
                }
            }
            assert(s != level_name(Level::Warn)) by {
                if s == level_name(Level::Warn) {
                    assert(s[0] == 119 && s[1] == 97 && s[2] == 114 && s[3] == 110);
                    assert(s[0] == v@[from as int] && s[1] == v@[from + 1] && s[2] == v@[from + 2]
                        && s[3] == v@[from + 3]);
                }
            }
            assert(s != level_name(Level::Info)) by {
                if s == level_name(Level::Info) {
                    assert(s[0] == 105 && s[1] == 110 && s[2] == 102 && s[3] == 111);
                    assert(s[0] == v@[from as int] && s[1] == v@[from + 1] && s[2] == v@[from + 2]
                        && s[3] == v@[from + 3]);
                }
            }
            assert(s != level_name(Level::Debug)) by {
                if s == level_name(Level::Debug) {
                    assert(s[0] == 100 && s[1] == 101 && s[2] == 98 && s[3] == 117 && s[4] == 103);
                    assert(s[0] == v@[from as int] && s[1] == v@[from + 1] && s[2] == v@[from + 2]
                        && s[3] == v@[from + 3] && s[4] == v@[from + 4]);
                }
            }
            assert(s != level_name(Level::Trace)) by {
                if s == level_name(Level::Trace) {
                    assert(s[0] == 116 && s[1] == 114 && s[2] == 97 && s[3] == 99 && s[4] == 101);
                    assert(s[0] == v@[from as int] && s[1] == v@[from + 1] && s[2] == v@[from + 2]
                        && s[3] == v@[from + 3] && s[4] == v@[from + 4]);
                }
            }
        }
        None
    }
}

/// Computes [`seg_end`].
fn seg_end_exec(v: &Vec<u8>, from: usize) -> (e: usize)
    requires
        from <= v@.len(),
    ensures
        e == seg_end(v@, from as int),
    decreases v@.len() - from,
{
    if from >= v.len() {
        v.len()
    } else if v[from] == DIRECTIVE_SEPARATOR {
        from
    } else {
        seg_end_exec(v, from + 1)
    }
}

/// Computes [`find_in`] for the level separator.
fn find_level_separator(v: &Vec<u8>, from: usize, to: usize) -> (e: usize)
    requires
        from <= to <= v@.len(),
    ensures
        e == find_in(v@, LEVEL_SEPARATOR, from as int, to as int),
    decreases to - from,
{
    if from >= to {
        to
    } else if v[from] == LEVEL_SEPARATOR {
        from
    } else {
        find_level_separator(v, from + 1, to)
    }
}

/// Parses directives from `from` on, extending the filter built so far.
fn parse_run_exec(v: &Vec<u8>, from: usize, level: Level, dirs: Vec<Directive>) -> (r: Option<
    FilterState,
>)
    requires
        from <= v@.len(),
    ensures
        parse_run(v@, from as int, level, dirs_model(dirs@)) is None ==> r is None,
        parse_run(v@, from as int, level, dirs_model(dirs@)) matches Some(m) ==> (r matches Some(st)
            && st@ == m),
    decreases v@.len() - from,
{
    proof {
        lemma_seg_end_bounds(v@, from as int);
    }
    let e = seg_end_exec(v, from);
    proof {
        lemma_find_in_bounds(v@, LEVEL_SEPARATOR, from as int, e as int);
    }
    let eq = find_level_separator(v, from, e);
    if eq == e {
        match parse_level_range(v, from, e) {
            Some(l) => {
                if e >= v.len() {
                    let st = FilterState { level: l, directives: dirs };
                    Some(st)
                } else {
                    parse_run_exec(v, e + 1, l, dirs)
                }
            },
            None => None,
        }
    } else if eq > from {
        match parse_level_range(v, eq + 1, e) {
            Some(l) => {
                let component = copy_range(v, from, eq);
                let mut dirs2 = dirs;
                dirs2.push(Directive { component, level: l });
                proof {
                    assert(dirs_model(dirs2@) =~= dirs_model(dirs@).push(
                        DirectiveModel { component: v@.subrange(from as int, eq as int), level: l },
                    ));
                }
                if e >= v.len() {
                    let st = FilterState { level, directives: dirs2 };
                    Some(st)
                } else {
                    parse_run_exec(v, e + 1, level, dirs2)
                }
            },
            None => None,
        }
    } else {
        None
    }
}

/// Initializes the filter: the environment override when it parses as a
/// directive string, else the default level. A malformed override never
/// fails startup.
pub fn init(env_value: Option<&Vec<u8>>, default: Level) -> (st: FilterState)
    ensures
        env_value matches Some(s) ==> st@ == init_spec(Some(s@), default),
        env_value is None ==> st@ == init_spec(None, default),
{
    proof {
        assert(dirs_model(Seq::<Directive>::empty()) =~= Seq::<DirectiveModel>::empty());
    }
    match env_value {
        None => FilterState { level: default, directives: Vec::new() },
        Some(v) => match parse_run_exec(v, 0, default, Vec::new()) {
            Some(st) => st,
            None => FilterState { level: default, directives: Vec::new() },
        },
    }
}

/// The reload capability: holds the active filter and swaps it atomically —
/// a reload commits a whole parsed filter or nothing.
pub struct FilterHandle {
    /// The default global level, fixed at initialization.
    pub default_level: Level,
    /// The active filter.
    pub state: FilterState,
}

/// The filter after one reload with the string `s`: the whole parsed filter
/// when `s` is well-formed, else the old filter unchanged.
pub open spec fn replace_spec(default: Level, m: FilterModel, s: Seq<u8>) -> FilterModel {
    match parse_directives_spec(s, default) {
        Some(m2) => m2,
        None => m,
    }
}

impl FilterHandle {
    /// Initializes the filter as [`init`] does and wraps it in a reload
    /// handle.
    pub fn init_with_reload(env_value: Option<&Vec<u8>>, default: Level) -> (h: FilterHandle)
        ensures
            h.default_level == default,
            env_value matches Some(s) ==> h.state@ == init_spec(Some(s@), default),
            env_value is None ==> h.state@ == init_spec(None, default),
    {
        FilterHandle { default_level: default, state: init(env_value, default) }
    }

    /// Atomically replaces the active filter with the filter denoted by `s`.
    /// When `s` is malformed, the active filter is left unchanged and the
    /// error is reported; a reader never observes a torn filter.
    pub fn replace(&mut self, s: &Vec<u8>) -> (r: Result<(), FilterParseError>)
        ensures
            final(self).default_level == old(self).default_level,
            final(self).state@ == replace_spec(old(self).default_level, old(self).state@, s@),
            parse_directives_spec(s@, old(self).default_level) is Some <==> r is Ok,
    {
        proof {
            assert(dirs_model(Seq::<Directive>::empty()) =~= Seq::<DirectiveModel>::empty());
        }
        match parse_run_exec(s, 0, self.default_level, Vec::new()) {
            Some(st) => {
                self.state = st;
                Ok(())
            },
            None => Err(FilterParseError::Malformed),
        }
    }

    /// The active filter.
    pub fn read(&self) -> (st: &FilterState)
        ensures
            st@ == self.state@,
    {
        &self.state
    }
}

/// Verbosity rank of a level: higher ranks log more.
pub open spec fn level_rank_spec(l: Level) -> int {
    match l {
        Level::Off => 0,
        Level::Error => 1,
        Level::Warn => 2,
        Level::Info => 3,
        Level::Debug => 4,
        Level::Trace => 5,
    }
}

/// The level a component is filtered at: the last override for it, else the
/// global level.
pub open spec fn effective_from(dirs: Seq<DirectiveModel>, component: Seq<u8>, fallback: Level) -> Level
    decreases dirs.len(),
{
    if dirs.len() == 0 {
        fallback
    } else if dirs.last().component == component {
        dirs.last().level
    } else {
        effective_from(dirs.drop_last(), component, fallback)
    }
}

/// The level `component` is filtered at under the filter `m`.
pub open spec fn effective_level_spec(m: FilterModel, component: Seq<u8>) -> Level {
    effective_from(m.directives, component, m.level)
}

/// Whether a record at level `record` from `component` passes the filter.
pub open spec fn enabled_spec(m: FilterModel, component: Seq<u8>, record: Level) -> bool {
    level_rank_spec(record) <= level_rank_spec(effective_level_spec(m, component))
}

impl FilterState {
    /// The level `component` is filtered at: its last override, else the
    /// global level.
    pub fn effective_level(&self, component: &Vec<u8>) -> (l: Level)
        ensures
            l == effective_level_spec(self@, component@),
    {
        let ghost all = dirs_model(self.directives@);
        let mut i: usize = self.directives.len();
        proof {
            assert(all.take(i as int) =~= all);
        }
        while i > 0
            invariant
                i <= self.directives@.len(),
                all == dirs_model(self.directives@),
                effective_from(all.take(i as int), component@, self.level) == effective_level_spec(
                    self@,
                    component@,
                ),
            decreases i,
        {
            let j = i - 1;
            proof {
                assert(all.take(j + 1).last() == all[j as int]);
                assert(all.take(j + 1).drop_last() =~= all.take(j as int));
            }
            if vec_eq(&self.directives[j].component, component) {
                return self.directives[j].level;
            }
            i = j;
        }
        proof {
            assert(all.take(0) =~= Seq::<DirectiveModel>::empty());
        }
        self.level
    }

    /// Whether a record at level `record` from `component` passes the
    /// filter.
    pub fn enabled(&self, component: &Vec<u8>, record: Level) -> (r: bool)
        ensures
            r == enabled_spec(self@, component@, record),
    {
        let effective = self.effective_level(component);
        let record_rank = level_rank(record);
        let effective_rank = level_rank(effective);
        record_rank <= effective_rank
    }
}

/// Computes [`level_rank_spec`].
pub fn level_rank(l: Level) -> (r: u8)
    ensures
        r as int == level_rank_spec(l),
{
    match l {
        Level::Off => 0,
        Level::Error => 1,
        Level::Warn => 2,
        Level::Info => 3,
        Level::Debug => 4,
        Level::Trace => 5,
    }
}

/// Law: filter fallback. For every malformed directive string given as the
/// environment override, initialization yields exactly the default filter —
/// it never fails.
pub proof fn lemma_filter_fallback(s: Seq<u8>, default: Level)
    requires
        parse_directives_spec(s, default) is None,
    ensures
        init_spec(Some(s), default) == default_model(default),
{
}

/// The filter after a run of reloads, applied oldest first.
pub open spec fn apply_replaces(default: Level, m: FilterModel, writes: Seq<Seq<u8>>) -> FilterModel
    decreases writes.len(),
{
    if writes.len() == 0 {
        m
    } else {
        apply_replaces(default, replace_spec(default, m, writes[0]), writes.skip(1))
    }
}

/// Law: filter reload atomicity. After any run of reloads, the filter a
/// reader observes is a whole committed value: either the initial filter or
/// the complete parse of one of the written strings — never a mix of two.
pub proof fn lemma_replace_atomic(default: Level, m: FilterModel, writes: Seq<Seq<u8>>)
    ensures
        apply_replaces(default, m, writes) == m || exists|i: int|
            0 <= i < writes.len() && #[trigger] parse_directives_spec(writes[i], default) == Some(
                apply_replaces(default, m, writes),
            ),
    decreases writes.len(),
{
    if writes.len() > 0 {
        let m1 = replace_spec(default, m, writes[0]);
        let rest = writes.skip(1);
        lemma_replace_atomic(default, m1, rest);
        let r = apply_replaces(default, m, writes);
        assert(r == apply_replaces(default, m1, rest));
        if r == m1 {
            if m1 != m {
                assert(parse_directives_spec(writes[0], default) == Some(m1));
            }
        } else {
            let j = choose|j: int|
                0 <= j < rest.len() && #[trigger] parse_directives_spec(rest[j], default) == Some(r);
            assert(rest[j] == writes[j + 1]);
            assert(parse_directives_spec(writes[j + 1], default) == Some(r));
        }
    }
}

} // verus!
