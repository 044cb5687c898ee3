//! The level filters of a logger: which directive decides on a record, and
//! what a sequence of per-module overrides does to a set of directives.
//!
//! A set of directives is a map from a name to the rank of a level filter.
//! The name is the module a directive is for, or `None` for the global
//! directive, which applies to every record. The tee's filter starts from a
//! global directive at the `Error` level, and overrides only add to it: an
//! override changes what is decided for the targets its module is a prefix
//! of, and for no others. The empty module name is a prefix of every target,
//! so an override of it sets the global level.

use vstd::prelude::*;
use crate::level::{Level, LevelFilter};

verus! {

/// A set of directives.
pub type Directives = Map<Option<Seq<char>>, int>;

/// One per-module override as callers write it: the module and its level.
pub type LogTarget = (&'static str, LevelFilter);

/// The empty set of directives.
pub open spec fn no_directives() -> Directives {
    Map::empty()
}

/// The directives every tee starts from: a global one at the `Error` level.
pub open spec fn default_directives() -> Directives {
    no_directives().insert(None, LevelFilter::Error.rank())
}

/// The name of the directive that an override of this module sets: the
/// global directive for the empty module name, the module's own otherwise.
pub open spec fn directive_name(module: Seq<char>) -> Option<Seq<char>> {
    if module.len() == 0 {
        None
    } else {
        Some(module)
    }
}

/// Whether a directive of this name applies to records of the target: the
/// global directive applies to all, a module's to the targets it starts.
pub open spec fn applies(name: Option<Seq<char>>, target: Seq<char>) -> bool {
    match name {
        Some(module) => module.is_prefix_of(target),
        None => true,
    }
}

/// Length of a directive's name; the global directive has none.
pub open spec fn name_len(name: Option<Seq<char>>) -> nat {
    match name {
        Some(module) => module.len(),
        None => 0,
    }
}

/// Whether the directive of this name is the one that decides on records of
/// the target: among the directives that apply, it has the longest name.
pub open spec fn decides(directives: Directives, target: Seq<char>, name: Option<Seq<char>>) -> bool {
    &&& directives.dom().contains(name)
    &&& applies(name, target)
    &&& forall|other: Option<Seq<char>>|
        #![trigger directives.dom().contains(other)]
        directives.dom().contains(other) && applies(other, target) ==> name_len(other) <= name_len(name)
}

/// Whether the directives let a record of this target and level through: the
/// deciding directive exists and its level is at least as verbose.
pub open spec fn admits(directives: Directives, target: Seq<char>, level: Level) -> bool {
    exists|name: Option<Seq<char>>| #[trigger]
        decides(directives, target, name) && level.rank() <= directives[name]
}

/// Whether at most one directive can decide on any target. Only the global
/// directive and a directive for the empty module name can tie.
pub open spec fn unambiguous(directives: Directives) -> bool {
    !(directives.dom().contains(None) && directives.dom().contains(Some(Seq::<char>::empty())))
}

/// The directives a built logger works with: those its builder held, or,
/// where it held none, a single global directive at the `Error` level.
pub open spec fn active(directives: Directives) -> Directives {
    if directives.dom() =~= Set::<Option<Seq<char>>>::empty() {
        default_directives()
    } else {
        directives
    }
}

/// The level that a sequence of overrides leaves a module with: that of the
/// last override that names the module, if any does.
pub open spec fn last_override(log_targets: Seq<LogTarget>, module: Seq<char>) -> Option<LevelFilter>
    decreases log_targets.len(),
{
    if log_targets.len() == 0 {
        None
    } else if log_targets.last().0@ == module {
        Some(log_targets.last().1)
    } else {
        last_override(log_targets.drop_last(), module)
    }
}

/// The level that a sequence of overrides sets the directive of this name
/// to, if any of them sets it.
pub open spec fn overridden(log_targets: Seq<LogTarget>, name: Option<Seq<char>>) -> Option<LevelFilter> {
    match name {
        None => last_override(log_targets, Seq::<char>::empty()),
        Some(module) => if module.len() == 0 {
            None
        } else {
            last_override(log_targets, module)
        },
    }
}

/// The directives that result from applying the overrides, in order, on top
/// of `base`: a directive that overrides set has the level of the last of
/// them, every other directive is as in `base`.
pub open spec fn configured(base: Directives, log_targets: Seq<LogTarget>) -> Directives {
    Map::new(
        |name: Option<Seq<char>>| base.dom().contains(name) || overridden(log_targets, name) is Some,
        |name: Option<Seq<char>>|
            match overridden(log_targets, name) {
                Some(level) => level.rank(),
                None => base[name],
            },
    )
}

/// The directives the tee filters by when it is installed with these
/// overrides: the default global level and the overrides on top of it.
pub open spec fn tee_filter(log_targets: Seq<LogTarget>) -> Directives {
    configured(default_directives(), log_targets)
}

/// Applying no override changes nothing.
pub proof fn lemma_configured_none(base: Directives)
    ensures
        configured(base, Seq::<LogTarget>::empty()) =~= base,
{
}

/// Applying one more override sets the directive it names and leaves the
/// others as they were.
pub proof fn lemma_configured_push(base: Directives, log_targets: Seq<LogTarget>, next: LogTarget)
    ensures
        configured(base, log_targets.push(next)) =~= configured(base, log_targets).insert(
            directive_name(next.0@),
            next.1.rank(),
        ),
{
    let longer = log_targets.push(next);
    assert(longer.drop_last() =~= log_targets);
    assert(longer.last() == next);
    assert forall|name: Option<Seq<char>>|
        overridden(longer, name) == (if directive_name(next.0@) == name {
            Some(next.1)
        } else {
            #[trigger] overridden(log_targets, name)
        }) by {
        if next.0@.len() == 0 {
            assert(next.0@ =~= Seq::<char>::empty());
        }
    }
}

/// Overrides never leave both a global directive and one for the empty
/// module name behind.
pub proof fn lemma_tee_filter_unambiguous(log_targets: Seq<LogTarget>)
    ensures
        unambiguous(tee_filter(log_targets)),
        tee_filter(log_targets).dom().contains(None),
        active(tee_filter(log_targets)) == tee_filter(log_targets),
{
    let filter = tee_filter(log_targets);
    assert(default_directives().dom().contains(None));
    assert(filter.dom().contains(None));
    assert(!filter.dom().contains(Some(Seq::<char>::empty())));
}

/// Among several overrides of one module the last one wins: where
/// `log_targets[i]` names the module and no later override does, the module's
/// level is that of `log_targets[i]`.
pub proof fn lemma_last_override_wins(log_targets: Seq<LogTarget>, i: int, module: Seq<char>)
    requires
        0 <= i < log_targets.len(),
        log_targets[i].0@ == module,
        forall|j: int| i < j < log_targets.len() ==> (#[trigger] log_targets[j]).0@ != module,
    ensures
        last_override(log_targets, module) == Some(log_targets[i].1),
    decreases log_targets.len(),
{
    if i < log_targets.len() - 1 {
        lemma_last_override_wins(log_targets.drop_last(), i, module);
    }
}

/// A module has a level by the overrides only if one of them names it.
pub proof fn lemma_override_has_source(log_targets: Seq<LogTarget>, module: Seq<char>)
    requires
        last_override(log_targets, module) is Some,
    ensures
        exists|i: int| 0 <= i < log_targets.len() && (#[trigger] log_targets[i]).0@ == module,
    decreases log_targets.len(),
{
    if log_targets.last().0@ == module {
        assert(log_targets[log_targets.len() - 1].0@ == module);
    } else {
        lemma_override_has_source(log_targets.drop_last(), module);
        let i = choose|i: int|
            0 <= i < log_targets.drop_last().len() && (#[trigger] log_targets.drop_last()[i]).0@ == module;
        assert(log_targets[i].0@ == module);
    }
}

/// A directive that no override sets is in the result exactly as it was in
/// `base`.
pub proof fn lemma_other_directives_kept(base: Directives, log_targets: Seq<LogTarget>, name: Option<Seq<char>>)
    requires
        overridden(log_targets, name) is None,
    ensures
        configured(base, log_targets).dom().contains(name) == base.dom().contains(name),
        base.dom().contains(name) ==> configured(base, log_targets)[name] == base[name],
{
}

/// Filter precedence on top of any directives: where `log_targets[i]` is the
/// last override of its module, the directive it names is of that override's
/// level in the result, whatever `base` and the earlier overrides said.
pub proof fn lemma_last_override_configured(base: Directives, log_targets: Seq<LogTarget>, i: int)
    requires
        0 <= i < log_targets.len(),
        forall|j: int| i < j < log_targets.len() ==> (#[trigger] log_targets[j]).0@ != log_targets[i].0@,
    ensures
        configured(base, log_targets).dom().contains(directive_name(log_targets[i].0@)),
        configured(base, log_targets)[directive_name(log_targets[i].0@)] == log_targets[i].1.rank(),
{
    let module = log_targets[i].0@;
    lemma_last_override_wins(log_targets, i, module);
    if module.len() == 0 {
        assert(module =~= Seq::<char>::empty());
    }
}

/// The directive that an override of the record's target would set decides
/// on the record, where the directives hold it.
pub proof fn lemma_exact_directive_decides(directives: Directives, target: Seq<char>, level: Level)
    requires
        unambiguous(directives),
        directives.dom().contains(directive_name(target)),
    ensures
        admits(directives, target, level) <==> level.rank() <= directives[directive_name(target)],
{
    let exact = directive_name(target);
    assert(target.is_prefix_of(target));
    assert(applies(exact, target));
    assert forall|other: Option<Seq<char>>|
        #![trigger directives.dom().contains(other)]
        directives.dom().contains(other) && applies(other, target) implies name_len(other)
        <= name_len(exact) by {}
    assert(decides(directives, target, exact));
    assert forall|name: Option<Seq<char>>| #[trigger]
        decides(directives, target, name) implies name == exact by {
        assert(name_len(exact) <= name_len(name));
        if let Some(module) = name {
            assert(module =~= target);
            if target.len() == 0 {
                assert(module =~= Seq::<char>::empty());
            }
        }
    }
}

/// Filter precedence: a record whose target is an overridden module is
/// admitted exactly when the last override of that module is at least as
/// verbose as the record.
pub proof fn lemma_last_override_admits(log_targets: Seq<LogTarget>, i: int, level: Level)
    requires
        0 <= i < log_targets.len(),
        forall|j: int| i < j < log_targets.len() ==> (#[trigger] log_targets[j]).0@ != log_targets[i].0@,
    ensures
        admits(tee_filter(log_targets), log_targets[i].0@, level) <==> log_targets[i].1.admits(level),
{
    lemma_last_override_configured(default_directives(), log_targets, i);
    lemma_tee_filter_unambiguous(log_targets);
    lemma_exact_directive_decides(tee_filter(log_targets), log_targets[i].0@, level);
}

/// With no override at all, the tee admits the records of the `Error` level
/// and no others.
pub proof fn lemma_default_admits_errors(target: Seq<char>, level: Level)
    ensures
        admits(tee_filter(Seq::<LogTarget>::empty()), target, level) <==> level == Level::Error,
{
    let directives = tee_filter(Seq::<LogTarget>::empty());
    assert(directives.dom().contains(None));
    assert(decides(directives, target, None));
    assert forall|name: Option<Seq<char>>| #[trigger]
        decides(directives, target, name) implies name == None::<Seq<char>> by {}
}

/// Overrides are additive over the default filter: for a target that no
/// override's module is a prefix of, the verdict with the overrides is the
/// verdict without them.
pub proof fn lemma_overrides_are_additive(log_targets: Seq<LogTarget>, target: Seq<char>, level: Level)
    requires
        forall|i: int| 0 <= i < log_targets.len() ==> !(#[trigger] log_targets[i]).0@.is_prefix_of(target),
    ensures
        admits(tee_filter(log_targets), target, level) <==> admits(
            tee_filter(Seq::<LogTarget>::empty()),
            target,
            level,
        ),
{
    let with = tee_filter(log_targets);
    let global: Option<Seq<char>> = None;
    assert(Seq::<char>::empty().is_prefix_of(target));
    if last_override(log_targets, Seq::<char>::empty()) is Some {
        lemma_override_has_source(log_targets, Seq::<char>::empty());
    }
    assert(with.dom().contains(global));
    assert(with[global] == LevelFilter::Error.rank());
    assert forall|name: Option<Seq<char>>|
        #![trigger with.dom().contains(name)]
        with.dom().contains(name) && applies(name, target) implies name == global by {
        if let Some(module) = name {
            assert(overridden(log_targets, name) is Some);
            lemma_override_has_source(log_targets, module);
        }
    }
    assert(decides(with, target, global));
    assert forall|name: Option<Seq<char>>| #[trigger] decides(with, target, name) implies name
        == global by {}
    lemma_default_admits_errors(target, level);
}

} // verus!
