//! Making the `env_logger` builder of the log tee, and asking a logger built
//! from it which records it lets through.

use vstd::prelude::*;
use crate::filter::{
    active, admits, configured, directive_name, lemma_configured_none, lemma_configured_push,
    lemma_tee_filter_unambiguous, no_directives, tee_filter, unambiguous, LogTarget,
};
use crate::level::{Level, LevelFilter};

verus! {

/// `env_logger::Builder`, carried as an opaque value.
#[verifier::external_type_specification]
#[verifier::external_body]
pub struct ExBuilder(env_logger::Builder);

/// `env_logger::Logger`, carried as an opaque value.
#[verifier::external_type_specification]
#[verifier::external_body]
pub struct ExLogger(env_logger::Logger);

/// The directives a builder holds, by name, each with the rank of its level.
pub uninterp spec fn directives(builder: env_logger::Builder) -> Map<Option<Seq<char>>, int>;

/// Whether a logger has already been built from the builder.
pub uninterp spec fn consumed(builder: env_logger::Builder) -> bool;

/// Whether the builder is set to write styles whatever the terminal supports.
pub uninterp spec fn forces_style(builder: env_logger::Builder) -> bool;

/// Whether the builder is set to print in the way test harnesses capture.
pub uninterp spec fn captures_output(builder: env_logger::Builder) -> bool;

/// Whether the builder is set to write to standard output.
pub uninterp spec fn writes_to_stdout(builder: env_logger::Builder) -> bool;

/// The directives a built logger filters by.
pub uninterp spec fn logger_directives(logger: env_logger::Logger) -> Map<Option<Seq<char>>, int>;

/// Whether two builders agree in everything but their directives.
pub open spec fn same_output(before: env_logger::Builder, after: env_logger::Builder) -> bool {
    &&& consumed(after) == consumed(before)
    &&& forces_style(after) == forces_style(before)
    &&& captures_output(after) == captures_output(before)
    &&& writes_to_stdout(after) == writes_to_stdout(before)
}

/// A builder that holds no directive.
///
/// Trusted: `env_logger::Builder::new`, which reads no environment variable
/// and starts from an empty map of directives, with nothing built yet.
#[verifier::external_body]
fn fresh_builder() -> (builder: env_logger::Builder)
    ensures
        directives(builder) == no_directives(),
        !consumed(builder),
{
    env_logger::Builder::new()
}

/// Adds a directive for one module.
///
/// Trusted: `env_logger::Builder::filter_module`, which inserts the level
/// into the builder's map of directives under the module's name, replacing
/// what the map held for that name, and touches nothing else.
#[verifier::external_body]
fn filter_module(builder: &mut env_logger::Builder, module: &str, level: LevelFilter)
    ensures
        directives(*final(builder)) == directives(*old(builder)).insert(Some(module@), level.rank()),
        same_output(*old(builder), *final(builder)),
{
    let outside = match level {
        LevelFilter::Off => log::LevelFilter::Off,
        LevelFilter::Error => log::LevelFilter::Error,
        LevelFilter::Warn => log::LevelFilter::Warn,
        LevelFilter::Info => log::LevelFilter::Info,
        LevelFilter::Debug => log::LevelFilter::Debug,
        LevelFilter::Trace => log::LevelFilter::Trace,
    };
    builder.filter_module(module, outside);
}

/// Sets the global directive.
///
/// Trusted: `env_logger::Builder::filter_level`, which inserts the level
/// into the builder's map of directives under no name, replacing what the
/// map held there, and touches nothing else.
#[verifier::external_body]
fn filter_level(builder: &mut env_logger::Builder, level: LevelFilter)
    ensures
        directives(*final(builder)) == directives(*old(builder)).insert(None, level.rank()),
        same_output(*old(builder), *final(builder)),
{
    let outside = match level {
        LevelFilter::Off => log::LevelFilter::Off,
        LevelFilter::Error => log::LevelFilter::Error,
        LevelFilter::Warn => log::LevelFilter::Warn,
        LevelFilter::Info => log::LevelFilter::Info,
        LevelFilter::Debug => log::LevelFilter::Debug,
        LevelFilter::Trace => log::LevelFilter::Trace,
    };
    builder.filter_level(outside);
}

/// Makes the logger write styles always.
///
/// Trusted: `env_logger::Builder::write_style` with `WriteStyle::Always`,
/// which stores the choice in the builder's writer settings.
#[verifier::external_body]
fn force_style(builder: &mut env_logger::Builder)
    ensures
        forces_style(*final(builder)),
        directives(*final(builder)) == directives(*old(builder)),
        consumed(*final(builder)) == consumed(*old(builder)),
        captures_output(*final(builder)) == captures_output(*old(builder)),
        writes_to_stdout(*final(builder)) == writes_to_stdout(*old(builder)),
{
    builder.write_style(env_logger::WriteStyle::Always);
}

/// Makes the logger write to standard output.
///
/// Trusted: `env_logger::Builder::target` with `Target::Stdout`, which
/// stores the target in the builder's writer settings.
#[verifier::external_body]
fn target_stdout(builder: &mut env_logger::Builder)
    ensures
        writes_to_stdout(*final(builder)),
        directives(*final(builder)) == directives(*old(builder)),
        consumed(*final(builder)) == consumed(*old(builder)),
        forces_style(*final(builder)) == forces_style(*old(builder)),
        captures_output(*final(builder)) == captures_output(*old(builder)),
{
    builder.target(env_logger::Target::Stdout);
}

/// Makes the logger print in the way test harnesses capture.
///
/// Trusted: `env_logger::Builder::is_test` with `true`, which stores the
/// flag in the builder's writer settings.
#[verifier::external_body]
fn capture_output(builder: &mut env_logger::Builder)
    ensures
        captures_output(*final(builder)),
        directives(*final(builder)) == directives(*old(builder)),
        consumed(*final(builder)) == consumed(*old(builder)),
        forces_style(*final(builder)) == forces_style(*old(builder)),
        writes_to_stdout(*final(builder)) == writes_to_stdout(*old(builder)),
{
    builder.is_test(true);
}

/// Builds the logger.
///
/// Trusted: `env_logger::Builder::build`, which panics on a builder that was
/// built from before, and otherwise gives the logger the builder's
/// directives, or a single global `Error` directive where it holds none.
#[verifier::external_body]
fn build(builder: env_logger::Builder) -> (logger: env_logger::Logger)
    requires
        !consumed(builder),
    ensures
        logger_directives(logger) == active(directives(builder)),
{
    let mut builder = builder;
    builder.build()
}

/// Asks a logger whether it lets a record of this target and level through.
///
/// Trusted: `env_logger::Logger`'s `log::Log::enabled`, which walks the
/// directives from the longest name to the shortest and answers by the first
/// whose name is a prefix of the target (the global directive has the empty
/// name): the record's level must not be more verbose than the directive's.
/// It answers `false` where no directive applies. A global directive and one
/// for the empty module name have the same length and both apply to every
/// target, so which of them is met first is not fixed; such directives are
/// left out.
#[verifier::external_body]
fn enabled(logger: &env_logger::Logger, target: &str, level: Level) -> (verdict: bool)
    requires
        unambiguous(logger_directives(*logger)),
    ensures
        verdict == admits(logger_directives(*logger), target@, level),
{
    let outside = match level {
        Level::Error => log::Level::Error,
        Level::Warn => log::Level::Warn,
        Level::Info => log::Level::Info,
        Level::Debug => log::Level::Debug,
        Level::Trace => log::Level::Trace,
    };
    let metadata = log::Metadata::builder().level(outside).target(target).build();
    log::Log::enabled(logger, &metadata)
}

/// Applies the overrides to the builder, in the order given. An override of
/// the empty module name sets the global directive.
fn apply_filters(builder: &mut env_logger::Builder, log_targets: &Vec<LogTarget>)
    ensures
        directives(*final(builder)) == configured(directives(*old(builder)), log_targets@),
        same_output(*old(builder), *final(builder)),
{
    let mut i: usize = 0;
    proof {
        lemma_configured_none(directives(*builder));
        assert(log_targets@.take(0) =~= Seq::<LogTarget>::empty());
    }
    while i < log_targets.len()
        invariant
            i <= log_targets.len(),
            directives(*builder) == configured(directives(*old(builder)), log_targets@.take(i as int)),
            same_output(*old(builder), *builder),
        decreases log_targets.len() - i,
    {
        let module: &'static str = log_targets[i].0;
        let level: LevelFilter = log_targets[i].1;
        if module.is_empty() {
            filter_level(builder, level);
        } else {
            filter_module(builder, module, level);
        }
        proof {
            let done = log_targets@.take(i as int);
            lemma_configured_push(directives(*old(builder)), done, log_targets@[i as int]);
            assert(log_targets@.take(i + 1) =~= done.push(log_targets@[i as int]));
            assert(directive_name(module@) == if module@.len() == 0 {
                None
            } else {
                Some(module@)
            });
        }
        i += 1;
    }
    proof {
        assert(log_targets@.take(i as int) =~= log_targets@);
    }
}

/// A builder that holds the tee's filter for these overrides and nothing
/// from the environment.
fn filtering_builder(log_targets: &Vec<LogTarget>) -> (builder: env_logger::Builder)
    ensures
        directives(builder) == tee_filter(log_targets@),
        !consumed(builder),
{
    let mut builder = fresh_builder();
    filter_level(&mut builder, LevelFilter::Error);
    apply_filters(&mut builder, log_targets);
    builder
}

/// Makes the builder of the global logger for the log tee. It holds the
/// global directive at the `Error` level and, on top of it, each
/// `(module, level)` of `log_targets` in the order given, so that of several
/// overrides of one module the last one stays. Styles are written always,
/// and output goes to standard output in the way test harnesses capture.
/// No logger has been built from it yet, and the environment is not read.
pub fn logger(log_targets: Vec<LogTarget>) -> (builder: env_logger::Builder)
    ensures
        directives(builder) == tee_filter(log_targets@),
        forces_style(builder),
        writes_to_stdout(builder),
        captures_output(builder),
        !consumed(builder),
{
    let mut builder = filtering_builder(&log_targets);
    force_style(&mut builder);
    target_stdout(&mut builder);
    capture_output(&mut builder);
    builder
}

/// Whether the tee's logger for these overrides lets a record of this target
/// and level through.
pub fn accepts(log_targets: &Vec<LogTarget>, target: &str, level: Level) -> (verdict: bool)
    ensures
        verdict == admits(tee_filter(log_targets@), target@, level),
{
    let builder = filtering_builder(log_targets);
    proof {
        lemma_tee_filter_unambiguous(log_targets@);
    }
    let built = build(builder);
    enabled(&built, target, level)
}

} // verus!
