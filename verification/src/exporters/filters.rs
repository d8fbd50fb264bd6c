//! The table of filters: one default level for every target, and a fixed set
//! of chatty dependencies that are held to `Warn`.

use crate::configs::AppConfigs;
use crate::exporters::envs::{level_of, log_level};
use crate::severity::SeverityLevel;
use crate::text::same_text;
use tracing::Level;
use tracing_subscriber::filter::{LevelFilter, Targets};
use vstd::prelude::*;

verus! {

/// `tracing_subscriber::filter::Targets`, the table of directives that a
/// subscriber filters by.
#[verifier::external_type_specification]
#[verifier::external_body]
pub struct ExTargets(Targets);

/// The entries of a table: each pair of a target and a level that
/// `Targets::iter` yields, the level of `LevelFilter` written as the
/// `SeverityLevel` of the same name.
pub uninterp spec fn targets_entries(filters: Targets) -> Set<(Seq<char>, SeverityLevel)>;

/// The default of a table: what `Targets::default_level` returns, the level
/// written likewise.
pub uninterp spec fn targets_default(filters: Targets) -> Option<SeverityLevel>;

/// Whether a table is plain: none of its directives names a field of the
/// events, so that each stands for a target, or for the default, and a level.
pub uninterp spec fn targets_plain(filters: Targets) -> bool;

/// `Targets::new`: a plain table with no entry and no default.
#[verifier::external_body]
fn empty_table() -> (r: Targets)
    ensures
        targets_entries(r) == Set::<(Seq<char>, SeverityLevel)>::empty(),
        targets_default(r) is None,
        targets_plain(r),
{
    Targets::new()
}

/// `Targets::with_default`, on a table that has no default yet: the table
/// gets `level` as its default and keeps its entries. The directive that is
/// added names no field.
#[verifier::external_body]
fn with_default(filters: Targets, level: SeverityLevel) -> (r: Targets)
    requires
        targets_default(filters) is None,
    ensures
        targets_default(r) == Some(level),
        targets_entries(r) == targets_entries(filters),
        targets_plain(r) == targets_plain(filters),
{
    filters.with_default(
        match level {
            SeverityLevel::Off => LevelFilter::OFF,
            SeverityLevel::Error => LevelFilter::ERROR,
            SeverityLevel::Warn => LevelFilter::WARN,
            SeverityLevel::Info => LevelFilter::INFO,
            SeverityLevel::Debug => LevelFilter::DEBUG,
            SeverityLevel::Trace => LevelFilter::TRACE,
        },
    )
}

/// `Targets::with_target`, for a target that the table has no entry for: the
/// table gets the entry of `target` and `level`, and keeps its other entries
/// and its default. The directive that is added names no field.
#[verifier::external_body]
fn with_target(filters: Targets, target: &str, level: SeverityLevel) -> (r: Targets)
    requires
        forall|other: SeverityLevel| !targets_entries(filters).contains((target@, other)),
    ensures
        targets_entries(r) == targets_entries(filters).insert((target@, level)),
        targets_default(r) == targets_default(filters),
        targets_plain(r) == targets_plain(filters),
{
    filters.with_target(
        target,
        match level {
            SeverityLevel::Off => LevelFilter::OFF,
            SeverityLevel::Error => LevelFilter::ERROR,
            SeverityLevel::Warn => LevelFilter::WARN,
            SeverityLevel::Info => LevelFilter::INFO,
            SeverityLevel::Debug => LevelFilter::DEBUG,
            SeverityLevel::Trace => LevelFilter::TRACE,
        },
    )
}

/// `Targets::default_level`: the default of the table, if it has one.
#[verifier::external_body]
fn default_of(filters: &Targets) -> (r: Option<SeverityLevel>)
    ensures
        r == targets_default(*filters),
{
    match filters.default_level() {
        None => None,
        Some(LevelFilter::OFF) => Some(SeverityLevel::Off),
        Some(LevelFilter::ERROR) => Some(SeverityLevel::Error),
        Some(LevelFilter::WARN) => Some(SeverityLevel::Warn),
        Some(LevelFilter::INFO) => Some(SeverityLevel::Info),
        Some(LevelFilter::DEBUG) => Some(SeverityLevel::Debug),
        Some(_) => Some(SeverityLevel::Trace),
    }
}

/// `Targets::iter`, collected: every item of the result is an entry of the
/// table, and every entry of the table is an item of the result.
#[verifier::external_body]
fn entries_of(filters: &Targets) -> (r: Vec<(String, SeverityLevel)>)
    ensures
        forall|i: int|
            0 <= i < r@.len() ==> targets_entries(*filters).contains(
                (#[trigger] r@[i].0@, r@[i].1),
            ),
        forall|name: Seq<char>, level: SeverityLevel|
            targets_entries(*filters).contains((name, level)) ==> exists|i: int|
                0 <= i < r@.len() && #[trigger] r@[i].0@ == name && r@[i].1 == level,
{
    let mut entries = Vec::new();
    for (target, level) in filters.iter() {
        entries.push((target.to_owned(), match level {
            LevelFilter::OFF => SeverityLevel::Off,
            LevelFilter::ERROR => SeverityLevel::Error,
            LevelFilter::WARN => SeverityLevel::Warn,
            LevelFilter::INFO => SeverityLevel::Info,
            LevelFilter::DEBUG => SeverityLevel::Debug,
            _ => SeverityLevel::Trace,
        }));
    }
    entries
}

/// `Targets::would_enable`, for an event of `level` from `target`. In a
/// plain table the entry with the longest name that begins the target
/// decides, and the default where no entry's name begins it: the event is
/// enabled where its level is at most as verbose as the level that decides.
#[verifier::external_body]
fn would_enable(filters: &Targets, target: &str, level: SeverityLevel) -> (r: bool)
    requires
        level != SeverityLevel::Off,
    ensures
        targets_plain(*filters) ==> forall|applied: SeverityLevel| #[trigger]
            filters_at(*filters, target@, applied) ==> r == (level.rank() <= applied.rank()),
{
    filters.would_enable(
        target,
        &match level {
            SeverityLevel::Error => Level::ERROR,
            SeverityLevel::Warn => Level::WARN,
            SeverityLevel::Info => Level::INFO,
            SeverityLevel::Debug => Level::DEBUG,
            _ => Level::TRACE,
        },
    )
}

/// Whether the table has an entry whose name begins `target`.
pub open spec fn matches_target(filters: Targets, target: Seq<char>) -> bool {
    exists|name: Seq<char>, level: SeverityLevel|
        targets_entries(filters).contains((name, level)) && name.is_prefix_of(target)
}

/// Whether the entry of `name` and `level` decides for `target`: the name
/// begins the target, and no entry with a longer name does.
pub open spec fn decides(
    filters: Targets,
    name: Seq<char>,
    level: SeverityLevel,
    target: Seq<char>,
) -> bool {
    &&& targets_entries(filters).contains((name, level))
    &&& name.is_prefix_of(target)
    &&& forall|other: Seq<char>, l: SeverityLevel|
        #[trigger] targets_entries(filters).contains((other, l)) && other.is_prefix_of(target)
            ==> other.len() <= name.len()
}

/// Whether the table filters `target` at `level`: the level of the entry
/// that decides for the target, and where no entry's name begins the target,
/// the fallback.
pub open spec fn filters_at(filters: Targets, target: Seq<char>, level: SeverityLevel) -> bool {
    if matches_target(filters, target) {
        exists|name: Seq<char>| decides(filters, name, level, target)
    } else {
        level == fallback_level(filters)
    }
}

/// Whether the table has an entry for the target `name`.
pub open spec fn lists(filters: Targets, name: Seq<char>) -> bool {
    exists|level: SeverityLevel| targets_entries(filters).contains((name, level))
}

/// The level that applies where the table has no entry: its default, and
/// `Off` where it has none.
pub open spec fn fallback_level(filters: Targets) -> SeverityLevel {
    match targets_default(filters) {
        Some(level) => level,
        None => SeverityLevel::Off,
    }
}

/// Whether looking `name` up in the table may give `level`: an entry of the
/// table for `name` decides, and where there is none the fallback does.
pub open spec fn reads_as(filters: Targets, name: Seq<char>, level: SeverityLevel) -> bool {
    if lists(filters, name) {
        targets_entries(filters).contains((name, level))
    } else {
        level == fallback_level(filters)
    }
}

/// Whether the table has at most one entry for each target.
pub open spec fn single_valued(filters: Targets) -> bool {
    forall|name: Seq<char>, a: SeverityLevel, b: SeverityLevel|
        targets_entries(filters).contains((name, a)) && targets_entries(filters).contains(
            (name, b),
        ) ==> a == b
}

/// In a table with at most one entry for each target, a target reads as one
/// level only.
pub proof fn lemma_lookup_is_determined(
    filters: Targets,
    name: Seq<char>,
    a: SeverityLevel,
    b: SeverityLevel,
)
    requires
        single_valued(filters),
        reads_as(filters, name, a),
        reads_as(filters, name, b),
    ensures
        a == b,
{
}

/// Whether `name` is one of the dependencies that are held to `Warn`.
pub open spec fn is_noisy(name: Seq<char>) -> bool {
    ||| name == "lapin"@
    ||| name == "tower"@
    ||| name == "h2"@
    ||| name == "hyper"@
    ||| name == "rustls"@
    ||| name == "paho_mqtt"@
    ||| name == "c_trace"@
    ||| name == "aws_smithy_runtime"@
    ||| name == "aws_config"@
    ||| name == "aws_sdk_secretsmanager"@
    ||| name == "aws_runtime"@
    ||| name == "opentelemetry_sdk"@
}

/// The entries that hold every noisy dependency to `Warn`.
pub open spec fn quiet_entries() -> Set<(Seq<char>, SeverityLevel)> {
    Set::new(
        |entry: (Seq<char>, SeverityLevel)| is_noisy(entry.0) && entry.1 == SeverityLevel::Warn,
    )
}

/// A plain table that applies `default_level` to every target but the noisy
/// dependencies, which it holds to `Warn`.
pub open spec fn is_quiet_table(filters: Targets, default_level: SeverityLevel) -> bool {
    &&& targets_plain(filters)
    &&& targets_default(filters) == Some(default_level)
    &&& targets_entries(filters) == quiet_entries()
}

/// A plain table that applies `default_level` to every target alike.
pub open spec fn is_uniform_table(filters: Targets, default_level: SeverityLevel) -> bool {
    &&& targets_plain(filters)
    &&& targets_default(filters) == Some(default_level)
    &&& targets_entries(filters) == Set::<(Seq<char>, SeverityLevel)>::empty()
}

/// Whether `target` begins with the name of a noisy dependency.
pub open spec fn begins_noisy(target: Seq<char>) -> bool {
    exists|name: Seq<char>| is_noisy(name) && name.is_prefix_of(target)
}

/// The names of the noisy dependencies differ from one another: by their
/// length, or by their first letter where the lengths agree.
pub proof fn lemma_noisy_names()
    ensures
        "lapin"@.len() == 5 && "lapin"@[0] == 'l',
        "tower"@.len() == 5 && "tower"@[0] == 't',
        "h2"@.len() == 2,
        "hyper"@.len() == 5 && "hyper"@[0] == 'h',
        "rustls"@.len() == 6,
        "paho_mqtt"@.len() == 9,
        "c_trace"@.len() == 7,
        "aws_smithy_runtime"@.len() == 18,
        "aws_config"@.len() == 10,
        "aws_sdk_secretsmanager"@.len() == 22,
        "aws_runtime"@.len() == 11,
        "opentelemetry_sdk"@.len() == 17,
{
    reveal_strlit("lapin");
    reveal_strlit("tower");
    reveal_strlit("h2");
    reveal_strlit("hyper");
    reveal_strlit("rustls");
    reveal_strlit("paho_mqtt");
    reveal_strlit("c_trace");
    reveal_strlit("aws_smithy_runtime");
    reveal_strlit("aws_config");
    reveal_strlit("aws_sdk_secretsmanager");
    reveal_strlit("aws_runtime");
    reveal_strlit("opentelemetry_sdk");
}

/// In a quiet table a noisy dependency reads as `Warn`, whatever the default
/// is, and every other target reads as the default.
pub proof fn lemma_quiet_table_lookup(
    filters: Targets,
    default_level: SeverityLevel,
    name: Seq<char>,
    level: SeverityLevel,
)
    requires
        is_quiet_table(filters, default_level),
    ensures
        single_valued(filters),
        lists(filters, name) <==> is_noisy(name),
        is_noisy(name) ==> (reads_as(filters, name, level) <==> level == SeverityLevel::Warn),
        !is_noisy(name) ==> (reads_as(filters, name, level) <==> level == default_level),
{
    if is_noisy(name) {
        assert(targets_entries(filters).contains((name, SeverityLevel::Warn)));
    }
}

/// The subscriber that filters by a quiet table holds every target that
/// begins with the name of a noisy dependency to `Warn`, whatever the default
/// is, and filters every other target at the default.
pub proof fn lemma_quiet_table_filters(
    filters: Targets,
    default_level: SeverityLevel,
    target: Seq<char>,
    level: SeverityLevel,
)
    requires
        is_quiet_table(filters, default_level),
    ensures
        begins_noisy(target) ==> (filters_at(filters, target, level) <==> level
            == SeverityLevel::Warn),
        !begins_noisy(target) ==> (filters_at(filters, target, level) <==> level == default_level),
{
    lemma_noisy_names();
    let warn = SeverityLevel::Warn;
    if begins_noisy(target) {
        let some = choose|name: Seq<char>| is_noisy(name) && name.is_prefix_of(target);
        assert(targets_entries(filters).contains((some, warn)));
        assert(matches_target(filters, target));
        if "aws_sdk_secretsmanager"@.is_prefix_of(target) {
            assert(decides(filters, "aws_sdk_secretsmanager"@, warn, target));
        } else if "aws_smithy_runtime"@.is_prefix_of(target) {
            assert(decides(filters, "aws_smithy_runtime"@, warn, target));
        } else if "opentelemetry_sdk"@.is_prefix_of(target) {
            assert(decides(filters, "opentelemetry_sdk"@, warn, target));
        } else if "aws_runtime"@.is_prefix_of(target) {
            assert(decides(filters, "aws_runtime"@, warn, target));
        } else if "aws_config"@.is_prefix_of(target) {
            assert(decides(filters, "aws_config"@, warn, target));
        } else if "paho_mqtt"@.is_prefix_of(target) {
            assert(decides(filters, "paho_mqtt"@, warn, target));
        } else if "c_trace"@.is_prefix_of(target) {
            assert(decides(filters, "c_trace"@, warn, target));
        } else if "rustls"@.is_prefix_of(target) {
            assert(decides(filters, "rustls"@, warn, target));
        } else if "lapin"@.is_prefix_of(target) {
            assert(decides(filters, "lapin"@, warn, target));
        } else if "tower"@.is_prefix_of(target) {
            assert(decides(filters, "tower"@, warn, target));
        } else if "hyper"@.is_prefix_of(target) {
            assert(decides(filters, "hyper"@, warn, target));
        } else {
            assert(decides(filters, "h2"@, warn, target));
        }
        assert(filters_at(filters, target, warn));
    } else {
        assert(!matches_target(filters, target));
    }
}

/// The subscriber that filters by a uniform table filters every target at
/// the default.
pub proof fn lemma_uniform_table_filters(
    filters: Targets,
    default_level: SeverityLevel,
    target: Seq<char>,
    level: SeverityLevel,
)
    requires
        is_uniform_table(filters, default_level),
    ensures
        filters_at(filters, target, level) <==> level == default_level,
{
}

/// In a uniform table every target reads as the default.
pub proof fn lemma_uniform_table_lookup(
    filters: Targets,
    default_level: SeverityLevel,
    name: Seq<char>,
    level: SeverityLevel,
)
    requires
        is_uniform_table(filters, default_level),
    ensures
        single_valued(filters),
        reads_as(filters, name, level) <==> level == default_level,
{
}

/// Builds the table that applies `default_level` to every target alike.
pub fn uniform_filters(default_level: SeverityLevel) -> (r: Targets)
    ensures
        is_uniform_table(r, default_level),
{
    with_default(empty_table(), default_level)
}

/// Builds the table that applies `default_level` to every target but the
/// noisy dependencies, which it holds to `Warn` whatever the default is.
pub fn build_filters(default_level: SeverityLevel) -> (r: Targets)
    ensures
        is_quiet_table(r, default_level),
{
    proof {
        lemma_noisy_names();
    }
    let filters = with_default(empty_table(), default_level);
    let filters = with_target(filters, "lapin", SeverityLevel::Warn);
    let filters = with_target(filters, "tower", SeverityLevel::Warn);
    let filters = with_target(filters, "h2", SeverityLevel::Warn);
    let filters = with_target(filters, "hyper", SeverityLevel::Warn);
    let filters = with_target(filters, "rustls", SeverityLevel::Warn);
    let filters = with_target(filters, "paho_mqtt", SeverityLevel::Warn);
    let filters = with_target(filters, "c_trace", SeverityLevel::Warn);
    let filters = with_target(filters, "aws_smithy_runtime", SeverityLevel::Warn);
    let filters = with_target(filters, "aws_config", SeverityLevel::Warn);
    let filters = with_target(filters, "aws_sdk_secretsmanager", SeverityLevel::Warn);
    let filters = with_target(filters, "aws_runtime", SeverityLevel::Warn);
    let filters = with_target(filters, "opentelemetry_sdk", SeverityLevel::Warn);
    assert(targets_entries(filters) =~= quiet_entries());
    filters
}

/// Builds the table of filters for a configured level: the level that the
/// text stands for is the default, and the noisy dependencies are held to
/// `Warn`.
pub fn target_filters(level: &str) -> (r: Targets)
    ensures
        is_quiet_table(r, level_of(level@)),
{
    build_filters(log_level(level))
}

/// Builds the table of filters that the configuration asks for. Where the
/// noisy dependencies are let through, every target logs at the configured
/// level; where they are not, every target but them does, and they are held
/// to `Warn`.
pub fn configured_filters(cfg: &AppConfigs) -> (r: Targets)
    ensures
        cfg.enable_external_creates_logging ==> is_uniform_table(r, level_of(cfg.log_level@)),
        !cfg.enable_external_creates_logging ==> is_quiet_table(r, level_of(cfg.log_level@)),
{
    if cfg.enable_external_creates_logging {
        uniform_filters(log_level(cfg.log_level.as_str()))
    } else {
        target_filters(cfg.log_level.as_str())
    }
}

/// Asks the table at which level the subscriber filters a target: the most
/// verbose level of an event from the target that the table enables, and
/// `Off` where it enables none. In a plain table that is the level of the
/// entry with the longest name that begins the target, and the default where
/// no entry's name begins it.
pub fn level_at(filters: &Targets, target: &str) -> (r: SeverityLevel)
    ensures
        targets_plain(*filters) ==> forall|applied: SeverityLevel| #[trigger]
            filters_at(*filters, target@, applied) ==> r == applied,
{
    if would_enable(filters, target, SeverityLevel::Trace) {
        SeverityLevel::Trace
    } else if would_enable(filters, target, SeverityLevel::Debug) {
        SeverityLevel::Debug
    } else if would_enable(filters, target, SeverityLevel::Info) {
        SeverityLevel::Info
    } else if would_enable(filters, target, SeverityLevel::Warn) {
        SeverityLevel::Warn
    } else if would_enable(filters, target, SeverityLevel::Error) {
        SeverityLevel::Error
    } else {
        SeverityLevel::Off
    }
}

/// Looks a target up in a table by its name: the level of the table's entry
/// for it, and where the table has none, the default (`Off` without one).
///
/// The lookup is by the exact name. The subscriber that filters by the table
/// applies an entry to every target that begins with the entry's name:
/// `level_at` asks for the level that it filters a target at.
pub fn level_for(filters: &Targets, name: &str) -> (r: SeverityLevel)
    ensures
        reads_as(*filters, name@, r),
{
    let entries = entries_of(filters);
    let mut i: usize = 0;
    while i < entries.len()
        invariant
            i <= entries.len(),
            forall|j: int| 0 <= j < i ==> entries@[j].0@ != name@,
            forall|j: int|
                0 <= j < entries@.len() ==> targets_entries(*filters).contains(
                    (#[trigger] entries@[j].0@, entries@[j].1),
                ),
        decreases entries.len() - i,
    {
        if same_text(entries[i].0.as_str(), name) {
            return entries[i].1;
        }
        i += 1;
    }
    default_of(filters).unwrap_or(SeverityLevel::Off)
}

} // verus!
