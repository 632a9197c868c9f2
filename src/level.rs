//! Severity levels of log records and the filters that admit them.
use vstd::prelude::*;

verus! {

#[verifier::external_type_specification]
pub struct ExLevel(log::Level);

#[verifier::external_type_specification]
pub struct ExLevelFilter(log::LevelFilter);

/// The name that the logging facade gives a level.
pub open spec fn level_name(l: log::Level) -> Seq<char> {
    match l {
        log::Level::Error => seq!['E', 'R', 'R', 'O', 'R'],
        log::Level::Warn => seq!['W', 'A', 'R', 'N'],
        log::Level::Info => seq!['I', 'N', 'F', 'O'],
        log::Level::Debug => seq!['D', 'E', 'B', 'U', 'G'],
        log::Level::Trace => seq!['T', 'R', 'A', 'C', 'E'],
    }
}

/// Relies on log::Level::as_str: the upper-case name of the level.
pub assume_specification[ log::Level::as_str ](l: &log::Level) -> (r: &'static str)
    ensures
        r@ == level_name(*l),
;

pub fn level_text(l: log::Level) -> (r: String)
    ensures
        r@ == level_name(l),
{
    String::from_str(l.as_str())
}


/// How severe a level is: 1 for `Error` up to 5 for `Trace`, as the facade
/// numbers them.
pub open spec fn severity(l: log::Level) -> nat {
    match l {
        log::Level::Error => 1,
        log::Level::Warn => 2,
        log::Level::Info => 3,
        log::Level::Debug => 4,
        log::Level::Trace => 5,
    }
}

/// The least severe level a filter lets through: 0 for `Off`, which lets
/// nothing through, up to 5 for `Trace`.
pub open spec fn verbosity(f: log::LevelFilter) -> nat {
    match f {
        log::LevelFilter::Off => 0,
        log::LevelFilter::Error => 1,
        log::LevelFilter::Warn => 2,
        log::LevelFilter::Info => 3,
        log::LevelFilter::Debug => 4,
        log::LevelFilter::Trace => 5,
    }
}

/// A filter admits the levels at least as severe as its own.
pub open spec fn admits(f: log::LevelFilter, l: log::Level) -> bool {
    severity(l) <= verbosity(f)
}

fn severity_of(l: log::Level) -> (r: u8)
    ensures
        r as nat == severity(l),
{
    match l {
        log::Level::Error => 1,
        log::Level::Warn => 2,
        log::Level::Info => 3,
        log::Level::Debug => 4,
        log::Level::Trace => 5,
    }
}

fn verbosity_of(f: log::LevelFilter) -> (r: u8)
    ensures
        r as nat == verbosity(f),
{
    match f {
        log::LevelFilter::Off => 0,
        log::LevelFilter::Error => 1,
        log::LevelFilter::Warn => 2,
        log::LevelFilter::Info => 3,
        log::LevelFilter::Debug => 4,
        log::LevelFilter::Trace => 5,
    }
}

/// Whether `f` lets a record of level `l` through.
pub fn filter_admits(f: log::LevelFilter, l: log::Level) -> (r: bool)
    ensures
        r == admits(f, l),
{
    severity_of(l) <= verbosity_of(f)
}

} // verus!
