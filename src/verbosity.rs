//! How much a program built on the workshop says about what it does.
use vstd::prelude::*;

verus! {

/// Levels of verbosity, from silent to the most detailed.
#[derive(Clone, Copy, Debug, PartialEq, Eq, Structural)]
pub enum Verbosity {
    Off,
    Error,
    Warning,
    Info,
    Debug,
    Trace,
}

/// The verbosity asked for by `count` repetitions of a verbose flag: off
/// for 0, then error, warning, info, debug, and trace for 5 or more.
pub open spec fn verbosity_for_count(count: u8) -> Verbosity {
    if count == 0 {
        Verbosity::Off
    } else if count == 1 {
        Verbosity::Error
    } else if count == 2 {
        Verbosity::Warning
    } else if count == 3 {
        Verbosity::Info
    } else if count == 4 {
        Verbosity::Debug
    } else {
        Verbosity::Trace
    }
}

impl From<u8> for Verbosity {
    fn from(v: u8) -> (r: Self)
        ensures
            r == verbosity_for_count(v),
    {
        match v {
            0 => Verbosity::Off,
            1 => Verbosity::Error,
            2 => Verbosity::Warning,
            3 => Verbosity::Info,
            4 => Verbosity::Debug,
            _ => Verbosity::Trace,
        }
    }
}

impl vstd::std_specs::convert::FromSpecImpl<u8> for Verbosity {
    open spec fn obeys_from_spec() -> bool {
        true
    }

    open spec fn from_spec(v: u8) -> Verbosity {
        verbosity_for_count(v)
    }
}

} // verus!
