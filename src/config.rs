use vstd::prelude::*;

verus! {

/// Settings that hold for the life of the process.
#[derive(Clone, Copy, Debug, PartialEq, Eq, Structural)]
pub struct Config {
    /// When set, the translated traffic class is always zero instead of the
    /// IPv4 DSCP value.
    pub ignore_ipv4_tos: bool,
}

impl Default for Config {
    fn default() -> (r: Self)
        ensures
            !r.ignore_ipv4_tos,
    {
        Config { ignore_ipv4_tos: false }
    }
}

} // verus!
