//! The configuration handle: built from a validated argument list once the
//! runtime has accepted it, with background auto-updates force-disabled, and
//! reclaimed by a single destroy.

use vstd::prelude::*;
use crate::args::all_utf8;
use crate::args::program_name;
use crate::args::views_of;

verus! {

/// The auto-update policy argument forced after a successful parse: the ASCII
/// bytes of "none".  A configuration held through this bridge never permits
/// silent background updates.
pub open spec fn no_update_policy() -> Seq<u8> {
    seq![110u8, 111u8, 110u8, 101u8]
}

/// A parsed configuration: the argument list the runtime accepted, plus the
/// auto-update policy in force.  The caller owns it exclusively; it is
/// consumed either by a start or by a destroy, never both — ownership makes a
/// second use impossible.
pub struct Config {
    pub args: Vec<Vec<u8>>,
    pub auto_update: Vec<u8>,
}

impl Config {
    /// A configuration always carries the program name first and only
    /// well-formed UTF-8 arguments.
    pub open spec fn wf(self) -> bool {
        &&& views_of(self.args@).len() >= 1
        &&& views_of(self.args@)[0] == program_name()
        &&& all_utf8(views_of(self.args@))
    }

    /// The auto-update policy is the forced "none".
    pub open spec fn updates_disabled(self) -> bool {
        self.auto_update@ == no_update_policy()
    }
}

/// Produces the forced auto-update policy as an owned buffer.
pub fn no_update_arg() -> (r: Vec<u8>)
    ensures
        r@ == no_update_policy(),
{
    let mut v: Vec<u8> = Vec::new();
    v.push(110);
    v.push(111);
    v.push(110);
    v.push(101);
    proof {
        assert(v@ =~= no_update_policy());
    }
    v
}

/// Maps the runtime's verdict on a validated argument list onto the status
/// code and the output handle slot.
///
/// Acceptance yields status 0 and a configuration with updates disabled;
/// rejection yields status 1 and an empty slot.  The slot is filled exactly
/// when the status reports success, so a caller can never mistake a failure
/// for a handle.
pub fn accept_config(args: Vec<Vec<u8>>, cli_accepted: bool) -> (r: (i32, Option<Config>))
    requires
        views_of(args@).len() >= 1,
        views_of(args@)[0] == program_name(),
        all_utf8(views_of(args@)),
    ensures
        r.0 == 0 <==> cli_accepted,
        !cli_accepted ==> r.0 == 1,
        r.1 is Some <==> r.0 == 0,
        r.1 matches Some(cfg) ==> {
            &&& cfg.wf()
            &&& cfg.updates_disabled()
            &&& views_of(cfg.args@) == views_of(args@)
        },
{
    if cli_accepted {
        let cfg = Config { args, auto_update: no_update_arg() };
        (0, Some(cfg))
    } else {
        (1, None)
    }
}

/// Reclaims a configuration that will not be started.
///
/// The configuration is taken by value: once destroyed it cannot be destroyed
/// again nor handed to a later start, so the one-allocation-one-destruction
/// pairing is enforced by ownership.  Destruction is total — it never rejects
/// and never faults.
pub fn config_destroy(_cfg: Config) {
}

} // verus!
