//! Starting a running instance: the configuration is consumed, the runtime's
//! verdict is mapped onto a status code, an output handle slot and an
//! immediate text to emit, and the live instance becomes a single-owner
//! handle that one destroy reclaims.

use vstd::prelude::*;
use crate::callback::CallbackTarget;
use crate::config::Config;

verus! {

/// What the runtime's start routine came back with: it failed, it finished
/// immediately (with or without a text to emit), or it left a live client
/// running.
pub enum StartOutcome {
    Failed,
    Instant(Option<Vec<u8>>),
    Running,
}

/// A live running instance.  Owned by the caller from the moment start hands
/// it out until the one destroy call; ownership makes use after destruction
/// impossible.  It remembers the configuration it was started from and the
/// restart-notification target registered with it.
pub struct Instance {
    pub config: Config,
    pub restart_cb: CallbackTarget,
}

impl Instance {
    /// An instance only ever runs a well-formed configuration with
    /// auto-updates disabled.
    pub open spec fn wf(self) -> bool {
        self.config.wf() && self.config.updates_disabled()
    }
}

/// Maps the runtime's start verdict onto the boundary result: the status
/// code, the output handle slot, and the immediate text to emit, if any.
///
/// The configuration is consumed — ownership transfers into the start, so it
/// can be neither started again nor destroyed afterwards.  Exactly a
/// `Running` verdict fills the handle slot; exactly a `Failed` verdict
/// reports failure; an immediate text is passed through for emission
/// untouched.  On failure both the slot and the text are empty, so the caller
/// can never mistake a failure for success.
pub fn start_boundary(cfg: Config, outcome: StartOutcome, restart_cb: CallbackTarget) -> (r: (
    i32,
    Option<Instance>,
    Option<Vec<u8>>,
))
    requires
        cfg.wf(),
        cfg.updates_disabled(),
    ensures
        r.0 == 0 <==> !(outcome is Failed),
        outcome is Failed ==> r.0 == 1,
        r.1 is Some <==> outcome is Running,
        r.0 != 0 ==> r.1 is None && r.2 is None,
        outcome matches StartOutcome::Instant(t) ==> r.2 == t && r.1 is None,
        outcome is Running ==> (r.1 matches Some(inst) && inst.wf() && inst.restart_cb
            == restart_cb && inst.config == cfg && r.2 is None),
{
    match outcome {
        StartOutcome::Failed => (1, None, None),
        StartOutcome::Instant(t) => (0, None, t),
        StartOutcome::Running => {
            let inst = Instance { config: cfg, restart_cb };
            (0, Some(inst), None)
        },
    }
}

/// Reclaims a running instance.
///
/// The instance is taken by value, so no second destroy and no later query
/// can name it: the one-allocation-one-destruction pairing is enforced by
/// ownership.  The caller of the boundary blocks here until the runtime's
/// own shutdown has quiesced; the decision layer has nothing further to do.
pub fn destroy_instance(_inst: Instance) {
}

} // verus!
