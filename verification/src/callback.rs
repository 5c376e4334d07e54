//! The callback marshaler: turns an internal text result into the buffer and
//! length handed to a foreign notification target, or drops the notification
//! when no target was supplied.

use vstd::prelude::*;
use crate::utf8::copy_bytes;

verus! {

/// A foreign notification target.  The actual function and context pointers
/// live outside the verified library; here only what the marshaling logic
/// reads is kept — whether a function pointer was supplied at all.  The
/// caller guarantees the pointers stay valid for the callback's lifetime.
#[derive(Clone, Copy, PartialEq, Eq, Structural)]
pub struct CallbackTarget {
    pub present: bool,
}

/// Marshals one notification.
///
/// With a target present, the result is the exact buffer and length to invoke
/// it with: a copy of the text and the text's own byte length, so the foreign
/// side reads precisely the bytes of the event.  With no target, the
/// notification is silently dropped and nothing is invoked.
pub fn notify(cb: &CallbackTarget, text: &Vec<u8>) -> (r: Option<(Vec<u8>, usize)>)
    ensures
        cb.present ==> (r matches Some(p) && p.0@ == text@ && p.1 == text@.len()),
        !cb.present ==> r is None,
{
    if cb.present {
        let buf = copy_bytes(text);
        let len = buf.len();
        Some((buf, len))
    } else {
        None
    }
}

/// The process-wide panic-notification slot: set by explicit registration
/// calls, optionally replaced, read whenever a fault message is produced.
pub struct PanicHookSlot {
    pub target: Option<CallbackTarget>,
}

/// The slot before any registration: no hook installed.
pub fn empty_hook_slot() -> (r: PanicHookSlot)
    ensures
        r.target is None,
{
    PanicHookSlot { target: None }
}

/// Installs or replaces the process-wide panic hook.  The new target is in
/// force from here on; any earlier registration is forgotten.
pub fn install_hook(slot: &mut PanicHookSlot, cb: CallbackTarget)
    ensures
        final(slot).target == Some(cb),
{
    slot.target = Some(cb);
}

/// Routes a fault message through the registered hook: marshaled to the
/// registered target exactly as `notify` does, or dropped when no hook is
/// installed or the registered target has no function pointer.
pub fn hook_notify(slot: &PanicHookSlot, msg: &Vec<u8>) -> (r: Option<(Vec<u8>, usize)>)
    ensures
        (slot.target matches Some(cb) && cb.present) ==> (r matches Some(p) && p.0@ == msg@
            && p.1 == msg@.len()),
        !(slot.target matches Some(cb) && cb.present) ==> r is None,
{
    match &slot.target {
        Some(cb) => notify(cb, msg),
        None => None,
    }
}

} // verus!
