//! State of live conversion between two ticks of its timer.

use vstd::prelude::*;

verus! {

/// What live conversion remembers of the last letter.
#[derive(Clone, Copy, Debug, PartialEq, Eq, Structural)]
pub struct LiveConvSession {
    /// Whether the context of the last letter is kept.
    pub has_context: bool,
    /// Client id for edits.
    pub tid: u32,
    /// The document that the context belonged to, 0 for none.
    pub composition_dm_ptr: usize,
    /// Whether waiting for a running conversion was reported already.
    pub fired_once: bool,
    /// When the last letter was typed.
    pub last_input_ms: u64,
}

impl Default for LiveConvSession {
    fn default() -> (r: Self)
        ensures
            r == (LiveConvSession {
                has_context: false,
                tid: 0,
                composition_dm_ptr: 0,
                fired_once: false,
                last_input_ms: 0,
            }),
    {
        LiveConvSession {
            has_context: false,
            tid: 0,
            composition_dm_ptr: 0,
            fired_once: false,
            last_input_ms: 0,
        }
    }
}

/// Keeps client id and document of the last letter.
pub fn set_context_snapshot(s: &mut LiveConvSession, tid: u32, dm_ptr: usize)
    ensures
        *final(s) == (LiveConvSession {
            has_context: true,
            tid,
            composition_dm_ptr: dm_ptr,
            ..*old(s)
        }),
{
    s.has_context = true;
    s.tid = tid;
    s.composition_dm_ptr = dm_ptr;
}

/// Forgets client id and document.
pub fn clear_context_snapshot(s: &mut LiveConvSession)
    ensures
        *final(s) == (LiveConvSession {
            has_context: false,
            tid: 0,
            composition_dm_ptr: 0,
            ..*old(s)
        }),
{
    s.has_context = false;
    s.tid = 0;
    s.composition_dm_ptr = 0;
}

/// Whether a context is kept, its client id and its document.
pub fn context_snapshot(s: &LiveConvSession) -> (r: (bool, u32, usize))
    ensures
        r == (s.has_context, s.tid, s.composition_dm_ptr),
{
    (s.has_context, s.tid, s.composition_dm_ptr)
}

/// The document `dm_ptr` is gone: the kept context no longer counts if it was of that
/// document. Client id and context themselves stay.
pub fn invalidate_dm_ptr(s: &mut LiveConvSession, dm_ptr: usize) -> (r: bool)
    ensures
        r == (old(s).composition_dm_ptr == dm_ptr),
        !r ==> *final(s) == *old(s),
        r ==> *final(s) == (LiveConvSession { composition_dm_ptr: 0, ..*old(s) }),
{
    if s.composition_dm_ptr == dm_ptr {
        s.composition_dm_ptr = 0;
        true
    } else {
        false
    }
}

/// Sets the report flag and returns what it was.
pub fn swap_fired_once(s: &mut LiveConvSession, new: bool) -> (r: bool)
    ensures
        r == old(s).fired_once,
        *final(s) == (LiveConvSession { fired_once: new, ..*old(s) }),
{
    let r = s.fired_once;
    s.fired_once = new;
    r
}

/// Clears the report flag.
pub fn reset_fired_once(s: &mut LiveConvSession)
    ensures
        *final(s) == (LiveConvSession { fired_once: false, ..*old(s) }),
{
    s.fired_once = false;
}

/// Notes when a letter was typed.
pub fn store_last_input_ms(s: &mut LiveConvSession, now_ms: u64)
    ensures
        *final(s) == (LiveConvSession { last_input_ms: now_ms, ..*old(s) }),
{
    s.last_input_ms = now_ms;
}

/// When the last letter was typed.
pub fn load_last_input_ms(s: &LiveConvSession) -> (r: u64)
    ensures
        r == s.last_input_ms,
{
    s.last_input_ms
}

/// What a typed letter does to live conversion: nothing where it is switched off, else
/// the time, the context and a fresh report flag are noted. Says whether the timer is
/// to be started.
pub fn live_input_notify(
    s: &mut LiveConvSession,
    enabled: bool,
    now_ms: u64,
    tid: u32,
    dm_ptr: usize,
) -> (r: bool)
    ensures
        r == enabled,
        !enabled ==> *final(s) == *old(s),
        enabled ==> *final(s) == (LiveConvSession {
            has_context: true,
            tid,
            composition_dm_ptr: dm_ptr,
            fired_once: false,
            last_input_ms: now_ms,
        }),
{
    if !enabled {
        return false;
    }
    store_last_input_ms(s, now_ms);
    reset_fired_once(s);
    set_context_snapshot(s, tid, dm_ptr);
    true
}

/// Ends live conversion of a document that goes away; 0 stands for no document.
pub fn invalidate_live_context_for_dm(s: &mut LiveConvSession, dm_ptr: usize) -> (r: bool)
    ensures
        r == (dm_ptr != 0 && old(s).composition_dm_ptr == dm_ptr),
        !r ==> *final(s) == *old(s),
        r ==> *final(s) == (LiveConvSession { composition_dm_ptr: 0, ..*old(s) }),
{
    if dm_ptr == 0 {
        return false;
    }
    invalidate_dm_ptr(s, dm_ptr)
}

} // verus!
