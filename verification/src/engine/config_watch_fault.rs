//! A test rig that has the watch of the settings file run into failures.
//!
//! It is armed by a control file that names the rig and the process. Once the file is gone
//! or names another, or after a while in any case, it is off for good.

use crate::engine::config_watch::{no_faults, FaultFlags};
use crate::text::same;
use vstd::prelude::*;

verus! {

/// How long the control file is waited for.
pub const STARTUP_WAIT_MS: u64 = 5_000;

/// How long the rig is on at most.
pub const MAX_ACTIVE_MS: u64 = 90_000;

/// What a control file says.
#[derive(Debug, PartialEq)]
pub struct ControlFile {
    pub id: String,
    pub pid: u32,
    pub flags: FaultFlags,
}

/// The failures that a control file has for the rig `id` in the process `pid`.
pub open spec fn flags_for(file: Option<ControlFile>, id: Seq<char>, pid: u32) -> Option<
    FaultFlags,
> {
    match file {
        Some(f) => if f.id@ == id && f.pid == pid {
            Some(f.flags)
        } else {
            None
        },
        None => None,
    }
}

/// Whether the rig is on.
#[derive(Debug, PartialEq)]
pub struct FileFaultControl {
    pub id: String,
    /// When it was armed.
    pub started_ms: u64,
    pub active: bool,
}

/// How arming goes on.
#[derive(Clone, Copy, Debug, PartialEq, Eq, Structural)]
pub enum Startup {
    Armed { flags: FaultFlags },
    GivenUp,
    /// Look at the control file again.
    Again,
}

impl FileFaultControl {
    /// A rig that is not armed yet, unless it has no name.
    pub fn from_env(id: String, now_ms: u64) -> (r: Option<FileFaultControl>)
        ensures
            r is None <==> id@.len() == 0,
            r is Some ==> (r->0).id@ == id@ && (r->0).started_ms == now_ms && !(r->0).active,
    {
        if same(id.as_str(), "") {
            proof {
                reveal_strlit("");
            }
            return None;
        }
        proof {
            reveal_strlit("");
            assert(id@.len() == 0 ==> id@ =~= ""@);
        }
        Some(FileFaultControl { id, started_ms: now_ms, active: false })
    }

    /// What the control file has for this rig.
    pub fn read(&self, file: Option<ControlFile>, pid: u32) -> (r: Option<FaultFlags>)
        ensures
            r == flags_for(file, self.id@, pid),
    {
        match file {
            Some(f) => if same(f.id.as_str(), self.id.as_str()) && f.pid == pid {
                Some(f.flags)
            } else {
                None
            },
            None => None,
        }
    }

    /// One look at the control file while the rig is being armed; the wait began when the
    /// rig was made.
    pub fn try_arm(&mut self, file: Option<ControlFile>, pid: u32, now_ms: u64) -> (r: Startup)
        ensures
            r == (match flags_for(file, old(self).id@, pid) {
                Some(flags) => Startup::Armed { flags },
                None => if now_ms >= old(self).started_ms + STARTUP_WAIT_MS {
                    Startup::GivenUp
                } else {
                    Startup::Again
                },
            }),
            r is Armed ==> *final(self) == (FileFaultControl {
                started_ms: now_ms,
                active: true,
                ..*old(self)
            }),
            !(r is Armed) ==> *final(self) == *old(self),
    {
        match self.read(file, pid) {
            Some(flags) => {
                self.started_ms = now_ms;
                self.active = true;
                Startup::Armed { flags }
            },
            None => if now_ms >= self.started_ms && now_ms - self.started_ms >= STARTUP_WAIT_MS {
                Startup::GivenUp
            } else {
                Startup::Again
            },
        }
    }

    /// The failures that the rig has at this time. Where it has none any more it is off.
    pub fn poll(&mut self, file: Option<ControlFile>, pid: u32, now_ms: u64) -> (r: FaultFlags)
        ensures
            (*final(self), r) == polled(*old(self), file, pid, now_ms),
    {
        if !self.active {
            return FaultFlags::default();
        }
        let fresh = now_ms < self.started_ms || now_ms - self.started_ms < MAX_ACTIVE_MS;
        if fresh {
            if let Some(flags) = self.read(file, pid) {
                return flags;
            }
        }
        self.active = false;
        FaultFlags::default()
    }
}

/// What a look at the control file leaves of the rig, and the failures it has.
pub open spec fn polled(
    c: FileFaultControl,
    file: Option<ControlFile>,
    pid: u32,
    now_ms: u64,
) -> (FileFaultControl, FaultFlags) {
    let on = c.active && now_ms < c.started_ms + MAX_ACTIVE_MS && flags_for(file, c.id@, pid) is Some;
    (
        FileFaultControl { active: on, ..c },
        if on {
            flags_for(file, c.id@, pid)->0
        } else {
            no_faults()
        },
    )
}

/// A rig that was found off stays off, whatever the control file says later.
pub proof fn released_rig_stays_off(
    c: FileFaultControl,
    gone: Option<ControlFile>,
    back: Option<ControlFile>,
    pid: u32,
    now_ms: u64,
    later_ms: u64,
)
    requires
        !polled(c, gone, pid, now_ms).0.active,
    ensures
        ({
            let again = polled(polled(c, gone, pid, now_ms).0, back, pid, later_ms);
            again.1 == no_faults() && !again.0.active
        }),
{
}

/// The rig has the failures of a control file while that file names the rig and the process, for
/// a while after it was armed; otherwise it has none.
pub proof fn rig_is_on_while_named(
    c: FileFaultControl,
    file: ControlFile,
    pid: u32,
    now_ms: u64,
)
    requires
        c.active,
        c.started_ms <= now_ms,
    ensures
        ({
            let named = file.id@ == c.id@ && file.pid == pid;
            let (after, faults) = polled(c, Some(file), pid, now_ms);
            &&& named && now_ms - c.started_ms < 90_000 ==> faults == file.flags && after == c
            &&& !named || now_ms - c.started_ms >= 90_000 ==> faults == no_faults()
                && !after.active
        }),
        !polled(c, None, pid, now_ms).0.active,
        polled(c, None, pid, now_ms).1 == no_faults(),
        flags_for(None, c.id@, pid) is None,
{
}

} // verus!
