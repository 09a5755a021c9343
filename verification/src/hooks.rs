//! Hook state machine: the shared record of saved original pointers,
//! per-entry installation flags, the current device and window handles, and
//! the one-shot device-created notification.
//!
//! Two acquisition paths converge here.  On the direct path the embedder
//! hands the engine a freshly created factory interface and the engine
//! patches its creation-method slot; when the patched slot later runs, the
//! engine records the new device, notifies the device-created callback once,
//! and installs the two per-device hooks (frame present and reset).  On the
//! offset-scanning path a background task locates the device heuristically
//! and converges on the same installation step.  Installation is idempotent
//! and notification fires at most once per acquisition epoch; an explicit
//! uninstall restores the patched per-device slots and begins a new epoch.
//!
//! The embedder serialises every call into this state machine behind one
//! mutual-exclusion lock, and performs the callback calls and the original-
//! function forwarding that the returned outcomes prescribe.

use vstd::prelude::*;
use crate::process::{POINTER_SIZE, ProcessMemory};
use crate::patcher;

verus! {

/// VTable slot index of the creation method on the factory interface.
pub const CREATE_DEVICE_SLOT: usize = 16;

/// VTable slot index of the reset method on the device interface.
pub const RESET_SLOT: usize = 16;

/// VTable slot index of the frame-present method on the device interface.
pub const PRESENT_SLOT: usize = 17;

/// Addresses of the embedder's interceptor entry points, one per hooked slot.
#[derive(Clone, Copy, Debug)]
pub struct HookFns {
    pub create_device: usize,
    pub present: usize,
    pub reset: usize,
}

/// Why an installation entry point refused to run.
#[derive(Clone, Copy, Debug, PartialEq, Eq, Structural)]
pub enum HookError {
    /// The supplied interface pointer was null.
    NullInterface,
    /// Callbacks were already registered; a new installation needs an
    /// intervening uninstall.
    AlreadyInstalled,
}

/// The engine's shared state.  The embedder owns exactly one value of this
/// type and serialises access to it behind a mutual-exclusion lock.
#[derive(Clone, Copy, Debug)]
pub struct HookState {
    /// Whether the externally supplied callback table is registered.
    pub callbacks_set: bool,
    /// Last known device handle; a weak back-reference only.
    pub device: Option<usize>,
    /// The OS window associated with the device.
    pub hwnd: Option<usize>,
    /// Saved original creation-method pointer; write-once per hook epoch.
    pub o_create_device: Option<usize>,
    /// Saved original frame-present pointer; write-once per hook epoch.
    pub o_present: Option<usize>,
    /// Saved original reset pointer; write-once per hook epoch.
    pub o_reset: Option<usize>,
    /// The frame-present slot has been rewritten.
    pub present_installed: bool,
    /// The reset slot has been rewritten.
    pub reset_installed: bool,
    /// The device-created callback has fired for the current device.
    pub device_notified: bool,
}

impl HookState {
    /// The state before any installation, and again after an uninstall apart
    /// from the saved originals, which an uninstall keeps.
    pub open spec fn spec_empty() -> HookState {
        HookState {
            callbacks_set: false,
            device: None,
            hwnd: None,
            o_create_device: None,
            o_present: None,
            o_reset: None,
            present_installed: false,
            reset_installed: false,
            device_notified: false,
        }
    }

    /// Well-formedness: a per-device hook marked installed has its original
    /// pointer saved, so the forwarding call always has a target.
    pub open spec fn wf(&self) -> bool {
        &&& (self.present_installed ==> self.o_present is Some)
        &&& (self.reset_installed ==> self.o_reset is Some)
    }

    /// A fresh, empty state.
    pub fn new() -> (s: HookState)
        ensures
            s == HookState::spec_empty(),
            s.wf(),
    {
        HookState {
            callbacks_set: false,
            device: None,
            hwnd: None,
            o_create_device: None,
            o_present: None,
            o_reset: None,
            present_installed: false,
            reset_installed: false,
            device_notified: false,
        }
    }
}

/// Address of vtable slot `index` in the table that starts at `table`.
pub open spec fn spec_slot_addr(table: usize, index: usize) -> int {
    table + index * POINTER_SIZE
}

/// The device's vtable, its reset slot and its present slot are all modelled,
/// and the slot addresses fit the address space.
pub open spec fn device_slots_ok(mem: &ProcessMemory, device: usize) -> bool {
    &&& mem.words().contains_key(device)
    &&& spec_slot_addr(mem.words()[device], PRESENT_SLOT) <= usize::MAX
    &&& mem.tracked_at(spec_slot_addr(mem.words()[device], RESET_SLOT) as usize)
    &&& mem.tracked_at(spec_slot_addr(mem.words()[device], PRESENT_SLOT) as usize)
}

/// The two per-device hook installations, as one transition on the state and
/// the modelled words.  When both hooks are already installed the transition
/// is the identity and reads nothing.
pub open spec fn spec_install_device_hooks(
    s: HookState,
    words: Map<usize, usize>,
    device: usize,
    hooks: HookFns,
) -> (HookState, Map<usize, usize>) {
    if s.present_installed && s.reset_installed {
        (s, words)
    } else {
        let vt = words[device];
        let reset_addr = spec_slot_addr(vt, RESET_SLOT) as usize;
        let present_addr = spec_slot_addr(vt, PRESENT_SLOT) as usize;
        let s1 = if !s.reset_installed {
            HookState { o_reset: Some(words[reset_addr]), reset_installed: true, ..s }
        } else {
            s
        };
        let w1 = if !s.reset_installed {
            words.insert(reset_addr, hooks.reset)
        } else {
            words
        };
        let s2 = if !s1.present_installed {
            HookState { o_present: Some(w1[present_addr]), present_installed: true, ..s1 }
        } else {
            s1
        };
        let w2 = if !s1.present_installed {
            w1.insert(present_addr, hooks.present)
        } else {
            w1
        };
        (s2, w2)
    }
}

impl HookState {
    /// Installs the frame-present and reset hooks on `device`'s vtable.  Safe
    /// to call from either acquisition path any number of times: each slot is
    /// patched only while its installed flag is clear, and once both flags
    /// are set the call returns without touching memory.
    pub fn install_device_hooks(&mut self, mem: &mut ProcessMemory, device: usize, hooks: &HookFns)
        requires
            old(self).wf(),
            !(old(self).present_installed && old(self).reset_installed) ==> device_slots_ok(
                old(mem),
                device,
            ),
        ensures
            (*final(self), final(mem).words()) == spec_install_device_hooks(
                *old(self),
                old(mem).words(),
                device,
                *hooks,
            ),
            final(mem).writable() == old(mem).writable(),
            final(self).present_installed && final(self).reset_installed,
            final(self).wf(),
    {
        if self.present_installed && self.reset_installed {
            return;
        }
        let vt = mem.read_tracked(device);
        if !self.reset_installed {
            let reset_addr = vt + RESET_SLOT * POINTER_SIZE;
            let original = patcher::patch_entry(mem, reset_addr, hooks.reset);
            self.o_reset = Some(original);
            self.reset_installed = true;
        }
        if !self.present_installed {
            let present_addr = vt + PRESENT_SLOT * POINTER_SIZE;
            let original = patcher::patch_entry(mem, present_addr, hooks.present);
            self.o_present = Some(original);
            self.present_installed = true;
        }
    }
}

/// The factory interface's creation-method slot is modelled and its address
/// fits the address space.
pub open spec fn create_slot_ok(mem: &ProcessMemory, d3d9: usize) -> bool {
    &&& mem.words().contains_key(d3d9)
    &&& spec_slot_addr(mem.words()[d3d9], CREATE_DEVICE_SLOT) <= usize::MAX
    &&& mem.tracked_at(spec_slot_addr(mem.words()[d3d9], CREATE_DEVICE_SLOT) as usize)
}

impl HookState {
    /// Direct acquisition path: registers the callbacks and patches the
    /// creation-method slot of the factory interface at `d3d9`, saving the
    /// original pointer the first time.  Fails on a null interface pointer
    /// and on a repeated installation without an intervening uninstall; on
    /// failure nothing is registered and no memory is touched.
    pub fn install_on_d3d9(&mut self, mem: &mut ProcessMemory, d3d9: usize, hooks: &HookFns) -> (r:
        Result<(), HookError>)
        requires
            d3d9 != 0 && !old(self).callbacks_set ==> create_slot_ok(old(mem), d3d9),
        ensures
            r is Ok <==> d3d9 != 0 && !old(self).callbacks_set,
            d3d9 == 0 ==> r == Err::<(), HookError>(HookError::NullInterface),
            d3d9 != 0 && old(self).callbacks_set ==> r == Err::<(), HookError>(
                HookError::AlreadyInstalled,
            ),
            r is Err ==> *final(self) == *old(self) && final(mem).words() == old(mem).words(),
            r is Ok ==> {
                let slot = spec_slot_addr(old(mem).words()[d3d9], CREATE_DEVICE_SLOT) as usize;
                &&& *final(self) == (HookState {
                    callbacks_set: true,
                    o_create_device: if old(self).o_create_device is Some {
                        old(self).o_create_device
                    } else {
                        Some(old(mem).words()[slot])
                    },
                    ..*old(self)
                })
                &&& final(mem).words() == old(mem).words().insert(slot, hooks.create_device)
            },
            final(mem).writable() == old(mem).writable(),
    {
        if d3d9 == 0 {
            return Err(HookError::NullInterface);
        }
        if self.callbacks_set {
            return Err(HookError::AlreadyInstalled);
        }
        self.callbacks_set = true;
        let vt = mem.read_tracked(d3d9);
        let slot = vt + CREATE_DEVICE_SLOT * POINTER_SIZE;
        let original = patcher::patch_entry(mem, slot, hooks.create_device);
        if self.o_create_device.is_none() {
            self.o_create_device = Some(original);
        }
        Ok(())
    }

    /// Offset-scanning acquisition path, first step: registers the callbacks
    /// before the embedder spawns the background scan.  Fails on a repeated
    /// registration without an intervening uninstall.
    pub fn register_callbacks(&mut self) -> (r: Result<(), HookError>)
        ensures
            r is Ok <==> !old(self).callbacks_set,
            r is Err ==> r == Err::<(), HookError>(HookError::AlreadyInstalled) && *final(self)
                == *old(self),
            r is Ok ==> *final(self) == (HookState { callbacks_set: true, ..*old(self) }),
    {
        if self.callbacks_set {
            return Err(HookError::AlreadyInstalled);
        }
        self.callbacks_set = true;
        Ok(())
    }
}

/// Installing the per-device hooks is idempotent: running the installation a
/// second time from the state and memory the first run produced changes
/// neither the hook state nor any vtable word, so each of the two slots is
/// patched exactly once.
pub proof fn lemma_install_device_hooks_idempotent(
    s: HookState,
    words: Map<usize, usize>,
    device: usize,
    hooks: HookFns,
)
    ensures
        ({
            let (s1, w1) = spec_install_device_hooks(s, words, device, hooks);
            spec_install_device_hooks(s1, w1, device, hooks) == (s1, w1)
        }),
{
    let (s1, w1) = spec_install_device_hooks(s, words, device, hooks);
    assert(s1.present_installed && s1.reset_installed);
}

/// One run of an acquisition path: what the embedder observed and hands to
/// the engine.
pub enum AcquisitionEvent {
    /// The patched creation method forwarded to the original, which returned.
    CreateDeviceReturned { succeeded: bool, out_device: usize, focus_window: usize },
    /// The patched frame-present slot ran.  `params_window` is the focus
    /// window the embedder read from the device's creation parameters, asked
    /// for only when the engine still lacks a window.
    PresentCalled { this_device: usize, params_window: Option<usize>, fallback_window: usize },
    /// The offset scan accepted a candidate device.  `params_window` is the
    /// focus window from the device's creation parameters, when available.
    OffsetAcquired { device: usize, params_window: Option<usize> },
}

/// Whether handling `e` in state `s` records a newly acquired device: the
/// direct path does so when construction succeeded and produced a non-null
/// device, the present path on its first run after acquisition, and the
/// offset path when the creation parameters were readable.
pub open spec fn spec_acquires(s: HookState, e: AcquisitionEvent) -> bool {
    match e {
        AcquisitionEvent::CreateDeviceReturned { succeeded, out_device, .. } => succeeded
            && out_device != 0,
        AcquisitionEvent::PresentCalled { .. } => !s.device_notified,
        AcquisitionEvent::OffsetAcquired { params_window, .. } => params_window is Some,
    }
}

/// Whether handling `e` in state `s` fires the device-created callback.
pub open spec fn spec_notifies(s: HookState, e: AcquisitionEvent) -> bool {
    spec_acquires(s, e) && s.callbacks_set && !s.device_notified
}

/// The value of the one-shot notification flag after handling `e` in `s`.
pub open spec fn spec_notified_after(s: HookState, e: AcquisitionEvent) -> bool {
    s.device_notified || spec_acquires(s, e)
}

/// The device-created callback fires at most once per acquisition epoch.
/// Whatever two acquisition paths run, in whatever order: a path that fires
/// the callback leaves the state marked notified, and from any state so
/// marked no path fires it again.
pub proof fn lemma_device_created_at_most_once(
    s1: HookState,
    e1: AcquisitionEvent,
    s2: HookState,
    e2: AcquisitionEvent,
)
    requires
        s2.device_notified == spec_notified_after(s1, e1),
    ensures
        spec_notifies(s1, e1) ==> !spec_notifies(s2, e2),
{
}

/// How often the device-created callback fires along a sequence of
/// acquisition events handled in order, starting from `s`.  Only the
/// notification flag evolves here: the acquisition paths never change the
/// registered-callbacks flag, and no other field enters the decision.
pub open spec fn spec_notification_count(s: HookState, events: Seq<AcquisitionEvent>) -> nat
    decreases events.len(),
{
    if events.len() == 0 {
        0
    } else {
        let fired: nat = if spec_notifies(s, events[0]) {
            1
        } else {
            0
        };
        let next = HookState { device_notified: spec_notified_after(s, events[0]), ..s };
        fired + spec_notification_count(next, events.skip(1))
    }
}

/// Once the state is marked notified, no acquisition path fires the
/// device-created callback again.
pub proof fn lemma_no_notification_once_notified(s: HookState, events: Seq<AcquisitionEvent>)
    requires
        s.device_notified,
    ensures
        spec_notification_count(s, events) == 0,
    decreases events.len(),
{
    if events.len() > 0 {
        let next = HookState { device_notified: spec_notified_after(s, events[0]), ..s };
        lemma_no_notification_once_notified(next, events.skip(1));
    }
}

/// The device-created callback fires at most once per acquisition epoch:
/// along any sequence of acquisition events, in whatever order the paths run,
/// the callback fires at most one time.
pub proof fn lemma_device_created_at_most_once_along(s: HookState, events: Seq<AcquisitionEvent>)
    ensures
        spec_notification_count(s, events) <= 1,
    decreases events.len(),
{
    if events.len() > 0 {
        let next = HookState { device_notified: spec_notified_after(s, events[0]), ..s };
        if spec_notifies(s, events[0]) {
            lemma_no_notification_once_notified(next, events.skip(1));
        } else {
            lemma_device_created_at_most_once_along(next, events.skip(1));
        }
    }
}

/// What the embedder must do after handing a frame-present run to the engine.
pub struct PresentOutcome {
    /// Fire the device-created callback, with `notify_window` and the device.
    pub notify: bool,
    /// The window to report to the device-created callback.
    pub notify_window: usize,
    /// Run the per-frame present callback.
    pub run_present_callback: bool,
    /// The saved original frame-present pointer to forward the call to.
    pub forward_to: usize,
}

/// What the embedder must do on entry to a reset run.
pub struct ResetEntry {
    /// Run the pre-reset callback before forwarding.
    pub fire_pre_reset: bool,
    /// The saved original reset pointer to forward the call to.
    pub forward_to: usize,
}

/// The window to report to the device-created callback: the recorded one,
/// else the one read from the device's creation parameters, else the window
/// the host handed to the present call.
pub open spec fn spec_resolved_window(
    s: HookState,
    params_window: Option<usize>,
    fallback_window: usize,
) -> usize {
    if s.hwnd is Some {
        s.hwnd->0
    } else if params_window is Some {
        params_window->0
    } else {
        fallback_window
    }
}

impl HookState {
    /// The patched creation method ran and forwarded to the original first;
    /// `succeeded` and `out_device` describe what the original returned.  On
    /// a successful construction with a non-null device the engine records
    /// the device and focus window, decides the one-shot device-created
    /// notification, and installs the two per-device hooks.  Returns whether
    /// the embedder must fire the device-created callback.
    pub fn on_create_device_returned(
        &mut self,
        mem: &mut ProcessMemory,
        succeeded: bool,
        out_device: usize,
        focus_window: usize,
        hooks: &HookFns,
    ) -> (notify: bool)
        requires
            old(self).wf(),
            succeeded && out_device != 0 && !(old(self).present_installed
                && old(self).reset_installed) ==> device_slots_ok(old(mem), out_device),
        ensures
            notify == spec_notifies(
                *old(self),
                AcquisitionEvent::CreateDeviceReturned { succeeded, out_device, focus_window },
            ),
            final(self).device_notified == spec_notified_after(
                *old(self),
                AcquisitionEvent::CreateDeviceReturned { succeeded, out_device, focus_window },
            ),
            !(succeeded && out_device != 0) ==> *final(self) == *old(self) && final(mem).words()
                == old(mem).words(),
            succeeded && out_device != 0 ==> (*final(self), final(mem).words())
                == spec_install_device_hooks(
                (HookState {
                    device: Some(out_device),
                    hwnd: Some(focus_window),
                    device_notified: true,
                    ..*old(self)
                }),
                old(mem).words(),
                out_device,
                *hooks,
            ),
            final(mem).writable() == old(mem).writable(),
            final(self).wf(),
    {
        if !(succeeded && out_device != 0) {
            return false;
        }
        self.device = Some(out_device);
        self.hwnd = Some(focus_window);
        let notify = self.callbacks_set && !self.device_notified;
        self.device_notified = true;
        self.install_device_hooks(mem, out_device, hooks);
        notify
    }

    /// Whether the engine would need the device's creation parameters to
    /// resolve a focus window on the next frame-present run.  The embedder
    /// asks this before reading the parameters from the device.
    pub fn needs_window_resolution(&self) -> (r: bool)
        ensures
            r == (!self.device_notified && self.hwnd is None),
    {
        !self.device_notified && self.hwnd.is_none()
    }

    /// The patched frame-present slot ran on `this_device`.  On the first run
    /// after an acquisition the engine records the device and a resolved
    /// focus window and decides the one-shot device-created notification;
    /// every run then reports the per-frame callback and the forwarding
    /// target.
    pub fn on_present_called(
        &mut self,
        this_device: usize,
        params_window: Option<usize>,
        fallback_window: usize,
    ) -> (r: PresentOutcome)
        requires
            old(self).wf(),
            old(self).present_installed,
        ensures
            r.notify == spec_notifies(
                *old(self),
                AcquisitionEvent::PresentCalled { this_device, params_window, fallback_window },
            ),
            final(self).device_notified == spec_notified_after(
                *old(self),
                AcquisitionEvent::PresentCalled { this_device, params_window, fallback_window },
            ),
            old(self).device_notified ==> *final(self) == *old(self) && r.notify_window == 0,
            !old(self).device_notified ==> *final(self) == (HookState {
                device: Some(this_device),
                hwnd: Some(spec_resolved_window(*old(self), params_window, fallback_window)),
                device_notified: true,
                ..*old(self)
            }) && r.notify_window == spec_resolved_window(
                *old(self),
                params_window,
                fallback_window,
            ),
            r.run_present_callback == old(self).callbacks_set,
            r.forward_to == old(self).o_present->0,
            final(self).wf(),
    {
        let mut notify = false;
        let mut notify_window: usize = 0;
        if !self.device_notified {
            let window = match self.hwnd {
                Some(h) => h,
                None => match params_window {
                    Some(h) => h,
                    None => fallback_window,
                },
            };
            self.hwnd = Some(window);
            self.device = Some(this_device);
            notify = self.callbacks_set;
            notify_window = window;
            self.device_notified = true;
        }
        let forward_to = match self.o_present {
            Some(p) => p,
            None => vstd::pervasive::unreached(),
        };
        PresentOutcome {
            notify,
            notify_window,
            run_present_callback: self.callbacks_set,
            forward_to,
        }
    }

    /// The patched reset slot ran: report whether to fire the pre-reset
    /// callback and where to forward the call.
    pub fn on_reset_called(&self) -> (r: ResetEntry)
        requires
            self.wf(),
            self.reset_installed,
        ensures
            r.fire_pre_reset == self.callbacks_set,
            r.forward_to == self.o_reset->0,
    {
        let forward_to = match self.o_reset {
            Some(p) => p,
            None => vstd::pervasive::unreached(),
        };
        ResetEntry { fire_pre_reset: self.callbacks_set, forward_to }
    }

    /// The forwarded reset returned: the post-reset callback fires only when
    /// the original reported success.  A failed reset is expected during
    /// resolution changes and is reported by not firing the callback.
    pub fn on_reset_returned(&self, succeeded: bool) -> (fire_post_reset: bool)
        ensures
            fire_post_reset == (succeeded && self.callbacks_set),
    {
        succeeded && self.callbacks_set
    }

    /// Offset-scanning acquisition path, last step: the background scan
    /// accepted `device`.  Installs the per-device hooks; when the device's
    /// creation parameters yielded a focus window, records the device and
    /// window and decides the one-shot device-created notification.  Returns
    /// whether the embedder must fire the device-created callback.
    pub fn complete_offset_acquisition(
        &mut self,
        mem: &mut ProcessMemory,
        device: usize,
        params_window: Option<usize>,
        hooks: &HookFns,
    ) -> (notify: bool)
        requires
            old(self).wf(),
            !(old(self).present_installed && old(self).reset_installed) ==> device_slots_ok(
                old(mem),
                device,
            ),
        ensures
            notify == spec_notifies(
                *old(self),
                AcquisitionEvent::OffsetAcquired { device, params_window },
            ),
            final(self).device_notified == spec_notified_after(
                *old(self),
                AcquisitionEvent::OffsetAcquired { device, params_window },
            ),
            ({
                let (s1, w1) = spec_install_device_hooks(
                    *old(self),
                    old(mem).words(),
                    device,
                    *hooks,
                );
                &&& final(mem).words() == w1
                &&& (params_window is None ==> *final(self) == s1)
                &&& (params_window is Some ==> *final(self) == (HookState {
                    device: Some(device),
                    hwnd: params_window,
                    device_notified: true,
                    ..s1
                }))
            }),
            final(mem).writable() == old(mem).writable(),
            final(self).wf(),
    {
        self.install_device_hooks(mem, device, hooks);
        match params_window {
            Some(window) => {
                self.device = Some(device);
                self.hwnd = Some(window);
                let notify = self.callbacks_set && !self.device_notified;
                self.device_notified = true;
                notify
            },
            None => false,
        }
    }
}

/// Memory prerequisites for an uninstall: when a recorded device resolves to
/// a nonzero vtable, each slot still marked installed must be modelled so its
/// original pointer can be written back.
pub open spec fn uninstall_slots_ok(s: HookState, mem: &ProcessMemory) -> bool {
    match s.device {
        None => true,
        Some(d) => {
            if d != 0 && mem.words().contains_key(d) && mem.words()[d] != 0 {
                let vt = mem.words()[d];
                &&& (s.reset_installed ==> spec_slot_addr(vt, RESET_SLOT) <= usize::MAX
                    && mem.tracked_at(spec_slot_addr(vt, RESET_SLOT) as usize))
                &&& (s.present_installed ==> spec_slot_addr(vt, PRESENT_SLOT) <= usize::MAX
                    && mem.tracked_at(spec_slot_addr(vt, PRESENT_SLOT) as usize))
            } else {
                true
            }
        },
    }
}

/// The uninstall transition: the state, the modelled words and the returned
/// flag after tearing the per-device hooks down.  Without a recorded device,
/// or when the device no longer resolves to a nonzero vtable, nothing can be
/// restored safely and nothing is touched.  Otherwise each slot still marked
/// installed gets its saved original back, and every state flag is cleared
/// while the saved originals are kept for a later epoch.
pub open spec fn spec_uninstall(s: HookState, words: Map<usize, usize>) -> (
    HookState,
    Map<usize, usize>,
    bool,
) {
    match s.device {
        None => (s, words, false),
        Some(d) => {
            if d == 0 || !words.contains_key(d) || words[d] == 0 {
                (s, words, false)
            } else {
                let vt = words[d];
                let w1 = if s.reset_installed {
                    words.insert(spec_slot_addr(vt, RESET_SLOT) as usize, s.o_reset->0)
                } else {
                    words
                };
                let w2 = if s.present_installed {
                    w1.insert(spec_slot_addr(vt, PRESENT_SLOT) as usize, s.o_present->0)
                } else {
                    w1
                };
                let cleared = HookState {
                    callbacks_set: false,
                    device: None,
                    hwnd: None,
                    present_installed: false,
                    reset_installed: false,
                    device_notified: false,
                    ..s
                };
                (cleared, w2, s.reset_installed || s.present_installed)
            }
        },
    }
}

impl HookState {
    /// Restores the patched per-device slots to their saved originals and
    /// clears the state, beginning a new acquisition epoch.  Returns whether
    /// any vtable slot was actually restored; when no device was ever
    /// acquired it returns `false` and touches no memory.  Safe to call more
    /// than once: a second run finds the installed flags clear.
    pub fn uninstall(&mut self, mem: &mut ProcessMemory) -> (restored: bool)
        requires
            old(self).wf(),
            uninstall_slots_ok(*old(self), old(mem)),
        ensures
            (*final(self), final(mem).words(), restored) == spec_uninstall(
                *old(self),
                old(mem).words(),
            ),
            final(mem).writable() == old(mem).writable(),
            restored ==> old(self).device is Some,
            final(self).wf(),
    {
        let d = match self.device {
            Some(d) => d,
            None => {
                return false;
            },
        };
        if d == 0 {
            return false;
        }
        let vt = match mem.read_word(d) {
            Some(v) => v,
            None => {
                return false;
            },
        };
        if vt == 0 {
            return false;
        }
        let mut restored_any = false;
        if self.reset_installed {
            let original = match self.o_reset {
                Some(o) => o,
                None => vstd::pervasive::unreached(),
            };
            patcher::restore_entry(mem, vt + RESET_SLOT * POINTER_SIZE, original);
            self.reset_installed = false;
            restored_any = true;
        }
        if self.present_installed {
            let original = match self.o_present {
                Some(o) => o,
                None => vstd::pervasive::unreached(),
            };
            patcher::restore_entry(mem, vt + PRESENT_SLOT * POINTER_SIZE, original);
            self.present_installed = false;
            restored_any = true;
        }
        self.callbacks_set = false;
        self.device = None;
        self.hwnd = None;
        self.device_notified = false;
        restored_any
    }
}

/// A full hook cycle is memory-neutral for the device's vtable: installing
/// the two per-device hooks on a clean state and then uninstalling restores
/// every modelled word to its pre-installation value, and the uninstall
/// reports that it restored something.  The device pointer must not itself
/// lie inside the two slots it owns, which no real object layout allows.
pub proof fn lemma_install_then_uninstall_restores_words(
    s: HookState,
    words: Map<usize, usize>,
    device: usize,
    hooks: HookFns,
)
    requires
        s.wf(),
        !s.present_installed,
        !s.reset_installed,
        device != 0,
        words.contains_key(device),
        words[device] != 0,
        spec_slot_addr(words[device], PRESENT_SLOT) <= usize::MAX,
        words.contains_key(spec_slot_addr(words[device], RESET_SLOT) as usize),
        words.contains_key(spec_slot_addr(words[device], PRESENT_SLOT) as usize),
        device != spec_slot_addr(words[device], RESET_SLOT) as usize,
        device != spec_slot_addr(words[device], PRESENT_SLOT) as usize,
    ensures
        ({
            let (installed, patched) = spec_install_device_hooks(s, words, device, hooks);
            let acquired = HookState { device: Some(device), ..installed };
            let (cleared, restored_words, restored) = spec_uninstall(acquired, patched);
            &&& restored
            &&& restored_words == words
            &&& !cleared.present_installed
            &&& !cleared.reset_installed
        }),
{
    let vt = words[device];
    let reset_addr = spec_slot_addr(vt, RESET_SLOT) as usize;
    let present_addr = spec_slot_addr(vt, PRESENT_SLOT) as usize;
    let (installed, patched) = spec_install_device_hooks(s, words, device, hooks);
    assert(patched[device] == vt);
    let acquired = HookState { device: Some(device), ..installed };
    let (cleared, restored_words, restored) = spec_uninstall(acquired, patched);
    assert(restored_words =~= words);
}

} // verus!
