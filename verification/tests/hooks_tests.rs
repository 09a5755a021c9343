use overlay_hook::hooks::{HookError, HookFns, HookState};
use overlay_hook::process::ProcessMemory;

const FACTORY: usize = 0x1000;
const FACTORY_VTABLE: usize = 0x2000;
const CREATE_SLOT_ADDR: usize = FACTORY_VTABLE + 16 * 4;
const ORIGINAL_CREATE: usize = 0x7777;

const DEVICE: usize = 0x3000;
const DEVICE_VTABLE: usize = 0x4000;
const RESET_SLOT_ADDR: usize = DEVICE_VTABLE + 16 * 4;
const PRESENT_SLOT_ADDR: usize = DEVICE_VTABLE + 17 * 4;
const ORIGINAL_RESET: usize = 0x8888;
const ORIGINAL_PRESENT: usize = 0x9999;

fn test_hooks() -> HookFns {
    HookFns { create_device: 0xAA00, present: 0xAA01, reset: 0xAA02 }
}

fn image_with_factory_and_device() -> ProcessMemory {
    let mut mem = ProcessMemory::new();
    mem.track_word(FACTORY, FACTORY_VTABLE, false);
    mem.track_word(CREATE_SLOT_ADDR, ORIGINAL_CREATE, false);
    mem.track_word(DEVICE, DEVICE_VTABLE, false);
    mem.track_word(RESET_SLOT_ADDR, ORIGINAL_RESET, false);
    mem.track_word(PRESENT_SLOT_ADDR, ORIGINAL_PRESENT, false);
    mem
}

#[test]
fn direct_install_patches_the_creation_slot() {
    let mut mem = image_with_factory_and_device();
    let mut state = HookState::new();
    let r = state.install_on_d3d9(&mut mem, FACTORY, &test_hooks());
    assert_eq!(r, Ok(()));
    assert_eq!(mem.read_word(CREATE_SLOT_ADDR), Some(test_hooks().create_device));
    assert_eq!(state.o_create_device, Some(ORIGINAL_CREATE));
    assert!(state.callbacks_set);
    assert!(!state.device_notified);
}

#[test]
fn null_interface_is_refused_and_memory_untouched() {
    let mut mem = image_with_factory_and_device();
    let mut state = HookState::new();
    let r = state.install_on_d3d9(&mut mem, 0, &test_hooks());
    assert_eq!(r, Err(HookError::NullInterface));
    assert_eq!(mem.read_word(CREATE_SLOT_ADDR), Some(ORIGINAL_CREATE));
    assert!(!state.callbacks_set);
}

#[test]
fn second_install_without_uninstall_is_refused() {
    let mut mem = image_with_factory_and_device();
    let mut state = HookState::new();
    assert_eq!(state.install_on_d3d9(&mut mem, FACTORY, &test_hooks()), Ok(()));
    let r = state.install_on_d3d9(&mut mem, FACTORY, &test_hooks());
    assert_eq!(r, Err(HookError::AlreadyInstalled));
}

#[test]
fn repeated_callback_registration_is_refused() {
    let mut state = HookState::new();
    assert_eq!(state.register_callbacks(), Ok(()));
    assert_eq!(state.register_callbacks(), Err(HookError::AlreadyInstalled));
}

#[test]
fn successful_creation_installs_device_hooks_and_notifies_once() {
    let mut mem = image_with_factory_and_device();
    let mut state = HookState::new();
    assert_eq!(state.install_on_d3d9(&mut mem, FACTORY, &test_hooks()), Ok(()));
    let notify = state.on_create_device_returned(&mut mem, true, DEVICE, 0x77, &test_hooks());
    assert!(notify);
    assert_eq!(mem.read_word(RESET_SLOT_ADDR), Some(test_hooks().reset));
    assert_eq!(mem.read_word(PRESENT_SLOT_ADDR), Some(test_hooks().present));
    assert_eq!(state.o_reset, Some(ORIGINAL_RESET));
    assert_eq!(state.o_present, Some(ORIGINAL_PRESENT));
    assert!(state.present_installed && state.reset_installed);
    assert_eq!(state.device, Some(DEVICE));
    assert_eq!(state.hwnd, Some(0x77));
}

#[test]
fn failed_creation_changes_nothing() {
    let mut mem = image_with_factory_and_device();
    let mut state = HookState::new();
    assert_eq!(state.install_on_d3d9(&mut mem, FACTORY, &test_hooks()), Ok(()));
    let notify = state.on_create_device_returned(&mut mem, false, DEVICE, 0x77, &test_hooks());
    assert!(!notify);
    let notify = state.on_create_device_returned(&mut mem, true, 0, 0x77, &test_hooks());
    assert!(!notify);
    assert_eq!(mem.read_word(RESET_SLOT_ADDR), Some(ORIGINAL_RESET));
    assert!(!state.device_notified);
}

#[test]
fn device_created_fires_at_most_once_across_paths() {
    let mut mem = image_with_factory_and_device();
    let mut state = HookState::new();
    assert_eq!(state.install_on_d3d9(&mut mem, FACTORY, &test_hooks()), Ok(()));
    let first = state.on_create_device_returned(&mut mem, true, DEVICE, 0x77, &test_hooks());
    assert!(first);
    // A later frame-present run must not notify again.
    let outcome = state.on_present_called(DEVICE, None, 0x99);
    assert!(!outcome.notify);
    assert!(outcome.run_present_callback);
    assert_eq!(outcome.forward_to, ORIGINAL_PRESENT);
    // Nor a repeated creation.
    let again = state.on_create_device_returned(&mut mem, true, DEVICE, 0x77, &test_hooks());
    assert!(!again);
}

#[test]
fn installing_device_hooks_twice_patches_each_slot_once() {
    let mut mem = image_with_factory_and_device();
    let mut state = HookState::new();
    state.install_device_hooks(&mut mem, DEVICE, &test_hooks());
    assert_eq!(state.o_reset, Some(ORIGINAL_RESET));
    assert_eq!(state.o_present, Some(ORIGINAL_PRESENT));
    state.install_device_hooks(&mut mem, DEVICE, &test_hooks());
    // The saved originals still hold the host's pointers, not the engine's
    // interceptors: the second run did not read the patched slots back.
    assert_eq!(state.o_reset, Some(ORIGINAL_RESET));
    assert_eq!(state.o_present, Some(ORIGINAL_PRESENT));
    assert_eq!(mem.read_word(RESET_SLOT_ADDR), Some(test_hooks().reset));
    assert_eq!(mem.read_word(PRESENT_SLOT_ADDR), Some(test_hooks().present));
}

#[test]
fn lazy_notification_on_first_present_uses_recorded_then_params_then_fallback_window() {
    let mut mem = image_with_factory_and_device();
    let mut state = HookState::new();
    assert_eq!(state.register_callbacks(), Ok(()));
    state.install_device_hooks(&mut mem, DEVICE, &test_hooks());
    assert!(state.needs_window_resolution());
    let outcome = state.on_present_called(DEVICE, Some(0x55), 0x99);
    assert!(outcome.notify);
    assert_eq!(outcome.notify_window, 0x55);
    assert_eq!(state.device, Some(DEVICE));
    assert_eq!(state.hwnd, Some(0x55));

    // Without creation parameters the host's present window is the fallback.
    let mut mem2 = image_with_factory_and_device();
    let mut state2 = HookState::new();
    assert_eq!(state2.register_callbacks(), Ok(()));
    state2.install_device_hooks(&mut mem2, DEVICE, &test_hooks());
    let outcome2 = state2.on_present_called(DEVICE, None, 0x99);
    assert!(outcome2.notify);
    assert_eq!(outcome2.notify_window, 0x99);
}

#[test]
fn present_without_callbacks_still_marks_the_device_known() {
    let mut mem = image_with_factory_and_device();
    let mut state = HookState::new();
    state.install_device_hooks(&mut mem, DEVICE, &test_hooks());
    let outcome = state.on_present_called(DEVICE, None, 0x99);
    assert!(!outcome.notify);
    assert!(!outcome.run_present_callback);
    assert!(state.device_notified);
}

#[test]
fn reset_fires_pre_always_and_post_only_on_success() {
    let mut mem = image_with_factory_and_device();
    let mut state = HookState::new();
    assert_eq!(state.register_callbacks(), Ok(()));
    state.install_device_hooks(&mut mem, DEVICE, &test_hooks());
    let entry = state.on_reset_called();
    assert!(entry.fire_pre_reset);
    assert_eq!(entry.forward_to, ORIGINAL_RESET);
    assert!(state.on_reset_returned(true));
    assert!(!state.on_reset_returned(false));
}

#[test]
fn offset_acquisition_installs_hooks_and_notifies_with_window() {
    let mut mem = image_with_factory_and_device();
    let mut state = HookState::new();
    assert_eq!(state.register_callbacks(), Ok(()));
    let notify = state.complete_offset_acquisition(&mut mem, DEVICE, Some(0x66), &test_hooks());
    assert!(notify);
    assert_eq!(state.device, Some(DEVICE));
    assert_eq!(state.hwnd, Some(0x66));
    assert_eq!(mem.read_word(RESET_SLOT_ADDR), Some(test_hooks().reset));
    assert_eq!(mem.read_word(PRESENT_SLOT_ADDR), Some(test_hooks().present));
}

#[test]
fn offset_acquisition_without_window_does_not_notify() {
    let mut mem = image_with_factory_and_device();
    let mut state = HookState::new();
    assert_eq!(state.register_callbacks(), Ok(()));
    let notify = state.complete_offset_acquisition(&mut mem, DEVICE, None, &test_hooks());
    assert!(!notify);
    assert!(!state.device_notified);
    // The per-device hooks are installed all the same.
    assert_eq!(mem.read_word(PRESENT_SLOT_ADDR), Some(test_hooks().present));
}

#[test]
fn uninstall_with_no_device_returns_false_and_touches_nothing() {
    let mut mem = image_with_factory_and_device();
    let mut state = HookState::new();
    assert!(!state.uninstall(&mut mem));
    assert_eq!(mem.read_word(RESET_SLOT_ADDR), Some(ORIGINAL_RESET));
    assert_eq!(mem.read_word(PRESENT_SLOT_ADDR), Some(ORIGINAL_PRESENT));
    assert_eq!(mem.read_word(CREATE_SLOT_ADDR), Some(ORIGINAL_CREATE));
}

#[test]
fn uninstall_restores_both_device_slots_and_clears_state() {
    let mut mem = image_with_factory_and_device();
    let mut state = HookState::new();
    assert_eq!(state.install_on_d3d9(&mut mem, FACTORY, &test_hooks()), Ok(()));
    assert!(state.on_create_device_returned(&mut mem, true, DEVICE, 0x77, &test_hooks()));
    let restored = state.uninstall(&mut mem);
    assert!(restored);
    assert_eq!(mem.read_word(RESET_SLOT_ADDR), Some(ORIGINAL_RESET));
    assert_eq!(mem.read_word(PRESENT_SLOT_ADDR), Some(ORIGINAL_PRESENT));
    assert!(!state.callbacks_set);
    assert_eq!(state.device, None);
    assert_eq!(state.hwnd, None);
    assert!(!state.present_installed && !state.reset_installed);
    assert!(!state.device_notified);
    // The saved originals survive for the next epoch.
    assert_eq!(state.o_create_device, Some(ORIGINAL_CREATE));
    // A second uninstall has nothing left to restore.
    assert!(!state.uninstall(&mut mem));
}

#[test]
fn a_new_epoch_may_begin_after_uninstall() {
    let mut mem = image_with_factory_and_device();
    let mut state = HookState::new();
    assert_eq!(state.install_on_d3d9(&mut mem, FACTORY, &test_hooks()), Ok(()));
    assert!(state.on_create_device_returned(&mut mem, true, DEVICE, 0x77, &test_hooks()));
    assert!(state.uninstall(&mut mem));
    // Installation and notification run again in the new epoch.
    assert_eq!(state.install_on_d3d9(&mut mem, FACTORY, &test_hooks()), Ok(()));
    assert!(state.on_create_device_returned(&mut mem, true, DEVICE, 0x77, &test_hooks()));
    // The first saved original is kept, not overwritten with the interceptor.
    assert_eq!(state.o_create_device, Some(ORIGINAL_CREATE));
}
