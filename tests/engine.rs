use input_intercept::classify::{
    classify, classify_raw, transition_of, KeyEvent, Payload, Transition, WM_CHAR, WM_KEYDOWN,
    WM_KEYUP, WM_SYSKEYDOWN,
};
use input_intercept::dispatch::{Decision, Policy};
use input_intercept::engine::{
    Action, Dispatch, Engine, EngineError, Lifecycle, Route, Strategy, WindowAttempt,
};
use input_intercept::registry::{HandlerRef, HandlerRegistry, RegistryError, Target};
use input_intercept::to_pcstr;

const W: isize = 0x1234;
const H: isize = 0x7ff0_0000;
const KEY_A: u64 = 0x41;

fn window_engine(policy: Policy) -> Engine {
    let mut e = Engine::new(policy);
    assert_eq!(e.begin_install(Strategy::WindowProc), Ok(()));
    assert_eq!(e.install_window(WindowAttempt { window: W, read: H, swapped: H }), Ok(()));
    assert_eq!(e.complete_install(), Ok(()));
    e
}

fn key_down_a() -> Payload {
    Payload::Message { window: W, msg: WM_KEYDOWN, w_param: KEY_A }
}

#[test]
fn key_down_is_reported_then_chained_to_original() {
    let e = window_engine(Policy::observe_only());
    let d = e.on_event(&key_down_a()).unwrap();
    assert_eq!(
        d.report,
        Some(KeyEvent {
            key_code: KEY_A,
            transition: Transition::KeyDown,
            source: Target::Window(W),
            device: None,
        })
    );
    assert_eq!(d.action, Action::Forward(Route::Original(HandlerRef::WindowProc(H))));
}

#[test]
fn suppressed_key_is_reported_and_handled() {
    let e = window_engine(Policy::suppressing(vec![KEY_A]));
    let d = e.on_event(&key_down_a()).unwrap();
    assert_eq!(d.report.unwrap().key_code, KEY_A);
    assert_eq!(d.action, Action::Handled);
    let other = Payload::Message { window: W, msg: WM_KEYDOWN, w_param: 0x42 };
    assert_eq!(
        e.on_event(&other).unwrap().action,
        Action::Forward(Route::Original(HandlerRef::WindowProc(H)))
    );
}

#[test]
fn one_failed_child_is_isolated() {
    let mut e = Engine::new(Policy::observe_only());
    e.begin_install(Strategy::WindowProc).unwrap();
    let attempts: Vec<WindowAttempt> = (1..=5)
        .map(|i| WindowAttempt { window: i, read: 100 + i, swapped: if i == 3 { 0 } else { 100 + i } })
        .collect();
    let results = e.install_windows(&attempts);
    assert_eq!(
        results,
        vec![Ok(()), Ok(()), Err(EngineError::HandlerSwap), Ok(()), Ok(())]
    );
    assert_eq!(e.handler_count(), 4);
    assert!(!e.is_hooked(3));
    assert_eq!(e.original_handler(4), Ok(HandlerRef::WindowProc(104)));
    assert_eq!(e.lifecycle(), Lifecycle::Installing);
}

#[test]
fn second_uninstall_releases_nothing() {
    let mut e = Engine::new(Policy::observe_only());
    e.begin_install(Strategy::GlobalHook).unwrap();
    e.install_hook(77).unwrap();
    e.complete_install().unwrap();
    let first = e.uninstall();
    assert_eq!(first.unhook, Some(77));
    assert!(first.restore.is_empty());
    let second = e.uninstall();
    assert_eq!(second.unhook, None);
    assert!(second.restore.is_empty());
    assert!(!second.unregister_raw);
    assert_eq!(e.lifecycle(), Lifecycle::Uninstalled);
}

#[test]
fn uninstall_restores_windows_in_order() {
    let mut e = window_engine(Policy::observe_only());
    e.install_window(WindowAttempt { window: 9, read: 5, swapped: 5 }).unwrap_err();
    let plan = e.uninstall();
    assert_eq!(plan.restore, vec![(W, HandlerRef::WindowProc(H))]);
    assert_eq!(e.handler_count(), 0);
    assert_eq!(e.strategy(), None);
}

#[test]
fn failed_unhook_is_retried() {
    let mut e = Engine::new(Policy::observe_only());
    e.begin_install(Strategy::GlobalHook).unwrap();
    e.install_hook(5).unwrap();
    let plan = e.uninstall();
    e.retain_hook(plan.unhook.unwrap());
    assert_eq!(e.lifecycle(), Lifecycle::Uninstalling);
    assert_eq!(e.uninstall().unhook, Some(5));
    assert_eq!(e.uninstall().unhook, None);
}

#[test]
fn registry_lookup_after_record() {
    let mut r = HandlerRegistry::new();
    assert_eq!(r.record(1, HandlerRef::WindowProc(10)), Ok(()));
    assert_eq!(r.record(2, HandlerRef::Hook(20)), Ok(()));
    assert_eq!(r.lookup(1), Ok(HandlerRef::WindowProc(10)));
    assert_eq!(r.lookup(2), Ok(HandlerRef::Hook(20)));
    assert_eq!(r.len(), 2);
}

#[test]
fn registry_refuses_duplicate() {
    let mut r = HandlerRegistry::new();
    r.record(1, HandlerRef::WindowProc(10)).unwrap();
    assert_eq!(r.record(1, HandlerRef::DefaultProc), Err(RegistryError::DuplicateTarget));
    assert_eq!(r.lookup(1), Ok(HandlerRef::WindowProc(10)));
}

#[test]
fn registry_remove_twice() {
    let mut r = HandlerRegistry::new();
    r.record(1, HandlerRef::WindowProc(10)).unwrap();
    r.record(2, HandlerRef::WindowProc(20)).unwrap();
    assert_eq!(r.remove(1), Some(HandlerRef::WindowProc(10)));
    assert_eq!(r.remove(1), None);
    assert_eq!(r.lookup(1), Err(RegistryError::UnknownTarget));
    assert_eq!(r.lookup(2), Ok(HandlerRef::WindowProc(20)));
    assert_eq!(r.len(), 1);
    assert_eq!(r.drain(), vec![(2, HandlerRef::WindowProc(20))]);
    assert_eq!(r.len(), 0);
}

#[test]
fn unknown_transition_is_forwarded_even_for_suppressed_key() {
    let e = window_engine(Policy::suppressing(vec![KEY_A]));
    let paint = Payload::Message { window: W, msg: 0x000F, w_param: KEY_A };
    let d = e.on_event(&paint).unwrap();
    assert_eq!(d.report.unwrap().transition, Transition::Unknown);
    assert_eq!(d.action, Action::Forward(Route::Original(HandlerRef::WindowProc(H))));
    let p = Policy::suppressing(vec![KEY_A]);
    let ev = KeyEvent {
        key_code: KEY_A,
        transition: Transition::Unknown,
        source: Target::ProcessWide,
        device: None,
    };
    assert_eq!(p.decide(&ev), Decision::Forward);
}

#[test]
fn unprocessed_hook_record_is_forwarded_unreported() {
    let mut e = Engine::new(Policy::suppressing(vec![KEY_A]));
    e.begin_install(Strategy::GlobalHook).unwrap();
    e.install_hook(1).unwrap();
    let rec = Payload::Hook { code: -1, message: WM_KEYDOWN as u64, vk_code: 0x41 };
    assert_eq!(
        e.on_event(&rec),
        Ok(Dispatch { report: None, action: Action::Forward(Route::NextHook) })
    );
    let rec = Payload::Hook { code: 0, message: WM_KEYDOWN as u64, vk_code: 0x41 };
    assert_eq!(e.on_event(&rec).unwrap().action, Action::Handled);
}

#[test]
fn hook_record_classified() {
    let rec = Payload::Hook { code: 0, message: WM_KEYUP as u64, vk_code: 0x20 };
    assert_eq!(
        classify(&rec),
        Some(KeyEvent {
            key_code: 0x20,
            transition: Transition::KeyUp,
            source: Target::ProcessWide,
            device: None,
        })
    );
}

#[test]
fn transitions_of_messages() {
    assert_eq!(transition_of(WM_KEYDOWN as u64), Transition::KeyDown);
    assert_eq!(transition_of(WM_SYSKEYDOWN as u64), Transition::KeyDown);
    assert_eq!(transition_of(WM_KEYUP as u64), Transition::KeyUp);
    assert_eq!(transition_of(WM_CHAR as u64), Transition::CharInput);
    assert_eq!(transition_of(0x0200), Transition::Unknown);
}

fn raw_packet(kind: u32, device: u64, vkey: u16, msg: u32) -> Vec<u8> {
    let mut p = Vec::new();
    p.extend_from_slice(&kind.to_le_bytes());
    p.extend_from_slice(&40u32.to_le_bytes());
    p.extend_from_slice(&device.to_le_bytes());
    p.extend_from_slice(&0u64.to_le_bytes());
    p.extend_from_slice(&0x1eu16.to_le_bytes());
    p.extend_from_slice(&0u16.to_le_bytes());
    p.extend_from_slice(&0u16.to_le_bytes());
    p.extend_from_slice(&vkey.to_le_bytes());
    p.extend_from_slice(&msg.to_le_bytes());
    p.extend_from_slice(&0u32.to_le_bytes());
    p
}

#[test]
fn raw_keyboard_packet_classified() {
    let p = raw_packet(1, 0x0001_0000_0000_0abc, 0x41, WM_KEYDOWN);
    assert_eq!(p.len(), 40);
    assert_eq!(
        classify_raw(W, &p),
        KeyEvent {
            key_code: 0x41,
            transition: Transition::KeyDown,
            source: Target::Window(W),
            device: Some(0x0001_0000_0000_0abc),
        }
    );
}

#[test]
fn raw_mouse_and_short_packets_are_unknown() {
    let p = raw_packet(0, 7, 0x41, WM_KEYDOWN);
    let e = classify_raw(W, &p);
    assert_eq!(e.transition, Transition::Unknown);
    assert_eq!(e.device, Some(7));
    let e = classify_raw(W, &p[..30]);
    assert_eq!((e.key_code, e.transition, e.device), (0, Transition::Unknown, Some(7)));
    let e = classify_raw(W, &p[..10]);
    assert_eq!(e.device, None);
}

#[test]
fn raw_input_falls_through_to_default() {
    let mut e = Engine::new(Policy::observe_only());
    e.begin_install(Strategy::RawInput).unwrap();
    assert_eq!(e.register_raw(true), Ok(()));
    assert!(e.raw_registered());
    let p = Payload::Raw { window: W, packet: raw_packet(1, 3, 0x41, WM_KEYUP) };
    let d = e.on_event(&p).unwrap();
    assert_eq!(d.action, Action::Forward(Route::DefaultProc));
    assert_eq!(d.report.unwrap().transition, Transition::KeyUp);
    assert!(e.uninstall().unregister_raw);
}

#[test]
fn event_for_unrecorded_window_is_an_error() {
    let e = window_engine(Policy::observe_only());
    let p = Payload::Message { window: W + 1, msg: WM_KEYDOWN, w_param: KEY_A };
    assert_eq!(e.on_event(&p), Err(EngineError::UnknownTarget));
}

#[test]
fn install_errors() {
    let mut e = Engine::new(Policy::observe_only());
    assert_eq!(
        e.install_window(WindowAttempt { window: 1, read: 2, swapped: 2 }),
        Err(EngineError::InvalidState)
    );
    e.begin_install(Strategy::WindowProc).unwrap();
    assert_eq!(e.begin_install(Strategy::RawInput), Err(EngineError::InvalidState));
    assert_eq!(
        e.install_window(WindowAttempt { window: 1, read: 0, swapped: 0 }),
        Err(EngineError::HandlerRead)
    );
    e.install_window(WindowAttempt { window: 1, read: 2, swapped: 2 }).unwrap();
    assert_eq!(
        e.install_window(WindowAttempt { window: 1, read: 3, swapped: 3 }),
        Err(EngineError::DuplicateTarget)
    );
    assert_eq!(e.install_hook(9), Err(EngineError::InvalidState));
    assert_eq!(e.register_raw(false), Err(EngineError::DeviceRegistration));
    assert_eq!(e.lifecycle(), Lifecycle::InstallFailed);
    assert_eq!(e.complete_install(), Err(EngineError::InvalidState));
    let plan = e.uninstall();
    assert_eq!(plan.restore, vec![(1, HandlerRef::WindowProc(2))]);
    assert_eq!(e.lifecycle(), Lifecycle::Uninstalled);
}

#[test]
fn rejected_hook_fails_install() {
    let mut e = Engine::new(Policy::observe_only());
    e.begin_install(Strategy::GlobalHook).unwrap();
    assert_eq!(e.install_hook(0), Err(EngineError::OsRejectedInstall));
    assert_eq!(e.lifecycle(), Lifecycle::InstallFailed);
    assert_eq!(e.hook(), None);
}

#[test]
fn pcstr_is_terminated() {
    assert_eq!(to_pcstr("abc"), vec![b'a', b'b', b'c', 0]);
    assert_eq!(to_pcstr(""), vec![0]);
    assert_eq!(to_pcstr("é"), vec![0xc3, 0xa9, 0]);
}

#[test]
fn policy_suppresses_listed_keys() {
    let p = Policy::suppressing(vec![1, 2]);
    assert!(p.suppresses(2));
    assert!(!p.suppresses(3));
    assert!(!Policy::observe_only().suppresses(1));
}
