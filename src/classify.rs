use vstd::prelude::*;

use crate::registry::Target;

verus! {

pub const WM_INPUT: u32 = 0x00FF;

pub const WM_KEYDOWN: u32 = 0x0100;

pub const WM_KEYUP: u32 = 0x0101;

pub const WM_CHAR: u32 = 0x0102;

pub const WM_SYSKEYDOWN: u32 = 0x0104;

pub const WM_SYSKEYUP: u32 = 0x0105;

pub const WM_SYSCHAR: u32 = 0x0106;

/// The hook code of a record that the hook procedure is to process.
pub const HC_ACTION: i32 = 0;

/// The `dwType` of a raw-input packet that comes from a keyboard.
pub const RIM_TYPEKEYBOARD: u32 = 1;

/// Length of a raw-input header: type, size, device handle, `wParam`.
pub const RAW_HEADER_LEN: usize = 24;

/// Length of a raw-input packet that carries a keyboard report.
pub const RAW_KEYBOARD_LEN: usize = 40;

/// What happened to the key.
#[derive(Clone, Copy, Debug, PartialEq, Eq, Structural)]
pub enum Transition {
    KeyDown,
    KeyUp,
    CharInput,
    Unknown,
}

/// One key event, whatever the mechanism that caught it.
#[derive(Clone, Copy, Debug, PartialEq, Eq, Structural)]
pub struct KeyEvent {
    pub key_code: u64,
    pub transition: Transition,
    pub source: Target,
    pub device: Option<u64>,
}

/// An event as a strategy receives it.
#[derive(Debug)]
pub enum Payload {
    /// A low-level keyboard hook record: the hook code, the message
    /// (`wParam`) and the virtual-key code of the record.
    Hook { code: i32, message: u64, vk_code: u32 },
    /// A window message with its `wParam`.
    Message { window: isize, msg: u32, w_param: u64 },
    /// A raw-input packet, as its bytes, delivered to `window`.
    Raw { window: isize, packet: Vec<u8> },
}

/// The transition that a keyboard message code stands for.
pub open spec fn spec_transition_of(msg: u64) -> Transition {
    if msg == WM_KEYDOWN || msg == WM_SYSKEYDOWN {
        Transition::KeyDown
    } else if msg == WM_KEYUP || msg == WM_SYSKEYUP {
        Transition::KeyUp
    } else if msg == WM_CHAR || msg == WM_SYSCHAR {
        Transition::CharInput
    } else {
        Transition::Unknown
    }
}

pub fn transition_of(msg: u64) -> (r: Transition)
    ensures
        r == spec_transition_of(msg),
{
    if msg == WM_KEYDOWN as u64 || msg == WM_SYSKEYDOWN as u64 {
        Transition::KeyDown
    } else if msg == WM_KEYUP as u64 || msg == WM_SYSKEYUP as u64 {
        Transition::KeyUp
    } else if msg == WM_CHAR as u64 || msg == WM_SYSCHAR as u64 {
        Transition::CharInput
    } else {
        Transition::Unknown
    }
}

/// The little-endian unsigned integer held in `b[at..at + n]`.
pub open spec fn le_value(b: Seq<u8>, at: int, n: nat) -> int
    decreases n,
{
    if n == 0 {
        0
    } else {
        b[at] as int + 256 * le_value(b, at + 1, (n - 1) as nat)
    }
}

fn read_u16(b: &[u8], at: usize) -> (r: u16)
    requires
        at + 2 <= b@.len(),
    ensures
        r as int == le_value(b@, at as int, 2),
{
    proof {
        reveal_with_fuel(le_value, 3);
    }
    b[at] as u16 + 256 * (b[at + 1] as u16)
}

fn read_u32(b: &[u8], at: usize) -> (r: u32)
    requires
        at + 4 <= b@.len(),
    ensures
        r as int == le_value(b@, at as int, 4),
{
    proof {
        reveal_with_fuel(le_value, 5);
    }
    b[at] as u32 + 256 * (b[at + 1] as u32 + 256 * (b[at + 2] as u32 + 256 * (b[at + 3] as u32)))
}

fn read_u64(b: &[u8], at: usize) -> (r: u64)
    requires
        at + 8 <= b@.len(),
    ensures
        r as int == le_value(b@, at as int, 8),
{
    let n = b.len();
    let lo = read_u32(b, at);
    let hi = read_u32(b, at + 4);
    proof {
        lemma_le_split(b@, at as int, 4, 4);
        reveal_with_fuel(pow256, 5);
        assert(pow256(4) == 4294967296);
    }
    lo as u64 + 4294967296 * (hi as u64)
}

proof fn lemma_le_split(b: Seq<u8>, at: int, n: nat, m: nat)
    ensures
        le_value(b, at, n + m) == le_value(b, at, n) + pow256(n) * le_value(b, at + n, m),
    decreases n,
{
    if n > 0 {
        lemma_le_split(b, at + 1, (n - 1) as nat, m);
        assert((n - 1) as nat + m == (n + m - 1) as nat);
        assert(pow256(n) == 256 * pow256((n - 1) as nat));
        assert(256 * (pow256((n - 1) as nat) * le_value(b, at + n, m)) == pow256(n) * le_value(
            b,
            at + n,
            m,
        )) by (nonlinear_arith)
            requires
                pow256(n) == 256 * pow256((n - 1) as nat),
        ;
    }
}

spec fn pow256(n: nat) -> int
    decreases n,
{
    if n == 0 {
        1
    } else {
        256 * pow256((n - 1) as nat)
    }
}

/// The key event that a raw-input packet delivered to `window` stands for.
/// A packet too short for a header reports no device; one that is not a full
/// keyboard report has an unknown transition.
pub open spec fn spec_classify_raw(window: isize, p: Seq<u8>) -> KeyEvent {
    if p.len() < RAW_HEADER_LEN {
        KeyEvent { key_code: 0, transition: Transition::Unknown, source: Target::Window(window), device: None }
    } else if p.len() < RAW_KEYBOARD_LEN || le_value(p, 0, 4) != RIM_TYPEKEYBOARD {
        KeyEvent {
            key_code: 0,
            transition: Transition::Unknown,
            source: Target::Window(window),
            device: Some(le_value(p, 8, 8) as u64),
        }
    } else {
        KeyEvent {
            key_code: le_value(p, 30, 2) as u64,
            transition: spec_transition_of(le_value(p, 32, 4) as u64),
            source: Target::Window(window),
            device: Some(le_value(p, 8, 8) as u64),
        }
    }
}

/// Reads the header and, for a keyboard packet, the keyboard report
/// (virtual key at byte 30, message at byte 32) of a raw-input packet.
pub fn classify_raw(window: isize, packet: &[u8]) -> (r: KeyEvent)
    ensures
        r == spec_classify_raw(window, packet@),
{
    if packet.len() < RAW_HEADER_LEN {
        return KeyEvent {
            key_code: 0,
            transition: Transition::Unknown,
            source: Target::Window(window),
            device: None,
        };
    }
    let device = read_u64(packet, 8);
    if packet.len() < RAW_KEYBOARD_LEN || read_u32(packet, 0) != RIM_TYPEKEYBOARD {
        return KeyEvent {
            key_code: 0,
            transition: Transition::Unknown,
            source: Target::Window(window),
            device: Some(device),
        };
    }
    let vkey = read_u16(packet, 30);
    let msg = read_u32(packet, 32);
    KeyEvent {
        key_code: vkey as u64,
        transition: transition_of(msg as u64),
        source: Target::Window(window),
        device: Some(device),
    }
}

/// Whether a hook record carries the mark of a record not to be processed.
pub open spec fn spec_not_for_processing(code: i32) -> bool {
    code != HC_ACTION
}

/// The key event that a payload stands for, or none where a hook record is
/// marked as not to be processed.
pub open spec fn spec_classify(p: Payload) -> Option<KeyEvent> {
    match p {
        Payload::Hook { code, message, vk_code } => if spec_not_for_processing(code) {
            None
        } else {
            Some(
                KeyEvent {
                    key_code: vk_code as u64,
                    transition: spec_transition_of(message),
                    source: Target::ProcessWide,
                    device: None,
                },
            )
        },
        Payload::Message { window, msg, w_param } => Some(
            KeyEvent {
                key_code: w_param,
                transition: spec_transition_of(msg as u64),
                source: Target::Window(window),
                device: None,
            },
        ),
        Payload::Raw { window, packet } => Some(spec_classify_raw(window, packet@)),
    }
}

pub fn classify(p: &Payload) -> (r: Option<KeyEvent>)
    ensures
        r == spec_classify(*p),
{
    match p {
        Payload::Hook { code, message, vk_code } => {
            if *code != HC_ACTION {
                None
            } else {
                Some(
                    KeyEvent {
                        key_code: *vk_code as u64,
                        transition: transition_of(*message),
                        source: Target::ProcessWide,
                        device: None,
                    },
                )
            }
        },
        Payload::Message { window, msg, w_param } => Some(
            KeyEvent {
                key_code: *w_param,
                transition: transition_of(*msg as u64),
                source: Target::Window(*window),
                device: None,
            },
        ),
        Payload::Raw { window, packet } => Some(classify_raw(*window, packet.as_slice())),
    }
}

} // verus!
