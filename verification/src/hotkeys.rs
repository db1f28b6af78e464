use vstd::prelude::*;
use crate::config::is_digit_char;

verus! {

#[verifier::external_type_specification]
#[verifier::external_body]
pub struct ExGlobalHotKeyManager(global_hotkey::GlobalHotKeyManager);

#[verifier::external_type_specification]
#[verifier::external_body]
pub struct ExGlobalHotKeyEvent(global_hotkey::GlobalHotKeyEvent);

#[verifier::external_type_specification]
#[verifier::external_body]
pub struct ExHotKey(global_hotkey::hotkey::HotKey);

#[verifier::external_type_specification]
#[verifier::external_body]
pub struct ExGlobalHotKeyError(global_hotkey::Error);

#[verifier::external_type_specification]
#[verifier::external_body]
#[verifier::reject_recursive_types(T)]
pub struct ExReceiver<T>(crossbeam_channel::Receiver<T>);

/// A logical action a pressed hotkey stands for.
#[derive(Debug, Clone, Copy, PartialEq, Eq, Structural)]
pub enum HotkeyEvent {
    ComOffset,
    WallClip,
}

pub open spec fn is_lowercase_letter(c: char) -> bool {
    'a' <= c && c <= 'z'
}

/// The names a hotkey binding accepts: "f1".."f12", one lowercase
/// letter, or one digit. Anything else is rejected at registration.
pub open spec fn valid_key_name(s: Seq<char>) -> bool {
    (s.len() == 1 && (is_lowercase_letter(s[0]) || is_digit_char(s[0]))) || (s.len() == 2 && s[0]
        == 'f' && '1' <= s[1] && s[1] <= '9') || (s.len() == 3 && s[0] == 'f' && s[1] == '1' && '0'
        <= s[2] && s[2] <= '2')
}

pub open spec fn unsupported_key_message(key: Seq<char>) -> Seq<char> {
    "Unsupported key: "@ + key
}

/// Checks a key name against the accepted grammar.
pub fn key_name_ok(key_str: &str) -> (r: bool)
    ensures
        r == valid_key_name(key_str@),
{
    let n = key_str.unicode_len();
    if n == 1 {
        let c = key_str.get_char(0);
        ('a' <= c && c <= 'z') || ('0' <= c && c <= '9')
    } else if n == 2 {
        let c0 = key_str.get_char(0);
        let c1 = key_str.get_char(1);
        c0 == 'f' && '1' <= c1 && c1 <= '9'
    } else if n == 3 {
        let c0 = key_str.get_char(0);
        let c1 = key_str.get_char(1);
        let c2 = key_str.get_char(2);
        c0 == 'f' && c1 == '1' && '0' <= c2 && c2 <= '2'
    } else {
        false
    }
}

fn unsupported_key_error(key_str: &str) -> (r: String)
    ensures
        r@ == unsupported_key_message(key_str@),
{
    let mut m = String::from_str("Unsupported key: ");
    m.append(key_str);
    m
}

/// Relies on GlobalHotKeyManager::new: creates the OS hotkey manager;
/// whether it succeeds depends on the host environment.
#[verifier::external_body]
fn manager_new() -> (r: Result<global_hotkey::GlobalHotKeyManager, global_hotkey::Error>) {
    global_hotkey::GlobalHotKeyManager::new()
}

/// Relies on GlobalHotKeyEvent::receiver: hands back a clone of the
/// process-wide hotkey event channel's receiving end.
#[verifier::external_body]
fn event_receiver() -> (r: crossbeam_channel::Receiver<global_hotkey::GlobalHotKeyEvent>) {
    global_hotkey::GlobalHotKeyEvent::receiver().clone()
}

/// Relies on HotKey::from_str: a single-token string names a key, and
/// function keys, letters and digits are recognized case-insensitively,
/// so every name the library's own grammar accepts parses.
#[verifier::external_body]
fn hotkey_from_name(name: &str) -> (r: Option<global_hotkey::hotkey::HotKey>)
    ensures
        valid_key_name(name@) ==> r is Some,
{
    name.parse::<global_hotkey::hotkey::HotKey>().ok()
}

/// Relies on HotKey::id: the numeric identifier that hotkey events
/// carry for this binding.
#[verifier::external_body]
fn hotkey_id(h: &global_hotkey::hotkey::HotKey) -> (r: u32) {
    h.id()
}

/// Relies on GlobalHotKeyManager::register: asks the OS to bind the
/// hotkey; the OS may refuse.
#[verifier::external_body]
fn manager_register(
    m: &global_hotkey::GlobalHotKeyManager,
    h: &global_hotkey::hotkey::HotKey,
) -> (r: Result<(), global_hotkey::Error>) {
    m.register(*h)
}

/// Relies on the Display impl of global_hotkey::Error: renders the
/// error as text.
#[verifier::external_body]
fn error_text(e: &global_hotkey::Error) -> (r: String) {
    format!("{}", e)
}

/// Relies on Receiver::try_recv: takes the next queued event, if one
/// is waiting, without blocking.
#[verifier::external_body]
fn try_recv_event(
    r: &crossbeam_channel::Receiver<global_hotkey::GlobalHotKeyEvent>,
) -> (e: Option<global_hotkey::GlobalHotKeyEvent>) {
    r.try_recv().ok()
}

/// Relies on GlobalHotKeyEvent::id: the identifier of the hotkey this
/// event belongs to.
#[verifier::external_body]
fn event_id(e: &global_hotkey::GlobalHotKeyEvent) -> (r: u32) {
    e.id()
}

/// Relies on GlobalHotKeyEvent::state: whether this event is a press
/// or a release.
#[verifier::external_body]
fn event_is_pressed(e: &global_hotkey::GlobalHotKeyEvent) -> (r: bool) {
    match e.state() {
        global_hotkey::HotKeyState::Pressed => true,
        global_hotkey::HotKeyState::Released => false,
    }
}

fn prefixed_error(prefix: &str, e: &global_hotkey::Error) -> (r: String)
    ensures
        r@.len() >= prefix@.len(),
        r@.subrange(0, prefix@.len() as int) == prefix@,
{
    let mut m = String::from_str(prefix);
    let text = error_text(e);
    m.append(text.as_str());
    proof {
        assert(m@.subrange(0, prefix@.len() as int) =~= prefix@);
    }
    m
}

/// Which logical action a polled event maps to, given the two
/// registered binding identifiers: only press events count, and the
/// offset binding is checked before the clip binding.
pub open spec fn classify_spec(
    id: u32,
    pressed: bool,
    com_id: Option<u32>,
    clip_id: Option<u32>,
) -> Option<HotkeyEvent> {
    if !pressed {
        None
    } else if com_id == Some(id) {
        Some(HotkeyEvent::ComOffset)
    } else if clip_id == Some(id) {
        Some(HotkeyEvent::WallClip)
    } else {
        None
    }
}

pub fn classify_event(id: u32, pressed: bool, com_id: Option<u32>, clip_id: Option<u32>) -> (r:
    Option<HotkeyEvent>)
    ensures
        r == classify_spec(id, pressed, com_id, clip_id),
{
    if !pressed {
        return None;
    }
    match com_id {
        Some(c) => {
            if c == id {
                return Some(HotkeyEvent::ComOffset);
            }
        },
        None => {},
    }
    match clip_id {
        Some(c) => {
            if c == id {
                return Some(HotkeyEvent::WallClip);
            }
        },
        None => {},
    }
    None
}

/// Owns the OS hotkey registration and the event channel, and keeps
/// the identifiers of the two live bindings. Registration is always
/// rebuilt in full: every call clears both identifiers first.
pub struct HotkeyManager {
    manager: global_hotkey::GlobalHotKeyManager,
    receiver: crossbeam_channel::Receiver<global_hotkey::GlobalHotKeyEvent>,
    com_hotkey_id: Option<u32>,
    clip_hotkey_id: Option<u32>,
}

impl HotkeyManager {
    /// The identifier of the live offset binding, if one is bound.
    pub closed spec fn com_id(self) -> Option<u32> {
        self.com_hotkey_id
    }

    /// The identifier of the live clip binding, if one is bound.
    pub closed spec fn clip_id(self) -> Option<u32> {
        self.clip_hotkey_id
    }

    pub fn new() -> (r: Result<Self, String>)
        ensures
            r is Ok ==> r->Ok_0.com_id() is None && r->Ok_0.clip_id() is None,
    {
        let manager = match manager_new() {
            Ok(m) => m,
            Err(e) => {
                return Err(prefixed_error("Failed to create hotkey manager: ", &e));
            },
        };
        let receiver = event_receiver();
        Ok(
            HotkeyManager {
                manager,
                receiver,
                com_hotkey_id: None,
                clip_hotkey_id: None,
            },
        )
    }

    fn unregister_all(&mut self)
        ensures
            final(self).com_id() is None,
            final(self).clip_id() is None,
    {
        self.com_hotkey_id = None;
        self.clip_hotkey_id = None;
    }

    /// Rebuilds both bindings from scratch. The first failure stops
    /// the rebuild: a bad offset key name leaves both bindings
    /// cleared, and a bad clip key name leaves the clip binding
    /// cleared while the offset binding, already made, stands.
    pub fn register_hotkeys(&mut self, com_hotkey: &str, clip_hotkey: &str) -> (r: Result<
        (),
        String,
    >)
        ensures
            r is Ok ==> valid_key_name(com_hotkey@) && valid_key_name(clip_hotkey@)
                && final(self).com_id() is Some && final(self).clip_id() is Some,
            !valid_key_name(com_hotkey@) ==> r is Err && r->Err_0@ == unsupported_key_message(
                com_hotkey@,
            ) && final(self).com_id() is None,
            valid_key_name(com_hotkey@) && !valid_key_name(clip_hotkey@)
                && final(self).com_id() is Some ==> r is Err && r->Err_0@
                == unsupported_key_message(clip_hotkey@),
            r is Err ==> final(self).clip_id() is None,
    {
        self.unregister_all();
        if !key_name_ok(com_hotkey) {
            return Err(unsupported_key_error(com_hotkey));
        }
        let com_hk = match hotkey_from_name(com_hotkey) {
            Some(h) => h,
            None => {
                return Err(unsupported_key_error(com_hotkey));
            },
        };
        match manager_register(&self.manager, &com_hk) {
            Ok(_) => {},
            Err(e) => {
                return Err(prefixed_error("Failed to register COM hotkey: ", &e));
            },
        }
        self.com_hotkey_id = Some(hotkey_id(&com_hk));
        if !key_name_ok(clip_hotkey) {
            return Err(unsupported_key_error(clip_hotkey));
        }
        let clip_hk = match hotkey_from_name(clip_hotkey) {
            Some(h) => h,
            None => {
                return Err(unsupported_key_error(clip_hotkey));
            },
        };
        match manager_register(&self.manager, &clip_hk) {
            Ok(_) => {},
            Err(e) => {
                return Err(prefixed_error("Failed to register Clip hotkey: ", &e));
            },
        }
        self.clip_hotkey_id = Some(hotkey_id(&clip_hk));
        Ok(())
    }

    /// Drains the event queue without blocking and hands back the
    /// actions of the press events that match a live binding. An
    /// action can only appear when its binding is live.
    pub fn check_events(&self) -> (events: Vec<HotkeyEvent>)
        ensures
            self.com_id() is None ==> forall|i: int|
                0 <= i < events@.len() ==> events@[i] != HotkeyEvent::ComOffset,
            self.clip_id() is None ==> forall|i: int|
                0 <= i < events@.len() ==> events@[i] != HotkeyEvent::WallClip,
    {
        let mut events: Vec<HotkeyEvent> = Vec::new();
        // Drain at most a fixed number of queued events per poll, so
        // that one poll provably finishes; the next poll picks up any
        // remainder.
        let mut budget: usize = 256;
        let mut more = true;
        while more && budget > 0
            invariant
                self.com_id() is None ==> forall|i: int|
                    0 <= i < events@.len() ==> events@[i] != HotkeyEvent::ComOffset,
                self.clip_id() is None ==> forall|i: int|
                    0 <= i < events@.len() ==> events@[i] != HotkeyEvent::WallClip,
            decreases budget,
        {
            budget = budget - 1;
            match try_recv_event(&self.receiver) {
                None => {
                    more = false;
                },
                Some(ev) => {
                    let id = event_id(&ev);
                    let pressed = event_is_pressed(&ev);
                    match classify_event(id, pressed, self.com_hotkey_id, self.clip_hotkey_id) {
                        Some(action) => {
                            events.push(action);
                        },
                        None => {},
                    }
                },
            }
        }
        events
    }
}

} // verus!
