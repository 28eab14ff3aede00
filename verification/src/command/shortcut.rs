//! Keyboard shortcuts.
use vstd::prelude::*;
use vstd::string::*;

use crate::platform::OperatingSystem;
use crate::text;

verus! {

/// The keys that a command is bound to.
#[derive(Clone, Copy, Debug, PartialEq, Eq, Structural)]
pub enum Key {
    ArrowDown,
    ArrowLeft,
    ArrowRight,
    ArrowUp,
    B,
    CloseBracket,
    Comma,
    D,
    E,
    End,
    F11,
    F4,
    Home,
    I,
    K,
    L,
    M,
    Minus,
    Num0,
    O,
    OpenBracket,
    P,
    Plus,
    Q,
    R,
    S,
    Space,
    T,
    U,
    Y,
    Z,
}

/// The keys held down together with another one.
#[derive(Clone, Copy, Debug, PartialEq, Eq, Structural)]
pub struct Modifiers {
    pub alt: bool,
    pub ctrl: bool,
    pub shift: bool,
    /// The Command key of a Mac.
    pub mac_cmd: bool,
    /// On a Mac the Command key, elsewhere Ctrl.
    pub command: bool,
}

/// A key, and the modifiers to hold with it.
#[derive(Clone, Copy, Debug, PartialEq, Eq, Structural)]
pub struct KeyboardShortcut {
    pub modifiers: Modifiers,
    pub logical_key: Key,
}

/// No modifier held.
pub open spec fn no_modifiers() -> Modifiers {
    Modifiers { alt: false, ctrl: false, shift: false, mac_cmd: false, command: false }
}

pub open spec fn plain(k: Key) -> KeyboardShortcut {
    KeyboardShortcut { modifiers: no_modifiers(), logical_key: k }
}

pub open spec fn with_alt(k: Key) -> KeyboardShortcut {
    KeyboardShortcut { modifiers: Modifiers { alt: true, ..no_modifiers() }, logical_key: k }
}

pub open spec fn with_shift(k: Key) -> KeyboardShortcut {
    KeyboardShortcut { modifiers: Modifiers { shift: true, ..no_modifiers() }, logical_key: k }
}

pub open spec fn with_ctrl(k: Key) -> KeyboardShortcut {
    KeyboardShortcut { modifiers: Modifiers { ctrl: true, ..no_modifiers() }, logical_key: k }
}

pub open spec fn with_ctrl_shift(k: Key) -> KeyboardShortcut {
    KeyboardShortcut {
        modifiers: Modifiers { ctrl: true, shift: true, ..no_modifiers() },
        logical_key: k,
    }
}

pub open spec fn with_cmd(k: Key) -> KeyboardShortcut {
    KeyboardShortcut { modifiers: Modifiers { command: true, ..no_modifiers() }, logical_key: k }
}

pub open spec fn with_cmd_shift(k: Key) -> KeyboardShortcut {
    KeyboardShortcut {
        modifiers: Modifiers { command: true, shift: true, ..no_modifiers() },
        logical_key: k,
    }
}

pub open spec fn with_cmd_alt(k: Key) -> KeyboardShortcut {
    KeyboardShortcut {
        modifiers: Modifiers { command: true, alt: true, ..no_modifiers() },
        logical_key: k,
    }
}

fn shortcut(alt: bool, ctrl: bool, shift: bool, command: bool, k: Key) -> (r: KeyboardShortcut)
    ensures
        r == (KeyboardShortcut {
            modifiers: Modifiers { alt, ctrl, shift, mac_cmd: false, command },
            logical_key: k,
        }),
{
    KeyboardShortcut {
        modifiers: Modifiers { alt, ctrl, shift, mac_cmd: false, command },
        logical_key: k,
    }
}

pub fn key(k: Key) -> (r: KeyboardShortcut)
    ensures
        r == plain(k),
{
    shortcut(false, false, false, false, k)
}

pub fn alt(k: Key) -> (r: KeyboardShortcut)
    ensures
        r == with_alt(k),
{
    shortcut(true, false, false, false, k)
}

pub fn shift(k: Key) -> (r: KeyboardShortcut)
    ensures
        r == with_shift(k),
{
    shortcut(false, false, true, false, k)
}

pub fn ctrl(k: Key) -> (r: KeyboardShortcut)
    ensures
        r == with_ctrl(k),
{
    shortcut(false, true, false, false, k)
}

pub fn ctrl_shift(k: Key) -> (r: KeyboardShortcut)
    ensures
        r == with_ctrl_shift(k),
{
    shortcut(false, true, true, false, k)
}

pub fn cmd(k: Key) -> (r: KeyboardShortcut)
    ensures
        r == with_cmd(k),
{
    shortcut(false, false, false, true, k)
}

pub fn cmd_shift(k: Key) -> (r: KeyboardShortcut)
    ensures
        r == with_cmd_shift(k),
{
    shortcut(false, false, true, true, k)
}

pub fn cmd_alt(k: Key) -> (r: KeyboardShortcut)
    ensures
        r == with_cmd_alt(k),
{
    shortcut(true, false, false, true, k)
}

/// The modifiers as they are physically held: what reads as `command` is the Command key on a
/// Mac and Ctrl elsewhere.
pub open spec fn held(m: Modifiers, os: OperatingSystem) -> (bool, bool, bool, bool) {
    if os == OperatingSystem::Mac || os == OperatingSystem::Ios {
        (m.alt, m.ctrl, m.shift, m.mac_cmd || m.command)
    } else {
        (m.alt, m.ctrl || m.command, m.shift, m.mac_cmd)
    }
}

/// Pressing one is pressing the other.
pub open spec fn same_press(a: KeyboardShortcut, b: KeyboardShortcut, os: OperatingSystem) -> bool {
    a.logical_key == b.logical_key && held(a.modifiers, os) == held(b.modifiers, os)
}

// ---------------------------------------------------------------------------------------
// Lists of shortcuts

/// The shortcuts of one command, the primary one first. Up to two are kept inline.
#[verifier::external_body]
pub struct ShortcutList {
    items: smallvec::SmallVec<[KeyboardShortcut; 2]>,
}

/// The shortcuts that a list holds, in their order.
pub uninterp spec fn listed_shortcuts(list: ShortcutList) -> Seq<KeyboardShortcut>;

impl View for ShortcutList {
    type V = Seq<KeyboardShortcut>;

    open spec fn view(&self) -> Seq<KeyboardShortcut> {
        listed_shortcuts(*self)
    }
}

/// `SmallVec::new` makes an empty list.
#[verifier::external_body]
fn smallvec_new() -> (r: ShortcutList)
    ensures
        listed_shortcuts(r) == Seq::<KeyboardShortcut>::empty(),
{
    ShortcutList { items: smallvec::SmallVec::new() }
}

/// `SmallVec::push` appends one item.
#[verifier::external_body]
fn smallvec_push(list: &mut ShortcutList, item: KeyboardShortcut)
    ensures
        listed_shortcuts(*final(list)) == listed_shortcuts(*old(list)).push(item),
{
    list.items.push(item);
}

/// A `SmallVec` derefs to the slice of its items: `first` gives the first of them, if any.
#[verifier::external_body]
fn smallvec_first(list: &ShortcutList) -> (r: Option<KeyboardShortcut>)
    ensures
        r == (if listed_shortcuts(*list).len() > 0 {
            Some(listed_shortcuts(*list)[0])
        } else {
            None
        }),
{
    list.items.first().copied()
}

/// `SmallVec::into_vec` hands the items out in their order.
#[verifier::external_body]
fn smallvec_into_vec(list: ShortcutList) -> (r: Vec<KeyboardShortcut>)
    ensures
        r@ == listed_shortcuts(list),
{
    list.items.into_vec()
}

impl ShortcutList {
    pub fn none() -> (r: Self)
        ensures
            r@ == Seq::<KeyboardShortcut>::empty(),
    {
        smallvec_new()
    }

    pub fn one(a: KeyboardShortcut) -> (r: Self)
        ensures
            r@ == seq![a],
    {
        let mut list: ShortcutList = smallvec_new();
        smallvec_push(&mut list, a);
        list
    }

    pub fn two(a: KeyboardShortcut, b: KeyboardShortcut) -> (r: Self)
        ensures
            r@ == seq![a, b],
    {
        let mut list: ShortcutList = smallvec_new();
        smallvec_push(&mut list, a);
        smallvec_push(&mut list, b);
        list
    }

    /// The primary shortcut.
    pub fn first(&self) -> (r: Option<KeyboardShortcut>)
        ensures
            r == primary(self@),
    {
        smallvec_first(self)
    }

    /// All shortcuts, in their order.
    pub fn into_vec(self) -> (r: Vec<KeyboardShortcut>)
        ensures
            r@ == self@,
    {
        smallvec_into_vec(self)
    }
}

/// The first shortcut of a list, if it holds one.
pub open spec fn primary(list: Seq<KeyboardShortcut>) -> Option<KeyboardShortcut> {
    if list.len() > 0 {
        Some(list[0])
    } else {
        None
    }
}

// ---------------------------------------------------------------------------------------
// Formatting

impl Key {
    /// The name that `egui` knows the key by.
    pub open spec fn egui_name(self) -> Seq<char> {
        match self {
            Key::ArrowDown => "ArrowDown"@,
            Key::ArrowLeft => "ArrowLeft"@,
            Key::ArrowRight => "ArrowRight"@,
            Key::ArrowUp => "ArrowUp"@,
            Key::B => "B"@,
            Key::CloseBracket => "CloseBracket"@,
            Key::Comma => "Comma"@,
            Key::D => "D"@,
            Key::E => "E"@,
            Key::End => "End"@,
            Key::F11 => "F11"@,
            Key::F4 => "F4"@,
            Key::Home => "Home"@,
            Key::I => "I"@,
            Key::K => "K"@,
            Key::L => "L"@,
            Key::M => "M"@,
            Key::Minus => "Minus"@,
            Key::Num0 => "0"@,
            Key::O => "O"@,
            Key::OpenBracket => "OpenBracket"@,
            Key::P => "P"@,
            Key::Plus => "Plus"@,
            Key::Q => "Q"@,
            Key::R => "R"@,
            Key::S => "S"@,
            Key::Space => "Space"@,
            Key::T => "T"@,
            Key::U => "U"@,
            Key::Y => "Y"@,
            Key::Z => "Z"@,
        }
    }

    pub fn name(self) -> (r: &'static str)
        ensures
            r@ == self.egui_name(),
    {
        match self {
            Key::ArrowDown => "ArrowDown",
            Key::ArrowLeft => "ArrowLeft",
            Key::ArrowRight => "ArrowRight",
            Key::ArrowUp => "ArrowUp",
            Key::B => "B",
            Key::CloseBracket => "CloseBracket",
            Key::Comma => "Comma",
            Key::D => "D",
            Key::E => "E",
            Key::End => "End",
            Key::F11 => "F11",
            Key::F4 => "F4",
            Key::Home => "Home",
            Key::I => "I",
            Key::K => "K",
            Key::L => "L",
            Key::M => "M",
            Key::Minus => "Minus",
            Key::Num0 => "0",
            Key::O => "O",
            Key::OpenBracket => "OpenBracket",
            Key::P => "P",
            Key::Plus => "Plus",
            Key::Q => "Q",
            Key::R => "R",
            Key::S => "S",
            Key::Space => "Space",
            Key::T => "T",
            Key::U => "U",
            Key::Y => "Y",
            Key::Z => "Z",
        }
    }
}

/// The text that `egui` shows for the key it knows by this name: a symbol where it has one
/// and `short` asks for it, else an English name. `None` for a name that it does not know.
pub uninterp spec fn egui_key_label(name: Seq<char>, short: bool) -> Option<Seq<char>>;

/// `name` where `on`, behind what is there already.
pub open spec fn appended_if(s: Seq<char>, on: bool, name: Seq<char>, sep: Seq<char>) -> Seq<char> {
    if on {
        (if s.len() > 0 {
            s + sep
        } else {
            s
        }) + name
    } else {
        s
    }
}

/// The modifiers in words, or in the symbols of a Mac keyboard.
pub open spec fn modifier_text(m: Modifiers, symbols: bool, is_mac: bool) -> Seq<char> {
    let sep = if symbols { ""@ } else { "+"@ };
    let alt = if symbols { "⌥"@ } else if is_mac { "Option"@ } else { "Alt"@ };
    let ctrl = if symbols { "⌃"@ } else { "Ctrl"@ };
    let shift = if symbols { "⇧"@ } else { "Shift"@ };
    let mac_cmd = if symbols { "⌘"@ } else { "Cmd"@ };
    let none = Seq::<char>::empty();
    if is_mac {
        let s = appended_if(none, m.ctrl, ctrl, sep);
        let s = appended_if(s, m.shift, shift, sep);
        let s = appended_if(s, m.alt, alt, sep);
        appended_if(s, m.mac_cmd || m.command, mac_cmd, sep)
    } else {
        let s = appended_if(none, m.ctrl || m.command, ctrl, sep);
        let s = appended_if(s, m.alt, alt, sep);
        appended_if(s, m.shift, shift, sep)
    }
}

/// A shortcut in words or symbols: the modifiers, then the key.
pub open spec fn shortcut_text(
    m: Modifiers,
    key_label: Seq<char>,
    symbols: bool,
    is_mac: bool,
) -> Seq<char> {
    appended_if(modifier_text(m, symbols, is_mac), true, key_label, if symbols { ""@ } else { "+"@ })
}

/// `egui::KeyboardShortcut::format` on the key of this name: the modifiers in `egui`'s order
/// for the platform, then the key. `egui` knows the name of each of our keys; what it calls
/// the key is its own affair.
#[verifier::external_body]
fn egui_format(name: &str, m: Modifiers, symbols: bool, is_mac: bool) -> (r: Option<String>)
    ensures
        text::opt_view(r) == (match egui_key_label(name@, symbols) {
            Some(label) => Some(shortcut_text(m, label, symbols, is_mac)),
            None => None,
        }),
        (exists|k: Key| k.egui_name() == name@) ==> r is Some,
{
    let Modifiers { alt, ctrl, shift, mac_cmd, command } = m;
    let modifiers = egui::Modifiers { alt, ctrl, shift, mac_cmd, command };
    let names = if symbols { egui::ModifierNames::SYMBOLS } else { egui::ModifierNames::NAMES };
    let key = egui::Key::from_name(name)?;
    Some(egui::KeyboardShortcut::new(modifiers, key).format(&names, is_mac))
}

/// Whether the system has a Mac keyboard.
pub open spec fn is_mac(os: OperatingSystem) -> bool {
    os == OperatingSystem::Mac || os == OperatingSystem::Ios
}

/// What a shortcut reads as: in symbols on a Mac whose font has them, else in words.
pub open spec fn formatted(s: KeyboardShortcut, os: OperatingSystem, can_show_symbols: bool) -> Option<
    Seq<char>,
> {
    let symbols = is_mac(os) && can_show_symbols;
    match egui_key_label(s.logical_key.egui_name(), symbols) {
        Some(label) => Some(shortcut_text(s.modifiers, label, symbols, is_mac(os))),
        None => None,
    }
}

/// What a shortcut reads as: in symbols on a Mac whose font has them, else in words.
pub fn format_shortcut(s: KeyboardShortcut, os: OperatingSystem, can_show_symbols: bool) -> (r:
    Option<String>)
    ensures
        r is Some,
        text::opt_view(r) == formatted(s, os, can_show_symbols),
{
    let mac: bool = os == OperatingSystem::Mac || os == OperatingSystem::Ios;
    let symbols: bool = mac && can_show_symbols;
    egui_format(s.logical_key.name(), s.modifiers, symbols, mac)
}

/// The command key is the one that the system uses for commands: it is told apart from control
/// on a Mac, and is control elsewhere. Alt and shift are the same everywhere.
pub proof fn law_command_key_is_that_of_the_system(m: Modifiers, k: Key, os: OperatingSystem)
    ensures
        same_press(with_cmd(k), with_ctrl(k), os) <==> !(os == OperatingSystem::Mac || os
            == OperatingSystem::Ios),
        same_press(with_cmd_shift(k), with_ctrl_shift(k), os) <==> !(os == OperatingSystem::Mac
            || os == OperatingSystem::Ios),
        !same_press(plain(k), with_shift(k), os) && !same_press(plain(k), with_alt(k), os)
            && !same_press(plain(k), with_cmd(k), os) && !same_press(plain(k), with_ctrl(k), os)
            && !same_press(with_alt(k), with_shift(k), os),
        held(m, os).0 == m.alt,
        held(m, os).2 == m.shift,
{
}

/// The shortcut that is shown is the first one, where there is any.
pub proof fn law_first_shortcut_is_shown(list: Seq<KeyboardShortcut>, s: KeyboardShortcut)
    ensures
        primary(seq![s] + list) == Some(s),
        primary(Seq::empty()) is None,
{
    assert((seq![s] + list)[0] == s);
}

} // verus!
