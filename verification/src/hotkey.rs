use vstd::prelude::*;
use std::collections::HashSet;

verus! {

broadcast use vstd::std_specs::hash::group_hash_axioms;

// ─── Modifier flags and hotkey ids (the values Win32 `RegisterHotKey` takes) ─

pub const MOD_ALT: u32 = 0x0001;
pub const MOD_CTRL: u32 = 0x0002;
pub const MOD_SHIFT: u32 = 0x0004;
pub const MOD_WIN: u32 = 0x0008;
/// Asks Windows not to repeat the hotkey while it is held (ignored before Windows 8).
pub const MOD_NOREPEAT: u32 = 0x4000;

/// Hotkey id that types the clipboard.
pub const HK_CLIPBOARD: i32 = 1;
/// Hotkey id that types the custom text.
pub const HK_CUSTOM: i32 = 2;

// ─── Key table ──────────────────────────────────────────────────────────────

/// Virtual-key codes offered for a hotkey, each with the name shown for it:
/// F1..F12, A..Z and 0..9, in the order the key picker lists them.
pub open spec fn key_table() -> Seq<(u32, Seq<char>)> {
    seq![
        (0x70u32, "F1"@),
        (0x71u32, "F2"@),
        (0x72u32, "F3"@),
        (0x73u32, "F4"@),
        (0x74u32, "F5"@),
        (0x75u32, "F6"@),
        (0x76u32, "F7"@),
        (0x77u32, "F8"@),
        (0x78u32, "F9"@),
        (0x79u32, "F10"@),
        (0x7Au32, "F11"@),
        (0x7Bu32, "F12"@),
        (0x41u32, "A"@),
        (0x42u32, "B"@),
        (0x43u32, "C"@),
        (0x44u32, "D"@),
        (0x45u32, "E"@),
        (0x46u32, "F"@),
        (0x47u32, "G"@),
        (0x48u32, "H"@),
        (0x49u32, "I"@),
        (0x4Au32, "J"@),
        (0x4Bu32, "K"@),
        (0x4Cu32, "L"@),
        (0x4Du32, "M"@),
        (0x4Eu32, "N"@),
        (0x4Fu32, "O"@),
        (0x50u32, "P"@),
        (0x51u32, "Q"@),
        (0x52u32, "R"@),
        (0x53u32, "S"@),
        (0x54u32, "T"@),
        (0x55u32, "U"@),
        (0x56u32, "V"@),
        (0x57u32, "W"@),
        (0x58u32, "X"@),
        (0x59u32, "Y"@),
        (0x5Au32, "Z"@),
        (0x30u32, "0"@),
        (0x31u32, "1"@),
        (0x32u32, "2"@),
        (0x33u32, "3"@),
        (0x34u32, "4"@),
        (0x35u32, "5"@),
        (0x36u32, "6"@),
        (0x37u32, "7"@),
        (0x38u32, "8"@),
        (0x39u32, "9"@)
    ]
}

/// The name of the first table entry whose code is `vk`, or `"?"` when none has it.
pub open spec fn lookup_name(t: Seq<(u32, Seq<char>)>, vk: u32) -> Seq<char>
    decreases t.len(),
{
    if t.len() == 0 {
        "?"@
    } else if t[0].0 == vk {
        t[0].1
    } else {
        lookup_name(t.drop_first(), vk)
    }
}

/// The name that `vk_name` gives a virtual-key code.
pub open spec fn spec_vk_name(vk: u32) -> Seq<char> {
    lookup_name(key_table(), vk)
}

/// The key table, as executable pairs of code and name.
pub fn key_options() -> (r: Vec<(u32, &'static str)>)
    ensures
        r@.len() == key_table().len(),
        forall|i: int|
            0 <= i < r@.len() ==> (#[trigger] r@[i]).0 == key_table()[i].0 && r@[i].1@
                == key_table()[i].1,
{
    vec![
        (0x70u32, "F1"),
        (0x71u32, "F2"),
        (0x72u32, "F3"),
        (0x73u32, "F4"),
        (0x74u32, "F5"),
        (0x75u32, "F6"),
        (0x76u32, "F7"),
        (0x77u32, "F8"),
        (0x78u32, "F9"),
        (0x79u32, "F10"),
        (0x7Au32, "F11"),
        (0x7Bu32, "F12"),
        (0x41u32, "A"),
        (0x42u32, "B"),
        (0x43u32, "C"),
        (0x44u32, "D"),
        (0x45u32, "E"),
        (0x46u32, "F"),
        (0x47u32, "G"),
        (0x48u32, "H"),
        (0x49u32, "I"),
        (0x4Au32, "J"),
        (0x4Bu32, "K"),
        (0x4Cu32, "L"),
        (0x4Du32, "M"),
        (0x4Eu32, "N"),
        (0x4Fu32, "O"),
        (0x50u32, "P"),
        (0x51u32, "Q"),
        (0x52u32, "R"),
        (0x53u32, "S"),
        (0x54u32, "T"),
        (0x55u32, "U"),
        (0x56u32, "V"),
        (0x57u32, "W"),
        (0x58u32, "X"),
        (0x59u32, "Y"),
        (0x5Au32, "Z"),
        (0x30u32, "0"),
        (0x31u32, "1"),
        (0x32u32, "2"),
        (0x33u32, "3"),
        (0x34u32, "4"),
        (0x35u32, "5"),
        (0x36u32, "6"),
        (0x37u32, "7"),
        (0x38u32, "8"),
        (0x39u32, "9")
    ]
}

proof fn lemma_lookup_skip(t: Seq<(u32, Seq<char>)>, i: int, vk: u32)
    requires
        0 <= i < t.len(),
        t[i].0 != vk,
    ensures
        lookup_name(t.skip(i), vk) == lookup_name(t.skip(i + 1), vk),
{
    assert(t.skip(i).drop_first() =~= t.skip(i + 1));
}

/// The name of a virtual-key code in the key table, `"?"` for any other code.
pub fn vk_name(vk: u32) -> (r: &'static str)
    ensures
        r@ == spec_vk_name(vk),
{
    let opts = key_options();
    let n = opts.len();
    let mut i: usize = 0;
    assert(key_table().skip(0) =~= key_table());
    while i < n
        invariant
            n == opts@.len(),
            n == key_table().len(),
            i <= n,
            forall|j: int|
                0 <= j < opts@.len() ==> (#[trigger] opts@[j]).0 == key_table()[j].0
                    && opts@[j].1@ == key_table()[j].1,
            lookup_name(key_table().skip(i as int), vk) == spec_vk_name(vk),
        decreases n - i,
    {
        let (v, name) = opts[i];
        if v == vk {
            assert(key_table().skip(i as int)[0] == key_table()[i as int]);
            return name;
        }
        proof {
            lemma_lookup_skip(key_table(), i as int, vk);
        }
        i += 1;
    }
    assert(key_table().skip(n as int).len() == 0);
    "?"
}


/// The code of table entry `i`: F1..F12 are 0x70.., A..Z are 0x41.., 0..9 are 0x30...
pub open spec fn table_code(i: int) -> u32 {
    if i < 12 {
        (0x70 + i) as u32
    } else if i < 38 {
        (0x41 + (i - 12)) as u32
    } else {
        (0x30 + (i - 38)) as u32
    }
}

proof fn lemma_table_codes()
    ensures
        key_table().len() == 48,
        forall|i: int| 0 <= i < 48 ==> #[trigger] key_table()[i].0 == table_code(i),
{
    let t = key_table();
    assert forall|i: int| 0 <= i < 48 implies #[trigger] t[i].0 == table_code(i) by {}
}

proof fn lemma_lookup_first(t: Seq<(u32, Seq<char>)>, i: int)
    requires
        0 <= i < t.len(),
        forall|j: int| 0 <= j < i ==> (#[trigger] t[j]).0 != t[i].0,
    ensures
        lookup_name(t, t[i].0) == t[i].1,
    decreases i,
{
    if i > 0 {
        let u = t.drop_first();
        assert forall|j: int| 0 <= j < i - 1 implies (#[trigger] u[j]).0 != u[i - 1].0 by {
            assert(u[j] == t[j + 1]);
        }
        lemma_lookup_first(u, i - 1);
        assert(t[0].0 != t[i].0);
    }
}

/// The name a key table entry gives its key: "F" and the number for a
/// function key, else the letter or digit whose code the key has.
pub open spec fn expected_key_name(i: int) -> Seq<char> {
    if i < 12 {
        seq!['F'] + crate::text::decimal((i + 1) as nat)
    } else {
        seq![table_code(i) as char]
    }
}

proof fn lemma_table_names()
    ensures
        forall|i: int| 0 <= i < 48 ==> #[trigger] key_table()[i].1 == expected_key_name(i),
{
    reveal_strlit("F1");
    reveal_strlit("F2");
    reveal_strlit("F3");
    reveal_strlit("F4");
    reveal_strlit("F5");
    reveal_strlit("F6");
    reveal_strlit("F7");
    reveal_strlit("F8");
    reveal_strlit("F9");
    reveal_strlit("F10");
    reveal_strlit("F11");
    reveal_strlit("F12");
    reveal_strlit("A");
    reveal_strlit("B");
    reveal_strlit("C");
    reveal_strlit("D");
    reveal_strlit("E");
    reveal_strlit("F");
    reveal_strlit("G");
    reveal_strlit("H");
    reveal_strlit("I");
    reveal_strlit("J");
    reveal_strlit("K");
    reveal_strlit("L");
    reveal_strlit("M");
    reveal_strlit("N");
    reveal_strlit("O");
    reveal_strlit("P");
    reveal_strlit("Q");
    reveal_strlit("R");
    reveal_strlit("S");
    reveal_strlit("T");
    reveal_strlit("U");
    reveal_strlit("V");
    reveal_strlit("W");
    reveal_strlit("X");
    reveal_strlit("Y");
    reveal_strlit("Z");
    reveal_strlit("0");
    reveal_strlit("1");
    reveal_strlit("2");
    reveal_strlit("3");
    reveal_strlit("4");
    reveal_strlit("5");
    reveal_strlit("6");
    reveal_strlit("7");
    reveal_strlit("8");
    reveal_strlit("9");
    reveal_with_fuel(crate::text::decimal, 2);
    let t = key_table();
    assert forall|i: int| 0 <= i < 48 implies #[trigger] t[i].1 == expected_key_name(i) by {
        assert(t[i].1 =~= expected_key_name(i));
    }
}

/// `vk_name` names F1..F12 (codes 0x70..0x7B) "F" and their number, and each
/// letter and digit key (codes 0x41..0x5A, 0x30..0x39) by the character whose
/// code it has.
pub proof fn lemma_vk_name_by_code(vk: u32)
    requires
        (0x70 <= vk <= 0x7B) || (0x41 <= vk <= 0x5A) || (0x30 <= vk <= 0x39),
    ensures
        0x70 <= vk <= 0x7B ==> spec_vk_name(vk) == seq!['F'] + crate::text::decimal(
            (vk - 0x6F) as nat,
        ),
        (0x41 <= vk <= 0x5A || 0x30 <= vk <= 0x39) ==> spec_vk_name(vk) == seq![vk as char],
{
    lemma_table_codes();
    lemma_table_names();
    let i: int = if 0x70 <= vk <= 0x7B {
        vk - 0x70
    } else if 0x41 <= vk <= 0x5A {
        vk - 0x41 + 12
    } else {
        vk - 0x30 + 38
    };
    assert(key_table()[i].0 == table_code(i));
    assert(table_code(i) == vk);
    lemma_vk_name_matches_table(i);
}

/// Every key the picker offers is named by `vk_name` as the picker names it:
/// no two entries of the key table share a code.
pub proof fn lemma_vk_name_matches_table(i: int)
    requires
        0 <= i < key_table().len(),
    ensures
        spec_vk_name(key_table()[i].0) == key_table()[i].1,
{
    lemma_table_codes();
    let t = key_table();
    assert forall|j: int| 0 <= j < i implies (#[trigger] t[j]).0 != t[i].0 by {
        assert(t[j].0 == table_code(j));
        assert(t[i].0 == table_code(i));
    }
    lemma_lookup_first(t, i);
}

// ─── Hotkey definitions ─────────────────────────────────────────────────────

/// A hotkey: whether it is on, its modifier flags (an OR of `MOD_CTRL`,
/// `MOD_ALT`, `MOD_SHIFT`, `MOD_WIN`) and its virtual-key code (0: none chosen).
#[derive(Clone, Copy, PartialEq, Eq, Structural, Debug)]
pub struct HotkeyDef {
    pub enabled: bool,
    pub modifiers: u32,
    pub vk: u32,
}

impl Default for HotkeyDef {
    fn default() -> (r: HotkeyDef)
        ensures
            r == (HotkeyDef { enabled: false, modifiers: 0, vk: 0 }),
    {
        HotkeyDef { enabled: false, modifiers: 0, vk: 0 }
    }
}

pub open spec fn modifier_part(m: u32, mask: u32, name: Seq<char>) -> Seq<char> {
    if m & mask != 0 {
        name + "+"@
    } else {
        Seq::empty()
    }
}

/// The held modifiers, in the order Ctrl, Alt, Shift, Win, each followed by `+`.
pub open spec fn modifier_prefix(m: u32) -> Seq<char> {
    modifier_part(m, MOD_CTRL, "Ctrl"@) + modifier_part(m, MOD_ALT, "Alt"@) + modifier_part(
        m,
        MOD_SHIFT,
        "Shift"@,
    ) + modifier_part(m, MOD_WIN, "Win"@)
}

/// How a hotkey is shown: `(未启用)` when it is off or has no key, else its
/// modifiers joined by `+` and then the key's name, such as `Ctrl+Alt+F1`.
pub open spec fn spec_display(def: HotkeyDef) -> Seq<char> {
    if !def.enabled || def.vk == 0 {
        "(未启用)"@
    } else {
        modifier_prefix(def.modifiers) + spec_vk_name(def.vk)
    }
}

fn append_modifier(s: &mut String, m: u32, mask: u32, name: &str)
    ensures
        final(s)@ == old(s)@ + modifier_part(m, mask, name@),
{
    if m & mask != 0 {
        s.append(name);
        s.append("+");
        assert(final(s)@ =~= old(s)@ + (name@ + "+"@));
    } else {
        assert(final(s)@ =~= old(s)@ + Seq::<char>::empty());
    }
}

impl HotkeyDef {
    /// The text shown for this hotkey.
    pub fn display(&self) -> (r: String)
        ensures
            r@ == spec_display(*self),
    {
        if !self.enabled || self.vk == 0 {
            return String::from_str("(未启用)");
        }
        let m = self.modifiers;
        let mut s = String::new();
        append_modifier(&mut s, m, MOD_CTRL, "Ctrl");
        append_modifier(&mut s, m, MOD_ALT, "Alt");
        append_modifier(&mut s, m, MOD_SHIFT, "Shift");
        append_modifier(&mut s, m, MOD_WIN, "Win");
        s.append(vk_name(self.vk));
        assert(s@ =~= modifier_prefix(m) + spec_vk_name(self.vk));
        s
    }

    /// Whether any flag of `mask` is held.
    pub fn has_modifier(&self, mask: u32) -> (r: bool)
        ensures
            r == (self.modifiers & mask != 0),
    {
        self.modifiers & mask != 0
    }

    /// Sets (`on`) or clears the flags of `mask`, leaving the other flags and fields.
    pub fn set_modifier(&mut self, mask: u32, on: bool)
        ensures
            final(self).modifiers == if on {
                old(self).modifiers | mask
            } else {
                old(self).modifiers & !mask
            },
            final(self).enabled == old(self).enabled,
            final(self).vk == old(self).vk,
    {
        if on {
            self.modifiers = self.modifiers | mask;
        } else {
            self.modifiers = self.modifiers & !mask;
        }
    }
}

/// A hotkey that is off, or has no key, shows as "(未启用)", whatever its flags.
pub proof fn lemma_display_unset(def: HotkeyDef)
    requires
        !def.enabled || def.vk == 0,
    ensures
        spec_display(def) == "(未启用)"@,
{
}

/// A hotkey that is on and has a key, with none of the four modifier flags
/// held, shows as the key's name alone.
pub proof fn lemma_display_no_modifier(def: HotkeyDef)
    requires
        def.enabled,
        def.vk != 0,
        def.modifiers & 0xf == 0,
    ensures
        spec_display(def) == spec_vk_name(def.vk),
{
    let m = def.modifiers;
    assert(m & 0xf == 0 ==> m & 2 == 0 && m & 1 == 0 && m & 4 == 0 && m & 8 == 0) by (bit_vector);
    assert(modifier_prefix(m) =~= Seq::<char>::empty());
}

/// Holding Ctrl as well puts "Ctrl+" in front of what the hotkey showed.
pub proof fn lemma_display_adds_ctrl(def: HotkeyDef)
    requires
        def.enabled,
        def.vk != 0,
        def.modifiers & MOD_CTRL == 0,
    ensures
        spec_display(HotkeyDef { modifiers: def.modifiers | MOD_CTRL, ..def }) == "Ctrl+"@
            + spec_display(def),
{
    let m = def.modifiers;
    let n = m | MOD_CTRL;
    assert(m & 2 == 0 ==> (m | 2) & 2 != 0 && (m | 2) & 1 == m & 1 && (m | 2) & 4 == m & 4 && (m
        | 2) & 8 == m & 8) by (bit_vector);
    reveal_strlit("Ctrl+");
    reveal_strlit("Ctrl");
    reveal_strlit("+");
    assert(modifier_prefix(n) =~= "Ctrl+"@ + modifier_prefix(m));
    assert(spec_display(HotkeyDef { modifiers: n, ..def }) =~= "Ctrl+"@ + spec_display(def));
}

/// Without Ctrl, holding Alt as well puts "Alt+" in front of what the hotkey showed.
pub proof fn lemma_display_adds_alt(def: HotkeyDef)
    requires
        def.enabled,
        def.vk != 0,
        def.modifiers & MOD_CTRL == 0,
        def.modifiers & MOD_ALT == 0,
    ensures
        spec_display(HotkeyDef { modifiers: def.modifiers | MOD_ALT, ..def }) == "Alt+"@
            + spec_display(def),
{
    let m = def.modifiers;
    let n = m | MOD_ALT;
    assert(m & 2 == 0 && m & 1 == 0 ==> (m | 1) & 2 == 0 && (m | 1) & 1 != 0 && m & 1 == 0 && (m
        | 1) & 4 == m & 4 && (m | 1) & 8 == m & 8) by (bit_vector);
    reveal_strlit("Alt+");
    reveal_strlit("Alt");
    reveal_strlit("+");
    assert(modifier_prefix(n) =~= "Alt+"@ + modifier_prefix(m));
    assert(spec_display(HotkeyDef { modifiers: n, ..def }) =~= "Alt+"@ + spec_display(def));
}

/// Without Ctrl and Alt, holding Shift as well puts "Shift+" in front of what
/// the hotkey showed.
pub proof fn lemma_display_adds_shift(def: HotkeyDef)
    requires
        def.enabled,
        def.vk != 0,
        def.modifiers & MOD_CTRL == 0,
        def.modifiers & MOD_ALT == 0,
        def.modifiers & MOD_SHIFT == 0,
    ensures
        spec_display(HotkeyDef { modifiers: def.modifiers | MOD_SHIFT, ..def }) == "Shift+"@
            + spec_display(def),
{
    let m = def.modifiers;
    let n = m | MOD_SHIFT;
    assert(m & 2 == 0 && m & 1 == 0 && m & 4 == 0 ==> (m | 4) & 2 == 0 && (m | 4) & 1 == 0 && (m
        | 4) & 4 != 0 && (m | 4) & 8 == m & 8) by (bit_vector);
    reveal_strlit("Shift+");
    reveal_strlit("Shift");
    reveal_strlit("+");
    assert(modifier_prefix(n) =~= "Shift+"@ + modifier_prefix(m));
    assert(spec_display(HotkeyDef { modifiers: n, ..def }) =~= "Shift+"@ + spec_display(def));
}

/// With no other modifier, holding Win as well puts "Win+" in front of what
/// the hotkey showed.
pub proof fn lemma_display_adds_win(def: HotkeyDef)
    requires
        def.enabled,
        def.vk != 0,
        def.modifiers & 0xf == 0,
    ensures
        spec_display(HotkeyDef { modifiers: def.modifiers | MOD_WIN, ..def }) == "Win+"@
            + spec_display(def),
{
    let m = def.modifiers;
    let n = m | MOD_WIN;
    assert(m & 15 == 0 ==> (m | 8) & 2 == 0 && m & 2 == 0 && (m | 8) & 1 == 0 && m & 1 == 0 && (m
        | 8) & 4 == 0 && m & 4 == 0 && (m | 8) & 8 != 0 && m & 8 == 0) by (bit_vector);
    reveal_strlit("Win+");
    reveal_strlit("Win");
    reveal_strlit("+");
    assert(modifier_prefix(n) =~= "Win+"@ + modifier_prefix(m));
    assert(spec_display(HotkeyDef { modifiers: n, ..def }) =~= "Win+"@ + spec_display(def));
}

/// An update registers a hotkey exactly when it is on and has a key; the
/// registration is for that hotkey's id and key, holds every modifier flag
/// of the hotkey, adds "no repeat", and adds nothing else.
pub proof fn lemma_register_request_keeps_the_hotkey(id: i32, def: HotkeyDef)
    ensures
        spec_register_request(id, def) is Some <==> (def.enabled && def.vk != 0),
        spec_register_request(id, def) matches Some(req) ==> {
            &&& req.id == id
            &&& req.vk == def.vk
            &&& req.modifiers & def.modifiers == def.modifiers
            &&& req.modifiers & MOD_NOREPEAT != 0
            &&& req.modifiers & !MOD_NOREPEAT == def.modifiers & !MOD_NOREPEAT
        },
{
    if let Some(req) = spec_register_request(id, def) {
        let m = def.modifiers;
        assert((m | 0x4000) & m == m && (m | 0x4000) & 0x4000 != 0 && (m | 0x4000) & !0x4000u32 == m
            & !0x4000u32) by (bit_vector);
    }
}

/// Setting a modifier flag and clearing it again leaves the other flags as
/// they were and the cleared ones off.
pub proof fn lemma_modifier_set_then_clear(m: u32, mask: u32)
    ensures
        (m | mask) & !mask == m & !mask,
        (m | mask) & mask == mask,
{
    assert((m | mask) & !mask == m & !mask) by (bit_vector);
    assert((m | mask) & mask == mask) by (bit_vector);
}

// ─── Worker events and registration bookkeeping ─────────────────────────────

/// What the hotkey worker reports to the window.
#[derive(Clone, Copy, PartialEq, Eq, Structural, Debug)]
pub enum HotkeyEvent {
    /// The hotkey with this id was pressed.
    Triggered(i32),
    /// The hotkey with this id was registered.
    RegisterOk(i32),
    /// Windows refused the hotkey with this id (another program holds it).
    RegisterFailed(i32),
}

/// A call of `RegisterHotKey` to make.
#[derive(Clone, Copy, PartialEq, Eq, Structural, Debug)]
pub struct RegisterRequest {
    pub id: i32,
    pub modifiers: u32,
    pub vk: u32,
}

/// What one update of a hotkey asks of Windows, in order: unregister the
/// old registration, then register anew.
#[derive(Clone, Copy, PartialEq, Eq, Structural, Debug)]
pub struct UpdatePlan {
    pub unregister: bool,
    pub register: Option<RegisterRequest>,
}

/// The registration a hotkey asks for: only an enabled hotkey with a key
/// is registered, and never with key repeat.
pub open spec fn spec_register_request(id: i32, def: HotkeyDef) -> Option<RegisterRequest> {
    if def.enabled && def.vk != 0 {
        Some(RegisterRequest { id, modifiers: def.modifiers | MOD_NOREPEAT, vk: def.vk })
    } else {
        None
    }
}

/// The registered ids after hotkey `id` is updated to `def` and Windows has
/// answered `accepted` (it is asked only when the update registers).
pub open spec fn registered_after_update(
    before: Set<i32>,
    id: i32,
    def: HotkeyDef,
    accepted: bool,
) -> Set<i32> {
    if spec_register_request(id, def) is Some && accepted {
        before.remove(id).insert(id)
    } else {
        before.remove(id)
    }
}

/// An update leaves a hotkey registered exactly when it is on, has a key
/// and Windows accepted it, and leaves every other hotkey as it was.
pub proof fn lemma_update_registers_iff_enabled(
    before: Set<i32>,
    id: i32,
    def: HotkeyDef,
    accepted: bool,
)
    ensures
        registered_after_update(before, id, def, accepted).contains(id) <==> (def.enabled
            && def.vk != 0 && accepted),
        forall|other: i32|
            other != id ==> (#[trigger] registered_after_update(before, id, def, accepted).contains(
                other,
            ) <==> before.contains(other)),
{
}

/// The ids of the hotkeys that are registered with Windows at present.
pub struct HotkeyRegistry {
    registered: HashSet<i32>,
}

impl View for HotkeyRegistry {
    type V = Set<i32>;

    closed spec fn view(&self) -> Set<i32> {
        self.registered@
    }
}

impl HotkeyRegistry {
    pub fn new() -> (r: HotkeyRegistry)
        ensures
            r@ == Set::<i32>::empty(),
    {
        HotkeyRegistry { registered: HashSet::new() }
    }

    /// Whether the hotkey `id` is registered.
    pub fn is_registered(&self, id: i32) -> (r: bool)
        ensures
            r == self@.contains(id),
    {
        self.registered.contains(&id)
    }

    /// Starts an update of hotkey `id` to `def`: the old registration, if any,
    /// is dropped, and the plan says what to ask of Windows.
    pub fn begin_update(&mut self, id: i32, def: HotkeyDef) -> (p: UpdatePlan)
        ensures
            p.unregister == old(self)@.contains(id),
            p.register == spec_register_request(id, def),
            final(self)@ == old(self)@.remove(id),
    {
        let unregister = self.registered.contains(&id);
        if unregister {
            self.registered.remove(&id);
        } else {
            assert(self@ =~= self@.remove(id));
        }
        let register = if def.enabled && def.vk != 0 {
            Some(RegisterRequest { id, modifiers: def.modifiers | MOD_NOREPEAT, vk: def.vk })
        } else {
            None
        };
        UpdatePlan { unregister, register }
    }

    /// Records what Windows answered to registering hotkey `id`, and gives the
    /// event to report.
    pub fn finish_register(&mut self, id: i32, accepted: bool) -> (e: HotkeyEvent)
        ensures
            final(self)@ == if accepted {
                old(self)@.insert(id)
            } else {
                old(self)@
            },
            e == if accepted {
                HotkeyEvent::RegisterOk(id)
            } else {
                HotkeyEvent::RegisterFailed(id)
            },
    {
        if accepted {
            self.registered.insert(id);
            HotkeyEvent::RegisterOk(id)
        } else {
            HotkeyEvent::RegisterFailed(id)
        }
    }

    /// The registered ids, each once, to unregister at shutdown.
    pub fn registered_ids(&self) -> (r: Vec<i32>)
        ensures
            r@.to_set() == self@,
            r@.no_duplicates(),
    {
        let mut out: Vec<i32> = Vec::new();
        for id in it: self.registered.iter()
            invariant
                it.seq().unref().to_set() == self@,
                it.seq().unref().no_duplicates(),
                out@ == it.seq().unref().take(it.index() as int),
                it.index() == it.seq().len() ==> out@.to_set() == self@ && out@.no_duplicates(),
        {
            out.push(*id);
            proof {
                assert(out@ =~= it.seq().unref().take(it.index() + 1));
                assert(it.index() + 1 == it.seq().len() ==> it.seq().unref().take(it.index() + 1)
                    =~= it.seq().unref());
            }
        }
        out
    }
}

} // verus!
