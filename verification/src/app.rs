use vstd::prelude::*;
use crate::hotkey::{
    key_options, key_table, HotkeyDef, HotkeyEvent, HK_CLIPBOARD, HK_CUSTOM, MOD_ALT, MOD_CTRL,
};
use crate::input::{MODE_CHAR, MODE_PASTE, MODE_VMRUN};
use crate::text::{
    contains_char, decimal, parse_u64, spec_parse_u64, starts_with, str_eq, take_chars,
    u64_to_decimal,
};

verus! {

// ─── Key choices ────────────────────────────────────────────────────────────

/// A choice in the key picker: a virtual-key code and the name shown for it.
#[derive(Clone, Copy, PartialEq, Eq, Debug)]
pub struct KeyOpt {
    pub vk: u32,
    pub name: &'static str,
}

impl KeyOpt {
    /// The text the picker shows for this choice.
    pub fn label(&self) -> (r: &'static str)
        ensures
            r@ == self.name@,
    {
        self.name
    }
}

/// The key picker's choices: "(未设置)" (code 0), then the key table in order.
pub fn all_key_opts() -> (r: Vec<KeyOpt>)
    ensures
        r@.len() == key_table().len() + 1,
        r@[0].vk == 0,
        r@[0].name@ == "(未设置)"@,
        forall|i: int|
            0 <= i < key_table().len() ==> (#[trigger] r@[i + 1]).vk == key_table()[i].0
                && r@[i + 1].name@ == key_table()[i].1,
{
    let table = key_options();
    let mut opts: Vec<KeyOpt> = Vec::new();
    opts.push(KeyOpt { vk: 0, name: "(未设置)" });
    let n = table.len();
    let mut i: usize = 0;
    while i < n
        invariant
            n == table@.len(),
            n == key_table().len(),
            i <= n,
            forall|j: int|
                0 <= j < table@.len() ==> (#[trigger] table@[j]).0 == key_table()[j].0
                    && table@[j].1@ == key_table()[j].1,
            opts@.len() == i + 1,
            opts@[0].vk == 0,
            opts@[0].name@ == "(未设置)"@,
            forall|j: int|
                0 <= j < i ==> (#[trigger] opts@[j + 1]).vk == key_table()[j].0 && opts@[j
                    + 1].name@ == key_table()[j].1,
        decreases n - i,
    {
        let (vk, name) = table[i];
        opts.push(KeyOpt { vk, name });
        i += 1;
    }
    opts
}

/// The first choice with code `vk`, if any.
pub fn find_key_opt(opts: &Vec<KeyOpt>, vk: u32) -> (r: Option<KeyOpt>)
    ensures
        match r {
            Some(k) => exists|i: int|
                0 <= i < opts@.len() && opts@[i] == k && k.vk == vk && forall|j: int|
                    0 <= j < i ==> (#[trigger] opts@[j]).vk != vk,
            None => forall|i: int| 0 <= i < opts@.len() ==> (#[trigger] opts@[i]).vk != vk,
        },
{
    let n = opts.len();
    let mut i: usize = 0;
    while i < n
        invariant
            n == opts@.len(),
            i <= n,
            forall|j: int| 0 <= j < i ==> (#[trigger] opts@[j]).vk != vk,
        decreases n - i,
    {
        if opts[i].vk == vk {
            return Some(opts[i]);
        }
        i += 1;
    }
    None
}

/// What the key cell of a switched-off hotkey shows: "(未设置)" when it has
/// no key, else the key's name.
pub fn idle_key_label(def: &HotkeyDef) -> (r: &'static str)
    ensures
        def.vk == 0 ==> r@ == "(未设置)"@,
        def.vk != 0 ==> r@ == crate::hotkey::spec_vk_name(def.vk),
{
    if def.vk == 0 {
        "(未设置)"
    } else {
        crate::hotkey::vk_name(def.vk)
    }
}

/// Whether a hotkey row warns of a conflict: the hotkey is on, has a key,
/// and Windows refused it.
pub fn shows_conflict(def: &HotkeyDef, registered_ok: bool) -> (r: bool)
    ensures
        r == (def.enabled && def.vk != 0 && !registered_ok),
{
    def.enabled && def.vk != 0 && !registered_ok
}

// ─── Settings ───────────────────────────────────────────────────────────────

/// The settings kept between runs (the text to type and its source are not kept).
#[derive(Clone, PartialEq, Eq, Debug)]
pub struct AppConfig {
    pub vmrun_path: String,
    pub vmx_path: String,
    pub guest_user: String,
    pub guest_pass: String,
    pub input_mode: u8,
    pub char_delay_ms: u64,
    pub start_delay_secs: u64,
    pub always_on_top: bool,
    pub hotkey_clipboard: HotkeyDef,
    pub hotkey_custom: HotkeyDef,
}

/// The clipboard hotkey before it is configured: Ctrl+Alt+F1, off.
pub fn default_hotkey_clipboard() -> (r: HotkeyDef)
    ensures
        r == (HotkeyDef { enabled: false, modifiers: MOD_CTRL | MOD_ALT, vk: 0x70 }),
{
    HotkeyDef { enabled: false, modifiers: MOD_CTRL | MOD_ALT, vk: 0x70 }
}

/// The custom-text hotkey before it is configured: Ctrl+Alt+F2, off.
pub fn default_hotkey_custom() -> (r: HotkeyDef)
    ensures
        r == (HotkeyDef { enabled: false, modifiers: MOD_CTRL | MOD_ALT, vk: 0x71 }),
{
    HotkeyDef { enabled: false, modifiers: MOD_CTRL | MOD_ALT, vk: 0x71 }
}

/// The pause between characters before it is configured, in milliseconds.
pub fn default_char_delay_ms() -> (r: u64)
    ensures
        r == 50,
{
    50
}

/// The pause before typing starts, before it is configured, in seconds.
pub fn default_start_delay_secs() -> (r: u64)
    ensures
        r == 3,
{
    3
}

impl AppConfig {
    /// The settings used when none could be read.
    pub fn fallback() -> (r: AppConfig)
        ensures
            r.vmrun_path@ == Seq::<char>::empty(),
            r.vmx_path@ == Seq::<char>::empty(),
            r.guest_user@ == Seq::<char>::empty(),
            r.guest_pass@ == Seq::<char>::empty(),
            r.input_mode == MODE_CHAR,
            r.char_delay_ms == 50,
            r.start_delay_secs == 3,
            !r.always_on_top,
            r.hotkey_clipboard == (HotkeyDef {
                enabled: false,
                modifiers: MOD_CTRL | MOD_ALT,
                vk: 0x70,
            }),
            r.hotkey_custom == (HotkeyDef { enabled: false, modifiers: MOD_CTRL | MOD_ALT, vk: 0x71 }),
    {
        AppConfig {
            vmrun_path: String::new(),
            vmx_path: String::new(),
            guest_user: String::new(),
            guest_pass: String::new(),
            input_mode: MODE_CHAR,
            char_delay_ms: 50,
            start_delay_secs: 3,
            always_on_top: false,
            hotkey_clipboard: default_hotkey_clipboard(),
            hotkey_custom: default_hotkey_custom(),
        }
    }
}

/// The folder that holds the program's settings folder: `APPDATA`, else
/// `USERPROFILE`, else the working folder, by what the environment holds.
pub fn config_base(appdata: Option<String>, userprofile: Option<String>) -> (r: String)
    ensures
        r@ == match appdata {
            Some(a) => a@,
            None => match userprofile {
                Some(u) => u@,
                None => "."@,
            },
        },
{
    match appdata {
        Some(a) => a,
        None => match userprofile {
            Some(u) => u,
            None => String::from_str("."),
        },
    }
}

// ─── Window state ───────────────────────────────────────────────────────────

/// What the window shows and remembers, apart from the text being edited.
#[derive(Clone, PartialEq, Eq, Debug)]
pub struct AppState {
    pub use_clipboard: bool,
    pub char_delay_ms: u64,
    pub char_delay_str: String,
    pub start_delay_secs: u64,
    pub start_delay_str: String,
    pub input_mode: u8,
    pub vmrun_path: String,
    pub vmx_path: String,
    pub guest_user: String,
    pub guest_pass: String,
    pub prev_running: bool,
    pub hotkey_clipboard: HotkeyDef,
    pub hotkey_custom: HotkeyDef,
    pub hotkey_clipboard_ok: bool,
    pub hotkey_custom_ok: bool,
    pub window_visible: bool,
    pub always_on_top: bool,
    pub needs_topmost_init: bool,
    pub status_text: String,
}

/// A typing run to start in the background.
#[derive(Clone, PartialEq, Eq, Debug)]
pub enum InputJob {
    /// Type on this machine.
    Local {
        use_clipboard: bool,
        input_mode: u8,
        custom_text: String,
        char_delay_ms: u64,
        start_delay_secs: u64,
    },
    /// Type inside a VMware guest.
    Vmrun {
        vmrun_path: String,
        vmx_path: String,
        guest_user: String,
        guest_pass: String,
        use_clipboard: bool,
        custom_text: String,
        char_delay_ms: u64,
        start_delay_secs: u64,
    },
}

/// Work that the window asks of the system, in the order given.
#[derive(Clone, PartialEq, Eq, Debug)]
pub enum Action {
    /// Write these settings to the settings file.
    SaveConfig(AppConfig),
    /// Keep the window above others, or stop doing so.
    SetAlwaysOnTop(bool),
    /// Hand this hotkey to the hotkey worker.
    UpdateHotkey(i32, HotkeyDef),
    /// Show the window.
    ShowWindow,
    /// Hide the window (it stays in the tray).
    HideWindow,
    /// Clear the stop request, mark a run as going, clear the last guest
    /// error, note the start time, and start this run.
    Start(InputJob),
    /// Ask the running job to stop.
    Stop,
}

/// A command from the tray icon.
#[derive(Clone, Copy, PartialEq, Eq, Structural, Debug)]
pub enum TrayCmd {
    ShowWindow,
    ToggleAlwaysOnTop,
}

/// A change made in the window.
#[derive(Clone, PartialEq, Eq, Debug)]
pub enum Message {
    UseClipboardToggled(bool),
    InputModeChanged(u8),
    VmrunPathChanged(String),
    VmxPathChanged(String),
    GuestUserChanged(String),
    GuestPassChanged(String),
    CharDelayChanged(String),
    StartDelayChanged(String),
    AlwaysOnTopToggled(bool),
    HkClipboardEnabled(bool),
    HkClipboardMod(u32, bool),
    HkClipboardKey(KeyOpt),
    HkCustomEnabled(bool),
    HkCustomMod(u32, bool),
    HkCustomKey(KeyOpt),
    StartInput,
    StopInput,
    CloseRequested,
}

/// The settings that a state keeps.
pub open spec fn spec_config(s: AppState) -> AppConfig {
    AppConfig {
        vmrun_path: s.vmrun_path,
        vmx_path: s.vmx_path,
        guest_user: s.guest_user,
        guest_pass: s.guest_pass,
        input_mode: s.input_mode,
        char_delay_ms: s.char_delay_ms,
        start_delay_secs: s.start_delay_secs,
        always_on_top: s.always_on_top,
        hotkey_clipboard: s.hotkey_clipboard,
        hotkey_custom: s.hotkey_custom,
    }
}

/// What a state made from settings `cfg` holds; `detected` is the `vmrun`
/// found on this machine, used where `cfg` names none.
pub open spec fn is_initial_state(cfg: AppConfig, detected: String, s: AppState) -> bool {
    &&& spec_config(s) == (AppConfig {
        vmrun_path: if cfg.vmrun_path@.len() == 0 {
            detected
        } else {
            cfg.vmrun_path
        },
        ..cfg
    })
    &&& s.char_delay_str@ == decimal(cfg.char_delay_ms as nat)
    &&& s.start_delay_str@ == decimal(cfg.start_delay_secs as nat)
    &&& !s.use_clipboard
    &&& !s.prev_running
    &&& s.hotkey_clipboard_ok
    &&& s.hotkey_custom_ok
    &&& s.window_visible
    &&& s.needs_topmost_init == cfg.always_on_top
    &&& s.status_text@ == "就绪"@
}

/// The status line during the countdown: `倒计时：N 秒…`.
pub open spec fn countdown_text(secs: nat) -> Seq<char> {
    "倒计时："@ + decimal(secs) + " 秒…"@
}

fn countdown_message(secs: u64) -> (r: String)
    ensures
        r@ == countdown_text(secs as nat),
{
    let n = u64_to_decimal(secs);
    String::from_str("倒计时：").concat(n.as_str()).concat(" 秒…")
}

/// The run that a start launches: in the guest in VMware mode, else here.
pub open spec fn spec_job(s: AppState, custom_text: String) -> InputJob {
    if s.input_mode == MODE_VMRUN {
        InputJob::Vmrun {
            vmrun_path: s.vmrun_path,
            vmx_path: s.vmx_path,
            guest_user: s.guest_user,
            guest_pass: s.guest_pass,
            use_clipboard: s.use_clipboard,
            custom_text,
            char_delay_ms: s.char_delay_ms,
            start_delay_secs: s.start_delay_secs,
        }
    } else {
        InputJob::Local {
            use_clipboard: s.use_clipboard,
            input_mode: s.input_mode,
            custom_text,
            char_delay_ms: s.char_delay_ms,
            start_delay_secs: s.start_delay_secs,
        }
    }
}

/// A start runs in the VMware guest exactly in VMware mode, and on this
/// machine in every other mode, with the window's own mode; either way it
/// carries the window's settings and the given text unchanged.
pub proof fn lemma_job_follows_the_mode(s: AppState, custom_text: String)
    ensures
        spec_job(s, custom_text) is Vmrun <==> s.input_mode == MODE_VMRUN,
        spec_job(s, custom_text) is Local <==> s.input_mode != MODE_VMRUN,
        spec_job(s, custom_text) matches InputJob::Local {
            use_clipboard,
            input_mode,
            custom_text: t,
            char_delay_ms,
            start_delay_secs,
        } ==> input_mode == s.input_mode && use_clipboard == s.use_clipboard && t == custom_text
            && char_delay_ms == s.char_delay_ms && start_delay_secs == s.start_delay_secs,
        spec_job(s, custom_text) matches InputJob::Vmrun {
            vmrun_path,
            vmx_path,
            guest_user,
            guest_pass,
            use_clipboard,
            custom_text: t,
            char_delay_ms,
            start_delay_secs,
        } ==> vmrun_path == s.vmrun_path && vmx_path == s.vmx_path && guest_user == s.guest_user
            && guest_pass == s.guest_pass && use_clipboard == s.use_clipboard && t == custom_text
            && char_delay_ms == s.char_delay_ms && start_delay_secs == s.start_delay_secs,
{
}

/// A delay typed into a box: taken when it reads as a number up to `max`,
/// else the old value stays.
pub open spec fn accepted_delay(text: Seq<char>, max: u64, old_value: u64) -> u64 {
    match spec_parse_u64(text) {
        Some(v) => if v <= max {
            v
        } else {
            old_value
        },
        None => old_value,
    }
}

/// A delay box changes the delay only to the number its text reads as, and
/// only when that number is within the limit; any other text leaves the
/// delay as it was.
pub proof fn lemma_accepted_delay(text: Seq<char>, max: u64, old_value: u64)
    ensures
        accepted_delay(text, max, old_value) == old_value || (spec_parse_u64(text) == Some(
            accepted_delay(text, max, old_value),
        ) && accepted_delay(text, max, old_value) <= max),
        forall|v: u64| spec_parse_u64(text) == Some(v) && v <= max ==> accepted_delay(text, max, old_value)
            == v,
        spec_parse_u64(text) is None ==> accepted_delay(text, max, old_value) == old_value,
{
}

/// The status line after a run: the guest error if there is one, else
/// "已停止" when it was stopped, else "输入完成 ✓".
pub open spec fn finished_text(vmrun_error: Seq<char>, stopped: bool) -> Seq<char> {
    if vmrun_error.len() != 0 {
        vmrun_error
    } else if stopped {
        "已停止"@
    } else {
        "输入完成 ✓"@
    }
}

impl AppState {
    /// The state the window opens with, from the saved settings. `detected`
    /// is the `vmrun` found on this machine (looked for only where the
    /// settings name none).
    pub fn new(cfg: AppConfig, detected: String) -> (r: AppState)
        ensures
            is_initial_state(cfg, detected, r),
    {
        let vmrun_path = if cfg.vmrun_path.as_str().unicode_len() == 0 {
            detected
        } else {
            cfg.vmrun_path
        };
        AppState {
            use_clipboard: false,
            char_delay_ms: cfg.char_delay_ms,
            char_delay_str: u64_to_decimal(cfg.char_delay_ms),
            start_delay_secs: cfg.start_delay_secs,
            start_delay_str: u64_to_decimal(cfg.start_delay_secs),
            input_mode: cfg.input_mode,
            vmrun_path,
            vmx_path: cfg.vmx_path,
            guest_user: cfg.guest_user,
            guest_pass: cfg.guest_pass,
            prev_running: false,
            hotkey_clipboard: cfg.hotkey_clipboard,
            hotkey_custom: cfg.hotkey_custom,
            hotkey_clipboard_ok: true,
            hotkey_custom_ok: true,
            window_visible: true,
            always_on_top: cfg.always_on_top,
            needs_topmost_init: cfg.always_on_top,
            status_text: String::from_str("就绪"),
        }
    }

    /// The registrations asked for when the window opens: the clipboard
    /// hotkey, then the custom-text hotkey.
    pub fn hotkey_registrations(&self) -> (r: Vec<Action>)
        ensures
            r@ == seq![
                Action::UpdateHotkey(HK_CLIPBOARD, self.hotkey_clipboard),
                Action::UpdateHotkey(HK_CUSTOM, self.hotkey_custom),
            ],
    {
        vec![
            Action::UpdateHotkey(HK_CLIPBOARD, self.hotkey_clipboard),
            Action::UpdateHotkey(HK_CUSTOM, self.hotkey_custom),
        ]
    }

    /// The settings to save.
    pub fn to_config(&self) -> (r: AppConfig)
        ensures
            r == spec_config(*self),
    {
        AppConfig {
            vmrun_path: self.vmrun_path.clone(),
            vmx_path: self.vmx_path.clone(),
            guest_user: self.guest_user.clone(),
            guest_pass: self.guest_pass.clone(),
            input_mode: self.input_mode,
            char_delay_ms: self.char_delay_ms,
            start_delay_secs: self.start_delay_secs,
            always_on_top: self.always_on_top,
            hotkey_clipboard: self.hotkey_clipboard,
            hotkey_custom: self.hotkey_custom,
        }
    }

    /// Starts a run unless one is going: saves the settings, shows the
    /// countdown and launches the job for `custom_text`.
    pub fn start_input(&mut self, running: bool, custom_text: String) -> (r: Vec<Action>)
        ensures
            final(self).needs_topmost_init == old(self).needs_topmost_init,
            running ==> *final(self) == *old(self) && r@ == Seq::<Action>::empty(),
            !running ==> final(self).status_text@ == countdown_text(
                old(self).start_delay_secs as nat,
            ) && *final(self) == (AppState { status_text: final(self).status_text, ..*old(self) })
                && r@ == seq![
                Action::SaveConfig(spec_config(*old(self))),
                Action::Start(spec_job(*old(self), custom_text)),
            ],
    {
        if running {
            return Vec::new();
        }
        let cfg = self.to_config();
        let job = if self.input_mode == MODE_VMRUN {
            InputJob::Vmrun {
                vmrun_path: self.vmrun_path.clone(),
                vmx_path: self.vmx_path.clone(),
                guest_user: self.guest_user.clone(),
                guest_pass: self.guest_pass.clone(),
                use_clipboard: self.use_clipboard,
                custom_text,
                char_delay_ms: self.char_delay_ms,
                start_delay_secs: self.start_delay_secs,
            }
        } else {
            InputJob::Local {
                use_clipboard: self.use_clipboard,
                input_mode: self.input_mode,
                custom_text,
                char_delay_ms: self.char_delay_ms,
                start_delay_secs: self.start_delay_secs,
            }
        };
        self.status_text = countdown_message(self.start_delay_secs);
        vec![Action::SaveConfig(cfg), Action::Start(job)]
    }

    /// Applies a change made in the window. `running` says whether a run is
    /// going; `custom_text` is the text in the editor.
    #[verifier::rlimit(60)]
    #[verifier::spinoff_prover]
    pub fn update(&mut self, message: Message, running: bool, custom_text: String) -> (r: Vec<
        Action,
    >)
        ensures
            final(self).needs_topmost_init == old(self).needs_topmost_init,
            match message {
                Message::UseClipboardToggled(v) => *final(self) == (AppState {
                    use_clipboard: v,
                    ..*old(self)
                }) && r@ == Seq::<Action>::empty(),
                Message::InputModeChanged(m) => *final(self) == (AppState {
                    input_mode: m,
                    ..*old(self)
                }) && r@ == Seq::<Action>::empty(),
                Message::VmrunPathChanged(p) => *final(self) == (AppState {
                    vmrun_path: p,
                    ..*old(self)
                }) && r@ == Seq::<Action>::empty(),
                Message::VmxPathChanged(p) => *final(self) == (AppState {
                    vmx_path: p,
                    ..*old(self)
                }) && r@ == Seq::<Action>::empty(),
                Message::GuestUserChanged(u) => *final(self) == (AppState {
                    guest_user: u,
                    ..*old(self)
                }) && r@ == Seq::<Action>::empty(),
                Message::GuestPassChanged(p) => *final(self) == (AppState {
                    guest_pass: p,
                    ..*old(self)
                }) && r@ == Seq::<Action>::empty(),
                Message::CharDelayChanged(t) => *final(self) == (AppState {
                    char_delay_ms: accepted_delay(t@, 10_000, old(self).char_delay_ms),
                    char_delay_str: t,
                    ..*old(self)
                }) && r@ == Seq::<Action>::empty(),
                Message::StartDelayChanged(t) => *final(self) == (AppState {
                    start_delay_secs: accepted_delay(t@, 60, old(self).start_delay_secs),
                    start_delay_str: t,
                    ..*old(self)
                }) && r@ == Seq::<Action>::empty(),
                Message::AlwaysOnTopToggled(v) => *final(self) == (AppState {
                    always_on_top: v,
                    ..*old(self)
                }) && r@ == seq![
                    Action::SaveConfig(spec_config(*final(self))),
                    Action::SetAlwaysOnTop(v),
                ],
                Message::HkClipboardEnabled(v) => *final(self) == (AppState {
                    hotkey_clipboard: HotkeyDef { enabled: v, ..old(self).hotkey_clipboard },
                    ..*old(self)
                }) && r@ == seq![Action::UpdateHotkey(HK_CLIPBOARD, final(self).hotkey_clipboard)],
                Message::HkClipboardMod(mask, on) => *final(self) == (AppState {
                    hotkey_clipboard: HotkeyDef {
                        modifiers: if on {
                            old(self).hotkey_clipboard.modifiers | mask
                        } else {
                            old(self).hotkey_clipboard.modifiers & !mask
                        },
                        ..old(self).hotkey_clipboard
                    },
                    ..*old(self)
                }) && r@ == seq![Action::UpdateHotkey(HK_CLIPBOARD, final(self).hotkey_clipboard)],
                Message::HkClipboardKey(k) => *final(self) == (AppState {
                    hotkey_clipboard: HotkeyDef { vk: k.vk, ..old(self).hotkey_clipboard },
                    ..*old(self)
                }) && r@ == seq![Action::UpdateHotkey(HK_CLIPBOARD, final(self).hotkey_clipboard)],
                Message::HkCustomEnabled(v) => *final(self) == (AppState {
                    hotkey_custom: HotkeyDef { enabled: v, ..old(self).hotkey_custom },
                    ..*old(self)
                }) && r@ == seq![Action::UpdateHotkey(HK_CUSTOM, final(self).hotkey_custom)],
                Message::HkCustomMod(mask, on) => *final(self) == (AppState {
                    hotkey_custom: HotkeyDef {
                        modifiers: if on {
                            old(self).hotkey_custom.modifiers | mask
                        } else {
                            old(self).hotkey_custom.modifiers & !mask
                        },
                        ..old(self).hotkey_custom
                    },
                    ..*old(self)
                }) && r@ == seq![Action::UpdateHotkey(HK_CUSTOM, final(self).hotkey_custom)],
                Message::HkCustomKey(k) => *final(self) == (AppState {
                    hotkey_custom: HotkeyDef { vk: k.vk, ..old(self).hotkey_custom },
                    ..*old(self)
                }) && r@ == seq![Action::UpdateHotkey(HK_CUSTOM, final(self).hotkey_custom)],
                Message::StartInput => (running ==> *final(self) == *old(self) && r@ == Seq::<
                    Action,
                >::empty()) && (!running ==> final(self).status_text@ == countdown_text(
                    old(self).start_delay_secs as nat,
                ) && *final(self) == (AppState {
                    status_text: final(self).status_text,
                    ..*old(self)
                }) && r@ == seq![
                    Action::SaveConfig(spec_config(*old(self))),
                    Action::Start(spec_job(*old(self), custom_text)),
                ]),
                Message::StopInput => *final(self) == *old(self) && r@ == seq![Action::Stop],
                Message::CloseRequested => *final(self) == (AppState {
                    window_visible: false,
                    ..*old(self)
                }) && r@ == seq![
                    Action::SaveConfig(spec_config(*final(self))),
                    Action::HideWindow,
                ],
            },
    {
        match message {
            Message::UseClipboardToggled(v) => {
                self.use_clipboard = v;
                Vec::new()
            },
            Message::InputModeChanged(m) => {
                self.input_mode = m;
                Vec::new()
            },
            Message::VmrunPathChanged(p) => {
                self.vmrun_path = p;
                Vec::new()
            },
            Message::VmxPathChanged(p) => {
                self.vmx_path = p;
                Vec::new()
            },
            Message::GuestUserChanged(u) => {
                self.guest_user = u;
                Vec::new()
            },
            Message::GuestPassChanged(p) => {
                self.guest_pass = p;
                Vec::new()
            },
            Message::CharDelayChanged(t) => {
                if let Some(v) = parse_u64(t.as_str()) {
                    if v <= 10_000 {
                        self.char_delay_ms = v;
                    }
                }
                self.char_delay_str = t;
                Vec::new()
            },
            Message::StartDelayChanged(t) => {
                if let Some(v) = parse_u64(t.as_str()) {
                    if v <= 60 {
                        self.start_delay_secs = v;
                    }
                }
                self.start_delay_str = t;
                Vec::new()
            },
            Message::AlwaysOnTopToggled(v) => {
                self.always_on_top = v;
                let cfg = self.to_config();
                vec![Action::SaveConfig(cfg), Action::SetAlwaysOnTop(v)]
            },
            Message::HkClipboardEnabled(v) => {
                self.hotkey_clipboard.enabled = v;
                vec![Action::UpdateHotkey(HK_CLIPBOARD, self.hotkey_clipboard)]
            },
            Message::HkClipboardMod(mask, on) => {
                self.hotkey_clipboard.set_modifier(mask, on);
                vec![Action::UpdateHotkey(HK_CLIPBOARD, self.hotkey_clipboard)]
            },
            Message::HkClipboardKey(k) => {
                self.hotkey_clipboard.vk = k.vk;
                vec![Action::UpdateHotkey(HK_CLIPBOARD, self.hotkey_clipboard)]
            },
            Message::HkCustomEnabled(v) => {
                self.hotkey_custom.enabled = v;
                vec![Action::UpdateHotkey(HK_CUSTOM, self.hotkey_custom)]
            },
            Message::HkCustomMod(mask, on) => {
                self.hotkey_custom.set_modifier(mask, on);
                vec![Action::UpdateHotkey(HK_CUSTOM, self.hotkey_custom)]
            },
            Message::HkCustomKey(k) => {
                self.hotkey_custom.vk = k.vk;
                vec![Action::UpdateHotkey(HK_CUSTOM, self.hotkey_custom)]
            },
            Message::StartInput => self.start_input(running, custom_text),
            Message::StopInput => vec![Action::Stop],
            Message::CloseRequested => {
                self.window_visible = false;
                let cfg = self.to_config();
                vec![Action::SaveConfig(cfg), Action::HideWindow]
            },
        }
    }

    /// The first tick after the window opens applies a saved "always on top".
    pub fn tick_begin(&mut self) -> (r: Vec<Action>)
        ensures
            is_tick_step(*old(self), *final(self), r@),
    {
        if self.needs_topmost_init {
            self.needs_topmost_init = false;
            let r = vec![Action::SetAlwaysOnTop(true)];
            assert(r@ =~= seq![Action::SetAlwaysOnTop(true)]);
            r
        } else {
            let r: Vec<Action> = Vec::new();
            assert(r@ =~= Seq::<Action>::empty());
            r
        }
    }

    /// Handles a command from the tray icon.
    pub fn on_tray_cmd(&mut self, cmd: TrayCmd) -> (r: Vec<Action>)
        ensures
            final(self).needs_topmost_init == old(self).needs_topmost_init,
            cmd == TrayCmd::ShowWindow ==> *final(self) == (AppState {
                window_visible: true,
                ..*old(self)
            }) && r@ == Seq::<Action>::empty(),
            cmd == TrayCmd::ToggleAlwaysOnTop ==> *final(self) == (AppState {
                always_on_top: !old(self).always_on_top,
                window_visible: true,
                ..*old(self)
            }) && r@ == seq![
                Action::SaveConfig(spec_config(*final(self))),
            ] + (if old(self).window_visible {
                Seq::<Action>::empty()
            } else {
                seq![Action::ShowWindow]
            }) + seq![Action::SetAlwaysOnTop(!old(self).always_on_top)],
    {
        match cmd {
            TrayCmd::ShowWindow => {
                self.window_visible = true;
                Vec::new()
            },
            TrayCmd::ToggleAlwaysOnTop => {
                self.always_on_top = !self.always_on_top;
                let mut acts: Vec<Action> = Vec::new();
                let cfg = self.to_config();
                acts.push(Action::SaveConfig(cfg));
                if !self.window_visible {
                    self.window_visible = true;
                    acts.push(Action::ShowWindow);
                }
                acts.push(Action::SetAlwaysOnTop(self.always_on_top));
                proof {
                    assert(spec_config(*self) == spec_config(
                        AppState { window_visible: false, ..*self },
                    ));
                }
                acts
            },
        }
    }

    /// Handles an event of the hotkey worker. A pressed hotkey starts a run
    /// (unless one is going) typing the clipboard for the clipboard hotkey
    /// and the custom text for any other, and leaves the source chosen in
    /// the window as it was.
    pub fn on_hotkey_event(&mut self, event: HotkeyEvent, running: bool, custom_text: String) -> (r:
        Vec<Action>)
        ensures
            final(self).needs_topmost_init == old(self).needs_topmost_init,
            match event {
                HotkeyEvent::Triggered(id) => (running ==> *final(self) == *old(self) && r@
                    == Seq::<Action>::empty()) && (!running ==> final(self).status_text@
                    == countdown_text(old(self).start_delay_secs as nat) && *final(self) == (
                AppState { status_text: final(self).status_text, ..*old(self) }) && r@ == seq![
                    Action::SaveConfig(spec_config(*old(self))),
                    Action::Start(
                        spec_job(
                            AppState { use_clipboard: id == HK_CLIPBOARD, ..*old(self) },
                            custom_text,
                        ),
                    ),
                ]),
                HotkeyEvent::RegisterOk(id) => *final(self) == (AppState {
                    hotkey_clipboard_ok: if id == HK_CLIPBOARD {
                        true
                    } else {
                        old(self).hotkey_clipboard_ok
                    },
                    hotkey_custom_ok: if id == HK_CUSTOM {
                        true
                    } else {
                        old(self).hotkey_custom_ok
                    },
                    ..*old(self)
                }) && r@ == Seq::<Action>::empty(),
                HotkeyEvent::RegisterFailed(id) => *final(self) == (AppState {
                    hotkey_clipboard_ok: if id == HK_CLIPBOARD {
                        false
                    } else {
                        old(self).hotkey_clipboard_ok
                    },
                    hotkey_custom_ok: if id == HK_CUSTOM {
                        false
                    } else {
                        old(self).hotkey_custom_ok
                    },
                    ..*old(self)
                }) && r@ == Seq::<Action>::empty(),
            },
    {
        match event {
            HotkeyEvent::Triggered(id) => {
                if running {
                    return Vec::new();
                }
                let prev = self.use_clipboard;
                self.use_clipboard = id == HK_CLIPBOARD;
                let acts = self.start_input(false, custom_text);
                self.use_clipboard = prev;
                acts
            },
            HotkeyEvent::RegisterOk(id) => {
                if id == HK_CLIPBOARD {
                    self.hotkey_clipboard_ok = true;
                }
                if id == HK_CUSTOM {
                    self.hotkey_custom_ok = true;
                }
                Vec::new()
            },
            HotkeyEvent::RegisterFailed(id) => {
                if id == HK_CLIPBOARD {
                    self.hotkey_clipboard_ok = false;
                }
                if id == HK_CUSTOM {
                    self.hotkey_custom_ok = false;
                }
                Vec::new()
            },
        }
    }

    /// Brings the status line up to date at a tick. `running` says whether a
    /// run is going, `elapsed_secs` how long ago it started (when its start
    /// time is known), `vmrun_error` the last guest error and `stopped`
    /// whether a stop was asked. The result says whether to forget the start
    /// time (a run has just ended).
    pub fn refresh_status(
        &mut self,
        running: bool,
        elapsed_secs: Option<u64>,
        vmrun_error: String,
        stopped: bool,
    ) -> (r: bool)
        ensures
            final(self).needs_topmost_init == old(self).needs_topmost_init,
            final(self).prev_running == running,
            r == (!running && old(self).prev_running),
            running ==> match elapsed_secs {
                Some(e) => final(self).status_text@ == if e < old(self).start_delay_secs {
                    countdown_text((old(self).start_delay_secs - e) as nat)
                } else {
                    "输入中…"@
                },
                None => final(self).status_text == old(self).status_text,
            },
            !running && old(self).prev_running ==> final(self).status_text@ == finished_text(
                vmrun_error@,
                stopped,
            ),
            !running && !old(self).prev_running ==> final(self).status_text
                == old(self).status_text,
            *final(self) == (AppState {
                prev_running: running,
                status_text: final(self).status_text,
                ..*old(self)
            }),
    {
        let mut clear = false;
        if running {
            if let Some(e) = elapsed_secs {
                if e < self.start_delay_secs {
                    self.status_text = countdown_message(self.start_delay_secs - e);
                } else {
                    self.status_text = String::from_str("输入中…");
                }
            }
        } else if self.prev_running {
            self.status_text = if vmrun_error.as_str().unicode_len() != 0 {
                vmrun_error
            } else if stopped {
                String::from_str("已停止")
            } else {
                String::from_str("输入完成 ✓")
            };
            clear = true;
        }
        self.prev_running = running;
        clear
    }

    /// Whether the VMware settings warn that `vmrun` was not found: the path is empty.
    pub fn warns_vmrun_missing(&self) -> (r: bool)
        ensures
            r == (self.vmrun_path@.len() == 0),
    {
        self.vmrun_path.as_str().unicode_len() == 0
    }

    /// Whether the start button is live: no run is going, there is text to
    /// type (the clipboard's, or a custom text that is not empty), and in
    /// VMware mode `vmrun`, the machine and the guest user are all given.
    pub fn can_start(&self, running: bool, custom_text: &str) -> (r: bool)
        ensures
            r == (!running && (self.use_clipboard || custom_text@.len() != 0) && (
            self.input_mode != MODE_VMRUN || (self.vmrun_path@.len() != 0
                && self.vmx_path@.len() != 0 && self.guest_user@.len() != 0))),
    {
        let has_text = self.use_clipboard || custom_text.unicode_len() != 0;
        let vm_ready = self.input_mode != MODE_VMRUN || (self.vmrun_path.as_str().unicode_len()
            != 0 && self.vmx_path.as_str().unicode_len() != 0
            && self.guest_user.as_str().unicode_len() != 0);
        !running && has_text && vm_ready
    }
}

/// What the start of a tick does: it applies a saved "always on top" the
/// first time, and forgets that it has to.
pub open spec fn is_tick_step(before: AppState, after: AppState, actions: Seq<Action>) -> bool {
    &&& after == (AppState { needs_topmost_init: false, ..before })
    &&& actions == if before.needs_topmost_init {
        seq![Action::SetAlwaysOnTop(true)]
    } else {
        Seq::<Action>::empty()
    }
}

/// Whether no tick is among the first `i` steps of a run.
pub open spec fn no_tick_before(is_tick: Seq<bool>, i: int) -> bool {
    forall|j: int| 0 <= j < i ==> !#[trigger] is_tick[j]
}

proof fn lemma_topmost_flag(
    states: Seq<AppState>,
    is_tick: Seq<bool>,
    tick_actions: Seq<Seq<Action>>,
    i: int,
)
    requires
        states.len() == is_tick.len() + 1,
        tick_actions.len() == is_tick.len(),
        0 <= i < states.len(),
        forall|k: int|
            0 <= k < is_tick.len() ==> if #[trigger] is_tick[k] {
                is_tick_step(states[k], states[k + 1], tick_actions[k])
            } else {
                states[k + 1].needs_topmost_init == states[k].needs_topmost_init
            },
    ensures
        states[i].needs_topmost_init == (states[0].needs_topmost_init && no_tick_before(
            is_tick,
            i,
        )),
    decreases i,
{
    if i > 0 {
        lemma_topmost_flag(states, is_tick, tick_actions, i - 1);
        if is_tick[i - 1] {
            assert(!no_tick_before(is_tick, i));
        } else {
            if no_tick_before(is_tick, i - 1) {
                assert forall|j: int| 0 <= j < i implies !#[trigger] is_tick[j] by {
                    if j < i - 1 {
                        assert(!is_tick[j]);
                    }
                }
            } else {
                let j = choose|j: int| 0 <= j < i - 1 && #[trigger] is_tick[j];
                assert(is_tick[j]);
            }
        }
    }
}

/// A saved "always on top" is applied by the first tick after the window
/// opens, and by no other tick. `states` are the window's states through a
/// run of steps; step `k` is the start of a tick when `is_tick[k]` (doing
/// `tick_actions[k]`), and otherwise a change, tray command, hotkey event or
/// status refresh, all of which keep the pending flag as it is.
pub proof fn lemma_topmost_applied_once(
    cfg: AppConfig,
    detected: String,
    states: Seq<AppState>,
    is_tick: Seq<bool>,
    tick_actions: Seq<Seq<Action>>,
)
    requires
        states.len() == is_tick.len() + 1,
        tick_actions.len() == is_tick.len(),
        is_initial_state(cfg, detected, states[0]),
        forall|k: int|
            0 <= k < is_tick.len() ==> if #[trigger] is_tick[k] {
                is_tick_step(states[k], states[k + 1], tick_actions[k])
            } else {
                states[k + 1].needs_topmost_init == states[k].needs_topmost_init
            },
    ensures
        forall|k: int|
            0 <= k < is_tick.len() && #[trigger] is_tick[k] ==> tick_actions[k] == if cfg.always_on_top
                && no_tick_before(is_tick, k) {
                seq![Action::SetAlwaysOnTop(true)]
            } else {
                Seq::<Action>::empty()
            },
{
    assert forall|k: int| 0 <= k < is_tick.len() && #[trigger] is_tick[k] implies tick_actions[k]
        == if cfg.always_on_top && no_tick_before(is_tick, k) {
        seq![Action::SetAlwaysOnTop(true)]
    } else {
        Seq::<Action>::empty()
    } by {
        lemma_topmost_flag(states, is_tick, tick_actions, k);
    }
}

// ─── Laws of the settings ───────────────────────────────────────────────────

/// Settings saved from a window come back when the program starts again:
/// the state made from them saves the very same settings (when a `vmrun`
/// path was saved; an empty one is looked for anew).
pub proof fn lemma_settings_survive_restart(s: AppState, detected: String, r: AppState)
    requires
        s.vmrun_path@.len() != 0,
        is_initial_state(spec_config(s), detected, r),
    ensures
        spec_config(r) == spec_config(s),
{
}

/// The text to type and where it comes from are not part of the saved
/// settings, nor is anything else the window shows about a run.
pub proof fn lemma_settings_ignore_session(s: AppState, use_clipboard: bool, status: String)
    ensures
        spec_config(AppState { use_clipboard, status_text: status, ..s }) == spec_config(s),
{
}

/// The delay boxes show, when the window opens, a text that reads back as
/// the delay they stand for: handing that text back changes no delay.
pub proof fn lemma_delay_boxes_read_back(cfg: AppConfig, detected: String, r: AppState)
    requires
        is_initial_state(cfg, detected, r),
    ensures
        accepted_delay(r.char_delay_str@, 10_000, r.char_delay_ms) == r.char_delay_ms,
        accepted_delay(r.start_delay_str@, 60, r.start_delay_secs) == r.start_delay_secs,
{
    crate::text::lemma_decimal_parses_back(cfg.char_delay_ms);
    crate::text::lemma_decimal_parses_back(cfg.start_delay_secs);
}

// ─── What the window shows ──────────────────────────────────────────────────

/// The explanation shown under the mode choice.
pub fn mode_hint(mode: u8) -> (r: &'static str)
    ensures
        r@ == if mode == MODE_PASTE {
            "将文本写入剪贴板后发送 Ctrl+V；一次性粘贴，字符间延迟无效"@
        } else if mode == MODE_VMRUN {
            "通过 vmrun 和 PowerShell SendInput 直接在 VMware 客户机内逐字输入（需 VMware Tools）"@
        } else {
            "逐字模拟键盘输入，支持延迟控制"@
        },
{
    if mode == MODE_PASTE {
        "将文本写入剪贴板后发送 Ctrl+V；一次性粘贴，字符间延迟无效"
    } else if mode == MODE_VMRUN {
        "通过 vmrun 和 PowerShell SendInput 直接在 VMware 客户机内逐字输入（需 VMware Tools）"
    } else {
        "逐字模拟键盘输入，支持延迟控制"
    }
}

/// Whether the pause between characters is offered: in every mode that
/// types character by character, that is every mode but paste.
pub fn shows_char_delay(mode: u8) -> (r: bool)
    ensures
        r == (mode != MODE_PASTE),
{
    mode != MODE_PASTE
}

/// Whether the VMware settings are shown: in VMware mode only.
pub fn shows_vm_section(mode: u8) -> (r: bool)
    ensures
        r == (mode == MODE_VMRUN),
{
    mode == MODE_VMRUN
}

/// Whether the stop button is live: while a run is going.
pub fn can_stop(running: bool) -> (r: bool)
    ensures
        r == running,
{
    running
}

/// Whether a hotkey row's modifier boxes and key picker can be changed:
/// while the hotkey is on.
pub fn hotkey_row_editable(def: &HotkeyDef) -> (r: bool)
    ensures
        r == def.enabled,
{
    def.enabled
}

/// The colour (R, G, B) of the status line: green while running, blue once
/// done, red for a `vmrun` error, orange when stopped, grey otherwise.
pub open spec fn spec_status_color(running: bool, status: Seq<char>) -> (u8, u8, u8) {
    if running {
        (80, 200, 100)
    } else if status.contains('✓') {
        (100, 180, 255)
    } else if "vmrun"@.is_prefix_of(status) || "无法执行"@.is_prefix_of(status) {
        (240, 60, 60)
    } else if status == "已停止"@ {
        (240, 150, 60)
    } else {
        (150, 150, 150)
    }
}

/// While a run is going the status line is green whatever it says; once
/// no run is going, a line with a check mark is blue, and the line "已停止"
/// alone is orange.
pub proof fn lemma_status_color_by_run(status: Seq<char>)
    ensures
        forall|t: Seq<char>| #[trigger] spec_status_color(true, t) == (80u8, 200u8, 100u8),
        status.contains('✓') ==> spec_status_color(false, status) == (100u8, 180u8, 255u8),
        status == "已停止"@ ==> spec_status_color(false, status) == (240u8, 150u8, 60u8),
{
    reveal_strlit("已停止");
    reveal_strlit("vmrun");
    reveal_strlit("无法执行");
    if status == "已停止"@ {
        assert(!status.contains('✓')) by {
            if status.contains('✓') {
                let i = choose|i: int| 0 <= i < status.len() && status[i] == '✓';
                assert(status[i] == "已停止"@[i]);
            }
        }
        assert(!"vmrun"@.is_prefix_of(status)) by {
            assert(status[0] != "vmrun"@[0]);
        }
        assert(!"无法执行"@.is_prefix_of(status)) by {
            assert(status[0] != "无法执行"@[0]);
        }
    }
}

pub fn status_color(running: bool, status: &str) -> (r: (u8, u8, u8))
    ensures
        r == spec_status_color(running, status@),
{
    if running {
        (80, 200, 100)
    } else if contains_char(status, '✓') {
        (100, 180, 255)
    } else if starts_with(status, "vmrun") || starts_with(status, "无法执行") {
        (240, 60, 60)
    } else if str_eq(status, "已停止") {
        (240, 150, 60)
    } else {
        (150, 150, 150)
    }
}

/// What the clipboard preview shows: the first 60 characters of the
/// clipboard's text and `…` when there are more; a notice when the
/// clipboard could not be read (`None`).
pub open spec fn spec_clipboard_preview(clipboard: Option<Seq<char>>) -> Seq<char> {
    match clipboard {
        Some(t) => if t.len() > 60 {
            t.take(60) + "…"@
        } else {
            t
        },
        None => "（剪切板为空或无法读取）"@,
    }
}

/// A clipboard text of at most 60 characters is shown whole; a longer one
/// is shown as its first 60 characters followed by a single "…".
pub proof fn lemma_clipboard_preview_cut(t: Seq<char>)
    ensures
        t.len() <= 60 ==> spec_clipboard_preview(Some(t)) == t,
        t.len() > 60 ==> spec_clipboard_preview(Some(t)).len() == 61
            && spec_clipboard_preview(Some(t)).take(60) == t.take(60) && spec_clipboard_preview(
            Some(t),
        ).last() == '…',
{
    reveal_strlit("…");
    if t.len() > 60 {
        assert(spec_clipboard_preview(Some(t)).take(60) =~= t.take(60));
    }
}

pub fn clipboard_preview(clipboard: Option<String>) -> (r: String)
    ensures
        r@ == spec_clipboard_preview(
            match clipboard {
                Some(t) => Some(t@),
                None => None,
            },
        ),
{
    match clipboard {
        Some(t) => {
            let preview = take_chars(t.as_str(), 60);
            if t.as_str().unicode_len() > 60 {
                preview.concat("…")
            } else {
                assert(t@.take(t@.len() as int) =~= t@);
                preview
            }
        },
        None => String::from_str("（剪切板为空或无法读取）"),
    }
}

} // verus!
