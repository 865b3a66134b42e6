use vstd::prelude::*;
use crate::text::{decimal, first_line_trimmed, spec_first_line_trimmed, spec_trim, trim, u64_to_decimal};

verus! {

// ─── Input modes ────────────────────────────────────────────────────────────

/// Types the text key by key on this machine.
pub const MODE_CHAR: u8 = 0;
/// Puts the text on the clipboard and sends Ctrl+V.
pub const MODE_PASTE: u8 = 1;
/// Types the text inside a VMware guest through `vmrun`.
pub const MODE_VMRUN: u8 = 2;

// ─── Typing on this machine ─────────────────────────────────────────────────

/// One keystroke of the key-by-key mode.
#[derive(Clone, Copy, PartialEq, Eq, Structural, Debug)]
pub enum KeyStroke {
    /// The Enter key.
    Return,
    /// The Tab key.
    Tab,
    /// A character typed as text.
    Text(char),
}

/// Line breaks are typed as Enter, a tab as Tab, anything else as itself.
pub open spec fn spec_key_stroke(c: char) -> KeyStroke {
    if c == '\n' || c == '\r' {
        KeyStroke::Return
    } else if c == '\t' {
        KeyStroke::Tab
    } else {
        KeyStroke::Text(c)
    }
}

pub fn key_stroke(c: char) -> (r: KeyStroke)
    ensures
        r == spec_key_stroke(c),
{
    if c == '\n' || c == '\r' {
        KeyStroke::Return
    } else if c == '\t' {
        KeyStroke::Tab
    } else {
        KeyStroke::Text(c)
    }
}

/// Enter stands for both line-break characters, Tab for the tab, and every
/// other character is typed as that very character.
pub proof fn lemma_key_stroke_kinds(c: char)
    ensures
        (c == '\n' || c == '\r') <==> spec_key_stroke(c) == KeyStroke::Return,
        c == '\t' <==> spec_key_stroke(c) == KeyStroke::Tab,
        c != '\n' && c != '\r' && c != '\t' ==> spec_key_stroke(c) == KeyStroke::Text(c),
        spec_key_stroke(c) matches KeyStroke::Text(d) ==> d == c,
{
}

/// The keystrokes that type `text`, one per character, in order.
pub fn key_strokes(text: &str) -> (r: Vec<KeyStroke>)
    ensures
        r@ == text@.map_values(|c: char| spec_key_stroke(c)),
{
    let n = text.unicode_len();
    let mut out: Vec<KeyStroke> = Vec::new();
    let mut i: usize = 0;
    while i < n
        invariant
            n == text@.len(),
            i <= n,
            out@ == text@.take(i as int).map_values(|c: char| spec_key_stroke(c)),
        decreases n - i,
    {
        let k = key_stroke(text.get_char(i));
        out.push(k);
        i += 1;
        assert(out@ =~= text@.take(i as int).map_values(|c: char| spec_key_stroke(c)));
    }
    assert(text@.take(n as int) =~= text@);
    out
}

/// The text to type: the clipboard's (when it was read) or the custom
/// text, where that is not empty.
pub open spec fn spec_input_text(
    use_clipboard: bool,
    clipboard: Option<Seq<char>>,
    custom_text: Seq<char>,
) -> Option<Seq<char>> {
    let source = if use_clipboard {
        clipboard
    } else {
        Some(custom_text)
    };
    match source {
        Some(t) => if t.len() == 0 {
            None
        } else {
            Some(t)
        },
        None => None,
    }
}

/// Picks the text to type. `clipboard` is what reading the clipboard gave
/// (`None` when that failed); it is looked at only when `use_clipboard`.
/// `None` means that there is nothing to type and the run ends.
pub fn input_text(use_clipboard: bool, clipboard: Option<String>, custom_text: String) -> (r:
    Option<String>)
    ensures
        match r {
            Some(t) => spec_input_text(
                use_clipboard,
                match clipboard {
                    Some(c) => Some(c@),
                    None => None,
                },
                custom_text@,
            ) == Some(t@),
            None => spec_input_text(
                use_clipboard,
                match clipboard {
                    Some(c) => Some(c@),
                    None => None,
                },
                custom_text@,
            ) is None,
        },
{
    let source = if use_clipboard {
        clipboard
    } else {
        Some(custom_text)
    };
    match source {
        Some(t) => if t.as_str().unicode_len() == 0 {
            None
        } else {
            Some(t)
        },
        None => None,
    }
}

/// The text picked is the chosen source's text exactly as it is: the
/// clipboard's when it is the source and could be read, else the custom
/// text; there is one exactly when that source holds some text.
pub proof fn lemma_input_text_is_the_source(
    use_clipboard: bool,
    clipboard: Option<Seq<char>>,
    custom_text: Seq<char>,
)
    ensures
        !use_clipboard ==> spec_input_text(use_clipboard, clipboard, custom_text) == if custom_text.len()
            == 0 {
            None
        } else {
            Some(custom_text)
        },
        use_clipboard && clipboard is None ==> spec_input_text(use_clipboard, clipboard, custom_text)
            is None,
        use_clipboard ==> (clipboard matches Some(t) ==> spec_input_text(
            use_clipboard,
            clipboard,
            custom_text,
        ) == if t.len() == 0 {
            None
        } else {
            Some(t)
        }),
        spec_input_text(use_clipboard, clipboard, custom_text) matches Some(t) ==> t.len() > 0,
{
}

/// How a run on this machine types its text.
#[derive(PartialEq, Eq, Debug)]
pub enum LocalPlan {
    /// Paste with Ctrl+V, writing the text to the clipboard first when asked
    /// (the clipboard already holds it when it is the source).
    Paste { write_clipboard: bool },
    /// Type these keystrokes one after the other.
    Type(Vec<KeyStroke>),
}

/// The plan for a run on this machine in `input_mode` (any mode but paste
/// types key by key).
pub fn plan_local_input(input_mode: u8, use_clipboard: bool, text: &str) -> (r: LocalPlan)
    ensures
        input_mode == MODE_PASTE ==> r == (LocalPlan::Paste { write_clipboard: !use_clipboard }),
        input_mode != MODE_PASTE ==> (r matches LocalPlan::Type(ks) && ks@ == text@.map_values(
            |c: char| spec_key_stroke(c),
        )),
{
    if input_mode == MODE_PASTE {
        LocalPlan::Paste { write_clipboard: !use_clipboard }
    } else {
        LocalPlan::Type(key_strokes(text))
    }
}

/// A key going down or up, by virtual-key code.
#[derive(Clone, Copy, PartialEq, Eq, Structural, Debug)]
pub struct KeyEvent {
    pub vk: u16,
    pub key_up: bool,
}

pub const VK_CONTROL: u16 = 0x11;
pub const VK_V: u16 = 0x56;

/// Ctrl down, V down, V up, Ctrl up.
pub fn ctrl_v_events() -> (r: Vec<KeyEvent>)
    ensures
        r@ == seq![
            KeyEvent { vk: VK_CONTROL, key_up: false },
            KeyEvent { vk: VK_V, key_up: false },
            KeyEvent { vk: VK_V, key_up: true },
            KeyEvent { vk: VK_CONTROL, key_up: true },
        ],
{
    vec![
        KeyEvent { vk: VK_CONTROL, key_up: false },
        KeyEvent { vk: VK_V, key_up: false },
        KeyEvent { vk: VK_V, key_up: true },
        KeyEvent { vk: VK_CONTROL, key_up: true },
    ]
}

// ─── Typing inside a VMware guest ───────────────────────────────────────────

/// Where the text is copied in the guest.
pub const GUEST_TEXT_PATH: &'static str = "C:\\Users\\Public\\auto_input_text.txt";
/// Where the typing script is copied in the guest.
pub const GUEST_SCRIPT_PATH: &'static str = "C:\\Users\\Public\\auto_input_type.ps1";
/// The PowerShell that runs the script in the guest.
pub const GUEST_POWERSHELL: &'static str = "C:\\Windows\\System32\\WindowsPowerShell\\v1.0\\powershell.exe";

/// Where `vmrun.exe` is looked for before `PATH` is asked, in order.
pub fn vmrun_candidates() -> (r: Vec<&'static str>)
    ensures
        r@.len() == 3,
        r@[0]@ == "C:\\Program Files (x86)\\VMware\\VMware Workstation\\vmrun.exe"@,
        r@[1]@ == "C:\\Program Files\\VMware\\VMware Workstation\\vmrun.exe"@,
        r@[2]@ == "C:\\Program Files (x86)\\VMware\\VMware VIX\\vmrun.exe"@,
{
    vec![
        "C:\\Program Files (x86)\\VMware\\VMware Workstation\\vmrun.exe",
        "C:\\Program Files\\VMware\\VMware Workstation\\vmrun.exe",
        "C:\\Program Files (x86)\\VMware\\VMware VIX\\vmrun.exe",
    ]
}

/// The path that `where vmrun` printed: its first line, trimmed, if not empty.
pub fn vmrun_from_where_output(stdout: &str) -> (r: Option<String>)
    ensures
        match r {
            Some(t) => spec_first_line_trimmed(stdout@) == Some(t@),
            None => spec_first_line_trimmed(stdout@) is None,
        },
{
    first_line_trimmed(stdout)
}

/// The error shown when the configured `vmrun` does not exist.
pub fn vmrun_missing_message(vmrun_path: &str) -> (r: String)
    ensures
        r@ == "vmrun 不存在："@ + vmrun_path@,
{
    String::from_str("vmrun 不存在：").concat(vmrun_path)
}

/// The text file's contents: a UTF-8 byte order mark, then the text, so
/// that PowerShell in the guest reads it as UTF-8.
pub fn bom_text(text: &str) -> (r: String)
    ensures
        r@ == seq!['\u{feff}'] + text@,
{
    proof {
        reveal_strlit("\u{feff}");
    }
    String::from_str("\u{feff}").concat(text)
}

/// The pause between characters in the guest: the configured one, at least 10 ms.
pub fn script_delay_ms(char_delay_ms: u64) -> (r: u64)
    ensures
        r == if char_delay_ms < 10 {
            10
        } else {
            char_delay_ms
        },
{
    if char_delay_ms < 10 {
        10
    } else {
        char_delay_ms
    }
}

/// The script up to the path of the text file: an inline C# class that sends
/// each character with `SendInput` and `KEYEVENTF_UNICODE`.
pub const SCRIPT_HEAD: &'static str = "$ErrorActionPreference = 'Stop'
Add-Type -TypeDefinition @\"
using System;
using System.Runtime.InteropServices;
public class UnicodeKeyboard {
    [DllImport(\"user32.dll\", SetLastError=true)]
    static extern uint SendInput(uint nInputs, INPUT[] pInputs, int cbSize);
    [StructLayout(LayoutKind.Sequential)]
    struct INPUT {
        public uint type;
        public KEYBDINPUT ki;
        uint pad1; uint pad2;
    }
    [StructLayout(LayoutKind.Sequential)]
    struct KEYBDINPUT {
        public ushort wVk;
        public ushort wScan;
        public uint dwFlags;
        public uint time;
        public IntPtr dwExtraInfo;
    }
    const uint INPUT_KEYBOARD = 1;
    const uint KEYEVENTF_UNICODE = 0x0004;
    const uint KEYEVENTF_KEYUP   = 0x0002;
    const uint KEYEVENTF_EXTENDEDKEY = 0x0001;
    public static void TypeChar(char c) {
        if (c == '\\r') return;
        ushort scan = (ushort)c;
        uint flags = KEYEVENTF_UNICODE;
        if (c == '\\n') { scan = 0x0D; flags = 0; TypeVK(0x0D); return; }
        var inputs = new INPUT[2];
        inputs[0].type = INPUT_KEYBOARD;
        inputs[0].ki.wScan = scan;
        inputs[0].ki.dwFlags = flags;
        inputs[1].type = INPUT_KEYBOARD;
        inputs[1].ki.wScan = scan;
        inputs[1].ki.dwFlags = flags | KEYEVENTF_KEYUP;
        SendInput(2, inputs, Marshal.SizeOf(typeof(INPUT)));
    }
    static void TypeVK(ushort vk) {
        var inputs = new INPUT[2];
        inputs[0].type = INPUT_KEYBOARD;
        inputs[0].ki.wVk = vk;
        inputs[1].type = INPUT_KEYBOARD;
        inputs[1].ki.wVk = vk;
        inputs[1].ki.dwFlags = KEYEVENTF_KEYUP;
        SendInput(2, inputs, Marshal.SizeOf(typeof(INPUT)));
    }
}
\"@
$text = [IO.File]::ReadAllText('";
pub const SCRIPT_LOOP: &'static str = "', [Text.Encoding]::UTF8)
foreach ($ch in $text.ToCharArray()) {
    [UnicodeKeyboard]::TypeChar($ch)
    Start-Sleep -Milliseconds ";
pub const SCRIPT_AFTER_DELAY: &'static str = "
}
Remove-Item '";
pub const SCRIPT_TAIL: &'static str = "' -ErrorAction SilentlyContinue
Remove-Item $MyInvocation.MyCommand.Path -ErrorAction SilentlyContinue
";

/// The PowerShell script that types the text file's characters in the guest,
/// pausing `delay_ms` after each, and then deletes the file and itself.
pub open spec fn spec_guest_script(delay_ms: u64) -> Seq<char> {
    SCRIPT_HEAD@ + GUEST_TEXT_PATH@ + SCRIPT_LOOP@ + decimal(delay_ms as nat) + SCRIPT_AFTER_DELAY@
        + GUEST_TEXT_PATH@ + SCRIPT_TAIL@
}

pub fn guest_script(delay_ms: u64) -> (r: String)
    ensures
        r@ == spec_guest_script(delay_ms),
{
    let delay = u64_to_decimal(delay_ms);
    let r = String::from_str(SCRIPT_HEAD).concat(GUEST_TEXT_PATH).concat(SCRIPT_LOOP).concat(
        delay.as_str(),
    ).concat(SCRIPT_AFTER_DELAY).concat(GUEST_TEXT_PATH).concat(SCRIPT_TAIL);
    r
}

/// The characters of each string.
pub open spec fn views(v: Seq<String>) -> Seq<Seq<char>> {
    v.map_values(|s: String| s@)
}

/// The arguments of a `vmrun` call: the Workstation host type and the guest
/// login, then the command.
pub fn vmrun_args(guest_user: &str, guest_pass: &str, command: Vec<String>) -> (r: Vec<String>)
    ensures
        views(r@) == seq!["-T"@, "ws"@, "-gu"@, guest_user@, "-gp"@, guest_pass@] + views(
            command@,
        ),
{
    let mut r: Vec<String> = Vec::new();
    r.push(String::from_str("-T"));
    r.push(String::from_str("ws"));
    r.push(String::from_str("-gu"));
    r.push(String::from_str(guest_user));
    r.push(String::from_str("-gp"));
    r.push(String::from_str(guest_pass));
    let ghost head = r@;
    let n = command.len();
    let mut i: usize = 0;
    while i < n
        invariant
            n == command@.len(),
            i <= n,
            head.len() == 6,
            views(head) == seq!["-T"@, "ws"@, "-gu"@, guest_user@, "-gp"@, guest_pass@],
            r@ == head + command@.take(i as int),
        decreases n - i,
    {
        r.push(command[i].clone());
        i += 1;
        assert(r@ =~= head + command@.take(i as int));
    }
    assert(command@.take(n as int) =~= command@);
    assert(views(r@) =~= views(head) + views(command@));
    r
}

/// `copyFileFromHostToGuest` of `host_path` to `guest_path` in the machine `vmx_path`.
pub fn copy_to_guest_command(vmx_path: &str, host_path: &str, guest_path: &str) -> (r: Vec<
    String,
>)
    ensures
        views(r@) == seq!["copyFileFromHostToGuest"@, vmx_path@, host_path@, guest_path@],
{
    let r = vec![
        String::from_str("copyFileFromHostToGuest"),
        String::from_str(vmx_path),
        String::from_str(host_path),
        String::from_str(guest_path),
    ];
    assert(views(r@) =~= seq!["copyFileFromHostToGuest"@, vmx_path@, host_path@, guest_path@]);
    r
}

/// `runProgramInGuest` of PowerShell, interactive and hidden, on the typing script.
pub fn run_script_command(vmx_path: &str) -> (r: Vec<String>)
    ensures
        views(r@) == seq![
            "runProgramInGuest"@,
            vmx_path@,
            "-interactive"@,
            GUEST_POWERSHELL@,
            "-STA"@,
            "-WindowStyle"@,
            "Hidden"@,
            "-ExecutionPolicy"@,
            "Bypass"@,
            "-File"@,
            GUEST_SCRIPT_PATH@,
        ],
{
    let r = vec![
        String::from_str("runProgramInGuest"),
        String::from_str(vmx_path),
        String::from_str("-interactive"),
        String::from_str(GUEST_POWERSHELL),
        String::from_str("-STA"),
        String::from_str("-WindowStyle"),
        String::from_str("Hidden"),
        String::from_str("-ExecutionPolicy"),
        String::from_str("Bypass"),
        String::from_str("-File"),
        String::from_str(GUEST_SCRIPT_PATH),
    ];
    assert(views(r@) =~= seq![
        "runProgramInGuest"@,
        vmx_path@,
        "-interactive"@,
        GUEST_POWERSHELL@,
        "-STA"@,
        "-WindowStyle"@,
        "Hidden"@,
        "-ExecutionPolicy"@,
        "Bypass"@,
        "-File"@,
        GUEST_SCRIPT_PATH@,
    ]);
    r
}

/// The error of a `vmrun` call that failed: its standard error, trimmed, or
/// its standard output, trimmed, where the error stream was blank.
pub open spec fn spec_vmrun_failure(stderr: Seq<char>, stdout: Seq<char>) -> Seq<char> {
    "vmrun 错误："@ + if spec_trim(stderr).len() != 0 {
        spec_trim(stderr)
    } else {
        spec_trim(stdout)
    }
}

pub fn vmrun_failure_message(stderr: &str, stdout: &str) -> (r: String)
    ensures
        r@ == spec_vmrun_failure(stderr@, stdout@),
{
    let e = trim(stderr);
    let detail = if e.as_str().unicode_len() != 0 {
        e
    } else {
        trim(stdout)
    };
    String::from_str("vmrun 错误：").concat(detail.as_str())
}

/// A step of the guest run that can fail with a system error.
#[derive(Clone, Copy, PartialEq, Eq, Structural, Debug)]
pub enum VmrunFailure {
    /// Writing the text file on the host.
    TextFile,
    /// Writing the script file on the host.
    ScriptFile,
    /// Starting `vmrun`.
    Launch,
}

pub open spec fn spec_failure_prefix(kind: VmrunFailure) -> Seq<char> {
    match kind {
        VmrunFailure::TextFile => "写入临时文件失败："@,
        VmrunFailure::ScriptFile => "写入脚本文件失败："@,
        VmrunFailure::Launch => "无法执行 vmrun："@,
    }
}

/// The error shown for a failed step, followed by the system's own message.
pub fn failure_message(kind: VmrunFailure, detail: &str) -> (r: String)
    ensures
        r@ == spec_failure_prefix(kind) + detail@,
{
    let prefix = match kind {
        VmrunFailure::TextFile => "写入临时文件失败：",
        VmrunFailure::ScriptFile => "写入脚本文件失败：",
        VmrunFailure::Launch => "无法执行 vmrun：",
    };
    String::from_str(prefix).concat(detail)
}

// ─── The countdown before a run ─────────────────────────────────────────────

/// What the countdown does at a poll.
#[derive(Clone, Copy, PartialEq, Eq, Structural, Debug)]
pub enum Countdown {
    /// A stop was asked: the run ends without typing.
    Abort,
    /// The start delay has not passed: poll again a little later.
    Wait,
    /// The start delay has passed with no stop asked: go on with the run.
    Proceed,
}

/// The countdown at a poll, `elapsed_ms` after it began, with a start delay
/// of `delay_secs`: a stop ends it at once, and it goes on only once the
/// whole delay has passed.
pub fn countdown_decision(elapsed_ms: u128, delay_secs: u64, stop_requested: bool) -> (r:
    Countdown)
    ensures
        r == if stop_requested {
            Countdown::Abort
        } else if elapsed_ms < delay_secs * 1000 {
            Countdown::Wait
        } else {
            Countdown::Proceed
        },
{
    if stop_requested {
        Countdown::Abort
    } else if elapsed_ms < (delay_secs as u128) * 1000 {
        Countdown::Wait
    } else {
        Countdown::Proceed
    }
}

// ─── The course of a key-by-key run ─────────────────────────────────────────

/// The keystrokes of a key-by-key run, handed out one by one until the run
/// is stopped or all of them are out.
pub struct Typist {
    strokes: Vec<KeyStroke>,
    pos: usize,
    done: bool,
}

impl Typist {
    #[verifier::type_invariant]
    spec fn inv(self) -> bool {
        self.pos <= self.strokes@.len()
    }

    /// The keystrokes that the run is to type.
    pub closed spec fn plan(self) -> Seq<KeyStroke> {
        self.strokes@
    }

    /// The keystrokes handed out so far.
    pub closed spec fn typed(self) -> Seq<KeyStroke> {
        self.strokes@.take(self.pos as int)
    }

    /// Whether the run is over: nothing more will be handed out.
    pub closed spec fn is_done(self) -> bool {
        self.done
    }

    pub fn new(strokes: Vec<KeyStroke>) -> (r: Typist)
        ensures
            r.plan() == strokes@,
            r.typed() == Seq::<KeyStroke>::empty(),
            !r.is_done(),
    {
        let r = Typist { strokes, pos: 0, done: false };
        assert(r.strokes@.take(0) =~= Seq::<KeyStroke>::empty());
        r
    }

    /// The next keystroke to type, or `None` when the run is over: a stop was
    /// asked (`stop_requested`), every keystroke is out, or it was over before.
    /// What has been handed out is always the beginning of the plan.
    pub fn next_key(&mut self, stop_requested: bool) -> (r: Option<KeyStroke>)
        ensures
            final(self).plan() == old(self).plan(),
            final(self).typed().is_prefix_of(final(self).plan()),
            old(self).is_done() ==> r is None && final(self).is_done() && final(self).typed()
                == old(self).typed(),
            !old(self).is_done() && (stop_requested || old(self).typed().len() == old(
                self,
            ).plan().len()) ==> r is None && final(self).is_done() && final(self).typed() == old(
                self,
            ).typed(),
            !old(self).is_done() && !stop_requested && old(self).typed().len() < old(
                self,
            ).plan().len() ==> r == Some(old(self).plan()[old(self).typed().len() as int])
                && !final(self).is_done() && final(self).typed() == old(self).typed().push(
                old(self).plan()[old(self).typed().len() as int],
            ),
    {
        proof {
            use_type_invariant(&*self);
        }
        if self.done {
            return None;
        }
        if stop_requested || self.pos == self.strokes.len() {
            self.done = true;
            assert(self.strokes@.take(self.pos as int).is_prefix_of(self.strokes@));
            return None;
        }
        let k = self.strokes[self.pos];
        let ghost before = self.pos as int;
        self.pos = self.pos + 1;
        assert(self.strokes@.take(self.pos as int) =~= self.strokes@.take(before).push(k));
        assert(self.strokes@.take(self.pos as int).is_prefix_of(self.strokes@));
        Some(k)
    }
}

// ─── The course of a guest run ──────────────────────────────────────────────

/// The steps of a guest run, in the order they are taken.
#[derive(Clone, Copy, PartialEq, Eq, Structural, Debug)]
pub enum VmrunStage {
    /// Wait the start delay (fails when a stop is asked).
    Countdown,
    /// Pick the text to type (fails when there is none).
    PickText,
    /// Check that `vmrun` exists.
    CheckTool,
    /// Write the text file on the host.
    WriteText,
    /// Copy the text file into the guest.
    CopyText,
    /// Write the script file on the host.
    WriteScript,
    /// Copy the script file into the guest.
    CopyScript,
    /// Run the script in the guest.
    RunScript,
    /// The run is over: the running flag is cleared.
    Finished,
}

/// What follows a step: the next step, whether the step's error is shown,
/// and which host files are removed now.
#[derive(Clone, Copy, PartialEq, Eq, Structural, Debug)]
pub struct VmrunStep {
    pub next: VmrunStage,
    pub report_error: bool,
    pub remove_text_file: bool,
    pub remove_script_file: bool,
}

/// The position of a step in the run.
pub open spec fn stage_rank(s: VmrunStage) -> int {
    match s {
        VmrunStage::Countdown => 0,
        VmrunStage::PickText => 1,
        VmrunStage::CheckTool => 2,
        VmrunStage::WriteText => 3,
        VmrunStage::CopyText => 4,
        VmrunStage::WriteScript => 5,
        VmrunStage::CopyScript => 6,
        VmrunStage::RunScript => 7,
        VmrunStage::Finished => 8,
    }
}

/// Whether the text file is on the host when this step begins.
pub open spec fn text_file_written(s: VmrunStage) -> bool {
    4 <= stage_rank(s) <= 7
}

/// Whether the script file is on the host when this step begins.
pub open spec fn script_file_written(s: VmrunStage) -> bool {
    6 <= stage_rank(s) <= 7
}

/// A guest run goes through its steps in order, stops at the first that
/// fails, shows the error of every failed step from the `vmrun` check on,
/// and removes the host files when it ends, whether or not the last step
/// (running the script) succeeded.
pub open spec fn spec_vmrun_step(stage: VmrunStage, succeeded: bool) -> VmrunStep {
    if stage == VmrunStage::Finished {
        VmrunStep {
            next: VmrunStage::Finished,
            report_error: false,
            remove_text_file: false,
            remove_script_file: false,
        }
    } else if stage == VmrunStage::RunScript {
        VmrunStep {
            next: VmrunStage::Finished,
            report_error: !succeeded,
            remove_text_file: true,
            remove_script_file: true,
        }
    } else if succeeded {
        VmrunStep {
            next: match stage {
                VmrunStage::Countdown => VmrunStage::PickText,
                VmrunStage::PickText => VmrunStage::CheckTool,
                VmrunStage::CheckTool => VmrunStage::WriteText,
                VmrunStage::WriteText => VmrunStage::CopyText,
                VmrunStage::CopyText => VmrunStage::WriteScript,
                VmrunStage::WriteScript => VmrunStage::CopyScript,
                _ => VmrunStage::RunScript,
            },
            report_error: false,
            remove_text_file: false,
            remove_script_file: false,
        }
    } else {
        VmrunStep {
            next: VmrunStage::Finished,
            report_error: stage_rank(stage) >= 2,
            remove_text_file: text_file_written(stage),
            remove_script_file: script_file_written(stage),
        }
    }
}

/// What follows `stage` when it `succeeded` or failed.
pub fn vmrun_step(stage: VmrunStage, succeeded: bool) -> (r: VmrunStep)
    ensures
        r == spec_vmrun_step(stage, succeeded),
{
    match stage {
        VmrunStage::Finished => VmrunStep {
            next: VmrunStage::Finished,
            report_error: false,
            remove_text_file: false,
            remove_script_file: false,
        },
        VmrunStage::RunScript => VmrunStep {
            next: VmrunStage::Finished,
            report_error: !succeeded,
            remove_text_file: true,
            remove_script_file: true,
        },
        _ => if succeeded {
            let next = match stage {
                VmrunStage::Countdown => VmrunStage::PickText,
                VmrunStage::PickText => VmrunStage::CheckTool,
                VmrunStage::CheckTool => VmrunStage::WriteText,
                VmrunStage::WriteText => VmrunStage::CopyText,
                VmrunStage::CopyText => VmrunStage::WriteScript,
                VmrunStage::WriteScript => VmrunStage::CopyScript,
                _ => VmrunStage::RunScript,
            };
            VmrunStep { next, report_error: false, remove_text_file: false, remove_script_file: false }
        } else {
            let report_error = match stage {
                VmrunStage::Countdown => false,
                VmrunStage::PickText => false,
                _ => true,
            };
            let remove_text_file = match stage {
                VmrunStage::CopyText => true,
                VmrunStage::WriteScript => true,
                VmrunStage::CopyScript => true,
                _ => false,
            };
            let remove_script_file = match stage {
                VmrunStage::CopyScript => true,
                _ => false,
            };
            VmrunStep { next: VmrunStage::Finished, report_error, remove_text_file, remove_script_file }
        },
    }
}

/// Every step of an unfinished guest run moves on (so the run ends, and the
/// running flag is cleared, after at most eight steps); a run that ends
/// removes exactly the host files that were written, and one that goes on
/// removes none.
pub proof fn lemma_vmrun_steps_end_cleanly(stage: VmrunStage, succeeded: bool)
    requires
        stage != VmrunStage::Finished,
    ensures
        stage_rank(spec_vmrun_step(stage, succeeded).next) > stage_rank(stage),
        spec_vmrun_step(stage, succeeded).next == VmrunStage::Finished ==> spec_vmrun_step(
            stage,
            succeeded,
        ).remove_text_file == text_file_written(stage) && spec_vmrun_step(
            stage,
            succeeded,
        ).remove_script_file == script_file_written(stage),
        spec_vmrun_step(stage, succeeded).next != VmrunStage::Finished ==> !spec_vmrun_step(
            stage,
            succeeded,
        ).remove_text_file && !spec_vmrun_step(stage, succeeded).remove_script_file,
        !succeeded ==> spec_vmrun_step(stage, succeeded).next == VmrunStage::Finished,
{
}

} // verus!
