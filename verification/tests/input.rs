use auto_input::input::{
    bom_text, copy_to_guest_command, ctrl_v_events, failure_message, guest_script, input_text,
    key_stroke, key_strokes, plan_local_input, run_script_command, script_delay_ms, vmrun_args,
    vmrun_candidates, vmrun_failure_message, vmrun_from_where_output, vmrun_missing_message,
    vmrun_step, countdown_decision, Countdown, KeyEvent, KeyStroke, LocalPlan, Typist, VmrunFailure, VmrunStage, VmrunStep, GUEST_SCRIPT_PATH, GUEST_TEXT_PATH, MODE_CHAR,
    MODE_PASTE, MODE_VMRUN, VK_CONTROL, VK_V,
};

#[test]
fn line_breaks_and_tabs_become_keys() {
    assert_eq!(key_stroke('\n'), KeyStroke::Return);
    assert_eq!(key_stroke('\r'), KeyStroke::Return);
    assert_eq!(key_stroke('\t'), KeyStroke::Tab);
    assert_eq!(key_stroke('中'), KeyStroke::Text('中'));
    assert_eq!(
        key_strokes("a\r\nb\t!"),
        vec![
            KeyStroke::Text('a'),
            KeyStroke::Return,
            KeyStroke::Return,
            KeyStroke::Text('b'),
            KeyStroke::Tab,
            KeyStroke::Text('!'),
        ]
    );
    assert!(key_strokes("").is_empty());
}

#[test]
fn input_text_takes_the_chosen_source() {
    assert_eq!(input_text(false, None, "abc".to_string()), Some("abc".to_string()));
    assert_eq!(input_text(true, Some("clip".to_string()), "abc".to_string()), Some("clip".to_string()));
    assert_eq!(input_text(true, None, "abc".to_string()), None);
    assert_eq!(input_text(true, Some(String::new()), "abc".to_string()), None);
    assert_eq!(input_text(false, Some("clip".to_string()), String::new()), None);
}

#[test]
fn paste_mode_writes_clipboard_only_for_custom_text() {
    assert_eq!(plan_local_input(MODE_PASTE, false, "x"), LocalPlan::Paste { write_clipboard: true });
    assert_eq!(plan_local_input(MODE_PASTE, true, "x"), LocalPlan::Paste { write_clipboard: false });
    assert_eq!(
        plan_local_input(MODE_CHAR, false, "x\n"),
        LocalPlan::Type(vec![KeyStroke::Text('x'), KeyStroke::Return])
    );
    assert_eq!(plan_local_input(MODE_VMRUN, true, "y"), LocalPlan::Type(vec![KeyStroke::Text('y')]));
}

#[test]
fn ctrl_v_is_four_key_events() {
    assert_eq!(
        ctrl_v_events(),
        vec![
            KeyEvent { vk: VK_CONTROL, key_up: false },
            KeyEvent { vk: VK_V, key_up: false },
            KeyEvent { vk: VK_V, key_up: true },
            KeyEvent { vk: VK_CONTROL, key_up: true },
        ]
    );
    assert_eq!(VK_CONTROL, 0x11);
    assert_eq!(VK_V, 0x56);
}

#[test]
fn vmrun_is_looked_for_in_install_folders() {
    let c = vmrun_candidates();
    assert_eq!(c.len(), 3);
    assert_eq!(c[0], r"C:\Program Files (x86)\VMware\VMware Workstation\vmrun.exe");
    assert_eq!(c[1], r"C:\Program Files\VMware\VMware Workstation\vmrun.exe");
    assert_eq!(c[2], r"C:\Program Files (x86)\VMware\VMware VIX\vmrun.exe");
}

#[test]
fn where_output_gives_first_line_trimmed() {
    assert_eq!(
        vmrun_from_where_output("  C:\\VM\\vmrun.exe\r\nD:\\other\\vmrun.exe\r\n"),
        Some("C:\\VM\\vmrun.exe".to_string())
    );
    assert_eq!(vmrun_from_where_output(""), None);
    assert_eq!(vmrun_from_where_output("   \r\nC:\\x"), None);
    assert_eq!(vmrun_from_where_output("only"), Some("only".to_string()));
}

#[test]
fn vmrun_messages() {
    assert_eq!(vmrun_missing_message("C:\\x.exe"), "vmrun 不存在：C:\\x.exe");
    assert_eq!(vmrun_failure_message("  bad login \n", "out"), "vmrun 错误：bad login");
    assert_eq!(vmrun_failure_message(" \n ", " Error: VM off\n"), "vmrun 错误：Error: VM off");
    assert_eq!(vmrun_failure_message("", ""), "vmrun 错误：");
    assert_eq!(failure_message(VmrunFailure::TextFile, "denied"), "写入临时文件失败：denied");
    assert_eq!(failure_message(VmrunFailure::ScriptFile, "full"), "写入脚本文件失败：full");
    assert_eq!(failure_message(VmrunFailure::Launch, "nf"), "无法执行 vmrun：nf");
}

#[test]
fn text_file_starts_with_byte_order_mark() {
    assert_eq!(bom_text("密码"), "\u{FEFF}密码");
    assert_eq!(bom_text("").as_bytes(), &[0xEF, 0xBB, 0xBF]);
}

#[test]
fn guest_delay_is_at_least_ten_ms() {
    assert_eq!(script_delay_ms(0), 10);
    assert_eq!(script_delay_ms(9), 10);
    assert_eq!(script_delay_ms(10), 10);
    assert_eq!(script_delay_ms(50), 50);
}

#[test]
fn vmrun_arguments_put_login_before_command() {
    let cmd = copy_to_guest_command("a.vmx", "host.txt", GUEST_TEXT_PATH);
    assert_eq!(cmd, vec!["copyFileFromHostToGuest", "a.vmx", "host.txt", GUEST_TEXT_PATH]);
    let args = vmrun_args("user", "pw", cmd);
    assert_eq!(
        args,
        vec!["-T", "ws", "-gu", "user", "-gp", "pw", "copyFileFromHostToGuest", "a.vmx", "host.txt", GUEST_TEXT_PATH]
    );
    assert_eq!(
        run_script_command("b.vmx"),
        vec![
            "runProgramInGuest",
            "b.vmx",
            "-interactive",
            r"C:\Windows\System32\WindowsPowerShell\v1.0\powershell.exe",
            "-STA",
            "-WindowStyle",
            "Hidden",
            "-ExecutionPolicy",
            "Bypass",
            "-File",
            r"C:\Users\Public\auto_input_type.ps1",
        ]
    );
    assert_eq!(GUEST_SCRIPT_PATH, r"C:\Users\Public\auto_input_type.ps1");
    assert_eq!(GUEST_TEXT_PATH, r"C:\Users\Public\auto_input_text.txt");
}

fn expected_script(delay_ms: u64) -> String {
    let guest_text_path = r"C:\Users\Public\auto_input_text.txt";
    format!(
r#"$ErrorActionPreference = 'Stop'
Add-Type -TypeDefinition @"
using System;
using System.Runtime.InteropServices;
public class UnicodeKeyboard {{
    [DllImport("user32.dll", SetLastError=true)]
    static extern uint SendInput(uint nInputs, INPUT[] pInputs, int cbSize);
    [StructLayout(LayoutKind.Sequential)]
    struct INPUT {{
        public uint type;
        public KEYBDINPUT ki;
        uint pad1; uint pad2;
    }}
    [StructLayout(LayoutKind.Sequential)]
    struct KEYBDINPUT {{
        public ushort wVk;
        public ushort wScan;
        public uint dwFlags;
        public uint time;
        public IntPtr dwExtraInfo;
    }}
    const uint INPUT_KEYBOARD = 1;
    const uint KEYEVENTF_UNICODE = 0x0004;
    const uint KEYEVENTF_KEYUP   = 0x0002;
    const uint KEYEVENTF_EXTENDEDKEY = 0x0001;
    public static void TypeChar(char c) {{
        if (c == '\r') return;
        ushort scan = (ushort)c;
        uint flags = KEYEVENTF_UNICODE;
        if (c == '\n') {{ scan = 0x0D; flags = 0; TypeVK(0x0D); return; }}
        var inputs = new INPUT[2];
        inputs[0].type = INPUT_KEYBOARD;
        inputs[0].ki.wScan = scan;
        inputs[0].ki.dwFlags = flags;
        inputs[1].type = INPUT_KEYBOARD;
        inputs[1].ki.wScan = scan;
        inputs[1].ki.dwFlags = flags | KEYEVENTF_KEYUP;
        SendInput(2, inputs, Marshal.SizeOf(typeof(INPUT)));
    }}
    static void TypeVK(ushort vk) {{
        var inputs = new INPUT[2];
        inputs[0].type = INPUT_KEYBOARD;
        inputs[0].ki.wVk = vk;
        inputs[1].type = INPUT_KEYBOARD;
        inputs[1].ki.wVk = vk;
        inputs[1].ki.dwFlags = KEYEVENTF_KEYUP;
        SendInput(2, inputs, Marshal.SizeOf(typeof(INPUT)));
    }}
}}
"@
$text = [IO.File]::ReadAllText('{guest_text}', [Text.Encoding]::UTF8)
foreach ($ch in $text.ToCharArray()) {{
    [UnicodeKeyboard]::TypeChar($ch)
    Start-Sleep -Milliseconds {delay}
}}
Remove-Item '{guest_text}' -ErrorAction SilentlyContinue
Remove-Item $MyInvocation.MyCommand.Path -ErrorAction SilentlyContinue
"#,
        guest_text = guest_text_path,
        delay = delay_ms,
    )
}

#[test]
fn guest_script_types_each_char_with_the_delay() {
    assert_eq!(guest_script(10), expected_script(10));
    assert_eq!(guest_script(1234), expected_script(1234));
    assert!(guest_script(75).contains("Start-Sleep -Milliseconds 75\n"));
}

#[test]
fn typist_hands_out_the_plan_until_stopped() {
    let mut t = Typist::new(key_strokes("ab\n"));
    assert_eq!(t.next_key(false), Some(KeyStroke::Text('a')));
    assert_eq!(t.next_key(false), Some(KeyStroke::Text('b')));
    assert_eq!(t.next_key(true), None);
    assert_eq!(t.next_key(false), None);
    let mut all = Typist::new(key_strokes("x\t"));
    assert_eq!(all.next_key(false), Some(KeyStroke::Text('x')));
    assert_eq!(all.next_key(false), Some(KeyStroke::Tab));
    assert_eq!(all.next_key(false), None);
    assert_eq!(Typist::new(Vec::new()).next_key(false), None);
}

fn step(next: VmrunStage, report_error: bool, remove_text_file: bool, remove_script_file: bool) -> VmrunStep {
    VmrunStep { next, report_error, remove_text_file, remove_script_file }
}

#[test]
fn guest_run_goes_through_its_steps_in_order() {
    let order = [VmrunStage::Countdown, VmrunStage::PickText, VmrunStage::CheckTool, VmrunStage::WriteText, VmrunStage::CopyText, VmrunStage::WriteScript, VmrunStage::CopyScript, VmrunStage::RunScript, VmrunStage::Finished];
    for w in order.windows(2) {
        if w[0] == VmrunStage::RunScript {
            assert_eq!(vmrun_step(w[0], true), step(VmrunStage::Finished, false, true, true));
        } else {
            assert_eq!(vmrun_step(w[0], true), step(w[1], false, false, false));
        }
    }
    assert_eq!(vmrun_step(VmrunStage::Finished, true), step(VmrunStage::Finished, false, false, false));
}

#[test]
fn guest_run_stops_at_first_failure_and_cleans_up() {
    assert_eq!(vmrun_step(VmrunStage::Countdown, false), step(VmrunStage::Finished, false, false, false));
    assert_eq!(vmrun_step(VmrunStage::PickText, false), step(VmrunStage::Finished, false, false, false));
    assert_eq!(vmrun_step(VmrunStage::CheckTool, false), step(VmrunStage::Finished, true, false, false));
    assert_eq!(vmrun_step(VmrunStage::WriteText, false), step(VmrunStage::Finished, true, false, false));
    assert_eq!(vmrun_step(VmrunStage::CopyText, false), step(VmrunStage::Finished, true, true, false));
    assert_eq!(vmrun_step(VmrunStage::WriteScript, false), step(VmrunStage::Finished, true, true, false));
    assert_eq!(vmrun_step(VmrunStage::CopyScript, false), step(VmrunStage::Finished, true, true, true));
    assert_eq!(vmrun_step(VmrunStage::RunScript, false), step(VmrunStage::Finished, true, true, true));
}

#[test]
fn countdown_waits_out_the_delay_unless_stopped() {
    assert_eq!(countdown_decision(0, 3, false), Countdown::Wait);
    assert_eq!(countdown_decision(2999, 3, false), Countdown::Wait);
    assert_eq!(countdown_decision(3000, 3, false), Countdown::Proceed);
    assert_eq!(countdown_decision(0, 0, false), Countdown::Proceed);
    assert_eq!(countdown_decision(10, 3, true), Countdown::Abort);
    assert_eq!(countdown_decision(5000, 3, true), Countdown::Abort);
    assert_eq!(countdown_decision(0, u64::MAX, false), Countdown::Wait);
}
