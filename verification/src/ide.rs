use vstd::prelude::*;
use vstd::string::StrSliceExecFns;
use vstd::string::StringExecFns;

use crate::text::is_true_output;
use crate::text::output_is_true;
use crate::text::seq_contains;
use crate::text::bytes_contains;

verus! {

/// The display name of the configured IDE at `i`.
pub open spec fn spec_ide_name(i: int) -> Seq<char> {
    if i == 0 {
        "Visual Studio Code"@
    } else if i == 1 {
        "Cursor"@
    } else if i == 2 {
        "Windsurf"@
    } else {
        "Antigravity"@
    }
}

/// The bundle identifier of the configured IDE at `i`.
pub open spec fn spec_ide_bundle_id(i: int) -> Seq<char> {
    if i == 0 {
        "com.microsoft.VSCode"@
    } else if i == 1 {
        "com.todesktop.230313mzl4w4u92"@
    } else if i == 2 {
        "com.exafunction.windsurf"@
    } else {
        "com.google.antigravity"@
    }
}

pub fn ide_name(i: usize) -> (r: &'static str)
    requires
        i < 4,
    ensures
        r@ == spec_ide_name(i as int),
{
    if i == 0 {
        "Visual Studio Code"
    } else if i == 1 {
        "Cursor"
    } else if i == 2 {
        "Windsurf"
    } else {
        "Antigravity"
    }
}

pub fn ide_bundle_id(i: usize) -> (r: &'static str)
    requires
        i < 4,
    ensures
        r@ == spec_ide_bundle_id(i as int),
{
    if i == 0 {
        "com.microsoft.VSCode"
    } else if i == 1 {
        "com.todesktop.230313mzl4w4u92"
    } else if i == 2 {
        "com.exafunction.windsurf"
    } else {
        "com.google.antigravity"
    }
}

/// The probe script asking whether a process with the given bundle
/// identifier is running; it prints `true` or `false`.
pub open spec fn spec_probe_script(bundle_id: Seq<char>) -> Seq<char> {
    "tell application \"System Events\"\n    if exists (every application process whose bundle identifier is \""@
        + bundle_id + "\") then\n        return \"true\"\n    else\n        return \"false\"\n    end if\nend tell\n"@
}

/// Build the probe script for one bundle identifier. The caller runs it
/// through the system's scripting interpreter and hands back the output.
pub fn probe_script(bundle_id: &str) -> (r: String)
    ensures
        r@ == spec_probe_script(bundle_id@),
{
    let mut s = String::from_str(
        "tell application \"System Events\"\n    if exists (every application process whose bundle identifier is \"",
    );
    s.append(bundle_id);
    s.append(
        "\") then\n        return \"true\"\n    else\n        return \"false\"\n    end if\nend tell\n",
    );
    s
}

/// Which configured IDE names the probe outputs report as running: the
/// output at `i` answers for the IDE at `i`, and counts only when it reads
/// `true` once trimmed.
pub open spec fn spec_detected(outputs: Seq<Option<String>>, i: int) -> Seq<Seq<char>>
    decreases 4 - i,
{
    if i < 0 || i >= 4 || i >= outputs.len() {
        Seq::empty()
    } else {
        (if outputs[i] matches Some(out) && is_true_output(out@) {
            seq![spec_ide_name(i)]
        } else {
            Seq::empty()
        }) + spec_detected(outputs, i + 1)
    }
}

/// Decide which IDEs are running from the four probe outputs, one per
/// configured IDE, in configuration order. A probe that failed is `None`
/// and counts as not running.
#[verifier::loop_isolation(false)]
pub fn detect_running_ides(probe_outputs: &Vec<Option<String>>) -> (r: Vec<String>)
    requires
        probe_outputs@.len() == 4,
    ensures
        r.deep_view() == spec_detected(probe_outputs@, 0),
{
    let mut running: Vec<String> = Vec::new();
    let mut i: usize = 0;
    while i < 4
        invariant
            0 <= i <= 4,
            running.deep_view() + spec_detected(probe_outputs@, i as int) == spec_detected(
                probe_outputs@,
                0,
            ),
        decreases 4 - i,
    {
        let ghost before = running.deep_view();
        match &probe_outputs[i] {
            Some(out) => {
                if output_is_true(out.as_str()) {
                    running.push(String::from_str(ide_name(i)));
                    proof {
                        assert(running.deep_view() =~= before.push(spec_ide_name(i as int)));
                        assert(before.push(spec_ide_name(i as int)) + spec_detected(
                            probe_outputs@,
                            i as int + 1,
                        ) =~= before + spec_detected(probe_outputs@, i as int));
                    }
                }
            },
            None => {
            },
        }
        i += 1;
        proof {
            assert(running.deep_view() + spec_detected(probe_outputs@, i as int) =~= spec_detected(
                probe_outputs@,
                0,
            ));
        }
    }
    proof {
        assert(running.deep_view() =~= spec_detected(probe_outputs@, 0));
    }
    running
}

/// How a reload is attempted: for Windsurf, first kill its helper process
/// by command-line pattern and fall back to keystrokes; for the others,
/// send the palette keystrokes directly.
pub struct ReloadPlan {
    pub try_kill_pattern: Option<String>,
    pub script: String,
}

/// The palette command issued to the IDE.
pub open spec fn spec_reload_command(use_window_reload: bool) -> Seq<char> {
    if use_window_reload {
        "Reload Window"@
    } else {
        "Restart Extension Host"@
    }
}

/// The keystroke script that opens the palette and issues the command.
pub open spec fn spec_reload_script(bundle_id: Seq<char>, command: Seq<char>) -> Seq<char> {
    "tell application id \""@ + bundle_id
        + "\"\n    activate\n    delay 0.5\n    tell application \"System Events\"\n        keystroke \"p\" using {command down, shift down}\n        delay 0.5\n        keystroke \""@
        + command + "\"\n        delay 0.5\n        keystroke return\n    end tell\nend tell\n"@
}

pub fn reload_script(bundle_id: &str, use_window_reload: bool) -> (r: String)
    ensures
        r@ == spec_reload_script(bundle_id@, spec_reload_command(use_window_reload)),
{
    let mut s = String::from_str("tell application id \"");
    s.append(bundle_id);
    s.append(
        "\"\n    activate\n    delay 0.5\n    tell application \"System Events\"\n        keystroke \"p\" using {command down, shift down}\n        delay 0.5\n        keystroke \"",
    );
    if use_window_reload {
        s.append("Reload Window");
    } else {
        s.append("Restart Extension Host");
    }
    s.append("\"\n        delay 0.5\n        keystroke return\n    end tell\nend tell\n");
    proof {
        assert(s@ =~= spec_reload_script(bundle_id@, spec_reload_command(use_window_reload)));
    }
    s
}

/// The configured index of an IDE name, if the name is known.
pub open spec fn spec_ide_index(name: Seq<char>) -> Option<int> {
    if name == spec_ide_name(0) {
        Some(0int)
    } else if name == spec_ide_name(1) {
        Some(1int)
    } else if name == spec_ide_name(2) {
        Some(2int)
    } else if name == spec_ide_name(3) {
        Some(3int)
    } else {
        None
    }
}

/// Decide how to reload the named IDE. An unknown name cannot be reloaded.
/// For Windsurf the plan first kills its helper process — it restarts by
/// itself with the fresh token — and falls back to the keystroke script.
pub fn reload_ide_plan(name: &str, use_window_reload: bool) -> (r: Option<ReloadPlan>)
    ensures
        spec_ide_index(name@) is None ==> r is None,
        spec_ide_index(name@) matches Some(i) ==> r matches Some(plan) && {
            &&& plan.script@ == spec_reload_script(
                spec_ide_bundle_id(i),
                spec_reload_command(use_window_reload),
            )
            &&& (name@ == spec_ide_name(2) ==> (plan.try_kill_pattern matches Some(p) && p@
                == "codex app-server"@))
            &&& (name@ != spec_ide_name(2) ==> plan.try_kill_pattern is None)
        },
{
    let mut idx: Option<usize> = None;
    if crate::text::str_eq(name, ide_name(0)) {
        idx = Some(0);
    } else if crate::text::str_eq(name, ide_name(1)) {
        idx = Some(1);
    } else if crate::text::str_eq(name, ide_name(2)) {
        idx = Some(2);
    } else if crate::text::str_eq(name, ide_name(3)) {
        idx = Some(3);
    }
    match idx {
        Some(i) => {
            let try_kill_pattern = if i == 2 {
                Some(String::from_str("codex app-server"))
            } else {
                None
            };
            proof {
                reveal_strlit("Visual Studio Code");
                reveal_strlit("Cursor");
                reveal_strlit("Windsurf");
                reveal_strlit("Antigravity");
                assert(spec_ide_name(0).len() == 18);
                assert(spec_ide_name(1).len() == 6);
                assert(spec_ide_name(2).len() == 8);
                assert(spec_ide_name(3).len() == 11);
                assert(spec_ide_name(0) != spec_ide_name(2));
                assert(spec_ide_name(1) != spec_ide_name(2));
                assert(spec_ide_name(3) != spec_ide_name(2));
            }
            Some(ReloadPlan { try_kill_pattern, script: reload_script(ide_bundle_id(i), use_window_reload) })
        },
        None => None,
    }
}

/// Whether a failed script run means the accessibility permission is
/// missing, judged by the interpreter's error text.
pub fn is_permission_error(stderr: &str) -> (r: bool)
    ensures
        r == seq_contains(
            vstd::utf8::encode_utf8(stderr@),
            vstd::utf8::encode_utf8("1002"@),
        ),
{
    bytes_contains(stderr.as_bytes(), "1002".as_bytes())
}

} // verus!
