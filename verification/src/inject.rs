//! Text injection at the cursor. Three strategies are tried in order: typing
//! with `wtype`, copying to the clipboard with `wl-copy` and pasting with
//! Ctrl+V, and typing with `ydotool` (which needs its daemon). The decisions
//! are a state machine: each step names one command to run, and its outcome
//! selects the next step.

use vstd::prelude::*;
use vstd::string::StringSliceAdditionalSpecFns;
use vstd::utf8::{decode_utf8, encode_utf8, is_char_boundary};

verus! {

/// One step of text injection.
#[derive(Debug, Clone, Copy, PartialEq, Eq, Structural)]
pub enum InjectStep {
    /// Is `wtype` installed?
    CheckWtype,
    /// Type the text with `wtype`; did it succeed?
    TypeWithWtype,
    /// Is `wl-copy` installed?
    CheckWlCopy,
    /// The clipboard paste checks for `wl-copy` once more before using it.
    RecheckWlCopy,
    /// Copy the text to the clipboard with `wl-copy`; did it succeed?
    CopyToClipboard,
    /// Is `ydotool` installed, to press Ctrl+V?
    PasteCheckYdotool,
    /// Is the `ydotoold` daemon running, to press Ctrl+V?
    PasteCheckDaemon,
    /// Press Ctrl+V with `ydotool`; could the command be run?
    PasteWithYdotool,
    /// Is `wtype` installed, to press Ctrl+V?
    PasteCheckWtype,
    /// Press Ctrl+V with `wtype`; could the command be run?
    PasteWithWtype,
    /// Is `ydotool` installed?
    CheckYdotool,
    /// Is the `ydotoold` daemon running?
    CheckYdotoold,
    /// Type the text with `ydotool`; did it succeed?
    TypeWithYdotool,
    /// The text was injected.
    Finished,
    /// Every strategy failed.
    Failed,
}

/// The first step of injecting a text: nothing to do for an empty text.
pub open spec fn first_step(text: Seq<char>) -> InjectStep {
    if text.len() == 0 {
        InjectStep::Finished
    } else {
        InjectStep::CheckWtype
    }
}

/// The step after a step, given its outcome (`ok`: the tool is there, the
/// daemon runs, or the command succeeded).
pub open spec fn next_step(step: InjectStep, ok: bool) -> InjectStep {
    match step {
        InjectStep::CheckWtype => if ok {
            InjectStep::TypeWithWtype
        } else {
            InjectStep::CheckWlCopy
        },
        InjectStep::TypeWithWtype => if ok {
            InjectStep::Finished
        } else {
            InjectStep::CheckWlCopy
        },
        InjectStep::CheckWlCopy => if ok {
            InjectStep::RecheckWlCopy
        } else {
            InjectStep::CheckYdotool
        },
        InjectStep::RecheckWlCopy => if ok {
            InjectStep::CopyToClipboard
        } else {
            InjectStep::CheckYdotool
        },
        InjectStep::CopyToClipboard => if ok {
            InjectStep::PasteCheckYdotool
        } else {
            InjectStep::CheckYdotool
        },
        InjectStep::PasteCheckYdotool => if ok {
            InjectStep::PasteCheckDaemon
        } else {
            InjectStep::PasteCheckWtype
        },
        InjectStep::PasteCheckDaemon => if ok {
            InjectStep::PasteWithYdotool
        } else {
            InjectStep::PasteCheckWtype
        },
        InjectStep::PasteWithYdotool => if ok {
            InjectStep::Finished
        } else {
            InjectStep::CheckYdotool
        },
        InjectStep::PasteCheckWtype => if ok {
            InjectStep::PasteWithWtype
        } else {
            InjectStep::CheckYdotool
        },
        InjectStep::PasteWithWtype => if ok {
            InjectStep::Finished
        } else {
            InjectStep::CheckYdotool
        },
        InjectStep::CheckYdotool => if ok {
            InjectStep::CheckYdotoold
        } else {
            InjectStep::Failed
        },
        InjectStep::CheckYdotoold => if ok {
            InjectStep::TypeWithYdotool
        } else {
            InjectStep::Failed
        },
        InjectStep::TypeWithYdotool => if ok {
            InjectStep::Finished
        } else {
            InjectStep::Failed
        },
        InjectStep::Finished => InjectStep::Finished,
        InjectStep::Failed => InjectStep::Failed,
    }
}

/// Starts injecting a text at the cursor: the first step to perform.
pub fn inject_text(text: &str) -> (r: InjectStep)
    ensures
        r == first_step(text@),
{
    if text.is_empty() {
        InjectStep::Finished
    } else {
        InjectStep::CheckWtype
    }
}

/// The next step of an injection, given the outcome of the current one.
pub fn inject_next(step: InjectStep, ok: bool) -> (r: InjectStep)
    ensures
        r == next_step(step, ok),
{
    match step {
        InjectStep::CheckWtype => if ok {
            InjectStep::TypeWithWtype
        } else {
            InjectStep::CheckWlCopy
        },
        InjectStep::TypeWithWtype => if ok {
            InjectStep::Finished
        } else {
            InjectStep::CheckWlCopy
        },
        InjectStep::CheckWlCopy => if ok {
            InjectStep::RecheckWlCopy
        } else {
            InjectStep::CheckYdotool
        },
        InjectStep::RecheckWlCopy => if ok {
            InjectStep::CopyToClipboard
        } else {
            InjectStep::CheckYdotool
        },
        InjectStep::CopyToClipboard => if ok {
            InjectStep::PasteCheckYdotool
        } else {
            InjectStep::CheckYdotool
        },
        InjectStep::PasteCheckYdotool => if ok {
            InjectStep::PasteCheckDaemon
        } else {
            InjectStep::PasteCheckWtype
        },
        InjectStep::PasteCheckDaemon => if ok {
            InjectStep::PasteWithYdotool
        } else {
            InjectStep::PasteCheckWtype
        },
        InjectStep::PasteWithYdotool => if ok {
            InjectStep::Finished
        } else {
            InjectStep::CheckYdotool
        },
        InjectStep::PasteCheckWtype => if ok {
            InjectStep::PasteWithWtype
        } else {
            InjectStep::CheckYdotool
        },
        InjectStep::PasteWithWtype => if ok {
            InjectStep::Finished
        } else {
            InjectStep::CheckYdotool
        },
        InjectStep::CheckYdotool => if ok {
            InjectStep::CheckYdotoold
        } else {
            InjectStep::Failed
        },
        InjectStep::CheckYdotoold => if ok {
            InjectStep::TypeWithYdotool
        } else {
            InjectStep::Failed
        },
        InjectStep::TypeWithYdotool => if ok {
            InjectStep::Finished
        } else {
            InjectStep::Failed
        },
        InjectStep::Finished => InjectStep::Finished,
        InjectStep::Failed => InjectStep::Failed,
    }
}

/// The step is one of the two ends of an injection.
pub open spec fn is_terminal(step: InjectStep) -> bool {
    step == InjectStep::Finished || step == InjectStep::Failed
}

/// How many steps at most remain before the injection ends.
pub open spec fn steps_left(step: InjectStep) -> nat {
    match step {
        InjectStep::CheckWtype => 13,
        InjectStep::TypeWithWtype => 12,
        InjectStep::CheckWlCopy => 11,
        InjectStep::RecheckWlCopy => 10,
        InjectStep::CopyToClipboard => 9,
        InjectStep::PasteCheckYdotool => 8,
        InjectStep::PasteCheckDaemon => 7,
        InjectStep::PasteWithYdotool => 6,
        InjectStep::PasteCheckWtype => 5,
        InjectStep::PasteWithWtype => 4,
        InjectStep::CheckYdotool => 3,
        InjectStep::CheckYdotoold => 2,
        InjectStep::TypeWithYdotool => 1,
        InjectStep::Finished => 0,
        InjectStep::Failed => 0,
    }
}

/// The step reached from a step after a sequence of outcomes.
pub open spec fn run_steps(step: InjectStep, outcomes: Seq<bool>) -> InjectStep
    decreases outcomes.len(),
{
    if outcomes.len() == 0 {
        step
    } else {
        run_steps(next_step(step, outcomes[0]), outcomes.drop_first())
    }
}

/// Every step that is not an end brings the end closer, whatever its
/// outcome, and an end stays where it is.
pub proof fn lemma_inject_step_progresses(step: InjectStep, ok: bool)
    ensures
        !is_terminal(step) ==> steps_left(next_step(step, ok)) < steps_left(step),
        is_terminal(step) ==> next_step(step, ok) == step,
        steps_left(step) == 0 <==> is_terminal(step),
{
}

/// An injection always ends: after as many outcomes as `steps_left` counts
/// (at most 13), whatever the tools answer, it has finished or failed.
pub proof fn lemma_inject_terminates(step: InjectStep, outcomes: Seq<bool>)
    requires
        outcomes.len() >= steps_left(step),
    ensures
        is_terminal(run_steps(step, outcomes)),
    decreases outcomes.len(),
{
    lemma_inject_step_progresses(step, if outcomes.len() > 0 { outcomes[0] } else { true });
    if outcomes.len() > 0 {
        lemma_inject_terminates(next_step(step, outcomes[0]), outcomes.drop_first());
    }
}

/// Success comes only from a command that injected the text succeeding; the
/// injection fails only once `ydotool` is missing, its daemon is not
/// running, or it failed to type; and a non-empty text always starts by
/// looking for `wtype`.
pub proof fn lemma_inject_outcomes(step: InjectStep, ok: bool, text: Seq<char>)
    ensures
        next_step(step, ok) == InjectStep::Finished && step != InjectStep::Finished ==> ok && (
        step == InjectStep::TypeWithWtype || step == InjectStep::PasteWithYdotool || step
            == InjectStep::PasteWithWtype || step == InjectStep::TypeWithYdotool),
        next_step(step, ok) == InjectStep::Failed && step != InjectStep::Failed ==> !ok && (step
            == InjectStep::CheckYdotool || step == InjectStep::CheckYdotoold || step
            == InjectStep::TypeWithYdotool),
        text.len() > 0 ==> first_step(text) == InjectStep::CheckWtype,
        text.len() == 0 ==> first_step(text) == InjectStep::Finished,
{
}

/// The command line that a step runs, for a text; the ends run nothing.
pub open spec fn step_command(step: InjectStep, text: Seq<char>) -> Option<Seq<Seq<char>>> {
    match step {
        InjectStep::CheckWtype => Some(seq!["which"@, "wtype"@]),
        InjectStep::TypeWithWtype => Some(seq!["wtype"@, "-d"@, "10"@, text]),
        InjectStep::CheckWlCopy => Some(seq!["which"@, "wl-copy"@]),
        InjectStep::RecheckWlCopy => Some(seq!["which"@, "wl-copy"@]),
        InjectStep::CopyToClipboard => Some(seq!["wl-copy"@]),
        InjectStep::PasteCheckYdotool => Some(seq!["which"@, "ydotool"@]),
        InjectStep::PasteCheckDaemon => Some(seq!["pgrep"@, "ydotoold"@]),
        InjectStep::PasteWithYdotool => Some(seq!["ydotool"@, "key"@, "29:1"@, "47:1"@, "47:0"@, "29:0"@]),
        InjectStep::PasteCheckWtype => Some(seq!["which"@, "wtype"@]),
        InjectStep::PasteWithWtype => Some(seq!["wtype"@, "-M"@, "ctrl"@, "v"@]),
        InjectStep::CheckYdotool => Some(seq!["which"@, "ydotool"@]),
        InjectStep::CheckYdotoold => Some(seq!["pgrep"@, "ydotoold"@]),
        InjectStep::TypeWithYdotool => Some(seq!["ydotool"@, "type"@, "--key-delay"@, "10"@, text]),
        InjectStep::Finished => None,
        InjectStep::Failed => None,
    }
}

/// The views of a list of strings.
pub open spec fn strings_view(v: Seq<String>) -> Seq<Seq<char>> {
    v.map_values(|s: String| s@)
}

fn strings(parts: &[&str]) -> (r: Vec<String>)
    ensures
        strings_view(r@) == parts@.map_values(|s: &str| s@),
{
    let mut r: Vec<String> = Vec::new();
    let mut i: usize = 0;
    while i < parts.len()
        invariant
            i <= parts@.len(),
            strings_view(r@) == parts@.take(i as int).map_values(|s: &str| s@),
        decreases parts@.len() - i,
    {
        let ghost prev = strings_view(r@);
        r.push(parts[i].to_owned());
        assert(strings_view(r@) =~= prev.push(parts@[i as int]@));
        assert(parts@.take(i + 1) =~= parts@.take(i as int).push(parts@[i as int]));
        assert(strings_view(r@) =~= parts@.take(i + 1).map_values(|s: &str| s@));
        i = i + 1;
    }
    assert(parts@.take(parts@.len() as int) =~= parts@);
    r
}

/// The command line that a step runs. For the clipboard copy the text goes
/// to the command's standard input.
pub fn inject_command(step: InjectStep, text: &str) -> (r: Option<Vec<String>>)
    ensures
        match r {
            Some(v) => step_command(step, text@) == Some(strings_view(v@)),
            None => step_command(step, text@) is None,
        },
{
    proof {
        reveal_strlit("which");
    }
    let parts: Vec<&str> = match step {
        InjectStep::CheckWtype => vec!["which", "wtype"],
        InjectStep::TypeWithWtype => vec!["wtype", "-d", "10", text],
        InjectStep::CheckWlCopy => vec!["which", "wl-copy"],
        InjectStep::RecheckWlCopy => vec!["which", "wl-copy"],
        InjectStep::CopyToClipboard => vec!["wl-copy"],
        InjectStep::PasteCheckYdotool => vec!["which", "ydotool"],
        InjectStep::PasteCheckDaemon => vec!["pgrep", "ydotoold"],
        InjectStep::PasteWithYdotool => vec!["ydotool", "key", "29:1", "47:1", "47:0", "29:0"],
        InjectStep::PasteCheckWtype => vec!["which", "wtype"],
        InjectStep::PasteWithWtype => vec!["wtype", "-M", "ctrl", "v"],
        InjectStep::CheckYdotool => vec!["which", "ydotool"],
        InjectStep::CheckYdotoold => vec!["pgrep", "ydotoold"],
        InjectStep::TypeWithYdotool => vec!["ydotool", "type", "--key-delay", "10", text],
        InjectStep::Finished => {
            return None;
        },
        InjectStep::Failed => {
            return None;
        },
    };
    let r = strings(parts.as_slice());
    assert(strings_view(r@) =~= step_command(step, text@).unwrap());
    Some(r)
}

/// The error reported when every strategy failed.
pub fn failure_message() -> (r: String)
    ensures
        r@ == "All injection methods failed. Install wtype or wl-clipboard."@,
{
    String::from_str("All injection methods failed. Install wtype or wl-clipboard.")
}

/// The largest character boundary of UTF-8 bytes at or below a position.
pub open spec fn floor_char_boundary(bytes: Seq<u8>, i: int) -> int
    decreases i,
{
    if i <= 0 {
        0
    } else if is_char_boundary(bytes, i) {
        i
    } else {
        floor_char_boundary(bytes, i - 1)
    }
}

/// Cuts a string to at most `max` bytes for display, marking the cut with
/// `...`. The cut falls on the last character boundary at or below `max`, so
/// no character is split.
pub fn truncate(s: &str, max: usize) -> (r: String)
    ensures
        encode_utf8(s@).len() <= max ==> r@ == s@,
        encode_utf8(s@).len() > max ==> r@ == decode_utf8(
            encode_utf8(s@).subrange(0, floor_char_boundary(encode_utf8(s@), max as int)),
        ) + "..."@,
{
    if s.as_bytes().len() <= max {
        s.to_owned()
    } else {
        let ghost bytes = encode_utf8(s@);
        let mut k: usize = max;
        while k > 0 && !s.is_char_boundary(k)
            invariant
                bytes == encode_utf8(s@),
                k <= max,
                floor_char_boundary(bytes, k as int) == floor_char_boundary(bytes, max as int),
            decreases k,
        {
            k = k - 1;
        }
        proof {
            broadcast use vstd::utf8::group_utf8_lib;

            assert(is_char_boundary(bytes, 0));
            assert(floor_char_boundary(bytes, k as int) == k);
        }
        let (head, _tail) = s.split_at(k);
        proof {
            broadcast use vstd::utf8::group_utf8_lib;

            assert(head.spec_bytes() == bytes.subrange(0, k as int));
            assert(encode_utf8(head@) == bytes.subrange(0, k as int));
            assert(decode_utf8(encode_utf8(head@)) == head@);
        }
        let mut r = head.to_owned();
        r.append("...");
        r
    }
}

/// Why an injection step that failed left its strategy, where the step says
/// so: the clipboard paste found no `wl-copy` or no key simulator to press
/// Ctrl+V, or `ydotool` is there but its daemon is not running.
pub open spec fn step_failure_reason_spec(step: InjectStep, ok: bool) -> Option<Seq<char>> {
    if ok {
        None
    } else {
        match step {
            InjectStep::RecheckWlCopy => Some("clipboard paste failed: wl-copy not found"@),
            InjectStep::PasteCheckWtype => Some(
                "clipboard paste failed: No key simulator available for paste"@,
            ),
            InjectStep::CheckYdotoold => Some("ydotool found but ydotoold daemon not running"@),
            _ => None,
        }
    }
}

/// The reason to report when a step's outcome ends its strategy, if the step
/// gives one.
pub fn step_failure_reason(step: InjectStep, ok: bool) -> (r: Option<String>)
    ensures
        match r {
            Some(m) => step_failure_reason_spec(step, ok) == Some(m@),
            None => step_failure_reason_spec(step, ok) is None,
        },
{
    if ok {
        return None;
    }
    match step {
        InjectStep::RecheckWlCopy => Some(String::from_str("clipboard paste failed: wl-copy not found")),
        InjectStep::PasteCheckWtype => Some(
            String::from_str("clipboard paste failed: No key simulator available for paste"),
        ),
        InjectStep::CheckYdotoold => Some(String::from_str("ydotool found but ydotoold daemon not running")),
        _ => None,
    }
}

/// How a step's command is run, and what counts as its outcome being `ok`.
#[derive(Debug, Clone, Copy, PartialEq, Eq, Structural)]
pub enum StepRun {
    /// A check: `ok` when the command runs and exits successfully.
    Probe,
    /// Typing the text: `ok` when the command runs and exits successfully.
    TypeText,
    /// Copying: the text is written to the command's standard input; `ok`
    /// when it runs and exits successfully.
    CopyText,
    /// Pressing Ctrl+V: `ok` when the command could be run, whatever its
    /// exit status.
    PressKeys,
}

/// How each step runs its command.
pub open spec fn step_run_spec(step: InjectStep) -> Option<StepRun> {
    match step {
        InjectStep::TypeWithWtype | InjectStep::TypeWithYdotool => Some(StepRun::TypeText),
        InjectStep::CopyToClipboard => Some(StepRun::CopyText),
        InjectStep::PasteWithYdotool | InjectStep::PasteWithWtype => Some(StepRun::PressKeys),
        InjectStep::Finished | InjectStep::Failed => None,
        _ => Some(StepRun::Probe),
    }
}

/// How a step runs its command; the ends run nothing.
pub fn step_run(step: InjectStep) -> (r: Option<StepRun>)
    ensures
        r == step_run_spec(step),
{
    match step {
        InjectStep::TypeWithWtype | InjectStep::TypeWithYdotool => Some(StepRun::TypeText),
        InjectStep::CopyToClipboard => Some(StepRun::CopyText),
        InjectStep::PasteWithYdotool | InjectStep::PasteWithWtype => Some(StepRun::PressKeys),
        InjectStep::Finished | InjectStep::Failed => None,
        _ => Some(StepRun::Probe),
    }
}

/// Once the text is on the clipboard, Ctrl+V is pressed with `ydotool` when
/// it is installed and its daemon runs, and otherwise with `wtype`: whatever
/// `ydotool` answers, a `wtype` that is found and runs pastes the text.
pub proof fn lemma_paste_falls_back_to_wtype(ydotool_found: bool, daemon_running: bool)
    ensures
        ydotool_found && daemon_running ==> run_steps(
            InjectStep::CopyToClipboard,
            seq![true, true, true, true],
        ) == InjectStep::Finished,
        !ydotool_found ==> run_steps(
            InjectStep::CopyToClipboard,
            seq![true, false, true, true],
        ) == InjectStep::Finished,
        ydotool_found && !daemon_running ==> run_steps(
            InjectStep::CopyToClipboard,
            seq![true, true, false, true, true],
        ) == InjectStep::Finished,
        !(ydotool_found && daemon_running) ==> run_steps(
            InjectStep::PasteCheckYdotool,
            if ydotool_found {
                seq![true, false]
            } else {
                seq![false]
            },
        ) == InjectStep::PasteCheckWtype,
{
    reveal_with_fuel(run_steps, 6);
}

/// Starting from any text, when every check finds its tool and wtype
/// succeeds, the text is typed by wtype; when wtype fails but the clipboard
/// works and wtype can still press Ctrl+V, it is pasted, whatever ydotool's
/// daemon does.
pub proof fn lemma_inject_uses_available_tools(daemon_running: bool)
    ensures
        run_steps(InjectStep::CheckWtype, seq![true, true]) == InjectStep::Finished,
        run_steps(
            InjectStep::CheckWtype,
            seq![true, false, true, true, true, true, daemon_running, true, true],
        ) == InjectStep::Finished,
{
    reveal_with_fuel(run_steps, 10);
}

} // verus!
