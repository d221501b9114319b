//! First-run setup: the runtime dependencies and how their check goes, the
//! reading of the user's groups, the start of the `ydotoold` daemon, and the
//! configuration that the setup wizard builds from the user's answers.

use vstd::prelude::*;

use crate::applet::{hotkey_label, hotkey_label_spec, join_with};
use crate::config::{default_modifiers_spec, AudioConfig, Config, HotkeyConfig, SttConfig};
use vstd::utf8::is_ascii_chars;
use crate::text::{ascii_uppercase, uppercase, lemma_words_from_nonempty, split_words, str_eq, words};

verus! {

/// A program the daemon needs, the package that provides it, and the
/// command that installs that package.
#[derive(Debug, Clone)]
pub struct Dependency {
    pub bin: String,
    pub package: String,
    pub install_command: Vec<String>,
}

/// The views of a list of strings.
pub open spec fn strings_view(v: Seq<String>) -> Seq<Seq<char>> {
    v.map_values(|s: String| s@)
}

/// A dependency by its plain values: program, package, install command.
pub open spec fn dependency_view(d: Dependency) -> (Seq<char>, Seq<char>, Seq<Seq<char>>) {
    (d.bin@, d.package@, strings_view(d.install_command@))
}

/// The runtime dependencies: `arecord` from alsa-utils for audio capture and
/// `ydotool` for text injection.
pub open spec fn runtime_dependencies_spec() -> Seq<(Seq<char>, Seq<char>, Seq<Seq<char>>)> {
    seq![
        ("arecord"@, "alsa-utils"@, seq!["sudo"@, "apt"@, "install"@, "-y"@, "alsa-utils"@]),
        ("ydotool"@, "ydotool"@, seq!["sudo"@, "apt"@, "install"@, "-y"@, "ydotool"@]),
    ]
}

fn install_command(package: &str) -> (r: Vec<String>)
    ensures
        strings_view(r@) == seq!["sudo"@, "apt"@, "install"@, "-y"@, package@],
{
    let r = vec![
        String::from_str("sudo"),
        String::from_str("apt"),
        String::from_str("install"),
        String::from_str("-y"),
        package.to_owned(),
    ];
    assert(strings_view(r@) =~= seq!["sudo"@, "apt"@, "install"@, "-y"@, package@]);
    r
}

/// The runtime dependencies, in the order they are checked.
pub fn runtime_dependencies() -> (r: Vec<Dependency>)
    ensures
        r@.map_values(|d: Dependency| dependency_view(d)) == runtime_dependencies_spec(),
{
    let r = vec![
        Dependency {
            bin: String::from_str("arecord"),
            package: String::from_str("alsa-utils"),
            install_command: install_command("alsa-utils"),
        },
        Dependency {
            bin: String::from_str("ydotool"),
            package: String::from_str("ydotool"),
            install_command: install_command("ydotool"),
        },
    ];
    assert(r@.map_values(|d: Dependency| dependency_view(d)) =~= runtime_dependencies_spec());
    r
}

/// One step of checking a dependency.
#[derive(Debug, Clone, Copy, PartialEq, Eq, Structural)]
pub enum DepStep {
    /// Is the program on the PATH?
    CheckPresent,
    /// Run the install command; did it exit successfully?
    Install,
    /// Is the program on the PATH now?
    Recheck,
    /// The program is available.
    Present,
    /// The program is still missing.
    Missing,
}

/// The step after a step of a dependency check, given its outcome.
pub open spec fn dep_next_spec(step: DepStep, ok: bool) -> DepStep {
    match step {
        DepStep::CheckPresent => if ok {
            DepStep::Present
        } else {
            DepStep::Install
        },
        DepStep::Install => if ok {
            DepStep::Recheck
        } else {
            DepStep::Missing
        },
        DepStep::Recheck => if ok {
            DepStep::Present
        } else {
            DepStep::Missing
        },
        DepStep::Present => DepStep::Present,
        DepStep::Missing => DepStep::Missing,
    }
}

/// Where the check of a dependency begins.
pub fn dep_first() -> (r: DepStep)
    ensures
        r == DepStep::CheckPresent,
{
    DepStep::CheckPresent
}

/// The next step of a dependency check. A missing program is installed;
/// an install that fails, or after which the program is still not found,
/// leaves it missing.
pub fn dep_next(step: DepStep, ok: bool) -> (r: DepStep)
    ensures
        r == dep_next_spec(step, ok),
{
    match step {
        DepStep::CheckPresent => if ok {
            DepStep::Present
        } else {
            DepStep::Install
        },
        DepStep::Install => if ok {
            DepStep::Recheck
        } else {
            DepStep::Missing
        },
        DepStep::Recheck => if ok {
            DepStep::Present
        } else {
            DepStep::Missing
        },
        DepStep::Present => DepStep::Present,
        DepStep::Missing => DepStep::Missing,
    }
}

/// The command a step of a dependency check runs.
pub open spec fn dep_command_spec(step: DepStep, d: (Seq<char>, Seq<char>, Seq<Seq<char>>)) -> Option<
    Seq<Seq<char>>,
> {
    match step {
        DepStep::CheckPresent => Some(seq!["which"@, d.0]),
        DepStep::Install => Some(d.2),
        DepStep::Recheck => Some(seq!["which"@, d.0]),
        _ => None,
    }
}

/// The command a step of a dependency check runs.
pub fn dep_command(step: DepStep, dep: &Dependency) -> (r: Option<Vec<String>>)
    ensures
        match r {
            Some(v) => dep_command_spec(step, dependency_view(*dep)) == Some(strings_view(v@)),
            None => dep_command_spec(step, dependency_view(*dep)) is None,
        },
{
    match step {
        DepStep::CheckPresent | DepStep::Recheck => {
            let r = vec![String::from_str("which"), dep.bin.clone()];
            assert(strings_view(r@) =~= seq!["which"@, dep.bin@]);
            Some(r)
        },
        DepStep::Install => {
            let mut r: Vec<String> = Vec::new();
            let n: usize = dep.install_command.len();
            let mut i: usize = 0;
            while i < n
                invariant
                    n == dep.install_command@.len(),
                    i <= n,
                    strings_view(r@) == strings_view(dep.install_command@).take(i as int),
                decreases n - i,
            {
                let ghost before = strings_view(r@);
                r.push(dep.install_command[i].clone());
                assert(strings_view(r@) =~= before.push(dep.install_command@[i as int]@));
                assert(strings_view(dep.install_command@).take(i + 1) =~= strings_view(
                    dep.install_command@,
                ).take(i as int).push(dep.install_command@[i as int]@));
                i = i + 1;
            }
            assert(strings_view(dep.install_command@).take(n as int) =~= strings_view(
                dep.install_command@,
            ));
            Some(r)
        },
        _ => None,
    }
}

/// The packages whose check ended missing, in order: what to install.
pub open spec fn missing_spec(deps: Seq<(Seq<char>, Seq<char>, Seq<Seq<char>>)>, outcomes: Seq<DepStep>) -> Seq<
    Seq<char>,
>
    decreases outcomes.len(),
{
    if outcomes.len() == 0 || deps.len() == 0 {
        seq![]
    } else {
        let rest = missing_spec(deps.drop_last(), outcomes.drop_last());
        if outcomes.last() == DepStep::Missing {
            rest.push(deps.last().1)
        } else {
            rest
        }
    }
}

/// The packages that are still missing after their checks, in the order of
/// the dependencies; `outcomes[i]` is where the check of `deps[i]` ended.
pub fn missing_packages(deps: &[Dependency], outcomes: &[DepStep]) -> (r: Vec<String>)
    requires
        deps@.len() == outcomes@.len(),
    ensures
        strings_view(r@) == missing_spec(
            deps@.map_values(|d: Dependency| dependency_view(d)),
            outcomes@,
        ),
{
    let ghost dv = deps@.map_values(|d: Dependency| dependency_view(d));
    let mut r: Vec<String> = Vec::new();
    let n: usize = deps.len();
    let mut i: usize = 0;
    while i < n
        invariant
            n == deps@.len(),
            n == outcomes@.len(),
            dv == deps@.map_values(|d: Dependency| dependency_view(d)),
            i <= n,
            strings_view(r@) == missing_spec(dv.take(i as int), outcomes@.take(i as int)),
        decreases n - i,
    {
        let ghost before = strings_view(r@);
        assert(dv.take(i + 1).drop_last() =~= dv.take(i as int));
        assert(outcomes@.take(i + 1).drop_last() =~= outcomes@.take(i as int));
        if outcomes[i] == DepStep::Missing {
            r.push(deps[i].package.clone());
            assert(strings_view(r@) =~= before.push(deps@[i as int].package@));
        }
        i = i + 1;
    }
    assert(dv.take(n as int) =~= dv);
    assert(outcomes@.take(n as int) =~= outcomes@);
    r
}

/// The programs whose check ended missing, in order.
pub open spec fn missing_programs_spec(
    deps: Seq<(Seq<char>, Seq<char>, Seq<Seq<char>>)>,
    outcomes: Seq<DepStep>,
) -> Seq<Seq<char>>
    decreases outcomes.len(),
{
    if outcomes.len() == 0 || deps.len() == 0 {
        seq![]
    } else {
        let rest = missing_programs_spec(deps.drop_last(), outcomes.drop_last());
        if outcomes.last() == DepStep::Missing {
            rest.push(deps.last().0)
        } else {
            rest
        }
    }
}

/// The programs that are still missing after their checks, in the order of
/// the dependencies; `outcomes[i]` is where the check of `deps[i]` ended.
pub fn missing_programs(deps: &[Dependency], outcomes: &[DepStep]) -> (r: Vec<String>)
    requires
        deps@.len() == outcomes@.len(),
    ensures
        strings_view(r@) == missing_programs_spec(
            deps@.map_values(|d: Dependency| dependency_view(d)),
            outcomes@,
        ),
{
    let ghost dv = deps@.map_values(|d: Dependency| dependency_view(d));
    let mut r: Vec<String> = Vec::new();
    let n: usize = deps.len();
    let mut i: usize = 0;
    while i < n
        invariant
            n == deps@.len(),
            n == outcomes@.len(),
            dv == deps@.map_values(|d: Dependency| dependency_view(d)),
            i <= n,
            strings_view(r@) == missing_programs_spec(dv.take(i as int), outcomes@.take(i as int)),
        decreases n - i,
    {
        let ghost before = strings_view(r@);
        assert(dv.take(i + 1).drop_last() =~= dv.take(i as int));
        assert(outcomes@.take(i + 1).drop_last() =~= outcomes@.take(i as int));
        if outcomes[i] == DepStep::Missing {
            r.push(deps[i].bin.clone());
            assert(strings_view(r@) =~= before.push(deps@[i as int].bin@));
        }
        i = i + 1;
    }
    assert(dv.take(n as int) =~= dv);
    assert(outcomes@.take(n as int) =~= outcomes@);
    r
}

/// The report of missing programs, e.g. `Missing dependencies: arecord`.
pub fn missing_report(programs: &[String]) -> (r: String)
    ensures
        r@ == "Missing dependencies: "@ + join_with(strings_view(programs@), ", "@),
{
    let ghost names = strings_view(programs@);
    let mut r = String::from_str("Missing dependencies: ");
    let ghost prefix = r@;
    let n: usize = programs.len();
    let mut i: usize = 0;
    while i < n
        invariant
            n == programs@.len(),
            names == strings_view(programs@),
            prefix == "Missing dependencies: "@,
            i <= n,
            r@ == prefix + join_with(names.take(i as int), ", "@),
        decreases n - i,
    {
        if i > 0 {
            r.append(", ");
        }
        r.append(programs[i].as_str());
        assert(names.take(i + 1).drop_last() =~= names.take(i as int));
        assert(r@ =~= prefix + join_with(names.take(i + 1), ", "@));
        i = i + 1;
    }
    assert(names.take(n as int) =~= names);
    r
}

/// Whether the output of `groups` lists the `input` group, whose members can
/// read keyboard events.
pub fn groups_include_input(groups_output: &str) -> (r: bool)
    ensures
        r == words(groups_output@).contains("input"@),
{
    let ws = split_words(groups_output);
    let ghost wv = ws@.map_values(|w: String| w@);
    let n: usize = ws.len();
    let mut i: usize = 0;
    while i < n
        invariant
            n == ws@.len(),
            wv == ws@.map_values(|w: String| w@),
            wv == words(groups_output@),
            i <= n,
            forall|k: int| 0 <= k < i ==> wv[k] != "input"@,
        decreases n - i,
    {
        if str_eq(ws[i].as_str(), "input") {
            assert(wv[i as int] == "input"@);
            return true;
        }
        i = i + 1;
    }
    false
}

/// One step of making sure the `ydotoold` daemon runs.
#[derive(Debug, Clone, Copy, PartialEq, Eq, Structural)]
pub enum DaemonStep {
    /// Is `ydotool` installed?
    CheckYdotool,
    /// Is `ydotoold` running?
    CheckDaemon,
    /// Start `ydotoold`.
    StartDaemon,
    /// Nothing more to do.
    Done,
}

/// The step after a step of the daemon check, given its outcome: the daemon
/// is started only when `ydotool` is installed and the daemon is not running.
pub open spec fn daemon_next_spec(step: DaemonStep, ok: bool) -> DaemonStep {
    match step {
        DaemonStep::CheckYdotool => if ok {
            DaemonStep::CheckDaemon
        } else {
            DaemonStep::Done
        },
        DaemonStep::CheckDaemon => if ok {
            DaemonStep::Done
        } else {
            DaemonStep::StartDaemon
        },
        DaemonStep::StartDaemon => DaemonStep::Done,
        DaemonStep::Done => DaemonStep::Done,
    }
}

/// The next step of the daemon check.
pub fn daemon_next(step: DaemonStep, ok: bool) -> (r: DaemonStep)
    ensures
        r == daemon_next_spec(step, ok),
{
    match step {
        DaemonStep::CheckYdotool => if ok {
            DaemonStep::CheckDaemon
        } else {
            DaemonStep::Done
        },
        DaemonStep::CheckDaemon => if ok {
            DaemonStep::Done
        } else {
            DaemonStep::StartDaemon
        },
        DaemonStep::StartDaemon => DaemonStep::Done,
        DaemonStep::Done => DaemonStep::Done,
    }
}

/// The command a step of the daemon check runs.
pub open spec fn daemon_command_spec(step: DaemonStep) -> Option<Seq<Seq<char>>> {
    match step {
        DaemonStep::CheckYdotool => Some(seq!["which"@, "ydotool"@]),
        DaemonStep::CheckDaemon => Some(seq!["pgrep"@, "ydotoold"@]),
        DaemonStep::StartDaemon => Some(seq!["ydotoold"@, "--socket-path=/tmp/.ydotool_socket"@]),
        DaemonStep::Done => None,
    }
}

/// The command a step of the daemon check runs.
pub fn daemon_command(step: DaemonStep) -> (r: Option<Vec<String>>)
    ensures
        match r {
            Some(v) => daemon_command_spec(step) == Some(strings_view(v@)),
            None => daemon_command_spec(step) is None,
        },
{
    let r = match step {
        DaemonStep::CheckYdotool => vec![String::from_str("which"), String::from_str("ydotool")],
        DaemonStep::CheckDaemon => vec![String::from_str("pgrep"), String::from_str("ydotoold")],
        DaemonStep::StartDaemon => vec![
            String::from_str("ydotoold"),
            String::from_str("--socket-path=/tmp/.ydotool_socket"),
        ],
        DaemonStep::Done => {
            return None;
        },
    };
    assert(strings_view(r@) =~= daemon_command_spec(step).unwrap());
    Some(r)
}

} // verus!
verus! {

/// The model choices offered by the wizard; the model is the first word.
pub open spec fn model_choices_spec() -> Seq<Seq<char>> {
    seq![
        "nova-2-general (recommended, fastest)"@,
        "nova-2 (best accuracy)"@,
        "base (fastest, lower accuracy)"@,
    ]
}

/// The language choices offered by the wizard: code and label.
pub open spec fn language_choices_spec() -> Seq<(Seq<char>, Seq<char>)> {
    seq![
        ("en"@, "English"@),
        ("auto"@, "Auto-detect"@),
        ("fr"@, "French"@),
        ("es"@, "Spanish"@),
        ("de"@, "German"@),
        ("ar"@, "Arabic"@),
        ("zh"@, "Chinese"@),
        ("ja"@, "Japanese"@),
        ("ko"@, "Korean"@),
    ]
}

/// The labels of the model choices, in the order offered.
pub fn model_choices() -> (r: Vec<String>)
    ensures
        strings_view(r@) == model_choices_spec(),
{
    let r = vec![
        String::from_str("nova-2-general (recommended, fastest)"),
        String::from_str("nova-2 (best accuracy)"),
        String::from_str("base (fastest, lower accuracy)"),
    ];
    assert(strings_view(r@) =~= model_choices_spec());
    r
}

/// The language choices, code and label, in the order offered.
pub fn language_choices() -> (r: Vec<(String, String)>)
    ensures
        r@.map_values(|p: (String, String)| (p.0@, p.1@)) == language_choices_spec(),
{
    let r = vec![
        (String::from_str("en"), String::from_str("English")),
        (String::from_str("auto"), String::from_str("Auto-detect")),
        (String::from_str("fr"), String::from_str("French")),
        (String::from_str("es"), String::from_str("Spanish")),
        (String::from_str("de"), String::from_str("German")),
        (String::from_str("ar"), String::from_str("Arabic")),
        (String::from_str("zh"), String::from_str("Chinese")),
        (String::from_str("ja"), String::from_str("Japanese")),
        (String::from_str("ko"), String::from_str("Korean")),
    ];
    assert(r@.map_values(|p: (String, String)| (p.0@, p.1@)) =~= language_choices_spec());
    r
}

/// The labels of the language choices, in the order offered.
pub fn language_labels() -> (r: Vec<String>)
    ensures
        strings_view(r@) == language_choices_spec().map_values(
            |p: (Seq<char>, Seq<char>)| p.1,
        ),
{
    let choices = language_choices();
    let ghost cv = choices@.map_values(|p: (String, String)| (p.0@, p.1@));
    let ghost labels = language_choices_spec().map_values(|p: (Seq<char>, Seq<char>)| p.1);
    let mut r: Vec<String> = Vec::new();
    let n: usize = choices.len();
    let mut i: usize = 0;
    while i < n
        invariant
            n == choices@.len(),
            cv == choices@.map_values(|p: (String, String)| (p.0@, p.1@)),
            cv == language_choices_spec(),
            labels == language_choices_spec().map_values(|p: (Seq<char>, Seq<char>)| p.1),
            i <= n,
            strings_view(r@) == labels.take(i as int),
        decreases n - i,
    {
        let ghost before = strings_view(r@);
        r.push(choices[i].1.clone());
        assert(cv[i as int] == (choices@[i as int].0@, choices@[i as int].1@));
        assert(strings_view(r@) =~= before.push(choices@[i as int].1@));
        assert(labels.take(i + 1) =~= labels.take(i as int).push(labels[i as int]));
        i = i + 1;
    }
    assert(labels.take(n as int) =~= labels);
    r
}

/// The model named by a choice label: its first word.
pub fn model_from_label(label: &str) -> (r: String)
    requires
        words(label@).len() > 0,
    ensures
        r@ == words(label@)[0],
{
    let ws = split_words(label);
    assert(ws@.map_values(|w: String| w@)[0] == ws@[0]@);
    ws[0].clone()
}

/// The model of the wizard's choice at an index.
pub fn wizard_model(index: usize) -> (r: String)
    requires
        index < model_choices_spec().len(),
    ensures
        r@ == words(model_choices_spec()[index as int])[0],
{
    let choices = model_choices();
    proof {
        reveal_strlit("nova-2-general (recommended, fastest)");
        reveal_strlit("nova-2 (best accuracy)");
        reveal_strlit("base (fastest, lower accuracy)");
        assert(choices@[index as int]@ == model_choices_spec()[index as int]);
        lemma_words_from_nonempty(choices@[index as int]@, seq![]);
    }
    model_from_label(choices[index].as_str())
}

/// The language code of the wizard's choice at an index.
pub fn wizard_language(index: usize) -> (r: String)
    requires
        index < language_choices_spec().len(),
    ensures
        r@ == language_choices_spec()[index as int].0,
{
    let choices = language_choices();
    assert(choices@.map_values(|p: (String, String)| (p.0@, p.1@))[index as int] == (
        choices@[index as int].0@,
        choices@[index as int].1@,
    ));
    choices[index].0.clone()
}

/// The API key the wizard keeps: the one entered, or, when none was entered,
/// the one from the environment.
pub fn resolve_api_key(entered: String, env_key: Option<String>) -> (r: Option<String>)
    ensures
        entered@.len() == 0 ==> r == env_key,
        entered@.len() > 0 ==> r == Some(entered),
{
    if entered.as_str().is_empty() {
        env_key
    } else {
        Some(entered)
    }
}

/// The hotkeys the wizard offers, as modifiers and key; the first, Ctrl+Space,
/// is the default.
pub open spec fn hotkey_choices_spec() -> Seq<(Seq<Seq<char>>, Seq<char>)> {
    seq![
        (seq!["ctrl"@], "space"@),
        (seq!["super"@], "space"@),
        (seq!["alt"@], "space"@),
        (seq!["ctrl"@, "shift"@], "space"@),
    ]
}

/// The hotkey of the wizard's choice at an index.
pub fn wizard_hotkey(index: usize) -> (r: HotkeyConfig)
    requires
        index < hotkey_choices_spec().len(),
    ensures
        strings_view(r.modifiers@) == hotkey_choices_spec()[index as int].0,
        r.key@ == hotkey_choices_spec()[index as int].1,
        index == 0 ==> strings_view(r.modifiers@) == default_modifiers_spec() && r.key@
            == "space"@,
{
    let modifiers = if index == 0 {
        vec![String::from_str("ctrl")]
    } else if index == 1 {
        vec![String::from_str("super")]
    } else if index == 2 {
        vec![String::from_str("alt")]
    } else {
        vec![String::from_str("ctrl"), String::from_str("shift")]
    };
    assert(strings_view(modifiers@) =~= hotkey_choices_spec()[index as int].0);
    HotkeyConfig { modifiers, key: String::from_str("space") }
}

/// The labels of the hotkey choices, in the order offered, e.g. `Ctrl+SPACE`.
pub fn hotkey_choice_labels() -> (r: Vec<String>)
    ensures
        r@.len() == hotkey_choices_spec().len(),
        forall|i: int|
            0 <= i < r@.len() ==> #[trigger] r@[i]@ == hotkey_label_spec(
                hotkey_choices_spec()[i].0,
                hotkey_choices_spec()[i].1,
            ),
        uppercase("space"@) == ascii_uppercase("space"@),
{
    proof {
        reveal_strlit("space");
    }
    let mut r: Vec<String> = Vec::new();
    let mut i: usize = 0;
    while i < 4
        invariant
            i <= 4,
            r@.len() == i,
            forall|k: int|
                0 <= k < i ==> #[trigger] r@[k]@ == hotkey_label_spec(
                    hotkey_choices_spec()[k].0,
                    hotkey_choices_spec()[k].1,
                ),
            i > 0 ==> uppercase("space"@) == ascii_uppercase("space"@),
        decreases 4 - i,
    {
        let h = wizard_hotkey(i);
        proof {
            reveal_strlit("space");
            assert(is_ascii_chars(h.key@));
        }
        let label = hotkey_label(h.modifiers.as_slice(), h.key.as_str());
        assert(h.modifiers@.map_values(|m: String| m@) == strings_view(h.modifiers@));
        r.push(label);
        i = i + 1;
    }
    r
}

/// The configuration the wizard writes: the chosen hotkey, API key, model
/// and language, and 16 kHz mono audio.
pub fn wizard_config(
    api_key: Option<String>,
    hotkey: HotkeyConfig,
    model: String,
    language: String,
) -> (r: Config)
    ensures
        r.hotkey == hotkey,
        r.stt.api_key == api_key,
        r.stt.model == model,
        r.stt.language == language,
        r.audio.sample_rate == 16000,
        r.audio.channels == 1,
{
    Config {
        hotkey,
        stt: SttConfig { api_key, model, language },
        audio: AudioConfig { sample_rate: 16000, channels: 1 },
    }
}

/// The step of the daemon check reached after a sequence of outcomes.
pub open spec fn daemon_run(step: DaemonStep, outcomes: Seq<bool>) -> DaemonStep
    decreases outcomes.len(),
{
    if outcomes.len() == 0 {
        step
    } else {
        daemon_run(daemon_next_spec(step, outcomes[0]), outcomes.drop_first())
    }
}

/// Starting the daemon ends the check whatever comes of it, so the daemon is
/// started at most once; the check is over after three outcomes whatever
/// they are; and the daemon is started exactly when `ydotool` is found and
/// its daemon is not running.
pub proof fn lemma_daemon_started_at_most_once(ok: bool, outcomes: Seq<bool>)
    requires
        outcomes.len() >= 3,
    ensures
        daemon_next_spec(DaemonStep::StartDaemon, ok) == DaemonStep::Done,
        daemon_run(DaemonStep::CheckYdotool, outcomes) == DaemonStep::Done,
        daemon_run(DaemonStep::CheckYdotool, outcomes.take(2)) == DaemonStep::StartDaemon
            <==> (outcomes[0] && !outcomes[1]),
{
    reveal_with_fuel(daemon_run, 4);
    let o = outcomes;
    assert(o.take(2).drop_first() =~= seq![o[1]]);
    assert(o.take(2).drop_first().drop_first() =~= Seq::<bool>::empty());
    assert(o.drop_first().drop_first().drop_first().len() == o.len() - 3);
    if o.len() > 3 {
        lemma_daemon_done_stays(o.drop_first().drop_first().drop_first());
    }
}

/// Once the daemon check is done it stays done.
pub proof fn lemma_daemon_done_stays(outcomes: Seq<bool>)
    ensures
        daemon_run(DaemonStep::Done, outcomes) == DaemonStep::Done,
    decreases outcomes.len(),
{
    if outcomes.len() > 0 {
        lemma_daemon_done_stays(outcomes.drop_first());
    }
}

/// Each language offered is paired with its own code: the choice labelled
/// English sends "en", Auto-detect "auto", French "fr", Spanish "es", German
/// "de", Arabic "ar", Chinese "zh", Japanese "ja" and Korean "ko".
pub proof fn lemma_language_codes_match_labels(i: int)
    requires
        0 <= i < language_choices_spec().len(),
    ensures
        ({
            let (code, label) = language_choices_spec()[i];
            &&& label == "English"@ ==> code == "en"@
            &&& label == "Auto-detect"@ ==> code == "auto"@
            &&& label == "French"@ ==> code == "fr"@
            &&& label == "Spanish"@ ==> code == "es"@
            &&& label == "German"@ ==> code == "de"@
            &&& label == "Arabic"@ ==> code == "ar"@
            &&& label == "Chinese"@ ==> code == "zh"@
            &&& label == "Japanese"@ ==> code == "ja"@
            &&& label == "Korean"@ ==> code == "ko"@
        }),
{
    reveal_strlit("English");
    reveal_strlit("Auto-detect");
    reveal_strlit("French");
    reveal_strlit("Spanish");
    reveal_strlit("German");
    reveal_strlit("Arabic");
    reveal_strlit("Chinese");
    reveal_strlit("Japanese");
    reveal_strlit("Korean");
    reveal_strlit("en");
    reveal_strlit("auto");
    reveal_strlit("fr");
    reveal_strlit("es");
    reveal_strlit("de");
    reveal_strlit("ar");
    reveal_strlit("zh");
    reveal_strlit("ja");
    reveal_strlit("ko");
    let t = language_choices_spec();
    assert(t[0] == ("en"@, "English"@));
    assert(t[1] == ("auto"@, "Auto-detect"@));
    assert(t[2] == ("fr"@, "French"@));
    assert(t[3] == ("es"@, "Spanish"@));
    assert(t[4] == ("de"@, "German"@));
    assert(t[5] == ("ar"@, "Arabic"@));
    assert(t[6] == ("zh"@, "Chinese"@));
    assert(t[7] == ("ja"@, "Japanese"@));
    assert(t[8] == ("ko"@, "Korean"@));
    let label = t[i].1;
    assert(label.len() > 0);
    assert(label == "English"@ ==> label[0] == 'E');
    assert(label == "Auto-detect"@ ==> label[0] == 'A' && label.len() == 11);
    assert(label == "French"@ ==> label[0] == 'F');
    assert(label == "Spanish"@ ==> label[0] == 'S');
    assert(label == "German"@ ==> label[0] == 'G');
    assert(label == "Arabic"@ ==> label[0] == 'A' && label.len() == 6);
    assert(label == "Chinese"@ ==> label[0] == 'C');
    assert(label == "Japanese"@ ==> label[0] == 'J');
    assert(label == "Korean"@ ==> label[0] == 'K');
}


} // verus!
