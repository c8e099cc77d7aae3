//! The interactive selection engine: an explicit state machine over the
//! states installation → profile → executable, with backward navigation,
//! cancellation, and the preferred-executable memoization as its one side
//! effect on the shared installation list.
//!
//! The front end owns the prompts; each verified step function takes the
//! answer the prompt produced and performs the transition.

use vstd::prelude::*;
use crate::browsers::clone_browser;
use crate::command::CommandArguments;
use crate::installation::{Installation, pref_view, spec_pref_lookup, spec_pref_insert};
use crate::profile::{Profile, SpecProfile, clone_profile};
use crate::text::{strs_view, opt_view};

verus! {

/// The states of the selection engine. `Done` and `Cancelled` are terminal.
#[derive(Debug, Clone, Copy, PartialEq)]
pub enum EngineState {
    SelectInstallation,
    SelectProfile,
    SelectExecutable,
    Done,
    Cancelled,
}

/// One answer to one prompt. `Pick(i)` chooses the i-th ordinary entry of
/// the prompt's list; `LastUsed` and `Back` choose the synthetic entries.
/// `Cancel` covers both an explicit cancellation and an input source that
/// cannot prompt at all — either way the whole flow unwinds.
#[derive(Debug, Clone, Copy, PartialEq)]
pub enum PromptAnswer {
    Pick(usize),
    LastUsed,
    Back,
    Cancel,
}

/// The context threaded through every transition: the immutable target URI
/// and the three progressively filled fields.
#[derive(Debug, Clone, PartialEq)]
pub struct CommandArgsBuilder {
    pub uri: String,
    pub selected_installation_idx: Option<usize>,
    pub selected_profile: Option<Profile>,
    pub selected_exe_path: Option<String>,
}

/// The path of the builder's selected profile.
pub open spec fn spec_selected_profile_path(b: CommandArgsBuilder) -> Seq<char> {
    match b.selected_profile {
        Some(p) => p.profile_path@,
        None => Seq::empty(),
    }
}

/// What the finished builder packages: a descriptor exactly when the
/// installation index, the profile and the executable path are all set and
/// the index is in range.
pub open spec fn spec_into_commandargs(b: CommandArgsBuilder, insts: Seq<Installation>) -> Option<
    CommandArguments,
> {
    match (b.selected_installation_idx, b.selected_profile, b.selected_exe_path) {
        (Some(i), Some(p), Some(e)) => if (i as int) < insts.len() {
            Some(
                CommandArguments {
                    uri: b.uri,
                    browser_type: insts[i as int].browser_type,
                    executable: e,
                    profile: p,
                },
            )
        } else {
            None
        },
        _ => None,
    }
}

/// A builder that never chose an executable yields no descriptor: a
/// cancelled flow produces nothing, however far it had come.
pub proof fn lemma_no_partial_descriptor(b: CommandArgsBuilder, insts: Seq<Installation>)
    requires
        b.selected_installation_idx is None || b.selected_profile is None
            || b.selected_exe_path is None,
    ensures
        spec_into_commandargs(b, insts) is None,
{
}

impl CommandArgsBuilder {
    /// The selected installation, when an index is set and in range.
    pub fn selected_installation<'a>(&self, installations: &'a Vec<Installation>) -> (r: Option<
        &'a Installation,
    >)
        ensures
            match r {
                Some(inst) => self.selected_installation_idx matches Some(i) && (i as int)
                    < installations@.len() && *inst == installations@[i as int],
                None => self.selected_installation_idx is None
                    || (self.selected_installation_idx matches Some(i) && (i as int)
                    >= installations@.len()),
            },
    {
        match self.selected_installation_idx {
            Some(i) => if i < installations.len() {
                Some(&installations[i])
            } else {
                None
            },
            None => None,
        }
    }

    /// Packages the builder into a descriptor; `None` when any field is
    /// still missing. A missing field here signals a defect in the engine,
    /// not a user error.
    pub fn into_commandargs(self, installations: &Vec<Installation>) -> (r: Option<
        CommandArguments,
    >)
        ensures
            (r is Some <==> spec_into_commandargs(self, installations@) is Some),
            (r matches Some(c) ==> spec_into_commandargs(self, installations@) matches Some(sc)
                && c.uri == sc.uri && c.executable == sc.executable && c.profile == sc.profile
                && c.browser_type@ == sc.browser_type@),
    {
        let CommandArgsBuilder { uri, selected_installation_idx, selected_profile, selected_exe_path } =
            self;
        match (selected_installation_idx, selected_profile, selected_exe_path) {
            (Some(i), Some(p), Some(e)) => {
                if i < installations.len() {
                    Some(
                        CommandArguments {
                            uri,
                            browser_type: clone_browser(&installations[i].browser_type),
                            executable: e,
                            profile: p,
                        },
                    )
                } else {
                    None
                }
            },
            _ => None,
        }
    }
}

/// The entries of the installation prompt: every installation's display
/// name, in list order.
pub fn installation_options(installations: &Vec<Installation>) -> (r: Vec<String>)
    ensures
        r@.len() == installations@.len(),
        forall|i: int|
            0 <= i < installations@.len() ==> r@[i]@ == crate::installation::spec_inst_name(
                installations@[i],
            ),
{
    let mut out: Vec<String> = Vec::new();
    let n = installations.len();
    let mut i: usize = 0;
    while i < n
        invariant
            0 <= i <= n,
            n == installations@.len(),
            out@.len() == i,
            forall|j: int|
                0 <= j < i ==> out@[j]@ == crate::installation::spec_inst_name(installations@[j]),
        decreases n - i,
    {
        out.push(installations[i].get_name().to_owned());
        i = i + 1;
    }
    out
}

/// The entries of the profile prompt: the selected installation's profile
/// names, in snapshot order; the front end appends the synthetic "Back"
/// entry.
pub fn profile_options(inst: &Installation) -> (r: Vec<String>)
    ensures
        r@.len() == inst.profiles@.len(),
        forall|i: int| 0 <= i < inst.profiles@.len() ==> r@[i]@ == inst.profiles@[i]@.name,
{
    let mut out: Vec<String> = Vec::new();
    let n = inst.profiles.len();
    let mut i: usize = 0;
    while i < n
        invariant
            0 <= i <= n,
            n == inst.profiles@.len(),
            out@.len() == i,
            forall|j: int| 0 <= j < i ==> out@[j]@ == inst.profiles@[j]@.name,
        decreases n - i,
    {
        out.push(inst.profiles[i].name.clone());
        i = i + 1;
    }
    out
}

/// The executable prompt's entries for one (installation, profile) pair: the
/// recorded preferred executable if any (the "Last Used" entry), then the
/// primary executable path followed by every alias path; the front end
/// appends the synthetic "Back" entry.
#[derive(Debug, Clone, PartialEq)]
pub struct ExeChoices {
    pub last_used: Option<String>,
    pub paths: Vec<String>,
}

pub fn exe_path_options(inst: &Installation, profile_path: &str) -> (r: ExeChoices)
    ensures
        opt_view(r.last_used) == spec_pref_lookup(pref_view(inst.preferred@), profile_path@),
        strs_view(r.paths@) == seq![inst.exe_path@] + strs_view(inst.symlinks@),
{
    let last_used = inst.get_preferred(profile_path);
    let mut paths: Vec<String> = Vec::new();
    paths.push(inst.exe_path.clone());
    let mut syms = crate::text::clone_strings(&inst.symlinks);
    paths.append(&mut syms);
    proof {
        assert(strs_view(paths@) =~= seq![inst.exe_path@] + strs_view(inst.symlinks@));
    }
    ExeChoices { last_used, paths }
}

/// The executable a `Pick(k)` at the executable prompt chooses: the primary
/// path for 0, the k-1-th alias otherwise.
pub open spec fn spec_chosen_exe(inst: Installation, k: int) -> Seq<char> {
    if k == 0 {
        inst.exe_path@
    } else {
        inst.symlinks@[k - 1]@
    }
}

/// One transition from `SelectInstallation`: a choice sets the installation
/// index and moves to the profile prompt; cancellation terminates the whole
/// flow. This prompt has no synthetic entries.
pub fn step_select_installation(
    builder: &mut CommandArgsBuilder,
    installations: &Vec<Installation>,
    answer: PromptAnswer,
) -> (next: EngineState)
    requires
        answer is Pick || answer is Cancel,
        answer matches PromptAnswer::Pick(i) ==> (i as int) < installations@.len(),
    ensures
        final(builder).uri == old(builder).uri,
        final(builder).selected_profile == old(builder).selected_profile,
        final(builder).selected_exe_path == old(builder).selected_exe_path,
        answer matches PromptAnswer::Pick(i) ==> next == EngineState::SelectProfile && final(builder).selected_installation_idx == Some(i),
        answer is Cancel ==> next == EngineState::Cancelled && final(builder).selected_installation_idx == old(builder).selected_installation_idx,
{
    match answer {
        PromptAnswer::Pick(i) => {
            builder.selected_installation_idx = Some(i);
            EngineState::SelectProfile
        },
        _ => EngineState::Cancelled,
    }
}

/// One transition from `SelectProfile`: a choice sets the profile and moves
/// to the executable prompt; "Back" re-enters the installation prompt (a
/// fresh prompt, not a restore); cancellation terminates the whole flow.
pub fn step_select_profile(
    builder: &mut CommandArgsBuilder,
    installations: &Vec<Installation>,
    answer: PromptAnswer,
) -> (next: EngineState)
    requires
        old(builder).selected_installation_idx matches Some(i) && (i as int)
            < installations@.len(),
        !(answer is LastUsed),
        answer matches PromptAnswer::Pick(k) ==> (old(builder).selected_installation_idx
            matches Some(i) && (k as int) < installations@[i as int].profiles@.len()),
    ensures
        final(builder).uri == old(builder).uri,
        final(builder).selected_installation_idx == old(builder).selected_installation_idx,
        final(builder).selected_exe_path == old(builder).selected_exe_path,
        answer matches PromptAnswer::Pick(k) ==> next == EngineState::SelectExecutable && (old(builder).selected_installation_idx matches Some(i) && final(builder).selected_profile
            matches Some(p) && p@ == installations@[i as int].profiles@[k as int]@),
        answer is Back ==> next == EngineState::SelectInstallation && final(builder).selected_profile == old(builder).selected_profile,
        answer is Cancel ==> next == EngineState::Cancelled && final(builder).selected_profile
            == old(builder).selected_profile,
{
    match answer {
        PromptAnswer::Pick(k) => {
            let i = builder.selected_installation_idx.unwrap();
            builder.selected_profile = Some(clone_profile(&installations[i].profiles[k]));
            EngineState::SelectExecutable
        },
        PromptAnswer::Back => EngineState::SelectInstallation,
        _ => EngineState::Cancelled,
    }
}

/// One transition from `SelectExecutable`. "Last Used" selects the recorded
/// preferred executable without further effect; any explicit path choice
/// both selects that path and overwrites the preferred record for this
/// (installation, profile) pair — the one persistent side effect on the
/// shared installation list; "Back" re-enters the profile prompt for the
/// same installation; cancellation terminates the whole flow.
pub fn step_select_executable(
    builder: &mut CommandArgsBuilder,
    installations: &mut Vec<Installation>,
    answer: PromptAnswer,
) -> (next: EngineState)
    requires
        old(builder).selected_installation_idx matches Some(i) && (i as int) < old(installations)@.len(),
        old(builder).selected_profile matches Some(p) && (old(builder).selected_installation_idx
            matches Some(i) && exists|j: int|
            0 <= j < old(installations)@[i as int].profiles@.len() && old(installations)@[
                i as int
            ].profiles@[j]@.path == p.profile_path@),
        answer matches PromptAnswer::Pick(k) ==> (old(builder).selected_installation_idx
            matches Some(i) && (k as int) < 1 + old(installations)@[i as int].symlinks@.len()),
        answer is LastUsed ==> (old(builder).selected_installation_idx matches Some(i)
            && spec_pref_lookup(
            pref_view(old(installations)@[i as int].preferred@),
            spec_selected_profile_path(*old(builder)),
        ) is Some),
    ensures
        final(builder).uri == old(builder).uri,
        final(builder).selected_installation_idx == old(builder).selected_installation_idx,
        final(builder).selected_profile == old(builder).selected_profile,
        final(installations)@.len() == old(installations)@.len(),
        answer is Back ==> next == EngineState::SelectProfile && final(installations)@ == old(installations)@ && final(builder).selected_exe_path == old(builder).selected_exe_path,
        answer is Cancel ==> next == EngineState::Cancelled && final(installations)@ == old(installations)@ && final(builder).selected_exe_path == old(builder).selected_exe_path,
        answer is LastUsed ==> next == EngineState::Done && final(installations)@ == old(installations)@ && (old(builder).selected_installation_idx matches Some(i) && opt_view(
            final(builder).selected_exe_path,
        ) == spec_pref_lookup(
            pref_view(old(installations)@[i as int].preferred@),
            spec_selected_profile_path(*old(builder)),
        )),
        answer matches PromptAnswer::Pick(k) ==> next == EngineState::Done && (old(builder).selected_installation_idx matches Some(i) && {
            let chosen = spec_chosen_exe(old(installations)@[i as int], k as int);
            &&& opt_view(final(builder).selected_exe_path) == Some(chosen)
        &&& forall|j: int|
                0 <= j < old(installations)@.len() && j != i ==> final(installations)@[j] == old(installations)@[j]
        &&& final(installations)@[i as int].name == old(installations)@[i as int].name
        &&& final(installations)@[i as int].browser_type == old(installations)@[
                i as int
            ].browser_type
        &&& final(installations)@[i as int].exe_path == old(installations)@[i as int].exe_path
        &&& final(installations)@[i as int].symlinks == old(installations)@[i as int].symlinks
        &&& final(installations)@[i as int].profiles == old(installations)@[i as int].profiles
        &&& final(installations)@[i as int].last_used == old(installations)@[i as int].last_used
        &&& pref_view(final(installations)@[i as int].preferred@) == spec_pref_insert(
                pref_view(old(installations)@[i as int].preferred@),
                spec_selected_profile_path(*old(builder)),
                chosen,
            )
        &&& (old(installations)@[i as int].wf() ==> final(installations)@[i as int].wf())
        }),
{
    let i = builder.selected_installation_idx.unwrap();
    match answer {
        PromptAnswer::Back => EngineState::SelectProfile,
        PromptAnswer::Cancel => EngineState::Cancelled,
        PromptAnswer::LastUsed => {
            let ppath = match &builder.selected_profile {
                Some(p) => p.profile_path.clone(),
                None => String::new(),
            };
            let pref = installations[i].get_preferred(ppath.as_str());
            builder.selected_exe_path = pref;
            EngineState::Done
        },
        PromptAnswer::Pick(k) => {
            let ppath = match &builder.selected_profile {
                Some(p) => p.profile_path.clone(),
                None => String::new(),
            };
            let chosen: String = if k == 0 {
                installations[i].exe_path.clone()
            } else {
                installations[i].symlinks[k - 1].clone()
            };
            let mut inst = installations.remove(i);
            inst.set_preferred(ppath.as_str(), chosen.as_str());
            installations.insert(i, inst);
            proof {
                assert(installations@ =~= old(installations)@.update(
                    i as int,
                    installations@[i as int],
                ));
            }
            builder.selected_exe_path = Some(chosen);
            EngineState::Done
        },
    }
}

/// How one whole selection ends: cancelled — by an explicit cancellation,
/// by an answer the current prompt does not offer, or by an exhausted
/// script — or finished, with the chosen installation, profile and
/// executable. `wrote` is the preferred-record write that an explicit path
/// choice makes; "Last Used" writes nothing.
pub ghost enum SessionOutcome {
    Cancelled,
    Finished { idx: int, profile: SpecProfile, exe: Seq<char>, wrote: Option<(Seq<char>, Seq<char>)> },
}

/// The selection's state machine, run over a script of answers from a given
/// state. `insts` is the installation list as the session starts: until the
/// finishing choice the engine only reads it, so the whole session is a
/// function of the starting list and the script.
pub open spec fn spec_session(
    insts: Seq<Installation>,
    answers: Seq<PromptAnswer>,
    state: EngineState,
    idx: Option<int>,
    profile: Option<SpecProfile>,
) -> SessionOutcome
    decreases answers.len(),
{
    if answers.len() == 0 {
        SessionOutcome::Cancelled
    } else {
        let rest = answers.drop_first();
        match state {
            EngineState::SelectInstallation => match answers[0] {
                PromptAnswer::Pick(i) => if (i as int) < insts.len() {
                    spec_session(insts, rest, EngineState::SelectProfile, Some(i as int), profile)
                } else {
                    SessionOutcome::Cancelled
                },
                _ => SessionOutcome::Cancelled,
            },
            EngineState::SelectProfile => match idx {
                Some(i) => match answers[0] {
                    PromptAnswer::Pick(k) => if 0 <= i < insts.len() && (k as int) < insts[
                        i
                    ].profiles@.len() {
                        spec_session(
                            insts,
                            rest,
                            EngineState::SelectExecutable,
                            idx,
                            Some(insts[i].profiles@[k as int]@),
                        )
                    } else {
                        SessionOutcome::Cancelled
                    },
                    PromptAnswer::Back => spec_session(
                        insts,
                        rest,
                        EngineState::SelectInstallation,
                        idx,
                        profile,
                    ),
                    _ => SessionOutcome::Cancelled,
                },
                None => SessionOutcome::Cancelled,
            },
            EngineState::SelectExecutable => match (idx, profile) {
                (Some(i), Some(p)) => match answers[0] {
                    PromptAnswer::Pick(k) => if 0 <= i < insts.len() && (k as int) < 1 + insts[
                        i
                    ].symlinks@.len() {
                        SessionOutcome::Finished {
                            idx: i,
                            profile: p,
                            exe: spec_chosen_exe(insts[i], k as int),
                            wrote: Some((p.path, spec_chosen_exe(insts[i], k as int))),
                        }
                    } else {
                        SessionOutcome::Cancelled
                    },
                    PromptAnswer::LastUsed => if 0 <= i < insts.len() {
                        match spec_pref_lookup(pref_view(insts[i].preferred@), p.path) {
                            Some(v) => SessionOutcome::Finished {
                                idx: i,
                                profile: p,
                                exe: v,
                                wrote: None,
                            },
                            None => SessionOutcome::Cancelled,
                        }
                    } else {
                        SessionOutcome::Cancelled
                    },
                    PromptAnswer::Back => spec_session(
                        insts,
                        rest,
                        EngineState::SelectProfile,
                        idx,
                        profile,
                    ),
                    PromptAnswer::Cancel => SessionOutcome::Cancelled,
                },
                _ => SessionOutcome::Cancelled,
            },
            _ => SessionOutcome::Cancelled,
        }
    }
}

/// One whole selection from the start: installation prompt first, nothing
/// chosen yet.
pub open spec fn spec_run_selection(insts: Seq<Installation>, answers: Seq<PromptAnswer>)
    -> SessionOutcome {
    spec_session(insts, answers, EngineState::SelectInstallation, None, None)
}

/// The builder's installation index, as the interpreter carries it.
pub open spec fn spec_builder_idx(b: CommandArgsBuilder) -> Option<int> {
    match b.selected_installation_idx {
        Some(i) => Some(i as int),
        None => None,
    }
}

/// The builder's selected profile, as the interpreter carries it.
pub open spec fn spec_builder_profile(b: CommandArgsBuilder) -> Option<SpecProfile> {
    match b.selected_profile {
        Some(p) => Some(p@),
        None => None,
    }
}

/// Runs one whole selection over a pre-decided script of answers — the same
/// loop an interactive front end drives, with each script entry standing for
/// the user's choice at the corresponding prompt. An answer the current
/// prompt does not offer, or an exhausted script, counts as cancellation.
///
/// The result is exactly what `spec_run_selection` says of the starting list
/// and the script: a cancelled session returns nothing and leaves the list
/// untouched; a finished session returns the descriptor of the chosen
/// installation — its kind, the chosen profile (a member of its snapshot),
/// and an executable the prompt offered — and its one side effect is the
/// preferred-record write of an explicit path choice, on that installation
/// alone.
pub fn run_selection(
    uri: String,
    installations: &mut Vec<Installation>,
    answers: &Vec<PromptAnswer>,
) -> (r: Option<CommandArguments>)
    requires
        forall|i: int|
            0 <= i < old(installations)@.len() ==> #[trigger] old(installations)@[i].wf(),
    ensures
        (r is Some <==> spec_run_selection(old(installations)@, answers@) is Finished),
        (spec_run_selection(old(installations)@, answers@) matches SessionOutcome::Finished {
            idx: i,
            profile: p,
            exe,
            wrote,
        } ==> {
            &&& 0 <= i < old(installations)@.len()
            &&& (r matches Some(c) && c.uri == uri && c.browser_type@ == old(installations)@[
                i
            ].browser_type@ && c.profile@ == p && c.executable@ == exe)
            &&& (exists|k: int|
                0 <= k < old(installations)@[i].profiles@.len() && p == old(installations)@[
                    i
                ].profiles@[k]@)
            &&& (exe == old(installations)@[i].exe_path@ || (exists|k: int|
                0 <= k < old(installations)@[i].symlinks@.len() && exe == old(installations)@[
                    i
                ].symlinks@[k]@) || spec_pref_lookup(
                pref_view(old(installations)@[i].preferred@),
                p.path,
            ) == Some(exe))
            &&& (forall|j: int|
                0 <= j < old(installations)@.len() && j != i ==> final(installations)@[j] == old(installations)@[j])
            &&& final(installations)@[i].name == old(installations)@[i].name
            &&& final(installations)@[i].browser_type == old(installations)@[i].browser_type
            &&& final(installations)@[i].exe_path == old(installations)@[i].exe_path
            &&& final(installations)@[i].symlinks == old(installations)@[i].symlinks
            &&& final(installations)@[i].profiles == old(installations)@[i].profiles
            &&& final(installations)@[i].last_used == old(installations)@[i].last_used
            &&& pref_view(final(installations)@[i].preferred@) == (match wrote {
                Some(w) => spec_pref_insert(
                    pref_view(old(installations)@[i].preferred@),
                    w.0,
                    w.1,
                ),
                None => pref_view(old(installations)@[i].preferred@),
            })
            &&& (wrote matches Some(w) ==> w.0 == p.path && w.1 == exe)
        }),
        spec_run_selection(old(installations)@, answers@) is Cancelled ==> r is None && final(installations)@ == old(installations)@,
        final(installations)@.len() == old(installations)@.len(),
        forall|i: int|
            0 <= i < final(installations)@.len() ==> #[trigger] final(installations)@[i].wf(),
{
    let mut builder = CommandArgsBuilder {
        uri,
        selected_installation_idx: None,
        selected_profile: None,
        selected_exe_path: None,
    };
    let mut state = EngineState::SelectInstallation;
    let n = answers.len();
    proof {
        assert(answers@.skip(0) =~= answers@);
    }
    let mut ai: usize = 0;
    while ai < n
        invariant
            0 <= ai <= n,
            n == answers@.len(),
            builder.uri == uri,
            installations@ == old(installations)@,
            state is SelectInstallation || state is SelectProfile || state is SelectExecutable,
            !(state is SelectInstallation) ==> (builder.selected_installation_idx matches Some(i)
                && (i as int) < installations@.len()),
            state is SelectExecutable ==> (builder.selected_profile matches Some(p) && (
            builder.selected_installation_idx matches Some(i) && exists|j: int|
                0 <= j < installations@[i as int].profiles@.len() && p@ == installations@[
                    i as int
                ].profiles@[j]@)),
            forall|ii: int|
                0 <= ii < installations@.len() ==> #[trigger] installations@[ii].wf(),
            spec_session(
                old(installations)@,
                answers@.skip(ai as int),
                state,
                spec_builder_idx(builder),
                spec_builder_profile(builder),
            ) == spec_run_selection(old(installations)@, answers@),
        decreases n - ai,
    {
        let answer = answers[ai];
        let ghost tail = answers@.skip(ai as int);
        proof {
            assert(tail[0] == answers@[ai as int]);
            assert(tail.drop_first() =~= answers@.skip(ai + 1));
        }
        ai = ai + 1;
        match state {
            EngineState::SelectInstallation => {
                let ok = match &answer {
                    PromptAnswer::Pick(i) => *i < installations.len(),
                    PromptAnswer::Cancel => true,
                    _ => false,
                };
                if !ok {
                    proof {
                        assert(spec_session(
                            old(installations)@,
                            tail,
                            EngineState::SelectInstallation,
                            spec_builder_idx(builder),
                            spec_builder_profile(builder),
                        ) == SessionOutcome::Cancelled);
                    }
                    return None;
                }
                let ghost b0 = builder;
                state = step_select_installation(&mut builder, installations, answer);
                proof {
                    match answer {
                        PromptAnswer::Pick(ip) => {
                            assert(spec_session(
                                old(installations)@,
                                tail,
                                EngineState::SelectInstallation,
                                spec_builder_idx(b0),
                                spec_builder_profile(b0),
                            ) == spec_session(
                                old(installations)@,
                                answers@.skip(ai as int),
                                EngineState::SelectProfile,
                                spec_builder_idx(builder),
                                spec_builder_profile(builder),
                            ));
                        },
                        _ => {
                            assert(spec_session(
                                old(installations)@,
                                tail,
                                EngineState::SelectInstallation,
                                spec_builder_idx(b0),
                                spec_builder_profile(b0),
                            ) == SessionOutcome::Cancelled);
                        },
                    }
                }
                if matches!(state, EngineState::Cancelled) {
                    return None;
                }
            },
            EngineState::SelectProfile => {
                let i = builder.selected_installation_idx.unwrap();
                let ok = match &answer {
                    PromptAnswer::Pick(k) => *k < installations[i].profiles.len(),
                    PromptAnswer::Back => true,
                    PromptAnswer::Cancel => true,
                    PromptAnswer::LastUsed => false,
                };
                if !ok {
                    proof {
                        assert(spec_session(
                            old(installations)@,
                            tail,
                            EngineState::SelectProfile,
                            spec_builder_idx(builder),
                            spec_builder_profile(builder),
                        ) == SessionOutcome::Cancelled);
                    }
                    return None;
                }
                let ghost b0 = builder;
                state = step_select_profile(&mut builder, installations, answer);
                proof {
                    match answer {
                        PromptAnswer::Pick(kp) => {
                            assert(spec_session(
                                old(installations)@,
                                tail,
                                EngineState::SelectProfile,
                                spec_builder_idx(b0),
                                spec_builder_profile(b0),
                            ) == spec_session(
                                old(installations)@,
                                answers@.skip(ai as int),
                                EngineState::SelectExecutable,
                                spec_builder_idx(builder),
                                spec_builder_profile(builder),
                            ));
                        },
                        PromptAnswer::Back => {
                            assert(spec_session(
                                old(installations)@,
                                tail,
                                EngineState::SelectProfile,
                                spec_builder_idx(b0),
                                spec_builder_profile(b0),
                            ) == spec_session(
                                old(installations)@,
                                answers@.skip(ai as int),
                                EngineState::SelectInstallation,
                                spec_builder_idx(builder),
                                spec_builder_profile(builder),
                            ));
                        },
                        _ => {
                            assert(spec_session(
                                old(installations)@,
                                tail,
                                EngineState::SelectProfile,
                                spec_builder_idx(b0),
                                spec_builder_profile(b0),
                            ) == SessionOutcome::Cancelled);
                        },
                    }
                }
                if matches!(state, EngineState::Cancelled) {
                    return None;
                }
            },
            EngineState::SelectExecutable => {
                let i = builder.selected_installation_idx.unwrap();
                let ok = match &answer {
                    PromptAnswer::Pick(k) => *k == 0 || *k - 1 < installations[i].symlinks.len(),
                    PromptAnswer::LastUsed => {
                        let ppath = match &builder.selected_profile {
                            Some(p) => p.profile_path.clone(),
                            None => String::new(),
                        };
                        installations[i].get_preferred(ppath.as_str()).is_some()
                    },
                    PromptAnswer::Back => true,
                    PromptAnswer::Cancel => true,
                };
                if !ok {
                    proof {
                        assert(spec_session(
                            old(installations)@,
                            tail,
                            EngineState::SelectExecutable,
                            spec_builder_idx(builder),
                            spec_builder_profile(builder),
                        ) == SessionOutcome::Cancelled);
                    }
                    return None;
                }
                let ghost b0 = builder;
                let ghost pre = installations@;
                state = step_select_executable(&mut builder, installations, answer);
                proof {
                    match answer {
                        PromptAnswer::Back => {
                            assert(spec_session(
                                old(installations)@,
                                tail,
                                EngineState::SelectExecutable,
                                spec_builder_idx(b0),
                                spec_builder_profile(b0),
                            ) == spec_session(
                                old(installations)@,
                                answers@.skip(ai as int),
                                EngineState::SelectProfile,
                                spec_builder_idx(builder),
                                spec_builder_profile(builder),
                            ));
                        },
                        PromptAnswer::Cancel => {
                            assert(spec_session(
                                old(installations)@,
                                tail,
                                EngineState::SelectExecutable,
                                spec_builder_idx(b0),
                                spec_builder_profile(b0),
                            ) == SessionOutcome::Cancelled);
                        },
                        _ => {},
                    }
                }
                proof {
                    assert forall|ii: int| 0 <= ii < installations@.len() implies #[trigger]
                    installations@[ii].wf() by {
                        if !(installations@[ii] == pre[ii]) {
                            assert(installations@[ii].wf());
                        }
                    }
                }
                if matches!(state, EngineState::Done) {
                    let ghost outcome = spec_run_selection(old(installations)@, answers@);
                    proof {
                        match (b0.selected_installation_idx, &b0.selected_profile) {
                            (Some(iu), Some(pf)) => {
                                let iv = iu as int;
                                let pv = pf@;
                                assert(spec_builder_idx(b0) == Some(iv));
                                assert(spec_builder_profile(b0) == Some(pv));
                                assert(spec_selected_profile_path(b0) == pv.path);
                                match answer {
                                    PromptAnswer::Pick(k) => {
                                        let chosen = spec_chosen_exe(pre[iv], k as int);
                                        assert(outcome == (SessionOutcome::Finished {
                                            idx: iv,
                                            profile: pv,
                                            exe: chosen,
                                            wrote: Some((pv.path, chosen)),
                                        }));
                                        if k != 0 {
                                            assert(chosen == old(installations)@[iv].symlinks@[
                                                k - 1
                                            ]@);
                                        }
                                        assert(pref_view(installations@[iv].preferred@)
                                            == spec_pref_insert(
                                            pref_view(old(installations)@[iv].preferred@),
                                            pv.path,
                                            chosen,
                                        ));
                                        assert(opt_view(builder.selected_exe_path) == Some(
                                            chosen,
                                        ));
                                    },
                                    PromptAnswer::LastUsed => {
                                        match spec_pref_lookup(
                                            pref_view(pre[iv].preferred@),
                                            pv.path,
                                        ) {
                                            Some(v) => {
                                                assert(outcome == (SessionOutcome::Finished {
                                                    idx: iv,
                                                    profile: pv,
                                                    exe: v,
                                                    wrote: None,
                                                }));
                                                assert(opt_view(builder.selected_exe_path)
                                                    == Some(v));
                                            },
                                            None => {
                                                assert(false);
                                            },
                                        }
                                    },
                                    _ => {
                                        assert(false);
                                    },
                                }
                            },
                            _ => {
                                assert(false);
                            },
                        }
                    }
                    let r = builder.into_commandargs(installations);
                    return r;
                }
                if matches!(state, EngineState::Cancelled) {
                    return None;
                }
            },
            _ => {
                proof {
                    assert(false);
                }
                return None;
            },
        }
    }
    proof {
        assert(answers@.skip(n as int).len() == 0);
    }
    None
}


} // verus!
