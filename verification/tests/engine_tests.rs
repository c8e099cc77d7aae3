use plinks::browsers::Browsers;
use plinks::command::AppCache;
use plinks::installation::{DiscoveryError, Installation};
use plinks::profile::Profile;
use plinks::selection::{exe_path_options, installation_options, run_selection,
    step_select_executable, step_select_installation, step_select_profile, CommandArgsBuilder,
    EngineState, PromptAnswer};

fn profile(name: &str, path: &str) -> Profile {
    Profile { name: name.to_string(), profile_path: path.to_string() }
}

fn installation() -> Installation {
    Installation {
        name: None,
        browser_type: Browsers::Librewolf,
        exe_path: "C:\\lw\\librewolf.exe".to_string(),
        symlinks: vec!["C:\\links\\lw.exe".to_string()],
        preferred: Vec::new(),
        profiles: vec![
            profile("default", "C:\\profiles\\default"),
            profile("work", "C:\\profiles\\work"),
        ],
        last_used: None,
    }
}

fn builder(uri: &str) -> CommandArgsBuilder {
    CommandArgsBuilder {
        uri: uri.to_string(),
        selected_installation_idx: None,
        selected_profile: None,
        selected_exe_path: None,
    }
}

#[test]
fn discovery_assembles_installation() {
    let profiles = vec![profile("p", "C:\\p")];
    let inst = Installation::from_installation_path(
        "C:\\lw",
        Some(Browsers::Librewolf),
        profiles,
    )
    .unwrap();
    assert_eq!(inst.browser_type, Browsers::Librewolf);
    assert_eq!(inst.exe_path, "C:\\lw\\librewolf.exe");
    assert!(inst.symlinks.is_empty());
    assert!(inst.preferred.is_empty());
    assert_eq!(inst.profiles.len(), 1);
    assert_eq!(inst.name, None);
    assert_eq!(inst.get_name(), "Librewolf");
}

#[test]
fn discovery_rejects_unknown_kind() {
    let r = Installation::from_installation_path("C:\\x", None, vec![profile("p", "q")]);
    assert_eq!(r, Err(DiscoveryError::UnknownBrowserType));
}

#[test]
fn discovery_rejects_empty_profiles() {
    let r = Installation::from_installation_path("C:\\x", Some(Browsers::Firefox), Vec::new());
    assert_eq!(r, Err(DiscoveryError::NoProfilesFound));
}

#[test]
fn name_override_wins() {
    let mut inst = installation();
    inst.name = Some("My Wolf".to_string());
    assert_eq!(inst.get_name(), "My Wolf");
    let names = installation_options(&vec![inst, installation()]);
    assert_eq!(names, vec!["My Wolf".to_string(), "Librewolf".to_string()]);
}

#[test]
fn symlinks_add_and_remove() {
    let mut inst = installation();
    assert!(!inst.add_symlink("C:\\elsewhere\\lw.exe", false));
    assert_eq!(inst.symlinks.len(), 1);
    assert!(inst.add_symlink("C:\\links2\\lw.exe", true));
    assert_eq!(inst.symlinks.len(), 2);
    assert!(inst.remove_symlink("C:\\links\\lw.exe"));
    assert_eq!(inst.symlinks, vec!["C:\\links2\\lw.exe".to_string()]);
    assert!(!inst.remove_symlink("C:\\gone.exe"));
}

#[test]
fn preferred_record_first_key_wins_lookup_and_overwrites() {
    let mut inst = installation();
    assert_eq!(inst.get_preferred("C:\\profiles\\default"), None);
    inst.set_preferred("C:\\profiles\\default", "C:\\a.exe");
    inst.set_preferred("C:\\profiles\\work", "C:\\b.exe");
    assert_eq!(inst.get_preferred("C:\\profiles\\default"), Some("C:\\a.exe".to_string()));
    inst.set_preferred("C:\\profiles\\default", "C:\\c.exe");
    assert_eq!(inst.get_preferred("C:\\profiles\\default"), Some("C:\\c.exe".to_string()));
    assert_eq!(inst.get_preferred("C:\\profiles\\work"), Some("C:\\b.exe".to_string()));
    assert_eq!(inst.preferred.len(), 2);
}

#[test]
fn exe_options_show_last_used_only_when_recorded() {
    let mut inst = installation();
    let choices = exe_path_options(&inst, "C:\\profiles\\default");
    assert_eq!(choices.last_used, None);
    assert_eq!(
        choices.paths,
        vec!["C:\\lw\\librewolf.exe".to_string(), "C:\\links\\lw.exe".to_string()]
    );
    inst.set_preferred("C:\\profiles\\default", "C:\\links\\lw.exe");
    let choices = exe_path_options(&inst, "C:\\profiles\\default");
    assert_eq!(choices.last_used, Some("C:\\links\\lw.exe".to_string()));
    // the other profile of the pair stays unaffected
    let other = exe_path_options(&inst, "C:\\profiles\\work");
    assert_eq!(other.last_used, None);
}

#[test]
fn back_from_executable_returns_to_profile_for_same_installation() {
    let mut installations = vec![installation()];
    let mut b = builder("https://x");
    let s = step_select_installation(&mut b, &installations, PromptAnswer::Pick(0));
    assert_eq!(s, EngineState::SelectProfile);
    assert_eq!(b.selected_installation_idx, Some(0));
    let s = step_select_profile(&mut b, &installations, PromptAnswer::Pick(1));
    assert_eq!(s, EngineState::SelectExecutable);
    let s = step_select_executable(&mut b, &mut installations, PromptAnswer::Back);
    assert_eq!(s, EngineState::SelectProfile);
    assert_eq!(b.selected_installation_idx, Some(0));
    let s = step_select_profile(&mut b, &installations, PromptAnswer::Back);
    assert_eq!(s, EngineState::SelectInstallation);
}

#[test]
fn cancel_yields_no_descriptor_at_every_state() {
    for script in [
        vec![PromptAnswer::Cancel],
        vec![PromptAnswer::Pick(0), PromptAnswer::Cancel],
        vec![PromptAnswer::Pick(0), PromptAnswer::Pick(0), PromptAnswer::Cancel],
    ] {
        let mut installations = vec![installation()];
        let script_vec = script.clone();
        assert_eq!(run_selection("https://x".to_string(), &mut installations, &script_vec), None);
    }
}

#[test]
fn exhausted_answers_count_as_cancellation() {
    let mut installations = vec![installation()];
    let script = vec![PromptAnswer::Pick(0)];
    assert_eq!(run_selection("u".to_string(), &mut installations, &script), None);
}

#[test]
fn full_selection_produces_descriptor_and_records_preference() {
    let mut installations = vec![installation()];
    let script = vec![PromptAnswer::Pick(0), PromptAnswer::Pick(0), PromptAnswer::Pick(1)];
    let cmd = run_selection("https://example.org".to_string(), &mut installations, &script)
        .unwrap();
    assert_eq!(cmd.uri, "https://example.org");
    assert_eq!(cmd.browser_type, Browsers::Librewolf);
    // Pick(1) chose the first alias path
    assert_eq!(cmd.executable, "C:\\links\\lw.exe");
    assert_eq!(cmd.profile, profile("default", "C:\\profiles\\default"));
    // the side effect on the shared list persists
    assert_eq!(
        installations[0].get_preferred("C:\\profiles\\default"),
        Some("C:\\links\\lw.exe".to_string())
    );
}

#[test]
fn later_session_reuses_recorded_executable_silently() {
    let mut installations = vec![installation()];
    let first = vec![PromptAnswer::Pick(0), PromptAnswer::Pick(0), PromptAnswer::Pick(1)];
    run_selection("u1".to_string(), &mut installations, &first).unwrap();
    // same cache, later session: "Last Used" is offered for the exact pair
    let choices = exe_path_options(&installations[0], "C:\\profiles\\default");
    assert_eq!(choices.last_used, Some("C:\\links\\lw.exe".to_string()));
    // and selecting it yields a descriptor without an explicit path choice
    let second = vec![PromptAnswer::Pick(0), PromptAnswer::Pick(0), PromptAnswer::LastUsed];
    let cmd = run_selection("u2".to_string(), &mut installations, &second).unwrap();
    assert_eq!(cmd.executable, "C:\\links\\lw.exe");
}

#[test]
fn last_used_without_record_is_rejected() {
    let mut installations = vec![installation()];
    let script = vec![PromptAnswer::Pick(0), PromptAnswer::Pick(0), PromptAnswer::LastUsed];
    assert_eq!(run_selection("u".to_string(), &mut installations, &script), None);
}

#[test]
fn backtracking_session_still_finishes() {
    let mut installations = vec![installation()];
    let script = vec![
        PromptAnswer::Pick(0),
        PromptAnswer::Pick(1),
        PromptAnswer::Back,
        PromptAnswer::Back,
        PromptAnswer::Pick(0),
        PromptAnswer::Pick(0),
        PromptAnswer::Pick(0),
    ];
    let cmd = run_selection("u".to_string(), &mut installations, &script).unwrap();
    assert_eq!(cmd.executable, "C:\\lw\\librewolf.exe");
    assert_eq!(cmd.profile.name, "default");
}

#[test]
fn incomplete_builder_packages_nothing() {
    let installations = vec![installation()];
    let b = builder("u");
    assert_eq!(b.clone().into_commandargs(&installations), None);
    let mut b2 = b.clone();
    b2.selected_installation_idx = Some(0);
    b2.selected_profile = Some(profile("p", "q"));
    assert_eq!(b2.into_commandargs(&installations), None);
    assert!(b.selected_installation(&installations).is_none());
}

#[test]
fn selected_installation_resolves_index() {
    let installations = vec![installation()];
    let mut b = builder("u");
    b.selected_installation_idx = Some(0);
    let inst = b.selected_installation(&installations).unwrap();
    assert_eq!(inst.exe_path, "C:\\lw\\librewolf.exe");
    b.selected_installation_idx = Some(7);
    assert!(b.selected_installation(&installations).is_none());
}

#[test]
fn command_args_of_descriptor() {
    let mut installations = vec![installation()];
    let script = vec![PromptAnswer::Pick(0), PromptAnswer::Pick(0), PromptAnswer::Pick(0)];
    let cmd = run_selection("https://e".to_string(), &mut installations, &script).unwrap();
    assert_eq!(
        cmd.command_args(),
        vec![
            "--profile".to_string(),
            "C:\\profiles\\default".to_string(),
            "-url".to_string(),
            "https://e".to_string(),
        ]
    );
}

#[test]
fn installation_icon_sits_under_the_installation_directory() {
    let inst = installation();
    assert_eq!(
        inst.get_icon(true),
        Some("C:\\lw\\browser\\VisualElements\\VisualElements_150.png".to_string())
    );
    assert_eq!(inst.get_icon(false), None);
}

#[test]
fn app_cache_default_is_empty() {
    let cache = AppCache::default();
    assert_eq!(cache.cfg_version, 0);
    assert!(cache.installations.is_empty());
}
