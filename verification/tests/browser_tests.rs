use plinks::browsers::{ArgConstructor, Browsers, CustomBrowser, Detection, RegistryFile,
    RegistryLocation};
use plinks::profile::Profile;
use plinks::text::join_path;

fn custom_kind() -> Browsers {
    Browsers::Custom(CustomBrowser {
        exe: "mybrowser.exe".to_string(),
        name: "My Browser".to_string(),
        args: ArgConstructor {
            uri_index: 3,
            profile_index: 1,
            args: vec![
                "--profile-directory".to_string(),
                "PROFILE".to_string(),
                "--open".to_string(),
                "URL".to_string(),
                "--quiet".to_string(),
            ],
        },
        ico_path: Some("icons\\my.png".to_string()),
        profile_ini: None,
        hard_profiles: vec![Profile {
            name: "static".to_string(),
            profile_path: "C:\\my\\profile".to_string(),
        }],
    })
}

#[test]
fn detect_nothing_in_unrelated_directory() {
    let entries = vec![
        "readme.txt".to_string(),
        "uninstall.exe".to_string(),
        "Firefox.exe".to_string(), // wrong case: not recognized
    ];
    assert_eq!(Browsers::detect_type(&entries), None);
}

#[test]
fn detect_empty_directory() {
    assert_eq!(Browsers::detect_type(&Vec::new()), None);
}

#[test]
fn detect_firefox_needs_channel_check() {
    let entries = vec!["plugins".to_string(), "firefox.exe".to_string()];
    assert_eq!(Browsers::detect_type(&entries), Some(Detection::FirefoxDesktop));
}

#[test]
fn detect_first_match_decides() {
    let entries = vec!["librewolf.exe".to_string(), "firefox.exe".to_string()];
    assert_eq!(
        Browsers::detect_type(&entries),
        Some(Detection::Resolved(Browsers::Librewolf))
    );
}

#[test]
fn detect_portables() {
    assert_eq!(
        Browsers::detect_type(&vec!["FirefoxPortable.exe".to_string()]),
        Some(Detection::Resolved(Browsers::FirefoxPortable))
    );
    assert_eq!(
        Browsers::detect_type(&vec!["LibreWolf-Portable.exe".to_string()]),
        Some(Detection::Resolved(Browsers::LibrewolfPortable))
    );
}

#[test]
fn channel_from_version_matches_exactly() {
    assert_eq!(plinks::browsers::channel_from_version("Firefox Nightly"), Browsers::FirefoxNightly);
    assert_eq!(plinks::browsers::channel_from_version("Firefox Beta"), Browsers::FirefoxBeta);
    assert_eq!(
        plinks::browsers::channel_from_version("Firefox Developer"),
        Browsers::FirefoxDeveloper
    );
    assert_eq!(plinks::browsers::channel_from_version("Firefox ESR"), Browsers::Firefox);
    assert_eq!(plinks::browsers::channel_from_version(""), Browsers::Firefox);
}

#[test]
fn names_and_exe_names() {
    assert_eq!(Browsers::Firefox.get_name(), "Firefox");
    assert_eq!(Browsers::LibrewolfPortable.get_name(), "Librewolf Portable");
    assert_eq!(Browsers::FirefoxBeta.get_exe_name(), "firefox.exe");
    assert_eq!(Browsers::LibrewolfPortable.get_exe_name(), "LibreWolf-Portable.exe");
    let custom = custom_kind();
    assert_eq!(custom.get_name(), "My Browser");
    assert_eq!(custom.get_exe_name(), "mybrowser.exe");
}

#[test]
fn icon_candidates() {
    assert_eq!(
        Browsers::Librewolf.icon_candidate("C:\\lw"),
        Some("C:\\lw\\browser\\VisualElements\\VisualElements_150.png".to_string())
    );
    assert_eq!(
        Browsers::FirefoxPortable.icon_candidate("C:\\p"),
        Some("C:\\p\\LibreWolf\\browser\\VisualElements\\VisualElements_150.png".to_string())
    );
    assert_eq!(custom_kind().icon_candidate("C:\\x"), Some("icons\\my.png".to_string()));
}

#[test]
fn icon_is_filtered_by_existence() {
    assert_eq!(
        Browsers::Librewolf.get_icon("C:\\lw", true),
        Some("C:\\lw\\browser\\VisualElements\\VisualElements_150.png".to_string())
    );
    assert_eq!(Browsers::Librewolf.get_icon("C:\\lw", false), None);
    // the custom kind's declared icon path is taken as given
    assert_eq!(custom_kind().get_icon("C:\\x", false), Some("icons\\my.png".to_string()));
}

#[test]
fn builtin_args_use_two_flag_convention() {
    let args = Browsers::Firefox.build_args("C:\\prof", "https://example.org");
    assert_eq!(
        args,
        vec![
            "--profile".to_string(),
            "C:\\prof".to_string(),
            "-url".to_string(),
            "https://example.org".to_string(),
        ]
    );
}

#[test]
fn custom_args_replace_exactly_the_two_slots() {
    let custom = custom_kind();
    let args = custom.build_args("C:\\prof", "https://example.org");
    assert_eq!(args.len(), 5);
    assert_eq!(args[0], "--profile-directory");
    assert_eq!(args[1], "C:\\prof");
    assert_eq!(args[2], "--open");
    assert_eq!(args[3], "https://example.org");
    assert_eq!(args[4], "--quiet");
}

#[test]
fn custom_args_profile_wins_shared_slot() {
    let a = ArgConstructor {
        uri_index: 0,
        profile_index: 0,
        args: vec!["SLOT".to_string()],
    };
    let args = a.construct_args("prof", "uri");
    assert_eq!(args, vec!["prof".to_string()]);
}

#[test]
fn registry_locations_per_family() {
    assert_eq!(
        Browsers::Firefox.registry_location(),
        Some(RegistryLocation::ConfigRelative("Mozilla\\Firefox\\profiles.ini".to_string()))
    );
    assert_eq!(
        Browsers::LibrewolfPortable.registry_location(),
        Some(RegistryLocation::ConfigRelative("librewolf\\profiles.ini".to_string()))
    );
    assert_eq!(custom_kind().registry_location(), None);
}

#[test]
fn portable_installation_synthesizes_profile() {
    // an installation directory holding LibreWolf-Portable.exe with a
    // Profiles\Default subdirectory
    let entries = vec!["LibreWolf-Portable.exe".to_string()];
    let detected = Browsers::detect_type(&entries);
    assert_eq!(detected, Some(Detection::Resolved(Browsers::LibrewolfPortable)));
    let kind = Browsers::LibrewolfPortable;
    let profiles = kind.find_profiles("C:\\Portables\\LibreWolfPortable", None, true);
    assert!(profiles.len() >= 1);
    assert_eq!(profiles[0].name, "LibrewolfPortable");
    assert_eq!(
        profiles[0].profile_path,
        join_path("C:\\Portables\\LibreWolfPortable", "Profiles\\Default")
    );
}

#[test]
fn portable_profiles_union_with_registry() {
    let reg = RegistryFile {
        parent_dir: "C:\\conf\\librewolf".to_string(),
        text: "[Profile0]\nName=reg\nPath=rel\nIsRelative=1\n".to_string(),
    };
    let profiles = Browsers::LibrewolfPortable.find_profiles("C:\\p", Some(&reg), true);
    assert_eq!(profiles.len(), 2);
    assert_eq!(profiles[0].name, "LibrewolfPortable");
    assert_eq!(profiles[1].name, "reg");
    assert_eq!(profiles[1].profile_path, "C:\\conf\\librewolf\\rel");
}

#[test]
fn portable_without_subdirectory_synthesizes_nothing() {
    let profiles = Browsers::FirefoxPortable.find_profiles("C:\\p", None, false);
    assert_eq!(profiles.len(), 0);
}

#[test]
fn custom_unions_registry_and_static_profiles() {
    let custom = custom_kind();
    let reg = RegistryFile {
        parent_dir: "C:\\custom".to_string(),
        text: "[Profile0]\nName=fromreg\nPath=C:\\reg\\p\nIsRelative=0\n".to_string(),
    };
    let profiles = custom.find_profiles("C:\\x", Some(&reg), false);
    assert_eq!(profiles.len(), 2);
    assert_eq!(profiles[0].name, "fromreg");
    assert_eq!(profiles[1].name, "static");
}

#[test]
fn known_channel_kind_reads_registry_only() {
    let reg = RegistryFile {
        parent_dir: "base".to_string(),
        text: "[Profile0]\nName=n\nPath=p\nIsRelative=1\n".to_string(),
    };
    let profiles = Browsers::Firefox.find_profiles("C:\\ff", Some(&reg), true);
    assert_eq!(profiles.len(), 1);
    assert_eq!(profiles[0].profile_path, "base\\p");
}
