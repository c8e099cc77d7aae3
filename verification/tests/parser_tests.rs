use plinks::ini::parse_profiles_ini;
use plinks::text::join_path;
use plinks::text::parent_dir;
use plinks::text::trims_to_one;

#[test]
fn well_formed_relative_profile_is_joined() {
    let text = "[Profile0]\nName=default\nPath=Profiles/abc.default\nIsRelative=1\n";
    let profiles = parse_profiles_ini(text, "C:\\conf");
    assert_eq!(profiles.len(), 1);
    assert_eq!(profiles[0].name, "default");
    assert_eq!(profiles[0].profile_path, "C:\\conf\\Profiles/abc.default");
}

#[test]
fn non_one_isrelative_keeps_path_verbatim() {
    let text = "[Profile0]\nName=abs\nPath=C:\\Users\\me\\prof\nIsRelative=0\n";
    let profiles = parse_profiles_ini(text, "C:\\conf");
    assert_eq!(profiles.len(), 1);
    assert_eq!(profiles[0].profile_path, "C:\\Users\\me\\prof");
}

#[test]
fn two_sections_in_file_order() {
    let text = "[Profile0]\nName=default\nPath=Profiles/abc.default\nIsRelative=1\n\n\
                [Profile1]\nName=other\nPath=D:\\other\nIsRelative=2\n";
    let profiles = parse_profiles_ini(text, "C:\\conf");
    assert_eq!(profiles.len(), 2);
    assert_eq!(profiles[0].name, "default");
    assert_eq!(profiles[0].profile_path, "C:\\conf\\Profiles/abc.default");
    assert_eq!(profiles[1].name, "other");
    // "2" is not "1", so the path counts as absolute
    assert_eq!(profiles[1].profile_path, "D:\\other");
}

#[test]
fn section_missing_path_yields_nothing() {
    let text = "[Profile0]\nName=default\nIsRelative=1\n";
    let profiles = parse_profiles_ini(text, "C:\\conf");
    assert_eq!(profiles.len(), 0);
}

#[test]
fn section_missing_name_yields_nothing() {
    let text = "[Profile0]\nPath=p\nIsRelative=1\n";
    assert_eq!(parse_profiles_ini(text, "base").len(), 0);
}

#[test]
fn section_missing_isrelative_yields_nothing() {
    let text = "[Profile0]\nName=n\nPath=p\n";
    assert_eq!(parse_profiles_ini(text, "base").len(), 0);
}

#[test]
fn empty_malformed_section_does_not_affect_the_next() {
    let text = "[Profile0]\n\n[Profile1]\nName=n\nPath=p\nIsRelative=0\n";
    let profiles = parse_profiles_ini(text, "base");
    assert_eq!(profiles.len(), 1);
    assert_eq!(profiles[0].name, "n");
    assert_eq!(profiles[0].profile_path, "p");
}

#[test]
fn repeated_key_keeps_first_value() {
    let text = "[Profile0]\nName=first\nName=second\nPath=p\nIsRelative=0\n";
    let profiles = parse_profiles_ini(text, "base");
    assert_eq!(profiles.len(), 1);
    assert_eq!(profiles[0].name, "first");
}

#[test]
fn repeated_isrelative_keeps_first_value() {
    let text = "[Profile0]\nName=n\nPath=p\nIsRelative=0\nIsRelative=1\n";
    let profiles = parse_profiles_ini(text, "base");
    assert_eq!(profiles.len(), 1);
    assert_eq!(profiles[0].profile_path, "p");
}

#[test]
fn key_without_value_stays_unset() {
    // "Name" alone parses as a property without a value: the accumulator
    // stays unset, so a later occurrence with a value is captured
    let text = "[Profile0]\nName\nName=real\nPath=p\nIsRelative=0\n";
    let profiles = parse_profiles_ini(text, "base");
    assert_eq!(profiles.len(), 1);
    assert_eq!(profiles[0].name, "real");
}

#[test]
fn non_profile_sections_are_ignored() {
    let text = "[General]\nName=n\nPath=p\nIsRelative=0\n\n[Install4F96D1932A9F858E]\nDefault=x\n";
    assert_eq!(parse_profiles_ini(text, "base").len(), 0);
}

#[test]
fn duplicate_profiles_are_kept() {
    let text = "[Profile0]\nName=n\nPath=p\nIsRelative=0\n\n[Profile1]\nName=n\nPath=p\nIsRelative=0\n";
    assert_eq!(parse_profiles_ini(text, "base").len(), 2);
}

#[test]
fn comments_and_blanks_are_ignored() {
    let text = ";leading comment\n\n[Profile0]\n#note\nName=n\n\nPath=p\nIsRelative=1\n";
    let profiles = parse_profiles_ini(text, "base");
    assert_eq!(profiles.len(), 1);
    assert_eq!(profiles[0].profile_path, "base\\p");
}

#[test]
fn trims_to_one_ignores_surrounding_whitespace() {
    assert!(trims_to_one("1"));
    assert!(trims_to_one(" 1 "));
    assert!(trims_to_one("\t1\r\n"));
    assert!(!trims_to_one("10"));
    assert!(!trims_to_one("0"));
    assert!(!trims_to_one(""));
    assert!(!trims_to_one("  "));
    assert!(!trims_to_one("1 1"));
}

#[test]
fn join_path_inserts_separator_only_when_needed() {
    assert_eq!(join_path("C:\\conf", "p"), "C:\\conf\\p");
    assert_eq!(join_path("C:\\conf\\", "p"), "C:\\conf\\p");
    assert_eq!(join_path("dir/", "p"), "dir/p");
    assert_eq!(join_path("", "p"), "p");
}

#[test]
fn parent_dir_drops_the_last_component() {
    assert_eq!(parent_dir("C:\\lw\\librewolf.exe"), "C:\\lw");
    assert_eq!(parent_dir("dir/sub/file"), "dir/sub");
    assert_eq!(parent_dir("file"), "");
    assert_eq!(parent_dir(""), "");
}
