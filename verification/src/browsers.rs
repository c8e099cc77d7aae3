//! The browser kinds: the fixed set of known channels and portables plus the
//! open-ended custom case, with detection, display names, executable names,
//! icon candidates, launch-argument construction and profile resolution.

use vstd::prelude::*;
use crate::ini::{ini_events, spec_parse_profiles, parse_profiles_ini};
use crate::profile::{Profile, SpecProfile, profiles_view, clone_profiles};
use crate::text::{spec_join_path, join_path, str_eq, strs_view, opt_view, clone_strings};

verus! {

/// Ordered launch-argument template for a custom browser kind: a list of
/// literal argument strings plus the two slots reserved for the live values.
#[derive(Debug, Clone, PartialEq)]
pub struct ArgConstructor {
    pub uri_index: usize,
    pub profile_index: usize,
    pub args: Vec<String>,
}

impl ArgConstructor {
    /// Both reserved slots lie inside the template. A contract on whoever
    /// authored the custom definition.
    pub open spec fn wf(&self) -> bool {
        self.uri_index < self.args.len() && self.profile_index < self.args.len()
    }

    /// The template with the URI slot overwritten first and the profile slot
    /// second; every other slot is left as authored.
    pub open spec fn spec_construct(&self, profile_path: Seq<char>, uri: Seq<char>) -> Seq<
        Seq<char>,
    > {
        strs_view(self.args@).update(self.uri_index as int, uri).update(
            self.profile_index as int,
            profile_path,
        )
    }

    /// Copies the template and overwrites exactly the two indexed slots with
    /// the live values.
    pub fn construct_args(&self, profile_path: &str, uri: &str) -> (r: Vec<String>)
        requires
            self.wf(),
        ensures
            strs_view(r@) == self.spec_construct(profile_path@, uri@),
    {
        let mut out = clone_strings(&self.args);
        proof {
            assert(strs_view(out@).len() == strs_view(self.args@).len());
            assert(out@.len() == self.args@.len());
        }
        out.set(self.uri_index, uri.to_owned());
        proof {
            assert(strs_view(out@) =~= strs_view(self.args@).update(self.uri_index as int, uri@));
        }
        let ghost mid = strs_view(out@);
        out.set(self.profile_index, profile_path.to_owned());
        proof {
            assert(strs_view(out@) =~= mid.update(self.profile_index as int, profile_path@));
        }
        out
    }
}

/// Constructing custom-kind arguments keeps the template's length and leaves
/// every slot other than the two indexed ones unchanged; the profile slot
/// always carries the profile path, and the URI slot carries the URI whenever
/// the two slots differ.
pub proof fn lemma_construct_args_slots(
    a: ArgConstructor,
    profile_path: Seq<char>,
    uri: Seq<char>,
)
    requires
        a.wf(),
    ensures
        a.spec_construct(profile_path, uri).len() == a.args@.len(),
        a.spec_construct(profile_path, uri)[a.profile_index as int] == profile_path,
        a.uri_index != a.profile_index ==> a.spec_construct(profile_path, uri)[a.uri_index as int]
            == uri,
        forall|i: int|
            0 <= i < a.args@.len() && i != a.uri_index && i != a.profile_index ==> a.spec_construct(
                profile_path,
                uri,
            )[i] == a.args@[i]@,
{
}

/// One discovered custom browser definition.
#[derive(Debug, Clone, PartialEq)]
pub struct CustomBrowser {
    pub exe: String,
    pub name: String,
    pub args: ArgConstructor,
    /// Relative to the installation path.
    pub ico_path: Option<String>,
    pub profile_ini: Option<String>,
    /// Either the registry file or this list may be empty, never both.
    pub hard_profiles: Vec<Profile>,
}

impl CustomBrowser {
    pub open spec fn wf(&self) -> bool {
        self.args.wf() && (self.profile_ini is Some || self.hard_profiles.len() > 0)
    }
}

/// A browser kind: a fixed set of known channels and portables, plus the
/// open-ended custom case.
#[derive(Debug, Clone, PartialEq)]
pub enum Browsers {
    Firefox,
    FirefoxNightly,
    FirefoxBeta,
    FirefoxDeveloper,
    FirefoxPortable,
    Librewolf,
    LibrewolfPortable,
    Custom(CustomBrowser),
}

/// The mathematical value of an argument template.
pub ghost struct SpecArgConstructor {
    pub uri_index: int,
    pub profile_index: int,
    pub args: Seq<Seq<char>>,
}

impl View for ArgConstructor {
    type V = SpecArgConstructor;

    open spec fn view(&self) -> SpecArgConstructor {
        SpecArgConstructor {
            uri_index: self.uri_index as int,
            profile_index: self.profile_index as int,
            args: strs_view(self.args@),
        }
    }
}

/// The mathematical value of a custom browser definition.
pub ghost struct SpecCustomBrowser {
    pub exe: Seq<char>,
    pub name: Seq<char>,
    pub args: SpecArgConstructor,
    pub ico_path: Option<Seq<char>>,
    pub profile_ini: Option<Seq<char>>,
    pub hard_profiles: Seq<SpecProfile>,
}

impl View for CustomBrowser {
    type V = SpecCustomBrowser;

    open spec fn view(&self) -> SpecCustomBrowser {
        SpecCustomBrowser {
            exe: self.exe@,
            name: self.name@,
            args: self.args@,
            ico_path: opt_view(self.ico_path),
            profile_ini: opt_view(self.profile_ini),
            hard_profiles: profiles_view(self.hard_profiles@),
        }
    }
}

/// The mathematical value of a kind.
pub ghost enum SpecBrowserKind {
    Firefox,
    FirefoxNightly,
    FirefoxBeta,
    FirefoxDeveloper,
    FirefoxPortable,
    Librewolf,
    LibrewolfPortable,
    Custom(SpecCustomBrowser),
}

impl View for Browsers {
    type V = SpecBrowserKind;

    open spec fn view(&self) -> SpecBrowserKind {
        match self {
            Browsers::Firefox => SpecBrowserKind::Firefox,
            Browsers::FirefoxNightly => SpecBrowserKind::FirefoxNightly,
            Browsers::FirefoxBeta => SpecBrowserKind::FirefoxBeta,
            Browsers::FirefoxDeveloper => SpecBrowserKind::FirefoxDeveloper,
            Browsers::FirefoxPortable => SpecBrowserKind::FirefoxPortable,
            Browsers::Librewolf => SpecBrowserKind::Librewolf,
            Browsers::LibrewolfPortable => SpecBrowserKind::LibrewolfPortable,
            Browsers::Custom(custom) => SpecBrowserKind::Custom(custom@),
        }
    }
}

fn clone_opt_string(o: &Option<String>) -> (r: Option<String>)
    ensures
        opt_view(r) == opt_view(*o),
{
    match o {
        Some(s) => Some(s.clone()),
        None => None,
    }
}

fn clone_custom(c: &CustomBrowser) -> (r: CustomBrowser)
    ensures
        r@ == c@,
        r.wf() == c.wf(),
{
    let r = CustomBrowser {
        exe: c.exe.clone(),
        name: c.name.clone(),
        args: ArgConstructor {
            uri_index: c.args.uri_index,
            profile_index: c.args.profile_index,
            args: clone_strings(&c.args.args),
        },
        ico_path: clone_opt_string(&c.ico_path),
        profile_ini: clone_opt_string(&c.profile_ini),
        hard_profiles: clone_profiles(&c.hard_profiles),
    };
    proof {
        assert(strs_view(r.args.args@).len() == strs_view(c.args.args@).len());
        assert(r.args.args@.len() == c.args.args@.len());
        assert(profiles_view(r.hard_profiles@).len() == profiles_view(c.hard_profiles@).len());
        assert(r.hard_profiles@.len() == c.hard_profiles@.len());
    }
    r
}

/// A copy of a kind whose value, and well-formedness, equal the original's.
pub fn clone_browser(b: &Browsers) -> (r: Browsers)
    ensures
        r@ == b@,
        r.wf() == b.wf(),
{
    match b {
        Browsers::Firefox => Browsers::Firefox,
        Browsers::FirefoxNightly => Browsers::FirefoxNightly,
        Browsers::FirefoxBeta => Browsers::FirefoxBeta,
        Browsers::FirefoxDeveloper => Browsers::FirefoxDeveloper,
        Browsers::FirefoxPortable => Browsers::FirefoxPortable,
        Browsers::Librewolf => Browsers::Librewolf,
        Browsers::LibrewolfPortable => Browsers::LibrewolfPortable,
        Browsers::Custom(custom) => Browsers::Custom(clone_custom(custom)),
    }
}

/// What scanning one directory entry decides: either a kind outright, or the
/// Firefox desktop family, whose exact channel the binary's own version
/// metadata must settle.
#[derive(Debug, Clone, PartialEq)]
pub enum Detection {
    Resolved(Browsers),
    FirefoxDesktop,
}

pub open spec fn spec_detect_entry(name: Seq<char>) -> Option<Detection> {
    if name == "firefox.exe"@ {
        Some(Detection::FirefoxDesktop)
    } else if name == "FirefoxPortable.exe"@ {
        Some(Detection::Resolved(Browsers::FirefoxPortable))
    } else if name == "librewolf.exe"@ {
        Some(Detection::Resolved(Browsers::Librewolf))
    } else if name == "LibreWolf-Portable.exe"@ {
        Some(Detection::Resolved(Browsers::LibrewolfPortable))
    } else {
        None
    }
}

/// The first entry that names a recognized executable decides; no entry
/// matching yields no match.
pub open spec fn spec_detect(entries: Seq<Seq<char>>) -> Option<Detection>
    decreases entries.len(),
{
    if entries.len() == 0 {
        None
    } else if spec_detect_entry(entries[0]) is Some {
        spec_detect_entry(entries[0])
    } else {
        spec_detect(entries.drop_first())
    }
}

/// A directory none of whose entries names a recognized executable yields
/// "no match" — never an error.
pub proof fn lemma_detect_no_match(entries: Seq<Seq<char>>)
    requires
        forall|i: int| 0 <= i < entries.len() ==> spec_detect_entry(entries[i]) is None,
    ensures
        spec_detect(entries) is None,
    decreases entries.len(),
{
    if entries.len() > 0 {
        assert(spec_detect_entry(entries[0]) is None);
        lemma_detect_no_match(entries.drop_first());
    }
}

/// The display name of a kind.
pub open spec fn spec_browser_name(b: Browsers) -> Seq<char> {
    match b {
        Browsers::Firefox => "Firefox"@,
        Browsers::FirefoxNightly => "Firefox Nightly"@,
        Browsers::FirefoxBeta => "Firefox Beta"@,
        Browsers::FirefoxDeveloper => "Firefox Developer"@,
        Browsers::FirefoxPortable => "Firefox Portable"@,
        Browsers::Librewolf => "Librewolf"@,
        Browsers::LibrewolfPortable => "Librewolf Portable"@,
        Browsers::Custom(custom) => custom.name@,
    }
}

/// The executable filename of a kind.
pub open spec fn spec_exe_name(b: Browsers) -> Seq<char> {
    match b {
        Browsers::Firefox => "firefox.exe"@,
        Browsers::FirefoxNightly => "firefox.exe"@,
        Browsers::FirefoxBeta => "firefox.exe"@,
        Browsers::FirefoxDeveloper => "firefox.exe"@,
        Browsers::FirefoxPortable => "FirefoxPortable.exe"@,
        Browsers::Librewolf => "librewolf.exe"@,
        Browsers::LibrewolfPortable => "LibreWolf-Portable.exe"@,
        Browsers::Custom(custom) => custom.exe@,
    }
}

/// Where a kind's icon would sit, relative to the path handed in; the custom
/// kind instead declares its own icon path outright, or none.
pub open spec fn spec_icon_candidate(b: Browsers, path: Seq<char>) -> Option<Seq<char>> {
    match b {
        Browsers::Custom(custom) => match custom.ico_path {
            Some(p) => Some(p@),
            None => None,
        },
        Browsers::FirefoxPortable | Browsers::LibrewolfPortable => Some(
            spec_join_path(path, "LibreWolf\\browser\\VisualElements\\VisualElements_150.png"@),
        ),
        _ => Some(spec_join_path(path, "browser\\VisualElements\\VisualElements_150.png"@)),
    }
}

/// A kind's icon: the candidate path when a file is really there, and
/// nothing otherwise. The custom kind's declared icon path is taken as
/// given, with no existence filter.
pub open spec fn spec_browser_icon(b: Browsers, path: Seq<char>, icon_file_exists: bool)
    -> Option<Seq<char>> {
    match b {
        Browsers::Custom(custom) => match custom.ico_path {
            Some(p) => Some(p@),
            None => None,
        },
        _ => if icon_file_exists {
            spec_icon_candidate(b, path)
        } else {
            None
        },
    }
}

/// The launch arguments for a kind: the built-in kinds use the fixed two-flag
/// convention, the custom kind fills its template's two reserved slots.
pub open spec fn spec_build_args(b: Browsers, profile_path: Seq<char>, uri: Seq<char>) -> Seq<
    Seq<char>,
> {
    match b {
        Browsers::Custom(custom) => custom.args.spec_construct(profile_path, uri),
        _ => seq!["--profile"@, profile_path, "-url"@, uri],
    }
}

/// The exact channel the version metadata text names; any other text falls
/// back to the baseline channel.
pub open spec fn spec_channel_of(version: Seq<char>) -> Browsers {
    if version == "Firefox Nightly"@ {
        Browsers::FirefoxNightly
    } else if version == "Firefox Beta"@ {
        Browsers::FirefoxBeta
    } else if version == "Firefox Developer"@ {
        Browsers::FirefoxDeveloper
    } else {
        Browsers::Firefox
    }
}

/// Maps the Firefox binary's internal version name to its channel; unmatched
/// text is the baseline channel.
pub fn channel_from_version(version: &str) -> (r: Browsers)
    ensures
        r == spec_channel_of(version@),
{
    if str_eq(version, "Firefox Nightly") {
        Browsers::FirefoxNightly
    } else if str_eq(version, "Firefox Beta") {
        Browsers::FirefoxBeta
    } else if str_eq(version, "Firefox Developer") {
        Browsers::FirefoxDeveloper
    } else {
        Browsers::Firefox
    }
}

/// Where a kind looks for its registry file.
pub ghost enum SpecRegistryLocation {
    /// Relative to the platform's configuration directory.
    ConfigRelative(Seq<char>),
    /// The custom kind's own path, used as given.
    Absolute(Seq<char>),
}

/// Where a kind looks for its registry file, as a value the caller can act on.
#[derive(Debug, Clone, PartialEq)]
pub enum RegistryLocation {
    ConfigRelative(String),
    Absolute(String),
}

impl View for RegistryLocation {
    type V = SpecRegistryLocation;

    open spec fn view(&self) -> SpecRegistryLocation {
        match self {
            RegistryLocation::ConfigRelative(p) => SpecRegistryLocation::ConfigRelative(p@),
            RegistryLocation::Absolute(p) => SpecRegistryLocation::Absolute(p@),
        }
    }
}

pub open spec fn spec_registry_location(b: Browsers) -> Option<SpecRegistryLocation> {
    match b {
        Browsers::Librewolf | Browsers::LibrewolfPortable => Some(
            SpecRegistryLocation::ConfigRelative("librewolf\\profiles.ini"@),
        ),
        Browsers::Custom(custom) => match custom.profile_ini {
            Some(p) => Some(SpecRegistryLocation::Absolute(p@)),
            None => None,
        },
        _ => Some(SpecRegistryLocation::ConfigRelative("Mozilla\\Firefox\\profiles.ini"@)),
    }
}

/// A registry file's text together with its parent directory, which anchors
/// the relative profile paths inside it.
#[derive(Debug, Clone, PartialEq)]
pub struct RegistryFile {
    pub parent_dir: String,
    pub text: String,
}

/// The mathematical value of a registry file.
pub ghost struct SpecRegistryFile {
    pub parent: Seq<char>,
    pub text: Seq<char>,
}

impl View for RegistryFile {
    type V = SpecRegistryFile;

    open spec fn view(&self) -> SpecRegistryFile {
        SpecRegistryFile { parent: self.parent_dir@, text: self.text@ }
    }
}

pub open spec fn opt_registry_view(o: Option<&RegistryFile>) -> Option<SpecRegistryFile> {
    match o {
        Some(r) => Some(r@),
        None => None,
    }
}

/// The profiles a registry file contributes: none when there is no readable
/// file.
pub open spec fn spec_registry_profiles(reg: Option<SpecRegistryFile>) -> Seq<SpecProfile> {
    match reg {
        Some(r) => spec_parse_profiles(ini_events(r.text), r.parent),
        None => Seq::empty(),
    }
}

/// The profiles a kind resolves: the portable kinds first synthesize one
/// profile at their well-known subdirectory when it exists, then union in the
/// registry file's profiles; the custom kind unions its registry file with
/// its static list.
pub open spec fn spec_find_profiles(
    b: Browsers,
    installation_path: Seq<char>,
    reg: Option<SpecRegistryFile>,
    portable_profile_exists: bool,
) -> Seq<SpecProfile> {
    match b {
        Browsers::FirefoxPortable => (if portable_profile_exists {
            seq![
                SpecProfile {
                    name: "FirefoxPortable"@,
                    path: spec_join_path(installation_path, "Data\\profile"@),
                },
            ]
        } else {
            Seq::empty()
        }) + spec_registry_profiles(reg),
        Browsers::LibrewolfPortable => (if portable_profile_exists {
            seq![
                SpecProfile {
                    name: "LibrewolfPortable"@,
                    path: spec_join_path(installation_path, "Profiles\\Default"@),
                },
            ]
        } else {
            Seq::empty()
        }) + spec_registry_profiles(reg),
        Browsers::Custom(custom) => spec_registry_profiles(reg) + profiles_view(
            custom.hard_profiles@,
        ),
        _ => spec_registry_profiles(reg),
    }
}

impl Browsers {
    /// A kind is well formed when its custom definition, if any, is.
    pub open spec fn wf(&self) -> bool {
        match self {
            Browsers::Custom(custom) => custom.wf(),
            _ => true,
        }
    }

    /// Scans directory entry names for one of the recognized executable
    /// filenames; the first match decides. Never an error: an unrecognized
    /// directory is simply no match.
    pub fn detect_type(entries: &Vec<String>) -> (r: Option<Detection>)
        ensures
            r == spec_detect(strs_view(entries@)),
    {
        let n = entries.len();
        proof {
            assert(strs_view(entries@).subrange(0, n as int) =~= strs_view(entries@));
        }
        let mut i: usize = 0;
        while i < n
            invariant
                0 <= i <= n,
                n == entries@.len(),
                spec_detect(strs_view(entries@)) == spec_detect(
                    strs_view(entries@).subrange(i as int, n as int),
                ),
            decreases n - i,
        {
            let entry = &entries[i];
            let found: Option<Detection> = if str_eq(entry.as_str(), "firefox.exe") {
                Some(Detection::FirefoxDesktop)
            } else if str_eq(entry.as_str(), "FirefoxPortable.exe") {
                Some(Detection::Resolved(Browsers::FirefoxPortable))
            } else if str_eq(entry.as_str(), "librewolf.exe") {
                Some(Detection::Resolved(Browsers::Librewolf))
            } else if str_eq(entry.as_str(), "LibreWolf-Portable.exe") {
                Some(Detection::Resolved(Browsers::LibrewolfPortable))
            } else {
                None
            };
            proof {
                assert(strs_view(entries@).subrange(i as int, n as int)[0] == entries@[
                    i as int
                ]@);
                assert(strs_view(entries@).subrange(i as int, n as int).drop_first()
                    =~= strs_view(entries@).subrange(i + 1, n as int));
            }
            if let Some(d) = found {
                return Some(d);
            }
            i = i + 1;
        }
        proof {
            assert(strs_view(entries@).subrange(n as int, n as int) =~= Seq::<Seq<char>>::empty());
        }
        None
    }

    /// The kind's display name.
    pub fn get_name(&self) -> (r: &str)
        ensures
            r@ == spec_browser_name(*self),
    {
        match self {
            Browsers::Firefox => "Firefox",
            Browsers::FirefoxNightly => "Firefox Nightly",
            Browsers::FirefoxBeta => "Firefox Beta",
            Browsers::FirefoxDeveloper => "Firefox Developer",
            Browsers::FirefoxPortable => "Firefox Portable",
            Browsers::Librewolf => "Librewolf",
            Browsers::LibrewolfPortable => "Librewolf Portable",
            Browsers::Custom(custom) => custom.name.as_str(),
        }
    }

    /// The kind's executable filename.
    pub fn get_exe_name(&self) -> (r: &str)
        ensures
            r@ == spec_exe_name(*self),
    {
        match self {
            Browsers::Firefox => "firefox.exe",
            Browsers::FirefoxNightly => "firefox.exe",
            Browsers::FirefoxBeta => "firefox.exe",
            Browsers::FirefoxDeveloper => "firefox.exe",
            Browsers::FirefoxPortable => "FirefoxPortable.exe",
            Browsers::Librewolf => "librewolf.exe",
            Browsers::LibrewolfPortable => "LibreWolf-Portable.exe",
            Browsers::Custom(custom) => custom.exe.as_str(),
        }
    }

    /// The path where the kind's icon would sit, under the path handed in.
    /// The caller tests whether a file is really there and hands the answer
    /// to `get_icon`.
    pub fn icon_candidate(&self, installation_path: &str) -> (r: Option<String>)
        ensures
            opt_view(r) == spec_icon_candidate(*self, installation_path@),
    {
        match self {
            Browsers::Custom(custom) => match &custom.ico_path {
                Some(p) => Some(p.clone()),
                None => None,
            },
            Browsers::FirefoxPortable | Browsers::LibrewolfPortable => Some(
                join_path(
                    installation_path,
                    "LibreWolf\\browser\\VisualElements\\VisualElements_150.png",
                ),
            ),
            _ => Some(join_path(installation_path, "browser\\VisualElements\\VisualElements_150.png")),
        }
    }

    /// The kind's icon: the candidate path when `icon_file_exists` says a
    /// file is really there, nothing otherwise; the custom kind's declared
    /// icon path is returned as given.
    pub fn get_icon(&self, installation_path: &str, icon_file_exists: bool) -> (r: Option<String>)
        ensures
            opt_view(r) == spec_browser_icon(*self, installation_path@, icon_file_exists),
    {
        match self {
            Browsers::Custom(custom) => match &custom.ico_path {
                Some(p) => Some(p.clone()),
                None => None,
            },
            _ => {
                if icon_file_exists {
                    self.icon_candidate(installation_path)
                } else {
                    None
                }
            },
        }
    }

    /// The full ordered launch-argument list for opening `uri` with the given
    /// profile under this kind.
    pub fn build_args(&self, profile_path: &str, uri: &str) -> (r: Vec<String>)
        requires
            self.wf(),
        ensures
            strs_view(r@) == spec_build_args(*self, profile_path@, uri@),
    {
        match self {
            Browsers::Custom(custom) => custom.args.construct_args(profile_path, uri),
            _ => {
                let mut out: Vec<String> = Vec::new();
                out.push("--profile".to_owned());
                out.push(profile_path.to_owned());
                out.push("-url".to_owned());
                out.push(uri.to_owned());
                proof {
                    assert(strs_view(out@) =~= seq!["--profile"@, profile_path@, "-url"@, uri@]);
                }
                out
            },
        }
    }

    /// Where this kind's registry file lives, if it has one.
    pub fn registry_location(&self) -> (r: Option<RegistryLocation>)
        ensures
            match r {
                Some(loc) => spec_registry_location(*self) == Some(loc@),
                None => spec_registry_location(*self) is None,
            },
    {
        match self {
            Browsers::Librewolf | Browsers::LibrewolfPortable => Some(
                RegistryLocation::ConfigRelative("librewolf\\profiles.ini".to_owned()),
            ),
            Browsers::Custom(custom) => match &custom.profile_ini {
                Some(p) => Some(RegistryLocation::Absolute(p.clone())),
                None => None,
            },
            _ => Some(
                RegistryLocation::ConfigRelative("Mozilla\\Firefox\\profiles.ini".to_owned()),
            ),
        }
    }

    /// Resolves the profiles for this kind. `registry` is the kind's registry
    /// file where one could be read; `portable_profile_exists` says whether
    /// the portable kinds' well-known profile subdirectory exists under the
    /// installation path. Never fails; an empty result means "not
    /// resolvable".
    pub fn find_profiles(
        &self,
        installation_path: &str,
        registry: Option<&RegistryFile>,
        portable_profile_exists: bool,
    ) -> (r: Vec<Profile>)
        ensures
            profiles_view(r@) == spec_find_profiles(
                *self,
                installation_path@,
                opt_registry_view(registry),
                portable_profile_exists,
            ),
    {
        let mut profiles: Vec<Profile> = Vec::new();
        match self {
            Browsers::FirefoxPortable => {
                if portable_profile_exists {
                    profiles.push(
                        Profile {
                            name: "FirefoxPortable".to_owned(),
                            profile_path: join_path(installation_path, "Data\\profile"),
                        },
                    );
                }
            },
            Browsers::LibrewolfPortable => {
                if portable_profile_exists {
                    profiles.push(
                        Profile {
                            name: "LibrewolfPortable".to_owned(),
                            profile_path: join_path(installation_path, "Profiles\\Default"),
                        },
                    );
                }
            },
            _ => {},
        }
        if let Some(reg) = registry {
            let mut parsed = parse_profiles_ini(reg.text.as_str(), reg.parent_dir.as_str());
            profiles.append(&mut parsed);
        }
        if let Browsers::Custom(custom) = self {
            let mut hard = clone_profiles(&custom.hard_profiles);
            profiles.append(&mut hard);
        }
        proof {
            assert(profiles_view(profiles@) =~= spec_find_profiles(
                *self,
                installation_path@,
                opt_registry_view(registry),
                portable_profile_exists,
            ));
        }
        profiles
    }
}

} // verus!
