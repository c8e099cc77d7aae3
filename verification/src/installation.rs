//! One discovered browser installation: its kind, executable, alias paths,
//! profile snapshot and the preferred-executable memo keyed by profile path.

use vstd::prelude::*;
use crate::browsers::{Browsers, spec_browser_name, spec_browser_icon, spec_exe_name};
use crate::profile::Profile;
use crate::text::{spec_join_path, spec_parent_dir, join_path, parent_dir, opt_view, str_eq};

verus! {

/// The key-value pairs a preferred-executable memo stands for.
pub open spec fn pref_view(s: Seq<(String, String)>) -> Seq<(Seq<char>, Seq<char>)> {
    s.map_values(|p: (String, String)| (p.0@, p.1@))
}

/// The value recorded for a key: the first pair that carries it.
pub open spec fn spec_pref_lookup(m: Seq<(Seq<char>, Seq<char>)>, k: Seq<char>) -> Option<
    Seq<char>,
>
    decreases m.len(),
{
    if m.len() == 0 {
        None
    } else if m[0].0 == k {
        Some(m[0].1)
    } else {
        spec_pref_lookup(m.drop_first(), k)
    }
}

/// Recording a value: the first pair carrying the key is overwritten, or a
/// new pair is appended when the key is new.
pub open spec fn spec_pref_insert(
    m: Seq<(Seq<char>, Seq<char>)>,
    k: Seq<char>,
    v: Seq<char>,
) -> Seq<(Seq<char>, Seq<char>)>
    decreases m.len(),
{
    if m.len() == 0 {
        seq![(k, v)]
    } else if m[0].0 == k {
        seq![(k, v)] + m.drop_first()
    } else {
        seq![m[0]] + spec_pref_insert(m.drop_first(), k, v)
    }
}

/// After recording a value for a key, looking that key up yields exactly that
/// value, and every other key still yields what it did before.
pub proof fn lemma_pref_insert_lookup(
    m: Seq<(Seq<char>, Seq<char>)>,
    k: Seq<char>,
    v: Seq<char>,
    k2: Seq<char>,
)
    ensures
        spec_pref_lookup(spec_pref_insert(m, k, v), k) == Some(v),
        k2 != k ==> spec_pref_lookup(spec_pref_insert(m, k, v), k2) == spec_pref_lookup(m, k2),
    decreases m.len(),
{
    if m.len() == 0 {
        let r = seq![(k, v)];
        assert(spec_pref_insert(m, k, v) == r);
        assert(r[0] == (k, v));
        assert(r.drop_first() =~= Seq::<(Seq<char>, Seq<char>)>::empty());
        if k2 != k {
            assert(spec_pref_lookup(r, k2) == spec_pref_lookup(r.drop_first(), k2));
        }
    } else if m[0].0 == k {
        let r = seq![(k, v)] + m.drop_first();
        assert(r[0] == (k, v));
        assert(r.drop_first() =~= m.drop_first());
    } else {
        let r = seq![m[0]] + spec_pref_insert(m.drop_first(), k, v);
        assert(r[0] == m[0]);
        assert(r.drop_first() =~= spec_pref_insert(m.drop_first(), k, v));
        lemma_pref_insert_lookup(m.drop_first(), k, v, k2);
    }
}

/// Every key of the memo after a record is either the recorded key or was a
/// key before.
pub proof fn lemma_pref_insert_keys(m: Seq<(Seq<char>, Seq<char>)>, k: Seq<char>, v: Seq<char>)
    ensures
        forall|i: int|
            0 <= i < spec_pref_insert(m, k, v).len() ==> spec_pref_insert(m, k, v)[i].0 == k
                || exists|j: int| 0 <= j < m.len() && m[j].0 == #[trigger] spec_pref_insert(
                m,
                k,
                v,
            )[i].0,
    decreases m.len(),
{
    if m.len() == 0 {
    } else if m[0].0 == k {
        let r = seq![(k, v)] + m.drop_first();
        assert forall|i: int| 0 <= i < r.len() implies r[i].0 == k || exists|j: int|
            0 <= j < m.len() && m[j].0 == r[i].0 by {
            if i > 0 {
                assert(r[i] == m.drop_first()[i - 1]);
                assert(m[i] == r[i]);
            }
        }
    } else {
        lemma_pref_insert_keys(m.drop_first(), k, v);
        let r = seq![m[0]] + spec_pref_insert(m.drop_first(), k, v);
        assert forall|i: int| 0 <= i < r.len() implies r[i].0 == k || exists|j: int|
            0 <= j < m.len() && m[j].0 == r[i].0 by {
            if i == 0 {
                assert(m[0].0 == r[0].0);
            } else {
                let t = spec_pref_insert(m.drop_first(), k, v);
                assert(r[i] == t[i - 1]);
                if t[i - 1].0 != k {
                    let j = choose|j: int|
                        0 <= j < m.drop_first().len() && m.drop_first()[j].0 == t[i - 1].0;
                    assert(m[j + 1].0 == r[i].0);
                }
            }
        }
    }
}

proof fn lemma_pref_insert_found(
    m: Seq<(Seq<char>, Seq<char>)>,
    k: Seq<char>,
    v: Seq<char>,
    i: int,
)
    requires
        0 <= i < m.len(),
        m[i].0 == k,
        forall|j: int| 0 <= j < i ==> m[j].0 != k,
    ensures
        spec_pref_insert(m, k, v) == m.update(i, (k, v)),
    decreases m.len(),
{
    if i == 0 {
        assert(spec_pref_insert(m, k, v) =~= m.update(0, (k, v)));
    } else {
        assert(m.drop_first()[i - 1].0 == k);
        lemma_pref_insert_found(m.drop_first(), k, v, i - 1);
        assert(spec_pref_insert(m, k, v) =~= m.update(i, (k, v))) by {
            assert(m.drop_first().update(i - 1, (k, v)) =~= m.update(i, (k, v)).drop_first());
        };
    }
}

proof fn lemma_pref_insert_missing(m: Seq<(Seq<char>, Seq<char>)>, k: Seq<char>, v: Seq<char>)
    requires
        forall|j: int| 0 <= j < m.len() ==> m[j].0 != k,
    ensures
        spec_pref_insert(m, k, v) == m.push((k, v)),
    decreases m.len(),
{
    if m.len() == 0 {
        assert(spec_pref_insert(m, k, v) =~= m.push((k, v)));
    } else {
        assert(m.drop_first()[0] == m[1] || m.len() == 1);
        lemma_pref_insert_missing(m.drop_first(), k, v);
        assert(spec_pref_insert(m, k, v) =~= m.push((k, v))) by {
            assert(m.drop_first().push((k, v)) =~= m.push((k, v)).drop_first());
        };
    }
}

/// The position of the first pair carrying the key, if any.
fn find_pref_index(prefs: &Vec<(String, String)>, key: &str) -> (r: Option<usize>)
    ensures
        match r {
            Some(fi) => fi < prefs@.len() && pref_view(prefs@)[fi as int].0 == key@ && forall|
                j: int,
            | 0 <= j < fi ==> pref_view(prefs@)[j].0 != key@,
            None => forall|j: int| 0 <= j < prefs@.len() ==> pref_view(prefs@)[j].0 != key@,
        },
{
    let n = prefs.len();
    let mut i: usize = 0;
    while i < n
        invariant
            0 <= i <= n,
            n == prefs@.len(),
            forall|j: int| 0 <= j < i ==> pref_view(prefs@)[j].0 != key@,
        decreases n - i,
    {
        if str_eq(prefs[i].0.as_str(), key) {
            return Some(i);
        }
        i = i + 1;
    }
    None
}

/// Why discovery rejects a directory.
#[derive(Debug, Clone, PartialEq)]
pub enum DiscoveryError {
    /// No recognized executable was found there.
    UnknownBrowserType,
    /// The kind was recognized but resolved no profiles.
    NoProfilesFound,
}

/// The display name an installation presents: the override when set, the
/// kind's name otherwise.
pub open spec fn spec_inst_name(inst: Installation) -> Seq<char> {
    match inst.name {
        Some(n) => n@,
        None => spec_browser_name(inst.browser_type),
    }
}

/// One discovered instance of a supported browser application.
#[derive(Debug, Clone, PartialEq)]
pub struct Installation {
    /// An optional display-name override.
    pub name: Option<String>,
    pub browser_type: Browsers,
    /// The primary executable path.
    pub exe_path: String,
    /// Alias paths resolving to the same executable.
    pub symlinks: Vec<String>,
    /// Preferred executable path per profile path.
    pub preferred: Vec<(String, String)>,
    /// The profile snapshot taken at discovery; never empty.
    pub profiles: Vec<Profile>,
    pub last_used: Option<Profile>,
}

impl Installation {
    /// The invariants discovery establishes: at least one profile, a well
    /// formed kind, and memo keys that are paths of profiles in the snapshot.
    pub open spec fn wf(&self) -> bool {
        &&& self.profiles.len() > 0
    &&& self.browser_type.wf()
    &&& forall|i: int|
            0 <= i < pref_view(self.preferred@).len() ==> exists|j: int|
                0 <= j < self.profiles@.len() && self.profiles@[j]@.path
                    == #[trigger] pref_view(self.preferred@)[i].0
    }

    /// Assembles an installation from what discovery found: the detected
    /// kind, if any, and the profiles the kind resolved. A directory with no
    /// recognized kind, or one whose kind resolved no profiles, is rejected.
    pub fn from_installation_path(
        installation_path: &str,
        detected: Option<Browsers>,
        profiles: Vec<Profile>,
    ) -> (r: Result<Installation, DiscoveryError>)
        requires
            (detected matches Some(b) ==> b.wf()),
        ensures
            (detected is None <==> r == Err::<Installation, DiscoveryError>(
                DiscoveryError::UnknownBrowserType,
            )),
            (detected is Some && profiles@.len() == 0 <==> r == Err::<Installation, DiscoveryError>(
                DiscoveryError::NoProfilesFound,
            )),
            (r matches Ok(inst) ==> {
                &&& detected matches Some(b) && inst.browser_type == b
            &&& inst.name is None
            &&& inst.exe_path@ == spec_join_path(
                    installation_path@,
                    spec_exe_name(inst.browser_type),
                )
            &&& inst.symlinks@.len() == 0
            &&& inst.preferred@.len() == 0
            &&& inst.profiles == profiles
            &&& inst.last_used is None
            &&& inst.wf()
            }),
    {
        let browser_type = match detected {
            Some(b) => b,
            None => {
                return Err(DiscoveryError::UnknownBrowserType);
            },
        };
        if profiles.len() == 0 {
            return Err(DiscoveryError::NoProfilesFound);
        }
        let exe_path = join_path(installation_path, browser_type.get_exe_name());
        Ok(
            Installation {
                name: None,
                browser_type,
                exe_path,
                symlinks: Vec::new(),
                preferred: Vec::new(),
                profiles,
                last_used: None,
            },
        )
    }

    /// This installation's icon, looked up under the installation directory
    /// (the primary executable's parent); the caller tests whether the
    /// candidate file exists and hands the answer in.
    pub fn get_icon(&self, icon_file_exists: bool) -> (r: Option<String>)
        ensures
            opt_view(r) == spec_browser_icon(
                self.browser_type,
                spec_parent_dir(self.exe_path@),
                icon_file_exists,
            ),
    {
        let dir = parent_dir(self.exe_path.as_str());
        self.browser_type.get_icon(dir.as_str(), icon_file_exists)
    }

    /// The display name: the override when set, the kind's name otherwise.
    pub fn get_name(&self) -> (r: &str)
        ensures
            r@ == spec_inst_name(*self),
    {
        match &self.name {
            Some(n) => n.as_str(),
            None => self.browser_type.get_name(),
        }
    }

    /// Records an alias path, provided the caller has resolved it to the same
    /// parent directory as the primary executable (`same_parent`).
    pub fn add_symlink(&mut self, installation_path: &str, same_parent: bool) -> (r: bool)
        ensures
            r == same_parent,
            crate::text::strs_view(final(self).symlinks@) == if same_parent {
                crate::text::strs_view(old(self).symlinks@).push(installation_path@)
            } else {
                crate::text::strs_view(old(self).symlinks@)
            },
            final(self).name == old(self).name,
            final(self).browser_type == old(self).browser_type,
            final(self).exe_path == old(self).exe_path,
            final(self).preferred == old(self).preferred,
            final(self).profiles == old(self).profiles,
            final(self).last_used == old(self).last_used,
    {
        if same_parent {
            self.symlinks.push(installation_path.to_owned());
            return true;
        }
        false
    }

    /// Removes the first alias equal to the given path, if any; reports
    /// whether one was removed.
    pub fn remove_symlink(&mut self, installation_path: &str) -> (r: bool)
        ensures
            r == exists|i: int|
                0 <= i < old(self).symlinks@.len() && old(self).symlinks@[i]@
                    == installation_path@,
            !r ==> *final(self) == *old(self),
            r ==> exists|i: int|
                {
                    &&& 0 <= i < old(self).symlinks@.len()
                &&& old(self).symlinks@[i]@ == installation_path@
                &&& (forall|j: int| 0 <= j < i ==> old(self).symlinks@[j]@ != installation_path@)
                &&& final(self).symlinks@ == old(self).symlinks@.remove(i)
                },
            final(self).name == old(self).name,
            final(self).browser_type == old(self).browser_type,
            final(self).exe_path == old(self).exe_path,
            final(self).preferred == old(self).preferred,
            final(self).profiles == old(self).profiles,
            final(self).last_used == old(self).last_used,
    {
        let n = self.symlinks.len();
        let mut i: usize = 0;
        while i < n
            invariant
                0 <= i <= n,
                n == self.symlinks@.len(),
                forall|j: int| 0 <= j < i ==> self.symlinks@[j]@ != installation_path@,
                *self == *old(self),
            decreases n - i,
        {
            if str_eq(self.symlinks[i].as_str(), installation_path) {
                self.symlinks.remove(i);
                return true;
            }
            i = i + 1;
        }
        false
    }

    /// The preferred executable recorded for a profile path, if any.
    pub fn get_preferred(&self, profile_path: &str) -> (r: Option<String>)
        ensures
            opt_view(r) == spec_pref_lookup(pref_view(self.preferred@), profile_path@),
    {
        let n = self.preferred.len();
        proof {
            assert(pref_view(self.preferred@).subrange(0, n as int) =~= pref_view(
                self.preferred@,
            ));
        }
        let mut i: usize = 0;
        while i < n
            invariant
                0 <= i <= n,
                n == self.preferred@.len(),
                spec_pref_lookup(pref_view(self.preferred@), profile_path@) == spec_pref_lookup(
                    pref_view(self.preferred@).subrange(i as int, n as int),
                    profile_path@,
                ),
            decreases n - i,
        {
            proof {
                assert(pref_view(self.preferred@).subrange(i as int, n as int)[0] == (
                    self.preferred@[i as int].0@,
                    self.preferred@[i as int].1@,
                ));
                assert(pref_view(self.preferred@).subrange(i as int, n as int).drop_first()
                    =~= pref_view(self.preferred@).subrange(i + 1, n as int));
            }
            if str_eq(self.preferred[i].0.as_str(), profile_path) {
                return Some(self.preferred[i].1.clone());
            }
            i = i + 1;
        }
        proof {
            assert(pref_view(self.preferred@).subrange(n as int, n as int) =~= Seq::<
                (Seq<char>, Seq<char>),
            >::empty());
        }
        None
    }

    /// Records the preferred executable for a profile path, overwriting any
    /// earlier record for the same path.
    pub fn set_preferred(&mut self, profile_path: &str, exe: &str)
        ensures
            pref_view(final(self).preferred@) == spec_pref_insert(
                pref_view(old(self).preferred@),
                profile_path@,
                exe@,
            ),
            final(self).name == old(self).name,
            final(self).browser_type == old(self).browser_type,
            final(self).exe_path == old(self).exe_path,
            final(self).symlinks == old(self).symlinks,
            final(self).profiles == old(self).profiles,
            final(self).last_used == old(self).last_used,
            (old(self).wf() && exists|j: int|
                0 <= j < old(self).profiles@.len() && old(self).profiles@[j]@.path
                    == profile_path@) ==> final(self).wf(),
    {
        let ghost m = pref_view(self.preferred@);
        let found = find_pref_index(&self.preferred, profile_path);
        match found {
            Some(fi) => {
                self.preferred.set(fi, (profile_path.to_owned(), exe.to_owned()));
                proof {
                    lemma_pref_insert_found(m, profile_path@, exe@, fi as int);
                    assert(pref_view(self.preferred@) =~= m.update(
                        fi as int,
                        (profile_path@, exe@),
                    ));
                }
            },
            None => {
                self.preferred.push((profile_path.to_owned(), exe.to_owned()));
                proof {
                    lemma_pref_insert_missing(m, profile_path@, exe@);
                    assert(pref_view(self.preferred@) =~= m.push((profile_path@, exe@)));
                }
            },
        }
        proof {
            if old(self).wf() && exists|j: int|
                0 <= j < old(self).profiles@.len() && old(self).profiles@[j]@.path
                    == profile_path@ {
                lemma_pref_insert_keys(m, profile_path@, exe@);
                let newm = pref_view(self.preferred@);
                assert forall|i: int| 0 <= i < newm.len() implies exists|j: int|
                    0 <= j < self.profiles@.len() && self.profiles@[j]@.path == #[trigger] newm[
                    i
                ].0 by {
                    assert(spec_pref_insert(m, profile_path@, exe@)[i].0 == newm[i].0);
                    if newm[i].0 == profile_path@ {
                        let j0 = choose|j0: int|
                            0 <= j0 < old(self).profiles@.len() && old(self).profiles@[j0]@.path
                                == profile_path@;
                        assert(self.profiles@[j0]@.path == newm[i].0);
                    } else {
                        let j1 = choose|j1: int| 0 <= j1 < m.len() && m[j1].0 == newm[i].0;
                        assert(pref_view(old(self).preferred@)[j1].0 == newm[i].0);
                        let j2 = choose|j2: int|
                            0 <= j2 < old(self).profiles@.len() && old(self).profiles@[j2]@.path
                                == pref_view(old(self).preferred@)[j1].0;
                        assert(self.profiles@[j2]@.path == newm[i].0);
                    }
                }
                assert(final(self).wf());
            }
        }
    }
}

} // verus!
