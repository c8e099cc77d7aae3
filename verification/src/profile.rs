//! The Profile type: a named user-data directory usable by a browser
//! installation.

use vstd::prelude::*;

verus! {

/// The mathematical value of a `Profile`: its name and path as character
/// sequences.
pub ghost struct SpecProfile {
    pub name: Seq<char>,
    pub path: Seq<char>,
}

/// A named user-data directory usable by a browser installation.
#[derive(Debug, Clone, PartialEq)]
pub struct Profile {
    pub name: String,
    pub profile_path: String,
}

impl View for Profile {
    type V = SpecProfile;

    open spec fn view(&self) -> SpecProfile {
        SpecProfile { name: self.name@, path: self.profile_path@ }
    }
}

/// The sequence of profile values a vector of profiles stands for.
pub open spec fn profiles_view(v: Seq<Profile>) -> Seq<SpecProfile> {
    v.map_values(|p: Profile| p@)
}

/// A field-by-field copy whose value equals the original's.
pub fn clone_profile(p: &Profile) -> (r: Profile)
    ensures
        r@ == p@,
{
    Profile { name: p.name.clone(), profile_path: p.profile_path.clone() }
}

/// Copies a profile list, keeping every value and the order.
pub fn clone_profiles(v: &Vec<Profile>) -> (r: Vec<Profile>)
    ensures
        profiles_view(r@) == profiles_view(v@),
{
    let mut out: Vec<Profile> = Vec::new();
    let n = v.len();
    let mut i: usize = 0;
    while i < n
        invariant
            0 <= i <= n,
            n == v@.len(),
            out@.len() == i,
            forall|j: int| 0 <= j < i ==> out@[j]@ == v@[j]@,
        decreases n - i,
    {
        out.push(clone_profile(&v[i]));
        i = i + 1;
    }
    proof {
        assert(profiles_view(out@) =~= profiles_view(v@));
    }
    out
}

} // verus!
