//! The registry-file parser: a streaming scan over INI events that collects
//! the profiles a browser family declares in its registry file.
//!
//! The event stream comes from the ini_roundtrip crate; everything after the
//! scan of the raw text is verified against the state machine modelled by
//! `ini_step` and `ini_run`.

use vstd::prelude::*;
use crate::profile::{Profile, SpecProfile, profiles_view};
use crate::text::{spec_starts_with, spec_is_one, spec_join_path, starts_with_profile, str_eq,
    trims_to_one, join_path};

verus! {

/// One event of the registry-file stream, owned.
#[derive(Debug, Clone, PartialEq)]
pub enum IniItem {
    Section { name: String },
    SectionEnd,
    Property { key: String, val: Option<String> },
    Other,
}

/// The mathematical value of an event.
pub ghost enum IniEvent {
    Section(Seq<char>),
    SectionEnd,
    Property(Seq<char>, Option<Seq<char>>),
    Other,
}

impl View for IniItem {
    type V = IniEvent;

    open spec fn view(&self) -> IniEvent {
        match self {
            IniItem::Section { name } => IniEvent::Section(name@),
            IniItem::SectionEnd => IniEvent::SectionEnd,
            IniItem::Property { key, val } => IniEvent::Property(
                key@,
                match val {
                    Some(v) => Some(v@),
                    None => None,
                },
            ),
            IniItem::Other => IniEvent::Other,
        }
    }
}

/// The sequence of events a vector of items stands for.
pub open spec fn items_view(v: Seq<IniItem>) -> Seq<IniEvent> {
    v.map_values(|it: IniItem| it@)
}

/// The stream of events that ini_roundtrip's parser yields for this text.
pub uninterp spec fn ini_events(text: Seq<char>) -> Seq<IniEvent>;

/// Relies on ini_roundtrip::Parser: the events it yields are a function of
/// the text alone; each item is carried over here one variant at a time.
#[verifier::external_body]
fn scan_ini_text(text: &str) -> (r: Vec<IniItem>)
    ensures
        items_view(r@) == ini_events(text@),
{
    let mut out: Vec<IniItem> = Vec::new();
    for item in ini_roundtrip::Parser::new(text) {
        let owned = match item {
            ini_roundtrip::Item::Section { name, .. } => IniItem::Section { name: name.to_owned() },
            ini_roundtrip::Item::SectionEnd => IniItem::SectionEnd,
            ini_roundtrip::Item::Property { key, val, .. } => IniItem::Property { key: key.to_owned(), val: val.map(str::to_owned) },
            ini_roundtrip::Item::Error(_) => IniItem::Other,
            ini_roundtrip::Item::Comment { .. } => IniItem::Other,
            ini_roundtrip::Item::Blank { .. } => IniItem::Other,
        };
        out.push(owned);
    }
    out
}

/// The accumulator state of the registry-file scan: the mode flag and the
/// three per-section accumulators. A captured name or path is a non-empty
/// sequence; an empty one means "not captured yet".
pub ghost struct IniState {
    pub in_profile: bool,
    pub name: Seq<char>,
    pub path: Seq<char>,
    pub isrel: Option<bool>,
}

/// The state at the start of the scan, and again after each emitted profile.
pub open spec fn ini_init() -> IniState {
    IniState { in_profile: false, name: Seq::empty(), path: Seq::empty(), isrel: None }
}

/// Whether all three accumulators are set, so that the section can emit.
pub open spec fn ini_complete(st: IniState) -> bool {
    st.name.len() > 0 && st.path.len() > 0 && st.isrel is Some
}

/// The profile a complete section emits: the captured path is joined onto the
/// registry file's parent directory when IsRelative was "1", and is taken
/// verbatim otherwise.
pub open spec fn ini_emitted(st: IniState, base: Seq<char>) -> SpecProfile {
    SpecProfile {
        name: st.name,
        path: if st.isrel == Some(true) {
            spec_join_path(base, st.path)
        } else {
            st.path
        },
    }
}

/// A property event's effect on the accumulators. Outside a Profile section
/// every property is ignored; inside one, the first occurrence of a key with
/// a value is captured and later occurrences (or occurrences without a value)
/// are dropped.
pub open spec fn ini_prop_step(st: IniState, key: Seq<char>, val: Option<Seq<char>>) -> IniState {
    if !st.in_profile {
        st
    } else if key == "Name"@ {
        if st.name.len() > 0 {
            st
        } else {
            match val {
                Some(v) => IniState { name: v, ..st },
                None => st,
            }
        }
    } else if key == "Path"@ {
        if st.path.len() > 0 {
            st
        } else {
            match val {
                Some(v) => IniState { path: v, ..st },
                None => st,
            }
        }
    } else if key == "IsRelative"@ {
        if st.isrel is Some {
            st
        } else {
            match val {
                Some(v) => IniState { isrel: Some(spec_is_one(v)), ..st },
                None => st,
            }
        }
    } else {
        st
    }
}

/// One event's effect: the next state and the profiles emitted (none or one).
/// A section start whose name begins with "Profile" enters the profile mode;
/// a section end in profile mode emits when the accumulators are complete and
/// only then resets them — an incomplete section keeps its residue.
pub open spec fn ini_step(st: IniState, ev: IniEvent, base: Seq<char>) -> (IniState, Seq<
    SpecProfile,
>) {
    match ev {
        IniEvent::Section(name) => (
            if spec_starts_with(name, "Profile"@) {
                IniState { in_profile: true, ..st }
            } else {
                st
            },
            Seq::empty(),
        ),
        IniEvent::SectionEnd => if st.in_profile && ini_complete(st) {
            (ini_init(), seq![ini_emitted(st, base)])
        } else {
            (st, Seq::empty())
        },
        IniEvent::Property(key, val) => (ini_prop_step(st, key, val), Seq::empty()),
        IniEvent::Other => (st, Seq::empty()),
    }
}

/// The scan of a whole event sequence from a given state: the final state and
/// every emitted profile, in order.
pub open spec fn ini_run(st: IniState, evs: Seq<IniEvent>, base: Seq<char>) -> (IniState, Seq<
    SpecProfile,
>)
    decreases evs.len(),
{
    if evs.len() == 0 {
        (st, Seq::empty())
    } else {
        let first = ini_step(st, evs[0], base);
        let rest = ini_run(first.0, evs.drop_first(), base);
        (rest.0, first.1 + rest.1)
    }
}

/// All profiles an event stream yields, in file order, duplicates kept.
pub open spec fn spec_parse_profiles(evs: Seq<IniEvent>, base: Seq<char>) -> Seq<SpecProfile> {
    ini_run(ini_init(), evs, base).1
}

/// Running a scan one event further: the run over `evs.push(ev)` is the run
/// over `evs` followed by one step on `ev`.
pub proof fn lemma_ini_run_snoc(st: IniState, evs: Seq<IniEvent>, ev: IniEvent, base: Seq<char>)
    ensures
        ini_run(st, evs.push(ev), base).0 == ini_step(ini_run(st, evs, base).0, ev, base).0,
        ini_run(st, evs.push(ev), base).1 == ini_run(st, evs, base).1 + ini_step(
            ini_run(st, evs, base).0,
            ev,
            base,
        ).1,
    decreases evs.len(),
{
    if evs.len() == 0 {
        reveal_with_fuel(ini_run, 3);
        assert(evs.push(ev)[0] == ev);
        assert(evs.push(ev).drop_first() =~= Seq::<IniEvent>::empty());
        assert(ini_run(st, evs, base).0 == st);
        assert(ini_run(ini_step(st, ev, base).0, evs.push(ev).drop_first(), base).0 == ini_step(
            st,
            ev,
            base,
        ).0);
        assert(ini_run(st, evs.push(ev), base).1 =~= ini_run(st, evs, base).1 + ini_step(
            ini_run(st, evs, base).0,
            ev,
            base,
        ).1);
    } else {
        assert(evs.push(ev)[0] == evs[0]);
        assert(evs.push(ev).drop_first() =~= evs.drop_first().push(ev));
        let st1 = ini_step(st, evs[0], base).0;
        lemma_ini_run_snoc(st1, evs.drop_first(), ev, base);
        assert(ini_run(st, evs.push(ev), base).1 =~= ini_run(st, evs, base).1 + ini_step(
            ini_run(st, evs, base).0,
            ev,
            base,
        ).1);
    }
}

/// Scans a vector of events, collecting the emitted profiles. `base_dir` is
/// the registry file's parent directory, used for relative profile paths.
pub fn parse_profile_items(items: &Vec<IniItem>, base_dir: &str) -> (r: Vec<Profile>)
    ensures
        profiles_view(r@) == spec_parse_profiles(items_view(items@), base_dir@),
{
    let mut profiles: Vec<Profile> = Vec::new();
    let mut in_profile: bool = false;
    let mut name_buf: String = String::new();
    let mut path_buf: String = String::new();
    let mut isrel: Option<bool> = None;
    let n = items.len();
    let mut idx: usize = 0;
    while idx < n
        invariant
            0 <= idx <= n,
            n == items@.len(),
            ini_run(ini_init(), items_view(items@).subrange(0, idx as int), base_dir@).0
                == (IniState { in_profile, name: name_buf@, path: path_buf@, isrel }),
            profiles_view(profiles@) == ini_run(
                ini_init(),
                items_view(items@).subrange(0, idx as int),
                base_dir@,
            ).1,
        decreases n - idx,
    {
        proof {
            assert(items_view(items@).subrange(0, idx + 1) =~= items_view(items@).subrange(
                0,
                idx as int,
            ).push(items@[idx as int]@));
            lemma_ini_run_snoc(
                ini_init(),
                items_view(items@).subrange(0, idx as int),
                items@[idx as int]@,
                base_dir@,
            );
        }
        let item = &items[idx];
        match item {
            IniItem::Section { name } => {
                if starts_with_profile(name.as_str()) {
                    in_profile = true;
                }
            },
            IniItem::SectionEnd => {
                if in_profile && !name_buf.as_str().is_empty() && !path_buf.as_str().is_empty()
                    && isrel.is_some() {
                    let rel = match &isrel {
                        Some(b) => *b,
                        None => false,
                    };
                    let emitted_path: String = if rel {
                        join_path(base_dir, path_buf.as_str())
                    } else {
                        path_buf.clone()
                    };
                    profiles.push(Profile { name: name_buf.clone(), profile_path: emitted_path });
                    name_buf = String::new();
                    path_buf = String::new();
                    isrel = None;
                    in_profile = false;
                }
            },
            IniItem::Property { key, val } => {
                if in_profile {
                    if str_eq(key.as_str(), "Name") {
                        if name_buf.as_str().is_empty() {
                            if let Some(v) = val {
                                name_buf = v.clone();
                            }
                        }
                    } else if str_eq(key.as_str(), "Path") {
                        if path_buf.as_str().is_empty() {
                            if let Some(v) = val {
                                path_buf = v.clone();
                            }
                        }
                    } else if str_eq(key.as_str(), "IsRelative") {
                        if isrel.is_none() {
                            if let Some(v) = val {
                                isrel = Some(trims_to_one(v.as_str()));
                            }
                        }
                    }
                }
            },
            IniItem::Other => {},
        }
        proof {
            assert(profiles_view(profiles@) =~= ini_run(
                ini_init(),
                items_view(items@).subrange(0, idx + 1),
                base_dir@,
            ).1);
        }
        idx = idx + 1;
    }
    proof {
        assert(items_view(items@).subrange(0, n as int) =~= items_view(items@));
    }
    profiles
}

proof fn lemma_key_literals_distinct()
    ensures
        "Name"@ != "Path"@,
        "Name"@ != "IsRelative"@,
        "Path"@ != "IsRelative"@,
{
    reveal_strlit("Name");
    reveal_strlit("Path");
    reveal_strlit("IsRelative");
    assert("Name"@[0] == 'N' && "Path"@[0] == 'P');
    if "Name"@ == "Path"@ {
        assert("Name"@[0] == "Path"@[0]);
    }
    assert("Name"@.len() == 4 && "Path"@.len() == 4 && "IsRelative"@.len() == 10);
}

/// A well-formed Profile section — Name, Path and IsRelative each present
/// once with a value — yields exactly one profile. Its path is the registry
/// file's parent directory joined with the Path value when the IsRelative
/// value trims to "1", and the Path value taken verbatim otherwise.
pub proof fn lemma_wellformed_section(
    sec: Seq<char>,
    n: Seq<char>,
    p: Seq<char>,
    r: Seq<char>,
    base: Seq<char>,
)
    requires
        spec_starts_with(sec, "Profile"@),
        n.len() > 0,
        p.len() > 0,
    ensures
        spec_parse_profiles(
            seq![
                IniEvent::Section(sec),
                IniEvent::Property("Name"@, Some(n)),
                IniEvent::Property("Path"@, Some(p)),
                IniEvent::Property("IsRelative"@, Some(r)),
                IniEvent::SectionEnd,
            ],
            base,
        ) == seq![
            SpecProfile {
                name: n,
                path: if spec_is_one(r) {
                    spec_join_path(base, p)
                } else {
                    p
                },
            },
        ],
{
    lemma_key_literals_distinct();
    reveal_with_fuel(ini_run, 7);
    let evs = seq![
        IniEvent::Section(sec),
        IniEvent::Property("Name"@, Some(n)),
        IniEvent::Property("Path"@, Some(p)),
        IniEvent::Property("IsRelative"@, Some(r)),
        IniEvent::SectionEnd,
    ];
    let st1 = IniState { in_profile: true, name: Seq::empty(), path: Seq::empty(), isrel: None };
    let st2 = IniState { in_profile: true, name: n, path: Seq::empty(), isrel: None };
    let st3 = IniState { in_profile: true, name: n, path: p, isrel: None };
    let st4 = IniState { in_profile: true, name: n, path: p, isrel: Some(spec_is_one(r)) };
    assert(ini_step(ini_init(), evs[0], base).0 == st1);
    assert(evs.drop_first() =~= evs.subrange(1, 5));
    assert(evs.subrange(1, 5).drop_first() =~= evs.subrange(2, 5));
    assert(evs.subrange(2, 5).drop_first() =~= evs.subrange(3, 5));
    assert(evs.subrange(3, 5).drop_first() =~= evs.subrange(4, 5));
    assert(evs.subrange(4, 5).drop_first() =~= Seq::<IniEvent>::empty());
    assert(ini_step(st1, evs.subrange(1, 5)[0], base).0 == st2);
    assert(ini_step(st2, evs.subrange(2, 5)[0], base).0 == st3);
    assert(ini_step(st3, evs.subrange(3, 5)[0], base).0 == st4);
    assert(ini_complete(st4));
    assert(ini_step(st4, evs.subrange(4, 5)[0], base).1 == seq![ini_emitted(st4, base)]);
    assert(spec_parse_profiles(evs, base) =~= seq![ini_emitted(st4, base)]);
    assert(ini_emitted(st4, base) == SpecProfile {
        name: n,
        path: if spec_is_one(r) {
            spec_join_path(base, p)
        } else {
            p
        },
    });
}

/// A repeated key within one section keeps the first value: once an
/// accumulator is set, a later property event for the same key changes
/// nothing and emits nothing.
pub proof fn lemma_repeated_key_keeps_first(st: IniState, val: Option<Seq<char>>, base: Seq<char>)
    requires
        st.in_profile,
    ensures
        st.name.len() > 0 ==> ini_step(st, IniEvent::Property("Name"@, val), base) == (
            st,
            Seq::<SpecProfile>::empty(),
        ),
        st.path.len() > 0 ==> ini_step(st, IniEvent::Property("Path"@, val), base) == (
            st,
            Seq::<SpecProfile>::empty(),
        ),
        st.isrel is Some ==> ini_step(st, IniEvent::Property("IsRelative"@, val), base) == (
            st,
            Seq::<SpecProfile>::empty(),
        ),
{
    lemma_key_literals_distinct();
}

/// A Profile section that still misses one of the three required keys emits
/// no profile at its end (and, deliberately, keeps its residual accumulators:
/// the section is dropped, the file goes on).
pub proof fn lemma_incomplete_section_emits_nothing(st: IniState, base: Seq<char>)
    requires
        !ini_complete(st),
    ensures
        ini_step(st, IniEvent::SectionEnd, base).1 == Seq::<SpecProfile>::empty(),
        ini_step(st, IniEvent::SectionEnd, base).0 == st,
{
}

/// A Profile section that captured nothing at all does not affect the
/// sections after it, provided the next section is again a "Profile" section:
/// parsing continues exactly as if the empty section were absent. (A
/// malformed section that did capture a value keeps that residue, which the
/// next section can observe.)
pub proof fn lemma_vacuous_section_no_effect(
    sec: Seq<char>,
    sec2: Seq<char>,
    rest: Seq<IniEvent>,
    base: Seq<char>,
)
    requires
        spec_starts_with(sec, "Profile"@),
        spec_starts_with(sec2, "Profile"@),
        rest.len() > 0,
        rest[0] == IniEvent::Section(sec2),
    ensures
        spec_parse_profiles(seq![IniEvent::Section(sec), IniEvent::SectionEnd] + rest, base)
            == spec_parse_profiles(rest, base),
{
    reveal_with_fuel(ini_run, 3);
    let full = seq![IniEvent::Section(sec), IniEvent::SectionEnd] + rest;
    let st1 = IniState { in_profile: true, name: Seq::empty(), path: Seq::empty(), isrel: None };
    assert(full[0] == IniEvent::Section(sec));
    assert(full.drop_first() =~= seq![IniEvent::SectionEnd] + rest);
    assert(ini_step(ini_init(), full[0], base).0 == st1);
    let tail = seq![IniEvent::SectionEnd] + rest;
    assert(tail[0] == IniEvent::SectionEnd);
    assert(!ini_complete(st1));
    assert(ini_step(st1, IniEvent::SectionEnd, base).0 == st1);
    assert(tail.drop_first() =~= rest);
    assert(ini_run(ini_init(), full, base).1 =~= ini_run(st1, rest, base).1);
    // both runs take the same first step on the next section's start
    assert(ini_step(st1, rest[0], base).0 == st1);
    assert(ini_step(ini_init(), rest[0], base).0 == st1);
    assert(ini_step(st1, rest[0], base).1 =~= ini_step(ini_init(), rest[0], base).1);
    assert(ini_run(st1, rest, base).1 =~= ini_run(ini_init(), rest, base).1);
}

/// Parses a registry file's text: the ordered profiles that its "Profile"
/// sections declare. `base_dir` is the registry file's parent directory.
pub fn parse_profiles_ini(text: &str, base_dir: &str) -> (r: Vec<Profile>)
    ensures
        profiles_view(r@) == spec_parse_profiles(ini_events(text@), base_dir@),
{
    let items = scan_ini_text(text);
    parse_profile_items(&items, base_dir)
}

} // verus!
