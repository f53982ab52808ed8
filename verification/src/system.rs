//! systemd's overall system state, and its version string.
use vstd::prelude::*;

use crate::text::{find_first, parse_u32_spec, push_range, str_chars, str_eq, string_from_range};

verus! {

/// The overall state the manager (PID 1) reports: whether the system booted
/// fully, has failed units, is shutting down, and so on.
#[allow(non_camel_case_types)]
#[derive(Clone, Copy, Debug, PartialEq, Eq, Structural)]
pub enum SystemdSystemState {
    unknown,
    initializing,
    starting,
    running,
    degraded,
    maintenance,
    stopping,
    offline,
}

impl Default for SystemdSystemState {
    fn default() -> (r: Self)
        ensures
            r == SystemdSystemState::unknown,
    {
        SystemdSystemState::unknown
    }
}

/// The number a state is reported as.
pub open spec fn system_state_number(s: SystemdSystemState) -> u8 {
    match s {
        SystemdSystemState::unknown => 0,
        SystemdSystemState::initializing => 1,
        SystemdSystemState::starting => 2,
        SystemdSystemState::running => 3,
        SystemdSystemState::degraded => 4,
        SystemdSystemState::maintenance => 5,
        SystemdSystemState::stopping => 6,
        SystemdSystemState::offline => 7,
    }
}

/// The name systemd gives a state.
pub open spec fn system_state_name(s: SystemdSystemState) -> Seq<char> {
    match s {
        SystemdSystemState::unknown => "unknown"@,
        SystemdSystemState::initializing => "initializing"@,
        SystemdSystemState::starting => "starting"@,
        SystemdSystemState::running => "running"@,
        SystemdSystemState::degraded => "degraded"@,
        SystemdSystemState::maintenance => "maintenance"@,
        SystemdSystemState::stopping => "stopping"@,
        SystemdSystemState::offline => "offline"@,
    }
}

/// The state that a `SystemState` property value names; any other value is
/// `unknown`.
pub open spec fn system_state_of(s: Seq<char>) -> SystemdSystemState {
    if s == "initializing"@ {
        SystemdSystemState::initializing
    } else if s == "starting"@ {
        SystemdSystemState::starting
    } else if s == "running"@ {
        SystemdSystemState::running
    } else if s == "degraded"@ {
        SystemdSystemState::degraded
    } else if s == "maintenance"@ {
        SystemdSystemState::maintenance
    } else if s == "stopping"@ {
        SystemdSystemState::stopping
    } else if s == "offline"@ {
        SystemdSystemState::offline
    } else {
        SystemdSystemState::unknown
    }
}

/// Read a `SystemState` property value.
pub fn parse_system_state(s: &str) -> (r: SystemdSystemState)
    ensures
        r == system_state_of(s@),
{
    if str_eq(s, "initializing") {
        SystemdSystemState::initializing
    } else if str_eq(s, "starting") {
        SystemdSystemState::starting
    } else if str_eq(s, "running") {
        SystemdSystemState::running
    } else if str_eq(s, "degraded") {
        SystemdSystemState::degraded
    } else if str_eq(s, "maintenance") {
        SystemdSystemState::maintenance
    } else if str_eq(s, "stopping") {
        SystemdSystemState::stopping
    } else if str_eq(s, "offline") {
        SystemdSystemState::offline
    } else {
        SystemdSystemState::unknown
    }
}

impl SystemdSystemState {
    /// The number the state is reported as.
    pub fn as_u64(self) -> (r: u64)
        ensures
            r == system_state_number(self),
    {
        match self {
            SystemdSystemState::unknown => 0,
            SystemdSystemState::initializing => 1,
            SystemdSystemState::starting => 2,
            SystemdSystemState::running => 3,
            SystemdSystemState::degraded => 4,
            SystemdSystemState::maintenance => 5,
            SystemdSystemState::stopping => 6,
            SystemdSystemState::offline => 7,
        }
    }

    /// The state's name, as systemd spells it.
    pub fn name(&self) -> (r: &'static str)
        ensures
            r@ == system_state_name(*self),
    {
        match self {
            SystemdSystemState::unknown => "unknown",
            SystemdSystemState::initializing => "initializing",
            SystemdSystemState::starting => "starting",
            SystemdSystemState::running => "running",
            SystemdSystemState::degraded => "degraded",
            SystemdSystemState::maintenance => "maintenance",
            SystemdSystemState::stopping => "stopping",
            SystemdSystemState::offline => "offline",
        }
    }
}

/// Reading a state's name gives the state back.
pub proof fn system_state_name_round_trip(s: SystemdSystemState)
    ensures
        system_state_of(system_state_name(s)) == s,
{
    reveal_strlit("unknown");
    reveal_strlit("initializing");
    reveal_strlit("starting");
    reveal_strlit("running");
    reveal_strlit("degraded");
    reveal_strlit("maintenance");
    reveal_strlit("stopping");
    reveal_strlit("offline");
    let n = system_state_name(s);
    assert(n.len() == 7 && n[0] == 'u' ==> n != "running"@ && n != "offline"@);
    assert(n.len() == 7 && n[0] == 'r' ==> n != "offline"@);
    assert(n.len() == 8 && n[0] == 'd' ==> n != "starting"@ && n != "stopping"@);
    assert(n.len() == 8 && n[0] == 's' && n[2] == 'o' ==> n != "starting"@);
}

/// A parsed systemd version string, e.g. "256.1.fc40" or
/// "255.6-9.9.hs+fb.el9".
#[derive(Clone, Debug, PartialEq, Eq)]
pub struct SystemdVersion {
    /// Major version number, e.g. 256.
    major: u32,
    /// Minor version; may hold hyphens for distribution-patched versions.
    minor: String,
    /// Revision, present when the string has four or more parts.
    revision: Option<u32>,
    /// The distribution suffix, e.g. "fc40" or "hs+fb.el9".
    os: String,
}

impl Default for SystemdVersion {
    fn default() -> (r: Self)
        ensures
            r.major() == 0,
            r.minor()@ == Seq::<char>::empty(),
            r.revision() is None,
            r.os()@ == Seq::<char>::empty(),
    {
        SystemdVersion { major: 0, minor: String::new(), revision: None, os: String::new() }
    }
}

/// The parts of `s` between the separators `c`, as `str::split` yields them.
pub open spec fn split_on(s: Seq<char>, c: char) -> Seq<Seq<char>>
    decreases s.len(),
{
    match find_first(s, c) {
        Some(i) => {
            proof {
                crate::text::lemma_find_first(s, c);
            }
            seq![s.take(i as int)] + split_on(s.skip(i as int + 1), c)
        },
        None => seq![s],
    }
}

/// The parts joined again with `c` between them.
pub open spec fn join_with(parts: Seq<Seq<char>>, c: char) -> Seq<char>
    decreases parts.len(),
{
    if parts.len() == 0 {
        Seq::empty()
    } else if parts.len() == 1 {
        parts[0]
    } else {
        parts[0].push(c) + join_with(parts.drop_first(), c)
    }
}

/// A version string as it is split: a leading `v` dropped, and `~` (which
/// marks release candidates, as in "262~rc3-1.fc46") read as a separator
/// like `.`.
pub open spec fn normalized_version(s: Seq<char>) -> Seq<char> {
    let t = if s.len() > 0 && s[0] == 'v' {
        s.drop_first()
    } else {
        s
    };
    t.map_values(|c: char| if c == '~' { '.' } else { c })
}

/// Why a version string could not be read.
#[derive(Clone, Debug, PartialEq, Eq)]
pub enum MonitordSystemError {
    /// The first part is no `u32`.
    BadMajorVersion { version: String },
    /// There is no second part.
    NoMinorVersion,
}

impl MonitordSystemError {
    /// The error's message.
    pub fn message(&self) -> (r: String)
        ensures
            r@ == (match *self {
                MonitordSystemError::BadMajorVersion { version } => "Failed to parse major version: "@
                    + version@,
                MonitordSystemError::NoMinorVersion => "No valid minor version"@,
            }),
    {
        match self {
            MonitordSystemError::BadMajorVersion { version } => {
                let mut r = crate::text::string_of("Failed to parse major version: ");
                crate::text::push_str(&mut r, version.as_str());
                r
            },
            MonitordSystemError::NoMinorVersion => crate::text::string_of("No valid minor version"),
        }
    }
}

/// What reading a version string gives: the first part is the major number
/// and the second the minor version; with four or more parts the third is
/// the revision (absent when it is no `u32`); the rest, joined by `.`, is
/// the distribution suffix.
pub open spec fn version_of(s: Seq<char>) -> Result<(u32, Seq<char>, Option<u32>, Seq<char>), ()> {
    let parts = split_on(normalized_version(s), '.');
    match parse_u32_spec(parts[0]) {
        None => Err(()),
        Some(major) => if parts.len() < 2 {
            Err(())
        } else if parts.len() > 3 {
            Ok((major, parts[1], parse_u32_spec(parts[2]), join_with(parts.skip(3), '.')))
        } else {
            Ok((major, parts[1], None, join_with(parts.skip(2), '.')))
        },
    }
}

impl SystemdVersion {
    pub closed spec fn major(&self) -> u32 {
        self.major
    }

    pub closed spec fn minor(&self) -> String {
        self.minor
    }

    pub closed spec fn revision(&self) -> Option<u32> {
        self.revision
    }

    pub closed spec fn os(&self) -> String {
        self.os
    }

    /// The major version number.
    pub fn major_number(&self) -> (r: u32)
        ensures
            r == self.major(),
    {
        self.major
    }

    /// The minor version text.
    pub fn minor_text(&self) -> (r: &str)
        ensures
            r@ == self.minor()@,
    {
        self.minor.as_str()
    }

    /// The revision number, if the version has one.
    pub fn revision_number(&self) -> (r: Option<u32>)
        ensures
            r == self.revision(),
    {
        self.revision
    }

    /// The distribution suffix.
    pub fn os_text(&self) -> (r: &str)
        ensures
            r@ == self.os()@,
    {
        self.os.as_str()
    }

    pub fn new(major: u32, minor: String, revision: Option<u32>, os: String) -> (r: SystemdVersion)
        ensures
            r.major() == major,
            r.minor() == minor,
            r.revision() == revision,
            r.os() == os,
    {
        SystemdVersion { major, minor, revision, os }
    }

    /// The version as "major.minor.revision.os", or "major.minor.os" when
    /// there is no revision.
    pub fn to_version_string(&self) -> (r: String)
        ensures
            r@ == (match self.revision() {
                Some(rev) => crate::text::dec_string(self.major() as nat) + "."@ + self.minor()@ + "."@
                    + crate::text::dec_string(rev as nat) + "."@ + self.os()@,
                None => crate::text::dec_string(self.major() as nat) + "."@ + self.minor()@ + "."@
                    + self.os()@,
            }),
    {
        let mut r = crate::dbus_stats::u64_to_string(self.major as u64);
        crate::text::push_str(&mut r, ".");
        crate::text::push_str(&mut r, self.minor.as_str());
        crate::text::push_str(&mut r, ".");
        match self.revision {
            Some(rev) => {
                let d = crate::dbus_stats::u64_to_string(rev as u64);
                crate::text::push_str(&mut r, d.as_str());
                crate::text::push_str(&mut r, ".");
            },
            None => {},
        }
        crate::text::push_str(&mut r, self.os.as_str());
        proof {
            match self.revision {
                Some(rev) => {
                    assert(r@ =~= crate::text::dec_string(self.major() as nat) + "."@ + self.minor()@
                        + "."@ + crate::text::dec_string(rev as nat) + "."@ + self.os()@);
                },
                None => {
                    assert(r@ =~= crate::text::dec_string(self.major() as nat) + "."@ + self.minor()@
                        + "."@ + self.os()@);
                },
            }
        }
        r
    }
}


/// Joining the parts of a split gives the text back.
pub proof fn lemma_join_split(s: Seq<char>, c: char)
    ensures
        join_with(split_on(s, c), c) == s,
        split_on(s, c).len() >= 1,
    decreases s.len(),
{
    match find_first(s, c) {
        Some(i) => {
            crate::text::lemma_find_first(s, c);
            let rest = s.skip(i as int + 1);
            lemma_join_split(rest, c);
            let parts = split_on(s, c);
            assert(parts.drop_first() =~= split_on(rest, c));
            assert(parts[0] == s.take(i as int));
            assert(s.take(i as int).push(c) + rest =~= s);
        },
        None => {},
    }
}

/// Which error reading a version string gives, if any.
pub open spec fn version_fault(s: Seq<char>) -> Option<bool> {
    let parts = split_on(normalized_version(s), '.');
    if parse_u32_spec(parts[0]) is None {
        Some(true)
    } else if parts.len() < 2 {
        Some(false)
    } else {
        None
    }
}


proof fn lemma_split_some(s: Seq<char>, c: char, i: nat)
    requires
        find_first(s, c) == Some(i),
    ensures
        i < s.len(),
        split_on(s, c)[0] == s.take(i as int),
        split_on(s, c).drop_first() == split_on(s.skip(i as int + 1), c),
        split_on(s, c).len() == 1 + split_on(s.skip(i as int + 1), c).len(),
{
    crate::text::lemma_find_first(s, c);
    let parts = split_on(s, c);
    assert(parts.drop_first() =~= split_on(s.skip(i as int + 1), c));
}

proof fn lemma_split_none(s: Seq<char>, c: char)
    requires
        find_first(s, c) is None,
    ensures
        split_on(s, c) == seq![s],
{
}

/// `find_char` on `v[lo..]` finding `j` means the first `c` of the suffix
/// is at `j - lo`.
proof fn lemma_found(v: Seq<char>, lo: usize, j: usize, c: char)
    requires
        lo <= v.len(),
        v.len() <= usize::MAX,
        match find_first(v.subrange(lo as int, v.len() as int), c) {
            Some(i) => j == (lo + i) as usize,
            None => false,
        },
    ensures
        find_first(v.skip(lo as int), c) == Some((j - lo) as nat),
        lo <= j < v.len(),
{
    assert(v.subrange(lo as int, v.len() as int) =~= v.skip(lo as int));
    crate::text::lemma_find_first(v.skip(lo as int), c);
}

fn normalize_version(v: &Vec<char>) -> (r: Vec<char>)
    ensures
        r@ == normalized_version(v@),
{
    let start: usize = if v.len() > 0 && v[0] == 'v' {
        1
    } else {
        0
    };
    let mut r: Vec<char> = Vec::new();
    let mut i = start;
    let ghost t = if v@.len() > 0 && v@[0] == 'v' {
        v@.drop_first()
    } else {
        v@
    };
    proof {
        assert(t =~= v@.subrange(start as int, v@.len() as int));
    }
    while i < v.len()
        invariant
            start <= i <= v.len(),
            t == v@.subrange(start as int, v@.len() as int),
            r@ == v@.subrange(start as int, i as int).map_values(|c: char| if c == '~' { '.' } else { c }),
        decreases v.len() - i,
    {
        let c = if v[i] == '~' {
            '.'
        } else {
            v[i]
        };
        r.push(c);
        proof {
            assert(v@.subrange(start as int, i + 1) =~= v@.subrange(start as int, i as int).push(v@[i as int]));
            assert(r@ =~= v@.subrange(start as int, i + 1).map_values(|c: char| if c == '~' { '.' } else { c }));
        }
        i = i + 1;
    }
    r
}

impl SystemdVersion {
    /// Read a version string (the manager's `Version` property): see
    /// `version_of`. The first part that is no `u32`, or a missing second
    /// part, is the error.
    #[verifier::rlimit(60)]
    #[verifier::spinoff_prover]
    pub fn try_from(s: String) -> (r: Result<SystemdVersion, MonitordSystemError>)
        ensures
            match r {
                Ok(v) => version_of(s@) == Ok::<(u32, Seq<char>, Option<u32>, Seq<char>), ()>(
                    (v.major(), v.minor()@, v.revision(), v.os()@),
                ),
                Err(e) => version_of(s@) is Err && match e {
                    MonitordSystemError::BadMajorVersion { version } => version_fault(s@) == Some(true)
                        && version@ == s@,
                    MonitordSystemError::NoMinorVersion => version_fault(s@) == Some(false),
                },
            },
    {
        let v0 = str_chars(s.as_str());
        let n = normalize_version(&v0);
        let len = n.len();
        let ghost ns = n@;
        let ghost parts = split_on(ns, '.');
        proof {
            assert(ns.skip(0) =~= ns);
            lemma_join_split(ns, '.');
        }
        let f0 = crate::text::find_char(&n, 0, len, '.');
        if f0.is_none() {
            proof {
                assert(ns.subrange(0, len as int) =~= ns);
                lemma_split_none(ns, '.');
            }
            return match crate::text::parse_u32_range(&n, 0, len) {
                None => Err(MonitordSystemError::BadMajorVersion { version: s }),
                Some(_) => Err(MonitordSystemError::NoMinorVersion),
            };
        }
        let e0 = f0.unwrap();
        let ghost rest1 = ns.skip(e0 + 1);
        proof {
            lemma_found(ns, 0, e0, '.');
            lemma_split_some(ns, '.', e0 as nat);
            assert(ns.subrange(0, e0 as int) =~= ns.take(e0 as int));
            lemma_join_split(rest1, '.');
        }
        let major = match crate::text::parse_u32_range(&n, 0, e0) {
            Some(m) => m,
            None => {
                return Err(MonitordSystemError::BadMajorVersion { version: s });
            },
        };
        let f1 = crate::text::find_char(&n, e0 + 1, len, '.');
        if f1.is_none() {
            proof {
                assert(ns.subrange(e0 + 1, len as int) =~= rest1);
                lemma_split_none(rest1, '.');
                assert(parts.skip(2) =~= Seq::<Seq<char>>::empty());
            }
            let minor = string_from_range(&n, e0 + 1, len);
            return Ok(SystemdVersion { major, minor, revision: None, os: String::new() });
        }
        let e1 = f1.unwrap();
        let ghost rest2 = ns.skip(e1 + 1);
        proof {
            lemma_found(ns, (e0 + 1) as usize, e1, '.');
            lemma_split_some(rest1, '.', (e1 - e0 - 1) as nat);
            assert(rest1.skip(e1 - e0) =~= rest2);
            assert(rest1.take(e1 - e0 - 1) =~= ns.subrange(e0 + 1, e1 as int));
            lemma_join_split(rest2, '.');
        }
        let minor = string_from_range(&n, e0 + 1, e1);
        let f2 = crate::text::find_char(&n, e1 + 1, len, '.');
        if f2.is_none() {
            proof {
                assert(ns.subrange(e1 + 1, len as int) =~= rest2);
                lemma_split_none(rest2, '.');
                assert(parts.skip(2) =~= seq![rest2]);
            }
            let os = string_from_range(&n, e1 + 1, len);
            return Ok(SystemdVersion { major, minor, revision: None, os });
        }
        let e2 = f2.unwrap();
        let ghost rest3 = ns.skip(e2 + 1);
        proof {
            lemma_found(ns, (e1 + 1) as usize, e2, '.');
            lemma_split_some(rest2, '.', (e2 - e1 - 1) as nat);
            assert(rest2.skip(e2 - e1) =~= rest3);
            assert(rest2.take(e2 - e1 - 1) =~= ns.subrange(e1 + 1, e2 as int));
            lemma_join_split(rest3, '.');
            assert(parts.skip(3) =~= split_on(rest3, '.'));
            assert(ns.subrange(e2 + 1, len as int) =~= rest3);
        }
        let revision = crate::text::parse_u32_range(&n, e1 + 1, e2);
        let os = string_from_range(&n, e2 + 1, len);
        Ok(SystemdVersion { major, minor, revision, os })
    }
}

} // verus!
