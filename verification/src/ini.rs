//! The parsed form of an INI configuration file, as `configparser` reads it
//! (case-insensitive: section and key names are stored lowercased), and the
//! lookups the configuration is built with.
use vstd::prelude::*;

use crate::text::{eq_ignore_ascii_case, eq_ignore_ascii_case_spec, parse_u64_spec, parse_u64_str, str_eq};

verus! {

/// The entries of one section: each key with its value, if it has one.
pub type IniEntries = Seq<(Seq<char>, Option<Seq<char>>)>;

/// All sections, in file order, with their entries in file order.
pub type IniMap = Seq<(Seq<char>, IniEntries)>;

/// One section of an INI file.
#[derive(Clone, Debug, PartialEq, Eq)]
pub struct IniSection {
    pub name: String,
    /// `key = value` entries; a key written alone has no value.
    pub entries: Vec<(String, Option<String>)>,
}

/// A parsed INI file: its sections in file order.
#[derive(Clone, Debug, PartialEq, Eq)]
pub struct IniData {
    pub sections: Vec<IniSection>,
}

pub open spec fn opt_str_view(o: Option<String>) -> Option<Seq<char>> {
    match o {
        Some(s) => Some(s@),
        None => None,
    }
}

pub open spec fn entry_view(e: (String, Option<String>)) -> (Seq<char>, Option<Seq<char>>) {
    (e.0@, opt_str_view(e.1))
}

impl IniSection {
    pub open spec fn entries_view(&self) -> IniEntries {
        self.entries@.map_values(|e: (String, Option<String>)| entry_view(e))
    }
}

impl View for IniData {
    type V = IniMap;

    open spec fn view(&self) -> IniMap {
        self.sections@.map_values(|s: IniSection| (s.name@, s.entries_view()))
    }
}

/// What `configparser::ini::Ini::read` gives for the text of an INI file:
/// the sections with their entries, or the message of the error it reports.
pub uninterp spec fn ini_read_result(text: Seq<char>) -> Result<IniMap, Seq<char>>;

/// Parse INI text with `configparser`.
///
/// Trusted: builds `configparser::ini::Ini::new()` (case-insensitive, no
/// default-section cascading) and calls `Ini::read`, which parses the text
/// and returns the section map or an error message; the map is copied entry
/// by entry, in its order. The contract names that result and states
/// nothing more of it.
#[verifier::external_body]
fn read_ini_text(text: String) -> (r: Result<IniData, String>)
    ensures
        match r {
            Ok(d) => ini_read_result(text@) == Ok::<IniMap, Seq<char>>(d@),
            Err(e) => ini_read_result(text@) == Err::<IniMap, Seq<char>>(e@),
        },
{
    let mut ini = configparser::ini::Ini::new();
    match ini.read(text) {
        Ok(map) => Ok(IniData {
            sections: map.into_iter().map(|(name, keys)| IniSection {
                name,
                entries: keys.into_iter().collect(),
            }).collect(),
        }),
        Err(e) => Err(e),
    }
}

/// The entries of the first section named `section`.
pub open spec fn find_entries(m: IniMap, section: Seq<char>) -> Option<IniEntries>
    decreases m.len(),
{
    if m.len() == 0 {
        None
    } else if m[0].0 == section {
        Some(m[0].1)
    } else {
        find_entries(m.drop_first(), section)
    }
}

/// The value slot of the first entry named `key`: `Some(None)` for a key
/// written without a value.
pub open spec fn find_value(e: IniEntries, key: Seq<char>) -> Option<Option<Seq<char>>>
    decreases e.len(),
{
    if e.len() == 0 {
        None
    } else if e[0].0 == key {
        Some(e[0].1)
    } else {
        find_value(e.drop_first(), key)
    }
}

/// `Ini::get`: the value of `key` in `section`, if both exist and the key
/// has a value.
pub open spec fn ini_get_spec(m: IniMap, section: Seq<char>, key: Seq<char>) -> Option<Seq<char>> {
    match find_entries(m, section) {
        Some(e) => match find_value(e, key) {
            Some(v) => v,
            None => None,
        },
        None => None,
    }
}

/// The message of `Ini::getbool` for a value that is no boolean.
pub open spec fn bool_error_text() -> Seq<char> {
    "provided string was not `true` or `false`"@
}

/// `Ini::getbool`: `true` or `false` in any ASCII case; another value is an
/// error; no value is `None`.
pub open spec fn getbool_spec(m: IniMap, section: Seq<char>, key: Seq<char>) -> Result<Option<bool>, ()> {
    match ini_get_spec(m, section, key) {
        Some(v) => if eq_ignore_ascii_case_spec(v, "true"@) {
            Ok(Some(true))
        } else if eq_ignore_ascii_case_spec(v, "false"@) {
            Ok(Some(false))
        } else {
            Err(())
        },
        None => Ok(None),
    }
}

/// `Ini::getuint(..).ok().flatten()`: the value read as a `u64`.
pub open spec fn getuint_spec(m: IniMap, section: Seq<char>, key: Seq<char>) -> Option<u64> {
    match ini_get_spec(m, section, key) {
        Some(v) => parse_u64_spec(v),
        None => None,
    }
}

/// The keys of `section`; empty when there is no such section.
pub open spec fn key_set(m: IniMap, section: Seq<char>) -> Set<Seq<char>> {
    match find_entries(m, section) {
        Some(e) => Set::new(|k: Seq<char>| exists|i: int| 0 <= i < e.len() && #[trigger] e[i].0 == k),
        None => Set::empty(),
    }
}

impl IniData {
    /// Parse the text of an INI file, as `configparser` does.
    pub fn parse(text: String) -> (r: Result<IniData, String>)
        ensures
            match r {
                Ok(d) => ini_read_result(text@) == Ok::<IniMap, Seq<char>>(d@),
                Err(e) => ini_read_result(text@) == Err::<IniMap, Seq<char>>(e@),
            },
    {
        read_ini_text(text)
    }

    /// The first section named `section`. Names are compared as stored:
    /// `configparser` stores them lowercased, so a lookup passes lowercase
    /// names, as the configuration does.
    pub fn section(&self, section: &str) -> (r: Option<&IniSection>)
        ensures
            match r {
                Some(s) => find_entries(self@, section@) == Some(s.entries_view()),
                None => find_entries(self@, section@) is None,
            },
    {
        let ghost m = self@;
        let mut i: usize = 0;
        proof {
            assert(m.skip(0) =~= m);
        }
        while i < self.sections.len()
            invariant
                i <= self.sections.len(),
                m == self@,
                m.len() == self.sections.len(),
                find_entries(m, section@) == find_entries(m.skip(i as int), section@),
            decreases self.sections.len() - i,
        {
            let s = &self.sections[i];
            proof {
                assert(m.skip(i as int)[0] == m[i as int]);
                assert(m[i as int] == (s.name@, s.entries_view()));
                assert(m.skip(i as int).drop_first() =~= m.skip(i + 1));
            }
            if str_eq(s.name.as_str(), section) {
                return Some(s);
            }
            i = i + 1;
        }
        None
    }

    /// `Ini::get` for lowercase names: the value of `key` in `section`.
    pub fn get(&self, section: &str, key: &str) -> (r: Option<String>)
        ensures
            opt_str_view(r) == ini_get_spec(self@, section@, key@),
    {
        match self.section(section) {
            Some(s) => {
                let ghost e = s.entries_view();
                let mut i: usize = 0;
                proof {
                    assert(e.skip(0) =~= e);
                }
                while i < s.entries.len()
                    invariant
                        i <= s.entries.len(),
                        e == s.entries_view(),
                        e.len() == s.entries.len(),
                        find_entries(self@, section@) == Some(e),
                        find_value(e, key@) == find_value(e.skip(i as int), key@),
                    decreases s.entries.len() - i,
                {
                    let entry = &s.entries[i];
                    proof {
                        assert(e.skip(i as int)[0] == e[i as int]);
                        assert(e[i as int] == entry_view(*entry));
                        assert(e.skip(i as int).drop_first() =~= e.skip(i + 1));
                    }
                    if str_eq(entry.0.as_str(), key) {
                        proof {
                            assert(find_value(e.skip(i as int), key@) == Some(e[i as int].1));
                        }
                        return match &entry.1 {
                            Some(v) => {
                                let c = v.clone();
                                assert(c@ == v@);
                                Some(c)
                            },
                            None => None,
                        };
                    }
                    i = i + 1;
                }
                None
            },
            None => None,
        }
    }

    /// `Ini::getbool` for lowercase names: `true` or `false` in any ASCII
    /// case; another value is an error; no value is `None`.
    pub fn getbool(&self, section: &str, key: &str) -> (r: Result<Option<bool>, String>)
        ensures
            match r {
                Ok(b) => getbool_spec(self@, section@, key@) == Ok::<Option<bool>, ()>(b),
                Err(e) => getbool_spec(self@, section@, key@) is Err && e@ == bool_error_text(),
            },
    {
        match self.get(section, key) {
            Some(v) => {
                if eq_ignore_ascii_case(v.as_str(), "true") {
                    Ok(Some(true))
                } else if eq_ignore_ascii_case(v.as_str(), "false") {
                    Ok(Some(false))
                } else {
                    Err(crate::text::string_of("provided string was not `true` or `false`"))
                }
            },
            None => Ok(None),
        }
    }

    /// `Ini::getuint(..).ok().flatten()` for lowercase names: the value of
    /// `key` in `section` read as a `u64`; `None` when it is absent or no
    /// `u64`.
    pub fn getuint(&self, section: &str, key: &str) -> (r: Option<u64>)
        ensures
            r == getuint_spec(self@, section@, key@),
    {
        match self.get(section, key) {
            Some(v) => parse_u64_str(v.as_str()),
            None => None,
        }
    }

    /// The keys of `section`, as a set; empty when there is no such section.
    pub fn keys(&self, section: &str) -> (r: crate::names::NameSet)
        ensures
            r@ == key_set(self@, section@),
    {
        let mut r = crate::names::NameSet::new();
        match self.section(section) {
            Some(s) => {
                let ghost e = s.entries_view();
                let mut i: usize = 0;
                while i < s.entries.len()
                    invariant
                        i <= s.entries.len(),
                        e == s.entries_view(),
                        e.len() == s.entries.len(),
                        find_entries(self@, section@) == Some(e),
                        forall|k: Seq<char>| #[trigger] r@.contains(k) <==> exists|j: int| 0 <= j < i && #[trigger] e[j].0 == k,
                    decreases s.entries.len() - i,
                {
                    let name = s.entries[i].0.clone();
                    proof {
                        assert(e[i as int] == entry_view(s.entries@[i as int]));
                    }
                    r.insert(name);
                    proof {
                        assert forall|k: Seq<char>| #[trigger] r@.contains(k) <==> exists|j: int| 0 <= j < i + 1 && #[trigger] e[j].0 == k by {
                            if k == e[i as int].0 {
                                assert(e[i as int].0 == k);
                            }
                            if exists|j: int| 0 <= j < i + 1 && #[trigger] e[j].0 == k {
                                let j = choose|j: int| 0 <= j < i + 1 && #[trigger] e[j].0 == k;
                                if j < i {
                                    assert(exists|j: int| 0 <= j < i && #[trigger] e[j].0 == k);
                                }
                            }
                        }
                    }
                    i = i + 1;
                }
                assert(r@ =~= key_set(self@, section@));
            },
            None => {
                assert(r@ =~= key_set(self@, section@));
            },
        }
        r
    }
}

} // verus!
