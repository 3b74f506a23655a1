//! Dependency records and their extraction from a parsed manifest's metadata.

use vstd::prelude::*;
use vstd::string::StringExecFns;

use crate::errors::Error;

verus! {

/// One value of the manifest's metadata section, as far as this pipeline
/// reads it: a string, a table of key/value entries in document order, or
/// anything else (numbers, arrays, ...), which the pipeline never accepts
/// where a version string or a table is required.
pub enum MetaValue {
    Str(String),
    Table(Vec<(String, MetaValue)>),
    Other,
}

/// First value bound to `key` in `entries` at or after position `i`.
pub open spec fn lookup_from(entries: Seq<(String, MetaValue)>, key: Seq<char>, i: int) -> Option<
    MetaValue,
>
    decreases entries.len() - i,
{
    if i < 0 || i >= entries.len() {
        None
    } else if entries[i].0@ == key {
        Some(entries[i].1)
    } else {
        lookup_from(entries, key, i + 1)
    }
}

/// First value bound to `key` in `entries`.
pub open spec fn lookup(entries: Seq<(String, MetaValue)>, key: Seq<char>) -> Option<MetaValue> {
    lookup_from(entries, key, 0)
}

/// Every value of the table is a string.
pub open spec fn all_string_values(entries: Seq<(String, MetaValue)>) -> bool {
    forall|i: int| 0 <= i < entries.len() ==> entries[i].1 is Str
}

/// The nested dependency table of the metadata section, if the metadata is a
/// table that binds `nuget_dependencies` to a table.
pub open spec fn deps_table(metadata: Option<MetaValue>) -> Option<Seq<(String, MetaValue)>> {
    match metadata {
        Some(MetaValue::Table(entries)) => match lookup(entries@, "nuget_dependencies"@) {
            Some(MetaValue::Table(deps)) => Some(deps@),
            _ => None,
        },
        _ => None,
    }
}

/// The metadata declares a dependency table and every entry's value is a
/// version string.
pub open spec fn well_formed_deps(metadata: Option<MetaValue>) -> bool {
    match deps_table(metadata) {
        Some(deps) => all_string_values(deps),
        None => false,
    }
}

/// One declared dependency: a package name and a pinned version.
pub struct Dependency {
    pub name: String,
    pub version: String,
}

/// `d` is the dependency record read off the table entry `entry`: the entry's
/// value is a string, the record's name is the entry's key and its version is
/// that string.
pub open spec fn record_matches(d: Dependency, entry: (String, MetaValue)) -> bool {
    &&& entry.1 is Str
    &&& d.name@ == entry.0@
    &&& d.version@ == entry.1->Str_0@
}

/// The registry URL template for one package at one version.
pub open spec fn url_spec(name: Seq<char>, version: Seq<char>) -> Seq<char> {
    "https://www.nuget.org/api/v2/package/"@ + name + "/"@ + version
}

impl Dependency {
    pub fn new(name: String, version: String) -> (d: Dependency)
        ensures
            d.name@ == name@,
            d.version@ == version@,
    {
        Dependency { name, version }
    }

    /// The registry URL this dependency's package is fetched from.
    pub fn url(&self) -> (r: String)
        ensures
            r@ == url_spec(self.name@, self.version@),
    {
        let mut s: String = "https://www.nuget.org/api/v2/package/".to_owned();
        s.append(self.name.as_str());
        s.append("/");
        s.append(self.version.as_str());
        s
    }
}

/// Reads the dependency declarations out of a manifest's metadata section.
///
/// Succeeds exactly when the metadata is a table binding `nuget_dependencies`
/// to a table whose values are all strings, and then returns one record per
/// entry, in table order, with that entry's name and version. Any other
/// shape is a malformed manifest: the whole extraction fails rather than
/// returning a partial dependency list.
pub fn get_deps(metadata: Option<MetaValue>) -> (r: Result<Vec<Dependency>, Error>)
    ensures
        r is Ok <==> well_formed_deps(metadata),
        r matches Ok(v) ==> deps_table(metadata) matches Some(deps) && v@.len() == deps.len()
            && forall|k: int| 0 <= k < deps.len() ==> #[trigger] record_matches(v@[k], deps[k]),
        r matches Err(e) ==> e is MalformedManifest,
{
    let entries = match &metadata {
        Some(MetaValue::Table(entries)) => entries,
        _ => {
            return Err(Error::MalformedManifest);
        },
    };
    let key: String = "nuget_dependencies".to_owned();
    let n = entries.len();
    let mut i: usize = 0;
    while i < n
        invariant
            metadata matches Some(mv) && mv == MetaValue::Table(*entries),
            n == entries@.len(),
            0 <= i <= n,
            key@ == "nuget_dependencies"@,
            lookup(entries@, key@) == lookup_from(entries@, key@, i as int),
        decreases n - i,
    {
        if entries[i].0 == key {
            proof {
                assert(lookup_from(entries@, key@, i as int) == Some(entries@[i as int].1));
            }
            let deps = match &entries[i].1 {
                MetaValue::Table(deps) => deps,
                _ => {
                    return Err(Error::MalformedManifest);
                },
            };
            proof {
                assert(deps_table(metadata) == Some(deps@));
            }
            let m = deps.len();
            let mut out: Vec<Dependency> = Vec::new();
            let mut j: usize = 0;
            while j < m
                invariant
                    m == deps@.len(),
                    0 <= j <= m,
                    deps_table(metadata) == Some(deps@),
                    out@.len() == j,
                    forall|k: int| 0 <= k < j ==> #[trigger] record_matches(out@[k], deps@[k]),
                decreases m - j,
            {
                match &deps[j].1 {
                    MetaValue::Str(ver) => {
                        let dep = Dependency::new(deps[j].0.clone(), ver.clone());
                        let ghost prev = out@;
                        out.push(dep);
                        proof {
                            assert forall|k: int| 0 <= k < j + 1 implies #[trigger] record_matches(
                                out@[k],
                                deps@[k],
                            ) by {
                                if k == j {
                                    assert(out@[k] == dep);
                                    assert(deps@[k].1 == MetaValue::Str(*ver));
                                } else {
                                    assert(out@[k] == prev[k]);
                                }
                            }
                        }
                    },
                    _ => {
                        assert(!all_string_values(deps@));
                        return Err(Error::MalformedManifest);
                    },
                }
                j = j + 1;
            }
            proof {
                assert forall|k: int| 0 <= k < deps@.len() implies deps@[k].1 is Str by {
                    assert(record_matches(out@[k], deps@[k]));
                }
                assert(all_string_values(deps@));
            }
            return Ok(out);
        }
        i = i + 1;
    }
    Err(Error::MalformedManifest)
}

} // verus!
