use vstd::prelude::*;

use crate::errors::Error;
use crate::strutil::str_eq;

verus! {

/// One node of the hierarchical configuration document. Only the shapes the
/// pipeline interprets are distinguished; any other value appears as `Other`.
/// Tables keep their entries in document order; a lookup takes the first
/// entry with a matching key.
pub enum ConfigValue {
    Text(String),
    Flag(bool),
    List(Vec<ConfigValue>),
    Table(Vec<(String, ConfigValue)>),
    Other,
}

/// First entry of `entries` whose key is `key`.
pub open spec fn spec_table_get(entries: Seq<(String, ConfigValue)>, key: Seq<char>) -> Option<
    ConfigValue,
>
    decreases entries.len(),
{
    if entries.len() == 0 {
        None
    } else if entries[0].0@ == key {
        Some(entries[0].1)
    } else {
        spec_table_get(entries.skip(1), key)
    }
}

/// Walks the document one key per path segment. A missing key, or a
/// non-table node met before the last segment, yields `None`.
pub open spec fn spec_lookup(doc: ConfigValue, path: Seq<Seq<char>>) -> Option<ConfigValue>
    decreases path.len(),
{
    if path.len() == 0 {
        Some(doc)
    } else {
        match doc {
            ConfigValue::Table(entries) => match spec_table_get(entries@, path[0]) {
                Some(child) => spec_lookup(child, path.skip(1)),
                None => None,
            },
            _ => None,
        }
    }
}

fn table_get<'a>(entries: &'a Vec<(String, ConfigValue)>, key: &str) -> (r: Option<
    &'a ConfigValue,
>)
    ensures
        match r {
            Some(v) => spec_table_get(entries@, key@) == Some(*v),
            None => spec_table_get(entries@, key@) is None,
        },
{
    let n = entries.len();
    let mut i: usize = 0;
    proof {
        assert(entries@.skip(0) =~= entries@);
    }
    while i < n
        invariant
            n == entries@.len(),
            i <= n,
            spec_table_get(entries@, key@) == spec_table_get(entries@.skip(i as int), key@),
        decreases n - i,
    {
        if str_eq(entries[i].0.as_str(), key) {
            proof {
                assert(entries@.skip(i as int)[0] == entries@[i as int]);
            }
            return Some(&entries[i].1);
        }
        i += 1;
        proof {
            assert(entries@.skip(i - 1).skip(1) =~= entries@.skip(i as int));
        }
    }
    proof {
        assert(entries@.skip(n as int).len() == 0);
    }
    None
}

/// The document node at `path`, if every segment resolves.
pub fn config_get<'a>(doc: &'a ConfigValue, path: &Vec<&str>) -> (r: Option<&'a ConfigValue>)
    ensures
        match r {
            Some(v) => spec_lookup(*doc, path.deep_view()) == Some(*v),
            None => spec_lookup(*doc, path.deep_view()) is None,
        },
{
    let mut cur: &ConfigValue = doc;
    let n = path.len();
    let mut k: usize = 0;
    proof {
        assert(path.deep_view().skip(0) =~= path.deep_view());
    }
    while k < n
        invariant
            n == path@.len(),
            k <= n,
            spec_lookup(*doc, path.deep_view()) == spec_lookup(
                *cur,
                path.deep_view().skip(k as int),
            ),
        decreases n - k,
    {
        proof {
            assert(path.deep_view().len() == n);
            assert(path.deep_view().skip(k as int)[0] == path.deep_view()[k as int]);
        }
        match cur {
            ConfigValue::Table(entries) => {
                match table_get(entries, path[k]) {
                    Some(child) => {
                        cur = child;
                    },
                    None => {
                        return None;
                    },
                }
            },
            _ => {
                return None;
            },
        }
        k += 1;
        proof {
            assert(path.deep_view().skip(k - 1).skip(1) =~= path.deep_view().skip(k as int));
        }
    }
    proof {
        assert(path.deep_view().skip(n as int).len() == 0);
    }
    Some(cur)
}

/// The scalar string that a lookup yields: a string value is itself, a
/// boolean is coerced to its token, anything else is absent.
pub open spec fn spec_get_string(doc: ConfigValue, path: Seq<Seq<char>>) -> Option<Seq<char>> {
    match spec_lookup(doc, path) {
        Some(ConfigValue::Text(s)) => Some(s@),
        Some(ConfigValue::Flag(b)) => Some(
            if b {
                "true"@
            } else {
                "false"@
            },
        ),
        _ => None,
    }
}

/// Typed scalar lookup: absence at any depth is `None`, never an error.
pub fn get_toml_string(doc: &ConfigValue, path: &Vec<&str>) -> (r: Option<String>)
    ensures
        r is Some <==> spec_get_string(*doc, path.deep_view()) is Some,
        r matches Some(s) ==> spec_get_string(*doc, path.deep_view()) == Some(s@),
{
    match config_get(doc, path) {
        Some(ConfigValue::Text(s)) => Some(s.clone()),
        Some(ConfigValue::Flag(b)) => Some(
            if *b {
                "true".to_owned()
            } else {
                "false".to_owned()
            },
        ),
        _ => None,
    }
}

/// The text of a string node; empty for any other node.
pub open spec fn spec_text_of(v: ConfigValue) -> Seq<char> {
    match v {
        ConfigValue::Text(s) => s@,
        _ => Seq::empty(),
    }
}

/// Whether every element of a list is a string node.
pub open spec fn spec_all_strings(items: Seq<ConfigValue>) -> bool {
    forall|i: int| 0 <= i < items.len() ==> items[i] is Text
}

/// The texts of a list's string nodes, in order.
pub open spec fn spec_string_items(items: Seq<ConfigValue>) -> Seq<Seq<char>> {
    Seq::new(items.len(), |i: int| spec_text_of(items[i]))
}

/// Typed string-array lookup: absence, or a terminal node that is not a
/// list, is `None`; a list holding a non-string element is a fatal
/// configuration error.
pub fn get_toml_string_array(doc: &ConfigValue, path: &Vec<&str>) -> (r: Result<
    Option<Vec<String>>,
    Error,
>)
    ensures
        match r {
            Ok(Some(items)) => spec_lookup(*doc, path.deep_view()) matches Some(
                ConfigValue::List(vs),
            ) && spec_all_strings(vs@) && items.deep_view() == spec_string_items(vs@),
            Ok(None) => !(spec_lookup(*doc, path.deep_view()) matches Some(ConfigValue::List(_))),
            Err(e) => e is MalformedStringArray && (spec_lookup(*doc, path.deep_view()) matches Some(
                ConfigValue::List(vs),
            ) && !spec_all_strings(vs@)),
        },
{
    let found = config_get(doc, path);
    match found {
        Some(node) => match node {
            ConfigValue::List(vs) => {
                let n = vs.len();
            let mut out: Vec<String> = Vec::new();
            let mut i: usize = 0;
            while i < n
                invariant
                    spec_lookup(*doc, path.deep_view()) == Some(*node),
                    *node == ConfigValue::List(*vs),
                    n == vs@.len(),
                    i <= n,
                    out@.len() == i,
                    forall|j: int| 0 <= j < i ==> vs@[j] is Text,
                    forall|j: int| 0 <= j < i ==> #[trigger] out@[j]@ == spec_text_of(vs@[j]),
                decreases n - i,
            {
                match &vs[i] {
                    ConfigValue::Text(s) => {
                        out.push(s.clone());
                    },
                    _ => {
                        proof {
                            assert(!(vs@[i as int] is Text));
                            assert(!spec_all_strings(vs@));
                        }
                        return Err(Error::MalformedStringArray);
                    },
                }
                i += 1;
            }
                proof {
                    assert forall|j: int| 0 <= j < n implies out.deep_view()[j]
                        == spec_string_items(vs@)[j] by {
                        assert(out.deep_view()[j] == out@[j]@);
                        assert(out@[j]@ == spec_text_of(vs@[j]));
                    }
                    assert(out.deep_view() =~= spec_string_items(vs@));
                }
                Ok(Some(out))
            },
            _ => Ok(None),
        },
        None => Ok(None),
    }
}

/// The application package identifier: the configured `package_name`, or the
/// documented default when the key path is absent.
pub open spec fn spec_app_id(doc: ConfigValue) -> Seq<char> {
    match spec_get_string(
        doc,
        seq!["package"@, "metadata"@, "android"@, "package_name"@],
    ) {
        Some(s) => s,
        None => "org.libsdl.app"@,
    }
}

/// Reads the package identifier from the configuration; absence of the key
/// path yields the documented default, never an error.
pub fn get_android_app_id(doc: &ConfigValue) -> (r: String)
    ensures
        r@ == spec_app_id(*doc),
{
    let path: Vec<&str> = vec!["package", "metadata", "android", "package_name"];
    proof {
        assert(path.deep_view() =~= seq!["package"@, "metadata"@, "android"@, "package_name"@]);
    }
    match get_toml_string(doc, &path) {
        Some(s) => s,
        None => "org.libsdl.app".to_owned(),
    }
}

/// The display title: the configured `title`, or the documented default when
/// the key path is absent.
pub open spec fn spec_app_title(doc: ConfigValue) -> Seq<char> {
    match spec_get_string(doc, seq!["package"@, "metadata"@, "android"@, "title"@]) {
        Some(s) => s,
        None => "Untitled"@,
    }
}

/// Reads the display title from the configuration; absence of the key path
/// yields the documented default, never an error.
pub fn get_android_app_title(doc: &ConfigValue) -> (r: String)
    ensures
        r@ == spec_app_title(*doc),
{
    let path: Vec<&str> = vec!["package", "metadata", "android", "title"];
    proof {
        assert(path.deep_view() =~= seq!["package"@, "metadata"@, "android"@, "title"@]);
    }
    match get_toml_string(doc, &path) {
        Some(s) => s,
        None => "Untitled".to_owned(),
    }
}

} // verus!
