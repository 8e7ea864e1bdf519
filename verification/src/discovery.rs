//! Finding the buildable programs in a directory tree that is held in memory:
//! every readable manifest that declares a package name and has an entry point
//! beside it gives one unit.

use vstd::prelude::*;
use vstd::string::*;
use crate::text::same_text;

verus! {

/// One buildable program: its package name, its entry point and its manifest.
/// Paths are texts with `/` between their parts.
#[derive(Clone, Debug, PartialEq, Eq)]
pub struct RustCrate {
    pub name: String,
    pub main_rs_path: String,
    pub cargo_toml_path: String,
}

/// What a `RustCrate` holds.
pub struct CrateView {
    pub name: Seq<char>,
    pub main_rs_path: Seq<char>,
    pub cargo_toml_path: Seq<char>,
}

impl View for RustCrate {
    type V = CrateView;

    open spec fn view(&self) -> CrateView {
        CrateView {
            name: self.name@,
            main_rs_path: self.main_rs_path@,
            cargo_toml_path: self.cargo_toml_path@,
        }
    }
}

/// One entry of a directory tree. `contents` is the text of a file that could
/// be read, and `None` for a directory or an unreadable file.
#[derive(Clone, Debug, PartialEq, Eq)]
pub struct TreeEntry {
    pub path: String,
    pub is_file: bool,
    pub contents: Option<String>,
}

/// What a `TreeEntry` holds.
pub struct EntryView {
    pub path: Seq<char>,
    pub is_file: bool,
    pub contents: Option<Seq<char>>,
}

impl View for TreeEntry {
    type V = EntryView;

    open spec fn view(&self) -> EntryView {
        EntryView {
            path: self.path@,
            is_file: self.is_file,
            contents: match self.contents {
                Some(text) => Some(text@),
                None => None,
            },
        }
    }
}

/// The string that the TOML document `text` holds under `key` in its table
/// `table`: `None` where `text` is no TOML document, where it has no such
/// table or key, and where the value there is no string.
pub uninterp spec fn manifest_string(text: Seq<char>, table: Seq<char>, key: Seq<char>) -> Option<
    Seq<char>,
>;

/// Parses `text` with the `FromStr` impl of `toml::Value` and follows `table`
/// and `key` with `Value::get`, then reads the string there with
/// `Value::as_str`. Each step that finds nothing ends in `None`. The result is
/// decided by the three texts alone.
#[verifier::external_body]
fn toml_string_at(text: &str, table: &str, key: &str) -> (r: Option<String>)
    ensures
        match r {
            Some(found) => manifest_string(text@, table@, key@) == Some(found@),
            None => manifest_string(text@, table@, key@).is_none(),
        },
{
    let document = text.parse::<toml::Value>().ok()?;
    let value = document.get(table)?.get(key)?;
    Some(value.as_str()?.to_string())
}

/// The package name that a manifest declares.
pub open spec fn declared_name(manifest: Seq<char>) -> Option<Seq<char>> {
    manifest_string(manifest, "package"@, "name"@)
}

/// Whether the last part of `path` is `Cargo.toml`.
pub open spec fn names_manifest(path: Seq<char>) -> bool {
    let n = path.len() as int;
    &&& n >= 10
    &&& path.subrange(n - 10, n) == "Cargo.toml"@
    &&& (n == 10 || path[n - 11] == '/')
}

/// The entry point that belongs to the manifest at `path`: `src/main.rs` in
/// the manifest's directory.
pub open spec fn entry_point_of(path: Seq<char>) -> Seq<char> {
    path.subrange(0, path.len() - 10) + "src/main.rs"@
}

/// The unit that a manifest gives, from its path, the package name read from
/// it and whether its entry point exists.
pub open spec fn unit_of(path: Seq<char>, name: Option<Seq<char>>, entry_point_exists: bool) -> Option<
    CrateView,
> {
    if names_manifest(path) && name.is_some() && entry_point_exists {
        Some(
            CrateView {
                name: name.unwrap(),
                main_rs_path: entry_point_of(path),
                cargo_toml_path: path,
            },
        )
    } else {
        None
    }
}

/// Whether the tree has an entry at `path`.
pub open spec fn has_path(tree: Seq<EntryView>, path: Seq<char>) -> bool {
    exists|j: int| 0 <= j < tree.len() && (#[trigger] tree[j]).path == path
}

/// The unit that entry `i` of the tree gives, if it gives one.
pub open spec fn unit_at(tree: Seq<EntryView>, i: int) -> Option<CrateView> {
    let entry = tree[i];
    if entry.is_file && entry.contents.is_some() {
        unit_of(
            entry.path,
            declared_name(entry.contents.unwrap()),
            has_path(tree, entry_point_of(entry.path)),
        )
    } else {
        None
    }
}

/// The units that the first `n` entries give, in the order of the entries.
pub open spec fn units_upto(tree: Seq<EntryView>, n: int) -> Seq<CrateView>
    decreases n,
{
    if n <= 0 {
        Seq::empty()
    } else {
        match unit_at(tree, n - 1) {
            Some(unit) => units_upto(tree, n - 1).push(unit),
            None => units_upto(tree, n - 1),
        }
    }
}

/// Every unit of the tree.
pub open spec fn discovered(tree: Seq<EntryView>) -> Seq<CrateView> {
    units_upto(tree, tree.len() as int)
}

/// The entries of a tree, each by what it holds.
pub open spec fn entry_views(tree: Seq<TreeEntry>) -> Seq<EntryView> {
    Seq::new(tree.len(), |i: int| tree[i]@)
}

/// The units of a list, each by what it holds.
pub open spec fn crate_views(units: Seq<RustCrate>) -> Seq<CrateView> {
    Seq::new(units.len(), |i: int| units[i]@)
}

/// Whether `path` names a manifest.
pub fn is_manifest_path(path: &str) -> (r: bool)
    ensures
        r == names_manifest(path@),
{
    let n: usize = path.unicode_len();
    if n < 10 {
        return false;
    }
    let tail = path.substring_char(n - 10, n);
    if !same_text(tail, "Cargo.toml") {
        return false;
    }
    n == 10 || path.get_char(n - 11) == '/'
}

/// The path of the entry point beside the manifest at `manifest_path`; `None`
/// where that path names no manifest.
pub fn entry_point_path(manifest_path: &str) -> (r: Option<String>)
    ensures
        match r {
            Some(p) => names_manifest(manifest_path@) && p@ == entry_point_of(manifest_path@),
            None => !names_manifest(manifest_path@),
        },
{
    if !is_manifest_path(manifest_path) {
        return None;
    }
    let n: usize = manifest_path.unicode_len();
    let mut entry = String::from_str(manifest_path.substring_char(0, n - 10));
    entry.append("src/main.rs");
    Some(entry)
}

/// The package name that the text of a manifest declares; `None` where the
/// text is malformed or declares none.
pub fn package_name(manifest: &str) -> (r: Option<String>)
    ensures
        match r {
            Some(name) => declared_name(manifest@) == Some(name@),
            None => declared_name(manifest@).is_none(),
        },
{
    toml_string_at(manifest, "package", "name")
}

/// Decides what a manifest gives, once its package name was looked for and its
/// entry point was looked up.
pub fn candidate_unit(manifest_path: &str, name: Option<String>, entry_point_exists: bool) -> (r:
    Option<RustCrate>)
    ensures
        match r {
            Some(unit) => unit_of(
                manifest_path@,
                match name {
                    Some(text) => Some(text@),
                    None => None,
                },
                entry_point_exists,
            ) == Some(unit@),
            None => unit_of(
                manifest_path@,
                match name {
                    Some(text) => Some(text@),
                    None => None,
                },
                entry_point_exists,
            ).is_none(),
        },
{
    if !entry_point_exists {
        return None;
    }
    match (entry_point_path(manifest_path), name) {
        (Some(main_rs_path), Some(name)) => Some(
            RustCrate { name, main_rs_path, cargo_toml_path: String::from_str(manifest_path) },
        ),
        _ => None,
    }
}

/// Whether the tree has an entry at `path`.
pub fn tree_has_path(tree: &Vec<TreeEntry>, path: &str) -> (r: bool)
    ensures
        r == has_path(entry_views(tree@), path@),
{
    let mut j: usize = 0;
    while j < tree.len()
        invariant
            j <= tree.len(),
            forall|k: int| 0 <= k < j ==> (#[trigger] entry_views(tree@)[k]).path != path@,
        decreases tree.len() - j,
    {
        if same_text(tree[j].path.as_str(), path) {
            assert(entry_views(tree@)[j as int].path == path@);
            return true;
        }
        j += 1;
    }
    false
}

/// Scans a tree for buildable programs. An entry gives a unit when it is a
/// readable file named `Cargo.toml` whose text declares a package name and
/// beside which the tree has `src/main.rs`. Every other entry is passed over,
/// and the units come in the order of their manifests.
pub fn find_rust_crates(tree: &Vec<TreeEntry>) -> (r: Vec<RustCrate>)
    ensures
        crate_views(r@) == discovered(entry_views(tree@)),
{
    let mut rust_crates: Vec<RustCrate> = Vec::new();
    let mut i: usize = 0;
    assert(crate_views(rust_crates@) =~= units_upto(entry_views(tree@), 0));
    while i < tree.len()
        invariant
            i <= tree.len(),
            crate_views(rust_crates@) == units_upto(entry_views(tree@), i as int),
        decreases tree.len() - i,
    {
        let ghost before = crate_views(rust_crates@);
        let entry = &tree[i];
        assert(entry_views(tree@)[i as int] == entry@);
        let mut found: Option<RustCrate> = None;
        if entry.is_file && is_manifest_path(entry.path.as_str()) {
            if let Some(text) = &entry.contents {
                let name = package_name(text.as_str());
                if let Some(main_rs_path) = entry_point_path(entry.path.as_str()) {
                    let exists = tree_has_path(tree, main_rs_path.as_str());
                    found = candidate_unit(entry.path.as_str(), name, exists);
                }
            }
        }
        match found {
            Some(unit) => {
                assert(unit_at(entry_views(tree@), i as int) == Some(unit@));
                rust_crates.push(unit);
                assert(crate_views(rust_crates@) =~= before.push(unit@));
            },
            None => {
                assert(unit_at(entry_views(tree@), i as int).is_none());
            },
        }
        i += 1;
    }
    rust_crates
}

/// A manifest that gives a unit is discovered whatever else the tree holds:
/// no other entry, malformed or not, keeps its unit out of the result.
pub proof fn valid_manifest_is_discovered(tree: Seq<EntryView>, i: int)
    requires
        0 <= i < tree.len(),
        unit_at(tree, i).is_some(),
    ensures
        discovered(tree).contains(unit_at(tree, i).unwrap()),
{
    unit_is_among_first(tree, i, tree.len() as int);
}

/// The unit of entry `i` is among the units of the first `n` entries, for
/// every `n` beyond `i`.
proof fn unit_is_among_first(tree: Seq<EntryView>, i: int, n: int)
    requires
        0 <= i < n <= tree.len(),
        unit_at(tree, i).is_some(),
    ensures
        units_upto(tree, n).contains(unit_at(tree, i).unwrap()),
    decreases n,
{
    let unit = unit_at(tree, i).unwrap();
    let rest = units_upto(tree, n - 1);
    if i == n - 1 {
        assert(rest.push(unit).last() == unit);
    } else {
        unit_is_among_first(tree, i, n - 1);
        let at = choose|k: int| 0 <= k < rest.len() && rest[k] == unit;
        match unit_at(tree, n - 1) {
            Some(other) => {
                assert(rest.push(other)[at] == unit);
            },
            None => {},
        }
    }
}

/// Every discovered unit comes from a manifest of the tree whose entry point
/// the tree holds too.
pub proof fn discovered_units_have_both_files(tree: Seq<EntryView>, k: int)
    requires
        0 <= k < discovered(tree).len(),
    ensures
        names_manifest(discovered(tree)[k].cargo_toml_path),
        has_path(tree, discovered(tree)[k].cargo_toml_path),
        has_path(tree, discovered(tree)[k].main_rs_path),
{
    units_come_from_entries(tree, tree.len() as int, k);
}

proof fn units_come_from_entries(tree: Seq<EntryView>, n: int, k: int)
    requires
        0 <= n <= tree.len(),
        0 <= k < units_upto(tree, n).len(),
    ensures
        names_manifest(units_upto(tree, n)[k].cargo_toml_path),
        has_path(tree, units_upto(tree, n)[k].cargo_toml_path),
        has_path(tree, units_upto(tree, n)[k].main_rs_path),
    decreases n,
{
    if n > 0 {
        let rest = units_upto(tree, n - 1);
        if k < rest.len() {
            units_come_from_entries(tree, n - 1, k);
        } else {
            assert(tree[n - 1].path == units_upto(tree, n)[k].cargo_toml_path);
        }
    }
}

} // verus!
