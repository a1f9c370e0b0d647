//! The project's Cargo manifest, brought into the shape the build pipelines
//! rely on: a `[package]` table with a `name`, and a `gxi` dependency that is
//! a table with a `version` and a `features` array of strings, from which the
//! platform features (`desktop`, `web`) have been taken out, since each
//! pipeline adds its own.
use vstd::prelude::*;
use vstd::string::*;

use crate::pipelines::desktop::desktop_pipeline::DESKTOP_FEATURE;
use crate::pipelines::web::web_pipeline::WEB_FEATURE;
use crate::utils::toml_value::{
    TomlValue, TomlModel, TableModel, model_of, has_key, is_first_key, get_value, or_insert,
    set_value, lemma_key_index, lemma_or_insert, lemma_set_value, lemma_or_insert_other,
    lemma_set_value_other, lemma_set_same, lemma_set_twice, keeps_entries_except,
    lemma_keeps_or_insert, lemma_keeps_set_value, lemma_keeps_trans, entries_model, items_model,
    lemma_entries_model, lemma_items_model, lemma_take_put, find_key, or_insert_entry, take_value,
    put_value, parse_toml, render_toml, toml_document, toml_text, text_view, scalar_text,
};

verus! {

broadcast use vstd::std_specs::vec::group_vec_axioms;

pub const DEPENDENCIES_STR: &'static str = "dependencies";
pub const VERSION_STR: &'static str = "version";
pub const FEATURES_STR: &'static str = "features";
pub const PACKAGE_STR: &'static str = "package";
pub const NAME_STR: &'static str = "name";
pub const GXI_STR: &'static str = "gxi";

/// Why a manifest could not be brought into shape.
#[derive(Debug)]
pub enum CargoTomlError {
    /// The bytes are not a TOML document; the text of the parser's error.
    Parse(String),
    /// The document is not a table.
    RootNotTable,
    /// `[package]` is present but is not a table.
    PackageNotTable,
    /// `[package]` has no `name`.
    MissingPackageName,
    /// `[dependencies]` is present but is not a table.
    DependenciesNotTable,
    /// The `gxi` dependency is neither a table nor a version string.
    GxiNotTable,
    /// The `features` of the `gxi` dependency is not an array.
    FeaturesNotArray,
    /// An item of the `features` array is not a string.
    FeatureNotString,
    /// The `name` of `[package]` is not a string, and the `toml` crate
    /// refuses to write it as TOML text.
    UnrenderableName,
}

impl CargoTomlError {
    /// The error's message.
    pub fn message(&self) -> (res: String)
        ensures
            self matches CargoTomlError::Parse(m) ==> res@ == m@,
            *self is RootNotTable ==> res@ == "the manifest must be a table"@,
            *self is PackageNotTable ==> res@ == "[package] must be a table. [package]"@,
            *self is MissingPackageName ==> res@
                == "expected name under table [package] in Cargo.toml"@,
            *self is DependenciesNotTable ==> res@
                == "[dependencies] must be a table. [dependencies]"@,
            *self is GxiNotTable ==> res@
                == "Expected table as {} or string as \"\" for the value of dependency gxi"@,
            *self is FeaturesNotArray ==> res@
                == "Expected array of strings as the value of features of dependency gxi"@,
            *self is FeatureNotString ==> res@ == "Values of feature array can only have strings"@,
            *self is UnrenderableName ==> res@ == "Unable to represent value as string"@,
    {
        match self {
            CargoTomlError::Parse(m) => m.clone(),
            CargoTomlError::RootNotTable => String::from_str("the manifest must be a table"),
            CargoTomlError::PackageNotTable => String::from_str("[package] must be a table. [package]"),
            CargoTomlError::MissingPackageName => String::from_str(
                "expected name under table [package] in Cargo.toml",
            ),
            CargoTomlError::DependenciesNotTable => String::from_str(
                "[dependencies] must be a table. [dependencies]",
            ),
            CargoTomlError::GxiNotTable => String::from_str(
                "Expected table as {} or string as \"\" for the value of dependency gxi",
            ),
            CargoTomlError::FeaturesNotArray => String::from_str(
                "Expected array of strings as the value of features of dependency gxi",
            ),
            CargoTomlError::FeatureNotString => String::from_str(
                "Values of feature array can only have strings",
            ),
            CargoTomlError::UnrenderableName => String::from_str(
                "Unable to represent value as string",
            ),
        }
    }
}

// ---------------------------------------------------------------------------
// What normalisation does, over the model.
// ---------------------------------------------------------------------------

pub open spec fn empty_table() -> TomlModel {
    TomlModel::Table(Seq::empty())
}

/// A feature that one of the platform pipelines adds by itself.
pub open spec fn is_platform_feature(m: TomlModel) -> bool {
    m == TomlModel::Str(DESKTOP_FEATURE@) || m == TomlModel::Str(WEB_FEATURE@)
}

pub open spec fn all_strings(items: Seq<TomlModel>) -> bool {
    forall|i: int| 0 <= i < items.len() ==> (#[trigger] items[i]) is Str
}

/// The items that are not platform features, in their order.
pub open spec fn without_platform_features(items: Seq<TomlModel>) -> Seq<TomlModel>
    decreases items.len(),
{
    if items.len() == 0 {
        Seq::empty()
    } else {
        let rest = without_platform_features(items.drop_last());
        if is_platform_feature(items.last()) {
            rest
        } else {
            rest.push(items.last())
        }
    }
}

/// The `gxi` dependency brought into shape: a version string becomes a table
/// holding it as `version`; `version` and `features` are added where
/// missing; platform features are taken out.
pub open spec fn normalised_gxi(g: TomlModel) -> Result<TomlModel, CargoTomlError> {
    let g0 = match g {
        TomlModel::Str(s) => TomlModel::Table(seq![(VERSION_STR@, TomlModel::Str(s))]),
        other => other,
    };
    match g0 {
        TomlModel::Table(g1) => {
            let g2 = or_insert(
                or_insert(g1, VERSION_STR@, TomlModel::Str(Seq::empty())),
                FEATURES_STR@,
                TomlModel::Array(Seq::empty()),
            );
            match get_value(g2, FEATURES_STR@) {
                TomlModel::Array(items) => {
                    if all_strings(items) {
                        Ok(
                            TomlModel::Table(
                                set_value(
                                    g2,
                                    FEATURES_STR@,
                                    TomlModel::Array(without_platform_features(items)),
                                ),
                            ),
                        )
                    } else {
                        Err(CargoTomlError::FeatureNotString)
                    }
                },
                _ => Err(CargoTomlError::FeaturesNotArray),
            }
        },
        _ => Err(CargoTomlError::GxiNotTable),
    }
}

/// The `[dependencies]` table with its `gxi` entry (added where missing)
/// brought into shape.
pub open spec fn normalised_dependencies(d: TomlModel) -> Result<TomlModel, CargoTomlError> {
    match d {
        TomlModel::Table(d0) => {
            let d1 = or_insert(d0, GXI_STR@, empty_table());
            match normalised_gxi(get_value(d1, GXI_STR@)) {
                Ok(g) => Ok(TomlModel::Table(set_value(d1, GXI_STR@, g))),
                Err(e) => Err(e),
            }
        },
        _ => Err(CargoTomlError::DependenciesNotTable),
    }
}

/// The whole manifest brought into shape; `[package]` and `[dependencies]`
/// are added at the end where missing, in that order.
pub open spec fn normalised(root: TomlModel) -> Result<TomlModel, CargoTomlError> {
    match root {
        TomlModel::Table(t0) => {
            let t1 = or_insert(t0, PACKAGE_STR@, empty_table());
            match get_value(t1, PACKAGE_STR@) {
                TomlModel::Table(p) => {
                    if !has_key(p, NAME_STR@) {
                        Err(CargoTomlError::MissingPackageName)
                    } else {
                        let t2 = or_insert(t1, DEPENDENCIES_STR@, empty_table());
                        match normalised_dependencies(get_value(t2, DEPENDENCIES_STR@)) {
                            Ok(d) => Ok(TomlModel::Table(set_value(t2, DEPENDENCIES_STR@, d))),
                            Err(e) => Err(e),
                        }
                    }
                },
                _ => Err(CargoTomlError::PackageNotTable),
            }
        },
        _ => Err(CargoTomlError::RootNotTable),
    }
}

pub open spec fn result_view(r: Result<TomlValue, CargoTomlError>) -> Result<TomlModel, CargoTomlError> {
    match r {
        Ok(v) => Ok(v@),
        Err(e) => Err(e),
    }
}

/// What `serialise` gives for a byte slice, in terms of the parse outcome.
pub open spec fn serialised(doc: Result<TomlModel, Seq<char>>, res: Result<TomlValue, CargoTomlError>) -> bool {
    match doc {
        Err(m) => res matches Err(CargoTomlError::Parse(s)) && s@ == m,
        Ok(root) => if root is Table {
            result_view(res) == normalised(root)
        } else {
            res matches Err(CargoTomlError::RootNotTable)
        },
    }
}

/// The table under `k`'s entries, where the value under `k` is a table.
pub open spec fn sub_table(t: TableModel, k: Seq<char>) -> TableModel {
    match get_value(t, k) {
        TomlModel::Table(s) => s,
        _ => Seq::empty(),
    }
}

/// The manifest has a `gxi` dependency table with a `features` array.
pub open spec fn has_gxi_features(m: TomlModel) -> bool {
    match m {
        TomlModel::Table(t) => {
            &&& has_key(t, DEPENDENCIES_STR@)
            &&& get_value(t, DEPENDENCIES_STR@) is Table
            &&& has_key(sub_table(t, DEPENDENCIES_STR@), GXI_STR@)
            &&& get_value(sub_table(t, DEPENDENCIES_STR@), GXI_STR@) is Table
            &&& has_key(sub_table(sub_table(t, DEPENDENCIES_STR@), GXI_STR@), FEATURES_STR@)
            &&& get_value(sub_table(sub_table(t, DEPENDENCIES_STR@), GXI_STR@), FEATURES_STR@) is Array
        },
        _ => false,
    }
}

/// The `gxi` dependency table has a `version`.
pub open spec fn has_gxi_version(m: TomlModel) -> bool {
    match m {
        TomlModel::Table(t) => has_key(
            sub_table(sub_table(t, DEPENDENCIES_STR@), GXI_STR@),
            VERSION_STR@,
        ),
        _ => false,
    }
}

/// The shape that normalisation gives: a named package, and a `gxi`
/// dependency table with a `version` and a `features` array of strings.
pub open spec fn is_shaped(m: TomlModel) -> bool {
    &&& has_package_name(m)
    &&& has_gxi_features(m)
    &&& has_gxi_version(m)
    &&& all_strings(gxi_features(m))
}

/// The manifest has a `[package]` table with a `name`.
pub open spec fn has_package_name(m: TomlModel) -> bool {
    match m {
        TomlModel::Table(t) => {
            &&& has_key(t, PACKAGE_STR@)
            &&& get_value(t, PACKAGE_STR@) is Table
            &&& has_key(sub_table(t, PACKAGE_STR@), NAME_STR@)
        },
        _ => false,
    }
}

/// The value under `name` in `[package]`.
pub open spec fn package_name_value(m: TomlModel) -> TomlModel {
    match m {
        TomlModel::Table(t) => get_value(sub_table(t, PACKAGE_STR@), NAME_STR@),
        _ => m,
    }
}

/// The items of the `gxi` dependency's `features` array.
pub open spec fn gxi_features(m: TomlModel) -> Seq<TomlModel> {
    match m {
        TomlModel::Table(t) => match get_value(
            sub_table(sub_table(t, DEPENDENCIES_STR@), GXI_STR@),
            FEATURES_STR@,
        ) {
            TomlModel::Array(items) => items,
            _ => Seq::empty(),
        },
        _ => Seq::empty(),
    }
}

/// The manifest with the `gxi` dependency's `features` array replaced by
/// `items`, everything else as it was.
pub open spec fn with_gxi_features(m: TomlModel, items: Seq<TomlModel>) -> TomlModel {
    match m {
        TomlModel::Table(t) => {
            let d = sub_table(t, DEPENDENCIES_STR@);
            let g = sub_table(d, GXI_STR@);
            TomlModel::Table(
                set_value(
                    t,
                    DEPENDENCIES_STR@,
                    TomlModel::Table(
                        set_value(
                            d,
                            GXI_STR@,
                            TomlModel::Table(set_value(g, FEATURES_STR@, TomlModel::Array(items))),
                        ),
                    ),
                ),
            )
        },
        _ => m,
    }
}

pub open spec fn string_models(fs: Seq<String>) -> Seq<TomlModel> {
    Seq::new(fs.len(), |i: int| TomlModel::Str(fs[i]@))
}

// ---------------------------------------------------------------------------
// Normalisation, executable.
// ---------------------------------------------------------------------------

/// Whether a feature name is one of the platform features.
pub fn is_platform_name(s: &String) -> (b: bool)
    ensures
        b == is_platform_feature(TomlModel::Str(s@)),
{
    let desktop = String::from_str(DESKTOP_FEATURE);
    let web = String::from_str(WEB_FEATURE);
    *s == desktop || *s == web
}

/// The items of a `features` array without the platform features; an error
/// where an item is not a string.
pub fn normalise_features(items: &Vec<TomlValue>) -> (res: Result<Vec<TomlValue>, CargoTomlError>)
    ensures
        all_strings(items_model(items@)) ==> (res matches Ok(out) && items_model(out@)
            == without_platform_features(items_model(items@))),
        !all_strings(items_model(items@)) ==> res matches Err(CargoTomlError::FeatureNotString),
{
    let ghost m = items_model(items@);
    proof {
        lemma_items_model(items@);
    }
    let mut out: Vec<TomlValue> = Vec::new();
    proof {
        assert(items_model(out@) =~= Seq::empty());
        assert(m.take(0) =~= Seq::empty());
    }
    let mut i: usize = 0;
    while i < items.len()
        invariant
            m == items_model(items@),
            m.len() == items@.len(),
            forall|j: int| 0 <= j < items@.len() ==> #[trigger] m[j] == model_of(items@[j]),
            i <= items@.len(),
            all_strings(m.take(i as int)),
            items_model(out@) == without_platform_features(m.take(i as int)),
        decreases items@.len() - i,
    {
        proof {
            assert(m.take(i + 1).drop_last() =~= m.take(i as int));
            assert(m.take(i + 1).last() == m[i as int]);
        }
        match &items[i] {
            TomlValue::String(s) => {
                let ghost before = out@;
                if !is_platform_name(s) {
                    let item = TomlValue::String(s.clone());
                    out.push(item);
                    proof {
                        assert(out@.drop_last() =~= before);
                    }
                }
                proof {
                    assert forall|j: int| 0 <= j < i + 1 implies (#[trigger] m.take(i + 1)[j]) is Str by {
                        if j < i {
                            assert(m.take(i + 1)[j] == m.take(i as int)[j]);
                        }
                    }
                }
            },
            _ => {
                proof {
                    assert(!(m[i as int] is Str));
                }
                return Err(CargoTomlError::FeatureNotString);
            },
        }
        i = i + 1;
    }
    proof {
        assert(m.take(items@.len() as int) =~= m);
    }
    Ok(out)
}

/// The `gxi` dependency brought into shape.
pub fn normalise_gxi(g: TomlValue) -> (res: Result<TomlValue, CargoTomlError>)
    ensures
        result_view(res) == normalised_gxi(g@),
{
    let ghost gm = g@;
    let mut entries: Vec<(String, TomlValue)> = match g {
        TomlValue::String(s) => {
            let mut e: Vec<(String, TomlValue)> = Vec::new();
            e.push((String::from_str(VERSION_STR), TomlValue::String(s)));
            proof {
                lemma_entries_model(e@);
                assert(entries_model(e@) =~= seq![(VERSION_STR@, gm)]);
            }
            e
        },
        TomlValue::Table(e) => e,
        _ => {
            return Err(CargoTomlError::GxiNotTable);
        },
    };
    let ghost g1 = entries_model(entries@);
    assert(TomlModel::Table(g1) == match gm {
        TomlModel::Str(s) => TomlModel::Table(seq![(VERSION_STR@, TomlModel::Str(s))]),
        other => other,
    });
    let version_key = String::from_str(VERSION_STR);
    let _ = or_insert_entry(&mut entries, &version_key, TomlValue::String(String::new()));
    let features_key = String::from_str(FEATURES_STR);
    let fi = or_insert_entry(&mut entries, &features_key, TomlValue::empty_array());
    let ghost g2 = entries_model(entries@);
    let ghost s2 = entries@;
    proof {
        lemma_key_index(g2, FEATURES_STR@);
        lemma_entries_model(s2);
        assert(g2[fi as int] == (s2[fi as int].0@, model_of(s2[fi as int].1)));
    }
    let (fk, fv) = take_value(&mut entries, fi);
    assert(g2 == or_insert(
        or_insert(g1, VERSION_STR@, TomlModel::Str(Seq::empty())),
        FEATURES_STR@,
        TomlModel::Array(Seq::empty()),
    ));
    assert(fv@ == get_value(g2, FEATURES_STR@));
    assert(fk@ == FEATURES_STR@);
    match fv {
        TomlValue::Array(items) => {
            let filtered = normalise_features(&items)?;
            let new_value = TomlValue::Array(filtered);
            put_value(&mut entries, fi, fk, new_value);
            proof {
                lemma_take_put(s2, fi as int, s2[fi as int].0, new_value);
            }
            Ok(TomlValue::Table(entries))
        },
        _ => Err(CargoTomlError::FeaturesNotArray),
    }
}

/// The `[dependencies]` table brought into shape.
pub fn normalise_dependencies(d: TomlValue) -> (res: Result<TomlValue, CargoTomlError>)
    ensures
        result_view(res) == normalised_dependencies(d@),
{
    match d {
        TomlValue::Table(mut entries) => {
            let gxi_key = String::from_str(GXI_STR);
            let gi = or_insert_entry(&mut entries, &gxi_key, TomlValue::empty_table());
            let ghost d1 = entries_model(entries@);
            let ghost s1 = entries@;
            proof {
                lemma_key_index(d1, GXI_STR@);
                lemma_entries_model(s1);
                assert(d1[gi as int] == (s1[gi as int].0@, model_of(s1[gi as int].1)));
            }
            let (gk, gv) = take_value(&mut entries, gi);
            let g = normalise_gxi(gv)?;
            put_value(&mut entries, gi, gk, g);
            proof {
                lemma_take_put(s1, gi as int, s1[gi as int].0, g);
            }
            Ok(TomlValue::Table(entries))
        },
        _ => Err(CargoTomlError::DependenciesNotTable),
    }
}

/// The value under `name` in `[package]` of a manifest that has one.
fn package_name_of(v: &TomlValue) -> (res: &TomlValue)
    requires
        has_package_name(v@),
    ensures
        res@ == package_name_value(v@),
{
    match v {
        TomlValue::Table(t) => {
            let package_key = String::from_str(PACKAGE_STR);
            let pi = find_key(t, &package_key);
            proof {
                lemma_entries_model(t@);
            }
            match pi {
                Some(pi) => match &t[pi].1 {
                    TomlValue::Table(p) => {
                        let name_key = String::from_str(NAME_STR);
                        let ni = find_key(p, &name_key);
                        proof {
                            lemma_entries_model(p@);
                        }
                        match ni {
                            Some(ni) => &p[ni].1,
                            None => v,
                        }
                    },
                    _ => v,
                },
                None => v,
            }
        },
        _ => v,
    }
}

/// Appends `features` to the `gxi` dependency's `features` array.
fn append_gxi_features(v: TomlValue, features: Vec<String>) -> (res: TomlValue)
    requires
        has_gxi_features(v@),
    ensures
        has_gxi_features(res@),
        res@ == with_gxi_features(v@, gxi_features(v@) + string_models(features@)),
{
    let ghost vm = v@;
    let mut t = match v {
        TomlValue::Table(t) => t,
        _ => {
            return v;
        },
    };
    let ghost t0 = entries_model(t@);
    let ghost s0 = t@;
    let deps_key = String::from_str(DEPENDENCIES_STR);
    let di = match find_key(&t, &deps_key) {
        Some(i) => i,
        None => {
            return TomlValue::Table(t);
        },
    };
    proof {
        lemma_key_index(t0, DEPENDENCIES_STR@);
        lemma_entries_model(s0);
        assert(t0[di as int] == (s0[di as int].0@, model_of(s0[di as int].1)));
    }
    let (dk, dv) = take_value(&mut t, di);
    let mut d = match dv {
        TomlValue::Table(d) => d,
        _ => {
            return TomlValue::Table(t);
        },
    };
    let ghost d0 = entries_model(d@);
    let ghost sd = d@;
    let gxi_key = String::from_str(GXI_STR);
    let gi = match find_key(&d, &gxi_key) {
        Some(i) => i,
        None => {
            return TomlValue::Table(t);
        },
    };
    proof {
        lemma_key_index(d0, GXI_STR@);
        lemma_entries_model(sd);
        assert(d0[gi as int] == (sd[gi as int].0@, model_of(sd[gi as int].1)));
    }
    let (gk, gv) = take_value(&mut d, gi);
    let mut g = match gv {
        TomlValue::Table(g) => g,
        _ => {
            return TomlValue::Table(t);
        },
    };
    let ghost g0 = entries_model(g@);
    let ghost sg = g@;
    let features_key = String::from_str(FEATURES_STR);
    let fi = match find_key(&g, &features_key) {
        Some(i) => i,
        None => {
            return TomlValue::Table(t);
        },
    };
    proof {
        lemma_key_index(g0, FEATURES_STR@);
        lemma_entries_model(sg);
        assert(g0[fi as int] == (sg[fi as int].0@, model_of(sg[fi as int].1)));
    }
    let (fk, fv) = take_value(&mut g, fi);
    let mut items = match fv {
        TomlValue::Array(items) => items,
        _ => {
            return TomlValue::Table(t);
        },
    };
    let ghost items0 = items_model(items@);
    let ghost si = items@;
    let mut j: usize = 0;
    proof {
        lemma_items_model(items@);
        assert(string_models(features@).take(0) =~= Seq::empty());
        assert(items0 + Seq::empty() =~= items0);
    }
    while j < features.len()
        invariant
            j <= features@.len(),
            items@.len() == si.len() + j,
            items_model(items@) == items0 + string_models(features@).take(j as int),
        decreases features@.len() - j,
    {
        let ghost before = items@;
        let item = TomlValue::String(features[j].clone());
        assert(item@ == TomlModel::Str(features@[j as int]@));
        items.push(item);
        proof {
            assert(items@.drop_last() =~= before);
            assert(items_model(items@) == items_model(before).push(item@));
            assert(string_models(features@).take(j + 1) =~= string_models(features@).take(
                j as int,
            ).push(TomlModel::Str(features@[j as int]@)));
            assert(items0 + string_models(features@).take(j + 1) =~= (items0 + string_models(
                features@,
            ).take(j as int)).push(TomlModel::Str(features@[j as int]@)));
        }
        j = j + 1;
    }
    proof {
        assert(string_models(features@).take(features@.len() as int) =~= string_models(features@));
    }
    let new_features = TomlValue::Array(items);
    put_value(&mut g, fi, fk, new_features);
    proof {
        lemma_take_put(sg, fi as int, sg[fi as int].0, new_features);
        lemma_set_value(g0, FEATURES_STR@, new_features@);
    }
    let new_gxi = TomlValue::Table(g);
    put_value(&mut d, gi, gk, new_gxi);
    proof {
        lemma_take_put(sd, gi as int, sd[gi as int].0, new_gxi);
        lemma_set_value(d0, GXI_STR@, new_gxi@);
    }
    let new_deps = TomlValue::Table(d);
    put_value(&mut t, di, dk, new_deps);
    proof {
        lemma_take_put(s0, di as int, s0[di as int].0, new_deps);
        lemma_set_value(t0, DEPENDENCIES_STR@, new_deps@);
    }
    TomlValue::Table(t)
}

// ---------------------------------------------------------------------------
// The manifest.
// ---------------------------------------------------------------------------

/// The project's Cargo manifest, normalised.
pub struct CargoToml {
    package_name: String,
    path: String,
    value: TomlValue,
}

impl CargoToml {
    /// The manifest has the shape that `add_features` works on.
    pub open spec fn wf(&self) -> bool {
        has_gxi_features(self.value_model())
    }

    pub closed spec fn value_model(&self) -> TomlModel {
        self.value@
    }

    pub closed spec fn package_name_view(&self) -> Seq<char> {
        self.package_name@
    }

    pub closed spec fn path_view(&self) -> Seq<char> {
        self.path@
    }

    /// The manifest's value.
    pub fn value(&self) -> (res: &TomlValue)
        ensures
            res@ == self.value_model(),
    {
        &self.value
    }

    /// The package name.
    pub fn package_name(&self) -> (res: &String)
        ensures
            res@ == self.package_name_view(),
    {
        &self.package_name
    }

    /// Where the manifest is read from and written to.
    pub fn path(&self) -> (res: &String)
        ensures
            res@ == self.path_view(),
    {
        &self.path
    }

    /// Brings a parsed manifest into shape (see `normalised`).
    pub fn normalise(root: TomlValue) -> (res: Result<TomlValue, CargoTomlError>)
        requires
            root@ is Table,
        ensures
            result_view(res) == normalised(root@),
    {
        let ghost rm = root@;
        let mut t: Vec<(String, TomlValue)> = match root {
            TomlValue::Table(e) => e,
            _ => {
                return Err(CargoTomlError::RootNotTable);
            },
        };
        let ghost t0 = entries_model(t@);
        let package_key = String::from_str(PACKAGE_STR);
        let pi = or_insert_entry(&mut t, &package_key, TomlValue::empty_table());
        let ghost t1 = entries_model(t@);
        proof {
            lemma_key_index(t1, PACKAGE_STR@);
            lemma_entries_model(t@);
            assert(t1[pi as int] == (t@[pi as int].0@, model_of(t@[pi as int].1)));
        }
        match &t[pi].1 {
            TomlValue::Table(p) => {
                let name_key = String::from_str(NAME_STR);
                if find_key(p, &name_key).is_none() {
                    return Err(CargoTomlError::MissingPackageName);
                }
            },
            _ => {
                return Err(CargoTomlError::PackageNotTable);
            },
        }
        let deps_key = String::from_str(DEPENDENCIES_STR);
        let di = or_insert_entry(&mut t, &deps_key, TomlValue::empty_table());
        let ghost t2 = entries_model(t@);
        let ghost s2 = t@;
        proof {
            lemma_key_index(t2, DEPENDENCIES_STR@);
            lemma_entries_model(s2);
            assert(t2[di as int] == (s2[di as int].0@, model_of(s2[di as int].1)));
        }
        let (dk, dv) = take_value(&mut t, di);
        assert(dv@ == get_value(t2, DEPENDENCIES_STR@));
        let d = normalise_dependencies(dv)?;
        put_value(&mut t, di, dk, d);
        proof {
            lemma_take_put(s2, di as int, s2[di as int].0, d);
        }
        Ok(TomlValue::Table(t))
    }

    /// Parses a manifest and brings it into shape: a parse error, a document
    /// that is not a table, or a normalisation error is reported; otherwise
    /// the normalised value is returned.
    pub fn serialise(bytes: &[u8]) -> (res: Result<TomlValue, CargoTomlError>)
        ensures
            serialised(toml_document(bytes@), res),
    {
        match parse_toml(bytes) {
            Err(message) => Err(CargoTomlError::Parse(message)),
            Ok(root) => {
                if let TomlValue::Table(_) = &root {
                    CargoToml::normalise(root)
                } else {
                    Err(CargoTomlError::RootNotTable)
                }
            },
        }
    }

    /// The manifest read from `path` whose contents are `bytes`: the
    /// normalised value, and as package name the string under `name` in
    /// `[package]`; where that value is not a string, its TOML text (an error
    /// only where the `toml` crate refuses to write it).
    pub fn from_file_contents(path: String, bytes: &[u8]) -> (res: Result<CargoToml, CargoTomlError>)
        ensures
            match toml_document(bytes@) {
                Err(m) => res matches Err(CargoTomlError::Parse(s)) && s@ == m,
                Ok(root) => if !(root is Table) {
                    res matches Err(CargoTomlError::RootNotTable)
                } else {
                    match normalised(root) {
                        Err(e) => res matches Err(e2) && e2 == e,
                        Ok(w) => match package_name_value(w) {
                            TomlModel::Str(name) => res matches Ok(c) && c.value_model() == w
                                && c.package_name_view() == name && c.path_view() == path@
                                && c.wf(),
                            other => (match toml_text(other) {
                                Some(text) => res matches Ok(c) && c.value_model() == w
                                    && c.package_name_view() == text && c.path_view() == path@
                                    && c.wf(),
                                None => res matches Err(CargoTomlError::UnrenderableName),
                            }) && (scalar_text(other) matches Some(lit) ==> (res matches Ok(c)
                                && c.package_name_view() == lit)),
                        },
                    }
                },
            },
    {
        let value = CargoToml::serialise(bytes)?;
        proof {
            lemma_normalised_shape(toml_document(bytes@)->Ok_0);
        }
        let name = package_name_of(&value);
        let package_name = match name {
            TomlValue::String(name) => name.clone(),
            _ => match render_toml(name) {
                Some(text) => text,
                None => {
                    return Err(CargoTomlError::UnrenderableName);
                },
            },
        };
        Ok(CargoToml { package_name, path, value })
    }

    /// Appends the given features to the `features` array of the `gxi`
    /// dependency; everything else is left as it was.
    pub fn add_features(&mut self, features_to_add: Vec<String>)
        requires
            old(self).wf(),
        ensures
            final(self).wf(),
            final(self).value_model() == with_gxi_features(
                old(self).value_model(),
                gxi_features(old(self).value_model()) + string_models(features_to_add@),
            ),
            final(self).package_name_view() == old(self).package_name_view(),
            final(self).path_view() == old(self).path_view(),
    {
        let mut value = TomlValue::Boolean(false);
        std::mem::swap(&mut value, &mut self.value);
        self.value = append_gxi_features(value, features_to_add);
    }

    /// The TOML text of the manifest.
    pub fn to_toml_string(&self) -> (res: Option<String>)
        ensures
            text_view(res) == toml_text(self.value_model()),
    {
        render_toml(&self.value)
    }
}

// ---------------------------------------------------------------------------
// Laws.
// ---------------------------------------------------------------------------

/// The keys and feature names that normalisation works with are distinct.
pub proof fn lemma_names_distinct()
    ensures
        PACKAGE_STR@ != DEPENDENCIES_STR@,
        VERSION_STR@ != FEATURES_STR@,
        DESKTOP_FEATURE@ != WEB_FEATURE@,
{
    reveal_strlit("package");
    reveal_strlit("dependencies");
    reveal_strlit("version");
    reveal_strlit("features");
    reveal_strlit("desktop");
    reveal_strlit("web");
    assert(PACKAGE_STR@.len() != DEPENDENCIES_STR@.len());
    assert(VERSION_STR@.len() != FEATURES_STR@.len());
    assert(DESKTOP_FEATURE@.len() != WEB_FEATURE@.len());
}

/// Taking out the platform features keeps strings strings and leaves no
/// platform feature.
pub proof fn lemma_without_platform_features(items: Seq<TomlModel>)
    ensures
        all_strings(items) ==> all_strings(without_platform_features(items)),
        forall|i: int|
            0 <= i < without_platform_features(items).len() ==> !is_platform_feature(
                #[trigger] without_platform_features(items)[i],
            ),
        without_platform_features(items).len() <= items.len(),
    decreases items.len(),
{
    if items.len() > 0 {
        let rest = items.drop_last();
        lemma_without_platform_features(rest);
        if all_strings(items) {
            assert forall|i: int| 0 <= i < rest.len() implies (#[trigger] rest[i]) is Str by {
                assert(rest[i] == items[i]);
            }
            assert(items[items.len() - 1] is Str);
        }
        let r = without_platform_features(rest);
        if !is_platform_feature(items.last()) {
            assert forall|i: int| 0 <= i < r.len() + 1 implies !is_platform_feature(
                #[trigger] r.push(items.last())[i],
            ) by {
                if i < r.len() {
                    assert(r.push(items.last())[i] == r[i]);
                }
            }
        }
    }
}

/// A manifest brought into shape has a `[package]` table with a `name`, and
/// a `gxi` dependency table with a `version` and a `features` array whose
/// items are strings, none of them a platform feature.
pub proof fn lemma_normalised_shape(root: TomlModel)
    requires
        normalised(root) is Ok,
    ensures
        has_package_name(normalised(root)->Ok_0),
        has_gxi_features(normalised(root)->Ok_0),
        has_gxi_version(normalised(root)->Ok_0),
        all_strings(gxi_features(normalised(root)->Ok_0)),
        forall|i: int|
            0 <= i < gxi_features(normalised(root)->Ok_0).len() ==> !is_platform_feature(
                #[trigger] gxi_features(normalised(root)->Ok_0)[i],
            ),
{
    lemma_names_distinct();
    let t0 = root->Table_0;
    let t1 = or_insert(t0, PACKAGE_STR@, empty_table());
    lemma_or_insert(t0, PACKAGE_STR@, empty_table());
    let t2 = or_insert(t1, DEPENDENCIES_STR@, empty_table());
    lemma_or_insert(t1, DEPENDENCIES_STR@, empty_table());
    lemma_or_insert_other(t1, DEPENDENCIES_STR@, empty_table(), PACKAGE_STR@);
    let d0 = get_value(t2, DEPENDENCIES_STR@)->Table_0;
    let d1 = or_insert(d0, GXI_STR@, empty_table());
    lemma_or_insert(d0, GXI_STR@, empty_table());
    let gm = get_value(d1, GXI_STR@);
    let g1 = match gm {
        TomlModel::Str(s) => seq![(VERSION_STR@, TomlModel::Str(s))],
        other => other->Table_0,
    };
    let ga = or_insert(g1, VERSION_STR@, TomlModel::Str(Seq::empty()));
    lemma_or_insert(g1, VERSION_STR@, TomlModel::Str(Seq::empty()));
    let g2 = or_insert(ga, FEATURES_STR@, TomlModel::Array(Seq::empty()));
    lemma_or_insert(ga, FEATURES_STR@, TomlModel::Array(Seq::empty()));
    lemma_or_insert_other(ga, FEATURES_STR@, TomlModel::Array(Seq::empty()), VERSION_STR@);
    let items = get_value(g2, FEATURES_STR@)->Array_0;
    let filtered = without_platform_features(items);
    lemma_without_platform_features(items);
    let g3 = set_value(g2, FEATURES_STR@, TomlModel::Array(filtered));
    lemma_set_value(g2, FEATURES_STR@, TomlModel::Array(filtered));
    let d2 = set_value(d1, GXI_STR@, TomlModel::Table(g3));
    lemma_set_value(d1, GXI_STR@, TomlModel::Table(g3));
    let t3 = set_value(t2, DEPENDENCIES_STR@, TomlModel::Table(d2));
    lemma_set_value(t2, DEPENDENCIES_STR@, TomlModel::Table(d2));
    lemma_set_value_other(t2, DEPENDENCIES_STR@, TomlModel::Table(d2), PACKAGE_STR@);
    assert(normalised(root) == Ok::<TomlModel, CargoTomlError>(TomlModel::Table(t3)));
    assert(sub_table(t3, DEPENDENCIES_STR@) == d2);
    assert(sub_table(d2, GXI_STR@) == g3);
}

/// Taking out platform features from a list that has none changes nothing.
pub proof fn lemma_without_platform_identity(items: Seq<TomlModel>)
    requires
        forall|i: int| 0 <= i < items.len() ==> !is_platform_feature(#[trigger] items[i]),
    ensures
        without_platform_features(items) == items,
    decreases items.len(),
{
    if items.len() > 0 {
        let rest = items.drop_last();
        assert forall|i: int| 0 <= i < rest.len() implies !is_platform_feature(#[trigger] rest[i]) by {
            assert(rest[i] == items[i]);
        }
        lemma_without_platform_identity(rest);
        assert(rest.push(items.last()) =~= items);
    }
}

/// Platform features appended to a list are taken out again.
pub proof fn lemma_without_platform_append(items: Seq<TomlModel>, fs: Seq<TomlModel>)
    requires
        forall|i: int| 0 <= i < fs.len() ==> is_platform_feature(#[trigger] fs[i]),
    ensures
        without_platform_features(items + fs) == without_platform_features(items),
    decreases fs.len(),
{
    if fs.len() > 0 {
        let fs0 = fs.drop_last();
        assert forall|i: int| 0 <= i < fs0.len() implies is_platform_feature(#[trigger] fs0[i]) by {
            assert(fs0[i] == fs[i]);
        }
        lemma_without_platform_append(items, fs0);
        assert((items + fs).drop_last() =~= items + fs0);
        assert((items + fs).last() == fs[fs.len() - 1]);
    } else {
        assert(items + fs =~= items);
    }
}

/// Replacing the `features` array by the one that is there changes nothing.
pub proof fn lemma_with_own_features(w: TomlModel)
    requires
        has_gxi_features(w),
    ensures
        with_gxi_features(w, gxi_features(w)) == w,
{
    let t = w->Table_0;
    let d = sub_table(t, DEPENDENCIES_STR@);
    let g = sub_table(d, GXI_STR@);
    lemma_set_same(g, FEATURES_STR@);
    lemma_set_same(d, GXI_STR@);
    lemma_set_same(t, DEPENDENCIES_STR@);
}

/// Normalising a shaped manifest whose `features` array is replaced by a
/// list of strings gives the manifest with that list, platform features
/// taken out.
pub proof fn lemma_renormalise(w: TomlModel, items: Seq<TomlModel>)
    requires
        is_shaped(w),
        all_strings(items),
    ensures
        normalised(with_gxi_features(w, items)) == Ok::<TomlModel, CargoTomlError>(
            with_gxi_features(w, without_platform_features(items)),
        ),
{
    lemma_names_distinct();
    let t = w->Table_0;
    let d = sub_table(t, DEPENDENCIES_STR@);
    let g = sub_table(d, GXI_STR@);
    let g_new = set_value(g, FEATURES_STR@, TomlModel::Array(items));
    let d_new = set_value(d, GXI_STR@, TomlModel::Table(g_new));
    let u = set_value(t, DEPENDENCIES_STR@, TomlModel::Table(d_new));
    lemma_set_value(g, FEATURES_STR@, TomlModel::Array(items));
    lemma_set_value(d, GXI_STR@, TomlModel::Table(g_new));
    lemma_set_value(t, DEPENDENCIES_STR@, TomlModel::Table(d_new));
    lemma_set_value_other(t, DEPENDENCIES_STR@, TomlModel::Table(d_new), PACKAGE_STR@);
    assert(has_key(g_new, VERSION_STR@));
    assert(has_key(u, PACKAGE_STR@));
    let filtered = without_platform_features(items);
    let g_out = set_value(g, FEATURES_STR@, TomlModel::Array(filtered));
    lemma_set_twice(g, FEATURES_STR@, TomlModel::Array(items), TomlModel::Array(filtered));
    lemma_set_twice(d, GXI_STR@, TomlModel::Table(g_new), TomlModel::Table(g_out));
    lemma_set_twice(
        t,
        DEPENDENCIES_STR@,
        TomlModel::Table(d_new),
        TomlModel::Table(set_value(d, GXI_STR@, TomlModel::Table(g_out))),
    );
    assert(normalised_gxi(TomlModel::Table(g_new)) == Ok::<TomlModel, CargoTomlError>(
        TomlModel::Table(g_out),
    ));
}

/// Normalisation is idempotent: a manifest in shape is left as it is.
pub proof fn law_normalise_idempotent(root: TomlModel)
    requires
        normalised(root) is Ok,
    ensures
        normalised(normalised(root)->Ok_0) == normalised(root),
{
    let w = normalised(root)->Ok_0;
    lemma_normalised_shape(root);
    lemma_with_own_features(w);
    lemma_without_platform_identity(gxi_features(w));
    lemma_renormalise(w, gxi_features(w));
}

/// The platform features that a pipeline adds to a manifest in shape are
/// taken out again by the next normalisation, which gives back the
/// manifest as it was.
pub proof fn law_platform_features_removed(root: TomlModel, fs: Seq<TomlModel>)
    requires
        normalised(root) is Ok,
        forall|i: int| 0 <= i < fs.len() ==> is_platform_feature(#[trigger] fs[i]),
    ensures
        normalised(
            with_gxi_features(
                normalised(root)->Ok_0,
                gxi_features(normalised(root)->Ok_0) + fs,
            ),
        ) == normalised(root),
{
    let w = normalised(root)->Ok_0;
    let items = gxi_features(w) + fs;
    lemma_normalised_shape(root);
    assert forall|i: int| 0 <= i < items.len() implies (#[trigger] items[i]) is Str by {
        if i >= gxi_features(w).len() {
            assert(items[i] == fs[i - gxi_features(w).len()]);
        }
    }
    lemma_without_platform_append(gxi_features(w), fs);
    lemma_without_platform_identity(gxi_features(w));
    lemma_with_own_features(w);
    lemma_renormalise(w, items);
}

/// Normalisation keeps every entry of the manifest in place, with its
/// value, except `[dependencies]`; what it adds comes after. Within the
/// `gxi` dependency (where the manifest had it as a table) it keeps every
/// entry but `features` the same way, and within `[dependencies]` every
/// entry but `gxi`.
pub proof fn law_normalise_keeps_entries(root: TomlModel)
    requires
        normalised(root) is Ok,
    ensures
        keeps_entries_except(
            root->Table_0,
            normalised(root)->Ok_0->Table_0,
            DEPENDENCIES_STR@,
        ),
        has_key(root->Table_0, DEPENDENCIES_STR@) ==> keeps_entries_except(
            sub_table(root->Table_0, DEPENDENCIES_STR@),
            sub_table(normalised(root)->Ok_0->Table_0, DEPENDENCIES_STR@),
            GXI_STR@,
        ),
        has_key(root->Table_0, DEPENDENCIES_STR@) && has_key(
            sub_table(root->Table_0, DEPENDENCIES_STR@),
            GXI_STR@,
        ) && get_value(sub_table(root->Table_0, DEPENDENCIES_STR@), GXI_STR@) is Table
            ==> keeps_entries_except(
            sub_table(sub_table(root->Table_0, DEPENDENCIES_STR@), GXI_STR@),
            sub_table(sub_table(normalised(root)->Ok_0->Table_0, DEPENDENCIES_STR@), GXI_STR@),
            FEATURES_STR@,
        ),
{
    lemma_names_distinct();
    let t0 = root->Table_0;
    let t1 = or_insert(t0, PACKAGE_STR@, empty_table());
    let t2 = or_insert(t1, DEPENDENCIES_STR@, empty_table());
    lemma_or_insert(t0, PACKAGE_STR@, empty_table());
    lemma_or_insert(t1, DEPENDENCIES_STR@, empty_table());
    let d0 = get_value(t2, DEPENDENCIES_STR@)->Table_0;
    let d1 = or_insert(d0, GXI_STR@, empty_table());
    lemma_or_insert(d0, GXI_STR@, empty_table());
    let gm = get_value(d1, GXI_STR@);
    let g1 = match gm {
        TomlModel::Str(s) => seq![(VERSION_STR@, TomlModel::Str(s))],
        other => other->Table_0,
    };
    let ga = or_insert(g1, VERSION_STR@, TomlModel::Str(Seq::empty()));
    let g2 = or_insert(ga, FEATURES_STR@, TomlModel::Array(Seq::empty()));
    lemma_or_insert(ga, FEATURES_STR@, TomlModel::Array(Seq::empty()));
    let items = get_value(g2, FEATURES_STR@)->Array_0;
    let g3 = set_value(g2, FEATURES_STR@, TomlModel::Array(without_platform_features(items)));
    let d2 = set_value(d1, GXI_STR@, TomlModel::Table(g3));
    let t3 = set_value(t2, DEPENDENCIES_STR@, TomlModel::Table(d2));
    lemma_set_value(d1, GXI_STR@, TomlModel::Table(g3));
    lemma_set_value(t2, DEPENDENCIES_STR@, TomlModel::Table(d2));
    assert(normalised(root) == Ok::<TomlModel, CargoTomlError>(TomlModel::Table(t3)));
    // top level
    lemma_keeps_or_insert(t0, PACKAGE_STR@, empty_table(), DEPENDENCIES_STR@);
    lemma_keeps_or_insert(t1, DEPENDENCIES_STR@, empty_table(), DEPENDENCIES_STR@);
    lemma_keeps_set_value(t2, DEPENDENCIES_STR@, TomlModel::Table(d2));
    lemma_keeps_trans(t0, t1, t2, DEPENDENCIES_STR@);
    lemma_keeps_trans(t0, t2, t3, DEPENDENCIES_STR@);
    assert(sub_table(t3, DEPENDENCIES_STR@) == d2);
    // dependencies
    if has_key(t0, DEPENDENCIES_STR@) {
        lemma_or_insert_other(t0, PACKAGE_STR@, empty_table(), DEPENDENCIES_STR@);
        assert(sub_table(t0, DEPENDENCIES_STR@) == d0);
        lemma_keeps_or_insert(d0, GXI_STR@, empty_table(), GXI_STR@);
        lemma_keeps_set_value(d1, GXI_STR@, TomlModel::Table(g3));
        lemma_keeps_trans(d0, d1, d2, GXI_STR@);
        assert(sub_table(d2, GXI_STR@) == g3);
        if has_key(d0, GXI_STR@) && get_value(d0, GXI_STR@) is Table {
            assert(sub_table(d0, GXI_STR@) == g1);
            lemma_keeps_or_insert(g1, VERSION_STR@, TomlModel::Str(Seq::empty()), FEATURES_STR@);
            lemma_keeps_or_insert(ga, FEATURES_STR@, TomlModel::Array(Seq::empty()), FEATURES_STR@);
            lemma_keeps_set_value(g2, FEATURES_STR@, TomlModel::Array(without_platform_features(items)));
            lemma_keeps_trans(g1, ga, g2, FEATURES_STR@);
            lemma_keeps_trans(g1, g2, g3, FEATURES_STR@);
        }
    }
}


/// Taking out the platform features is filtering: exactly the items that
/// are not platform features are kept, in their order.
pub proof fn law_without_platform_is_filter(items: Seq<TomlModel>)
    ensures
        without_platform_features(items) == items.filter(
            |m: TomlModel| !is_platform_feature(m),
        ),
    decreases items.len(),
{
    reveal_with_fuel(Seq::filter, 1);
    if items.len() > 0 {
        law_without_platform_is_filter(items.drop_last());
    }
}

/// Taking out the platform features keeps every other item as many times as
/// it occurs, and no platform feature.
pub proof fn law_without_platform_counts(items: Seq<TomlModel>, x: TomlModel)
    ensures
        without_platform_features(items).to_multiset().count(x) == if is_platform_feature(x) {
            0
        } else {
            items.to_multiset().count(x)
        },
    decreases items.len(),
{
    broadcast use vstd::seq_lib::group_to_multiset_ensures;

    if items.len() == 0 {
        assert(without_platform_features(items) =~= Seq::<TomlModel>::empty());
    } else {
        let rest = items.drop_last();
        law_without_platform_counts(rest, x);
        assert(rest.push(items.last()) =~= items);
    }
}

/// Where the manifest's `gxi` dependency is a version string, the
/// normalised `gxi` dependency is a table whose `version` is that string;
/// where it is a table with a `version`, that `version` is kept.
pub proof fn law_gxi_version_kept(root: TomlModel)
    requires
        normalised(root) is Ok,
        has_key(root->Table_0, DEPENDENCIES_STR@),
        has_key(sub_table(root->Table_0, DEPENDENCIES_STR@), GXI_STR@),
    ensures
        get_value(sub_table(root->Table_0, DEPENDENCIES_STR@), GXI_STR@) matches TomlModel::Str(s)
            ==> get_value(
            sub_table(sub_table(normalised(root)->Ok_0->Table_0, DEPENDENCIES_STR@), GXI_STR@),
            VERSION_STR@,
        ) == TomlModel::Str(s),
        get_value(sub_table(root->Table_0, DEPENDENCIES_STR@), GXI_STR@) is Table && has_key(
            sub_table(sub_table(root->Table_0, DEPENDENCIES_STR@), GXI_STR@),
            VERSION_STR@,
        ) ==> get_value(
            sub_table(sub_table(normalised(root)->Ok_0->Table_0, DEPENDENCIES_STR@), GXI_STR@),
            VERSION_STR@,
        ) == get_value(
            sub_table(sub_table(root->Table_0, DEPENDENCIES_STR@), GXI_STR@),
            VERSION_STR@,
        ),
{
    lemma_names_distinct();
    let t0 = root->Table_0;
    let t1 = or_insert(t0, PACKAGE_STR@, empty_table());
    let t2 = or_insert(t1, DEPENDENCIES_STR@, empty_table());
    lemma_or_insert(t0, PACKAGE_STR@, empty_table());
    lemma_or_insert(t1, DEPENDENCIES_STR@, empty_table());
    lemma_or_insert_other(t0, PACKAGE_STR@, empty_table(), DEPENDENCIES_STR@);
    let d0 = get_value(t2, DEPENDENCIES_STR@)->Table_0;
    assert(sub_table(t0, DEPENDENCIES_STR@) == d0);
    let d1 = or_insert(d0, GXI_STR@, empty_table());
    lemma_or_insert(d0, GXI_STR@, empty_table());
    let gm = get_value(d1, GXI_STR@);
    let g1 = match gm {
        TomlModel::Str(s) => seq![(VERSION_STR@, TomlModel::Str(s))],
        other => other->Table_0,
    };
    if gm is Str {
        assert(is_first_key(g1, VERSION_STR@, 0));
        lemma_key_index(g1, VERSION_STR@);
    }
    let ga = or_insert(g1, VERSION_STR@, TomlModel::Str(Seq::empty()));
    lemma_or_insert(g1, VERSION_STR@, TomlModel::Str(Seq::empty()));
    let g2 = or_insert(ga, FEATURES_STR@, TomlModel::Array(Seq::empty()));
    lemma_or_insert(ga, FEATURES_STR@, TomlModel::Array(Seq::empty()));
    lemma_or_insert_other(ga, FEATURES_STR@, TomlModel::Array(Seq::empty()), VERSION_STR@);
    let items = get_value(g2, FEATURES_STR@)->Array_0;
    let fv = TomlModel::Array(without_platform_features(items));
    let g3 = set_value(g2, FEATURES_STR@, fv);
    lemma_set_value_other(g2, FEATURES_STR@, fv, VERSION_STR@);
    let d2 = set_value(d1, GXI_STR@, TomlModel::Table(g3));
    let t3 = set_value(t2, DEPENDENCIES_STR@, TomlModel::Table(d2));
    lemma_set_value(d1, GXI_STR@, TomlModel::Table(g3));
    lemma_set_value(t2, DEPENDENCIES_STR@, TomlModel::Table(d2));
    assert(normalised(root) == Ok::<TomlModel, CargoTomlError>(TomlModel::Table(t3)));
    assert(sub_table(t3, DEPENDENCIES_STR@) == d2);
    assert(sub_table(d2, GXI_STR@) == g3);
}

} // verus!
