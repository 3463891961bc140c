//! Recipes: named sets of packages to install, some of them grouped into optional features.

use vstd::prelude::*;

use crate::text::str_eq;

verus! {

/// An optional part of a recipe: packages that are installed only when the feature is
/// selected.
#[derive(Clone, Debug)]
pub struct Feature {
    pub name: String,
    pub default: Option<bool>,
    pub description: Option<String>,
    pub packages: Option<Vec<String>>,
}

/// A recipe: packages that a branded installer installs.
#[derive(Clone, Debug)]
pub struct Recipe {
    pub name: String,
    pub description: Option<String>,
    pub author: Option<String>,
    pub website: Option<String>,
    pub skip_additional_packages: Option<bool>,
    pub required_packages: Option<Vec<String>>,
    /// The features, each under its id, in ascending order of id with no id twice (see
    /// [`Recipe::has_well_ordered_features`]), as a map from id to feature holds them.
    pub features: Option<Vec<(String, Feature)>>,
}

/// The views of a sequence of strings.
pub open spec fn strings_view(v: Seq<String>) -> Seq<Seq<char>> {
    v.map_values(|s: String| s@)
}

/// The views of an optional list of strings; nothing when it is absent.
pub open spec fn opt_strings_view(v: Option<Vec<String>>) -> Seq<Seq<char>> {
    match v {
        Some(v) => strings_view(v@),
        None => Seq::empty(),
    }
}

/// The packages of the selected features, feature after feature.
pub open spec fn selected_feature_packages(features: Seq<(String, Feature)>, selected: Seq<Seq<char>>) -> Seq<Seq<char>>
    decreases features.len(),
{
    if features.len() == 0 {
        Seq::empty()
    } else {
        let prev = selected_feature_packages(features.drop_last(), selected);
        let last = features.last();
        if selected.contains(last.0@) {
            prev + opt_strings_view(last.1.packages)
        } else {
            prev
        }
    }
}

/// `a` comes before `b` in the order of `String`: compared character by character (by code
/// point, which orders like the UTF-8 bytes), a proper prefix first.
pub open spec fn id_less(a: Seq<char>, b: Seq<char>) -> bool
    decreases a.len(),
{
    if b.len() == 0 {
        false
    } else if a.len() == 0 {
        true
    } else if (a[0] as u32) < (b[0] as u32) {
        true
    } else if a[0] == b[0] {
        id_less(a.drop_first(), b.drop_first())
    } else {
        false
    }
}

/// Feature ids strictly ascend, so none occurs twice: the shape of a map from id to feature.
pub open spec fn features_well_ordered(features: Seq<(String, Feature)>) -> bool {
    forall|i: int, j: int| 0 <= i < j < features.len() ==> id_less(features[i].0@, features[j].0@)
}

/// No id comes before itself.
proof fn lemma_id_less_irreflexive(a: Seq<char>)
    ensures
        !id_less(a, a),
    decreases a.len(),
{
    if a.len() > 0 {
        lemma_id_less_irreflexive(a.drop_first());
    }
}

/// In well-ordered features no id occurs twice, as in a map from id to feature.
pub proof fn law_well_ordered_ids_distinct(features: Seq<(String, Feature)>, i: int, j: int)
    requires
        features_well_ordered(features),
        0 <= i < j < features.len(),
    ensures
        features[i].0@ != features[j].0@,
{
    lemma_id_less_irreflexive(features[i].0@);
}

/// Whether `a` comes before `b` (see [`id_less`]).
pub fn str_less(a: &str, b: &str) -> (r: bool)
    ensures
        r == id_less(a@, b@),
{
    let n = a.unicode_len();
    let m = b.unicode_len();
    let mut i: usize = 0;
    proof {
        assert(a@.skip(0) =~= a@);
        assert(b@.skip(0) =~= b@);
    }
    while i < n && i < m
        invariant
            i <= n,
            i <= m,
            n == a@.len(),
            m == b@.len(),
            forall|k: int| 0 <= k < i ==> a@[k] == b@[k],
            id_less(a@, b@) == id_less(a@.skip(i as int), b@.skip(i as int)),
        decreases n - i,
    {
        let x = a.get_char(i);
        let y = b.get_char(i);
        if (x as u32) < (y as u32) {
            return true;
        }
        if x != y {
            return false;
        }
        proof {
            assert(a@.skip(i as int).drop_first() =~= a@.skip(i + 1));
            assert(b@.skip(i as int).drop_first() =~= b@.skip(i + 1));
        }
        i = i + 1;
    }
    i < m
}

impl Recipe {
    /// The required packages, followed by the packages of each selected feature.
    pub open spec fn all_packages(&self, selected: Seq<Seq<char>>) -> Seq<Seq<char>> {
        opt_strings_view(self.required_packages) + match self.features {
            Some(f) => selected_feature_packages(f@, selected),
            None => Seq::empty(),
        }
    }

    /// Whether the features, if any, are in ascending order of id with no id twice.
    pub fn has_well_ordered_features(&self) -> (r: bool)
        ensures
            r == match self.features {
                Some(f) => features_well_ordered(f@),
                None => true,
            },
    {
        match &self.features {
            None => true,
            Some(f) => {
                let mut j: usize = 0;
                while j < f.len()
                    invariant
                        self.features == Some(*f),
                        j <= f.len(),
                        forall|a: int, b: int| 0 <= a < b < j ==> id_less(f@[a].0@, f@[b].0@),
                    decreases f.len() - j,
                {
                    let mut i: usize = 0;
                    while i < j
                        invariant
                            self.features == Some(*f),
                            i <= j < f.len(),
                            forall|a: int, b: int| 0 <= a < b < j ==> id_less(f@[a].0@, f@[b].0@),
                            forall|a: int| 0 <= a < i ==> id_less(f@[a].0@, f@[j as int].0@),
                        decreases j - i,
                    {
                        if !str_less(f[i].0.as_str(), f[j].0.as_str()) {
                            proof {
                                assert(!id_less(f@[i as int].0@, f@[j as int].0@));
                                assert(!features_well_ordered(f@));
                            }
                            return false;
                        }
                        i = i + 1;
                    }
                    j = j + 1;
                }
                true
            },
        }
    }

    /// The package URLs to install: the required ones, then those of each feature whose id is
    /// among `selected_features` (features in ascending order of id). Ids that name no
    /// feature are ignored.
    pub fn resolve_all_packages(&self, selected_features: &Vec<String>) -> (r: Vec<String>)
        requires
            self.features matches Some(f) ==> features_well_ordered(f@),
        ensures
            strings_view(r@) == self.all_packages(strings_view(selected_features@)),
    {
        let mut r: Vec<String> = Vec::new();
        if let Some(required) = &self.required_packages {
            append_strings(&mut r, required);
        }
        assert(strings_view(r@) =~= opt_strings_view(self.required_packages));
        if let Some(features) = &self.features {
            let ghost base = strings_view(r@);
            let mut i: usize = 0;
            while i < features.len()
                invariant
                    i <= features.len(),
                    strings_view(r@) == base + selected_feature_packages(features@.take(i as int), strings_view(selected_features@)),
                decreases features.len() - i,
            {
                let ghost before = strings_view(r@);
                assert(features@.take(i + 1).drop_last() =~= features@.take(i as int));
                if contains_string(selected_features, features[i].0.as_str()) {
                    if let Some(packages) = &features[i].1.packages {
                        append_strings(&mut r, packages);
                    }
                    assert(strings_view(r@) =~= before + opt_strings_view(features@[i as int].1.packages));
                }
                i = i + 1;
            }
            assert(features@.take(features.len() as int) =~= features@);
        }
        r
    }
}

/// Appends copies of `more` to `v`.
fn append_strings(v: &mut Vec<String>, more: &Vec<String>)
    ensures
        strings_view(final(v)@) == strings_view(old(v)@) + strings_view(more@),
{
    let ghost start = strings_view(v@);
    let mut i: usize = 0;
    while i < more.len()
        invariant
            i <= more.len(),
            strings_view(v@) == start + strings_view(more@.take(i as int)),
        decreases more.len() - i,
    {
        let c = more[i].clone();
        let ghost before = v@;
        v.push(c);
        assert(strings_view(v@) =~= strings_view(before).push(more@[i as int]@));
        assert(more@.take(i + 1) =~= more@.take(i as int).push(more@[i as int]));
        assert(strings_view(v@) =~= start + strings_view(more@.take(i + 1)));
        i = i + 1;
    }
    assert(more@.take(more.len() as int) =~= more@);
}

/// Whether `v` holds a string equal to `s`.
pub fn contains_string(v: &Vec<String>, s: &str) -> (r: bool)
    ensures
        r == strings_view(v@).contains(s@),
{
    let mut i: usize = 0;
    while i < v.len()
        invariant
            i <= v.len(),
            forall|j: int| 0 <= j < i ==> v@[j]@ != s@,
        decreases v.len() - i,
    {
        if str_eq(v[i].as_str(), s) {
            assert(strings_view(v@)[i as int] == s@);
            return true;
        }
        i = i + 1;
    }
    assert forall|j: int| 0 <= j < strings_view(v@).len() implies strings_view(v@)[j] != s@ by {}
    false
}

/// Selecting an id that names no feature of the recipe changes nothing.
pub proof fn law_unknown_feature_ignored(recipe: Recipe, selected: Seq<Seq<char>>, id: Seq<char>)
    requires
        recipe.features is Some ==> forall|i: int| 0 <= i < recipe.features->0@.len() ==> (#[trigger] recipe.features->0@[i]).0@ != id,
    ensures
        recipe.all_packages(selected.push(id)) == recipe.all_packages(selected),
{
    if let Some(f) = recipe.features {
        lemma_unknown_feature_ignored(f@, selected, id);
    }
}

/// The required packages come first, whatever is selected; with nothing selected they are
/// all there is.
pub proof fn law_required_packages_first(recipe: Recipe, selected: Seq<Seq<char>>)
    ensures
        recipe.all_packages(selected).take(opt_strings_view(recipe.required_packages).len() as int)
            == opt_strings_view(recipe.required_packages),
        recipe.all_packages(Seq::empty()) == opt_strings_view(recipe.required_packages),
{
    let req = opt_strings_view(recipe.required_packages);
    assert(recipe.all_packages(selected).take(req.len() as int) =~= req);
    if let Some(f) = recipe.features {
        lemma_nothing_selected(f@);
    }
    assert(recipe.all_packages(Seq::empty()) =~= req);
}

proof fn lemma_unknown_feature_ignored(features: Seq<(String, Feature)>, selected: Seq<Seq<char>>, id: Seq<char>)
    requires
        forall|i: int| 0 <= i < features.len() ==> (#[trigger] features[i]).0@ != id,
    ensures
        selected_feature_packages(features, selected.push(id)) == selected_feature_packages(features, selected),
    decreases features.len(),
{
    if features.len() > 0 {
        let init = features.drop_last();
        assert forall|i: int| 0 <= i < init.len() implies (#[trigger] init[i]).0@ != id by {
            assert(init[i] == features[i]);
        }
        lemma_unknown_feature_ignored(init, selected, id);
        let last = features.last();
        assert(last == features[features.len() - 1]);
        assert(selected.push(id).contains(last.0@) == selected.contains(last.0@)) by {
            if selected.push(id).contains(last.0@) {
                let k = choose|k: int| 0 <= k < selected.push(id).len() && selected.push(id)[k] == last.0@;
                assert(k < selected.len());
                assert(selected[k] == last.0@);
            }
            if selected.contains(last.0@) {
                let k = choose|k: int| 0 <= k < selected.len() && selected[k] == last.0@;
                assert(selected.push(id)[k] == last.0@);
            }
        }
    }
}

proof fn lemma_nothing_selected(features: Seq<(String, Feature)>)
    ensures
        selected_feature_packages(features, Seq::empty()) == Seq::<Seq<char>>::empty(),
    decreases features.len(),
{
    if features.len() > 0 {
        lemma_nothing_selected(features.drop_last());
    }
}

} // verus!
