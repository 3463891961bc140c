//! Derivation of a recipe ID from the file name of a branded installer executable.

use vstd::prelude::*;

use crate::text::{find, is_first_occurrence, occurs_at, spec_strip_prefix_or_self, strip_prefix_or_self};

verus! {

/// Optional prefix of installer file names (`reaboot-helgobox-installer.exe`).
pub open spec fn installer_name_prefix() -> Seq<char> {
    "reaboot-"@
}

/// Marker that ends the recipe ID within an installer file name.
pub open spec fn installer_name_marker() -> Seq<char> {
    "-installer"@
}

/// The file name after removing an optional leading `reaboot-`.
pub open spec fn recipe_id_search_area(file_name: Seq<char>) -> Seq<char> {
    spec_strip_prefix_or_self(file_name, installer_name_prefix())
}

/// Extracts the recipe ID from an installer file name: after removing an optional leading
/// `reaboot-`, the ID is everything before the first `-installer`. Without such a marker,
/// there's no ID.
pub fn extract<'a>(file_name: &'a str) -> (r: Option<&'a str>)
    ensures
        ({
            let area = recipe_id_search_area(file_name@);
            &&& r is None <==> forall|i: int| !occurs_at(area, installer_name_marker(), i)
            &&& r matches Some(id) ==> exists|i: int|
                is_first_occurrence(area, installer_name_marker(), i) && id@ == area.subrange(0, i)
        }),
{
    let start = strip_prefix_or_self(file_name, "reaboot-");
    assert(start@ == recipe_id_search_area(file_name@));
    match find(start, "-installer") {
        Some(suffix_index) => {
            let id = start.substring_char(0, suffix_index);
            assert(is_first_occurrence(start@, installer_name_marker(), suffix_index as int));
            assert(occurs_at(start@, installer_name_marker(), suffix_index as int));
            Some(id)
        },
        None => None,
    }
}

} // verus!
