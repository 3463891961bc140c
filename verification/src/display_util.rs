//! Showing a list of values with a separator between them.

use vstd::prelude::*;

use crate::recipe::strings_view;

verus! {

/// A list of values to be shown one after another, with `separator` between each two.
pub struct Separated<T> {
    pub separator: &'static str,
    pub value: T,
}

impl<T> Separated<T> {
    pub fn new(value: T, separator: &'static str) -> (r: Self)
        ensures
            r.value == value,
            r.separator == separator,
    {
        Separated { separator, value }
    }
}

/// The items one after another, with `sep` between each two.
pub open spec fn spec_join(items: Seq<Seq<char>>, sep: Seq<char>) -> Seq<char>
    decreases items.len(),
{
    if items.len() == 0 {
        Seq::empty()
    } else if items.len() == 1 {
        items[0]
    } else {
        spec_join(items.drop_last(), sep) + sep + items.last()
    }
}

impl Separated<Vec<String>> {
    /// The values one after another, with the separator between each two.
    pub fn to_display_string(&self) -> (r: String)
        ensures
            r@ == spec_join(strings_view(self.value@), self.separator@),
    {
        let items = &self.value;
        let mut r = String::new();
        let mut i: usize = 0;
        while i < items.len()
            invariant
                i <= items.len(),
                r@ == spec_join(strings_view(items@.take(i as int)), self.separator@),
            decreases items.len() - i,
        {
            assert(strings_view(items@.take(i + 1)).drop_last() =~= strings_view(items@.take(i as int)));
            if i > 0 {
                r = r.concat(self.separator);
            }
            r = r.concat(items[i].as_str());
            assert(r@ =~= spec_join(strings_view(items@.take(i + 1)), self.separator@));
            i = i + 1;
        }
        assert(items@.take(items.len() as int) =~= items@);
        r
    }
}

} // verus!
