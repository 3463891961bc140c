//! Sections of REAPER's action list that ReaPack registers scripts in.

use vstd::prelude::*;

use crate::text::str_eq;

verus! {

/// Section of the REAPER action list.
///
/// The position numbers (`Main` = 0 ... `MediaExplorer` = 4) are those of ReaPack's database
/// schema, where a set of sections is stored as bit flags.
#[derive(Copy, Clone, PartialEq, Eq, Structural, PartialOrd, Ord, Hash, Debug)]
pub enum Section {
    Main,
    MidiEditor,
    MidiInlineEditor,
    MidiEventListEditor,
    MediaExplorer,
}

/// Position number of a section.
pub open spec fn spec_section_index(s: Section) -> u32 {
    match s {
        Section::Main => 0,
        Section::MidiEditor => 1,
        Section::MidiInlineEditor => 2,
        Section::MidiEventListEditor => 3,
        Section::MediaExplorer => 4,
    }
}

/// Name of a section in ReaPack's index format.
pub open spec fn spec_section_name(s: Section) -> Seq<char> {
    match s {
        Section::Main => "main"@,
        Section::MidiEditor => "midi_editor"@,
        Section::MidiInlineEditor => "midi_inlineeditor"@,
        Section::MidiEventListEditor => "midi_eventlisteditor"@,
        Section::MediaExplorer => "mediaexplorer"@,
    }
}

impl Section {
    /// Position number of this section.
    pub fn index(&self) -> (r: u32)
        ensures
            r == spec_section_index(*self),
    {
        match self {
            Section::Main => 0,
            Section::MidiEditor => 1,
            Section::MidiInlineEditor => 2,
            Section::MidiEventListEditor => 3,
            Section::MediaExplorer => 4,
        }
    }

    /// The section with the given position number.
    pub fn from_index(i: u32) -> (r: Option<Section>)
        ensures
            r matches Some(s) ==> spec_section_index(s) == i,
            r is None <==> i > 4,
    {
        match i {
            0 => Some(Section::Main),
            1 => Some(Section::MidiEditor),
            2 => Some(Section::MidiInlineEditor),
            3 => Some(Section::MidiEventListEditor),
            4 => Some(Section::MediaExplorer),
            _ => None,
        }
    }

    /// Name of this section in ReaPack's index format.
    pub fn name(&self) -> (r: &'static str)
        ensures
            r@ == spec_section_name(*self),
    {
        match self {
            Section::Main => "main",
            Section::MidiEditor => "midi_editor",
            Section::MidiInlineEditor => "midi_inlineeditor",
            Section::MidiEventListEditor => "midi_eventlisteditor",
            Section::MediaExplorer => "mediaexplorer",
        }
    }

    /// Section for indexes made for ReaPack v1.0, given the first component of the package
    /// category: `MidiEditor` if that component, lowercased, is `midi editor`, else `Main`.
    pub fn detect_from_first_component(first_component: &str) -> (r: Section)
        ensures
            r == (if spec_to_lowercase(first_component@) == "midi editor"@ {
                Section::MidiEditor
            } else {
                Section::Main
            }),
            first_component@.len() == 0 ==> r == Section::Main,
            is_ascii_text(first_component@) ==> r == (if ascii_lowercase(first_component@) == "midi editor"@ {
                Section::MidiEditor
            } else {
                Section::Main
            }),
    {
        let lower = to_lowercase(first_component);
        proof {
            reveal_strlit("midi editor");
        }
        if str_eq(lower.as_str(), "midi editor") {
            Section::MidiEditor
        } else {
            Section::Main
        }
    }

    /// Section for indexes made for ReaPack v1.0: derived from the top-level category
    /// (the first component of the category path). An empty category gives `Main`; where the
    /// category starts with a plain segment (see [`plain_leading_segment`]), that segment
    /// decides as in [`Self::detect_from_first_component`]. For other categories the first
    /// component depends on the operating system's path syntax.
    pub fn detect_from_category_legacy(category: &str) -> (r: Section)
        ensures
            category@.len() == 0 ==> r == Section::Main,
            plain_leading_segment(category@) matches Some(x) ==> r == (if spec_to_lowercase(x) == "midi editor"@ {
                Section::MidiEditor
            } else {
                Section::Main
            }),
            plain_leading_segment(category@) matches Some(x) ==> (is_ascii_text(x) ==> r == (if ascii_lowercase(x)
                == "midi editor"@ {
                Section::MidiEditor
            } else {
                Section::Main
            })),
    {
        let first = first_path_component(category);
        let r = Self::detect_from_first_component(first.as_str());
        r
    }
}

/// What `str::to_lowercase` makes of a text (Unicode lowercase mapping).
pub uninterp spec fn spec_to_lowercase(s: Seq<char>) -> Seq<char>;

/// Every character of `s` is ASCII.
pub open spec fn is_ascii_text(s: Seq<char>) -> bool {
    forall|i: int| 0 <= i < s.len() ==> (s[i] as u32) < 128
}

/// `s` with the ASCII capitals `A` to `Z` made small.
pub open spec fn ascii_lowercase(s: Seq<char>) -> Seq<char> {
    s.map_values(|c: char| if 'A' <= c && c <= 'Z' { ((c as u32) + 32) as char } else { c })
}

/// `str::to_lowercase`. Claims that the result is [`spec_to_lowercase`] of the input, that
/// the empty text stays empty (each character is mapped, so there is nothing to map), and that
/// ASCII text is lowercased the ASCII way (the Unicode lowercase of `A` to `Z` is `a` to `z`;
/// other ASCII characters have no lowercase form).
#[verifier::external_body]
fn to_lowercase(s: &str) -> (r: String)
    ensures
        r@ == spec_to_lowercase(s@),
        s@.len() == 0 ==> r@.len() == 0,
        is_ascii_text(s@) ==> r@ == ascii_lowercase(s@),
{
    s.to_lowercase()
}

/// The text of `path` before its first `/` (all of it if there is none).
pub open spec fn segment_before_slash(path: Seq<char>) -> Seq<char>
    decreases path.len(),
{
    if path.len() == 0 || path[0] == '/' {
        Seq::empty()
    } else {
        seq![path[0]] + segment_before_slash(path.drop_first())
    }
}

/// The leading segment of `path` where every operating system reads it the same way as first
/// path component: the text before the first `/`, if it is not empty and holds no `\\` and no
/// `:` (which start a Windows prefix or separate on Windows).
pub open spec fn plain_leading_segment(path: Seq<char>) -> Option<Seq<char>> {
    let x = segment_before_slash(path);
    if x.len() > 0 && !x.contains('\\') && !x.contains(':') {
        Some(x)
    } else {
        None
    }
}

/// `camino::Utf8Path::components`: the first component of `path` as text, or empty if there
/// is none. Which characters separate components depends on the operating system, so only
/// this is claimed: an empty path has no component, and a plain leading segment (see
/// [`plain_leading_segment`]) is the first component as written (`/` separates, and `.` or
/// `..` at the start are components of their own, on every system).
#[verifier::external_body]
fn first_path_component(path: &str) -> (r: String)
    ensures
        path@.len() == 0 ==> r@.len() == 0,
        plain_leading_segment(path@) matches Some(x) ==> r@ == x,
{
    match camino::Utf8Path::new(path).components().next() {
        Some(c) => c.as_str().to_string(),
        None => String::new(),
    }
}

/// A set of sections, as bit flags (bit `i` for the section with position number `i`).
#[derive(Copy, Clone, PartialEq, Eq, Structural, Debug)]
pub struct SectionSet {
    bits: u32,
}

/// All bits that stand for a section.
pub open spec fn all_section_bits() -> u32 {
    0x1f
}

impl SectionSet {
    /// Type invariant: only bits of known sections are set.
    pub closed spec fn wf(&self) -> bool {
        self.bits & !all_section_bits() == 0
    }

    /// The bit flags of this set.
    pub closed spec fn spec_bits(&self) -> u32 {
        self.bits
    }

    /// Whether the set contains a section.
    pub open spec fn spec_contains(&self, s: Section) -> bool {
        self.spec_bits() & (1u32 << spec_section_index(s)) != 0
    }

    /// The empty set.
    pub fn new() -> (r: SectionSet)
        ensures
            r.wf(),
            r.spec_bits() == 0,
    {
        proof {
            assert(0u32 & !0x1fu32 == 0) by (bit_vector);
        }
        SectionSet { bits: 0 }
    }

    /// The set with `s` added.
    pub fn insert(&mut self, s: Section)
        requires
            old(self).wf(),
        ensures
            final(self).wf(),
            final(self).spec_bits() == old(self).spec_bits() | (1u32 << spec_section_index(s)),
    {
        let i = s.index();
        let b = self.bits;
        proof {
            assert(b & !0x1fu32 == 0 && i <= 4 ==> (b | (1u32 << i)) & !0x1fu32 == 0) by (bit_vector);
        }
        self.bits = b | (1u32 << i);
    }

    /// The bit flags of this set.
    pub fn as_u32(&self) -> (r: u32)
        ensures
            r == self.spec_bits(),
    {
        self.bits
    }

    /// The set of the sections whose bits are set in `value`; other bits are dropped.
    pub fn from_u32_truncated(value: u32) -> (r: SectionSet)
        ensures
            r.wf(),
            r.spec_bits() == value & all_section_bits(),
    {
        proof {
            assert((value & 0x1fu32) & !0x1fu32 == 0) by (bit_vector);
        }
        SectionSet { bits: value & 0x1f }
    }

    /// A set's bits never go beyond the known sections.
    pub proof fn lemma_wf_bits(&self)
        requires
            self.wf(),
        ensures
            self.spec_bits() <= all_section_bits(),
            self.spec_bits() & all_section_bits() == self.spec_bits(),
    {
        let b = self.bits;
        assert(b & !0x1fu32 == 0 ==> b <= 0x1f && b & 0x1f == b) by (bit_vector);
    }
}


/// The bits of the known sections among `sections` (`None` stands for a section name that this
/// library does not know).
pub open spec fn known_section_bits(sections: Seq<Option<Section>>) -> u32
    decreases sections.len(),
{
    if sections.len() == 0 {
        0
    } else {
        known_section_bits(sections.drop_last()) | match sections.last() {
            Some(s) => 1u32 << spec_section_index(s),
            None => 0u32,
        }
    }
}

/// Converts the sections that an index declares for a source: `None` (implicit sections) stays
/// `None`; a list becomes the set of the sections in it that this library knows, and the unknown
/// ones (`None` in the list) are left out rather than failing the package.
pub fn convert_index_section_to_model(index_section: &Option<Vec<Option<Section>>>) -> (r: Option<SectionSet>)
    ensures
        match index_section {
            None => r is None,
            Some(v) => r matches Some(set) && set.wf() && set.spec_bits() == known_section_bits(v@),
        },
{
    match index_section {
        None => None,
        Some(sections) => {
            let mut set = SectionSet::new();
            let mut i: usize = 0;
            while i < sections.len()
                invariant
                    i <= sections.len(),
                    set.wf(),
                    set.spec_bits() == known_section_bits(sections@.take(i as int)),
                decreases sections.len() - i,
            {
                proof {
                    assert(sections@.take(i as int + 1).drop_last() =~= sections@.take(i as int));
                }
                let ghost before = set.spec_bits();
                match sections[i] {
                    Some(sec) => set.insert(sec),
                    None => {
                        proof {
                            assert(before | 0u32 == before) by (bit_vector);
                        }
                    },
                }
                i = i + 1;
            }
            proof {
                assert(sections@.take(sections.len() as int) =~= sections@);
            }
            Some(set)
        },
    }
}

/// A section is in the converted set if and only if the list names it.
pub proof fn law_known_sections_kept(sections: Seq<Option<Section>>, s: Section)
    ensures
        (known_section_bits(sections) & (1u32 << spec_section_index(s)) != 0) <==> exists|i: int|
            0 <= i < sections.len() && #[trigger] sections[i] == Some(s),
    decreases sections.len(),
{
    if sections.len() > 0 {
        let init = sections.drop_last();
        law_known_sections_kept(init, s);
        let a = known_section_bits(init);
        let k = spec_section_index(s);
        let m: u32 = match sections.last() {
            Some(t) => 1u32 << spec_section_index(t),
            None => 0u32,
        };
        assert(((a | m) & (1u32 << k) != 0) <==> (a & (1u32 << k) != 0 || m & (1u32 << k) != 0)) by (bit_vector);
        match sections.last() {
            Some(t) => {
                let j = spec_section_index(t);
                assert(j <= 4 && k <= 4 ==> (((1u32 << j) & (1u32 << k) != 0) <==> j == k)) by (bit_vector);
                assert(j == k <==> t == s);
            },
            None => {
                assert(0u32 & (1u32 << k) == 0) by (bit_vector);
            },
        }
        if exists|i: int| 0 <= i < init.len() && #[trigger] init[i] == Some(s) {
            let i = choose|i: int| 0 <= i < init.len() && #[trigger] init[i] == Some(s);
            assert(sections[i] == Some(s));
        }
        if exists|i: int| 0 <= i < sections.len() && #[trigger] sections[i] == Some(s) {
            let i = choose|i: int| 0 <= i < sections.len() && #[trigger] sections[i] == Some(s);
            if i < sections.len() - 1 {
                assert(init[i] == Some(s));
            }
        }
        assert(known_section_bits(sections) == a | m);
    } else {
        let k = spec_section_index(s);
        assert(0u32 & (1u32 << k) == 0) by (bit_vector);
    }
}

} // verus!
