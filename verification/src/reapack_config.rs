//! ReaPack's configuration (`reapack.ini`): the config version and the list of remotes
//! (repositories), as far as ReaBoot needs them.

use vstd::prelude::*;

use crate::package_url::{parse_url, spec_url_parse};
use crate::text::{
    concat2, concat3, decimal, law_parse_decimal_roundtrip, lemma_decimal_injective, parse_u32, spec_decimal, spec_parse_u32, spec_split, split_char, str_eq,
};

verus! {

/// The ReaPack config version that ReaBoot writes and migrates to.
pub const REAPACK_CONFIG_VERSION: u32 = 4;

/// The text encodings that `reapack.ini` may be written in.
#[derive(Copy, Clone, PartialEq, Eq, Structural, Debug)]
pub enum TextEncoding {
    Utf8,
    Windows874,
    Windows1250,
    Windows1251,
    Windows1252,
    Windows1253,
    Windows1254,
    Windows1255,
    Windows1256,
    Windows1257,
    Windows1258,
    Iso8859_2,
    Iso8859_3,
    Iso8859_4,
    Iso8859_5,
    Iso8859_6,
    Iso8859_7,
    Iso8859_8,
    Iso8859_13,
    Iso8859_15,
    Iso2022Jp,
    EucJp,
    EucKr,
    Koi8R,
}

/// The encoding of a Windows code page identifier; UTF-8 for unknown ones.
pub open spec fn spec_encoding_for_code_page(page: u32) -> TextEncoding {
    if page == 874 {
        TextEncoding::Windows874
    } else if page == 1250 {
        TextEncoding::Windows1250
    } else if page == 1251 {
        TextEncoding::Windows1251
    } else if page == 1252 || page == 28591 {
        TextEncoding::Windows1252
    } else if page == 1253 {
        TextEncoding::Windows1253
    } else if page == 1254 || page == 28599 {
        TextEncoding::Windows1254
    } else if page == 1255 {
        TextEncoding::Windows1255
    } else if page == 1256 {
        TextEncoding::Windows1256
    } else if page == 1257 {
        TextEncoding::Windows1257
    } else if page == 1258 {
        TextEncoding::Windows1258
    } else if page == 28592 {
        TextEncoding::Iso8859_2
    } else if page == 28593 {
        TextEncoding::Iso8859_3
    } else if page == 28594 {
        TextEncoding::Iso8859_4
    } else if page == 28595 {
        TextEncoding::Iso8859_5
    } else if page == 28596 {
        TextEncoding::Iso8859_6
    } else if page == 28597 {
        TextEncoding::Iso8859_7
    } else if page == 28598 || page == 38598 {
        TextEncoding::Iso8859_8
    } else if page == 28603 {
        TextEncoding::Iso8859_13
    } else if page == 28605 {
        TextEncoding::Iso8859_15
    } else if page == 50220 || page == 50221 || page == 50222 {
        TextEncoding::Iso2022Jp
    } else if page == 51932 {
        TextEncoding::EucJp
    } else if page == 51949 {
        TextEncoding::EucKr
    } else if page == 20866 {
        TextEncoding::Koi8R
    } else {
        TextEncoding::Utf8
    }
}

/// The encoding of a Windows code page identifier; UTF-8 for unknown ones.
pub fn encoding_for_code_page(page: u32) -> (r: TextEncoding)
    ensures
        r == spec_encoding_for_code_page(page),
{
    match page {
        874 => TextEncoding::Windows874,
        1250 => TextEncoding::Windows1250,
        1251 => TextEncoding::Windows1251,
        1252 => TextEncoding::Windows1252,
        1253 => TextEncoding::Windows1253,
        1254 => TextEncoding::Windows1254,
        1255 => TextEncoding::Windows1255,
        1256 => TextEncoding::Windows1256,
        1257 => TextEncoding::Windows1257,
        1258 => TextEncoding::Windows1258,
        28591 => TextEncoding::Windows1252,
        28592 => TextEncoding::Iso8859_2,
        28593 => TextEncoding::Iso8859_3,
        28594 => TextEncoding::Iso8859_4,
        28595 => TextEncoding::Iso8859_5,
        28596 => TextEncoding::Iso8859_6,
        28597 => TextEncoding::Iso8859_7,
        28598 => TextEncoding::Iso8859_8,
        28599 => TextEncoding::Windows1254,
        28603 => TextEncoding::Iso8859_13,
        28605 => TextEncoding::Iso8859_15,
        38598 => TextEncoding::Iso8859_8,
        50220 | 50221 | 50222 => TextEncoding::Iso2022Jp,
        51932 => TextEncoding::EucJp,
        51949 => TextEncoding::EucKr,
        20866 => TextEncoding::Koi8R,
        _ => TextEncoding::Utf8,
    }
}

/// The encoding in which ReaPack reads and writes its INI file on this system: on Windows
/// that of the active code page (`windows_code_page`), elsewhere (no code page) UTF-8.
pub fn get_os_encoding(windows_code_page: Option<u32>) -> (r: TextEncoding)
    ensures
        r == match windows_code_page {
            Some(p) => spec_encoding_for_code_page(p),
            None => TextEncoding::Utf8,
        },
{
    match windows_code_page {
        Some(p) => encoding_for_code_page(p),
        None => TextEncoding::Utf8,
    }
}

/// A remote: a repository that ReaPack knows by name.
#[derive(Clone, Debug)]
pub struct Remote {
    pub name: String,
    /// The serialization of the repository index URL.
    pub url: String,
    pub enabled: bool,
    /// `None` means that the global setting applies.
    pub auto_install: Option<bool>,
}

impl View for Remote {
    type V = (Seq<char>, Seq<char>, bool, Option<bool>);

    open spec fn view(&self) -> (Seq<char>, Seq<char>, bool, Option<bool>) {
        (self.name@, self.url@, self.enabled, self.auto_install)
    }
}

/// Why an INI value is not a remote.
#[derive(Debug)]
pub enum RemoteParseError {
    /// The value has no `|`, so no URL.
    MissingUrl,
    /// The URL part is not a URL.
    InvalidUrl(url::ParseError),
}

/// The remote described by the `|`-separated `pieces` of an INI value, with `url` as its
/// parsed URL: name first, then URL, the enabled flag (`1` means enabled; enabled when
/// absent) and the auto-install flag (`0`, `1`, anything else or absent: the global setting).
pub open spec fn spec_remote_from_pieces(pieces: Seq<Seq<char>>, url: Seq<char>) -> (Seq<char>, Seq<char>, bool, Option<bool>) {
    (
        pieces[0],
        url,
        if pieces.len() > 2 {
            pieces[2] == "1"@
        } else {
            true
        },
        if pieces.len() > 3 {
            if pieces[3] == "0"@ {
                Some(false)
            } else if pieces[3] == "1"@ {
                Some(true)
            } else {
                None
            }
        } else {
            None
        },
    )
}

/// What an INI value describes: a remote, or the kind of error (0: no URL, 1: invalid URL).
pub open spec fn spec_parse_remote(line: Seq<char>) -> Result<(Seq<char>, Seq<char>, bool, Option<bool>), int> {
    let pieces = spec_split(line, '|');
    if pieces.len() < 2 {
        Err(0)
    } else {
        match spec_url_parse(pieces[1]) {
            None => Err(1),
            Some(u) => Ok(spec_remote_from_pieces(pieces, u)),
        }
    }
}

/// The INI value of a remote: `name|url|enabled|auto_install`, the flags as `0` or `1`, and
/// `2` for "global setting".
pub open spec fn spec_remote_ini_value(r: (Seq<char>, Seq<char>, bool, Option<bool>)) -> Seq<char> {
    r.0 + "|"@ + r.1 + "|"@ + (if r.2 {
        "1"@
    } else {
        "0"@
    }) + "|"@ + match r.3 {
        Some(true) => "1"@,
        Some(false) => "0"@,
        None => "2"@,
    }
}

/// The error kind of a remote parse error.
pub open spec fn remote_error_kind(e: RemoteParseError) -> int {
    match e {
        RemoteParseError::MissingUrl => 0,
        RemoteParseError::InvalidUrl(_) => 1,
    }
}

impl Remote {
    /// The remote made of the `|`-separated `pieces` of an INI value (at least two) and the
    /// parsed URL `url`.
    pub fn from_pieces(pieces: &Vec<String>, url: String) -> (r: Remote)
        requires
            pieces.len() >= 2,
        ensures
            r@ == spec_remote_from_pieces(pieces@.map_values(|x: String| x@), url@),
    {
        let ghost pv = pieces@.map_values(|x: String| x@);
        let enabled = if pieces.len() > 2 {
            str_eq(pieces[2].as_str(), "1")
        } else {
            true
        };
        let auto_install = if pieces.len() > 3 {
            if str_eq(pieces[3].as_str(), "0") {
                Some(false)
            } else if str_eq(pieces[3].as_str(), "1") {
                Some(true)
            } else {
                None
            }
        } else {
            None
        };
        assert(pv[0] == pieces@[0]@);
        Remote { name: pieces[0].clone(), url, enabled, auto_install }
    }

    /// Reads a remote from its INI value `name|url|enabled|auto_install`.
    pub fn from_ini_value(line: &str) -> (r: Result<Remote, RemoteParseError>)
        ensures
            match r {
                Ok(remote) => spec_parse_remote(line@) == Ok::<_, int>(remote@),
                Err(e) => spec_parse_remote(line@) == Err::<(Seq<char>, Seq<char>, bool, Option<bool>), int>(remote_error_kind(e)),
            },
    {
        let pieces = split_char(line, '|');
        let ghost pv = pieces@.map_values(|x: String| x@);
        if pieces.len() < 2 {
            return Err(RemoteParseError::MissingUrl);
        }
        assert(pv[1] == pieces@[1]@);
        match parse_url(pieces[1].as_str()) {
            Err(e) => Err(RemoteParseError::InvalidUrl(e)),
            Ok(url) => Ok(Remote::from_pieces(&pieces, url)),
        }
    }

    /// The INI value of this remote.
    pub fn to_ini_value(&self) -> (r: String)
        ensures
            r@ == spec_remote_ini_value(self@),
    {
        let enabled = if self.enabled {
            "1"
        } else {
            "0"
        };
        let auto_install = match self.auto_install {
            Some(true) => "1",
            Some(false) => "0",
            None => "2",
        };
        let a = concat3(self.name.as_str(), "|", self.url.as_str());
        let b = concat3(a.as_str(), "|", enabled);
        concat3(b.as_str(), "|", auto_install)
    }
}


/// Appending text without `c` extends the last piece.
proof fn lemma_split_extend(x: Seq<char>, y: Seq<char>, c: char)
    requires
        !y.contains(c),
    ensures
        spec_split(x + y, c) == spec_split(x, c).update(spec_split(x, c).len() - 1, spec_split(x, c).last() + y),
        spec_split(x, c).len() >= 1,
    decreases y.len(),
{
    lemma_split_len(x, c);
    if y.len() == 0 {
        assert(x + y =~= x);
        assert(spec_split(x, c).last() + y =~= spec_split(x, c).last());
        assert(spec_split(x, c).update(spec_split(x, c).len() - 1, spec_split(x, c).last()) =~= spec_split(x, c));
    } else {
        let y0 = y.drop_last();
        assert(!y0.contains(c)) by {
            if y0.contains(c) {
                let k = choose|k: int| 0 <= k < y0.len() && y0[k] == c;
                assert(y[k] == c);
            }
        }
        assert(y.last() != c) by {
            assert(y[y.len() - 1] == y.last());
        }
        lemma_split_extend(x, y0, c);
        assert((x + y).drop_last() =~= x + y0);
        assert((x + y).last() == y.last());
        let p = spec_split(x, c);
        let q = spec_split(x + y0, c);
        assert(q == p.update(p.len() - 1, p.last() + y0));
        assert(spec_split(x + y, c) == q.update(q.len() - 1, q.last().push(y.last())));
        assert(q.last() == p.last() + y0);
        assert((p.last() + y0).push(y.last()) =~= p.last() + y);
        assert(spec_split(x + y, c) =~= p.update(p.len() - 1, p.last() + y));
    }
}

proof fn lemma_split_len(x: Seq<char>, c: char)
    ensures
        spec_split(x, c).len() >= 1,
    decreases x.len(),
{
    if x.len() > 0 {
        lemma_split_len(x.drop_last(), c);
    }
}

/// Joining pieces without `c` by `c` and splitting again gives the pieces back.
proof fn lemma_split_join(x: Seq<char>, y: Seq<char>, c: char)
    requires
        !y.contains(c),
    ensures
        spec_split(x + seq![c] + y, c) == spec_split(x, c).push(y),
{
    lemma_split_len(x, c);
    let xc = x + seq![c];
    assert(xc.drop_last() =~= x);
    assert(spec_split(xc, c) == spec_split(x, c).push(Seq::empty()));
    lemma_split_extend(xc, y, c);
    let p = spec_split(xc, c);
    assert(p.last() + y =~= y);
    assert(spec_split(x + seq![c] + y, c) =~= spec_split(x, c).push(y));
}

/// Writing a remote as INI value and reading it back gives the same remote, provided that
/// its name and URL contain no `|` and that the URL is in the form that URL parsing gives.
pub proof fn law_remote_ini_roundtrip(r: (Seq<char>, Seq<char>, bool, Option<bool>))
    requires
        !r.0.contains('|'),
        !r.1.contains('|'),
        spec_url_parse(r.1) == Some(r.1),
    ensures
        spec_parse_remote(spec_remote_ini_value(r)) == Ok::<_, int>(r),
{
    reveal_strlit("|");
    reveal_strlit("0");
    reveal_strlit("1");
    reveal_strlit("2");
    let e = if r.2 {
        "1"@
    } else {
        "0"@
    };
    let f = match r.3 {
        Some(true) => "1"@,
        Some(false) => "0"@,
        None => "2"@,
    };
    assert(!e.contains('|')) by {
        if e.contains('|') {
            let k = choose|k: int| 0 <= k < e.len() && e[k] == '|';
        }
    }
    assert(!f.contains('|')) by {
        if f.contains('|') {
            let k = choose|k: int| 0 <= k < f.len() && f[k] == '|';
        }
    }
    let bar = seq!['|'];
    assert("|"@ =~= bar);
    lemma_split_extend(Seq::empty(), r.0, '|');
    assert(Seq::<char>::empty() + r.0 =~= r.0);
    assert(spec_split(r.0, '|') =~= seq![r.0]);
    lemma_split_join(r.0, r.1, '|');
    lemma_split_join(r.0 + bar + r.1, e, '|');
    lemma_split_join(r.0 + bar + r.1 + bar + e, f, '|');
    let v = spec_remote_ini_value(r);
    assert(v =~= r.0 + bar + r.1 + bar + e + bar + f);
    let pieces = spec_split(v, '|');
    assert(pieces =~= seq![r.0, r.1, e, f]);
}


/// `indexmap::IndexMap`: a hash map that keeps its entries in insertion order.
#[verifier::external_type_specification]
#[verifier::external_body]
#[verifier::reject_recursive_types(K)]
#[verifier::reject_recursive_types(V)]
#[verifier::reject_recursive_types(S)]
pub struct ExIndexMap<K, V, S>(indexmap::IndexMap<K, V, S>);

/// The entries of a map of remotes by name, in the map's order: each name with its remote.
pub uninterp spec fn remote_entries(m: indexmap::IndexMap<String, Remote>) -> Seq<(Seq<char>, (Seq<char>, Seq<char>, bool, Option<bool>))>;

/// No two entries have the same name.
pub open spec fn names_unique(e: Seq<(Seq<char>, (Seq<char>, Seq<char>, bool, Option<bool>))>) -> bool {
    forall|i: int, j: int| 0 <= i < j < e.len() ==> e[i].0 != e[j].0
}

/// Some entry has the name `k`.
pub open spec fn has_name(e: Seq<(Seq<char>, (Seq<char>, Seq<char>, bool, Option<bool>))>, k: Seq<char>) -> bool {
    exists|p: int| 0 <= p < e.len() && #[trigger] e[p].0 == k
}

/// The position of the entry named `k` (meaningful where [`has_name`] holds).
pub open spec fn name_position(e: Seq<(Seq<char>, (Seq<char>, Seq<char>, bool, Option<bool>))>, k: Seq<char>) -> int {
    choose|p: int| 0 <= p < e.len() && #[trigger] e[p].0 == k
}

/// `IndexMap::insert`: an entry with the same name gets the new value in its place;
/// otherwise the new entry goes last.
pub open spec fn spec_map_insert(
    e: Seq<(Seq<char>, (Seq<char>, Seq<char>, bool, Option<bool>))>,
    k: Seq<char>,
    v: (Seq<char>, Seq<char>, bool, Option<bool>),
) -> Seq<(Seq<char>, (Seq<char>, Seq<char>, bool, Option<bool>))> {
    if has_name(e, k) {
        e.update(name_position(e, k), (k, v))
    } else {
        e.push((k, v))
    }
}

/// The value of the entry named `k`, if there is one.
pub open spec fn remote_named(
    e: Seq<(Seq<char>, (Seq<char>, Seq<char>, bool, Option<bool>))>,
    k: Seq<char>,
) -> Option<(Seq<char>, Seq<char>, bool, Option<bool>)> {
    if has_name(e, k) {
        Some(e[name_position(e, k)].1)
    } else {
        None
    }
}

/// Inserting keeps names unique, makes the new value the one found under its name, and leaves
/// what is found under every other name alone.
pub proof fn law_insert_then_lookup(
    e: Seq<(Seq<char>, (Seq<char>, Seq<char>, bool, Option<bool>))>,
    k: Seq<char>,
    v: (Seq<char>, Seq<char>, bool, Option<bool>),
)
    requires
        names_unique(e),
    ensures
        names_unique(spec_map_insert(e, k, v)),
        remote_named(spec_map_insert(e, k, v), k) == Some(v),
        forall|k2: Seq<char>| k2 != k ==> #[trigger] remote_named(spec_map_insert(e, k, v), k2) == remote_named(e, k2),
{
    let ins = spec_map_insert(e, k, v);
    if has_name(e, k) {
        let p = name_position(e, k);
        assert(e[p].0 == k);
        assert(ins[p].0 == k);
        assert(has_name(ins, k));
        let q = name_position(ins, k);
        assert(ins[q].0 == k);
        assert(q == p);
        assert forall|k2: Seq<char>| k2 != k implies #[trigger] remote_named(ins, k2) == remote_named(e, k2) by {
            if has_name(e, k2) {
                let a = name_position(e, k2);
                assert(ins[a].0 == k2);
                assert(has_name(ins, k2));
                let b = name_position(ins, k2);
                assert(ins[b].0 == k2);
                assert(e[b].0 == k2);
            } else if has_name(ins, k2) {
                let b = name_position(ins, k2);
                assert(ins[b].0 == k2);
                assert(e[b].0 == k2);
            }
        }
    } else {
        let n = e.len() as int;
        assert(ins[n].0 == k);
        assert(has_name(ins, k));
        let q = name_position(ins, k);
        assert(ins[q].0 == k);
        if q < n {
            assert(e[q].0 == k);
        }
        assert forall|k2: Seq<char>| k2 != k implies #[trigger] remote_named(ins, k2) == remote_named(e, k2) by {
            if has_name(e, k2) {
                let a = name_position(e, k2);
                assert(ins[a].0 == k2);
                assert(has_name(ins, k2));
                let b = name_position(ins, k2);
                assert(ins[b].0 == k2);
                assert(b != n);
                assert(e[b].0 == k2);
            } else if has_name(ins, k2) {
                let b = name_position(ins, k2);
                assert(ins[b].0 == k2);
                assert(b != n);
                assert(e[b].0 == k2);
            }
        }
    }
}

/// The remote that a downloaded repository index is registered as: enabled, auto-install per
/// global setting.
pub open spec fn index_remote_view(index: (Seq<char>, Seq<char>)) -> (Seq<char>, Seq<char>, bool, Option<bool>) {
    (index.0, index.1, true, None)
}

/// The entries after adding a remote for each downloaded index `(name, url)`, one after another.
pub open spec fn with_index_remotes(
    e: Seq<(Seq<char>, (Seq<char>, Seq<char>, bool, Option<bool>))>,
    indexes: Seq<(Seq<char>, Seq<char>)>,
) -> Seq<(Seq<char>, (Seq<char>, Seq<char>, bool, Option<bool>))>
    decreases indexes.len(),
{
    if indexes.len() == 0 {
        e
    } else {
        spec_map_insert(with_index_remotes(e, indexes.drop_last()), indexes.last().0, index_remote_view(indexes.last()))
    }
}

/// After the remotes for the downloaded indexes are added, each index whose name no later index
/// takes again is found under its name as an enabled remote with its URL; other names keep what
/// they had unless an index takes them.
pub proof fn law_index_remotes_registered(
    e: Seq<(Seq<char>, (Seq<char>, Seq<char>, bool, Option<bool>))>,
    indexes: Seq<(Seq<char>, Seq<char>)>,
)
    requires
        names_unique(e),
    ensures
        names_unique(with_index_remotes(e, indexes)),
        forall|i: int|
            0 <= i < indexes.len() && (forall|j: int| i < j < indexes.len() ==> indexes[j].0 != indexes[i].0)
                ==> #[trigger] remote_named(with_index_remotes(e, indexes), indexes[i].0) == Some(
                index_remote_view(indexes[i]),
            ),
        forall|k: Seq<char>|
            (forall|j: int| 0 <= j < indexes.len() ==> indexes[j].0 != k) ==> #[trigger] remote_named(
                with_index_remotes(e, indexes),
                k,
            ) == remote_named(e, k),
    decreases indexes.len(),
{
    if indexes.len() > 0 {
        let init = indexes.drop_last();
        let last = indexes.last();
        let n = indexes.len() - 1;
        law_index_remotes_registered(e, init);
        let before = with_index_remotes(e, init);
        law_insert_then_lookup(before, last.0, index_remote_view(last));
        assert forall|i: int|
            0 <= i < indexes.len() && (forall|j: int| i < j < indexes.len() ==> indexes[j].0 != indexes[i].0)
                implies #[trigger] remote_named(with_index_remotes(e, indexes), indexes[i].0) == Some(
                index_remote_view(indexes[i]),
            ) by {
            if i < n {
                assert(indexes[n].0 != indexes[i].0);
                assert(init[i] == indexes[i]);
                assert forall|j: int| i < j < init.len() implies init[j].0 != init[i].0 by {
                    assert(init[j] == indexes[j]);
                }
            }
        }
        assert forall|k: Seq<char>|
            (forall|j: int| 0 <= j < indexes.len() ==> indexes[j].0 != k) implies #[trigger] remote_named(
                with_index_remotes(e, indexes),
                k,
            ) == remote_named(e, k) by {
            assert(indexes[n].0 != k);
            assert forall|j: int| 0 <= j < init.len() implies init[j].0 != k by {
                assert(init[j] == indexes[j]);
            }
        }
    }
}

/// `IndexMap::new`: a map without entries.
#[verifier::external_body]
fn remote_map_new() -> (r: indexmap::IndexMap<String, Remote>)
    ensures
        remote_entries(r) == Seq::<(Seq<char>, (Seq<char>, Seq<char>, bool, Option<bool>))>::empty(),
{
    indexmap::IndexMap::new()
}

/// `IndexMap::insert`: as [`spec_map_insert`] describes; the names stay unique, and the value
/// that was replaced, if any, is handed back.
#[verifier::external_body]
fn remote_map_insert(m: &mut indexmap::IndexMap<String, Remote>, key: String, value: Remote) -> (r: Option<Remote>)
    ensures
        remote_entries(*final(m)) == spec_map_insert(remote_entries(*old(m)), key@, value@),
        names_unique(remote_entries(*final(m))),
        r is Some <==> has_name(remote_entries(*old(m)), key@),
        r matches Some(o) ==> o@ == remote_entries(*old(m))[name_position(remote_entries(*old(m)), key@)].1,
{
    m.insert(key, value)
}

/// `IndexMap::len`: the number of entries.
#[verifier::external_body]
fn remote_map_len(m: &indexmap::IndexMap<String, Remote>) -> (r: usize)
    ensures
        r == remote_entries(*m).len(),
{
    m.len()
}

/// `IndexMap::get_index`: the entry at position `i`, copied.
#[verifier::external_body]
fn remote_map_get_index(m: &indexmap::IndexMap<String, Remote>, i: usize) -> (r: Option<(String, Remote)>)
    ensures
        r is Some <==> i < remote_entries(*m).len(),
        r matches Some(kv) ==> kv.0@ == remote_entries(*m)[i as int].0 && kv.1@ == remote_entries(*m)[i as int].1,
{
    match m.get_index(i) {
        Some((k, v)) => Some((k.clone(), v.clone())),
        None => None,
    }
}

/// The remotes that ReaPack knows out of the box (for config version 4), by name and URL.
pub open spec fn spec_default_remotes() -> Seq<(Seq<char>, Seq<char>)> {
    seq![
        ("ReaPack"@, "https://reapack.com/index.xml"@),
        ("ReaTeam Scripts"@, "https://github.com/ReaTeam/ReaScripts/raw/master/index.xml"@),
        ("ReaTeam JSFX"@, "https://github.com/ReaTeam/JSFX/raw/master/index.xml"@),
        ("ReaTeam Themes"@, "https://github.com/ReaTeam/Themes/raw/master/index.xml"@),
        ("ReaTeam LangPacks"@, "https://github.com/ReaTeam/LangPacks/raw/master/index.xml"@),
        ("ReaTeam Extensions"@, "https://github.com/ReaTeam/Extensions/raw/master/index.xml"@),
        ("MPL Scripts"@, "https://github.com/MichaelPilyavskiy/ReaScripts/raw/master/index.xml"@),
        ("X-Raym Scripts"@, "https://github.com/X-Raym/REAPER-ReaScripts/raw/master/index.xml"@),
    ]
}

/// The default remote for a name and URL: enabled, auto-install per global setting.
pub open spec fn default_remote_view(d: (Seq<char>, Seq<char>)) -> (Seq<char>, Seq<char>, bool, Option<bool>) {
    (d.0, d.1, true, None)
}

/// The entries after inserting the first `n` default remotes one by one.
pub open spec fn with_default_remotes(
    e: Seq<(Seq<char>, (Seq<char>, Seq<char>, bool, Option<bool>))>,
    n: nat,
) -> Seq<(Seq<char>, (Seq<char>, Seq<char>, bool, Option<bool>))>
    decreases n,
{
    if n == 0 {
        e
    } else {
        let d = spec_default_remotes()[n - 1];
        spec_map_insert(with_default_remotes(e, (n - 1) as nat), d.0, default_remote_view(d))
    }
}

fn default_remote(i: usize) -> (r: Remote)
    requires
        i < 8,
    ensures
        r@ == default_remote_view(spec_default_remotes()[i as int]),
{
    let (name, url) = match i {
        0 => ("ReaPack", "https://reapack.com/index.xml"),
        1 => ("ReaTeam Scripts", "https://github.com/ReaTeam/ReaScripts/raw/master/index.xml"),
        2 => ("ReaTeam JSFX", "https://github.com/ReaTeam/JSFX/raw/master/index.xml"),
        3 => ("ReaTeam Themes", "https://github.com/ReaTeam/Themes/raw/master/index.xml"),
        4 => ("ReaTeam LangPacks", "https://github.com/ReaTeam/LangPacks/raw/master/index.xml"),
        5 => ("ReaTeam Extensions", "https://github.com/ReaTeam/Extensions/raw/master/index.xml"),
        6 => ("MPL Scripts", "https://github.com/MichaelPilyavskiy/ReaScripts/raw/master/index.xml"),
        _ => ("X-Raym Scripts", "https://github.com/X-Raym/REAPER-ReaScripts/raw/master/index.xml"),
    };
    Remote { name: name.to_owned(), url: url.to_owned(), enabled: true, auto_install: None }
}

/// ReaPack's configuration, as far as ReaBoot reads and writes it; other settings in the INI
/// file are left alone.
pub struct Config {
    pub encoding: TextEncoding,
    pub general_version: u32,
    pub remote_by_name: indexmap::IndexMap<String, Remote>,
}

impl Config {
    /// The entries of the remote map.
    pub open spec fn remotes(&self) -> Seq<(Seq<char>, (Seq<char>, Seq<char>, bool, Option<bool>))> {
        remote_entries(self.remote_by_name)
    }

    /// A fresh configuration: the current config version and the default remotes.
    pub fn with_defaults(encoding: TextEncoding) -> (r: Config)
        ensures
            r.encoding == encoding,
            r.general_version == REAPACK_CONFIG_VERSION,
            r.remotes() == with_default_remotes(Seq::empty(), 8),
    {
        let mut config = Config { encoding, general_version: REAPACK_CONFIG_VERSION, remote_by_name: remote_map_new() };
        config.restore_default_remotes();
        config
    }

    /// Adds `remote` under its name, replacing a remote of the same name in its place.
    pub fn add_remote(&mut self, remote: Remote)
        ensures
            final(self).remotes() == spec_map_insert(old(self).remotes(), remote.name@, remote@),
            final(self).encoding == old(self).encoding,
            final(self).general_version == old(self).general_version,
    {
        let name = remote.name.clone();
        let _ = remote_map_insert(&mut self.remote_by_name, name, remote);
    }

    /// Adds the default remotes, one after another, replacing those of the same names.
    fn restore_default_remotes(&mut self)
        ensures
            final(self).remotes() == with_default_remotes(old(self).remotes(), 8),
            final(self).encoding == old(self).encoding,
            final(self).general_version == old(self).general_version,
    {
        let ghost start = self.remotes();
        let mut i: usize = 0;
        while i < 8
            invariant
                i <= 8,
                self.remotes() == with_default_remotes(start, i as nat),
                self.encoding == old(self).encoding,
                self.general_version == old(self).general_version,
            decreases 8 - i,
        {
            let r = default_remote(i);
            self.add_remote(r);
            i = i + 1;
        }
    }

    /// Adds a remote for each downloaded repository index `(name, url)`, one after another:
    /// enabled, with auto-install per global setting.
    pub fn add_index_remotes(&mut self, indexes: &Vec<(String, String)>)
        ensures
            final(self).remotes() == with_index_remotes(
                old(self).remotes(),
                indexes@.map_values(|p: (String, String)| (p.0@, p.1@)),
            ),
            final(self).encoding == old(self).encoding,
            final(self).general_version == old(self).general_version,
    {
        let ghost start = self.remotes();
        let ghost all = indexes@.map_values(|p: (String, String)| (p.0@, p.1@));
        let mut i: usize = 0;
        while i < indexes.len()
            invariant
                i <= indexes.len(),
                all == indexes@.map_values(|p: (String, String)| (p.0@, p.1@)),
                self.remotes() == with_index_remotes(start, all.take(i as int)),
                self.encoding == old(self).encoding,
                self.general_version == old(self).general_version,
            decreases indexes.len() - i,
        {
            let name = indexes[i].0.clone();
            let url = indexes[i].1.clone();
            let remote = Remote { name, url, enabled: true, auto_install: None };
            self.add_remote(remote);
            proof {
                assert(all.take(i as int + 1).drop_last() =~= all.take(i as int));
                assert(all.take(i as int + 1).last() == all[i as int]);
            }
            i = i + 1;
        }
        proof {
            assert(all.take(indexes.len() as int) =~= all);
        }
    }

    /// Brings a configuration of version 3 or older to the current version the way ReaPack
    /// does: the default remotes are restored (enabled again, and added where missing).
    /// Returns whether anything was done.
    pub fn migrate(&mut self) -> (r: bool)
        ensures
            r == (old(self).general_version <= 3),
            r ==> final(self).general_version == REAPACK_CONFIG_VERSION && final(self).remotes() == with_default_remotes(
                old(self).remotes(),
                8,
            ),
            !r ==> final(self).general_version == old(self).general_version && final(self).remotes() == old(self).remotes(),
            final(self).encoding == old(self).encoding,
    {
        if self.general_version <= 3 {
            self.restore_default_remotes();
            self.general_version = REAPACK_CONFIG_VERSION;
            true
        } else {
            false
        }
    }
}


/// `ini::Ini`: the sections and properties of an INI file.
#[verifier::external_type_specification]
#[verifier::external_body]
pub struct ExIni(ini::Ini);

/// The value that an INI file holds for `key` in the section named `section`, if any (the
/// first one, where there are several).
pub uninterp spec fn ini_lookup(ini: ini::Ini, section: Seq<char>, key: Seq<char>) -> Option<Seq<char>>;

/// `Ini::get_from` on a named section: the value of `key` there, copied; claimed to be
/// [`ini_lookup`].
#[verifier::external_body]
fn ini_get_from(ini: &ini::Ini, section: &str, key: &str) -> (r: Option<String>)
    ensures
        match r {
            Some(v) => ini_lookup(*ini, section@, key@) == Some(v@),
            None => ini_lookup(*ini, section@, key@) is None,
        },
{
    ini.get_from(Some(section), key).map(String::from)
}

/// `Ini::set_to` on a named section: `key` gets `value` there (any other values of `key` in
/// that section go); nothing else changes.
#[verifier::external_body]
fn ini_set_to(ini: &mut ini::Ini, section: &str, key: String, value: String)
    ensures
        ini_lookup(*final(ini), section@, key@) == Some(value@),
        forall|s: Seq<char>, k: Seq<char>|
            s != section@ || k != key@ ==> #[trigger] ini_lookup(*final(ini), s, k) == ini_lookup(*old(ini), s, k),
{
    ini.set_to(Some(section), key, value)
}

/// `Ini::delete` on a named section: every section of that name goes; nothing else changes.
#[verifier::external_body]
fn ini_delete(ini: &mut ini::Ini, section: &str)
    ensures
        forall|k: Seq<char>| #[trigger] ini_lookup(*final(ini), section@, k) is None,
        forall|s: Seq<char>, k: Seq<char>| s != section@ ==> #[trigger] ini_lookup(*final(ini), s, k) == ini_lookup(*old(ini), s, k),
{
    let _ = ini.delete(Some(section));
}

/// The name of the INI section with general settings.
pub open spec fn general_section() -> Seq<char> {
    "general"@
}

/// The name of the INI section with the remotes.
pub open spec fn remotes_section() -> Seq<char> {
    "remotes"@
}

/// The key of the `i`-th remote: `remote` and the decimal index.
pub open spec fn remote_key(i: nat) -> Seq<char> {
    "remote"@ + spec_decimal(i)
}

/// A number read from an optional INI value; 0 where it is absent or not a `u32`.
pub open spec fn number_or_zero(v: Option<Seq<char>>) -> nat {
    match v {
        Some(t) => match spec_parse_u32(t) {
            Some(n) => n,
            None => 0,
        },
        None => 0,
    }
}

/// The remotes read from the first `n` remote keys: each readable one is inserted under its
/// name; missing or unreadable ones are skipped.
pub open spec fn spec_remotes_from_ini(ini: ini::Ini, n: nat) -> Seq<(Seq<char>, (Seq<char>, Seq<char>, bool, Option<bool>))>
    decreases n,
{
    if n == 0 {
        Seq::empty()
    } else {
        let prev = spec_remotes_from_ini(ini, (n - 1) as nat);
        match ini_lookup(ini, remotes_section(), remote_key((n - 1) as nat)) {
            Some(v) => match spec_parse_remote(v) {
                Ok(r) => spec_map_insert(prev, r.0, r),
                Err(_) => prev,
            },
            None => prev,
        }
    }
}

fn remote_key_text(i: usize) -> (r: String)
    ensures
        r@ == remote_key(i as nat),
{
    let d = decimal(i);
    concat2("remote", d.as_str())
}

impl Config {
    /// Reads the configuration from INI data: the version from `[general]` (0 if absent or
    /// unreadable), the remotes from `[remotes]`: `size` (0 if absent or unreadable) says how
    /// many `remote{i}` keys to read, and each readable remote is added under its name.
    pub fn from_ini(ini: &ini::Ini, encoding: TextEncoding) -> (r: Config)
        ensures
            r.encoding == encoding,
            r.general_version == number_or_zero(ini_lookup(*ini, general_section(), "version"@)),
            r.remotes() == spec_remotes_from_ini(*ini, number_or_zero(ini_lookup(*ini, remotes_section(), "size"@))),
    {
        proof {
            reveal_strlit("general");
            reveal_strlit("remotes");
        }
        let general_version = match ini_get_from(ini, "general", "version") {
            Some(v) => match parse_u32(v.as_str()) {
                Some(n) => n,
                None => 0,
            },
            None => 0,
        };
        let size: u32 = match ini_get_from(ini, "remotes", "size") {
            Some(v) => match parse_u32(v.as_str()) {
                Some(n) => n,
                None => 0,
            },
            None => 0,
        };
        let mut remotes = remote_map_new();
        let mut i: u32 = 0;
        while i < size
            invariant
                i <= size,
                remote_entries(remotes) == spec_remotes_from_ini(*ini, i as nat),
            decreases size - i,
        {
            let key = remote_key_text(i as usize);
            match ini_get_from(ini, "remotes", key.as_str()) {
                Some(v) => match Remote::from_ini_value(v.as_str()) {
                    Ok(remote) => {
                        let name = remote.name.clone();
                        let _ = remote_map_insert(&mut remotes, name, remote);
                    },
                    Err(_) => {},
                },
                None => {},
            }
            i = i + 1;
        }
        Config { encoding, general_version, remote_by_name: remotes }
    }

    /// Writes the configuration into INI data: the version into `[general]`, and `[remotes]`
    /// anew, with `remote{i}` for each remote in order and their number as `size`. Other
    /// sections and other keys of `[general]` are left as they are.
    pub fn apply_to_ini(&self, ini: &mut ini::Ini)
        ensures
            holds_config(*final(ini), self.general_version, self.remotes()),
            forall|k: Seq<char>|
                k != "size"@ && (forall|i: nat| i < self.remotes().len() ==> k != #[trigger] remote_key(i)) ==> #[trigger] ini_lookup(
                    *final(ini),
                    remotes_section(),
                    k,
                ) is None,
            forall|k: Seq<char>| k != "version"@ ==> #[trigger] ini_lookup(*final(ini), general_section(), k) == ini_lookup(*old(ini), general_section(), k),
            forall|s: Seq<char>, k: Seq<char>|
                s != general_section() && s != remotes_section() ==> #[trigger] ini_lookup(*final(ini), s, k) == ini_lookup(*old(ini), s, k),
    {
        proof {
            reveal_strlit("general");
            reveal_strlit("remotes");
            reveal_strlit("version");
            reveal_strlit("size");
            assert("general"@[0] != "remotes"@[0]);
            assert(general_section() != remotes_section());
        }
        let version = decimal(self.general_version as usize);
        ini_set_to(ini, "general", "version".to_owned(), version);
        ini_delete(ini, "remotes");
        let ghost after_delete = *ini;
        let n = remote_map_len(&self.remote_by_name);
        let mut i: usize = 0;
        while i < n
            invariant
                i <= n,
                n == self.remotes().len(),
                general_section() != remotes_section(),
                ini_lookup(*ini, general_section(), "version"@) == Some(spec_decimal(self.general_version as nat)),
                forall|j: nat| j < i ==> #[trigger] ini_lookup(*ini, remotes_section(), remote_key(j)) == Some(
                    spec_remote_ini_value(self.remotes()[j as int].1),
                ),
                forall|k: Seq<char>|
                    (forall|j: nat| j < i ==> k != #[trigger] remote_key(j)) ==> #[trigger] ini_lookup(*ini, remotes_section(), k) is None,
                forall|k: Seq<char>| k != "version"@ ==> #[trigger] ini_lookup(*ini, general_section(), k) == ini_lookup(*old(ini), general_section(), k),
                forall|s: Seq<char>, k: Seq<char>|
                    s != general_section() && s != remotes_section() ==> #[trigger] ini_lookup(*ini, s, k) == ini_lookup(*old(ini), s, k),
            decreases n - i,
        {
            let (_, remote) = remote_map_get_index(&self.remote_by_name, i).unwrap();
            let key = remote_key_text(i);
            let value = remote.to_ini_value();
            let ghost before = *ini;
            ini_set_to(ini, "remotes", key, value);
            proof {
                assert forall|j: nat| j < i + 1 implies #[trigger] ini_lookup(*ini, remotes_section(), remote_key(j)) == Some(
                    spec_remote_ini_value(self.remotes()[j as int].1),
                ) by {
                    if j < i {
                        lemma_remote_key_injective(j, i as nat);
                    }
                }
                assert forall|k: Seq<char>| (forall|j: nat| j < i + 1 ==> k != #[trigger] remote_key(j)) implies #[trigger] ini_lookup(
                    *ini,
                    remotes_section(),
                    k,
                ) is None by {
                    assert(k != remote_key(i as nat));
                    assert forall|j: nat| j < i implies k != #[trigger] remote_key(j) by {
                        assert(j < i + 1);
                    }
                }
            }
            i = i + 1;
        }
        let size = decimal(n);
        proof {
            assert forall|j: nat| j < n implies remote_key(j) != "size"@ by {
                reveal_strlit("remote");
                assert(remote_key(j)[0] == 'r');
            }
        }
        ini_set_to(ini, "remotes", "size".to_owned(), size);
    }
}

/// The INI data holds the version `version` and the remotes `remotes` the way
/// [`Config::apply_to_ini`] writes them.
pub open spec fn holds_config(
    ini: ini::Ini,
    version: u32,
    remotes: Seq<(Seq<char>, (Seq<char>, Seq<char>, bool, Option<bool>))>,
) -> bool {
    &&& ini_lookup(ini, general_section(), "version"@) == Some(spec_decimal(version as nat))
    &&& ini_lookup(ini, remotes_section(), "size"@) == Some(spec_decimal(remotes.len()))
    &&& forall|i: nat| i < remotes.len() ==> #[trigger] ini_lookup(ini, remotes_section(), remote_key(i)) == Some(
        spec_remote_ini_value(remotes[i as int].1),
    )
}

/// Remotes as a well-formed configuration holds them: unique names, each entry under its
/// remote's name, names and URLs without `|`, URLs in the form URL parsing gives, and few
/// enough to count in a `u32`.
pub open spec fn remotes_well_formed(remotes: Seq<(Seq<char>, (Seq<char>, Seq<char>, bool, Option<bool>))>) -> bool {
    &&& names_unique(remotes)
    &&& remotes.len() <= u32::MAX
    &&& forall|i: int|
        0 <= i < remotes.len() ==> {
            let e = #[trigger] remotes[i];
            &&& e.0 == e.1.0
            &&& !e.1.0.contains('|')
            &&& !e.1.1.contains('|')
            &&& spec_url_parse(e.1.1) == Some(e.1.1)
        }
}

/// Reading a configuration back from INI data into which it was written gives the same
/// version and the same remotes in the same order.
pub proof fn law_config_ini_roundtrip(
    ini: ini::Ini,
    version: u32,
    remotes: Seq<(Seq<char>, (Seq<char>, Seq<char>, bool, Option<bool>))>,
)
    requires
        holds_config(ini, version, remotes),
        remotes_well_formed(remotes),
    ensures
        number_or_zero(ini_lookup(ini, general_section(), "version"@)) == version,
        spec_remotes_from_ini(ini, number_or_zero(ini_lookup(ini, remotes_section(), "size"@))) == remotes,
{
    law_parse_decimal_roundtrip(version as nat);
    law_parse_decimal_roundtrip(remotes.len());
    lemma_remotes_read_back(ini, version, remotes, remotes.len());
    assert(remotes.take(remotes.len() as int) =~= remotes);
}

proof fn lemma_remotes_read_back(
    ini: ini::Ini,
    version: u32,
    remotes: Seq<(Seq<char>, (Seq<char>, Seq<char>, bool, Option<bool>))>,
    n: nat,
)
    requires
        holds_config(ini, version, remotes),
        remotes_well_formed(remotes),
        n <= remotes.len(),
    ensures
        spec_remotes_from_ini(ini, n) == remotes.take(n as int),
    decreases n,
{
    if n == 0 {
        assert(remotes.take(0) =~= Seq::<(Seq<char>, (Seq<char>, Seq<char>, bool, Option<bool>))>::empty());
    } else {
        let m = (n - 1) as nat;
        lemma_remotes_read_back(ini, version, remotes, m);
        let e = remotes[m as int];
        assert(ini_lookup(ini, remotes_section(), remote_key(m)) == Some(spec_remote_ini_value(e.1)));
        law_remote_ini_roundtrip(e.1);
        let prev = remotes.take(m as int);
        assert(!has_name(prev, e.1.0)) by {
            if has_name(prev, e.1.0) {
                let p = choose|p: int| 0 <= p < prev.len() && #[trigger] prev[p].0 == e.1.0;
                assert(remotes[p].0 == remotes[m as int].0);
            }
        }
        assert(prev.push((e.1.0, e.1)) =~= remotes.take(n as int));
    }
}

/// Different indexes give different remote keys.
pub proof fn lemma_remote_key_injective(i: nat, j: nat)
    requires
        i != j,
    ensures
        remote_key(i) != remote_key(j),
{
    reveal_strlit("remote");
    if remote_key(i) == remote_key(j) {
        let p = "remote"@;
        assert(spec_decimal(i) =~= remote_key(i).skip(p.len() as int));
        assert(spec_decimal(j) =~= remote_key(j).skip(p.len() as int));
        lemma_decimal_injective(i, j);
    }
}


/// After the first `n` default remotes are added to entries with unique names, the names stay
/// unique and each of those defaults is found under its name, provided the default names are
/// distinct.
proof fn lemma_defaults_found(e: Seq<(Seq<char>, (Seq<char>, Seq<char>, bool, Option<bool>))>, n: nat)
    requires
        names_unique(e),
        n <= 8,
        forall|i: int, j: int| 0 <= i < j < 8 ==> spec_default_remotes()[i].0 != spec_default_remotes()[j].0,
    ensures
        names_unique(with_default_remotes(e, n)),
        forall|i: int| 0 <= i < n ==> #[trigger] remote_named(with_default_remotes(e, n), spec_default_remotes()[i].0) == Some(
            default_remote_view(spec_default_remotes()[i]),
        ),
    decreases n,
{
    if n > 0 {
        lemma_defaults_found(e, (n - 1) as nat);
        let before = with_default_remotes(e, (n - 1) as nat);
        let d = spec_default_remotes()[n - 1];
        law_insert_then_lookup(before, d.0, default_remote_view(d));
        assert forall|i: int| 0 <= i < n implies #[trigger] remote_named(with_default_remotes(e, n), spec_default_remotes()[i].0)
            == Some(default_remote_view(spec_default_remotes()[i])) by {
            if i < n - 1 {
                assert(spec_default_remotes()[i].0 != d.0);
                assert(remote_named(before, spec_default_remotes()[i].0) == Some(default_remote_view(spec_default_remotes()[i])));
            }
        }
    }
}

/// The default remotes have distinct names.
proof fn lemma_default_names_distinct()
    ensures
        forall|i: int, j: int| 0 <= i < j < 8 ==> spec_default_remotes()[i].0 != spec_default_remotes()[j].0,
{
    reveal_strlit("ReaPack");
    reveal_strlit("ReaTeam Scripts");
    reveal_strlit("ReaTeam JSFX");
    reveal_strlit("ReaTeam Themes");
    reveal_strlit("ReaTeam LangPacks");
    reveal_strlit("ReaTeam Extensions");
    reveal_strlit("MPL Scripts");
    reveal_strlit("X-Raym Scripts");
    assert("ReaTeam Themes"@[0] != "X-Raym Scripts"@[0]);
    assert forall|i: int, j: int| 0 <= i < j < 8 implies spec_default_remotes()[i].0 != spec_default_remotes()[j].0 by {
        if spec_default_remotes()[i].0 == spec_default_remotes()[j].0 {
            assert(spec_default_remotes()[i].0.len() == spec_default_remotes()[j].0.len());
            assert(spec_default_remotes()[i].0[0] == spec_default_remotes()[j].0[0]);
        }
    }
}

/// The remote of ReaPack's default list under `name` (the name of a ReaTeam repository, of
/// ReaPack itself, or of the script collections of MPL and X-Raym), as ReaPack's documentation
/// lists them. `None` for other names.
pub open spec fn documented_default_remote_url(name: Seq<char>) -> Option<Seq<char>> {
    if name == "ReaPack"@ {
        Some("https://reapack.com/index.xml"@)
    } else if name == "ReaTeam Scripts"@ {
        Some("https://github.com/ReaTeam/ReaScripts/raw/master/index.xml"@)
    } else if name == "MPL Scripts"@ {
        Some("https://github.com/MichaelPilyavskiy/ReaScripts/raw/master/index.xml"@)
    } else if name == "X-Raym Scripts"@ {
        Some("https://github.com/X-Raym/REAPER-ReaScripts/raw/master/index.xml"@)
    } else {
        None
    }
}

/// The ReaTeam repositories that ReaPack knows out of the box under the name `ReaTeam {repo}`
/// (besides the scripts, whose repository is `ReaScripts`).
pub open spec fn is_reateam_default_repo(repo: Seq<char>) -> bool {
    repo == "JSFX"@ || repo == "Themes"@ || repo == "LangPacks"@ || repo == "Extensions"@
}

/// A configuration freshly made, or migrated from version 3 or older, holds ReaPack's default
/// remotes, each enabled and under its own name: `ReaTeam {repo}` points to the index of the
/// ReaTeam GitHub repository `repo`, and ReaPack, the ReaTeam scripts and the script collections
/// of MPL and X-Raym to their documented indexes. Remotes under other names stay as they were.
pub proof fn law_default_remotes_by_name(
    e: Seq<(Seq<char>, (Seq<char>, Seq<char>, bool, Option<bool>))>,
    repo: Seq<char>,
    name: Seq<char>,
)
    requires
        names_unique(e),
    ensures
        is_reateam_default_repo(repo) ==> remote_named(with_default_remotes(e, 8), "ReaTeam "@ + repo) == Some(
            ("ReaTeam "@ + repo, "https://github.com/ReaTeam/"@ + repo + "/raw/master/index.xml"@, true, None::<bool>),
        ),
        documented_default_remote_url(name) matches Some(url) ==> remote_named(with_default_remotes(e, 8), name) == Some(
            (name, url, true, None::<bool>),
        ),
        names_unique(with_default_remotes(e, 8)),
{
    lemma_default_names_distinct();
    lemma_defaults_found(e, 8);
    reveal_strlit("ReaTeam ");
    reveal_strlit("JSFX");
    reveal_strlit("Themes");
    reveal_strlit("LangPacks");
    reveal_strlit("Extensions");
    reveal_strlit("ReaTeam JSFX");
    reveal_strlit("ReaTeam Themes");
    reveal_strlit("ReaTeam LangPacks");
    reveal_strlit("ReaTeam Extensions");
    reveal_strlit("https://github.com/ReaTeam/");
    reveal_strlit("/raw/master/index.xml");
    reveal_strlit("https://github.com/ReaTeam/JSFX/raw/master/index.xml");
    reveal_strlit("https://github.com/ReaTeam/Themes/raw/master/index.xml");
    reveal_strlit("https://github.com/ReaTeam/LangPacks/raw/master/index.xml");
    reveal_strlit("https://github.com/ReaTeam/Extensions/raw/master/index.xml");
    let d = spec_default_remotes();
    if is_reateam_default_repo(repo) {
        let k: int = if repo == "JSFX"@ {
            2
        } else if repo == "Themes"@ {
            3
        } else if repo == "LangPacks"@ {
            4
        } else {
            5
        };
        assert(d[k].0 =~= "ReaTeam "@ + repo);
        assert(d[k].1 =~= "https://github.com/ReaTeam/"@ + repo + "/raw/master/index.xml"@);
        assert(remote_named(with_default_remotes(e, 8), d[k].0) == Some(default_remote_view(d[k])));
    }
    if documented_default_remote_url(name) is Some {
        let k: int = if name == "ReaPack"@ {
            0
        } else if name == "ReaTeam Scripts"@ {
            1
        } else if name == "MPL Scripts"@ {
            6
        } else {
            7
        };
        assert(d[k].0 == name);
        assert(remote_named(with_default_remotes(e, 8), d[k].0) == Some(default_remote_view(d[k])));
    }
}

} // verus!
