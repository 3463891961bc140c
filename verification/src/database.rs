//! Decisions about ReaPack's registry database: its user version, compatibility, migration
//! and the conversion of its rows into installed packages.

use vstd::prelude::*;

use crate::installed_package::{
    InstalledFile, InstalledPackage, InstalledPackageType, InstalledVersionName, PackageType,
    is_known_package_type_code, spec_installed_version_text, spec_package_type_code,
};
use crate::section::{SectionSet, all_section_bits};
use crate::version::VersionName;

use crate::conflicts::{at_positions, indices_where, lemma_indices_where, take_slot};

verus! {

/// User version of a ReaPack registry database: major and minor number, stored together as
/// one 32-bit number (major in the upper 16 bits, minor in the lower 16 bits).
///
/// Versions are ordered by major number, then by minor number.
#[derive(Copy, Clone, PartialEq, Eq, Structural, PartialOrd, Ord, Hash, Debug)]
pub struct DbUserVersion {
    pub major: i16,
    pub minor: i16,
}

/// The lower 16 bits of a raw user version, as unsigned number.
pub open spec fn low_bits(raw: i32) -> int {
    (raw & 0xffff) as int
}

/// The user version a raw number stands for: the upper 16 bits are the major number, the lower
/// 16 bits (read as signed 16-bit number) the minor number.
pub open spec fn spec_from_raw(raw: i32) -> (int, int) {
    let low = low_bits(raw);
    ((raw as int - low) / 65536, if low < 32768 { low } else { low - 65536 })
}

/// The raw number of a user version. A negative minor number, widened with its sign, covers
/// the major number's bits.
pub open spec fn spec_to_raw(major: int, minor: int) -> int {
    if minor >= 0 {
        major * 65536 + minor
    } else {
        minor
    }
}

impl DbUserVersion {
    /// Reads a raw user version.
    pub fn from_raw(raw: i32) -> (r: Self)
        ensures
            (r.major as int, r.minor as int) == spec_from_raw(raw),
    {
        let major = (raw >> 16) as i16;
        let minor = raw as i16;
        proof {
            assert((raw >> 16) as i16 as int * 65536 + (raw & 0xffff) as int == raw as int) by (bit_vector);
            assert((raw & 0xffff) < 32768 ==> raw as i16 as int == (raw & 0xffff) as int) by (bit_vector);
            assert((raw & 0xffff) >= 32768 ==> raw as i16 as int == (raw & 0xffff) as int - 65536) by (bit_vector);
            assert(0 <= (raw & 0xffff) < 65536) by (bit_vector);
        }
        DbUserVersion { major, minor }
    }

    /// The raw number of this user version.
    pub fn to_raw(&self) -> (r: i32)
        ensures
            r as int == spec_to_raw(self.major as int, self.minor as int),
    {
        let major = self.major;
        let minor = self.minor;
        proof {
            assert(minor >= 0 ==> (minor as i32 | ((major as i32) << 16)) as int == major as int * 65536 + minor as int) by (bit_vector);
            assert(minor < 0 ==> (minor as i32 | ((major as i32) << 16)) as int == minor as int) by (bit_vector);
        }
        minor as i32 | ((major as i32) << 16)
    }
}


/// `a` comes before `b`: smaller major number, or same major and smaller minor number.
pub open spec fn version_lt(a: DbUserVersion, b: DbUserVersion) -> bool {
    a.major < b.major || (a.major == b.major && a.minor < b.minor)
}

/// The database user version this library is made for (0.6). Whenever ReaPack raises it,
/// [`migration_steps`] needs the new steps.
pub open spec fn spec_reapack_db_user_version() -> DbUserVersion {
    DbUserVersion { major: 0, minor: 6 }
}

/// The database user version this library is made for.
pub fn reapack_db_user_version() -> (r: DbUserVersion)
    ensures
        r == spec_reapack_db_user_version(),
{
    DbUserVersion { major: 0, minor: 6 }
}

/// The user version of a database that nobody has initialized.
pub fn uninitialized_db_user_version() -> (r: DbUserVersion)
    ensures
        r == (DbUserVersion { major: 0, minor: 0 }),
{
    DbUserVersion { major: 0, minor: 0 }
}

/// Compatibility of this library with a ReaPack registry database.
#[derive(Copy, Clone, PartialEq, Eq, Structural, Debug)]
pub enum CompatibilityInfo {
    /// Versions match exactly.
    PerfectlyCompatible,
    /// The database is older than the version this library is made for; it needs migration.
    CompatibleButNeedsMigration,
    /// The database is newer, but still backward-compatible (same major number).
    DbNewerButCompatible,
    /// The database is newer and not backward-compatible anymore. Operation is not possible.
    DbTooNew,
}

/// Compatibility of this library with a database of user version `v`.
pub open spec fn spec_compatibility_info(v: DbUserVersion) -> CompatibilityInfo {
    let cur = spec_reapack_db_user_version();
    if version_lt(v, cur) {
        CompatibilityInfo::CompatibleButNeedsMigration
    } else if v == cur {
        CompatibilityInfo::PerfectlyCompatible
    } else if v.major > cur.major {
        CompatibilityInfo::DbTooNew
    } else {
        CompatibilityInfo::DbNewerButCompatible
    }
}

/// The complaint when the installed ReaPack database is too new for this library.
pub open spec fn db_too_new_message() -> Seq<char> {
    "This ReaBoot version is too old to handle your installed ReaPack database. Please download the latest ReaBoot version! If this already is the latest ReaBoot version, please send a quick message to info@helgoboss.org!"@
}

/// Refuses to go on with an installed ReaPack database that is too new. `db_user_version` is the
/// user version of that database, or `None` where there is none or it could not be read: then
/// there is nothing to complain about.
pub fn complain_if_reapack_db_too_new(db_user_version: Option<DbUserVersion>) -> (r: Result<(), String>)
    ensures
        r is Err <==> (db_user_version matches Some(v) && spec_compatibility_info(v) == CompatibilityInfo::DbTooNew),
        r matches Err(m) ==> m@ == db_too_new_message(),
{
    match db_user_version {
        None => Ok(()),
        Some(v) => {
            if v.compatibility_info() == CompatibilityInfo::DbTooNew {
                Err("This ReaBoot version is too old to handle your installed ReaPack database. Please download the latest ReaBoot version! If this already is the latest ReaBoot version, please send a quick message to info@helgoboss.org!".to_owned())
            } else {
                Ok(())
            }
        },
    }
}

/// What to do with a database when migrating it.
#[derive(Copy, Clone, PartialEq, Eq, Structural, Debug)]
pub enum MigrationAction {
    /// The database is newer than this library: leave it alone.
    LeaveAlone,
    /// The database exists but was never initialized: create the tables from scratch.
    Initialize,
    /// Apply the [`migration_steps`] for the database's version (the one held here), then
    /// raise the stored user version to the one this library is made for.
    MigrateFrom(DbUserVersion),
}

/// A single schema change of ReaPack's registry database.
#[derive(Copy, Clone, PartialEq, Eq, Structural, Debug)]
pub enum MigrationStep {
    /// Needed up to 0.1: `entries` gets a `pinned` column.
    AddPinnedColumn,
    /// Needed up to 0.2: `files` gets a `type` column.
    AddFileTypeColumn,
    /// Needed up to 0.3: `entries` gets a `desc` column.
    AddDescColumn,
    /// Needed up to 0.4: the `main` column of `files` turns from a boolean into section flags.
    ConvertImplicitSections,
    /// Needed up to 0.5: `pinned` is renamed to `flags`.
    RenamePinnedToFlags,
}

/// All migration steps in the order in which they are applied.
pub open spec fn all_migration_steps() -> Seq<MigrationStep> {
    seq![
        MigrationStep::AddPinnedColumn,
        MigrationStep::AddFileTypeColumn,
        MigrationStep::AddDescColumn,
        MigrationStep::ConvertImplicitSections,
        MigrationStep::RenamePinnedToFlags,
    ]
}

/// How many of the migration steps a database of version `v` has already: step `k` (counting
/// from 1) is needed up to version 0.k.
pub open spec fn steps_already_done(v: DbUserVersion) -> int {
    if !version_lt(DbUserVersion { major: 0, minor: 1 }, v) {
        0
    } else if !version_lt(DbUserVersion { major: 0, minor: 2 }, v) {
        1
    } else if !version_lt(DbUserVersion { major: 0, minor: 3 }, v) {
        2
    } else if !version_lt(DbUserVersion { major: 0, minor: 4 }, v) {
        3
    } else if !version_lt(DbUserVersion { major: 0, minor: 5 }, v) {
        4
    } else {
        5
    }
}

/// The migration steps a database of version `v` needs, in order.
pub open spec fn spec_migration_steps(v: DbUserVersion) -> Seq<MigrationStep> {
    all_migration_steps().subrange(steps_already_done(v), 5)
}

impl DbUserVersion {
    /// Compatibility of this library with a database of this user version.
    pub fn compatibility_info(&self) -> (r: CompatibilityInfo)
        ensures
            r == spec_compatibility_info(*self),
    {
        let cur = reapack_db_user_version();
        if self.major < cur.major || (self.major == cur.major && self.minor < cur.minor) {
            CompatibilityInfo::CompatibleButNeedsMigration
        } else if self.major == cur.major && self.minor == cur.minor {
            CompatibilityInfo::PerfectlyCompatible
        } else if self.major > cur.major {
            CompatibilityInfo::DbTooNew
        } else {
            CompatibilityInfo::DbNewerButCompatible
        }
    }

    /// What migrating a database of this user version does: nothing if it's newer than this
    /// library, a full initialization if it was never initialized, the migration steps
    /// otherwise.
    pub fn migration_action(&self) -> (r: MigrationAction)
        ensures
            r == (if version_lt(spec_reapack_db_user_version(), *self) {
                MigrationAction::LeaveAlone
            } else if *self == (DbUserVersion { major: 0, minor: 0 }) {
                MigrationAction::Initialize
            } else {
                MigrationAction::MigrateFrom(*self)
            }),
    {
        let cur = reapack_db_user_version();
        if cur.major < self.major || (cur.major == self.major && cur.minor < self.minor) {
            MigrationAction::LeaveAlone
        } else if self.major == 0 && self.minor == 0 {
            MigrationAction::Initialize
        } else {
            MigrationAction::MigrateFrom(*self)
        }
    }

    /// The user version that a database of this user version holds after migrating: the one
    /// this library is made for, unless the database is newer and left alone.
    pub fn version_after_migration(&self) -> (r: DbUserVersion)
        ensures
            r == (if version_lt(spec_reapack_db_user_version(), *self) {
                *self
            } else {
                spec_reapack_db_user_version()
            }),
    {
        match self.migration_action() {
            MigrationAction::LeaveAlone => *self,
            MigrationAction::Initialize => reapack_db_user_version(),
            MigrationAction::MigrateFrom(_) => reapack_db_user_version(),
        }
    }
}

/// The migration steps a database of user version `v` needs, in the order in which they are
/// applied.
pub fn migration_steps(v: DbUserVersion) -> (r: Vec<MigrationStep>)
    ensures
        r@ == spec_migration_steps(v),
{
    let mut steps: Vec<MigrationStep> = Vec::new();
    let le = |major: i16, minor: i16| -> (b: bool)
        ensures
            b == !version_lt(DbUserVersion { major, minor }, v),
        { v.major < major || (v.major == major && v.minor <= minor) };
    if le(0, 1) {
        steps.push(MigrationStep::AddPinnedColumn);
    }
    if le(0, 2) {
        steps.push(MigrationStep::AddFileTypeColumn);
    }
    if le(0, 3) {
        steps.push(MigrationStep::AddDescColumn);
    }
    if le(0, 4) {
        steps.push(MigrationStep::ConvertImplicitSections);
    }
    if le(0, 5) {
        steps.push(MigrationStep::RenamePinnedToFlags);
    }
    assert(steps@ =~= spec_migration_steps(v));
    steps
}

/// The SQL statement of each migration step; converting implicit sections takes more than
/// one statement.
pub open spec fn spec_step_sql(step: MigrationStep) -> Option<Seq<char>> {
    match step {
        MigrationStep::AddPinnedColumn => Some("ALTER TABLE entries ADD COLUMN pinned INTEGER NOT NULL DEFAULT 0;"@),
        MigrationStep::AddFileTypeColumn => Some("ALTER TABLE files ADD COLUMN type INTEGER NOT NULL DEFAULT 0;"@),
        MigrationStep::AddDescColumn => Some("ALTER TABLE entries ADD COLUMN desc TEXT NOT NULL DEFAULT '';"@),
        MigrationStep::ConvertImplicitSections => None,
        MigrationStep::RenamePinnedToFlags => Some("ALTER TABLE entries RENAME COLUMN pinned TO flags;"@),
    }
}

impl MigrationStep {
    /// The SQL statement of a step, for those steps that are a single statement.
    pub fn sql(&self) -> (r: Option<&'static str>)
        ensures
            match r {
                Some(s) => spec_step_sql(*self) == Some(s@),
                None => spec_step_sql(*self) is None,
            },
    {
        match self {
            MigrationStep::AddPinnedColumn => Some("ALTER TABLE entries ADD COLUMN pinned INTEGER NOT NULL DEFAULT 0;"),
            MigrationStep::AddFileTypeColumn => Some("ALTER TABLE files ADD COLUMN type INTEGER NOT NULL DEFAULT 0;"),
            MigrationStep::AddDescColumn => Some("ALTER TABLE entries ADD COLUMN desc TEXT NOT NULL DEFAULT '';"),
            MigrationStep::ConvertImplicitSections => None,
            MigrationStep::RenamePinnedToFlags => Some("ALTER TABLE entries RENAME COLUMN pinned TO flags;"),
        }
    }
}

/// A row of the `entries` table.
#[derive(Debug)]
pub struct DbEntry {
    pub id: i32,
    pub remote: String,
    pub category: String,
    pub package: String,
    pub desc: String,
    /// Package type; should be != 0 because it must be set on entry level.
    pub typ: i32,
    pub version: String,
    pub author: String,
    /// Bit flags for "pinned" and "bleeding edge".
    pub flags: Option<i32>,
}

/// A row of the `files` table.
#[derive(Debug)]
pub struct DbFile {
    pub id: i32,
    pub entry: i32,
    pub path: String,
    /// Set of sections as bit flags: -1 means implicit section, 0 no section.
    pub main: i32,
    /// Package type override; 0 means no override.
    pub typ: i32,
}

/// The database number of a package type.
pub open spec fn spec_model_package_type_to_db(value: InstalledPackageType) -> i32 {
    match value {
        InstalledPackageType::Known(t) => spec_package_type_code(t),
        InstalledPackageType::Unknown(i) => i,
    }
}

/// Reads a package type number: known numbers become the package type, others are kept.
pub fn convert_db_package_type_to_model(value: i32) -> (r: InstalledPackageType)
    ensures
        spec_model_package_type_to_db(r) == value,
        r is Known <==> is_known_package_type_code(value),
{
    match PackageType::from_code(value) {
        Some(t) => InstalledPackageType::Known(t),
        None => InstalledPackageType::Unknown(value),
    }
}

/// The database number of a package type.
pub fn convert_model_package_type_to_db(value: InstalledPackageType) -> (r: i32)
    ensures
        r == spec_model_package_type_to_db(value),
{
    match value {
        InstalledPackageType::Known(t) => t.code(),
        InstalledPackageType::Unknown(i) => i,
    }
}

/// Reads a version name: a valid one becomes a version name, an invalid one is kept as text.
pub fn convert_db_version_name_to_model(value: String) -> (r: InstalledVersionName)
    ensures
        spec_installed_version_text(r) == value@,
        r is Valid <==> value@.len() > 0,
{
    match VersionName::parse(value.as_str()) {
        Ok(n) => InstalledVersionName::Valid(n),
        Err(_) => InstalledVersionName::Invalid(value),
    }
}

/// The text to store for a version name.
pub fn convert_model_version_name_to_db(value: InstalledVersionName) -> (r: String)
    ensures
        r@ == spec_installed_version_text(value),
{
    match value {
        InstalledVersionName::Valid(s) => s.as_str().to_owned(),
        InstalledVersionName::Invalid(s) => s,
    }
}

/// The database number of a set of sections: its bit flags, or -1 for the implicit section.
pub open spec fn spec_model_sections_to_db(value: Option<SectionSet>) -> int {
    match value {
        Some(s) => s.spec_bits() as int,
        None => -1,
    }
}

/// The database number of a set of sections: its bit flags, or -1 for the implicit section.
pub fn convert_model_sections_to_db(value: Option<SectionSet>) -> (r: i32)
    requires
        value matches Some(s) ==> s.wf(),
    ensures
        r as int == spec_model_sections_to_db(value),
{
    match value {
        Some(s) => {
            proof {
                s.lemma_wf_bits();
            }
            s.as_u32() as i32
        },
        None => -1,
    }
}

/// Reads a set of sections: negative numbers mean the implicit section, otherwise the bits of
/// known sections are kept and the others dropped.
pub fn convert_db_sections_to_model(value: i32) -> (r: Option<SectionSet>)
    ensures
        value < 0 ==> r is None,
        value >= 0 ==> (r matches Some(s) && s.wf() && s.spec_bits() == (value as u32) & all_section_bits()),
{
    if value < 0 {
        None
    } else {
        Some(SectionSet::from_u32_truncated(value as u32))
    }
}

/// `f` is the installed file that the row `db` stands for: same path; an implicit section for
/// a negative `main`, else the known sections among its bits; no type override for type 0,
/// else the type with that number.
pub open spec fn file_converted(db: DbFile, f: InstalledFile) -> bool {
    &&& f.path@ == db.path@
    &&& db.main < 0 ==> f.sections is None
    &&& db.main >= 0 ==> (f.sections matches Some(s) && s.spec_bits() == (db.main as u32) & all_section_bits())
    &&& db.typ == 0 ==> f.typ is None
    &&& db.typ != 0 ==> (f.typ matches Some(t) && spec_model_package_type_to_db(t) == db.typ)
}

/// `p` is the installed package that the row `e` stands for (files aside).
pub open spec fn entry_converted(e: DbEntry, p: InstalledPackage) -> bool {
    &&& p.remote@ == e.remote@
    &&& p.category@ == e.category@
    &&& p.package@ == e.package@
    &&& p.desc@ == e.desc@
    &&& spec_model_package_type_to_db(p.typ) == e.typ
    &&& spec_installed_version_text(p.version) == e.version@
    &&& p.author@ == e.author@
}

/// An installed file from a row of the `files` table.
pub fn convert_db_file_to_model(f: DbFile) -> (r: InstalledFile)
    ensures
        file_converted(f, r),
{
    let sections = convert_db_sections_to_model(f.main);
    let typ = if f.typ == 0 {
        None
    } else {
        Some(convert_db_package_type_to_model(f.typ))
    };
    InstalledFile { path: f.path, sections, typ }
}

/// An installed package from a row of the `entries` table and the rows of its files.
pub fn convert_db_entry_to_model(entry: DbEntry, db_files: Vec<DbFile>) -> (r: InstalledPackage)
    ensures
        entry_converted(entry, r),
        r.files@.len() == db_files@.len(),
        forall|i: int| 0 <= i < db_files@.len() ==> file_converted(db_files@[i], #[trigger] r.files@[i]),
{
    let ghost orig = db_files@;
    let mut files: Vec<InstalledFile> = Vec::new();
    let mut rest = db_files;
    let ghost n = rest@.len();
    while rest.len() > 0
        invariant
            files@.len() + rest@.len() == n,
            orig.len() == n,
            rest@ == orig.skip(files@.len() as int),
            forall|i: int| 0 <= i < files@.len() ==> file_converted(orig[i], #[trigger] files@[i]),
        decreases rest@.len(),
    {
        let ghost k: int = files@.len() as int;
        let f = rest.remove(0);
        assert(rest@ =~= orig.skip(k + 1));
        let converted = convert_db_file_to_model(f);
        files.push(converted);
    }
    InstalledPackage {
        remote: entry.remote,
        category: entry.category,
        package: entry.package,
        desc: entry.desc,
        typ: convert_db_package_type_to_model(entry.typ),
        version: convert_db_version_name_to_model(entry.version),
        author: entry.author,
        files,
    }
}

/// A row to insert into the `entries` table; the database assigns its id.
#[derive(Debug)]
pub struct InsertDbEntry {
    pub remote: String,
    pub category: String,
    pub package: String,
    pub desc: String,
    pub typ: i32,
    pub version: String,
    pub author: String,
    pub flags: Option<i32>,
}

/// A row to insert into the `files` table; the database assigns its id.
#[derive(Debug)]
pub struct InsertDbFile {
    pub entry: i32,
    pub path: String,
    pub main: i32,
    pub typ: i32,
}

/// The database number of an optional package type override: 0 for none.
pub open spec fn spec_type_override_to_db(value: Option<InstalledPackageType>) -> i32 {
    match value {
        None => 0,
        Some(t) => spec_model_package_type_to_db(t),
    }
}

/// `e` and `fs` are the rows that store `p`, whose entry gets the id `entry_id`.
pub open spec fn rows_of_package(p: InstalledPackage, entry_id: i32, e: InsertDbEntry, fs: Seq<InsertDbFile>) -> bool {
    &&& e.remote@ == p.remote@
    &&& e.category@ == p.category@
    &&& e.package@ == p.package@
    &&& e.desc@ == p.desc@
    &&& e.typ == spec_model_package_type_to_db(p.typ)
    &&& e.version@ == spec_installed_version_text(p.version)
    &&& e.author@ == p.author@
    &&& e.flags == Some(0i32)
    &&& fs.len() == p.files@.len()
    &&& forall|i: int|
        0 <= i < fs.len() ==> {
            &&& (#[trigger] fs[i]).entry == entry_id
            &&& fs[i].path@ == p.files@[i].path@
            &&& fs[i].main as int == spec_model_sections_to_db(p.files@[i].sections)
            &&& fs[i].typ == spec_type_override_to_db(p.files@[i].typ)
        }
}

/// The sets of sections of the files of `p` are well-formed.
pub open spec fn file_sections_wf(p: InstalledPackage) -> bool {
    forall|i: int| 0 <= i < p.files@.len() ==> ((#[trigger] p.files@[i]).sections matches Some(s) ==> s.wf())
}

/// The rows that store an installed package whose entry gets the id `entry_id`: the entry with
/// the default flags, and one row per file, in order.
pub fn add_package_rows(package: InstalledPackage, entry_id: i32) -> (r: (InsertDbEntry, Vec<InsertDbFile>))
    requires
        file_sections_wf(package),
    ensures
        rows_of_package(package, entry_id, r.0, r.1@),
{
    let ghost p = package;
    let InstalledPackage { remote, category, package, desc, typ, version, author, files } = package;
    let entry = InsertDbEntry {
        remote,
        category,
        package,
        desc,
        typ: convert_model_package_type_to_db(typ),
        version: convert_model_version_name_to_db(version),
        author,
        flags: Some(0),
    };
    let ghost all = files@;
    let mut rest = files;
    let mut rows: Vec<InsertDbFile> = Vec::new();
    while rest.len() > 0
        invariant
            all == p.files@,
            file_sections_wf(p),
            rows@.len() + rest@.len() == all.len(),
            rest@ == all.skip(rows@.len() as int),
            forall|i: int|
                0 <= i < rows@.len() ==> {
                    &&& (#[trigger] rows@[i]).entry == entry_id
                    &&& rows@[i].path@ == all[i].path@
                    &&& rows@[i].main as int == spec_model_sections_to_db(all[i].sections)
                    &&& rows@[i].typ == spec_type_override_to_db(all[i].typ)
                },
        decreases rest@.len(),
    {
        let ghost k: int = rows@.len() as int;
        let f = rest.remove(0);
        assert(rest@ =~= all.skip(k + 1));
        assert(f == all[k]);
        let main = convert_model_sections_to_db(f.sections);
        let typ = match f.typ {
            None => 0,
            Some(t) => convert_model_package_type_to_db(t),
        };
        rows.push(InsertDbFile { entry: entry_id, path: f.path, main, typ });
    }
    (entry, rows)
}

/// The `entries` row that the database holds after inserting `e` under the id `id`.
pub open spec fn stored_entry(e: InsertDbEntry, id: i32) -> DbEntry {
    DbEntry {
        id,
        remote: e.remote,
        category: e.category,
        package: e.package,
        desc: e.desc,
        typ: e.typ,
        version: e.version,
        author: e.author,
        flags: e.flags,
    }
}

/// The `files` row that the database holds after inserting `f` under the id `id`.
pub open spec fn stored_file(f: InsertDbFile, id: i32) -> DbFile {
    DbFile { id, entry: f.entry, path: f.path, main: f.main, typ: f.typ }
}

/// What is written for an installed package reads back as that package: its entry row
/// converts to the package's fields, and each file row, whatever id it got, converts to the
/// corresponding file; this holds for files whose type override is not the number 0, which
/// the database cannot tell from no override.
pub proof fn law_added_package_reads_back(
    p: InstalledPackage,
    entry_id: i32,
    e: InsertDbEntry,
    fs: Seq<InsertDbFile>,
)
    requires
        file_sections_wf(p),
        forall|i: int| 0 <= i < p.files@.len() ==> (#[trigger] p.files@[i]).typ != Some(InstalledPackageType::Unknown(0)),
        rows_of_package(p, entry_id, e, fs),
    ensures
        entry_converted(stored_entry(e, entry_id), p),
        stored_entry(e, entry_id).id == entry_id,
        forall|i: int, file_id: i32|
            0 <= i < fs.len() ==> stored_file(fs[i], file_id).entry == entry_id && file_converted(
                #[trigger] stored_file(fs[i], file_id),
                p.files@[i],
            ),
{
    assert forall|i: int, file_id: i32|
        0 <= i < fs.len() implies stored_file(fs[i], file_id).entry == entry_id && file_converted(
            #[trigger] stored_file(fs[i], file_id),
            p.files@[i],
        ) by {
        let f = p.files@[i];
        let row = fs[i];
        match f.sections {
            Some(s) => {
                s.lemma_wf_bits();
                let b = s.spec_bits();
                assert(b <= 0x1f ==> (b as i32) as u32 == b) by (bit_vector);
            },
            None => {},
        }
        match f.typ {
            Some(InstalledPackageType::Known(t)) => {
                assert(spec_package_type_code(t) != 0);
            },
            _ => {},
        }
    }
}

/// Writing a user version and reading it back gives the same version, provided its minor
/// number is not negative.
pub proof fn law_user_version_raw_roundtrip(v: DbUserVersion)
    requires
        v.minor >= 0,
    ensures
        i32::MIN <= spec_to_raw(v.major as int, v.minor as int) <= i32::MAX,
        spec_from_raw(spec_to_raw(v.major as int, v.minor as int) as i32) == (v.major as int, v.minor as int),
{
    let major = v.major;
    let minor = v.minor;
    let raw: i32 = minor as i32 | ((major as i32) << 16);
    assert(minor >= 0 ==> (minor as i32 | ((major as i32) << 16)) as int == major as int * 65536 + minor as int) by (bit_vector);
    assert(minor >= 0 ==> ((minor as i32 | ((major as i32) << 16)) & 0xffff) as int == minor as int) by (bit_vector);
    assert(raw as int == spec_to_raw(major as int, minor as int));
    assert(low_bits(raw) == minor as int);
}

/// Reading a raw user version and writing it back gives the same number, provided bit 15
/// (the sign bit of the minor number) is clear.
pub proof fn law_raw_user_version_roundtrip(raw: i32)
    requires
        low_bits(raw) < 32768,
    ensures
        ({
            let (major, minor) = spec_from_raw(raw);
            spec_to_raw(major, minor) == raw
        }),
{
    assert((raw >> 16) as int * 65536 + (raw & 0xffff) as int == raw as int) by (bit_vector);
    assert(0 <= (raw & 0xffff) < 65536) by (bit_vector);
    let low = low_bits(raw);
    assert((raw as int - low) / 65536 == (raw >> 16) as int);
}

/// For versions with non-negative minor numbers, the raw numbers are ordered like the versions.
pub proof fn law_raw_order_matches_version_order(v: DbUserVersion, w: DbUserVersion)
    requires
        v.minor >= 0,
        w.minor >= 0,
    ensures
        version_lt(v, w) <==> spec_to_raw(v.major as int, v.minor as int) < spec_to_raw(w.major as int, w.minor as int),
{
}

/// A database is migrated exactly when it is compatible and not newer than this library.
pub proof fn law_migration_iff_not_newer(v: DbUserVersion)
    ensures
        !version_lt(spec_reapack_db_user_version(), v) <==> (
            spec_compatibility_info(v) == CompatibilityInfo::PerfectlyCompatible
            || spec_compatibility_info(v) == CompatibilityInfo::CompatibleButNeedsMigration
        ),
        spec_compatibility_info(v) == CompatibilityInfo::DbTooNew <==> v.major > 0,
{
}

/// The older a database, the more migration steps it needs: the steps of a newer database are
/// the last ones of the steps of an older one. A database of the current version needs none.
pub proof fn law_migration_steps_suffix(v: DbUserVersion, w: DbUserVersion)
    requires
        version_lt(v, w) || v == w,
    ensures
        steps_already_done(v) <= steps_already_done(w),
        spec_migration_steps(w) == spec_migration_steps(v).subrange(
            steps_already_done(w) - steps_already_done(v),
            spec_migration_steps(v).len() as int,
        ),
        spec_migration_steps(spec_reapack_db_user_version()).len() == 0,
{
    assert(spec_migration_steps(w) =~= spec_migration_steps(v).subrange(
        steps_already_done(w) - steps_already_done(v),
        spec_migration_steps(v).len() as int,
    ));
}

/// Each known package type has its own number, and it counts as known when read back.
pub proof fn law_package_type_codes(t1: PackageType, t2: PackageType)
    ensures
        is_known_package_type_code(spec_package_type_code(t1)),
        spec_package_type_code(t1) == spec_package_type_code(t2) ==> t1 == t2,
{
}

/// A set of sections written to the database is read back unchanged; a number read from the
/// database is written back unchanged if it is -1 or only has bits of known sections.
pub proof fn law_sections_roundtrip(set: SectionSet, value: i32)
    requires
        set.wf(),
    ensures
        (set.spec_bits() as i32 as u32) & all_section_bits() == set.spec_bits(),
        0 <= value <= 31 ==> (value as u32) & all_section_bits() == value as u32,
{
    set.lemma_wf_bits();
    let b = set.spec_bits();
    assert(b <= 0x1f ==> (b as i32 as u32) & 0x1fu32 == b) by (bit_vector);
    assert(0 <= value <= 31 ==> (value as u32) & 0x1fu32 == value as u32) by (bit_vector);
}


/// The predicate "this file row belongs to the entry with id `id`".
pub open spec fn belongs_to(files: Seq<DbFile>, id: i32) -> spec_fn(int) -> bool {
    |q: int| files[q].entry == id
}

/// Some entry before position `k` has the id of the entry at `k`.
pub open spec fn id_seen_before(entries: Seq<DbEntry>, k: int) -> bool {
    exists|j: int| 0 <= j < k && #[trigger] entries[j].id == entries[k].id
}

/// The positions of the file rows that go with the entry at `k`: those that refer to its id,
/// unless an earlier entry with the same id took them already.
pub open spec fn file_positions_of_entry(entries: Seq<DbEntry>, files: Seq<DbFile>, k: int) -> Seq<int> {
    if id_seen_before(entries, k) {
        Seq::empty()
    } else {
        indices_where(files.len(), belongs_to(files, entries[k].id))
    }
}

/// The installed packages that rows of the `entries` and `files` tables make up: each entry,
/// in order, with the files that refer to it, in order.
pub fn installed_packages_from_rows(entries: Vec<DbEntry>, files: Vec<DbFile>) -> (r: Vec<InstalledPackage>)
    ensures
        r@.len() == entries@.len(),
        forall|k: int| 0 <= k < entries@.len() ==> entry_converted(entries@[k], #[trigger] r@[k]),
        forall|k: int|
            0 <= k < entries@.len() ==> (#[trigger] r@[k]).files@.len() == file_positions_of_entry(entries@, files@, k).len(),
        forall|k: int, i: int|
            0 <= k < entries@.len() && 0 <= i < file_positions_of_entry(entries@, files@, k).len() ==> file_converted(
                files@[file_positions_of_entry(entries@, files@, k)[i]],
                #[trigger] r@[k].files@[i],
            ),
{
    let ghost es = entries@;
    let ghost fs = files@;
    let n = files.len();
    let mut slots: Vec<Option<DbFile>> = Vec::new();
    let mut rest_files = files;
    while rest_files.len() > 0
        invariant
            slots@.len() + rest_files@.len() == fs.len(),
            rest_files@ == fs.skip(slots@.len() as int),
            forall|q: int| 0 <= q < slots@.len() ==> slots@[q] == Some(fs[q]),
        decreases rest_files@.len(),
    {
        let ghost k: int = slots@.len() as int;
        let f = rest_files.remove(0);
        assert(rest_files@ =~= fs.skip(k + 1));
        slots.push(Some(f));
    }
    let mut seen: Vec<i32> = Vec::new();
    let mut result: Vec<InstalledPackage> = Vec::new();
    let mut rest = entries;
    while rest.len() > 0
        invariant
            n == fs.len(),
            slots@.len() == n,
            result@.len() + rest@.len() == es.len(),
            rest@ == es.skip(result@.len() as int),
            seen@.len() == result@.len(),
            forall|j: int| 0 <= j < seen@.len() ==> seen@[j] == es[j].id,
            forall|p: int| 0 <= p < n && slots@[p] is Some ==> slots@[p] == Some(fs[p]),
            forall|q: int|
                0 <= q < n && !(exists|j: int| 0 <= j < result@.len() && #[trigger] es[j].id == fs[q].entry) ==> slots@[q] == Some(
                    fs[q],
                ),
            forall|k: int| 0 <= k < result@.len() ==> entry_converted(es[k], #[trigger] result@[k]),
            forall|k: int| 0 <= k < result@.len() ==> (#[trigger] result@[k]).files@.len() == file_positions_of_entry(es, fs, k).len(),
            forall|k: int, i: int|
                0 <= k < result@.len() && 0 <= i < file_positions_of_entry(es, fs, k).len() ==> file_converted(
                    fs[file_positions_of_entry(es, fs, k)[i]],
                    #[trigger] result@[k].files@[i],
                ),
        decreases rest@.len(),
    {
        let ghost k: int = result@.len() as int;
        let entry = rest.remove(0);
        assert(rest@ =~= es.skip(k + 1));
        assert(entry == es[k]);
        let id = entry.id;
        // has an earlier entry the same id?
        let mut j: usize = 0;
        let mut taken = false;
        while j < seen.len() && !taken
            invariant
                j <= seen@.len(),
                seen@.len() == k,
                forall|x: int| 0 <= x < seen@.len() ==> seen@[x] == es[x].id,
                taken ==> exists|x: int| 0 <= x < k && #[trigger] es[x].id == id,
                !taken ==> forall|x: int| 0 <= x < j ==> es[x].id != id,
            decreases seen@.len() - j,
        {
            if seen[j] == id {
                taken = true;
            }
            j = j + 1;
        }
        assert(taken == id_seen_before(es, k)) by {
            if !taken {
                assert(j == k);
            }
        }
        let mut group: Vec<DbFile> = Vec::new();
        let ghost positions = file_positions_of_entry(es, fs, k);
        if !taken {
            let mut q: usize = 0;
            while q < n
                invariant
                    q <= n,
                    n == fs.len(),
                    slots@.len() == n,
                    !id_seen_before(es, k),
                    es[k].id == id,
                    forall|p: int| 0 <= p < n && slots@[p] is Some ==> slots@[p] == Some(fs[p]),
                    forall|j: int| 0 <= j < k ==> es[j].id != id,
                    forall|p: int|
                        q <= p < n && !(exists|j: int| 0 <= j < k && #[trigger] es[j].id == fs[p].entry) ==> slots@[p] == Some(fs[p]),
                    forall|p: int|
                        0 <= p < n && fs[p].entry != id && !(exists|j: int| 0 <= j < k && #[trigger] es[j].id == fs[p].entry)
                            ==> slots@[p] == Some(fs[p]),
                    group@ == at_positions(fs, indices_where(q as nat, belongs_to(fs, id))),
                decreases n - q,
            {
                let matches = match &slots[q] {
                    Some(f) => f.entry == id,
                    None => false,
                };
                proof {
                    if fs[q as int].entry == id {
                        assert(!(exists|j: int| 0 <= j < k && #[trigger] es[j].id == fs[q as int].entry));
                    }
                }
                if matches {
                    let f = take_slot(&mut slots, q).unwrap();
                    group.push(f);
                }
                assert(group@ =~= at_positions(fs, indices_where((q + 1) as nat, belongs_to(fs, id))));
                q = q + 1;
            }
            assert(positions == indices_where(fs.len(), belongs_to(fs, id)));
        } else {
            assert(positions =~= Seq::<int>::empty());
        }
        assert(group@ =~= at_positions(fs, positions));
        proof {
            lemma_indices_where(fs.len(), belongs_to(fs, id));
        }
        let package = convert_db_entry_to_model(entry, group);
        let ghost old_result = result@;
        result.push(package);
        seen.push(id);
        proof {
            assert forall|kk: int, i: int|
                0 <= kk < result@.len() && 0 <= i < file_positions_of_entry(es, fs, kk).len() implies file_converted(
                    fs[file_positions_of_entry(es, fs, kk)[i]],
                    #[trigger] result@[kk].files@[i],
                ) by {
                if kk == k {
                    assert(group@[i] == fs[positions[i]]);
                } else {
                    assert(result@[kk] == old_result[kk]);
                }
            }
        }
    }
    assert(result@.len() == es.len());
    result
}

} // verus!
