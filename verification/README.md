# reaboot

ReaBoot installs REAPER, ReaPack and ReaPack packages in one go. This crate holds its logic as a
Verus library: every function in `src/` carries a contract that Verus proves, and the `law_*`
proof functions state properties that span several functions.

- `src/`: the verified library.
  - Text, paths and platforms: `text`, `path`, `platform`, `reaper_platform`, `reaper_target`.
  - REAPER and ReaPack locations: `reaper_resource_dir`, `reaper_util`, `reapack_util`, `file_util`.
  - ReaPack's model: `version`, `package_id`, `version_id`, `package_url`, `section`,
    `installed_package`, `database` (the registry's rows and schema versions), `reapack_config`
    (`reapack.ini`).
  - Planning an installation: `recipe`, `conflicts`, `installation_model`, `installer`,
    `resolved_config`, `install_args`, `installation_stage`, `hash_util`.
  - Reporting: `preparation_report`, `report_markdown`, `display_util`.
- `tests/`: tests of the library, run against the real outside crates.
- `app/`: the command line program around the library (argument parsing, file system, output).

Calls into outside crates (`url`, `dirs`, `camino`, `indexmap`, `rust-ini`, `hex`, `multihash`,
`multihash-codetable`) sit behind small trusted wrappers whose doc comments say what is assumed
of them.
