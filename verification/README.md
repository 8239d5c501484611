# clean_dev_cycle

A verified library for a development-cycle tool built around Jujutsu, Git,
Conventional Commits and release changelogs.

- `src/` holds the logic, written in Verus: commit-message and changelog
  validation, command-line parsing, Git and Jujutsu output parsing, release
  preparation and checks, and the decision machines that drive submission,
  publication, release preparation, the release check, the revision of release notes
  and release finishing. TOML and JSON that the tools print are parsed in `src/` too,
  behind small trusted wrappers whose results are named. Each public function carries a contract,
  and the laws that span several functions stand as public proof functions.
- `app/` is the command-line program: process execution, files and terminal
  interaction, handing plain values to the library and running what it asks for.
- `tests/` exercises the library on concrete values.
