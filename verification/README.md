# selector

The verified core of an engineering selection tool for automation equipment
(timing belts, ball screws, reducers, linear modules, motors, servo/stepper
drives), written in Verus.

- `src/` — the library, every function with a contract proved by Verus:
  - `text` — Unicode white-space trimming, string equality, decimal notation,
    `LIKE` containment patterns;
  - `models`, `common` — formula steps, rule decisions, risk items, field errors,
    the unit lookup of request fields and the risk list of a result;
  - `units` — which conversion applies between two units;
  - `safety_factor` — when a user's safety factor is accepted or flagged;
  - `registry` — the implemented calculation modules and their ids;
  - `cases` — case names, list filters and record ids;
  - `knowledge` — knowledge-base records, confirmed parameters, stored tag JSON;
  - `db` — the database health report.
- `tests/` — tests of the library.
- `app/` — the program around it: the SQLite repositories and commands, and the
  calculation modules themselves, whose inputs and results are floating point.
