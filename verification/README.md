# dshns

A coding-agent harness: sessions with snapshots, a tool registry with approval rules,
a tool executor that keeps long results aside behind handles, sub-agents, skills, MCP
servers, and a turn loop that drives a streaming model.

- `src/` is the library, written in Verus. Its functions state in their contracts what they
  return and are proved against them, except the thin wrappers around outside crates (ids,
  the clock, hashing, parsing, regular expressions, HTML and URLs), whose contracts say only
  what those crates guarantee and are trusted; `src/laws.rs` proves properties that span several
  functions (compaction fits its budget, the approval switches, the bounds of a turn, the
  sub-agent limits, how tool results are handed back, and what a session snapshot reads
  back as: each field as configparser reads it back, which is the field itself when it is
  on one line without `;` or `#`, as long as the later lines of multi-line fields cannot be taken for keys or
  section headers).
- `app/` is the program around it: the command line, the HTTP API, files, the database,
  processes and network calls. It hands the library plain values and acts on what comes
  back.
- `tests/` runs the library on concrete values.
