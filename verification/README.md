# minidump_analyzer

Crash analysis of Windows minidumps, written in Verus. The library in `src/`
holds the logic of the analyzer; each function is proved against spec
functions over `Seq<char>` views:

- `text` — decimal and hexadecimal rendering, column padding, prefix tests
  and `.pdb`→`.sym` style replacement, with round-trip laws for the numbers.
- `platform` — the std calls without a vstd specification (Unicode case
  mapping, `Path::file_name`), each behind one trusted wrapper.
- `symbols` — Breakpad ids, symbol file names and URLs, the per-module
  decision of the symbol fetch and its tally.
- `analyzer` — the crash report: exception names, register extraction,
  the report built from the dump's data, and its text rendering.
- `dump` — the dump's bytes parsed with the `minidump` crate into system
  information, exception, modules and CPU context, behind trusted wrappers
  whose results are named functions of the bytes, and the first step of an
  analysis built on them.
- `channel` — which channels are analysed and what an analysis run does.
- `mcp` — the tool server's requests and replies.
- `lib.rs` — `Channel` parsing and `Verbosity`.

`app/` is the command-line program and the MCP tool server: reading the dump
file, stack walking with `minidump-processor`, downloads, `dump_syms` runs, file
output and JSON serialization. Started under a name that contains `mcp`
(such as `minidump-analyzer-mcp`), the program runs the MCP tool server on
stdio instead of the command line.
