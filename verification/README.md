# secprobe

A pattern-based security scanner for source code, written in Verus.

`src/` is the verified library:

- `rules` — the catalogue of 28 rules (id, CWE, OWASP category, languages,
  regular expression, fix advice) and their compiled form; the regular
  expressions run on the `regex` crate.
- `scanner` — splitting a file into lines, matching the rules meant for its
  language against every line, turning each match into a numbered finding
  with a code snippet, and assembling a project's result (file counts,
  per-language tally).
- `types` — severities, languages, findings, scan results and their summary.
- `report` — report order (stable by severity), HTML escaping, the HTML report.
- `terminal` — the terminal report as painted lines.
- `cli` — severity names and the minimum-severity filter.
- `llm` — language-model settings, the review prompt, placeholder analyses.
- `text` — characters, decimal numbers, padding, line splitting.

`app/` is the command-line program: argument parsing (`clap`), the directory
walk (`walkdir`), file reading, parallel scanning (`rayon`), colouring
(`colored`), JSON output (`serde`, `serde_json`) and writing reports.
