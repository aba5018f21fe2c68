# rote

Record once, replay the rest: automate web form data entry by example.

You fill in a web form for the first row of a table while `rote` watches. It
learns which cell goes into which field, and then fills in the form for every
other row, at the pace you choose: field by field, row by row, or all at once.

## Layout

- `src/` is the library. It is written in Verus: its functions state what they do
  in `requires` and `ensures`, and Verus proves it, except for the few items listed
  under "What is trusted".
  - `data`: tables of text from the clipboard or from files.
  - `workflow`: what was recorded, and when it is consistent.
  - `training`: turns browser events into a workflow.
  - `playback`: replays a workflow for the remaining rows.
  - `cdp`, `json`: messages exchanged with the browser.
  - `tui`: what the screens show, and what keys do on them.
  - `text`, `time`, `cli`: numbers as text, delays, the command line.
- `tests/` runs the library on concrete values.
- `app/` is the program around the library: the terminal, the browser process
  and its connection, the clipboard and files. It performs what the library
  decides and hands back what came of it.

## Laws

Some things hold of several functions together. They are stated and proved as
functions whose names start with `law_`: a recorded workflow is consistent, as
long as no delay is too long and empty-cell rules are for columns that exist
(`training/laws.rs`); playback accounts for every row, types the cells of the row
it is at, and listens for a navigation before it is triggered
(`playback/laws.rs`); the active row stays visible (`tui/table.rs`).

## What is trusted

Verus believes what these say of code outside the library, without proof:

- `data/parse.rs`: `read_records` reads delimited text with the `csv` crate. Which
  records a text holds is named (`csv_records`) and not described further.
- `json.rs`: `read_level` and `write_string` read and write JSON with `serde_json`
  (`json_level`, `json_string`); what is written reads back as the same text.
- `training/session.rs`: `Instant::now` and `nanos_since` read the clock. Nothing
  is claimed of what it shows.
- `text.rs`: `String::push` appends one character.

The types `csv::Error` and `std::time::Instant` are carried through unread.
