# watcher_rs

A verified library for a terminal tool that watches process, file and network
activity through eBPF, classifies each event with a set of rules, stores the
events in batches on disk and shows them in an interactive view.

## Layout

- `src/` — the library, written in Verus and proved against its contracts:
  - `model` — the events and their one-line descriptions;
  - `rules`, `config` — the rules file and its built-in defaults;
  - `detection`, `pipeline`, `filter` — the rule engine, the handling of each
    incoming event, and the suppression of repeated file events;
  - `gen_db` — the IP reputation list and its lookup;
  - `write` — framing of stored batches, the batch index and the writer's
    segment rotation and size limits;
  - `app`, `ui` — the state of the view (selection, scrolling, search,
    filters, notifications, batch loading requests) and what it shows;
  - `net`, `path`, `text`, `scan`, `helper` — addresses, paths, numbers and
    text as the rest needs them;
  - `common`, `tui` — the first generation of event records and their viewer;
  - `probe` — how the kernel probes fill those records from the raw values
    they read (the probes themselves are eBPF programs and are not part of
    this crate).
- `app/` — the program around it: reading events from bpfx, files and
  configuration, rkyv and TOML forms of the library's values, drawing with
  ratatui, and the event loops.
- `tests/` — tests of the library on concrete values.
