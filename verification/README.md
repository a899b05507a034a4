# scratch_lang

A verified toolchain for scratch-lang, a small event-driven language for 2D games
(`when start:`, `when action.down("right"):`, `every 2 seconds:` ...).

`src/` is the library, checked by Verus:

- `language/` — lexer, parser, formatter and linter, each specified against a
  mathematical model of tokens, syntax trees and findings (with laws on the token layout and
  on formatted expressions reading back as the same tree);
- `ir/`, `bytecode/` — lowering to the intermediate form and compilation to stack-machine
  chunks (jump targets and constant references are proved to stay inside each chunk);
- `blocks/`, `assets/`, `project.rs` — the block catalogue, the asset index, project
  settings and aspect ratios;
- `lsp/` — the language server's analysis (diagnostics, completion, hover, formatting,
  symbols) and its document store;
- `cli/` — settings, templates, packages, project commands and the Studio web server's
  request handling;
- `text.rs`, `vm.rs`, `runtime.rs` — text helpers (edit distance, lines, decimal), machine
  errors and entity ids.

`app/` is the `scratch` command-line tool around it: file and network I/O, JSON and YAML,
the language server transport, and the game world with the bytecode machine, whose
numbers are floating point.

`tests/` runs the library on concrete programs.

Not part of this crate: the windowed front ends (the egui/eframe Studio and preview
windows and their stage renderer), the Bevy-based game runner, the web export, and the
tree-walking interpreter (`Executor`, `EventDispatcher`, `Runtime`) that those front ends
drive. Programs run here through the bytecode machine in `app/` instead. The screen size
is asked of the operating system in `app/display.rs` (on Windows); elsewhere the library's
1920x1080 fallback is used.
