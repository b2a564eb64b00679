# setup-devbox

A declarative development-environment provisioner: tools, fonts, shell
run-commands and macOS settings are described in YAML files, and
`setup-devbox now` brings the machine in line with them, recording what it did
in `state.json`.

The decisions are made by a library verified with Verus (`src/`):

- `planner`, `orchestrator`: which action each tool needs (install, update,
  configuration refresh, skip) under the update policy, and how outcomes are
  recorded in the state;
- `brew`, `cargo`, `go`, `pip`, `rustup`, `uv`, `github`, `url`, `fonts`,
  `engine`: each installer's command lines, the parsing of what its tools
  print, where things land, and what is recorded after a run;
- `config_doc`, `yaml_text`, `add`, `remove`: editing the YAML configuration
  documents (adding, merging, cleaning and removing items);
- `sync`, `generate`: regenerating configuration files from the state, and the
  default templates;
- `shell_sections`, `shellrc`: the shell rc file, its run commands placed
  under section headers, updates detected and the file rebuilt on request;
- `state`, `store`, `timestamps`, `backup`, `edit`, `version`,
  `now`, `check_updates`, `help`, `cli`: the rest of the commands' decisions.

`app/` is the command-line program: argument parsing, files, processes,
network, prompts and terminal colours. It gathers what the library needs,
calls it, and carries out what it decides.

`tests/` exercises the library on concrete values.
