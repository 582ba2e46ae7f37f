# omarchy-theme

Resolve an Omarchy desktop theme: the full palette with Omarchy's
alias/derivation cascade, the shell style tokens of `shell.toml`, and the
decisions behind change detection and export.

* `src/` — the library, verified with Verus. `palette` parses
  `colors.toml` and runs the cascade; `style` parses `shell.toml` and
  resolves references; `color` parses and prints colors; `export` renders
  the palette parts of the text formats; `theme`, `font`, `watch` and `abi`
  hold the decisions of loading, change detection, watching and the C
  interface; `cascade_laws` proves what every resolved palette satisfies.
* `app/` — the command-line tool and everything that touches the file
  system, processes, threads, floating point or a GUI toolkit.
* `tests/` — the test suite.

The palette and the style sections are held in `Table`, a list of
key/value pairs whose keys are distinct, rather than in std's `BTreeMap`.
With `String` keys, the specifications Verus has for std's maps let nothing
be proved about lookups or listings; `Table` states its contents as a `Map`
from character sequences, and its sorted listings are produced and proved
by the library itself.
