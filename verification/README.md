# mimik

A real-time voice changer for macOS, organised around a verified library.

- `src/` is the library, verified with Verus: the text and decisions of every
  subcommand (`devices`, `live`, `list`, `install`, `remove`, `info`,
  `status`, `stop`; `install`, `remove` and `stop` as state machines whose
  caller performs each file or process action), the device report, the checks of the live pipeline, and
  the arrangement of a voice's effect chain around the pitch shifter, and
  the text utilities they rest on (decimal rendering and parsing, line
  splitting, padding, substring search, byte-wise name ordering).
- `app/` is the program: command-line parsing, file and process access, the
  audio host, and the DSP effects, whose samples and parameters are floating
  point.
- `tests/` exercises the library on concrete values.
