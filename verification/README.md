# noj_sandbox

Runs a submission of an online judge in a sandbox: it reads the run's settings from a
TOML file, starts the submission with its standard streams redirected, confines it to a
control group and kills it after a timeout.

- `src/` is the library, verified with Verus: settings (`env`, over the TOML table of
  `toml_table`), languages and their command lines (`lang`), control-group limits
  (`limits`), the judger traits (`judger`, `stages`) and the plugin list (`plugin`).
- `app/` is the program around it: command-line arguments, file and process I/O, the
  control group itself, plugin loading and the process-wide plugin list.
- `tests/` exercises the library.
