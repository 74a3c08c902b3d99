# web_sw_cor24_ocaml

The logic of a browser page that runs an integer-subset OCaml interpreter on
an emulated COR24 machine, with its behaviour stated in contracts and proved
by Verus.

- `src/` — the verified library:
  - `demos.rs`: the demo catalog (`demos()` is proved equal to the `catalog()`
    specification), module-name derivation (`capitalize_stem`) and the joining
    of multi-file demos (`concat_with_aux`, `Demo::concat_main`,
    `Demo::full_source`), with the catalog's laws (alphabetical and unique
    names, the minimal group, interactive demos, default demo).
  - `transcript.rs`: cleaning the machine's UART transcript
    (`strip_prompt_echoes`, `clean_output`).
  - `runner.rs`: the interpreter session as a state machine driven by the
    caller's machine (`Session::tick`, `Session::advance`, `feed_input`).
  - `ui.rs`: the page's state machine (`AppState::update`,
    `AppState::after_tick`) and its laws.
  - `config.rs`, `hex.rs`, `text.rs`: memory layout, hexadecimal rendering
    and character helpers.
- `tests/` — tests run against the compiled library.
- `app/` — the Yew page, the emulator glue and the boot images (not
  verified). The emulator crate and the VM and interpreter images it loads
  are not part of this repository.
