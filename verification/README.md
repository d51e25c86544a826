# Wazuh Agent Installer

The decisions of a desktop installer for the Wazuh agent, written and proved in
[Verus](https://github.com/verus-lang/verus), and the application around them.

- `src/` is the library. Every function states in its contract what it returns, over the
  characters of the texts involved. The `law_` proof functions state what holds of several
  functions together: what an installation or an enrollment returns and announces whatever the
  outside replies, that a code is taken only while a client is there, that both platforms run
  the scripts with the same settings, that a failure the enrollment client told of is never
  forgotten.
- `app/` is the Tauri application: windows, processes, files and the records exchanged with the
  user interface. It performs the library's steps and hands the outcomes back.
- `tests/` runs the library on concrete values.

One function of the standard library is described by a contract that is believed and not proved:
`str::to_lowercase`, in `src/text.rs`.
