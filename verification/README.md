# depot

Depot is a local package manager for Lua. This crate is its library,
written in Verus: the functions in `src/` carry `requires`/`ensures`
contracts that Verus proves (where an answer rests on the operating
system's keychain alone, nothing about it is promised), and the laws of the library (version
precedence, cache cleaning, path handling, the lookup of plugins and
scripts) are stated as public proof functions.

Layout:

- `src/` — the verified library. Paths are `/`-separated text, maps from
  names are `store::Store`, and work that needs the operating system or the
  network is split off: the library computes what to do (a command plan, a
  file to remove, a request to make) and takes the result back as a plain
  value. Calls into outside crates (hashing, base64, URL encoding, the
  keychain, platform directories) go through small trusted wrappers whose
  contracts say what the crate's documentation promises.
- `tests/` — tests of the library on concrete values.
- `app/` — the `depot` command line: argument parsing, files, processes,
  HTTP and the YAML/JSON forms of the library's types.
