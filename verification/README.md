# yh-extension-manager-v2

Plugin (extension) manager: it reads plugin packages (zip archives with a
`plugin.json` manifest), validates and installs them, keeps the plugin
registry, starts and stops plugin runtimes (native processes, WASM
components and Docker containers), serves plugin UIs and proxies plugin
APIs, and answers the host API that plugins call back into.

## Layout

- `src/` — the library, written in Verus. Its functions carry
  `requires`/`ensures` contracts that Verus proves, except the small
  `#[verifier::external_body]` wrappers around outside crates and std
  (sha2, hex, base64, dashmap, rand, zip, tar, flate2, url, jsonwebtoken, mime_guess,
  `std::path`), whose contracts are trusted and say what those functions
  are documented or seen in their source to do.
  - `manifest`, `permissions` — the manifest model, its validation, and
    permission grants.
  - `package`, `installer` — reading and unpacking packages, preparing
    runtimes, planning registration and materialisation.
  - `registry`, `market`, `handlers` — registry records, audit entries,
    admin decisions (the start, stop and uninstall state machines).
  - `runtime/` — launch plans and start/stop state machines for process,
    WASM and Docker runtimes.
  - `manager` — the table of running runtimes.
  - `host_api`, `public` — host API request/response shapes, key-value
    namespacing and permission checks, SQLite broker paths, UI asset
    selection, proxy headers with signed user identities, and runtime
    target addresses.
  - `text`, `paths`, `digest` — string, path and digest helpers.
- `tests/` — tests of the library on concrete values.
- `app/` — the unverified shell: HTTP routes, database access, file and
  process I/O, which drive the library's functions and state machines.
