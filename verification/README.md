# netcorehost

A library for hosting the .NET Core runtime through `nethost` and `hostfxr`.

- `src/` is the verified library, checked with Verus: the status codes of the hosting
  components and their decoding (`error`, `hostfxr::hosting_exit_code`), the errors of loading
  managed functions, the decisions taken around the native calls (buffer sizes to retry with,
  which status codes let a call go on, where the .NET installation lies, how the list of native
  search directories splits, what an SDK resolution reports, which runtime delegates are already
  cached), the data reported about the .NET environment with its order and equality, paths
  compared by their components, and platform strings without interior nul.
- `app/` holds the native side: loading the libraries, the calls through the native hosting API,
  and the error types that carry `Display` and `std::error::Error`.
- `tests/` exercises the library on concrete values.
