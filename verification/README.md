# tauri-driver

A WebDriver intermediary node for Tauri applications. Clients connect to it; it
starts the native WebDriver server (Linux) or the application with its embedded
plugin (macOS, Windows) and passes the requests on.

- `src/` is the library, verified by Verus: what becomes of each request, how
  capabilities are put in the form of the native driver, when an application is
  launched, waited for and terminated, how the server goes on after each event.
- `app/` is the program around it: connections, processes, signals, the command
  line.
- `tests/` runs the library on concrete values.

What is taken from `serde_json` and from `hyper` without proof stands in
`src/json.rs` and `src/wire.rs`, each item with the claim that it makes.

## Options

- `--port` (default: `4444`): the port to listen on
- `--native-port` (default: `4445`): the port of the plugin or native WebDriver
- `--native-host` (default: `127.0.0.1`): the host of the plugin or native
  WebDriver
- `--native-driver`: the path of the native WebDriver
