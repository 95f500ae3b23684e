# flash-desktop

The Flash Desktop daemon keeps a WebSocket connection to the Flash server and
runs tools (files, shell, clipboard, applications) on the server's request.

- `src/` is the verified library (Verus):
  - `config`, `auth`: the settings and the access token, as changes to the settings;
  - `mcp`: tool input, tool definitions and the tool registry;
  - `tools/`: the tools' definitions, how a call's input becomes a checked
    request, and how the machine's answer becomes the call's result;
  - `ws`: the messages, the daemon address and the reconnect decisions;
  - `ui`: the tray and window decisions;
  - `host`, `text`: machine facts and text building blocks.
- `app/` is the program around it: the Tauri shell, the settings file, the
  WebSocket loop and the file, process and clipboard work.
- `tests/` exercise the library on concrete values.
