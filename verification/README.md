# btman

A GTK4/libadwaita Bluetooth pairing manager, split into a verified library and
a thin application around it.

- `src/` is the library, verified with Verus. It decides what the window shows
  and what the Bluetooth tasks report:
  - `text`: character-level text operations (search, replacement, decimal
    notation, parsing, ordering) and the lowercase wrapper.
  - `address`: Bluetooth addresses and reading them from text (through `bluer`).
  - `bluetooth_state`: the device and adapter lookup tables.
  - `singletons`: the shared properties and the state of the pairing dialogs.
  - `bluetooth/`: the messages to the window, and the decisions of the adapter
    switches, of connecting, removing and listing devices, and of the search.
  - `window`: toast titles, the device list's order, row removal, dialog texts.
  - `widgets/`: the state of the battery row, device rows, the list of paired
    devices (which `SwitchActive`, `SwitchActiveSpinner`, `SwitchRssi` and
    `AddPairedRow` update) and the start-up error window.
- `app/` is the program: windows and widgets, D-Bus calls through `bluer`,
  the tokio runtime and the message loop.

`Cargo.toml` names `dbus` with its `vendored` feature only so that `bluer`'s
D-Bus binding builds against the bundled libdbus where no system libdbus is
installed; the code does not use it directly.
