# beagle_config

A terminal configuration tool for single-board computers: a menu of views
(password, SSH, locale, placeholders), a WiFi view backed by the iwd daemon,
and a pin-out view of the 40-pin header.

- `src/` is the verified library. Each view is a state machine whose key and
  action handling, screen contents and layout are stated as contracts and
  proved with Verus; the widgets' geometry, the list selections, the stable
  sort of networks and the text formatting are proved the same way. Calls into
  ratatui, chrono and whoami stand behind small trusted wrappers.
- `app/` is the program: terminal input and drawing, the iwd D-Bus session,
  and running `sudo chpasswd`.
- `tests/` exercises the library on concrete values.
