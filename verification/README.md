# ipkvm

Verified core of a software IP-KVM console: a capture card shows the target
machine's screen, a CH9329 serial bridge types and points on it.

`src/` holds the decisions of the console, each proved against its contract
with Verus:

- device inventory and natural ordering of serial ports (`device`, `natural`,
  `probe`), device selection and preview state (`state`, `connect`),
  profiles (`profile`, `config`);
- keyboard and pointer mapping for both consoles (`keymap`, `input`,
  `desktop_input`), remote-input and focus state machines (`remote`,
  `focus`, `cursor`), the recording input sink (`sink`);
- the connection page and its dialogs (`console`), menus (`menus`), the
  status bar and the messages it shows (`status`, `session`, `messages`),
  frame conversion and screenshots (`frame`, `clipboard`), window size
  (`scale`), frame statistics (`perf`), locale choice (`locale`), the
  headless service's command line and service files (`headless`), text
  helpers (`text`, `platform`).

`app/` is the command-line front end: serial-port listing and service
installation, plus the window-coordinate geometry and statistics that use
floating point.
