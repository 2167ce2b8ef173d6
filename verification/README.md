# tkill-ai

A voice and text desktop assistant for Linux. The user types or speaks a
request; a language model answers with a tool call (launch an application,
run a `hyprctl dispatch` command, search the web); the assistant carries it
out and, when an application's package is missing, offers to install it.

- `src/` is the verified library: the window's state machine (`app`), its
  laws (`app_laws`), tool-call planning (`ai`), the table of known
  applications (`knowledge`), the reports on programs and web requests
  (`actions`, `audio`), the configuration check (`config`), text handling
  (`text`) and the `serde_json` interface (`json`).
- `app/` is the program around it: the iced window, processes, HTTP
  requests, configuration file and sound recording.
- `tests/` exercises the library on concrete values.
