# keytao_ime

The decision logic of the KeyTao input method frontends, verified with Verus.

`src/` holds the library, every function of it with a contract:

- `context`, `policy`: when an input context is a secret field (password,
  PIN, private) and how probes that fail or cannot answer are merged; the
  session policy each protocol's content types map to.
- `keys`, `vk`: how key events are filtered, routed and translated to
  keysyms, which keys the text service claims, and when the conversion mode
  is announced.
- `ime_state`, `panel`: what an engine state does to the document, the
  candidate panel model, the lookup-table rows, and caret offsets.
- `theme`: theme colors, color schemes, the `ui` overlay rules and the
  settings the app writes back.
- `theme_document`: the edit of a user's YAML theme document when those
  settings are written. `serde_yaml` parses and prints the document behind
  small trusted wrappers; the edit itself (version added only when missing,
  the written keys set, every other key kept) is proved.
- `session`, `daemon`, `ibus_files`, `repeat`: frontend selection and the
  daemon's startup plan, bus addresses, the IBus address files read and
  written, the reload stamp gate and key repeat timings.
- `geometry`, `dll`, `sandbox`, `actions`: caret validation, popup placement
  and hit testing, COM server lifetime, the sandbox seeding rules and the
  menu actions.

Laws the library keeps are public proof functions beside the functions they
are about (`lemma_*`).

`tests/` runs the library on concrete inputs. `app/` reads the environment
and files, and reads and atomically replaces theme documents, around the
library.
