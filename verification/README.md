# himalaya-tui

A terminal interface to a mail account: folders, envelopes and a message preview,
driven by single keys.

- `src/` is the verified library. It holds the state of the interface (`app`), the
  order of its work (`run`), the command lines that it hands to the mail program
  (`action`), what it asks of the account (`mail`), where things are on the screen
  (`layout`), what is shown there (`screen`, `style`, `draw`), and the texts in it
  (`text`). `laws` states what holds of the whole.
- `app/` puts the library on a terminal and connects it to an account. It draws,
  waits for keys, fetches and runs commands, as the library tells it to.
  `app/backend.rs` needs `pimalaya-tui` with its `himalaya` feature.
- `tests/` holds examples.

The work goes on in steps: `App::run` takes what happened and returns what is to be
done next. The one thing that the library takes on trust is how `ratatui` splits a
rectangle (`layout`).
