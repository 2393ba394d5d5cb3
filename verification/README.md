# github-tracker

Watches public GitHub repositories, announces new releases and changes of stars and forks
in a Telegram chat, and serves a dashboard with a JSON API on the local network.

- `src/` is the library, verified with Verus: settings and their defaults (`config`), the
  decisions of one check of a repository and the text of its announcements (`monitor`), the
  state that the watch loop fills (`state`: one state per repository, the 100 latest
  notifications), the dashboard page (`web`), the requests made of GitHub and Telegram
  (`github`, `telegram`), decimal text (`text`) and the text of instants (`clock`, through
  `chrono`).
- `app/` is the program around it: environment, files, HTTP with `reqwest`, the
  `actix-web` server, the `tokio` loop, and serde copies of the data types.
- `tests/` runs the library on concrete values.
