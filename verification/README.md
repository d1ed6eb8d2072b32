# ogonek-gh

A Telegram bot that lets authorised users file GitHub issues through a
"user story" wizard (title, role, function, benefit, details,
acceptance criteria).

- `src/` is the verified library (Verus): the access rule (`auth`), whitespace
  trimming and integer parsing with the semantics of `str::trim` and
  `str::parse` (`text`), what a reply does to the keyboard (`keyboard`), the wizard as a state
  machine (`bot`), the issue request and GitHub settings (`github`), and the
  properties proved of them (`laws`).
- `app/` is the program around it: teloxide dispatching and dialogue storage,
  sending replies, reading the environment, and the octocrab calls.
- `tests/` runs the library on concrete values.
