# rust_bytes

A watcher of draw websites. It polls a site for its latest draw results and
predictions, sends a WxPusher notification when the latest records form one of
a few patterns, counts down to the next draw and checks whether it is open,
round after round.

- `src/` is the verified library: the JSON model it reads answers with, the
  classification of draws and the notice rules (`draws`, `analysis`, `canada`),
  the requests it makes (`request`, `message`), the round of polling as a
  step function (`schedule`), start-up decisions (`startup`, `common`), text
  helpers (`text`) and the laws that hold of all of it (`laws`).
- `app/` is the program around it: terminal, files, the clock, HTTP with
  reqwest, and moving JSON between serde_json and the library's model.
- `tests/` exercises the library on concrete answers.
