# boil

Manages the public address of a Boil network machine: shows it, rates it, changes it, and
changes it by a schedule, from a chat bot or the command line.

- `src/` is the verified core. It decides what to ask, what an answer means, what to do
  next and what to say. Verus proves the contracts of its functions, but for two that are
  believed: `json::parse_text` and `json::parse_bytes`, which call `serde_json`.
  - `boil`: requests to the panel and the meaning of its answers
  - `quality`: the rating of an address
  - `probe`: questions put to several places in turn
  - `reconnect`: the change of an address
  - `timer`: the schedule of changes
  - `bot`, `cli`, `report`: the commands and their wording
  - `json`, `text`, `config`: what the others rest on
- `app/` performs the actions: network, chat, console. The store of the schedule, the
  scheduler and the probe of streaming services are given to it as traits.
- `tests/` runs the core on concrete values.

A command that alternates waiting and deciding is a state machine in the core: `action`
tells what a state waits for, and the step function takes in what came of it.

`takecell` stands among the dependencies only to hold back a version of it: `teloxide` asks
for it, and 0.1.2 needs a later compiler.
