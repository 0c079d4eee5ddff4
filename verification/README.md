# tempusbot

A Discord bot for players of Tempus, the Team Fortress 2 jump server
network: it links a Discord account to a Tempus id, shows ranks and map
times, answers "is this true" questions with a magic eight ball, and runs
votes on boiling a server member.

- `src/` is the verified library (Verus): the decisions of each command as
  step functions from a state and an event to the next state and an action,
  the vote count, the placement of a rank on a map, every message and
  address the bot writes, and decimal rendering. `src/foreign.rs` holds the
  few calls into `rand`, `hhmmss` and std's upper-casing, with the contracts
  that are trusted of them.
- `app/` is the bot itself: Discord (poise/serenity), HTTP (reqwest), the
  link table (sqlx/SQLite), JSON, image composition (magick_rust) and the
  floating-point group bounds of a map. It performs the actions that the
  library asks for and hands back what happened.
- `tests/` runs the library on concrete values.
