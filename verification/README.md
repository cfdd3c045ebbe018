# boorubot

A Discord bot that answers `/help` and `/booru`; `/booru` searches Gelbooru for images
while keeping blacklisted, blocked and (in SFW channels) NSFW tags out of the results.

- `src/` is the verified library (Verus): option handling, tag checks, the exclusions
  added to every search, rating rules, the answers, and the command declarations.
  - `text.rs`: string helpers over character sequences (search, join, decimal).
  - `config.rs`: the configuration and where it is looked for.
  - `interaction.rs`: answers, options, command declarations, routing and channel rules.
  - `commands/booru.rs`, `commands/help.rs`: the two commands, with the laws of `/booru`.
- `app/` is the program around it: Discord (serenity), the Gelbooru request (booru-rs),
  reading `config.toml`, and logging.
- `tests/` runs the library on concrete inputs.
