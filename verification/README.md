# ether

The logic of Ether, a Discord bot for role-play communities, with every
contract of the library proved.

- `src/` is the verified library: warning lengths and texts (`warnings`),
  profiles and their browser (`profile`), posting as a profile through
  webhooks (`hooks`), the profile cache (`cache`), the Ruin guild's
  character registry (`ruin`), link traversal (`link_traversal`), the
  shared embed look (`embeds`), the stats figures (`stats`), guild settings
  (`structures`), custom-command types (`custom_commands`), a multi-key map
  (`multi_key_map`) and text helpers (`text`).
- `app/` is the bot itself: it talks to Discord (poise, serenity), MongoDB
  and the network, and asks the library what to do.
- `tests/` runs the library on concrete values.
