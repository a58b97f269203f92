# AFK Companion bot

A headless Minecraft companion bot: it follows its owner, fights hostile mobs,
eats, keeps a totem in its offhand, mines a marked box, and pulls its owner home
through a stasis chamber. A Fabric mod drives it over a local WebSocket, and the
owner can command it by private message in game.

## Layout

- `src/` is the library, verified with Verus: the JSON command protocol and
  each bot's runtime state (`shared`), the whisper commands (`handler`), item
  and mob knowledge and inventory choices (`identity`), the per-tick decisions
  and their priority order, survive before combat before movement
  (`behavior`), the long jobs (`tasks`), what is read out of an entity scan
  (`world_scan`), the configuration and its console menu (`config`), random
  timing (`human`), and the text, JSON and floating-point bit-pattern helpers
  they are built from (`text`, `json`, `floats`).
- `app/` is the program around it: the console, `config.json` on disk, the
  WebSocket bridge, and the azalea client that reads the world and carries out
  the library's decisions. The decisions made on floating-point geometry stay
  there too: which hostile is in reach and when to swing at it, the mining
  reach, path following and smooth head turns.
- `tests/` exercises the library.
