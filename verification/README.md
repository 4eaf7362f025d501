# tews_circuit

Bookkeeping for a Discord challenge ladder, verified with Verus.

- `src/` is the verified library: tiers and their thresholds (`rank`,
  `rank_order`), players, streak bonuses and the point changes of wins and
  losses (`player`), match settlement and challenge replies (`matches`), the
  reading and storing of match dates (`schedule`), database failure
  classification (`errors`), and decimal text of user ids (`decimal`, `text`).
- `app/` is the bot itself: the Discord commands, the SQLite database and the
  background disqualification routine. It reads and writes, and hands every
  decision to the library.
- `tests/` exercises the library on concrete values.
