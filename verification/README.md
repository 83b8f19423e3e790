# genshin_map_functions

The rules behind the invitation and scoring endpoints of the map backend,
proved with Verus.

- `src/` — the verified library:
  - `role` — system-user roles and their numbers 0–5;
  - `paging` — the row offset of a page;
  - `decimal` — decimal text of integers;
  - `error` — refusals and their messages;
  - `invitation` — invitations, their list rows, and the user that consuming
    one creates;
  - `invitation_flow` — list, update, info, consume and delete as step
    functions from a flow and an event to the next flow and an action;
  - `score` — the score statistics query, the samples of the rows read, and
    the (empty) generated samples.
- `app/` — the async endpoints: they run the flows against the database,
  read the clock, check the caller, hash passwords and build the JSON.
- `tests/` — tests of the library on concrete values.
