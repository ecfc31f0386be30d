# speki review logic

The key handling of speki's review tab and of its card search, verified with
Verus.

- `src/` is the library. `review::nav` moves the focus between the panes of a
  card or a reading text, `review::event` turns a key press into the next view
  and a step for the application, `review::dispatch` plans the commands that
  carry out a step's action, `find_card` handles the card search and
  `statelist` the highlighted row of a list. `laws` holds the properties that
  span several of these functions.
- `app/` carries the plans out against the card store, the text fields and the
  terminal (drawn with `tui`).
- `tests/` runs the library on concrete key presses.
