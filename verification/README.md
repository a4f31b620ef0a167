# pong

The rules of a two-player pong game, verified with Verus: paddles that move
while their keys are held, a ball that bounces off the walls and speeds up
off the paddles, scoring to six, a character select with a sweeping
background, and the layout of every screen.

- `src/` is the library; every function there carries a contract that Verus
  proves.
- `tests/` runs the library on concrete values.
- `app/` is the program around it: the window, the keyboard, the sound and
  the frame clock. Run it with `kirbo` as its argument for the variant with
  character select; without, it plays the plain match.
