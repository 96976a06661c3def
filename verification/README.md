# canva_test

The logic of a desktop shell for trying out a painting engine by hand: which brush, layer,
selection and recording settings are in force, how pen, touch and pointer events become
strokes, what is measured about them on the way, and how a recorded session is replayed.

- `src/` is the library. Every function has a contract that Verus proves.
  - `scalar`, `range`, `geometry`, `text`: binary32 and binary64 values as bit patterns,
    extremes of batches, points and rectangles, and numbers in decimal notation.
  - `brush`, `stamp`, `capture`, `config`, `fonts`: settings, and what they ask of the engine.
  - `input`, `lead`, `latency`, `audit`: routing of samples, the raw trail ahead of the
    stabilized stroke, and what is recorded about both.
  - `layers`, `selection`, `command`, `viewport`: what the panels and the mouse edit.
  - `trace`, `replay`, `recording`: recorded sessions.
  - `shell`, `status`: the shell from one user action to the next, and what it says.
  - `feed`, `ending`, `making`, `rebuilding`: what the engine does step by step, with the
    samples of a frame, at the end of a stroke, for a new canvas and for a rebuilt one.
  - `frame`: a whole frame as its steps, and what previews may not change about it.
- `tests/` runs the library on concrete values.
- `app/` is the window around it: egui, the engine, the input layer, and every sum, product
  and root of floating-point numbers.

Floating-point values are carried as bit patterns. The library compares, limits and rounds
them; where it needs a distance or a mean, it is handed a function that computes it.
