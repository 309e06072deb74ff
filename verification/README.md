# chip8

A CHIP-8 interpreter whose core is verified with Verus.

- `src/` is the verified library: the machine state (`machine`), every
  implemented instruction (`instructions`, `draw`), the keypad (`keypad`),
  fetch/decode/execute (`cycle`), the pixel layout of the display
  (`screen`), the stop message and the register dump (`message`),
  and properties relating instructions (`laws`). Each instruction's effect
  is a function on the model `Machine`, which the executable method's
  contract refers to.
- `app/` is the program around it: the SDL window and event loop, file
  loading and logging.
- `tests/` runs the library on concrete programs and values.
