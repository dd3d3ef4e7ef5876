# asciitubing

Streams a webcam into the terminal as coloured ASCII art.

- `src/` is the verified library: the colour effects' integer rules
  (`color`, `palette`), the brightness ramps (`ramp`), the keyboard
  controls and frame planning (`controls`), the glitch columns (`glitch`),
  face-rectangle tests and pixel counts (`frame`), and the status bar and
  snapshot text (`text`).
- `app/` is the program: camera capture and image processing through
  OpenCV, terminal I/O through crossterm, and the effects that compute
  with floating point.
