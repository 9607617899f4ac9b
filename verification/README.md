# Glimt

Screenshots and screen recordings from the tray.

PrtSc freezes the screen on every monitor: drag to select an area, annotate it, then copy it
with Ctrl+C or save it with Ctrl+S. Shift+PrtSc picks a region of the live screen and records
it as MP4 or GIF.

- `src/` is the verified core: geometry, the course of a capture, the region picker, the
  control pill, the pace of a recording, exports, names of files, and what the program does
  with its messages. Coordinates are fixed point, 65536 units to a pixel.
- `app/` is the program around it: windows, drawing, files, the clipboard, and the encoders.
- `tests/` runs the core.
