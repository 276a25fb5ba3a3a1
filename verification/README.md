# p4x_eye

Verified control logic of the ESP32-P4X-EYE camera.

- `src/` is the library, verified with Verus: the button and encoder-switch
  debouncing (`debounce`, `buttons`), the quadrature decoder (`rotary`), the
  live-view overlay state machine (`live_view`), the main loop's input and
  capture decisions (`control`) and the boot animation schedule
  (`boot_animation`). Each module states its behaviour over an abstract view
  and proves the laws of that behaviour as proof functions.
- `app/` is the firmware around it: board wiring, GPIO, SPI display, camera
  and MicroSD drivers, the encoder sampling task and the main loop. It reads
  the hardware and hands pin levels and nanosecond timestamps to the library.
- `tests/` exercises the library on concrete inputs.
