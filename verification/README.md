# nes_emulator

A NES emulator core whose behaviour is stated in contracts and proved with Verus.

- `src/` is the verified library: the 6502 CPU (`machine`, `instruction`, `debug`, `status`),
  the NES bus, controller and frame loop (`nes`, `dynamic_nes`, `timing`), the PPU (`ppu`),
  the NROM and MMC1 cartridges (`mapper`), iNES images (`ines`), rendering targets
  (`render_output`, `nes_headless_frame`, `nes_name_table_debug`, `nes_palette`), what a
  frontend's window events and frame ticks decide (`input`), a static analyser of 6502
  programs (`analyser`), and a memory image for assembling programs (`assembler`,
  `samples`). Each public function states what it returns or changes; the laws that relate
  several functions are public proof functions next to them, and `stack_laws` states the
  stack instructions' laws for any memory that is RAM on the stack page.
- `tests/` runs the library on concrete programs and images.
- `app/` is the command-line program: it reads an iNES image from a file or standard input,
  runs it without a window for a given number of frames (`-e`) and prints a hash of the last
  frame.

What the program does not do:

- There is no graphical frontend: without `-e` the program says so and stops. The window,
  input and GIF recording code needs windowing and graphics libraries this build does not
  link. The colour table the GIF recording used is `nes_palette::animation_colour_table`; the
  decisions that code made (what each key and window event does, when to quit or
  autosave) are in `input`.
- State files (`-l`) are not supported: they hold the whole machine in serde's serialised
  form, and the machine types of the library carry no serde implementations.
- The sample programs that were written against a separate 6502 assembler library (a Conway
  life program, a butterfly demo, an APU experiment) are not included: that assembler is not
  part of this build. Their pure helper for packing a text picture into bytes is
  `samples::test_image_bits`.
