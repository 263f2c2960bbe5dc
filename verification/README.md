# happy_garden

The verified core of a garden irrigation controller (a Raspberry Pi Pico
board running FreeRTOS): the event flags shared by its tasks, the main
start-up state machine, the AT command line (sessions, users, zones,
schedules, system commands), the sprinkler scheduler, the display widgets
and screens with their router, and the decisions of the LED and wifi tasks.

- `src/` is the library, written in Verus: every function carries a
  contract that Verus proves. The only trusted item is the call into
  at-parser-rs that splits the arguments of a command (`command_args.rs`).
- `app/` holds one turn of each task around the library, which the
  firmware's task loops call: the AT parser's handlers, the display turn
  that renders the screens' frames and carries out their effects, the main
  state machine's turn, and the settings files (loaded at start-up with the
  library's decisions, the defaults written back where needed). The board
  itself (clock, LCD, serial port, LED, digest engine), the file system and
  the JSON binding are reached through traits that the firmware implements.
- `tests/` runs the library on concrete values.
