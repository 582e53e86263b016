# Raspberry Switch Controller

Bridges Xbox wireless controllers to a Nintendo Switch: a Raspberry Pi 4 poses
as up to eight Switch Pro Controllers on the Switch's USB port, and forwards
what is pressed on the Xbox pads, and the rumble back to them.

The logic is a library verified with Verus. The program around it does the
input and output.

## Library (`src/`)

| Module | Holds |
|--------|-------|
| `models` | Inputs, controllers, commands; remapping controllers to slots |
| `switch_proto` | Reports of a Pro Controller: input, handshake, subcommands, SPI ROM |
| `levels`, `rumble` | The rumble stream: amplitude levels and the decoder |
| `slot` | One slot's connection to the host |
| `mapping` | Xbox buttons and sticks to Switch ones |
| `bridge` | Battery byte, slot assignment, polling |
| `motors` | Force-feedback effects of the pads |
| `command` | Commands of the web page, manual vibration |
| `engine` | Controllers, slots and motors kept in step |
| `gadget`, `hex` | Steps that build the USB gadget and take it down |
| `web`, `page` | Forms, event stream and contents of the web page |
| `ui` | The terminal page |
| `wiimote` | Setting up and reading a Wii Remote |
| `config`, `text`, `search` | Option limits, decimal numbers, linear search |

Functions state what they return in their contracts. What holds across
functions is stated by the public proof functions named `law_..`: for example
that the host can read every button back from a report
(`switch_proto::law_report_round_trip`), that what is pressed on a pad reaches
the host through the pad's slot (`bridge::law_pad_reaches_host`), that a slot
is silent until the host opens it (`slot::law_closed_until_opened`), or that no
two controllers ever share a slot (`engine::law_engine_stays_in_step`).

Floating point stays outside: the program turns stick and trigger axes into
12-bit steps and percents before it hands them over.

## Program (`app/`)

`app/main.rs` parses the options, builds the gadget and starts one thread per
slot, the gamepad thread and the web server. It needs root, and the scripts and
the style sheet of the web page under `web/static`.

```
raspberry-switch-controller [OPTIONS]

  --controllers <N>        Number of slots to expose (1-8) [default: 4]
  -p, --polling-rate <HZ>  Polling rate in Hz (20-1000) [default: 250]
  --web-addr <ADDR>        Address of the web page [default: 0.0.0.0:8080]
  --no-web                 Disable the web page
  --no-gadget              Skip the USB gadget (for work on the page)
```

## Limits

Motion controls and player light order are not implemented. Slots without a pad
still appear as connected controllers on the Switch.
