# pico_demo_device

The logic of a small networked device: a microcontroller board with an LED and a temperature sensor.
It takes commands as lines of text, keeps its configuration in flash, joins a wireless network and
reports its state to an MQTT broker.

- `src/` is the device itself, written and proved in Verus. Every operation is a method that makes
  one step: it is given where the operation stands and the reply to the last effect, and it says
  which effect comes next or what the operation results in.
- `app/` performs the effects on the hardware, reads and writes JSON, and converts raw sensor
  readings.
- `tests/` runs the library on concrete values.

| module | what it holds |
| --- | --- |
| `text` | fixed-capacity strings |
| `wire`, `config` | the configuration and its stored form |
| `command` | the command lines |
| `temperature` | printing temperatures |
| `description` | the description of a configuration |
| `mqtt` | topics, client names and broker addresses |
| `effect` | effects, replies and steps |
| `device` | the device, its builder and its state |
| `history` | what an operation has done so far |
| `storage`, `execute`, `network`, `lifecycle` | the operations of the device |
