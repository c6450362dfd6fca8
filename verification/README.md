# fancontroller

A library, verified with Verus, that finds, reads and drives the fans of a machine, and the
program around it.

But for the questions to NVML in `src/nvml.rs`, the library performs no input or output. What it
wants of ports, drivers and services it asks for, one request at a time: an operation runs on the
replies that are in so far and returns the next request while replies are missing.
`src/session.rs` describes this, and what each operation asks for is stated in its contract.

| Module | Subject |
| --- | --- |
| `session` | conversations with hardware and drivers |
| `ports`, `nuvoton`, `nct6687`, `ite`, `fintek` | I/O ports and the registers of the chip families |
| `superio`, `board` | finding the SuperIO chip, and a model of a motherboard with one |
| `system`, `guarantees` | the motherboard's fans, and what holds of them over several operations |
| `nvidia`, `nvml`, `nvapi`, `amd` | graphics cards |
| `wmi`, `monitor` | the hardware monitor that stands in where the chip cannot be reached |
| `driver` | getting hold of the driver for port access |
| `daemon`, `ipc` | running in the background, and the messages of the user interface |
| `fan`, `text` | what is known of a fan, and texts |

`app/` is the program: it performs the requests and shows the fans. `tests/` runs the library
against simulated chips, drivers and services.
