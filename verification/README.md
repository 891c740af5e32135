# Neotron BMC

Firmware for the Board Management Controller (BMC) of a Neotron Pico. The BMC
controls the power, the reset line, the UART and the PS/2 ports of the
mainboard, and answers requests that the host sends over SPI.

* `src/` is the library that makes the decisions, verified with Verus. Each task
  of the firmware is a function from the state it owns and what the hardware
  says to its new state and the actions to perform.
  * `protocol`, `registers`: requests, responses, and the registers they read
  * `message`, `idle`: the message queue, and what a message leads to
  * `power`, `led`, `buttons`, `interrupts`, `startup`: the other tasks
  * `action`: what the tasks ask of the hardware
  * `fifo`: the keyboard buffer
  * `laws`: what holds of the controller as a whole
* `tests/` runs the library.
* `app/` is the firmware: it sets up the STM32F0, reads it, and performs the
  actions. It needs the board support library `neotron_bmc_pico`, which has the
  SPI peripheral driver, the PS/2 decoder and the panic handler.

Calls into `heapless`, `debouncr`, `neotron-bmc-protocol` and
`neotron-bmc-commands` go through small functions whose doc comments say what is
taken for granted of them.
