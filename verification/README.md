# rufs

The core of a driver for UFS host controllers, verified with Verus.

The library decides; it performs no I/O. Register accesses are values (`reg::RegOp`), and what a
platform answers comes in as an argument. The descriptors that the controller reads and writes are
kept as values too (`dma::UfsDma`), so that what goes over the wire can be stated byte by byte.

- `src/` is the library.
  - Wire formats: `endian`, `descriptor`, `query`, `scsi`, `upiu`, `hci`.
  - Registers and rings: `reg`, `mcq`, `mcq_setup`, `uic`, `irq`.
  - Transfers: `transfer` (configuration), `command` (task tags), `prdt` (region tables), `dma`
    (descriptors), `request`, `completion`, `recovery`, and `queue`, which ties them together.
  - Devices: `lu` (logical units), `dev` (the device), `host` (bring-up and removal), `variant`,
    `resource`, `pci`, `qcom`.
  - The block layer's side: `block` and its modules.
  - Peripherals: `phy`, `interconnect`, `gpio`, `reset`.
- `tests/` runs the library on concrete values.
- `app/` performs on a platform what the library decides: registers, memory, interrupts, time and
  the block layer are traits there.

What holds across calls is stated by the public proof functions named `law_*`: among others that a
tag in use is not handed out again, that a completion is claimed once, that no interrupt is lost,
that nothing is submitted while recovery is needed, and that a controller that may have been enabled
is stopped when bringing it up fails.
