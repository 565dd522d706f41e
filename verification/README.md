# phytium_mci

A driver for the SD/MMC host controller (MCI / SDIF) of Phytium E2000 SoCs and
the SD cards attached to it, written in Verus: the register-level operations,
the SD protocol layer and the card's register decoders carry contracts that
Verus proves.

## Layout

- `src/regs.rs` — register windows. Every access, and every word written to
  the memory the DMA engine reads, goes through a platform `RegisterIo`
  implementation and is recorded in a ghost trace, so contracts can say which
  registers an operation reads and writes and which descriptors it puts in
  memory.
- `src/mci/` — the controller: configuration, clock and timing tables,
  commands, programmed I/O through the FIFO, DMA descriptor chains,
  interrupts.
- `src/mci_host/` — the host layer: commands and transfers with a ghost log of
  every command run (`mci_sdif/`), the SD card state machine and protocol
  (`sd/`), and the decoders of the CID, CSD and SCR registers.
- `src/iopad/` — pin multiplexing, pull, drive strength and delay settings.
- `src/osa/` — the transfer buffer and a counting semaphore.
- `src/tools.rs` — byte and half-word order swaps.
- `app/` — platform glue that Verus does not see: volatile register access,
  cache maintenance, the TLSF memory pool, and printing of card summaries.
- `tests/` — tests, among them a simulated SD card that answers the driver's
  commands.
