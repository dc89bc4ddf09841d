# fullerene_usb

The USB device stack of the Fullerene kernel on the Bramble (SM7250) board:
a Synopsys DWC3 controller behind the Qualcomm glue, its USB2 and QMP PHYs,
the Apps-SMMU in front of its DMA, and a small debug transport on the bulk
pair. The decisions of the stack are a library verified with Verus; the
register accesses, the architectural counter and the platform calls are a
thin glue crate around it.

## Layout

- `src/` — the verified library.
  - `start_sequence`, `usb2_handoff`, `reuse_handoff` — the controller
    starts (cold, SuperSpeed handoff, USB2 handoff, staged handoff probe)
    as step machines: the glue performs each step and reports its outcome,
    the library names the next step; invariants show that Run/Stop is only
    set once EP0 and the DMA map are ready.
  - `handoff`, `control`, `config`, `phy`, `phy_tables`, `power` — the
    register values and policies those steps program.
  - `ep0`, `ep0_recovery`, `endpoint`, `events`, `gsi` — the control
    endpoint lifecycle, endpoint commands and TRBs, the event ring, the
    Qualcomm GSI channels.
  - `smmu` — the Apps-SMMU stream, context and page-table decisions,
    including the identity tables for the DMA pool; `smmu_configure`
    orders them into the configuration's step machine.
  - `harvest`, `gate`, `readout`, `signal`, `probe` — the trace harvest,
    the one-bit readouts and probes of the bring-up.
  - `debug_transport` — the FDBG request channel and the ADB transport.
  - `bytes`, `mmio`, `usb` — byte and number helpers, the register map,
    shared small decisions.
- `tests/` — tests of the library on concrete values.
- `app/` — the glue: volatile register access, the counter, the event,
  start and SMMU configuration loops, the park.
