# can_hal

Hardware-agnostic CAN bus types and the protocol logic of three CAN backends,
written in Verus and proved against their contracts.

## Layout

- `src/` — the verified library:
  - `id`, `frame`, `filter`, `bus`, `timing`, `channel`: identifiers, classic
    and FD frames, acceptance filters, bus state, sample points, and the
    channel traits backends implement.
  - `isotp`: ISO 15765-2 transport — PDU encoding and parsing, segmentation
    into frames, the sender's state machine (flow control and STmin pacing),
    reassembly, and the channel that sends and receives over any backend.
    The channel logs, as ghost state, the frames it transmits and receives
    and every exchange with the CAN channel in order; its contracts state
    its results, the order of Flow Control, and the channel errors it hands
    back over those logs, and a message one channel sends is received
    intact by a matching peer.
  - `bittiming`: the FD bit-timing search shared by the PCAN and KVASER
    backends: exact bitrate, then the best-ranked candidate, compared
    exactly as fractions. PCAN ranks by closest sample point, then nearest
    the preferred quanta count; KVASER by one score, the sample-point error
    plus a thousandth per quantum away from the preferred count.
  - `kvaser`, `pcan`, `socketcan`: each backend's decisions — timing solve
    and parameter records, builders that validate eagerly, filter merging,
    identifier and frame conversions, status decoding.
- `tests/` — tests against the compiled library.
- `app/` — the glue the library cannot hold: loading the vendor shared
  libraries, FFI and socket calls, receive-event waits, the ISO-TP send loop's
  sleeps, and `Display`/`Error` for the error types.
