# lorawan

A LoRaWAN 1.0.4 end device stack (class A, EU868 and US915, dynamic and fixed channel
plans) whose logic is verified with Verus.

- `src/` is the verified library: frame encoding and parsing, MAC commands, regional
  parameters, channel plans, and the MAC layer's decisions (joining, preparing uplinks,
  taking in downlinks and their MAC commands, ADR back-off, the schedulers' next steps).
  AES-128 and AES-CMAC come from the `aes` and `cmac` crates, and the queue of pending
  MAC command answers is a `heapless::Vec`; each of these calls stands behind a small
  trusted wrapper whose contract is stated in `src/encoding/default_crypto.rs` and
  `src/mac/uplink_queue.rs`.
- `app/` holds what touches the hardware: the device traits that the caller implements
  (timer, radio, random numbers, persistent storage), the join and send exchanges over
  the radio, the join and class A/C schedulers, and the serde form of the persisted state.
- `tests/` exercises the library on concrete values.

The properties that span several operations (replayed frames are refused, what is
persisted restores the same state, a prepared uplink is accepted by a network server with
the session keys, channel draws pick enabled channels, ...) are proof functions in
`src/mac/laws.rs` and `src/mac/mac_1_0_4/encoding/laws.rs`.
