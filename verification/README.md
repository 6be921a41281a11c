# eui_board

The protocol logic of a small STM32F4 board that talks to ElectricUI over a
serial line, as a Verus-verified library, and the RTIC firmware around it.

- `src/wire.rs`: the packet layout as spec functions over bytes, and the calls
  into `electricui_embedded`'s `Packet` that read and write its fields.
- `src/packet.rs`: building an outgoing packet and framing it (COBS).
- `src/rx_decoder.rs`: the stream decoder with a record of what it was fed.
- `src/request.rs`, `src/rx.rs`: decoding received bytes and reading what a
  packet asks.
- `src/reply.rs`, `src/handler.rs`: the board's variables and the packets
  that answer each request.
- `src/blink.rs`, `src/clock.rs`, `src/serial.rs`: the blink loop, the
  millisecond clock and the DMA transfer states.
- `app/`: the firmware (hardware set-up, queues, DMA, RTIC tasks).
