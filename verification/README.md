# daisy_pod_embassy

Board support for the Electrosmith Daisy Pod on top of the Daisy Seed and
`daisy-embassy`.

- `src/peri.rs` (verified): the pod's pinout. `DaisyPodPeripherals::new`
  hands the Seed's header pins and the ADC1, ADC2, USART1 and USB_OTG_HS
  peripherals to the pod's switches, LEDs, pots, encoder, MIDI jack, USB port
  and expansion header; its contract states where each one goes, that the
  Seed's board-level resources pass through unchanged, and that no header pin
  is handed out twice.
- `src/controls.rs` (verified): the colour cycle of the RGB LEDs and the
  decoding of the rotary encoder used by the peripheral demo.
- `app/`: the embassy-typed peripheral handles, a bridge from them to the
  verified model, and the demo's async tasks.
