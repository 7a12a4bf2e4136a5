//! How the Daisy Pod wires the Daisy Seed's header pins and on-chip
//! peripherals to its switches, LEDs, pots, encoder, MIDI jack, USB port and
//! expansion header (pinout: https://daisy.audio/product/Daisy-Pod/#pinout).
//!
//! Every resource is modelled by its identity: a GPIO pin by its port and
//! number, an on-chip peripheral by its instance. The hardware handles that
//! embassy hands out carry exactly this identity in their types; the wiring
//! below is what hands each of them to its function on the pod.
use vstd::prelude::*;

verus! {

/// A GPIO port of the STM32H750 (port A is the first).
#[derive(Clone, Copy, Debug, PartialEq, Eq, Structural)]
pub enum Port {
    A,
    B,
    C,
    D,
    E,
    F,
    G,
    H,
    I,
    J,
    K,
}

/// One GPIO pin of the microcontroller, such as PG9.
#[derive(Clone, Copy, Debug, PartialEq, Eq, Structural)]
pub struct GpioPin {
    pub port: Port,
    pub number: u8,
}

/// An on-chip peripheral that the pod claims besides GPIO pins.
#[derive(Clone, Copy, Debug, PartialEq, Eq, Structural)]
pub enum OnChipPeripheral {
    Adc1,
    Adc2,
    Usart1,
    UsbOtgHs,
}

/// The 31 header pins of the Daisy Seed, `d0` to `d30`.
#[derive(Clone, Copy, Debug, PartialEq, Eq, Structural)]
pub struct DaisyPins {
    pub d0: GpioPin,
    pub d1: GpioPin,
    pub d2: GpioPin,
    pub d3: GpioPin,
    pub d4: GpioPin,
    pub d5: GpioPin,
    pub d6: GpioPin,
    pub d7: GpioPin,
    pub d8: GpioPin,
    pub d9: GpioPin,
    pub d10: GpioPin,
    pub d11: GpioPin,
    pub d12: GpioPin,
    pub d13: GpioPin,
    pub d14: GpioPin,
    pub d15: GpioPin,
    pub d16: GpioPin,
    pub d17: GpioPin,
    pub d18: GpioPin,
    pub d19: GpioPin,
    pub d20: GpioPin,
    pub d21: GpioPin,
    pub d22: GpioPin,
    pub d23: GpioPin,
    pub d24: GpioPin,
    pub d25: GpioPin,
    pub d26: GpioPin,
    pub d27: GpioPin,
    pub d28: GpioPin,
    pub d29: GpioPin,
    pub d30: GpioPin,
}

impl DaisyPins {
    /// The header pins in header order: entry `i` is pin `d{i}`.
    pub open spec fn header(self) -> Seq<GpioPin> {
        seq![
            self.d0, self.d1, self.d2, self.d3, self.d4, self.d5, self.d6, self.d7,
            self.d8, self.d9, self.d10, self.d11, self.d12, self.d13, self.d14, self.d15,
            self.d16, self.d17, self.d18, self.d19, self.d20, self.d21, self.d22, self.d23,
            self.d24, self.d25, self.d26, self.d27, self.d28, self.d29, self.d30,
        ]
    }
}

/// The Seed's user LED, driven through its own pin.
#[derive(Clone, Copy, Debug, PartialEq, Eq, Structural)]
pub struct UserLed {
    pub pin: GpioPin,
}

/// The Seed's audio codec bundle (codec pins, SAI1, I2C2, two DMA channels),
/// which the pod leaves to the application as it is.
#[derive(Clone, Copy, Debug, PartialEq, Eq, Structural)]
pub struct AudioPeripherals;

/// The Seed's QSPI flash bundle, left to the application as it is.
#[derive(Clone, Copy, Debug, PartialEq, Eq, Structural)]
pub struct FlashBuilder;

/// The Seed's SDRAM bundle, left to the application as it is.
#[derive(Clone, Copy, Debug, PartialEq, Eq, Structural)]
pub struct SdRamBuilder;

/// The Seed's own USB port (USB_OTG_FS with its two data pins), left to the
/// application as it is.
#[derive(Clone, Copy, Debug, PartialEq, Eq, Structural)]
pub struct UsbPeripherals;

/// Everything the Daisy Seed board hands out.
#[derive(Clone, Copy, Debug, PartialEq, Eq, Structural)]
pub struct DaisyBoard {
    pub pins: DaisyPins,
    pub user_led: UserLed,
    pub audio_peripherals: AudioPeripherals,
    pub flash: FlashBuilder,
    pub sdram: SdRamBuilder,
    pub usb_peripherals: UsbPeripherals,
    /// The on-board "BOOT" button.
    pub boot: GpioPin,
}

/// The two tact switches.
#[derive(Clone, Copy, Debug, PartialEq, Eq, Structural)]
pub struct TactSwitches {
    pub tac_switch_1: GpioPin,
    pub tac_switch_2: GpioPin,
}

/// The red, green and blue pins of RGB LED 1.
#[derive(Clone, Copy, Debug, PartialEq, Eq, Structural)]
pub struct RGBLed1 {
    pub r: GpioPin,
    pub g: GpioPin,
    pub b: GpioPin,
}

/// The red, green and blue pins of RGB LED 2.
#[derive(Clone, Copy, Debug, PartialEq, Eq, Structural)]
pub struct RGBLed2 {
    pub r: GpioPin,
    pub g: GpioPin,
    pub b: GpioPin,
}

/// Potentiometer 1: its analog pin and the ADC that samples it.
#[derive(Clone, Copy, Debug, PartialEq, Eq, Structural)]
pub struct Pot1 {
    pub pin: GpioPin,
    pub adc: OnChipPeripheral,
}

/// Potentiometer 2: its analog pin and the ADC that samples it.
#[derive(Clone, Copy, Debug, PartialEq, Eq, Structural)]
pub struct Pot2 {
    pub pin: GpioPin,
    pub adc: OnChipPeripheral,
}

/// The rotary encoder: its two quadrature pins and its push button.
#[derive(Clone, Copy, Debug, PartialEq, Eq, Structural)]
pub struct RotaryEncoder {
    pub enc_a: GpioPin,
    pub enc_b: GpioPin,
    pub enc_click: GpioPin,
}

/// The MIDI input jack: its receive pin and the USART that reads it.
#[derive(Clone, Copy, Debug, PartialEq, Eq, Structural)]
pub struct MidiJack {
    pub pin: GpioPin,
    pub usart: OnChipPeripheral,
}

/// The pod's USB port: ID and data pins and the high-speed OTG controller.
#[derive(Clone, Copy, Debug, PartialEq, Eq, Structural)]
pub struct UsbPeri {
    pub usb_id: GpioPin,
    pub usb_d_plus: GpioPin,
    pub usb_d_minus: GpioPin,
    pub usb_peri: OnChipPeripheral,
}

/// The header pins that the pod routes to its expansion header.
#[derive(Clone, Copy, Debug, PartialEq, Eq, Structural)]
pub struct ExpansionPins {
    pub d7: GpioPin,
    pub d8: GpioPin,
    pub d9: GpioPin,
    pub d10: GpioPin,
    pub d11: GpioPin,
    pub d12: GpioPin,
    pub d16: GpioPin,
    pub d22: GpioPin,
}

/// Everything a Daisy Pod application works with: the pod's own controls and
/// the Seed's board-level resources.
#[derive(Clone, Copy, Debug, PartialEq, Eq, Structural)]
pub struct DaisyPodPeripherals {
    pub tact_switches: TactSwitches,
    pub rgb_led1: RGBLed1,
    pub rgb_led2: RGBLed2,
    pub pot1: Pot1,
    pub pot2: Pot2,
    pub rotary_encoder: RotaryEncoder,
    pub midi_jack: MidiJack,
    pub usb_peri: UsbPeri,
    pub expansion_pins: ExpansionPins,
    pub user_led: UserLed,
    pub audio_peripherals: AudioPeripherals,
    pub flash: FlashBuilder,
    pub sdram: SdRamBuilder,
    pub usb_peripherals: UsbPeripherals,
    /// The on-board "BOOT" button.
    pub boot: GpioPin,
}

/// The header pin (its index `i` in `d{i}`) behind each entry of
/// `DaisyPodPeripherals::header_pins`, in the same order.
pub open spec fn pod_header_indices() -> Seq<int> {
    seq![
        27, 28,  // tact switches 1 and 2
        20, 19, 18,  // RGB LED 1: r, g, b
        17, 24, 23,  // RGB LED 2: r, g, b
        21, 15,  // pots 1 and 2
        26, 25, 13,  // encoder: a, b, click
        14,  // MIDI in
        0, 30, 29,  // USB: id, d+, d-
        7, 8, 9, 10, 11, 12, 16, 22,  // expansion header
    ]
}

impl DaisyPodPeripherals {
    /// Every header pin the pod uses, in the order of `pod_header_indices`.
    pub open spec fn header_pins(self) -> Seq<GpioPin> {
        seq![
            self.tact_switches.tac_switch_1, self.tact_switches.tac_switch_2,
            self.rgb_led1.r, self.rgb_led1.g, self.rgb_led1.b,
            self.rgb_led2.r, self.rgb_led2.g, self.rgb_led2.b,
            self.pot1.pin, self.pot2.pin,
            self.rotary_encoder.enc_a, self.rotary_encoder.enc_b, self.rotary_encoder.enc_click,
            self.midi_jack.pin,
            self.usb_peri.usb_id, self.usb_peri.usb_d_plus, self.usb_peri.usb_d_minus,
            self.expansion_pins.d7, self.expansion_pins.d8, self.expansion_pins.d9,
            self.expansion_pins.d10, self.expansion_pins.d11, self.expansion_pins.d12,
            self.expansion_pins.d16, self.expansion_pins.d22,
        ]
    }

    /// The pod's pinout: which Seed header pin each control sits on, and that
    /// the Seed's board-level resources are handed on unchanged.
    pub open spec fn wired_from(self, board: DaisyBoard) -> bool {
        let p = board.pins;
        &&& self.tact_switches == TactSwitches { tac_switch_1: p.d27, tac_switch_2: p.d28 }
        &&& self.rgb_led1 == RGBLed1 { r: p.d20, g: p.d19, b: p.d18 }
        &&& self.rgb_led2 == RGBLed2 { r: p.d17, g: p.d24, b: p.d23 }
        &&& self.pot1.pin == p.d21
        &&& self.pot2.pin == p.d15
        &&& self.rotary_encoder == RotaryEncoder { enc_a: p.d26, enc_b: p.d25, enc_click: p.d13 }
        &&& self.midi_jack.pin == p.d14
        &&& self.usb_peri.usb_id == p.d0
        &&& self.usb_peri.usb_d_plus == p.d30
        &&& self.usb_peri.usb_d_minus == p.d29
        &&& self.expansion_pins == ExpansionPins {
            d7: p.d7,
            d8: p.d8,
            d9: p.d9,
            d10: p.d10,
            d11: p.d11,
            d12: p.d12,
            d16: p.d16,
            d22: p.d22,
        }
        &&& self.user_led == board.user_led
        &&& self.audio_peripherals == board.audio_peripherals
        &&& self.flash == board.flash
        &&& self.sdram == board.sdram
        &&& self.usb_peripherals == board.usb_peripherals
        &&& self.boot == board.boot
    }

    /// Hands the Seed's pins and the given peripherals to the pod's controls:
    /// pot 1 is sampled by ADC1 and pot 2 by ADC2, the MIDI jack is read by
    /// USART1, and the pod's USB port runs on USB_OTG_HS.
    pub fn new(
        board: DaisyBoard,
        adc1: OnChipPeripheral,
        adc2: OnChipPeripheral,
        usart: OnChipPeripheral,
        usp_peri: OnChipPeripheral,
    ) -> (r: Self)
        requires
            adc1 == OnChipPeripheral::Adc1,
            adc2 == OnChipPeripheral::Adc2,
            usart == OnChipPeripheral::Usart1,
            usp_peri == OnChipPeripheral::UsbOtgHs,
        ensures
            r.wired_from(board),
            r.pot1.adc == adc1,
            r.pot2.adc == adc2,
            r.midi_jack.usart == usart,
            r.usb_peri.usb_peri == usp_peri,
            forall|i: int|
                0 <= i < r.header_pins().len() ==> r.header_pins()[i]
                    == board.pins.header()[pod_header_indices()[i]],
            board.pins.header().no_duplicates() ==> r.header_pins().no_duplicates(),
    {
        let p = board.pins;
        let r = Self {
            tact_switches: TactSwitches { tac_switch_1: p.d27, tac_switch_2: p.d28 },
            rgb_led1: RGBLed1 { r: p.d20, g: p.d19, b: p.d18 },
            rgb_led2: RGBLed2 { r: p.d17, g: p.d24, b: p.d23 },
            pot1: Pot1 { pin: p.d21, adc: adc1 },
            pot2: Pot2 { pin: p.d15, adc: adc2 },
            rotary_encoder: RotaryEncoder { enc_a: p.d26, enc_b: p.d25, enc_click: p.d13 },
            midi_jack: MidiJack { pin: p.d14, usart },
            usb_peri: UsbPeri {
                usb_id: p.d0,
                usb_d_plus: p.d30,
                usb_d_minus: p.d29,
                usb_peri: usp_peri,
            },
            expansion_pins: ExpansionPins {
                d7: p.d7,
                d8: p.d8,
                d9: p.d9,
                d10: p.d10,
                d11: p.d11,
                d12: p.d12,
                d16: p.d16,
                d22: p.d22,
            },
            user_led: board.user_led,
            audio_peripherals: board.audio_peripherals,
            flash: board.flash,
            sdram: board.sdram,
            usb_peripherals: board.usb_peripherals,
            boot: board.boot,
        };
        proof {
            lemma_pod_pins_come_from_header(r, board);
        }
        r
    }
}

/// Each pin the pod uses is the header pin that `pod_header_indices` names,
/// and no two of those indices are the same.
proof fn lemma_pod_pins_come_from_header(r: DaisyPodPeripherals, board: DaisyBoard)
    requires
        r.wired_from(board),
    ensures
        r.header_pins().len() == pod_header_indices().len(),
        forall|i: int|
            0 <= i < r.header_pins().len() ==> r.header_pins()[i]
                == board.pins.header()[pod_header_indices()[i]],
        board.pins.header().no_duplicates() ==> r.header_pins().no_duplicates(),
{
    let idx = pod_header_indices();
    let h = board.pins.header();
    let s = r.header_pins();
    assert(forall|i: int| 0 <= i < s.len() ==> 0 <= #[trigger] idx[i] < h.len() && s[i] == h[idx[i]]);
    assert(idx.no_duplicates());
    if h.no_duplicates() {
        assert forall|i: int, j: int| 0 <= i < s.len() && 0 <= j < s.len() && i != j implies s[i]
            != s[j] by {
            assert(idx[i] != idx[j]);
        }
    }
}

} // verus!
