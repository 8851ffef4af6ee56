//! The controller and the packets that it understands.
//!
//! A packet is eight bytes long and reaches the controller as one HID feature
//! report. A color packet loads one color into a numbered slot of the
//! controller's palette; an effect packet, sent last, starts an effect that
//! draws on the palette.

use vstd::prelude::*;

verus! {

/// The USB vendor id of the controller.
pub const VENDOR_ID: u16 = 0x048d;

/// The USB product id of the controller.
pub const PRODUCT_ID: u16 = 0xce00;

/// The packet that loads one color into the palette slot `slot`.
pub open spec fn color_packet(slot: u8, red: u8, green: u8, blue: u8) -> Seq<u8> {
    seq![0x14, 0x00, slot, red, green, blue, 0x00, 0x00]
}

/// The packet that starts the effect numbered `effect`.
pub open spec fn effect_packet(effect: u8, speed: u8, brightness: u8, direction: u8, save: u8) -> Seq<
    u8,
> {
    seq![0x08, 0x02, effect, speed, brightness, 0x08, direction, save]
}

/// The packet that switches the backlight off.
pub open spec fn disable_packet() -> Seq<u8> {
    seq![0x08, 0x01, 0x00, 0x00, 0x00, 0x00, 0x00, 0x00]
}

/// The packets that load `colors` into the slots 1, 2 and so on, in order.
pub open spec fn palette_packets(colors: Seq<(u8, u8, u8)>) -> Seq<Seq<u8>> {
    Seq::new(colors.len(), |i: int| color_packet((i + 1) as u8, colors[i].0, colors[i].1, colors[i].2))
}

/// The seven colors that the moving effects draw on.
pub open spec fn generic_palette() -> Seq<(u8, u8, u8)> {
    seq![
        (0xff, 0x00, 0x00),
        (0xff, 0x5a, 0x00),
        (0xff, 0xb4, 0x00),
        (0x00, 0xb4, 0x00),
        (0x00, 0x00, 0xff),
        (0x00, 0xb4, 0xff),
        (0xff, 0x00, 0xff),
    ]
}

/// The four colors of the rainbow effect.
pub open spec fn rainbow_palette() -> Seq<(u8, u8, u8)> {
    seq![(0xff, 0x00, 0x00), (0x00, 0xb4, 0x00), (0x00, 0x00, 0xff), (0xff, 0x00, 0xff)]
}

/// The packets for one color on all keys: the color in the slots 1 to 4,
/// then the effect.
pub open spec fn mono_packets(red: u8, green: u8, blue: u8, brightness: u8, save: u8) -> Seq<
    Seq<u8>,
> {
    palette_packets(Seq::new(4, |i: int| (red, green, blue))).push(
        effect_packet(0x01, 0x05, brightness, 0x00, save),
    )
}

/// The packets for the breathing effect.
pub open spec fn breath_packets(speed: u8, brightness: u8, save: u8) -> Seq<Seq<u8>> {
    palette_packets(generic_palette()).push(effect_packet(0x02, speed, brightness, 0x00, save))
}

/// The packets for the wave effect.
pub open spec fn wave_packets(speed: u8, direction: u8, brightness: u8, save: u8) -> Seq<Seq<u8>> {
    palette_packets(generic_palette()).push(effect_packet(0x03, speed, brightness, direction, save))
}

/// The packets for the rainbow effect.
pub open spec fn rainbow_packets(brightness: u8, save: u8) -> Seq<Seq<u8>> {
    palette_packets(rainbow_palette()).push(effect_packet(0x05, 0x05, brightness, 0x00, save))
}

/// The packets for the flash effect.
pub open spec fn flash_packets(speed: u8, direction: u8, brightness: u8, save: u8) -> Seq<Seq<u8>> {
    palette_packets(generic_palette()).push(effect_packet(0x12, speed, brightness, direction, save))
}

/// The packets for the mix effect.
pub open spec fn mix_packets(speed: u8, brightness: u8, save: u8) -> Seq<Seq<u8>> {
    palette_packets(generic_palette()).push(effect_packet(0x13, speed, brightness, 0x00, save))
}

/// The single packet that switches the backlight off.
pub open spec fn disable_packets() -> Seq<Seq<u8>> {
    seq![disable_packet()]
}

/// The keyboard's backlight controller, as the host finds it on the USB bus.
///
/// Its methods give the packets that bring about an effect, in the order in
/// which they are to be sent. Each packet is to be sent as a feature report
/// of its own, and a packet that cannot be sent ends the sequence: none of
/// those behind it is sent.
#[derive(Clone, Copy, Debug, PartialEq, Eq)]
pub struct KeyboardController {
    pub vendor_id: u16,
    pub product_id: u16,
}

impl KeyboardController {
    /// The controller under its USB ids.
    pub fn new() -> (controller: Self)
        ensures
            controller.vendor_id == VENDOR_ID,
            controller.product_id == PRODUCT_ID,
    {
        KeyboardController { vendor_id: VENDOR_ID, product_id: PRODUCT_ID }
    }

    /// One color on all keys.
    pub fn mono(self, red: u8, green: u8, blue: u8, brightness: u8, save: u8) -> (packets: Vec<
        [u8; 8],
    >)
        ensures
            packets.deep_view() == mono_packets(red, green, blue, brightness, save),
    {
        let colors: [(u8, u8, u8); 4] = [(red, green, blue);4];
        let packets = color_packets(&colors);
        finish(packets, [0x08, 0x02, 0x01, 0x05, brightness, 0x08, 0x00, save])
    }

    /// The backlight fades in and out.
    pub fn breath(self, speed: u8, brightness: u8, save: u8) -> (packets: Vec<[u8; 8]>)
        ensures
            packets.deep_view() == breath_packets(speed, brightness, save),
    {
        let packets = generic_packets();
        finish(packets, [0x08, 0x02, 0x02, speed, brightness, 0x08, 0x00, save])
    }

    /// The colors travel across the keyboard.
    pub fn wave(self, speed: u8, direction: u8, brightness: u8, save: u8) -> (packets: Vec<[u8; 8]>)
        ensures
            packets.deep_view() == wave_packets(speed, direction, brightness, save),
    {
        let packets = generic_packets();
        finish(packets, [0x08, 0x02, 0x03, speed, brightness, 0x08, direction, save])
    }

    /// The four colors of the rainbow, at rest.
    pub fn rainbow(self, brightness: u8, save: u8) -> (packets: Vec<[u8; 8]>)
        ensures
            packets.deep_view() == rainbow_packets(brightness, save),
    {
        let rainbow_colors: [(u8, u8, u8); 4] = [
            (0xff, 0x00, 0x00),
            (0x00, 0xb4, 0x00),
            (0x00, 0x00, 0xff),
            (0xff, 0x00, 0xff),
        ];
        let packets = color_packets(&rainbow_colors);
        finish(packets, [0x08, 0x02, 0x05, 0x05, brightness, 0x08, 0x00, save])
    }

    /// The colors flash across the keyboard.
    pub fn flash(self, speed: u8, direction: u8, brightness: u8, save: u8) -> (packets: Vec<[u8; 8]>)
        ensures
            packets.deep_view() == flash_packets(speed, direction, brightness, save),
    {
        let packets = generic_packets();
        finish(packets, [0x08, 0x02, 0x12, speed, brightness, 0x08, direction, save])
    }

    /// The colors change at random.
    pub fn mix(self, speed: u8, brightness: u8, save: u8) -> (packets: Vec<[u8; 8]>)
        ensures
            packets.deep_view() == mix_packets(speed, brightness, save),
    {
        let packets = generic_packets();
        finish(packets, [0x08, 0x02, 0x13, speed, brightness, 0x08, 0x00, save])
    }

    /// The backlight off.
    pub fn disable(self) -> (packets: Vec<[u8; 8]>)
        ensures
            packets.deep_view() == disable_packets(),
    {
        finish(Vec::new(), [0x08, 0x01, 0x00, 0x00, 0x00, 0x00, 0x00, 0x00])
    }
}

/// `packets` with `last` behind them.
fn finish(packets: Vec<[u8; 8]>, last: [u8; 8]) -> (all: Vec<[u8; 8]>)
    ensures
        all.deep_view() == packets.deep_view().push(last@),
{
    let mut all = packets;
    all.push(last);
    assert(all.deep_view() =~~= packets.deep_view().push(last@));
    all
}

/// The packets that load the generic palette.
fn generic_packets() -> (packets: Vec<[u8; 8]>)
    ensures
        packets.deep_view() == palette_packets(generic_palette()),
{
    let generic_colors: [(u8, u8, u8); 7] = [
        (0xff, 0x00, 0x00),
        (0xff, 0x5a, 0x00),
        (0xff, 0xb4, 0x00),
        (0x00, 0xb4, 0x00),
        (0x00, 0x00, 0xff),
        (0x00, 0xb4, 0xff),
        (0xff, 0x00, 0xff),
    ];
    color_packets(&generic_colors)
}

/// The packets that load `colors` into the slots 1, 2 and so on.
fn color_packets(colors: &[(u8, u8, u8)]) -> (packets: Vec<[u8; 8]>)
    requires
        colors@.len() <= 255,
    ensures
        packets.deep_view() == palette_packets(colors@),
{
    let mut packets: Vec<[u8; 8]> = Vec::new();
    let mut i: usize = 0;
    while i < colors.len()
        invariant
            i <= colors@.len() <= 255,
            packets@.len() == i,
            forall|j: int| 0 <= j < i ==> (#[trigger] packets@[j])@ == palette_packets(colors@)[j],
        decreases colors@.len() - i,
    {
        let (red, green, blue): (u8, u8, u8) = colors[i];
        let slot: u8 = (i + 1) as u8;
        let packet: [u8; 8] = [0x14, 0x00, slot, red, green, blue, 0x00, 0x00];
        packets.push(packet);
        i += 1;
    }
    assert(packets.deep_view() =~~= palette_packets(colors@));
    packets
}

} // verus!
