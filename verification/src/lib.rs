//! Backlight control for keyboards driven by the ITE 8291 (rev 0.02)
//! controller.
//!
//! A lighting request names an effect and what goes with it. [`run`] makes
//! sure that the request lacks nothing and gives the packets that make the
//! controller show it. Sending them to the device is left to the caller:
//! one feature report for each packet, in order, up to the first that fails.

use vstd::prelude::*;

pub mod cli;
pub mod hex;
pub mod kbd;
pub mod text;

use cli::{Arg, Effects, ValidationError};
use kbd::{
    breath_packets, disable_packets, flash_packets, mix_packets, mono_packets, rainbow_packets,
    wave_packets, KeyboardController,
};

verus! {

/// The byte that asks the controller to keep a setting, or not.
pub open spec fn save_byte(save: bool) -> u8 {
    if save {
        1
    } else {
        0
    }
}

/// The packets that a request stands for, where it lacks nothing.
pub open spec fn packets_of(args: Arg) -> Seq<Seq<u8>>
    recommends
        args.missing() is None,
{
    let brightness = args.brightness.spec_value();
    let save = save_byte(args.save);
    match args.effect {
        Effects::Mono => {
            let color = args.color->0;
            mono_packets(color.0, color.1, color.2, brightness, save)
        },
        Effects::Breath => breath_packets(args.speed->0.spec_value(), brightness, save),
        Effects::Wave => wave_packets(
            args.speed->0.spec_value(),
            args.direction->0.spec_value(),
            brightness,
            save,
        ),
        Effects::Rainbow => rainbow_packets(brightness, save),
        Effects::Flash => flash_packets(
            args.speed->0.spec_value(),
            args.direction->0.spec_value(),
            brightness,
            save,
        ),
        Effects::Mix => mix_packets(args.speed->0.spec_value(), brightness, save),
        Effects::Disable => disable_packets(),
    }
}

/// Turns a lighting request into the packets to send, in order, or says what
/// the request lacks.
pub fn run(args: &Arg) -> (result: Result<Vec<[u8; 8]>, ValidationError>)
    ensures
        match result {
            Ok(packets) => args.missing() is None && packets.deep_view() == packets_of(*args),
            Err(error) => args.missing() == Some(error),
        },
{
    let controller = KeyboardController::new();
    match args.validate() {
        Ok(_) => {},
        Err(error) => {
            return Err(error);
        },
    }
    let brightness: u8 = args.brightness.value();
    let save: u8 = if args.save {
        1
    } else {
        0
    };
    let packets = match args.effect {
        Effects::Mono => {
            let rgb = args.color.unwrap();
            controller.mono(rgb.0, rgb.1, rgb.2, brightness, save)
        },
        Effects::Breath => controller.breath(args.speed.unwrap().value(), brightness, save),
        Effects::Wave => controller.wave(
            args.speed.unwrap().value(),
            args.direction.unwrap().value(),
            brightness,
            save,
        ),
        Effects::Rainbow => controller.rainbow(brightness, save),
        Effects::Flash => controller.flash(
            args.speed.unwrap().value(),
            args.direction.unwrap().value(),
            brightness,
            save,
        ),
        Effects::Mix => controller.mix(args.speed.unwrap().value(), brightness, save),
        Effects::Disable => controller.disable(),
    };
    Ok(packets)
}

/// Switching the backlight off takes one packet, always the same, whatever
/// else the request holds.
pub proof fn lemma_disable_is_one_packet(args: Arg)
    requires
        args.effect is Disable,
    ensures
        args.missing() is None,
        packets_of(args) == seq![seq![0x08u8, 0x01, 0x00, 0x00, 0x00, 0x00, 0x00, 0x00]],
{
}

/// A request stands for one to eight packets of eight bytes each: five for
/// `Mono` and `Rainbow`, eight for `Breath`, `Wave`, `Flash` and `Mix`, one
/// for `Disable`.
pub proof fn lemma_packet_count(args: Arg)
    ensures
        packets_of(args).len() == match args.effect {
            Effects::Mono | Effects::Rainbow => 5nat,
            Effects::Breath | Effects::Wave | Effects::Flash | Effects::Mix => 8nat,
            Effects::Disable => 1nat,
        },
        forall|i: int| 0 <= i < packets_of(args).len() ==> (#[trigger] packets_of(args)[i]).len() == 8,
{
}

} // verus!
