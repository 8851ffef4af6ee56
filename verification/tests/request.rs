use ite8291r2_ctl::cli::{
    Arg, Brightness, Color, Direction, Effects, Speed, ValidationError,
};
use ite8291r2_ctl::run;

const ALL: [Effects; 7] = [
    Effects::Mono,
    Effects::Breath,
    Effects::Wave,
    Effects::Rainbow,
    Effects::Flash,
    Effects::Mix,
    Effects::Disable,
];

fn bare(effect: Effects) -> Arg {
    Arg {
        effect,
        save: false,
        brightness: Brightness::default(),
        color: None,
        direction: None,
        speed: None,
    }
}

fn full(effect: Effects) -> Arg {
    Arg {
        effect,
        save: true,
        brightness: Brightness::new(5).unwrap(),
        color: Some(Color(0x11, 0x22, 0x33)),
        direction: Some(Direction::Right),
        speed: Some(Speed::new(4).unwrap()),
    }
}

fn generic_and(last: [u8; 8]) -> Vec<[u8; 8]> {
    vec![
        [0x14, 0x00, 0x01, 0xff, 0x00, 0x00, 0x00, 0x00],
        [0x14, 0x00, 0x02, 0xff, 0x5a, 0x00, 0x00, 0x00],
        [0x14, 0x00, 0x03, 0xff, 0xb4, 0x00, 0x00, 0x00],
        [0x14, 0x00, 0x04, 0x00, 0xb4, 0x00, 0x00, 0x00],
        [0x14, 0x00, 0x05, 0x00, 0x00, 0xff, 0x00, 0x00],
        [0x14, 0x00, 0x06, 0x00, 0xb4, 0xff, 0x00, 0x00],
        [0x14, 0x00, 0x07, 0xff, 0x00, 0xff, 0x00, 0x00],
        last,
    ]
}

#[test]
fn what_each_effect_needs() {
    let needs: [(bool, bool, bool); 7] = [
        (true, false, false),
        (false, false, true),
        (false, true, true),
        (false, false, false),
        (false, true, true),
        (false, false, true),
        (false, false, false),
    ];
    for (effect, (color, direction, speed)) in ALL.iter().zip(needs) {
        assert_eq!(effect.needs_color(), color);
        assert_eq!(effect.needs_direction(), direction);
        assert_eq!(effect.needs_speed(), speed);
    }
}

#[test]
fn mono_without_color_fails() {
    assert_eq!(bare(Effects::Mono).validate(), Err(ValidationError::MissingColor));
    assert_eq!(run(&bare(Effects::Mono)), Err(ValidationError::MissingColor));
    let mut args = full(Effects::Mono);
    args.color = None;
    assert_eq!(run(&args), Err(ValidationError::MissingColor));
}

#[test]
fn wave_without_direction_and_speed_fails() {
    assert_eq!(run(&bare(Effects::Wave)), Err(ValidationError::MissingDirection));
    let mut args = full(Effects::Wave);
    args.direction = None;
    assert_eq!(run(&args), Err(ValidationError::MissingDirection));
    let mut args = full(Effects::Wave);
    args.speed = None;
    assert_eq!(run(&args), Err(ValidationError::MissingSpeed));
    let mut args = full(Effects::Wave);
    args.color = None;
    assert!(run(&args).is_ok());
}

#[test]
fn flash_without_direction_and_speed_fails() {
    assert_eq!(run(&bare(Effects::Flash)), Err(ValidationError::MissingDirection));
    let mut args = full(Effects::Flash);
    args.direction = None;
    assert_eq!(run(&args), Err(ValidationError::MissingDirection));
    let mut args = full(Effects::Flash);
    args.speed = None;
    assert_eq!(run(&args), Err(ValidationError::MissingSpeed));
}

#[test]
fn breath_and_mix_without_speed_fail() {
    assert_eq!(run(&bare(Effects::Breath)), Err(ValidationError::MissingSpeed));
    assert_eq!(run(&bare(Effects::Mix)), Err(ValidationError::MissingSpeed));
    let mut args = bare(Effects::Breath);
    args.speed = Speed::new(1).ok();
    assert_eq!(args.validate(), Ok(()));
    let mut args = bare(Effects::Mix);
    args.speed = Speed::new(1).ok();
    assert_eq!(args.validate(), Ok(()));
}

#[test]
fn rainbow_and_disable_need_nothing() {
    assert_eq!(bare(Effects::Rainbow).validate(), Ok(()));
    assert_eq!(bare(Effects::Disable).validate(), Ok(()));
    assert!(run(&bare(Effects::Rainbow)).is_ok());
    assert!(run(&bare(Effects::Disable)).is_ok());
}

#[test]
fn a_full_request_is_valid_for_every_effect() {
    for effect in ALL {
        assert_eq!(full(effect).validate(), Ok(()));
    }
}

#[test]
fn disable_is_one_packet_whatever_else_is_given() {
    let off = vec![[0x08, 0x01, 0x00, 0x00, 0x00, 0x00, 0x00, 0x00]];
    assert_eq!(run(&bare(Effects::Disable)), Ok(off.clone()));
    assert_eq!(run(&full(Effects::Disable)), Ok(off.clone()));
    for level in 1..=5u8 {
        for save in [false, true] {
            let mut args = full(Effects::Disable);
            args.save = save;
            args.brightness = Brightness::new(level).unwrap();
            args.speed = Speed::new(level).ok();
            args.direction = Some(Direction::Left);
            assert_eq!(run(&args), Ok(off.clone()));
        }
    }
}

#[test]
fn run_mono() {
    let mut args = bare(Effects::Mono);
    args.color = Some(Color(0xff, 0x00, 0x00));
    assert_eq!(
        run(&args),
        Ok(vec![
            [0x14, 0x00, 0x01, 0xff, 0x00, 0x00, 0x00, 0x00],
            [0x14, 0x00, 0x02, 0xff, 0x00, 0x00, 0x00, 0x00],
            [0x14, 0x00, 0x03, 0xff, 0x00, 0x00, 0x00, 0x00],
            [0x14, 0x00, 0x04, 0xff, 0x00, 0x00, 0x00, 0x00],
            [0x08, 0x02, 0x01, 0x05, 0x16, 0x08, 0x00, 0x00],
        ])
    );
    assert_eq!(
        run(&full(Effects::Mono)),
        Ok(vec![
            [0x14, 0x00, 0x01, 0x11, 0x22, 0x33, 0x00, 0x00],
            [0x14, 0x00, 0x02, 0x11, 0x22, 0x33, 0x00, 0x00],
            [0x14, 0x00, 0x03, 0x11, 0x22, 0x33, 0x00, 0x00],
            [0x14, 0x00, 0x04, 0x11, 0x22, 0x33, 0x00, 0x00],
            [0x08, 0x02, 0x01, 0x05, 0x32, 0x08, 0x00, 0x01],
        ])
    );
}

#[test]
fn run_breath() {
    assert_eq!(
        run(&full(Effects::Breath)),
        Ok(generic_and([0x08, 0x02, 0x02, 0x03, 0x32, 0x08, 0x00, 0x01]))
    );
}

#[test]
fn run_wave() {
    assert_eq!(
        run(&full(Effects::Wave)),
        Ok(generic_and([0x08, 0x02, 0x03, 0x03, 0x32, 0x08, 0x02, 0x01]))
    );
    let mut args = bare(Effects::Wave);
    args.direction = Some(Direction::Left);
    args.speed = Speed::new(1).ok();
    assert_eq!(
        run(&args),
        Ok(generic_and([0x08, 0x02, 0x03, 0x0a, 0x16, 0x08, 0x01, 0x00]))
    );
}

#[test]
fn run_rainbow() {
    assert_eq!(
        run(&full(Effects::Rainbow)),
        Ok(vec![
            [0x14, 0x00, 0x01, 0xff, 0x00, 0x00, 0x00, 0x00],
            [0x14, 0x00, 0x02, 0x00, 0xb4, 0x00, 0x00, 0x00],
            [0x14, 0x00, 0x03, 0x00, 0x00, 0xff, 0x00, 0x00],
            [0x14, 0x00, 0x04, 0xff, 0x00, 0xff, 0x00, 0x00],
            [0x08, 0x02, 0x05, 0x05, 0x32, 0x08, 0x00, 0x01],
        ])
    );
}

#[test]
fn run_flash() {
    assert_eq!(
        run(&full(Effects::Flash)),
        Ok(generic_and([0x08, 0x02, 0x12, 0x03, 0x32, 0x08, 0x02, 0x01]))
    );
}

#[test]
fn run_mix() {
    assert_eq!(
        run(&full(Effects::Mix)),
        Ok(generic_and([0x08, 0x02, 0x13, 0x03, 0x32, 0x08, 0x00, 0x01]))
    );
}

#[test]
fn run_gives_one_to_eight_packets() {
    let counts = [5usize, 8, 8, 5, 8, 8, 1];
    for (effect, count) in ALL.iter().zip(counts) {
        let packets = run(&full(*effect)).unwrap();
        assert_eq!(packets.len(), count);
    }
}

#[test]
fn request_read_from_text() {
    let args = Arg {
        effect: Effects::parse("flash").unwrap(),
        save: true,
        brightness: Brightness::parse("2").unwrap(),
        color: Color::parse("Blue").ok(),
        direction: Direction::parse("left").ok(),
        speed: Speed::parse("5").ok(),
    };
    assert_eq!(
        run(&args),
        Ok(generic_and([0x08, 0x02, 0x12, 0x01, 0x08, 0x08, 0x01, 0x01]))
    );
}
