use stm32f3_discovery::leds::hal::{Led, ToggleableLed};
use stm32f3_discovery::leds::{Direction, Leds};

/// An LED that records every state it is driven to.
#[derive(Debug, PartialEq)]
struct RecordingLed {
    pin: u8,
    lit: bool,
    writes: Vec<bool>,
}

impl RecordingLed {
    fn on_pin(pin: u8) -> Self {
        RecordingLed { pin, lit: true, writes: Vec::new() }
    }
}

impl Led for RecordingLed {
    type Error = ();

    fn is_on(&self) -> bool {
        self.lit
    }

    fn pin_number(&self) -> u8 {
        self.pin
    }

    fn on(&mut self) -> Result<(), ()> {
        self.lit = true;
        self.writes.push(true);
        Ok(())
    }

    fn off(&mut self) -> Result<(), ()> {
        self.lit = false;
        self.writes.push(false);
        Ok(())
    }
}

impl ToggleableLed for RecordingLed {
    fn toggle(&mut self) -> Result<(), ()> {
        self.lit = !self.lit;
        self.writes.push(self.lit);
        Ok(())
    }
}

fn ring() -> Leds<RecordingLed> {
    Leds::new(
        RecordingLed::on_pin(8),
        RecordingLed::on_pin(9),
        RecordingLed::on_pin(10),
        RecordingLed::on_pin(11),
        RecordingLed::on_pin(12),
        RecordingLed::on_pin(13),
        RecordingLed::on_pin(14),
        RecordingLed::on_pin(15),
    )
}

/// GPIOE pins of the LEDs clockwise from North.
const CLOCKWISE_PINS: [u8; 8] = [9, 10, 11, 12, 13, 14, 15, 8];

#[test]
fn directions_iterate_clockwise_from_north() {
    let all = Direction::iter();
    assert_eq!(
        all,
        [
            Direction::North,
            Direction::NorthEast,
            Direction::East,
            Direction::SouthEast,
            Direction::South,
            Direction::SouthWest,
            Direction::West,
            Direction::NorthWest,
        ]
    );
}

#[test]
fn construction_switches_every_led_off() {
    let leds = ring();
    for led in leds.into_array().iter() {
        assert!(!led.lit);
        assert_eq!(led.writes, vec![false]);
    }
}

#[test]
fn each_direction_has_its_own_led() {
    let mut leds = ring();
    let expected = [
        (Direction::North, 9),
        (Direction::NorthEast, 10),
        (Direction::East, 11),
        (Direction::SouthEast, 12),
        (Direction::South, 13),
        (Direction::SouthWest, 14),
        (Direction::West, 15),
        (Direction::NorthWest, 8),
    ];
    let mut seen: Vec<u8> = Vec::new();
    for (direction, pin) in expected.iter() {
        let led = leds.for_direction(*direction);
        assert_eq!(led.pin, *pin);
        assert!(!seen.contains(&led.pin));
        seen.push(led.pin);
    }
    assert_eq!(seen.len(), 8);
}

#[test]
fn for_direction_lends_the_led_in_place() {
    let mut leds = ring();
    leds.for_direction(Direction::South).on().unwrap();
    leds.for_direction(Direction::West).toggle().unwrap();
    let all = leds.into_array();
    let lit: Vec<bool> = all.iter().map(|led| led.lit).collect();
    assert_eq!(lit, vec![false, false, false, false, true, false, true, false]);
}

#[test]
fn into_array_is_clockwise_from_north() {
    let all = ring().into_array();
    let pins: Vec<u8> = all.iter().map(|led| led.pin).collect();
    assert_eq!(pins, CLOCKWISE_PINS.to_vec());
}

#[test]
fn forward_iteration_yields_clockwise_then_nothing() {
    let mut leds = ring();
    let mut it = leds.iter_mut();
    for pin in CLOCKWISE_PINS.iter() {
        let led = it.next().unwrap();
        assert_eq!(led.pin, *pin);
    }
    assert!(it.next().is_none());
    assert!(it.next_back().is_none());
}

#[test]
fn backward_iteration_yields_counter_clockwise_then_nothing() {
    let mut leds = ring();
    let mut it = leds.iter_mut();
    for pin in CLOCKWISE_PINS.iter().rev() {
        let led = it.next_back().unwrap();
        assert_eq!(led.pin, *pin);
    }
    assert!(it.next_back().is_none());
    assert!(it.next().is_none());
}

#[test]
fn alternating_ends_meet_in_the_middle() {
    let mut leds = ring();
    let mut it = leds.iter_mut();
    let mut pins: Vec<u8> = Vec::new();
    for _ in 0..4 {
        pins.push(it.next().unwrap().pin);
        pins.push(it.next_back().unwrap().pin);
    }
    assert_eq!(pins, vec![9, 8, 10, 15, 11, 14, 12, 13]);
    assert!(it.next().is_none());
    assert!(it.next_back().is_none());
}

#[test]
fn handed_out_leds_are_all_held_at_once_without_repeats() {
    let mut leds = ring();
    let mut it = leds.iter_mut();
    let mut held: Vec<&mut RecordingLed> = Vec::new();
    let pattern = [true, true, false, true, false, false, true, false];
    for forward in pattern.iter() {
        let led = if *forward { it.next() } else { it.next_back() };
        let led = led.unwrap();
        assert!(held.iter().all(|h| h.pin != led.pin));
        held.push(led);
    }
    assert!(it.next().is_none());
    for led in held.iter_mut() {
        led.on().unwrap();
    }
    drop(held);
    assert!(leds.into_array().iter().all(|led| led.lit));
}

#[test]
fn length_counts_down_from_both_ends() {
    let mut leds = ring();
    let mut it = leds.iter_mut();
    assert_eq!(it.len(), 8);
    assert_eq!(it.size_hint(), (8, Some(8)));
    it.next();
    it.next_back();
    it.next_back();
    assert_eq!(it.len(), 5);
    assert_eq!(it.size_hint(), (5, Some(5)));
    for _ in 0..5 {
        it.next();
    }
    assert_eq!(it.len(), 0);
    assert_eq!(it.size_hint(), (0, Some(0)));
    it.next();
    assert_eq!(it.len(), 0);
}

#[test]
fn writes_through_the_iterator_reach_the_ring() {
    let mut leds = ring();
    {
        let mut it = leds.iter_mut();
        it.next().unwrap().on().unwrap();
        it.next_back().unwrap().on().unwrap();
    }
    assert!(leds.for_direction(Direction::North).lit);
    assert!(leds.for_direction(Direction::NorthWest).lit);
    assert!(!leds.for_direction(Direction::NorthEast).lit);
}
