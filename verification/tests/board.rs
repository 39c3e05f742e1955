use dk::led::{Level, Pin, Port};
use dk::{init, Error, Led};

fn led(level: Level) -> Led {
    Led::new(Pin { port: Port::Port1, pin: 7, level })
}

#[test]
fn init_gives_back_the_peripherals() {
    let (peripherals, _board) = init(Some("peripherals")).unwrap();
    assert_eq!(peripherals, "peripherals");
}

#[test]
fn init_puts_the_leds_on_their_pins_and_turns_them_off() {
    let (_, mut board) = init(Some(())).unwrap();
    let dark = |pin| Pin { port: Port::Port0, pin, level: Level::High };
    assert_eq!(board.leds._1.pin(), dark(13));
    assert_eq!(board.leds._2.pin(), dark(14));
    assert_eq!(board.leds._3.pin(), dark(15));
    assert_eq!(board.leds._4.pin(), dark(16));
    assert!(board.leds._1.is_off());
    assert!(!board.leds._4.is_on());
}

#[test]
fn init_starts_with_an_idle_timer() {
    let (_, mut board) = init(Some(())).unwrap();
    assert_eq!(board.timer.next_delay(), None);
}

#[test]
fn init_fails_the_second_time() {
    let mut peripherals = Some(1u8);
    assert!(init(peripherals.take()).is_ok());
    assert!(matches!(init(peripherals.take()), Err(Error::DoubleInit)));
    assert!(matches!(init(peripherals.take()), Err(Error::DoubleInit)));
}

#[test]
fn error_code() {
    assert_eq!(Error::DoubleInit.code(), 1);
}

#[test]
fn led_is_lit_by_a_low_pin() {
    let mut led = led(Level::High);
    led.on();
    assert_eq!(led.pin(), Pin { port: Port::Port1, pin: 7, level: Level::Low });
    assert!(led.is_on());
    assert!(!led.is_off());
    led.off();
    assert_eq!(led.pin(), Pin { port: Port::Port1, pin: 7, level: Level::High });
    assert!(led.is_off());
    assert!(!led.is_on());
}

#[test]
fn led_toggles_both_ways() {
    let mut led = led(Level::High);
    led.toggle();
    assert!(led.is_on());
    led.toggle();
    assert!(led.is_off());
    assert_eq!(led.pin(), Pin { port: Port::Port1, pin: 7, level: Level::High });
}

#[test]
fn led_switch_does_not_depend_on_the_past() {
    let mut first = led(Level::High);
    first.on();
    first.toggle();
    first.on();
    let mut second = led(Level::Low);
    second.on();
    assert_eq!(first, second);
}
