use gp2y1014au::{Action, Conversion, Error, Event, Gp2y1014au, ReadCycle};

struct TestOutputPin {
    low: Result<(), u8>,
    high: Result<(), u8>,
    lows: u32,
    highs: u32,
}

impl TestOutputPin {
    fn new(low: Result<(), u8>, high: Result<(), u8>) -> Self {
        TestOutputPin { low, high, lows: 0, highs: 0 }
    }

    fn good() -> Self {
        TestOutputPin::new(Ok(()), Ok(()))
    }

    fn set_low(&mut self) -> Result<(), u8> {
        self.lows += 1;
        self.low
    }

    fn set_high(&mut self) -> Result<(), u8> {
        self.highs += 1;
        self.high
    }
}

struct TestAnalogPin {
    channel: u8,
}

struct TestAdc {
    answers: Vec<Conversion<u8, u8>>,
    calls: usize,
}

impl TestAdc {
    fn new(answers: Vec<Conversion<u8, u8>>) -> Self {
        TestAdc { answers, calls: 0 }
    }

    fn read(&mut self, _pin: &mut TestAnalogPin) -> Conversion<u8, u8> {
        let i = self.calls.min(self.answers.len() - 1);
        self.calls += 1;
        self.answers[i]
    }
}

type Sensor = Gp2y1014au<TestOutputPin, TestAdc, (), u8, TestAnalogPin>;

fn sensor(led: TestOutputPin, adc: TestAdc) -> Sensor {
    Gp2y1014au::new(led, TestAnalogPin { channel: 1 }, adc)
}

fn read(sensor: &mut Sensor) -> Result<u8, Error<u8, u8>> {
    let (led, data, adc) = sensor.parts_mut();
    let mut cycle = ReadCycle::start();
    loop {
        cycle = match cycle.action() {
            Some(Action::ActivateEmitter) => cycle.step(Event::Emitter(led.set_low())),
            Some(Action::Convert) => cycle.step(Event::Converted(adc.read(data))),
            Some(Action::DeactivateEmitter) => cycle.step(Event::Emitter(led.set_high())),
            None => return cycle.finish().ok().unwrap(),
        };
    }
}

#[test]
fn read_returns_value_when_no_errors_present() {
    let mut sensor = sensor(TestOutputPin::good(), TestAdc::new(vec![Conversion::Ready(10u8)]));
    assert_eq!(10u8, read(&mut sensor).ok().unwrap());
}

#[test]
fn read_returns_error_when_one_shot_read_fails() {
    let mut sensor = sensor(TestOutputPin::good(), TestAdc::new(vec![Conversion::Failed(0)]));
    read(&mut sensor).expect_err("Expected this function to error");
}

#[test]
fn clean_read_toggles_emitter_once_each_way() {
    let mut sensor = sensor(TestOutputPin::good(), TestAdc::new(vec![Conversion::Ready(200)]));
    assert_eq!(read(&mut sensor), Ok(200));
    let (led, _, adc) = sensor.split();
    assert_eq!((led.lows, led.highs, adc.calls), (1, 1, 1));
}

#[test]
fn not_ready_once_then_ten() {
    let answers = vec![Conversion::NotReady, Conversion::Ready(10)];
    let mut sensor = sensor(TestOutputPin::good(), TestAdc::new(answers));
    assert_eq!(read(&mut sensor), Ok(10));
    let (_, _, adc) = sensor.split();
    assert_eq!(adc.calls, 2);
}

#[test]
fn many_not_ready_answers_are_absorbed() {
    for n in [0usize, 1, 5, 1000] {
        let mut answers = vec![Conversion::NotReady; n];
        answers.push(Conversion::Ready(42));
        let mut sensor = sensor(TestOutputPin::good(), TestAdc::new(answers));
        assert_eq!(read(&mut sensor), Ok(42));
        let (led, _, adc) = sensor.split();
        assert_eq!(adc.calls, n + 1);
        assert_eq!((led.lows, led.highs), (1, 1));
    }
}

#[test]
fn always_failing_conversion_gives_read_error() {
    let mut sensor = sensor(TestOutputPin::good(), TestAdc::new(vec![Conversion::Failed(7)]));
    assert_eq!(read(&mut sensor), Err(Error::ReadError(7)));
    let (led, _, adc) = sensor.split();
    assert_eq!((led.lows, led.highs, adc.calls), (1, 1, 1));
}

#[test]
fn failure_after_not_ready_gives_read_error() {
    let answers = vec![Conversion::NotReady, Conversion::NotReady, Conversion::Failed(9)];
    let mut sensor = sensor(TestOutputPin::good(), TestAdc::new(answers));
    assert_eq!(read(&mut sensor), Err(Error::ReadError(9)));
}

#[test]
fn activation_failure_never_queries_converter() {
    let led = TestOutputPin::new(Err(3), Err(4));
    let mut sensor = sensor(led, TestAdc::new(vec![Conversion::Ready(10)]));
    assert_eq!(read(&mut sensor), Err(Error::LedError(3)));
    let (led, _, adc) = sensor.split();
    assert_eq!(adc.calls, 0);
    assert_eq!((led.lows, led.highs), (1, 0));
}

#[test]
fn deactivation_failure_discards_sample() {
    let led = TestOutputPin::new(Ok(()), Err(5));
    let mut sensor = sensor(led, TestAdc::new(vec![Conversion::Ready(10)]));
    assert_eq!(read(&mut sensor), Err(Error::LedError(5)));
}

#[test]
fn deactivation_failure_overrides_conversion_failure() {
    let led = TestOutputPin::new(Ok(()), Err(6));
    let mut sensor = sensor(led, TestAdc::new(vec![Conversion::Failed(8)]));
    assert_eq!(read(&mut sensor), Err(Error::LedError(6)));
}

#[test]
fn sensor_is_reusable_after_failure() {
    let answers = vec![Conversion::Failed(1), Conversion::Ready(33)];
    let mut sensor = sensor(TestOutputPin::good(), TestAdc::new(answers));
    assert_eq!(read(&mut sensor), Err(Error::ReadError(1)));
    assert_eq!(read(&mut sensor), Ok(33));
}

#[test]
fn split_returns_construction_values() {
    let led = TestOutputPin::new(Ok(()), Err(2));
    let adc = TestAdc::new(vec![Conversion::Ready(17), Conversion::Failed(4)]);
    let sensor: Sensor = Gp2y1014au::new(led, TestAnalogPin { channel: 5 }, adc);
    let (led, data, adc) = sensor.split();
    assert_eq!((led.low, led.high, led.lows, led.highs), (Ok(()), Err(2), 0, 0));
    assert_eq!(data.channel, 5);
    assert_eq!(adc.answers, vec![Conversion::Ready(17), Conversion::Failed(4)]);
    assert_eq!(adc.calls, 0);
}

#[test]
fn cycle_asks_for_steps_in_order() {
    let cycle: ReadCycle<u8, u8, u8> = ReadCycle::start();
    assert_eq!(cycle, ReadCycle::Activating);
    assert_eq!(cycle.action(), Some(Action::ActivateEmitter));
    let cycle = cycle.step(Event::Emitter(Ok(())));
    assert_eq!(cycle.action(), Some(Action::Convert));
    let cycle = cycle.step(Event::Converted(Conversion::NotReady));
    assert_eq!(cycle.action(), Some(Action::Convert));
    let cycle = cycle.step(Event::Converted(Conversion::Ready(12)));
    assert_eq!(cycle.action(), Some(Action::DeactivateEmitter));
    let cycle = cycle.step(Event::Emitter(Ok(())));
    assert_eq!(cycle.action(), None);
    assert_eq!(cycle.finish().ok(), Some(Ok(12)));
}

#[test]
fn cycle_ignores_event_for_another_step() {
    let cycle: ReadCycle<u8, u8, u8> = ReadCycle::start();
    let cycle = cycle.step(Event::Converted(Conversion::Ready(1)));
    assert_eq!(cycle, ReadCycle::Activating);
    let cycle = cycle.step(Event::Emitter(Ok(())));
    let cycle = cycle.step(Event::Emitter(Err(2)));
    assert_eq!(cycle, ReadCycle::Sampling);
    let cycle = cycle.step(Event::Converted(Conversion::Failed(3)));
    let cycle = cycle.step(Event::Converted(Conversion::Ready(4)));
    assert_eq!(cycle, ReadCycle::Deactivating(Err(Error::ReadError(3))));
}

#[test]
fn finished_cycle_stays_finished() {
    let cycle: ReadCycle<u8, u8, u8> = ReadCycle::start();
    let cycle = cycle.step(Event::Emitter(Err(9)));
    assert_eq!(cycle.action(), None);
    let cycle = cycle.step(Event::Emitter(Ok(())));
    let cycle = cycle.step(Event::Converted(Conversion::Ready(1)));
    assert_eq!(cycle.finish().ok(), Some(Err(Error::LedError(9))));
}

#[test]
fn unfinished_cycle_has_no_result() {
    let cycle: ReadCycle<u8, u8, u8> = ReadCycle::start();
    assert_eq!(cycle.finish(), Err(ReadCycle::Activating));
    let cycle: ReadCycle<u8, u8, u8> = ReadCycle::Sampling;
    assert_eq!(cycle.finish(), Err(ReadCycle::Sampling));
    let cycle: ReadCycle<u8, u8, u8> = ReadCycle::Deactivating(Ok(3));
    assert_eq!(cycle.finish(), Err(ReadCycle::Deactivating(Ok(3))));
}
