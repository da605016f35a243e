use core::marker::PhantomData;
use vstd::prelude::*;

verus! {

/// The dust sensor, holding exclusively the three capabilities it reads
/// through: the output line that drives the emitter (`PinLed`), the analog
/// channel the sensor's output is wired to (`PinData`), and the one-shot
/// converter that samples that channel (`OneShotReader`).
///
/// `Adc` and `Word` name the converter and the raw sample word; they carry no
/// data.
pub struct Gp2y1014au<PinLed, OneShotReader, Adc, Word, PinData> {
    pin_led: PinLed,
    one_shot_reader: OneShotReader,
    pin_data: PinData,
    _unused: PhantomData<Adc>,
    _unused2: PhantomData<Word>,
}

impl<PinLed, OneShotReader, Adc, Word, PinData> Gp2y1014au<PinLed, OneShotReader, Adc, Word, PinData> {
    /// The emitter line that the sensor holds.
    pub closed spec fn pin_led(&self) -> PinLed {
        self.pin_led
    }

    /// The analog channel that the sensor holds.
    pub closed spec fn pin_data(&self) -> PinData {
        self.pin_data
    }

    /// The converter that the sensor holds.
    pub closed spec fn one_shot_reader(&self) -> OneShotReader {
        self.one_shot_reader
    }

    /// The three capabilities, in the order in which [`Self::new`] takes them.
    pub open spec fn parts(&self) -> (PinLed, PinData, OneShotReader) {
        (self.pin_led(), self.pin_data(), self.one_shot_reader())
    }

    /// The sensor built from the three capabilities.
    pub closed spec fn spec_new(pin_led: PinLed, pin_data: PinData, one_shot_reader: OneShotReader) -> Self {
        Gp2y1014au { pin_led, one_shot_reader, pin_data, _unused: PhantomData, _unused2: PhantomData }
    }

    /// Builds the sensor from the emitter line, the analog channel and the
    /// converter, taking ownership of all three. Nothing is checked and the
    /// emitter is left untouched.
    pub fn new(pin_led: PinLed, pin_data: PinData, one_shot_reader: OneShotReader) -> (r: Self)
        ensures
            r == Self::spec_new(pin_led, pin_data, one_shot_reader),
            r.parts() == (pin_led, pin_data, one_shot_reader),
    {
        Self { pin_led, one_shot_reader, pin_data, _unused: PhantomData, _unused2: PhantomData }
    }

    /// Gives the three capabilities back, unchanged, consuming the sensor.
    pub fn split(self) -> (r: (PinLed, PinData, OneShotReader))
        ensures
            r == self.parts(),
    {
        (self.pin_led, self.pin_data, self.one_shot_reader)
    }

    /// Lends out the three capabilities at once, so that the steps of a
    /// reading can be carried out on them. The sensor then holds whatever they
    /// became.
    pub fn parts_mut(&mut self) -> (r: (&mut PinLed, &mut PinData, &mut OneShotReader))
        ensures
            (*r.0, *r.1, *r.2) == old(self).parts(),
            final(self).parts() == (*final(r.0), *final(r.1), *final(r.2)),
    {
        (&mut self.pin_led, &mut self.pin_data, &mut self.one_shot_reader)
    }
}

/// Splitting a sensor gives back exactly the capabilities it was built from.
pub proof fn lemma_split_returns_parts<PinLed, OneShotReader, Adc, Word, PinData>(
    pin_led: PinLed,
    pin_data: PinData,
    one_shot_reader: OneShotReader,
)
    ensures
        Gp2y1014au::<PinLed, OneShotReader, Adc, Word, PinData>::spec_new(
            pin_led,
            pin_data,
            one_shot_reader,
        ).parts() == (pin_led, pin_data, one_shot_reader),
{
}

} // verus!
