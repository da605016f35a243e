use crate::error::Error;
use vstd::prelude::*;

verus! {

/// What one conversion attempt reported.
#[derive(Debug, Clone, Copy, PartialEq, Eq)]
pub enum Conversion<Word, AdcError> {
    /// The conversion finished with this sample word.
    Ready(Word),
    /// The conversion failed for good.
    Failed(AdcError),
    /// The conversion is not finished yet; ask again.
    NotReady,
}

/// The hardware step that a reading waits on.
#[derive(Debug, Clone, Copy, PartialEq, Eq)]
pub enum Action {
    /// Drive the emitter line low, which switches the emitter on.
    ActivateEmitter,
    /// Ask the converter for a sample of the sensor's channel.
    Convert,
    /// Drive the emitter line high, which switches the emitter off.
    DeactivateEmitter,
}

/// The outcome of a hardware step, handed back to the reading.
#[derive(Debug, PartialEq, Eq)]
pub enum Event<Word, OutputError, AdcError> {
    /// The emitter line was driven, or failed to be.
    Emitter(Result<(), OutputError>),
    /// A conversion attempt reported this.
    Converted(Conversion<Word, AdcError>),
}

/// Where a reading stands: emitter on, convert until a definitive answer,
/// emitter off, and then the result.
#[derive(Debug, PartialEq, Eq)]
pub enum ReadCycle<Word, OutputError, AdcError> {
    /// Waiting for the emitter to be switched on.
    Activating,
    /// The emitter is on; waiting for a definitive conversion.
    Sampling,
    /// The conversion gave this result; waiting for the emitter to be
    /// switched off.
    Deactivating(Result<Word, Error<OutputError, AdcError>>),
    /// The reading is over, with this result.
    Done(Result<Word, Error<OutputError, AdcError>>),
}

/// What a reading returns, given how switching the emitter on went, the
/// definitive outcome of the conversion, and how switching the emitter off went.
///
/// A failure to switch the emitter on ends the reading at once. A failure to
/// switch it off replaces whatever the conversion gave. Otherwise the sample,
/// or the conversion's failure, is returned.
pub open spec fn read_result<Word, OutputError, AdcError>(
    activate: Result<(), OutputError>,
    conversion: Result<Word, AdcError>,
    deactivate: Result<(), OutputError>,
) -> Result<Word, Error<OutputError, AdcError>> {
    match activate {
        Err(e) => Err(Error::LedError(e)),
        Ok(_) => match deactivate {
            Err(e) => Err(Error::LedError(e)),
            Ok(_) => match conversion {
                Ok(w) => Ok(w),
                Err(a) => Err(Error::ReadError(a)),
            },
        },
    }
}

impl<Word, OutputError, AdcError> ReadCycle<Word, OutputError, AdcError> {
    /// The step that this state waits on; none once the reading is over.
    pub open spec fn pending(self) -> Option<Action> {
        match self {
            ReadCycle::Activating => Some(Action::ActivateEmitter),
            ReadCycle::Sampling => Some(Action::Convert),
            ReadCycle::Deactivating(_) => Some(Action::DeactivateEmitter),
            ReadCycle::Done(_) => None,
        }
    }

    /// The state after `event`. An event that does not answer the pending
    /// step leaves the state as it was.
    pub open spec fn next(self, event: Event<Word, OutputError, AdcError>) -> Self {
        match self {
            ReadCycle::Activating => match event {
                Event::Emitter(Ok(_)) => ReadCycle::Sampling,
                Event::Emitter(Err(e)) => ReadCycle::Done(Err(Error::LedError(e))),
                Event::Converted(_) => self,
            },
            ReadCycle::Sampling => match event {
                Event::Converted(Conversion::Ready(w)) => ReadCycle::Deactivating(Ok(w)),
                Event::Converted(Conversion::Failed(a)) => ReadCycle::Deactivating(
                    Err(Error::ReadError(a)),
                ),
                Event::Converted(Conversion::NotReady) => self,
                Event::Emitter(_) => self,
            },
            ReadCycle::Deactivating(result) => match event {
                Event::Emitter(Ok(_)) => ReadCycle::Done(result),
                Event::Emitter(Err(e)) => ReadCycle::Done(Err(Error::LedError(e))),
                Event::Converted(_) => self,
            },
            ReadCycle::Done(_) => self,
        }
    }

    /// The state after the events, in order.
    pub open spec fn run(self, events: Seq<Event<Word, OutputError, AdcError>>) -> Self
        decreases events.len(),
    {
        if events.len() == 0 {
            self
        } else {
            self.next(events[0]).run(events.drop_first())
        }
    }

    /// A reading that has not started.
    pub fn start() -> (r: Self)
        ensures
            r == ReadCycle::<Word, OutputError, AdcError>::Activating,
    {
        ReadCycle::Activating
    }

    /// The step to carry out next, or `None` once the reading is over.
    pub fn action(&self) -> (r: Option<Action>)
        ensures
            r == self.pending(),
    {
        match self {
            ReadCycle::Activating => Some(Action::ActivateEmitter),
            ReadCycle::Sampling => Some(Action::Convert),
            ReadCycle::Deactivating(_) => Some(Action::DeactivateEmitter),
            ReadCycle::Done(_) => None,
        }
    }

    /// Takes in the outcome of the pending step.
    pub fn step(self, event: Event<Word, OutputError, AdcError>) -> (r: Self)
        ensures
            r == self.next(event),
    {
        match self {
            ReadCycle::Activating => match event {
                Event::Emitter(Ok(())) => ReadCycle::Sampling,
                Event::Emitter(Err(e)) => ReadCycle::Done(Err(Error::LedError(e))),
                Event::Converted(_) => ReadCycle::Activating,
            },
            ReadCycle::Sampling => match event {
                Event::Converted(Conversion::Ready(w)) => ReadCycle::Deactivating(Ok(w)),
                Event::Converted(Conversion::Failed(a)) => ReadCycle::Deactivating(
                    Err(Error::ReadError(a)),
                ),
                Event::Converted(Conversion::NotReady) => ReadCycle::Sampling,
                Event::Emitter(_) => ReadCycle::Sampling,
            },
            ReadCycle::Deactivating(result) => match event {
                Event::Emitter(Ok(())) => ReadCycle::Done(result),
                Event::Emitter(Err(e)) => ReadCycle::Done(Err(Error::LedError(e))),
                Event::Converted(_) => ReadCycle::Deactivating(result),
            },
            ReadCycle::Done(result) => ReadCycle::Done(result),
        }
    }

    /// The result of the reading once it is over; before that, the cycle
    /// itself, unchanged.
    pub fn finish(self) -> (r: Result<Result<Word, Error<OutputError, AdcError>>, Self>)
        ensures
            r == (match self {
                ReadCycle::Done(result) => Ok(result),
                _ => Err(self),
            }),
    {
        match self {
            ReadCycle::Done(result) => Ok(result),
            _ => Err(self),
        }
    }
}

/// `n` conversion attempts in a row that each report "not ready".
pub open spec fn not_ready<Word, OutputError, AdcError>(n: nat) -> Seq<Event<Word, OutputError, AdcError>> {
    Seq::new(n, |i: int| Event::Converted(Conversion::NotReady))
}

/// The event that reports a definitive conversion outcome.
pub open spec fn definitive<Word, OutputError, AdcError>(conversion: Result<Word, AdcError>) -> Event<Word, OutputError, AdcError> {
    match conversion {
        Ok(w) => Event::Converted(Conversion::Ready(w)),
        Err(a) => Event::Converted(Conversion::Failed(a)),
    }
}

/// The events of a whole reading: the emitter switched on, `retries`
/// "not ready" answers, a definitive conversion, the emitter switched off.
pub open spec fn read_events<Word, OutputError, AdcError>(
    activate: Result<(), OutputError>,
    retries: nat,
    conversion: Result<Word, AdcError>,
    deactivate: Result<(), OutputError>,
) -> Seq<Event<Word, OutputError, AdcError>> {
    seq![Event::Emitter(activate)] + not_ready(retries) + seq![
        definitive(conversion),
        Event::Emitter(deactivate),
    ]
}

/// Running two lists of events one after the other is running their
/// concatenation.
pub proof fn lemma_run_concat<Word, OutputError, AdcError>(
    state: ReadCycle<Word, OutputError, AdcError>,
    a: Seq<Event<Word, OutputError, AdcError>>,
    b: Seq<Event<Word, OutputError, AdcError>>,
)
    ensures
        state.run(a + b) == state.run(a).run(b),
    decreases a.len(),
{
    if a.len() == 0 {
        assert(a + b =~= b);
    } else {
        assert((a + b).drop_first() =~= a.drop_first() + b);
        lemma_run_concat(state.next(a[0]), a.drop_first(), b);
    }
}

/// A finished reading stays finished with the same result, whatever events
/// follow, and waits on no further step.
pub proof fn lemma_done_is_final<Word, OutputError, AdcError>(
    result: Result<Word, Error<OutputError, AdcError>>,
    events: Seq<Event<Word, OutputError, AdcError>>,
)
    ensures
        ReadCycle::Done(result).run(events) == ReadCycle::Done(result),
        ReadCycle::Done(result).pending() == None::<Action>,
    decreases events.len(),
{
    if events.len() > 0 {
        lemma_done_is_final(result, events.drop_first());
    }
}

/// Any number of "not ready" answers leaves the reading sampling, still
/// waiting on a conversion: they never surface as a result.
pub proof fn lemma_not_ready_absorbed<Word, OutputError, AdcError>(n: nat)
    ensures
        ReadCycle::<Word, OutputError, AdcError>::Sampling.run(not_ready(n))
            == ReadCycle::<Word, OutputError, AdcError>::Sampling,
        ReadCycle::<Word, OutputError, AdcError>::Sampling.pending() == Some(Action::Convert),
    decreases n,
{
    if n > 0 {
        assert(not_ready::<Word, OutputError, AdcError>(n).drop_first() =~= not_ready(
            (n - 1) as nat,
        ));
        lemma_not_ready_absorbed::<Word, OutputError, AdcError>((n - 1) as nat);
    }
}

/// A whole reading ends with [`read_result`] of its three outcomes, however
/// many "not ready" answers came before the definitive conversion.
pub proof fn lemma_read_events_result<Word, OutputError, AdcError>(
    activate: Result<(), OutputError>,
    retries: nat,
    conversion: Result<Word, AdcError>,
    deactivate: Result<(), OutputError>,
)
    ensures
        ReadCycle::Activating.run(read_events(activate, retries, conversion, deactivate))
            == ReadCycle::Done(read_result(activate, conversion, deactivate)),
{
    let start = ReadCycle::<Word, OutputError, AdcError>::Activating;
    let head = seq![Event::Emitter(activate)];
    let retry = not_ready::<Word, OutputError, AdcError>(retries);
    let tail = seq![definitive::<Word, OutputError, AdcError>(conversion), Event::Emitter(deactivate)];
    lemma_run_concat(start, head + retry, tail);
    lemma_run_concat(start, head, retry);
    assert(head.drop_first() =~= Seq::<Event<Word, OutputError, AdcError>>::empty());
    assert(start.next(head[0]).run(head.drop_first()) == start.next(head[0]));
    assert(start.run(head) == start.next(Event::Emitter(activate)));
    match activate {
        Err(e) => {
            lemma_done_is_final(Err(Error::LedError(e)), retry);
            lemma_done_is_final(Err(Error::LedError(e)), tail);
        },
        Ok(_) => {
            lemma_not_ready_absorbed::<Word, OutputError, AdcError>(retries);
            let sampling = ReadCycle::<Word, OutputError, AdcError>::Sampling;
            let after = sampling.next(tail[0]);
            let rest = tail.drop_first();
            assert(rest.drop_first() =~= Seq::<Event<Word, OutputError, AdcError>>::empty());
            assert(after.next(rest[0]).run(rest.drop_first()) == after.next(rest[0]));
            assert(after.run(rest) == after.next(tail[1]));
            assert(sampling.run(tail) == after.next(tail[1]));
        },
    }
}

/// Emitter on, one successful conversion, emitter off: the reading returns
/// exactly the sample word that the conversion produced.
pub proof fn lemma_clean_read_returns_sample<Word, OutputError, AdcError>(w: Word)
    ensures
        ReadCycle::<Word, OutputError, AdcError>::Activating.run(
            seq![
                Event::Emitter(Ok(())),
                Event::Converted(Conversion::Ready(w)),
                Event::Emitter(Ok(())),
            ],
        ) == ReadCycle::<Word, OutputError, AdcError>::Done(Ok(w)),
{
    lemma_read_events_result::<Word, OutputError, AdcError>(Ok(()), 0, Ok(w), Ok(()));
    assert(read_events::<Word, OutputError, AdcError>(Ok(()), 0, Ok(w), Ok(())) =~= seq![
        Event::Emitter(Ok(())),
        Event::Converted(Conversion::Ready(w)),
        Event::Emitter(Ok(())),
    ]);
}

/// When switching the emitter on fails, the reading is over at once with that
/// failure: it never asks for a conversion, and nothing that follows changes
/// its result.
pub proof fn lemma_activation_failure_skips_conversion<Word, OutputError, AdcError>(
    e: OutputError,
    later: Seq<Event<Word, OutputError, AdcError>>,
)
    ensures
        ReadCycle::<Word, OutputError, AdcError>::Activating.next(Event::Emitter(Err(e)))
            == ReadCycle::<Word, OutputError, AdcError>::Done(Err(Error::LedError(e))),
        ReadCycle::<Word, OutputError, AdcError>::Activating.next(
            Event::Emitter(Err(e)),
        ).pending() == None::<Action>,
        ReadCycle::<Word, OutputError, AdcError>::Activating.next(Event::Emitter(Err(e))).run(
            later,
        ) == ReadCycle::<Word, OutputError, AdcError>::Done(Err(Error::LedError(e))),
{
    lemma_done_is_final::<Word, OutputError, AdcError>(Err(Error::LedError(e)), later);
}

/// When the emitter cannot be switched off, the reading fails with that
/// failure and the sample already taken is discarded.
pub proof fn lemma_deactivation_failure_discards_sample<Word, OutputError, AdcError>(
    w: Word,
    e: OutputError,
)
    ensures
        ReadCycle::<Word, OutputError, AdcError>::Activating.run(
            seq![
                Event::Emitter(Ok(())),
                Event::Converted(Conversion::Ready(w)),
                Event::Emitter(Err(e)),
            ],
        ) == ReadCycle::<Word, OutputError, AdcError>::Done(Err(Error::LedError(e))),
{
    lemma_read_events_result::<Word, OutputError, AdcError>(Ok(()), 0, Ok(w), Err(e));
    assert(read_events::<Word, OutputError, AdcError>(Ok(()), 0, Ok(w), Err(e)) =~= seq![
        Event::Emitter(Ok(())),
        Event::Converted(Conversion::Ready(w)),
        Event::Emitter(Err(e)),
    ]);
}

/// A definitive conversion failure is what the reading returns, once the
/// emitter has been switched off.
pub proof fn lemma_conversion_failure_reported<Word, OutputError, AdcError>(a: AdcError)
    ensures
        ReadCycle::<Word, OutputError, AdcError>::Activating.run(
            seq![
                Event::Emitter(Ok(())),
                Event::Converted(Conversion::Failed(a)),
                Event::Emitter(Ok(())),
            ],
        ) == ReadCycle::<Word, OutputError, AdcError>::Done(Err(Error::ReadError(a))),
{
    lemma_read_events_result::<Word, OutputError, AdcError>(Ok(()), 0, Err(a), Ok(()));
    assert(read_events::<Word, OutputError, AdcError>(Ok(()), 0, Err(a), Ok(())) =~= seq![
        Event::Emitter(Ok(())),
        Event::Converted(Conversion::Failed(a)),
        Event::Emitter(Ok(())),
    ]);
}

/// Any number of "not ready" answers before a successful conversion changes
/// nothing: the reading returns the sample as if it had come at the first
/// attempt.
pub proof fn lemma_not_ready_is_transparent<Word, OutputError, AdcError>(n: nat, w: Word)
    ensures
        ReadCycle::<Word, OutputError, AdcError>::Activating.run(
            read_events(Ok(()), n, Ok(w), Ok(())),
        ) == ReadCycle::<Word, OutputError, AdcError>::Activating.run(
            read_events(Ok(()), 0, Ok(w), Ok(())),
        ),
        ReadCycle::<Word, OutputError, AdcError>::Activating.run(
            read_events(Ok(()), n, Ok(w), Ok(())),
        ) == ReadCycle::<Word, OutputError, AdcError>::Done(Ok(w)),
{
    lemma_read_events_result::<Word, OutputError, AdcError>(Ok(()), n, Ok(w), Ok(()));
    lemma_read_events_result::<Word, OutputError, AdcError>(Ok(()), 0, Ok(w), Ok(()));
}

} // verus!
