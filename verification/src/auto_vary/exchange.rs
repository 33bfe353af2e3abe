//! The stages that the handling of one request goes through, and the store
//! in which a request keeps its ledger.

use crate::auto_vary::catalogue::in_catalogue_order;
use crate::auto_vary::catalogue::Catalogue;
use crate::auto_vary::catalogue::HxRequestHeader;
use crate::auto_vary::ledger::after_read;
use crate::auto_vary::ledger::vary_values;
use crate::auto_vary::ledger::Ledger;
use crate::header::HeaderValue;
use vstd::prelude::*;

verus! {

/// Where the handling of one request stands.
#[derive(Clone, Copy, Debug, PartialEq, Eq, Hash, Structural)]
pub enum Stage {
    /// The ledger is attached and empty; the handler has not read a header.
    Created,
    /// The handler runs and has reported at least one header.
    Accumulating,
    /// The response is there and the ledger has been read.
    Finalizing,
    /// The `Vary` lines stand on the response.
    Applied,
    /// The exchange is over.
    Discarded,
}

/// What happens to a request while it is handled.
#[derive(Clone, Copy, Debug, PartialEq, Eq, Hash, Structural)]
pub enum Signal {
    /// The handler read a tracked header.
    Reported(HxRequestHeader),
    /// The handler has returned its response.
    ResponseReady,
    /// The `Vary` lines were written to the response.
    Appended,
    /// The request was dropped: the handler failed or was cancelled, or the
    /// response has left.
    Dropped,
}

/// What is to be done after a signal.
#[derive(Debug, Clone, PartialEq, Eq, Hash)]
pub enum Action {
    /// Nothing.
    Nothing,
    /// Append these `Vary` entries to the response, in this order.
    Append(Vec<HeaderValue>),
}

impl View for Action {
    type V = Option<Seq<Seq<u8>>>;

    open spec fn view(&self) -> Option<Seq<Seq<u8>>> {
        match self {
            Action::Nothing => None,
            Action::Append(entries) => Some(crate::header::views(entries@)),
        }
    }
}

/// Whether reports are still taken in at `stage`.
pub open spec fn is_open(stage: Stage) -> bool {
    stage == Stage::Created || stage == Stage::Accumulating
}

/// The stage that follows `stage` on `signal`.
pub open spec fn next_stage(stage: Stage, signal: Signal) -> Stage {
    match signal {
        Signal::Reported(_) => if is_open(stage) {
            Stage::Accumulating
        } else {
            stage
        },
        Signal::ResponseReady => if is_open(stage) {
            Stage::Finalizing
        } else {
            stage
        },
        Signal::Appended => if stage == Stage::Finalizing {
            Stage::Applied
        } else {
            stage
        },
        Signal::Dropped => Stage::Discarded,
    }
}

/// The headers recorded after `signal`, where `used` were recorded at `stage`
/// and `watched` are taken in.
pub open spec fn next_used(
    stage: Stage,
    used: Set<HxRequestHeader>,
    watched: Set<HxRequestHeader>,
    signal: Signal,
) -> Set<HxRequestHeader> {
    match signal {
        Signal::Reported(header) => if is_open(stage) {
            after_read(used, watched, header)
        } else {
            used
        },
        _ => used,
    }
}

/// What is to be done on `signal`: the ledger is read when the response is
/// ready, and then only.
pub open spec fn next_action(
    stage: Stage,
    used: Set<HxRequestHeader>,
    signal: Signal,
) -> Option<Seq<Seq<u8>>> {
    if signal == Signal::ResponseReady && is_open(stage) {
        Some(vary_values(in_catalogue_order(used)))
    } else {
        None
    }
}

/// The ledger of a request is read once at most: reading it closes the
/// exchange to reports and to further reads, and an exchange that is closed
/// stays closed whatever comes.
pub proof fn lemma_read_once(
    stage: Stage,
    used: Set<HxRequestHeader>,
    watched: Set<HxRequestHeader>,
    signal: Signal,
)
    ensures
        next_action(stage, used, signal) is Some ==> !is_open(next_stage(stage, signal)),
        !is_open(stage) ==> !is_open(next_stage(stage, signal)),
        !is_open(stage) ==> next_action(stage, used, signal) is None,
        !is_open(stage) ==> next_used(stage, used, watched, signal) == used,
{
}

/// The handling of one request: its stage and its ledger.
#[derive(Debug, Clone, PartialEq, Eq, Hash)]
pub struct Exchange {
    stage: Stage,
    ledger: Ledger,
}

impl Exchange {
    /// The stage of the exchange.
    pub closed spec fn stage_of(&self) -> Stage {
        self.stage
    }

    /// The headers recorded so far.
    pub closed spec fn used(&self) -> Set<HxRequestHeader> {
        self.ledger@
    }

    /// The headers that the ledger takes in.
    pub closed spec fn watched(&self) -> Set<HxRequestHeader> {
        self.ledger.watched()
    }

    /// The exchange of a request that has just come in, with a ledger for
    /// every header of the catalogue.
    pub fn begin() -> (exchange: Exchange)
        ensures
            exchange.stage_of() == Stage::Created,
            exchange.used() == Set::<HxRequestHeader>::empty(),
            exchange.watched() == Set::<HxRequestHeader>::full(),
    {
        Exchange { stage: Stage::Created, ledger: Ledger::new() }
    }

    /// The exchange of a request that has just come in, with a ledger for
    /// the headers of `watched`.
    pub fn begin_watching(watched: Catalogue) -> (exchange: Exchange)
        ensures
            exchange.stage_of() == Stage::Created,
            exchange.used() == Set::<HxRequestHeader>::empty(),
            exchange.watched() == watched@,
    {
        Exchange { stage: Stage::Created, ledger: Ledger::watching(watched) }
    }

    /// The stage of the exchange.
    pub fn stage(&self) -> (stage: Stage)
        ensures
            stage == self.stage_of(),
    {
        self.stage
    }

    /// The ledger of the exchange.
    pub fn ledger(&self) -> (ledger: &Ledger)
        ensures
            ledger@ == self.used(),
    {
        &self.ledger
    }

    /// Takes `signal` in: moves to the next stage, records a reported header
    /// while the handler runs, and hands out the `Vary` entries once, when the
    /// response is ready.
    pub fn step(&mut self, signal: Signal) -> (action: Action)
        ensures
            final(self).stage_of() == next_stage(old(self).stage_of(), signal),
            final(self).watched() == old(self).watched(),
            final(self).used() == next_used(
                old(self).stage_of(),
                old(self).used(),
                old(self).watched(),
                signal,
            ),
            action@ == next_action(old(self).stage_of(), old(self).used(), signal),
    {
        let open = match self.stage {
            Stage::Created => true,
            Stage::Accumulating => true,
            _ => false,
        };
        match signal {
            Signal::Reported(header) => {
                if open {
                    self.ledger.report(header);
                    self.stage = Stage::Accumulating;
                }
                Action::Nothing
            },
            Signal::ResponseReady => {
                if open {
                    self.stage = Stage::Finalizing;
                    Action::Append(self.ledger.vary_entries())
                } else {
                    Action::Nothing
                }
            },
            Signal::Appended => {
                match self.stage {
                    Stage::Finalizing => {
                        self.stage = Stage::Applied;
                    },
                    _ => {},
                }
                Action::Nothing
            },
            Signal::Dropped => {
                self.stage = Stage::Discarded;
                Action::Nothing
            },
        }
    }
}

/// What a store holds: the stage of the exchange, the headers that were
/// recorded, and the headers that the ledger takes in.
pub ghost struct Held {
    pub stage: Stage,
    pub used: Set<HxRequestHeader>,
    pub watched: Set<HxRequestHeader>,
}

/// What a store holds after `signal`: a store without a ledger stays as it
/// is.
pub open spec fn after_signal(store: Option<Held>, signal: Signal) -> Option<Held> {
    match store {
        Some(held) => Some(
            Held {
                stage: next_stage(held.stage, signal),
                used: next_used(held.stage, held.used, held.watched, signal),
                watched: held.watched,
            },
        ),
        None => None,
    }
}

/// What a store holds after a report of `header`.
pub open spec fn after_report(store: Option<Held>, header: HxRequestHeader) -> Option<Held> {
    after_signal(store, Signal::Reported(header))
}

/// The place in a request's own storage where its exchange is kept.
#[derive(Debug, Clone, PartialEq, Eq, Hash)]
pub struct Store {
    attached: bool,
    exchange: Exchange,
}

impl View for Store {
    type V = Option<Held>;

    closed spec fn view(&self) -> Option<Held> {
        if self.attached {
            Some(
                Held {
                    stage: self.exchange.stage_of(),
                    used: self.exchange.used(),
                    watched: self.exchange.watched(),
                },
            )
        } else {
            None
        }
    }
}

impl Store {
    /// A store that holds no ledger.
    pub fn new() -> (store: Store)
        ensures
            store@ is None,
    {
        Store { attached: false, exchange: Exchange::begin() }
    }

    /// Puts a fresh, empty ledger for every header of the catalogue into the
    /// store. A store that holds a ledger keeps it as it is, and the answer
    /// is `false`.
    pub fn attach(&mut self) -> (installed: bool)
        ensures
            installed == (old(self)@ is None),
            installed ==> final(self)@ == Some(
                Held {
                    stage: Stage::Created,
                    used: Set::<HxRequestHeader>::empty(),
                    watched: Set::<HxRequestHeader>::full(),
                },
            ),
            !installed ==> final(self)@ == old(self)@,
    {
        self.attach_watching(Catalogue::all())
    }

    /// Puts a fresh, empty ledger for the headers of `watched` into the
    /// store. A store that holds a ledger keeps it as it is, and the answer
    /// is `false`.
    pub fn attach_watching(&mut self, watched: Catalogue) -> (installed: bool)
        ensures
            installed == (old(self)@ is None),
            installed ==> final(self)@ == Some(
                Held {
                    stage: Stage::Created,
                    used: Set::<HxRequestHeader>::empty(),
                    watched: watched@,
                },
            ),
            !installed ==> final(self)@ == old(self)@,
    {
        if self.attached {
            false
        } else {
            self.exchange = Exchange::begin_watching(watched);
            self.attached = true;
            true
        }
    }

    /// Whether the store holds a ledger.
    pub fn is_attached(&self) -> (attached: bool)
        ensures
            attached == (self@ is Some),
    {
        self.attached
    }

    /// The stage of the exchange in the store, if there is one.
    pub fn stage(&self) -> (stage: Option<Stage>)
        ensures
            stage == (match self@ {
                Some(held) => Some(held.stage),
                None => None,
            }),
    {
        if self.attached {
            Some(self.exchange.stage())
        } else {
            None
        }
    }

    /// The ledger in the store, if there is one.
    pub fn ledger(&self) -> (ledger: Option<&Ledger>)
        ensures
            ledger is Some <==> self@ is Some,
            ledger matches Some(l) ==> (self@ matches Some(held) && l@ == held.used),
    {
        if self.attached {
            Some(self.exchange.ledger())
        } else {
            None
        }
    }

    /// Records in the store's ledger that `header` was read. Without a ledger
    /// nothing happens.
    pub fn report(&mut self, header: HxRequestHeader)
        ensures
            final(self)@ == after_report(old(self)@, header),
    {
        if self.attached {
            let _ = self.exchange.step(Signal::Reported(header));
        }
    }

    /// Takes `signal` in, as `Exchange::step` does. Without a ledger nothing
    /// happens and nothing is to be done.
    pub fn signal(&mut self, signal: Signal) -> (action: Action)
        ensures
            final(self)@ == after_signal(old(self)@, signal),
            action@ == (match old(self)@ {
                Some(held) => next_action(held.stage, held.used, signal),
                None => None,
            }),
    {
        if self.attached {
            self.exchange.step(signal)
        } else {
            Action::Nothing
        }
    }
}

} // verus!
