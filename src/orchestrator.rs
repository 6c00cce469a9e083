use vstd::prelude::*;

use crate::exchange::{ExchangeId, Selection};

verus! {

/// Where the asset universe of a selection comes from.
#[derive(Clone, Copy, Debug, PartialEq, Eq, Structural)]
pub enum UniverseSource {
    /// The full perpetuals universe of Hyperliquid.
    HyperliquidMeta,
    /// The symbols of the Lighter funding-rate listing.
    LighterListing,
}

/// The lookup that gives the universe of a selection: the Lighter listing for
/// Lighter alone, the Hyperliquid universe otherwise (both included).
pub open spec fn spec_universe_source(s: Selection) -> UniverseSource {
    if s == Selection::Lighter {
        UniverseSource::LighterListing
    } else {
        UniverseSource::HyperliquidMeta
    }
}

pub fn universe_source(s: Selection) -> (r: UniverseSource)
    ensures
        r == spec_universe_source(s),
{
    if s == Selection::Lighter {
        UniverseSource::LighterListing
    } else {
        UniverseSource::HyperliquidMeta
    }
}

/// Where an exchange switch stands.
#[derive(Clone, Copy, Debug, PartialEq, Eq, Structural)]
pub enum SwitchPhase {
    /// The adapters of the current selection run; no switch is under way.
    Running,
    /// The universe of the target selection is being fetched; the current
    /// adapters still run.
    Fetching(Selection),
    /// The current adapters are being cancelled and drained.
    Draining(Selection),
}

/// What the driver of the orchestrator is to do next.
#[derive(Debug)]
pub enum OrchestratorAction {
    /// Nothing to do.
    Nothing,
    /// Fetch the universe of `selection` from `source`, then report it with
    /// `universe_fetched`.
    FetchUniverse { selection: Selection, source: UniverseSource },
    /// Cancel every running adapter and wait until all have ended, then
    /// report `adapters_drained`.
    StopAdapters,
    /// Publish `universe` to the consumer, then start the adapters of
    /// `selection`, each tagging what it sends with `generation`.
    StartAdapters { selection: Selection, universe: Vec<String>, generation: u64 },
}

/// Supervises the running adapters across exchange switches, with a strict
/// stop-before-start order: the adapters of a new selection start only after
/// all those of the old one have been drained, and only readings of the
/// current generation of adapters reach the feed.
#[derive(Debug)]
pub struct Orchestrator {
    selection: Selection,
    universe: Vec<String>,
    generation: u64,
    phase: SwitchPhase,
    pending_universe: Vec<String>,
}

impl Orchestrator {
    pub closed spec fn spec_selection(self) -> Selection {
        self.selection
    }

    pub closed spec fn spec_universe(self) -> Seq<String> {
        self.universe@
    }

    /// The generation of the adapters started last.
    pub closed spec fn spec_generation(self) -> u64 {
        self.generation
    }

    pub closed spec fn spec_phase(self) -> SwitchPhase {
        self.phase
    }

    /// The universe fetched for the switch under way.
    pub closed spec fn spec_pending_universe(self) -> Seq<String> {
        self.pending_universe@
    }

    /// Whether a reading tagged `exchange` from an adapter of generation `g`
    /// goes onto the feed: only from the adapters started last, while they
    /// are not being drained, and only with an exchange of the selection.
    pub open spec fn forwards(self, g: u64, exchange: ExchangeId) -> bool {
        &&& !(self.spec_phase() is Draining)
        &&& g == self.spec_generation()
        &&& self.spec_selection().includes(exchange)
    }

    /// `after` is `before` once the drain of a switch has completed: the
    /// target selection and its universe are current, under a new generation.
    pub open spec fn drain_completes(before: Orchestrator, after: Orchestrator) -> bool {
        match before.spec_phase() {
            SwitchPhase::Draining(target) => {
                &&& after.spec_phase() == SwitchPhase::Running
                &&& after.spec_selection() == target
                &&& after.spec_universe() == before.spec_pending_universe()
                &&& after.spec_generation() == before.spec_generation() + 1
            },
            _ => false,
        }
    }

    /// An orchestrator whose adapters for `selection` are about to start, with
    /// `universe` as the asset universe, under generation 0.
    pub fn new(selection: Selection, universe: Vec<String>) -> (r: Orchestrator)
        ensures
            r.spec_selection() == selection,
            r.spec_universe() == universe@,
            r.spec_generation() == 0,
            r.spec_phase() == SwitchPhase::Running,
    {
        Orchestrator {
            selection,
            universe,
            generation: 0,
            phase: SwitchPhase::Running,
            pending_universe: Vec::new(),
        }
    }

    pub fn selection(&self) -> (r: Selection)
        ensures
            r == self.spec_selection(),
    {
        self.selection
    }

    pub fn generation(&self) -> (r: u64)
        ensures
            r == self.spec_generation(),
    {
        self.generation
    }

    pub fn phase(&self) -> (r: SwitchPhase)
        ensures
            r == self.spec_phase(),
    {
        self.phase
    }

    pub fn universe(&self) -> (r: &Vec<String>)
        ensures
            r@ == self.spec_universe(),
    {
        &self.universe
    }

    /// The action that starts the adapters of the current selection.
    pub fn startup(&self) -> (r: OrchestratorAction)
        ensures
            r matches OrchestratorAction::StartAdapters { selection, universe, generation } && selection
                == self.spec_selection() && universe@ == self.spec_universe() && generation
                == self.spec_generation(),
    {
        OrchestratorAction::StartAdapters {
            selection: self.selection,
            universe: self.universe.clone(),
            generation: self.generation,
        }
    }

    /// Takes an exchange-selection command. Selecting what is current is a
    /// no-op; another selection starts a switch by fetching its universe. A
    /// command that comes while a switch is under way is ignored.
    pub fn select(&mut self, code: u8) -> (r: OrchestratorAction)
        ensures
            final(self).spec_selection() == old(self).spec_selection(),
            final(self).spec_universe() == old(self).spec_universe(),
            final(self).spec_generation() == old(self).spec_generation(),
            final(self).spec_pending_universe() == old(self).spec_pending_universe(),
            ({
                let target = Selection::spec_from_code(code);
                if old(self).spec_phase() == SwitchPhase::Running && target != old(self).spec_selection() {
                    &&& final(self).spec_phase() == SwitchPhase::Fetching(target)
                    &&& r == OrchestratorAction::FetchUniverse {
                        selection: target,
                        source: spec_universe_source(target),
                    }
                } else {
                    &&& final(self).spec_phase() == old(self).spec_phase()
                    &&& r is Nothing
                }
            }),
    {
        let target = Selection::from_code(code);
        if self.phase == SwitchPhase::Running && target != self.selection {
            self.phase = SwitchPhase::Fetching(target);
            OrchestratorAction::FetchUniverse { selection: target, source: universe_source(target) }
        } else {
            OrchestratorAction::Nothing
        }
    }

    /// Takes the outcome of the universe fetch: `None` where it failed. On
    /// success the running adapters are to be stopped and drained; on failure
    /// the switch is abandoned and the current selection, universe and
    /// adapters stay as they are.
    pub fn universe_fetched(&mut self, fetched: Option<Vec<String>>) -> (r: OrchestratorAction)
        ensures
            final(self).spec_selection() == old(self).spec_selection(),
            final(self).spec_universe() == old(self).spec_universe(),
            final(self).spec_generation() == old(self).spec_generation(),
            match old(self).spec_phase() {
                SwitchPhase::Fetching(target) => match fetched {
                    Some(u) => {
                        &&& final(self).spec_phase() == SwitchPhase::Draining(target)
                        &&& final(self).spec_pending_universe() == u@
                        &&& r is StopAdapters
                    },
                    None => {
                        &&& final(self).spec_phase() == SwitchPhase::Running
                        &&& r is Nothing
                    },
                },
                _ => {
                    &&& final(self).spec_phase() == old(self).spec_phase()
                    &&& final(self).spec_pending_universe() == old(self).spec_pending_universe()
                    &&& r is Nothing
                },
            },
    {
        match self.phase {
            SwitchPhase::Fetching(target) => match fetched {
                Some(u) => {
                    self.pending_universe = u;
                    self.phase = SwitchPhase::Draining(target);
                    OrchestratorAction::StopAdapters
                },
                None => {
                    self.phase = SwitchPhase::Running;
                    OrchestratorAction::Nothing
                },
            },
            _ => OrchestratorAction::Nothing,
        }
    }

    /// Takes the report that every adapter of the old selection has ended.
    /// Only now does the target selection become current, under a new
    /// generation, and its adapters start after its universe is published.
    pub fn adapters_drained(&mut self) -> (r: OrchestratorAction)
        requires
            old(self).spec_generation() < u64::MAX,
        ensures
            old(self).spec_phase() is Draining ==> {
                &&& Orchestrator::drain_completes(*old(self), *final(self))
                &&& r matches OrchestratorAction::StartAdapters { selection, universe, generation }
                    && selection == final(self).spec_selection() && universe@
                    == final(self).spec_universe() && generation == final(self).spec_generation()
            },
            !(old(self).spec_phase() is Draining) ==> {
                &&& *final(self) == *old(self)
                &&& r is Nothing
            },
    {
        match self.phase {
            SwitchPhase::Draining(target) => {
                self.selection = target;
                let mut fetched: Vec<String> = Vec::new();
                std::mem::swap(&mut fetched, &mut self.pending_universe);
                self.universe = fetched;
                self.generation = self.generation + 1;
                self.phase = SwitchPhase::Running;
                OrchestratorAction::StartAdapters {
                    selection: self.selection,
                    universe: self.universe.clone(),
                    generation: self.generation,
                }
            },
            _ => OrchestratorAction::Nothing,
        }
    }

    /// Whether a reading tagged `exchange`, sent by an adapter of generation
    /// `generation`, goes onto the outbound feed.
    pub fn accepts(&self, generation: u64, exchange: ExchangeId) -> (r: bool)
        ensures
            r == self.forwards(generation, exchange),
    {
        let draining = match self.phase {
            SwitchPhase::Draining(_) => true,
            _ => false,
        };
        !draining && generation == self.generation && self.selection.includes_exchange(exchange)
    }
}

/// No cross-exchange leakage: once the drain of a switch has completed, no
/// reading of an adapter started before the switch reaches the feed, and every
/// reading that does carries an exchange of the new selection.
pub proof fn lemma_no_leak_after_switch(before: Orchestrator, after: Orchestrator, g: u64, exchange: ExchangeId)
    requires
        Orchestrator::drain_completes(before, after),
        g <= before.spec_generation(),
    ensures
        !after.forwards(g, exchange),
        forall|g2: u64, e2: ExchangeId| #[trigger] after.forwards(g2, e2) ==> after.spec_selection().includes(e2)
            && g2 > before.spec_generation(),
{
}

} // verus!
