use vstd::prelude::*;

use crate::exchange::Selection;

verus! {

/// The application's exchange-selection state, passed explicitly to the
/// orchestrator's command loop rather than shared behind a lock.
#[derive(Clone, Copy, Debug)]
pub struct App {
    current_exchange: u8,
}

impl App {
    pub closed spec fn spec_exchange(self) -> u8 {
        self.current_exchange
    }

    /// Starts on Hyperliquid (code 1).
    pub fn new() -> (r: App)
        ensures
            r.spec_exchange() == 1,
    {
        App { current_exchange: 1 }
    }

    /// The code of the selected exchange.
    pub fn get_exchange(&self) -> (r: u8)
        ensures
            r == self.spec_exchange(),
    {
        self.current_exchange
    }

    /// The selection that the current code stands for.
    pub fn selection(&self) -> (r: Selection)
        ensures
            r == Selection::spec_from_code(self.spec_exchange()),
    {
        Selection::from_code(self.current_exchange)
    }
}

impl Default for App {
    fn default() -> (r: App)
        ensures
            r.spec_exchange() == 1,
    {
        App::new()
    }
}

} // verus!
