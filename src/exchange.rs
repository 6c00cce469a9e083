use vstd::prelude::*;

verus! {

/// An exchange whose data the feed carries.
#[derive(Clone, Copy, Debug, PartialEq, Eq, Structural)]
pub enum ExchangeId {
    Hyperliquid,
    Lighter,
}

/// What the user selected: one exchange, or both at once.
#[derive(Clone, Copy, Debug, PartialEq, Eq, Structural)]
pub enum Selection {
    Hyperliquid,
    Lighter,
    Both,
}

impl ExchangeId {
    pub open spec fn spec_code(self) -> u8 {
        match self {
            ExchangeId::Hyperliquid => 1,
            ExchangeId::Lighter => 2,
        }
    }

    /// The numeric tag of the exchange on the outbound feed (1 or 2).
    pub fn code(&self) -> (r: u8)
        ensures
            r == self.spec_code(),
    {
        match self {
            ExchangeId::Hyperliquid => 1,
            ExchangeId::Lighter => 2,
        }
    }
}

impl Selection {
    pub open spec fn spec_from_code(code: u8) -> Selection {
        if code == 2 {
            Selection::Lighter
        } else if code == 3 {
            Selection::Both
        } else {
            Selection::Hyperliquid
        }
    }

    pub open spec fn spec_code(self) -> u8 {
        match self {
            Selection::Hyperliquid => 1,
            Selection::Lighter => 2,
            Selection::Both => 3,
        }
    }

    /// Whether adapters of `e` run under this selection.
    pub open spec fn includes(self, e: ExchangeId) -> bool {
        match self {
            Selection::Hyperliquid => e == ExchangeId::Hyperliquid,
            Selection::Lighter => e == ExchangeId::Lighter,
            Selection::Both => true,
        }
    }

    /// The adapters of a selection, in start order.
    pub open spec fn spec_adapters(self) -> Seq<ExchangeId> {
        match self {
            Selection::Hyperliquid => seq![ExchangeId::Hyperliquid],
            Selection::Lighter => seq![ExchangeId::Lighter],
            Selection::Both => seq![ExchangeId::Hyperliquid, ExchangeId::Lighter],
        }
    }

    /// Reads a selection command: 2 is Lighter, 3 is both, and any other
    /// code (1, or an unknown one such as 0) is Hyperliquid.
    pub fn from_code(code: u8) -> (r: Selection)
        ensures
            r == Selection::spec_from_code(code),
    {
        if code == 2 {
            Selection::Lighter
        } else if code == 3 {
            Selection::Both
        } else {
            Selection::Hyperliquid
        }
    }

    /// The command code of the selection (1, 2 or 3).
    pub fn code(&self) -> (r: u8)
        ensures
            r == self.spec_code(),
            Selection::spec_from_code(r) == *self,
    {
        match self {
            Selection::Hyperliquid => 1,
            Selection::Lighter => 2,
            Selection::Both => 3,
        }
    }

    pub fn includes_exchange(&self, e: ExchangeId) -> (r: bool)
        ensures
            r == self.includes(e),
    {
        match self {
            Selection::Hyperliquid => e == ExchangeId::Hyperliquid,
            Selection::Lighter => e == ExchangeId::Lighter,
            Selection::Both => true,
        }
    }

    /// The adapters to start for this selection. Under `Both` each adapter
    /// tags its records with its own exchange, never with a merged value.
    pub fn adapters(&self) -> (r: Vec<ExchangeId>)
        ensures
            r@ == self.spec_adapters(),
            forall|i: int| 0 <= i < r@.len() ==> self.includes(#[trigger] r@[i]),
    {
        match self {
            Selection::Hyperliquid => vec![ExchangeId::Hyperliquid],
            Selection::Lighter => vec![ExchangeId::Lighter],
            Selection::Both => vec![ExchangeId::Hyperliquid, ExchangeId::Lighter],
        }
    }
}

} // verus!
