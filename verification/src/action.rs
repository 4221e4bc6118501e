use vstd::prelude::*;

verus! {

/// One instruction to the unverified bus runner: either write a payload to
/// the expander's bus address in a single transaction, or suspend the task.
#[derive(Debug, Clone, PartialEq, Eq)]
pub enum BusAction {
    /// Write these bytes to the device in one bus transaction.
    Write(Vec<u8>),
    /// Suspend for at least this many microseconds before the next action.
    DelayMicros(u64),
}

/// Mathematical image of a [`BusAction`], used by every contract.
#[verifier::ext_equal]
pub enum BusStep {
    Write(Seq<u8>),
    Delay(u64),
}

impl View for BusAction {
    type V = BusStep;

    open spec fn view(&self) -> BusStep {
        match self {
            BusAction::Write(bytes) => BusStep::Write(bytes@),
            BusAction::DelayMicros(us) => BusStep::Delay(*us),
        }
    }
}

/// The step sequence that a vector of actions stands for.
pub open spec fn steps_of(acts: Seq<BusAction>) -> Seq<BusStep> {
    acts.map(|i: int, a: BusAction| a@)
}

} // verus!
