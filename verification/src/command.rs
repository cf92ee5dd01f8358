//! The command a client can issue, and the error for a request that names
//! no single command.

use vstd::prelude::*;

verus! {

/// What the device is asked to do.
#[derive(Clone, Copy, Debug, PartialEq, Eq, Structural)]
pub enum DispenseCommand {
    /// Dispense the given weight amount.
    DispenseWeight(i32),
    /// Hand control over to the operator.
    SwitchToManualMode,
}

/// Why a union-style input names no single command.
#[derive(Clone, Copy, Debug, PartialEq, Eq, Structural)]
pub enum SelectionError {
    /// Neither alternative is present.
    NeitherSet,
    /// Both alternatives are present.
    BothSet,
}

/// The command selected by a pair of optional alternatives: the weight to
/// dispense, and whether the switch to manual mode is present.
///
/// Exactly one alternative has to be present; the error says which way the
/// pair fails otherwise.
pub open spec fn select(weight: Option<i32>, manual: bool) -> Result<
    DispenseCommand,
    SelectionError,
> {
    match (weight, manual) {
        (Some(w), false) => Ok(DispenseCommand::DispenseWeight(w)),
        (None, true) => Ok(DispenseCommand::SwitchToManualMode),
        (None, false) => Err(SelectionError::NeitherSet),
        (Some(_), true) => Err(SelectionError::BothSet),
    }
}

impl SelectionError {
    /// The text of [`SelectionError::message`].
    pub open spec fn message_text(self) -> Seq<char> {
        match self {
            SelectionError::NeitherSet =>
                "exactly one of dispenseWeight or switchToManualMode must be set, but neither is"@,
            SelectionError::BothSet =>
                "exactly one of dispenseWeight or switchToManualMode must be set, but both are"@,
        }
    }

    /// The message shown to the client that sent the input.
    pub fn message(&self) -> (text: String)
        ensures
            text@ == self.message_text(),
    {
        match self {
            SelectionError::NeitherSet =>
                "exactly one of dispenseWeight or switchToManualMode must be set, but neither is".to_owned(),
            SelectionError::BothSet =>
                "exactly one of dispenseWeight or switchToManualMode must be set, but both are".to_owned(),
        }
    }
}

} // verus!
