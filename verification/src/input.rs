//! The four input encodings of a [`DispenseCommand`], and their decoding.
//!
//! Two encodings are union-style: they offer both alternatives as optional
//! fields, and are well formed only when exactly one is present. Decoding them
//! can fail, so they implement `TryFrom`. The other two encodings carry one
//! alternative each and always decode, so they implement `From`.

use vstd::prelude::*;
use vstd::std_specs::convert::{FromSpec, FromSpecImpl, TryFromSpecImpl};
use crate::command::{select, DispenseCommand, SelectionError};

verus! {

/// Union-style input with the identifier at the top level.
///
/// The value of `switch_to_manual_mode` carries no meaning: only its presence
/// counts.
#[derive(Clone, Copy, Debug, PartialEq, Eq)]
pub struct DispenseCommandUnionWithIdInput {
    pub id: i32,
    pub dispense_weight: Option<i32>,
    pub switch_to_manual_mode: Option<i32>,
}

/// The weight alternative of [`DispenseCommandUnionNestedIdInput`].
#[derive(Clone, Copy, Debug, PartialEq, Eq)]
pub struct DispenseWeightInput {
    pub id: i32,
    pub dispense_weight: i32,
}

/// The manual-mode alternative of [`DispenseCommandUnionNestedIdInput`].
#[derive(Clone, Copy, Debug, PartialEq, Eq)]
pub struct SwitchToManualModeInput {
    pub id: i32,
}

/// Union-style input with the identifier inside each alternative.
#[derive(Clone, Copy, Debug, PartialEq, Eq)]
pub struct DispenseCommandUnionNestedIdInput {
    pub dispense_weight: Option<DispenseWeightInput>,
    pub switch_to_manual_mode: Option<SwitchToManualModeInput>,
}

/// Input of the mutation that only dispenses a weight.
#[derive(Clone, Copy, Debug, PartialEq, Eq)]
pub struct DispenseWeightCommandInput {
    pub id: i32,
    pub weight: i32,
}

/// Input of the mutation that only switches to manual mode.
#[derive(Clone, Copy, Debug, PartialEq, Eq)]
pub struct DispenseManualModeCommandInput {
    pub id: i32,
}

impl DispenseCommandUnionWithIdInput {
    /// The command this input names, or why it names none.
    pub open spec fn selection(self) -> Result<DispenseCommand, SelectionError> {
        select(self.dispense_weight, self.switch_to_manual_mode is Some)
    }
}

impl DispenseCommandUnionNestedIdInput {
    /// The weight of the weight alternative, where that alternative is present.
    pub open spec fn weight(self) -> Option<i32> {
        match self.dispense_weight {
            Some(alternative) => Some(alternative.dispense_weight),
            None => None,
        }
    }

    /// The command this input names, or why it names none.
    pub open spec fn selection(self) -> Result<DispenseCommand, SelectionError> {
        select(self.weight(), self.switch_to_manual_mode is Some)
    }
}

/// A pair of alternatives selects a command exactly when one of the two is
/// present: the weight alone selects dispensing that weight, the switch alone
/// selects manual mode, and the error tells an empty pair from a full one.
pub proof fn lemma_selection_is_exclusive(weight: Option<i32>, manual: bool)
    ensures
        select(weight, manual) is Ok <==> (weight is Some) != manual,
        weight is Some && !manual ==> select(weight, manual) == Ok::<
            DispenseCommand,
            SelectionError,
        >(DispenseCommand::DispenseWeight(weight->Some_0)),
        weight is None && manual ==> select(weight, manual) == Ok::<
            DispenseCommand,
            SelectionError,
        >(DispenseCommand::SwitchToManualMode),
        weight is None && !manual ==> select(weight, manual) == Err::<
            DispenseCommand,
            SelectionError,
        >(SelectionError::NeitherSet),
        weight is Some && manual ==> select(weight, manual) == Err::<
            DispenseCommand,
            SelectionError,
        >(SelectionError::BothSet),
{
}

/// The two union-style encodings say the same thing: a flat input and a
/// nested one that offer the same weight and agree on the presence of the
/// switch select the same command, or fail alike. Identifiers play no part.
pub proof fn lemma_union_encodings_agree(
    flat: DispenseCommandUnionWithIdInput,
    nested: DispenseCommandUnionNestedIdInput,
)
    requires
        flat.dispense_weight == nested.weight(),
        flat.switch_to_manual_mode is Some <==> nested.switch_to_manual_mode is Some,
    ensures
        flat.selection() == nested.selection(),
{
}

/// The two single-purpose encodings are the two well-formed shapes of a
/// union: each decodes to what a union with only that alternative selects.
pub proof fn lemma_split_encodings_agree(
    weight_input: DispenseWeightCommandInput,
    manual_input: DispenseManualModeCommandInput,
)
    ensures
        select(Some(weight_input.weight), false) == Ok::<DispenseCommand, SelectionError>(
            <DispenseCommand as FromSpec<DispenseWeightCommandInput>>::from_spec(weight_input),
        ),
        select(None, true) == Ok::<DispenseCommand, SelectionError>(
            <DispenseCommand as FromSpec<DispenseManualModeCommandInput>>::from_spec(manual_input),
        ),
{
}

impl TryFromSpecImpl<DispenseCommandUnionWithIdInput> for DispenseCommand {
    open spec fn obeys_try_from_spec() -> bool {
        true
    }

    open spec fn try_from_spec(input: DispenseCommandUnionWithIdInput) -> Result<
        Self,
        SelectionError,
    > {
        input.selection()
    }
}

impl TryFrom<DispenseCommandUnionWithIdInput> for DispenseCommand {
    type Error = SelectionError;

    /// Decodes the input: `Ok` with the command of the one alternative that
    /// is present, `Err` where none or both are.
    fn try_from(input: DispenseCommandUnionWithIdInput) -> (decoded: Result<Self, SelectionError>)
        ensures
            decoded == input.selection(),
    {
        match (input.dispense_weight, input.switch_to_manual_mode) {
            (Some(weight), None) => Ok(DispenseCommand::DispenseWeight(weight)),
            (None, Some(_)) => Ok(DispenseCommand::SwitchToManualMode),
            (None, None) => Err(SelectionError::NeitherSet),
            (Some(_), Some(_)) => Err(SelectionError::BothSet),
        }
    }
}

impl TryFromSpecImpl<DispenseCommandUnionNestedIdInput> for DispenseCommand {
    open spec fn obeys_try_from_spec() -> bool {
        true
    }

    open spec fn try_from_spec(input: DispenseCommandUnionNestedIdInput) -> Result<
        Self,
        SelectionError,
    > {
        input.selection()
    }
}

impl TryFrom<DispenseCommandUnionNestedIdInput> for DispenseCommand {
    type Error = SelectionError;

    /// Decodes the input: `Ok` with the command of the one alternative that
    /// is present, its weight read from the nested record, `Err` where none
    /// or both are.
    fn try_from(input: DispenseCommandUnionNestedIdInput) -> (decoded: Result<
        Self,
        SelectionError,
    >)
        ensures
            decoded == input.selection(),
    {
        match (input.dispense_weight, input.switch_to_manual_mode) {
            (Some(weight_input), None) => Ok(
                DispenseCommand::DispenseWeight(weight_input.dispense_weight),
            ),
            (None, Some(_)) => Ok(DispenseCommand::SwitchToManualMode),
            (None, None) => Err(SelectionError::NeitherSet),
            (Some(_), Some(_)) => Err(SelectionError::BothSet),
        }
    }
}

impl FromSpecImpl<DispenseWeightCommandInput> for DispenseCommand {
    open spec fn obeys_from_spec() -> bool {
        true
    }

    open spec fn from_spec(input: DispenseWeightCommandInput) -> Self {
        DispenseCommand::DispenseWeight(input.weight)
    }
}

impl From<DispenseWeightCommandInput> for DispenseCommand {
    /// Always the command to dispense the input's weight.
    fn from(input: DispenseWeightCommandInput) -> (command: Self)
        ensures
            command == DispenseCommand::DispenseWeight(input.weight),
    {
        DispenseCommand::DispenseWeight(input.weight)
    }
}

impl FromSpecImpl<DispenseManualModeCommandInput> for DispenseCommand {
    open spec fn obeys_from_spec() -> bool {
        true
    }

    open spec fn from_spec(input: DispenseManualModeCommandInput) -> Self {
        DispenseCommand::SwitchToManualMode
    }
}

impl From<DispenseManualModeCommandInput> for DispenseCommand {
    /// Always the command to switch to manual mode.
    fn from(input: DispenseManualModeCommandInput) -> (command: Self)
        ensures
            command == DispenseCommand::SwitchToManualMode,
    {
        DispenseCommand::SwitchToManualMode
    }
}

} // verus!
