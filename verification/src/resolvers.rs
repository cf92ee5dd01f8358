//! The resolvers: one function for each field of the query and mutation types.
//!
//! No resolver keeps state, and no command is forwarded anywhere: there is no
//! device behind this API yet. A mutation decodes its input and answers.

use vstd::prelude::*;
use crate::command::{DispenseCommand, SelectionError};
use crate::input::{
    DispenseCommandUnionNestedIdInput,
    DispenseCommandUnionWithIdInput,
    DispenseManualModeCommandInput,
    DispenseWeightCommandInput,
};

verus! {

/// The text every resolver answers with when it accepts its request.
pub open spec fn success() -> Seq<char> {
    "Success"@
}

/// The answer owed for a union-style input, given what the input selects:
/// the success text where it selects a command, the selection's error
/// otherwise.
pub open spec fn answers(
    answer: Result<String, SelectionError>,
    selection: Result<DispenseCommand, SelectionError>,
) -> bool {
    match selection {
        Ok(_) => answer matches Ok(text) && text@ == success(),
        Err(error) => answer == Err::<String, SelectionError>(error),
    }
}

/// The fields of the query type.
pub struct Query;

/// The fields of the mutation type.
pub struct Mutation;

impl Query {
    /// Always answers with the success text.
    pub fn test() -> (text: String)
        ensures
            text@ == success(),
    {
        "Success".to_owned()
    }
}

impl Mutation {
    /// Accepts the input exactly when one of its two alternatives is present.
    pub fn dispense_command_union_with_id_input(input: DispenseCommandUnionWithIdInput) -> (answer:
        Result<String, SelectionError>)
        ensures
            answers(answer, input.selection()),
    {
        match DispenseCommand::try_from(input) {
            Ok(_command) => Ok("Success".to_owned()),
            Err(error) => Err(error),
        }
    }

    /// Accepts the input exactly when one of its two alternatives is present.
    pub fn dispense_command_union_nested_id_input(input: DispenseCommandUnionNestedIdInput) -> (answer:
        Result<String, SelectionError>)
        ensures
            answers(answer, input.selection()),
    {
        match DispenseCommand::try_from(input) {
            Ok(_command) => Ok("Success".to_owned()),
            Err(error) => Err(error),
        }
    }

    /// Accepts every input, whatever its identifier and weight.
    pub fn dispense_weight_command(input: DispenseWeightCommandInput) -> (text: String)
        ensures
            text@ == success(),
    {
        let _command = DispenseCommand::from(input);
        "Success".to_owned()
    }

    /// Accepts every input, whatever its identifier.
    pub fn dispense_manual_mode_command(input: DispenseManualModeCommandInput) -> (text: String)
        ensures
            text@ == success(),
    {
        let _command = DispenseCommand::from(input);
        "Success".to_owned()
    }
}

} // verus!
