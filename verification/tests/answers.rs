use dispense_api::input::{
    DispenseCommandUnionNestedIdInput, DispenseCommandUnionWithIdInput,
    DispenseManualModeCommandInput, DispenseWeightCommandInput, DispenseWeightInput,
    SwitchToManualModeInput,
};
use dispense_api::resolvers::{Mutation, Query};
use dispense_api::SelectionError;

#[test]
fn query_test_answers_success() {
    assert_eq!(Query::test(), "Success");
}

#[test]
fn weight_command_with_id_1_and_weight_500_answers_success() {
    let input = DispenseWeightCommandInput { id: 1, weight: 500 };
    assert_eq!(Mutation::dispense_weight_command(input), "Success");
}

#[test]
fn weight_command_answers_success_whatever_the_numbers() {
    for id in [i32::MIN, -1, 0, 1, i32::MAX] {
        for weight in [i32::MIN, -500, 0, 500, i32::MAX] {
            let input = DispenseWeightCommandInput { id, weight };
            assert_eq!(Mutation::dispense_weight_command(input), "Success");
        }
    }
}

#[test]
fn manual_mode_command_answers_success_whatever_the_identifier() {
    for id in [i32::MIN, -1, 0, 1, i32::MAX] {
        let input = DispenseManualModeCommandInput { id };
        assert_eq!(Mutation::dispense_manual_mode_command(input), "Success");
    }
}

#[test]
fn flat_union_with_weight_only_answers_success() {
    let input =
        DispenseCommandUnionWithIdInput { id: 2, dispense_weight: Some(10), switch_to_manual_mode: None };
    assert_eq!(Mutation::dispense_command_union_with_id_input(input), Ok("Success".to_string()));
}

#[test]
fn flat_union_with_switch_only_answers_success() {
    let input =
        DispenseCommandUnionWithIdInput { id: 2, dispense_weight: None, switch_to_manual_mode: Some(1) };
    assert_eq!(Mutation::dispense_command_union_with_id_input(input), Ok("Success".to_string()));
}

#[test]
fn flat_union_with_neither_answers_with_an_error() {
    let input =
        DispenseCommandUnionWithIdInput { id: 2, dispense_weight: None, switch_to_manual_mode: None };
    assert_eq!(Mutation::dispense_command_union_with_id_input(input), Err(SelectionError::NeitherSet));
}

#[test]
fn flat_union_with_both_answers_with_an_error_and_the_next_request_is_served() {
    let both = DispenseCommandUnionWithIdInput {
        id: 2,
        dispense_weight: Some(10),
        switch_to_manual_mode: Some(1),
    };
    assert_eq!(Mutation::dispense_command_union_with_id_input(both), Err(SelectionError::BothSet));

    let next =
        DispenseCommandUnionWithIdInput { id: 2, dispense_weight: Some(10), switch_to_manual_mode: None };
    assert_eq!(Mutation::dispense_command_union_with_id_input(next), Ok("Success".to_string()));
}

#[test]
fn nested_union_with_weight_only_answers_success() {
    let input = DispenseCommandUnionNestedIdInput {
        dispense_weight: Some(DispenseWeightInput { id: 5, dispense_weight: 120 }),
        switch_to_manual_mode: None,
    };
    assert_eq!(Mutation::dispense_command_union_nested_id_input(input), Ok("Success".to_string()));
}

#[test]
fn nested_union_with_switch_only_answers_success() {
    let input = DispenseCommandUnionNestedIdInput {
        dispense_weight: None,
        switch_to_manual_mode: Some(SwitchToManualModeInput { id: 5 }),
    };
    assert_eq!(Mutation::dispense_command_union_nested_id_input(input), Ok("Success".to_string()));
}

#[test]
fn nested_union_with_neither_answers_with_an_error() {
    let input = DispenseCommandUnionNestedIdInput { dispense_weight: None, switch_to_manual_mode: None };
    assert_eq!(
        Mutation::dispense_command_union_nested_id_input(input),
        Err(SelectionError::NeitherSet)
    );
}

#[test]
fn nested_union_with_both_answers_with_an_error() {
    let input = DispenseCommandUnionNestedIdInput {
        dispense_weight: Some(DispenseWeightInput { id: 5, dispense_weight: 120 }),
        switch_to_manual_mode: Some(SwitchToManualModeInput { id: 5 }),
    };
    assert_eq!(Mutation::dispense_command_union_nested_id_input(input), Err(SelectionError::BothSet));
}

#[test]
fn query_test_answers_success_after_any_mutations() {
    assert_eq!(Query::test(), "Success");

    let refused = DispenseCommandUnionWithIdInput {
        id: 1,
        dispense_weight: Some(1),
        switch_to_manual_mode: Some(1),
    };
    assert!(Mutation::dispense_command_union_with_id_input(refused).is_err());
    assert_eq!(Query::test(), "Success");

    let empty = DispenseCommandUnionNestedIdInput { dispense_weight: None, switch_to_manual_mode: None };
    assert!(Mutation::dispense_command_union_nested_id_input(empty).is_err());
    assert_eq!(Query::test(), "Success");

    assert_eq!(Mutation::dispense_weight_command(DispenseWeightCommandInput { id: 1, weight: 2 }), "Success");
    assert_eq!(Mutation::dispense_manual_mode_command(DispenseManualModeCommandInput { id: 1 }), "Success");
    assert_eq!(Query::test(), "Success");
}

#[test]
fn an_error_answer_carries_the_message_for_the_client() {
    let both = DispenseCommandUnionWithIdInput {
        id: 2,
        dispense_weight: Some(10),
        switch_to_manual_mode: Some(1),
    };
    let message = match Mutation::dispense_command_union_with_id_input(both) {
        Ok(text) => panic!("accepted with {text}"),
        Err(error) => error.message(),
    };
    assert_eq!(message, "exactly one of dispenseWeight or switchToManualMode must be set, but both are");
}
