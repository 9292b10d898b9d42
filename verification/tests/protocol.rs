use contract_env::error::Malformed;
use contract_env::property::{property_value, Property, PropertyValue, ValueKind};
use contract_env::protocol::{Flags, Operation};
use contract_env::types::AccountId;

const ALL: [Operation; 14] = [
    Operation::GetProperty,
    Operation::SetProperty,
    Operation::ReadInput,
    Operation::WriteOutput,
    Operation::GetStorage,
    Operation::SetStorage,
    Operation::ClearStorage,
    Operation::GetRuntimeStorage,
    Operation::Invoke,
    Operation::Evaluate,
    Operation::Instantiate,
    Operation::EmitEvent,
    Operation::Random,
    Operation::Print,
];

fn run(start: Flags, ops: &[Operation]) -> Option<Flags> {
    let mut flags = start;
    for op in ops {
        if !flags.permits(*op) {
            return None;
        }
        flags = flags.after(*op);
    }
    Some(flags)
}

#[test]
fn an_invocation_starts_with_both_flags_down() {
    let flags = Flags::initial();
    assert!(!flags.has_interacted);
    assert!(!flags.has_returned_value);
    for op in ALL {
        assert!(flags.permits(op));
    }
}

#[test]
fn five_operations_count_as_interactions() {
    for op in ALL {
        let expected = matches!(
            op,
            Operation::GetProperty
                | Operation::SetProperty
                | Operation::ReadInput
                | Operation::WriteOutput
                | Operation::Random
        );
        assert_eq!(op.is_interaction(), expected);
        let after = Flags::initial().after(op);
        assert_eq!(after.has_interacted, expected);
        assert_eq!(after.has_returned_value, op == Operation::WriteOutput);
    }
}

#[test]
fn the_input_is_read_at_most_once() {
    let after = Flags::initial().after(Operation::ReadInput);
    assert!(after.has_interacted);
    assert!(!after.permits(Operation::ReadInput));
    for op in ALL {
        assert_eq!(run(Flags::initial(), &[Operation::ReadInput, op, Operation::ReadInput]), None);
    }
}

#[test]
fn the_input_is_read_before_any_interaction() {
    for op in ALL {
        let outcome = run(Flags::initial(), &[op, Operation::ReadInput]);
        assert_eq!(outcome.is_none(), op.is_interaction());
    }
}

#[test]
fn nothing_but_printing_follows_the_output() {
    let after = Flags::initial().after(Operation::WriteOutput);
    assert!(after.has_returned_value);
    for op in ALL {
        assert_eq!(after.permits(op), op == Operation::Print);
        let outcome = run(Flags::initial(), &[Operation::WriteOutput, Operation::Print, op]);
        assert_eq!(outcome.is_some(), op == Operation::Print);
    }
}

#[test]
fn flags_stay_set() {
    for first in ALL {
        for second in ALL {
            if let Some(end) = run(Flags::initial(), &[first, second]) {
                let middle = Flags::initial().after(first);
                assert!(!middle.has_interacted || end.has_interacted);
                assert!(!middle.has_returned_value || end.has_returned_value);
            }
        }
    }
}

#[test]
fn printing_changes_nothing() {
    for has_interacted in [false, true] {
        for has_returned_value in [false, true] {
            let flags = Flags { has_interacted, has_returned_value };
            assert!(flags.permits(Operation::Print));
            assert_eq!(flags.after(Operation::Print), flags);
        }
    }
}

#[test]
fn each_property_has_its_type() {
    assert_eq!(Property::Caller.kind(), ValueKind::AccountId);
    assert_eq!(Property::Address.kind(), ValueKind::AccountId);
    assert_eq!(Property::TransferredBalance.kind(), ValueKind::Balance);
    assert_eq!(Property::GasPrice.kind(), ValueKind::Balance);
    assert_eq!(Property::GasLeft.kind(), ValueKind::Balance);
    assert_eq!(Property::Balance.kind(), ValueKind::Balance);
    assert_eq!(Property::RentAllowance.kind(), ValueKind::Balance);
    assert_eq!(Property::MinimumBalance.kind(), ValueKind::Balance);
    assert_eq!(Property::NowInMs.kind(), ValueKind::Moment);
    assert_eq!(Property::BlockNumber.kind(), ValueKind::BlockNumber);
    assert_eq!(Property::Input.kind(), ValueKind::Input);
}

#[test]
fn only_the_rent_allowance_can_be_set() {
    let all = [
        Property::Caller,
        Property::TransferredBalance,
        Property::GasPrice,
        Property::GasLeft,
        Property::NowInMs,
        Property::Address,
        Property::Balance,
        Property::RentAllowance,
        Property::BlockNumber,
        Property::MinimumBalance,
        Property::Input,
    ];
    for property in all {
        assert_eq!(property.is_settable(), property == Property::RentAllowance);
        let expected =
            if property == Property::Input { Operation::ReadInput } else { Operation::GetProperty };
        assert_eq!(property.fetched_by(), expected);
    }
}

#[test]
fn a_property_decodes_into_its_type() {
    assert_eq!(
        property_value(Property::Caller, &[7; 32]),
        Ok(PropertyValue::AccountId(AccountId([7; 32])))
    );
    assert_eq!(
        property_value(Property::Address, &[8; 32]),
        Ok(PropertyValue::AccountId(AccountId([8; 32])))
    );
    let mut balance = [0u8; 16];
    balance[1] = 1;
    for property in [
        Property::TransferredBalance,
        Property::GasPrice,
        Property::GasLeft,
        Property::Balance,
        Property::RentAllowance,
        Property::MinimumBalance,
    ] {
        assert_eq!(property_value(property, &balance), Ok(PropertyValue::Balance(256)));
    }
    assert_eq!(
        property_value(Property::NowInMs, &[1, 0, 0, 0, 0, 0, 0, 0]),
        Ok(PropertyValue::Moment(1))
    );
    assert_eq!(
        property_value(Property::BlockNumber, &[0, 1, 0, 0, 0, 0, 0, 0]),
        Ok(PropertyValue::BlockNumber(256))
    );
    assert_eq!(PropertyValue::Moment(1).kind(), ValueKind::Moment);
    assert_eq!(PropertyValue::BlockNumber(1).kind(), ValueKind::BlockNumber);
    assert_eq!(PropertyValue::Balance(1).kind(), ValueKind::Balance);
    assert_eq!(PropertyValue::AccountId(AccountId([0; 32])).kind(), ValueKind::AccountId);
}

#[test]
fn malformed_property_bytes_are_refused() {
    assert_eq!(property_value(Property::Caller, &[7; 31]), Err(Malformed));
    assert_eq!(property_value(Property::Caller, &[7; 33]), Err(Malformed));
    assert_eq!(property_value(Property::Balance, &[0; 15]), Err(Malformed));
    assert_eq!(property_value(Property::Balance, &[0; 17]), Err(Malformed));
    assert_eq!(property_value(Property::Balance, &[0; 8]), Err(Malformed));
    assert_eq!(property_value(Property::NowInMs, &[0; 16]), Err(Malformed));
    assert_eq!(property_value(Property::NowInMs, &[]), Err(Malformed));
    assert_eq!(property_value(Property::BlockNumber, &[0; 4]), Err(Malformed));
}
