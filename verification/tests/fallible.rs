use polonius_the_crab::Never;
use polonius_the_crab::Placeholder;
use polonius_the_crab::PoloniusResult;
use polonius_the_crab::Residual;
use polonius_the_crab::Try;
use polonius_the_crab::polonius;
use std::collections::HashMap;

#[derive(Debug, PartialEq)]
enum SideEffectError {
    Boom,
}

#[derive(Debug, PartialEq)]
enum OuterError {
    Wrapped,
}

impl From<SideEffectError> for OuterError {
    fn from(_: SideEffectError) -> OuterError {
        OuterError::Wrapped
    }
}

fn fallible_operation(_value: i32) -> Result<(), SideEffectError> {
    Ok(())
}

fn failing_operation(_value: i32) -> Result<(), SideEffectError> {
    Err(SideEffectError::Boom)
}

#[test]
fn fallible_lookup_with_error_conversion() {
    let mut map: HashMap<i32, i32> = HashMap::new();
    map.insert(22, 42);
    let r = polonius(&mut map, |m: &mut HashMap<i32, i32>| -> PoloniusResult<
        Result<i32, OuterError>,
        (),
        Placeholder,
    > {
        if let Some(&value) = m.get(&22) {
            // the `?` step: probe the side effect, sending a failure
            // residual out through the Borrowing side
            let probe: Result<(), Result<Never, OuterError>> = Try::branch(fallible_operation(
                value,
            ));
            match probe {
                Ok(()) => {}
                Err(residual) => {
                    return PoloniusResult::Borrowing(
                        <Result<Never, OuterError> as Residual<i32>>::with_output(residual),
                    );
                }
            }
            return PoloniusResult::Borrowing(Ok(value));
        }
        PoloniusResult::Owned { value: (), input_borrow: Placeholder }
    });
    match r {
        PoloniusResult::Borrowing(res) => assert_eq!(res, Ok(42)),
        PoloniusResult::Owned { .. } => panic!("the entry was present"),
    }
    assert_eq!(map.len(), 1);
}

#[test]
fn fallible_lookup_propagates_converted_error() {
    let mut map: HashMap<i32, i32> = HashMap::new();
    map.insert(22, 42);
    let r = polonius(&mut map, |m: &mut HashMap<i32, i32>| -> PoloniusResult<
        Result<i32, OuterError>,
        (),
        Placeholder,
    > {
        if let Some(&value) = m.get(&22) {
            let probe: Result<(), Result<Never, OuterError>> = Try::branch(failing_operation(
                value,
            ));
            match probe {
                Ok(()) => {}
                Err(residual) => {
                    return PoloniusResult::Borrowing(
                        <Result<Never, OuterError> as Residual<i32>>::with_output(residual),
                    );
                }
            }
            return PoloniusResult::Borrowing(Ok(value));
        }
        PoloniusResult::Owned { value: (), input_borrow: Placeholder }
    });
    match r {
        PoloniusResult::Borrowing(res) => assert_eq!(res, Err(OuterError::Wrapped)),
        PoloniusResult::Owned { .. } => panic!("the entry was present"),
    }
}

#[test]
fn result_branch_success() {
    let r: Result<i32, Result<Never, OuterError>> = Try::branch(
        Ok::<i32, SideEffectError>(5),
    );
    match r {
        Ok(v) => assert_eq!(v, 5),
        Err(_) => panic!("a success value splits into its payload"),
    }
}

#[test]
fn result_branch_failure_converts_error() {
    let r: Result<i32, Result<Never, OuterError>> = Try::branch(Err::<i32, SideEffectError>(
        SideEffectError::Boom,
    ));
    match r {
        Ok(_) => panic!("a failure value leaves a residual"),
        Err(residual) => {
            let completed: Result<i32, OuterError> =
                <Result<Never, OuterError> as Residual<i32>>::with_output(residual);
            assert_eq!(completed, Err(OuterError::Wrapped));
        }
    }
}

#[test]
fn option_branch_success() {
    let r: Result<i32, Option<Never>> = Try::branch(Some(5));
    match r {
        Ok(v) => assert_eq!(v, 5),
        Err(_) => panic!("a present value splits into its payload"),
    }
}

#[test]
fn option_branch_failure_completes_to_none() {
    let r: Result<i32, Option<Never>> = Try::branch(None::<i32>);
    match r {
        Ok(_) => panic!("an absent value leaves a residual"),
        Err(residual) => {
            let completed: Option<i32> = <Option<Never> as Residual<i32>>::with_output(residual);
            assert_eq!(completed, None);
        }
    }
}
