use polonius_the_crab::Dependent;
use polonius_the_crab::LoopStep;
use polonius_the_crab::Placeholder;
use polonius_the_crab::PoloniusResult;
use polonius_the_crab::loops::polonius_loop_iteration;
use polonius_the_crab::polonius_loop_step;
use std::collections::HashMap;
use std::ops::ControlFlow;

#[test]
fn loop_step_dispatch_rows() {
    // a dependent return exits the enclosing function
    let step = polonius_loop_step::<i32, u8, u16, i64>(PoloniusResult::Borrowing(
        Dependent::Return(5),
    ));
    assert!(matches!(step, LoopStep::ReturnValue(5)));

    // a dependent break exits the loop without the borrow
    let step = polonius_loop_step::<i32, u8, u16, i64>(PoloniusResult::Borrowing(
        Dependent::Break(7),
    ));
    assert!(matches!(step, LoopStep::BreakDependent(7)));

    // a plain break exits the loop with the borrow beside it
    let step = polonius_loop_step::<i32, u8, u16, i64>(PoloniusResult::Owned {
        value: ControlFlow::Break(9),
        input_borrow: 100,
    });
    assert!(matches!(step, LoopStep::BreakValue { value: 9, input_borrow: 100 }));

    // a continue rebinds the borrow for the next iteration
    let step = polonius_loop_step::<i32, u8, u16, i64>(PoloniusResult::Owned {
        value: ControlFlow::Continue(()),
        input_borrow: 100,
    });
    assert!(matches!(step, LoopStep::NextIteration { input_borrow: 100 }));
}

#[test]
fn continue_restores_state() {
    let mut x: u64 = 0;
    let out = loop {
        let step = polonius_loop_iteration(&mut x, |v: &mut u64| -> PoloniusResult<
            Dependent<u64, u8>,
            ControlFlow<u8>,
            Placeholder,
        > {
            if *v < 3 {
                *v += 1;
                PoloniusResult::Owned { value: ControlFlow::Continue(()), input_borrow: Placeholder }
            } else {
                PoloniusResult::Borrowing(Dependent::Return(*v))
            }
        });
        match step {
            LoopStep::ReturnValue(v) => break v,
            LoopStep::NextIteration { input_borrow } => {
                // the state variable is rebound to the same state for the
                // next iteration, holding what the branch left
                assert!(*input_borrow <= 3);
            }
            _ => panic!("no break is ever signalled"),
        }
    };
    assert_eq!(out, 3);
    assert_eq!(x, 3);
}

enum Value {
    Alive(i32),
    Dead,
}

#[test]
fn loop_over_tombstones() {
    let mut map: HashMap<usize, Value> = HashMap::new();
    map.insert(0, Value::Dead);
    map.insert(1, Value::Dead);
    map.insert(2, Value::Alive(7));
    let mut idx: usize = 0;
    let result = loop {
        let step = polonius_loop_iteration(&mut map, |m: &mut HashMap<usize, Value>| -> PoloniusResult<
            Dependent<i32, u8>,
            ControlFlow<u8>,
            Placeholder,
        > {
            match m.get(&idx) {
                Some(&Value::Alive(v)) => PoloniusResult::Borrowing(Dependent::Return(v)),
                Some(&Value::Dead) => PoloniusResult::Owned {
                    value: ControlFlow::Continue(()),
                    input_borrow: Placeholder,
                },
                None => panic!("scan ran past the mapping"),
            }
        });
        match step {
            LoopStep::ReturnValue(v) => break v,
            LoopStep::NextIteration { input_borrow: _ } => idx += 1,
            _ => panic!("no break is ever signalled"),
        }
    };
    assert_eq!(result, 7);
    assert_eq!(idx, 2);
}

#[test]
fn dependent_break_from_loop() {
    let mut map: HashMap<usize, String> = HashMap::new();
    map.insert(0, String::new());
    map.insert(1, String::from("hi"));
    let mut i: usize = 0;
    let found_key = loop {
        let step = polonius_loop_iteration(&mut map, |m: &mut HashMap<usize, String>| -> PoloniusResult<
            Dependent<u8, usize>,
            ControlFlow<u8>,
            Placeholder,
        > {
            match m.get(&i) {
                Some(s) if s.is_empty() => PoloniusResult::Borrowing(Dependent::Break(i)),
                _ => PoloniusResult::Owned {
                    value: ControlFlow::Continue(()),
                    input_borrow: Placeholder,
                },
            }
        });
        match step {
            LoopStep::BreakDependent(k) => break k,
            LoopStep::NextIteration { input_borrow: _ } => i += 1,
            _ => panic!("the scan neither returns nor breaks plainly"),
        }
    };
    assert_eq!(found_key, 0);
    map.get_mut(&found_key).unwrap().push('!');
    assert_eq!(map[&0], "!");
    assert_eq!(map[&1], "hi");
    assert_eq!(map.len(), 2);
}

#[test]
fn non_dependent_break_from_loop() {
    let mut map: HashMap<usize, i32> = HashMap::new();
    let mut i: usize = 0;
    let x = loop {
        let step = polonius_loop_iteration(&mut map, |m: &mut HashMap<usize, i32>| -> PoloniusResult<
            Dependent<i32, u8>,
            ControlFlow<usize>,
            Placeholder,
        > {
            if let Some(&entry) = m.get(&i) {
                PoloniusResult::Borrowing(Dependent::Return(entry))
            } else if i == 42 {
                PoloniusResult::Owned {
                    value: ControlFlow::Break(i),
                    input_borrow: Placeholder,
                }
            } else {
                PoloniusResult::Owned {
                    value: ControlFlow::Continue(()),
                    input_borrow: Placeholder,
                }
            }
        });
        match step {
            LoopStep::BreakValue { value, input_borrow } => {
                // the borrow is still usable after a non-dependent break
                input_borrow.insert(0, 1);
                break value;
            }
            LoopStep::NextIteration { input_borrow: _ } => i += 1,
            _ => panic!("the mapping is empty, nothing returns"),
        }
    };
    assert_eq!(x, 42);
    // the outer code still accesses the mapping
    assert_eq!(map.len(), 1);
    map.clear();
    assert_eq!(map.len(), 0);
}
