use steele::class::constant_pool::LookupError;
use steele::vm::errors::ExecutionError;
use steele::vm::local::Locals;
use steele::vm::operand_stack::OperandStack;
use steele::vm::types::{Double, Int, Long, Variable};

/// Bytes push and pop in last-in, first-out order.
#[test]
fn test_stack_push_pop() {
    let mut stack = OperandStack::new();
    stack.push(&[1, 2, 3]).unwrap();
    assert_eq!(stack.pop(), Ok(3));
    assert_eq!(stack.pop(), Ok(2));
    assert_eq!(stack.pop(), Ok(1));
    assert_eq!(stack.pop(), Err(ExecutionError::StackUnderflow));
}

/// A push that would exceed the maximum depth fails whole, leaving
/// the stack unchanged.
#[test]
fn test_stack_overflow() {
    let mut stack = OperandStack { max_depth: 4, stack: Vec::new() };
    stack.push(&[1, 2, 3]).unwrap();
    assert_eq!(stack.push(&[4, 5]), Err(ExecutionError::StackOverflow));
    assert_eq!(stack.stack, vec![1, 2, 3]);
    stack.push(&[4]).unwrap();
    assert_eq!(stack.stack, vec![1, 2, 3, 4]);
}

/// Fixed-width values are stored big-endian: the most significant
/// byte goes deepest.
#[test]
fn test_stack_big_endian() {
    let mut stack = OperandStack::new();
    stack.push_u32(0x11223344).unwrap();
    assert_eq!(stack.stack, vec![0x11, 0x22, 0x33, 0x44]);
    assert_eq!(stack.pop_u32(), Ok(0x11223344));
    stack.push_u64(0x1122334455667788).unwrap();
    assert_eq!(stack.pop_u64(), Ok(0x1122334455667788));
}

/// Building locals inserts a reserved slot after each long or double,
/// so the canonical indexing rule holds.
#[test]
fn test_locals_slot_rule() {
    let locals = Locals::new(vec![
        Variable::Int(Int { value: 1 }),
        Variable::Long(Long { value: 2 }),
        Variable::Int(Int { value: 3 }),
        Variable::Double(Double { bits: 4 }),
    ])
    .unwrap();
    assert_eq!(
        locals.variables,
        vec![
            Some(Variable::Int(Int { value: 1 })),
            Some(Variable::Long(Long { value: 2 })),
            None,
            Some(Variable::Int(Int { value: 3 })),
            Some(Variable::Double(Double { bits: 4 })),
            None,
        ]
    );
    assert_eq!(locals.get_int(0), Ok(Int { value: 1 }));
    assert_eq!(locals.get_long(1), Ok(Long { value: 2 }));
    // the reserved slot is absent
    match locals.get_long(2) {
        Err(LookupError::BadIndex(ie)) => assert_eq!(ie.index, 2),
        other => panic!("expected an index error, got {:?}", other),
    }
    // a slot of the wrong kind names both kinds
    match locals.get_long(0) {
        Err(LookupError::WrongType(te)) => {
            assert_eq!(te.wanted_type, "Long");
            assert_eq!(te.actual_type, "Int");
        }
        other => panic!("expected a type error, got {:?}", other),
    }
}

/// Writing a long into a slot reserves the following one.
#[test]
fn test_locals_set() {
    let mut locals = Locals { variables: Vec::new() };
    locals.set(2, Variable::Int(Int { value: 9 }));
    assert_eq!(
        locals.variables,
        vec![None, None, Some(Variable::Int(Int { value: 9 }))]
    );
    locals.set(0, Variable::Long(Long { value: 1 }));
    assert_eq!(
        locals.variables,
        vec![
            Some(Variable::Long(Long { value: 1 })),
            None,
            Some(Variable::Int(Int { value: 9 }))
        ]
    );
}
