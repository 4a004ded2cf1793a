use steele::class::constant_pool::ConstantPool;
use steele::isa::opcode::Opcode;
use steele::vm::errors::ExecutionError;
use steele::vm::frame::StackFrame;
use steele::vm::interpreter::{FloatRequest, Interpreter, Outcome};
use steele::vm::local::Locals;
use steele::vm::operand_stack::OperandStack;
use steele::vm::types::{Int, Type, Variable};

/// Computes the floating-point result that a request asks for, as the
/// interpreter's caller is expected to.
fn compute_float(req: FloatRequest) -> u64 {
    let fa = f32::from_bits(req.a as u32);
    let fb = f32::from_bits(req.b as u32);
    let da = f64::from_bits(req.a);
    let db = f64::from_bits(req.b);
    match req.op {
        Opcode::FAdd => (fa + fb).to_bits() as u64,
        Opcode::FSub => (fa - fb).to_bits() as u64,
        Opcode::FMul => (fa * fb).to_bits() as u64,
        Opcode::FDiv => (fa / fb).to_bits() as u64,
        Opcode::FRem => (fa % fb).to_bits() as u64,
        Opcode::DAdd => (da + db).to_bits(),
        Opcode::DSub => (da - db).to_bits(),
        Opcode::DMul => (da * db).to_bits(),
        Opcode::DDiv => (da / db).to_bits(),
        Opcode::DRem => (da % db).to_bits(),
        Opcode::I2F => ((req.a as u32 as i32) as f32).to_bits() as u64,
        Opcode::I2D => ((req.a as u32 as i32) as f64).to_bits(),
        Opcode::L2F => ((req.a as i64) as f32).to_bits() as u64,
        Opcode::L2D => ((req.a as i64) as f64).to_bits(),
        Opcode::F2I => ((fa as i32) as u32) as u64,
        Opcode::F2L => (fa as i64) as u64,
        Opcode::F2D => (fa as f64).to_bits(),
        Opcode::D2I => ((da as i32) as u32) as u64,
        Opcode::D2L => (da as i64) as u64,
        Opcode::D2F => (da as f32).to_bits() as u64,
        other => panic!("not a floating-point request: {:?}", other),
    }
}

/// Drives the interpreter to a return or a fault, computing any
/// floating-point requests on the way.
fn run(interpreter: &mut Interpreter) -> Result<Variable, ExecutionError> {
    let mut outcome = interpreter.execute()?;
    loop {
        match outcome {
            Outcome::Returned(v) => return Ok(v),
            Outcome::FloatRequest(req) => {
                let bits = compute_float(req);
                outcome = interpreter.resume_float(bits)?;
            }
        }
    }
}

fn frame_with(code: Vec<u8>, return_type: Type) -> StackFrame {
    StackFrame {
        invoker: None,
        code,
        return_type,
        constant_pool: ConstantPool::new(),
        operand_stack: OperandStack::new(),
        locals: Locals { variables: Vec::new() },
        pc: 0,
    }
}

fn run_i_test_cases(cases: Vec<(i32, i32, Opcode, i32)>) {
    for case in cases {
        let value1 = &case.0;
        let value2 = &case.1;
        let opcode = &case.2;
        let expected = &case.3;
        let mut interpreter = Interpreter::new(frame_with(vec![opcode.as_byte()], Type::I));
        println!("opcode: {:?} value_1: {} value_2: {}", opcode, value1, value2);
        interpreter.ipush(*value1).unwrap();
        if !matches!(opcode, Opcode::INeg) {
            interpreter.ipush(*value2).unwrap();
        }
        let _ = run(&mut interpreter);
        assert_eq!(interpreter.ipop().unwrap(), *expected);
    }
}

fn run_l_test_cases(cases: Vec<(i64, i64, Opcode, i64)>) {
    for case in cases {
        let value1 = &case.0;
        let value2 = &case.1;
        let opcode = &case.2;
        let expected = &case.3;
        let mut interpreter = Interpreter::new(frame_with(vec![opcode.as_byte()], Type::J));
        println!("opcode: {:?} value_1: {} value_2: {}", opcode, value1, value2);
        interpreter.lpush(*value1).unwrap();
        if !matches!(opcode, Opcode::LNeg) {
            interpreter.lpush(*value2).unwrap();
        }
        let _ = run(&mut interpreter);
        assert_eq!(interpreter.lpop().unwrap(), *expected);
    }
}

fn run_f_test_cases(cases: Vec<(f32, f32, Opcode, f32)>) {
    for case in cases {
        let value1 = &case.0;
        let value2 = &case.1;
        let opcode = &case.2;
        let expected = &case.3;
        let mut interpreter = Interpreter::new(frame_with(vec![opcode.as_byte()], Type::F));
        println!("opcode: {:?} value_1: {} value_2: {}", opcode, value1, value2);
        interpreter.fpush(value1.to_bits()).unwrap();
        if !matches!(opcode, Opcode::FNeg) {
            interpreter.fpush(value2.to_bits()).unwrap();
        }
        let _ = run(&mut interpreter);
        assert_eq!(f32::from_bits(interpreter.fpop().unwrap()), *expected);
    }
}

fn run_f_nan_test_cases(cases: Vec<(f32, f32, Opcode)>) {
    for case in cases {
        let value1 = case.0;
        let value2 = case.1;
        let opcode = case.2;
        let mut interpreter =
            Interpreter::new(frame_with(vec![opcode.as_byte(), opcode.as_byte()], Type::F));
        if !matches!(opcode, Opcode::FNeg) {
            interpreter.fpush(value2.to_bits()).unwrap();
        }
        println!("opcode: {:?} value_1: {} value_2: {}", opcode, value1, value2);
        interpreter.fpush(value1.to_bits()).unwrap();
        interpreter.fpush(value2.to_bits()).unwrap();
        let _ = run(&mut interpreter);
        assert!(f32::from_bits(interpreter.fpop().unwrap()).is_nan());
    }
}

fn run_d_test_cases(cases: Vec<(f64, f64, Opcode, f64)>) {
    for case in cases {
        let value1 = &case.0;
        let value2 = &case.1;
        let opcode = &case.2;
        let expected = &case.3;
        let mut interpreter = Interpreter::new(frame_with(vec![opcode.as_byte()], Type::D));
        println!("opcode: {:?} value_1: {} value_2: {}", opcode, value1, value2);
        interpreter.dpush(value1.to_bits()).unwrap();
        if !matches!(opcode, Opcode::DNeg) {
            interpreter.dpush(value2.to_bits()).unwrap();
        }
        let _ = run(&mut interpreter);
        assert_eq!(f64::from_bits(interpreter.dpop().unwrap()), *expected);
    }
}

fn run_d_nan_test_cases(cases: Vec<(f64, f64, Opcode)>) {
    for case in cases {
        let value1 = case.0;
        let value2 = case.1;
        let opcode = case.2;
        let mut interpreter =
            Interpreter::new(frame_with(vec![opcode.as_byte(), opcode.as_byte()], Type::D));
        if !matches!(opcode, Opcode::DNeg) {
            interpreter.dpush(value2.to_bits()).unwrap();
        }
        println!("opcode: {:?} value_1: {} value_2: {}", opcode, value1, value2);
        interpreter.dpush(value1.to_bits()).unwrap();
        interpreter.dpush(value2.to_bits()).unwrap();
        let _ = run(&mut interpreter);
        assert!(f64::from_bits(interpreter.dpop().unwrap()).is_nan());
    }
}

fn run_ireturn_test_cases(cases: Vec<(Opcode, Int)>) {
    for case in cases {
        let opcode = case.0.as_byte();
        let return_value = case.1;
        let mut interpreter = Interpreter::new(frame_with(vec![opcode], Type::I));
        println!("opcode: {:?} expected value: {:?}", opcode, return_value);
        interpreter.ipush(return_value.value).unwrap();
        let ret = run(&mut interpreter);
        let expected = return_value;
        assert_eq!(ret.unwrap(), Variable::Int(expected));
    }
}

#[test]
fn test_int_return() {
    let i_cases: Vec<(Opcode, Int)> = vec![
        (Opcode::IReturn, Int { value: 32 }),
        (Opcode::IReturn, Int { value: -1 }),
        (Opcode::IReturn, Int { value: i32::MAX }),
    ];
    run_ireturn_test_cases(i_cases);
}

#[test]
fn test_int_operations() {
    let i_cases: Vec<(i32, i32, Opcode, i32)> = vec![
        (1, 1, Opcode::IAdd, 2),
        (100, -1, Opcode::IAdd, 99),
        (1, 1, Opcode::ISub, 0),
        (0, 1, Opcode::ISub, -1),
        (i32::MIN, 1, Opcode::ISub, i32::MAX),
        (2, 2, Opcode::IMul, 4),
        (4, 2, Opcode::IDiv, 2),
        (4, 2, Opcode::IRem, 0),
        (4, 3, Opcode::IRem, 1),
        (1, 1, Opcode::IAnd, 1),
        (1, 1, Opcode::IOr, 1),
        (0, 0, Opcode::IOr, 0),
        (1, 0, Opcode::IXor, 1),
        (1, 1, Opcode::IShl, 2),
        (300, 0, Opcode::INeg, -300),
    ];
    run_i_test_cases(i_cases);
}

#[test]
fn test_long_operations() {
    let l_cases: Vec<(i64, i64, Opcode, i64)> = vec![
        (1, 1, Opcode::LAdd, 2),
        (100, -1, Opcode::LAdd, 99),
        (1, 1, Opcode::LSub, 0),
        (0, 1, Opcode::LSub, -1),
        (i64::MIN, 1, Opcode::LSub, i64::MAX),
        (2, 2, Opcode::LMul, 4),
        (4, 2, Opcode::LDiv, 2),
        (4, 2, Opcode::LRem, 0),
        (4, 3, Opcode::LRem, 1),
        (1, 1, Opcode::LAnd, 1),
        (1, 1, Opcode::LOr, 1),
        (0, 0, Opcode::LOr, 0),
        (1, 0, Opcode::LXor, 1),
        (1, 1, Opcode::LShl, 2),
        (300, 0, Opcode::LNeg, -300),
    ];
    run_l_test_cases(l_cases);
}

#[test]
fn test_float_operations() {
    let f_cases: Vec<(f32, f32, Opcode, f32)> = vec![
        (1.0, 1.0, Opcode::FAdd, 2.0),
        (100.0, -0.5, Opcode::FAdd, 99.5),
        (1.0, 1.0, Opcode::FSub, 0.0),
        (0.0, -0.5, Opcode::FSub, 0.5),
        (2.25, 2.0, Opcode::FMul, 4.50),
        (4.0, 2.0, Opcode::FDiv, 2.0),
        (5.0, 2.0, Opcode::FRem, 1.0),
        (1.0, 1.0, Opcode::FRem, 0.0),
        (300.0, 0.0, Opcode::FNeg, -300.0),
    ];
    let f_nan_cases: Vec<(f32, f32, Opcode)> = vec![
        (1.0, f32::NAN, Opcode::FAdd),
        (f32::NAN, 1.0, Opcode::FAdd),
        (f32::NAN, f32::NAN, Opcode::FAdd),
        (1.0, f32::NAN, Opcode::FSub),
        (f32::NAN, 1.0, Opcode::FSub),
        (f32::NAN, f32::NAN, Opcode::FSub),
        (1.0, f32::NAN, Opcode::FMul),
        (f32::NAN, 1.0, Opcode::FMul),
        (f32::NAN, f32::NAN, Opcode::FMul),
        (1.0, f32::NAN, Opcode::FDiv),
        (f32::NAN, 1.0, Opcode::FDiv),
        (f32::NAN, f32::NAN, Opcode::FDiv),
    ];
    run_f_test_cases(f_cases);
    run_f_nan_test_cases(f_nan_cases);
}

#[test]
fn test_double_operations() {
    let d_cases: Vec<(f64, f64, Opcode, f64)> = vec![
        (1.0, 1.0, Opcode::DAdd, 2.0),
        (100.0, -0.5, Opcode::DAdd, 99.5),
        (1.0, 1.0, Opcode::DSub, 0.0),
        (0.0, -0.5, Opcode::DSub, 0.5),
        (2.25, 2.0, Opcode::DMul, 4.50),
        (4.0, 2.0, Opcode::DDiv, 2.0),
        (5.0, 2.0, Opcode::DRem, 1.0),
        (1.0, 1.0, Opcode::DRem, 0.0),
        (300.0, 0.0, Opcode::DNeg, -300.0),
    ];
    let d_nan_cases: Vec<(f64, f64, Opcode)> = vec![
        (1.0, f64::NAN, Opcode::DAdd),
        (f64::NAN, 1.0, Opcode::DAdd),
        (f64::NAN, f64::NAN, Opcode::DAdd),
        (1.0, f64::NAN, Opcode::DSub),
        (f64::NAN, 1.0, Opcode::DSub),
        (f64::NAN, f64::NAN, Opcode::DSub),
        (1.0, f64::NAN, Opcode::DMul),
        (f64::NAN, 1.0, Opcode::DMul),
        (f64::NAN, f64::NAN, Opcode::DMul),
        (1.0, f64::NAN, Opcode::DDiv),
        (f64::NAN, 1.0, Opcode::DDiv),
        (f64::NAN, f64::NAN, Opcode::DDiv),
    ];
    run_d_test_cases(d_cases);
    run_d_nan_test_cases(d_nan_cases);
}

/// Test zero conditional branches.
///
/// If the check results in a branch, the PC will be set to 16 which
/// will break the interpreter loop. If the check does not result in a
/// branch, execution will continue to byte 3 (nop) which will
/// increment the PC to 4.
#[test]
fn test_zero_conditional_branches() {
    let cases = vec![
        (Opcode::IfEq, 0, 16),
        (Opcode::IfEq, 1, 4),
        (Opcode::IfGt, 1, 16),
        (Opcode::IfGt, 0, 4),
        (Opcode::IfLt, 0, 4),
        (Opcode::IfLt, -1, 16),
        (Opcode::IfGe, 0, 16),
        (Opcode::IfGe, 1, 16),
        (Opcode::IfGe, -1, 4),
        (Opcode::IfLe, 0, 16),
        (Opcode::IfLe, 1, 4),
        (Opcode::IfLe, -1, 16),
    ];
    for case in cases {
        let opcode = case.0.as_byte();
        let value = &case.1;
        let expected_pc = case.2;
        let frame = StackFrame::new();
        let mut interpreter = Interpreter::new(frame);
        interpreter.ipush(*value).unwrap();
        interpreter.frame.code = vec![
            opcode, // 0
            0u8,    // 1
            16u8,   // 2
            Opcode::Nop.as_byte(), // 3
        ];
        let _ = interpreter.execute();
        assert_eq!(interpreter.frame.pc, expected_pc);
    }
}

/// Test integer conditional branches.
///
/// If the check results in a branch, the PC will be set to 16 which
/// will break the interpreter loop. If the check does not result in a
/// branch, execution will continue to byte 3 (nop) which will
/// increment the PC to 4.
#[test]
fn test_integer_conditional_branches() {
    let cases = vec![
        (Opcode::IfICmpEq, 0, 0, 16),
        (Opcode::IfICmpEq, 1, 0, 4),
        (Opcode::IfICmpEq, 0, 1, 4),
        (Opcode::IfICmpGt, 0, 0, 4),
        (Opcode::IfICmpGt, 0, 1, 4),
        (Opcode::IfICmpGt, 1, 0, 16),
        (Opcode::IfICmpLt, 0, 0, 4),
        (Opcode::IfICmpLt, 1, 0, 4),
        (Opcode::IfICmpLt, 0, 1, 16),
        (Opcode::IfICmpGe, 0, 0, 16),
        (Opcode::IfICmpGe, 1, 0, 16),
        (Opcode::IfICmpGe, 0, 1, 4),
        (Opcode::IfICmpLe, 0, 0, 16),
        (Opcode::IfICmpLe, 1, 0, 4),
        (Opcode::IfICmpLe, 0, 1, 16),
    ];
    for case in cases {
        let opcode = case.0.as_byte();
        let value_1 = &case.1;
        let value_2 = &case.2;
        let expected_pc = case.3;
        let frame = StackFrame::new();
        let mut interpreter = Interpreter::new(frame);
        interpreter.ipush(*value_1).unwrap();
        interpreter.ipush(*value_2).unwrap();
        interpreter.frame.code = vec![
            opcode, // 0
            0u8,    // 1
            16u8,   // 2
            Opcode::Nop.as_byte(), // 3
        ];
        let _ = interpreter.execute();
        assert_eq!(interpreter.frame.pc, expected_pc);
    }
}

/// Test float comparisons.
///
/// The fcmpl and fcmpg opcodes should produce an identical top of
/// stack except for when one or both compared values are NaN. In that
/// case, fcmpg pushes 1 and fcmpl pushes -1.
#[test]
fn test_float_comparisons() {
    let cases: Vec<(Opcode, f32, f32, i32)> = vec![
        (Opcode::FCmpG, 0.0, 0.0, 0),
        (Opcode::FCmpG, 3.14, 3.14, 0),
        (Opcode::FCmpG, 0.0, -3.14, 1),
        (Opcode::FCmpG, -3.14, 0.0, -1),
        (Opcode::FCmpG, 0.0, -0.0, 0),
        (Opcode::FCmpG, 0.0, f32::NAN, 1),
        (Opcode::FCmpG, f32::NAN, 0.0, 1),
        (Opcode::FCmpG, f32::NAN, f32::NAN, 1),
        (Opcode::FCmpL, 0.0, 0.0, 0),
        (Opcode::FCmpL, 3.14, 3.14, 0),
        (Opcode::FCmpL, 0.0, -3.14, 1),
        (Opcode::FCmpL, -3.14, 0.0, -1),
        (Opcode::FCmpL, 0.0, -0.0, 0),
        (Opcode::FCmpL, 0.0, f32::NAN, -1),
        (Opcode::FCmpL, f32::NAN, 0.0, -1),
        (Opcode::FCmpL, f32::NAN, f32::NAN, -1),
    ];
    for case in cases {
        let opcode = case.0.as_byte();
        let value_1 = &case.1;
        let value_2 = &case.2;
        let expected = case.3;
        let frame = StackFrame::new();
        let mut interpreter = Interpreter::new(frame);
        interpreter.fpush(value_1.to_bits()).unwrap();
        interpreter.fpush(value_2.to_bits()).unwrap();
        interpreter.frame.code = vec![opcode];
        println!(
            "opcode: {:?} value_1: {} value_2: {}",
            Opcode::from_byte(opcode).unwrap(),
            value_1,
            value_2
        );
        let _ = interpreter.execute();
        assert_eq!(interpreter.ipop().unwrap(), expected);
    }
}

/// Test double comparisons.
///
/// The dcmpl and dcmpg opcodes should produce an identical top of
/// stack except for when one or both compared values are NaN. In that
/// case, dcmpg pushes 1 and dcmpl pushes -1.
#[test]
fn test_double_comparisons() {
    let cases: Vec<(Opcode, f64, f64, i32)> = vec![
        (Opcode::DCmpG, 0.0, 0.0, 0),
        (Opcode::DCmpG, 3.14, 3.14, 0),
        (Opcode::DCmpG, 0.0, -3.14, 1),
        (Opcode::DCmpG, -3.14, 0.0, -1),
        (Opcode::DCmpG, 0.0, -0.0, 0),
        (Opcode::DCmpG, 0.0, f64::NAN, 1),
        (Opcode::DCmpG, f64::NAN, 0.0, 1),
        (Opcode::DCmpG, f64::NAN, f64::NAN, 1),
        (Opcode::DCmpL, 0.0, 0.0, 0),
        (Opcode::DCmpL, 3.14, 3.14, 0),
        (Opcode::DCmpL, 0.0, -3.14, 1),
        (Opcode::DCmpL, -3.14, 0.0, -1),
        (Opcode::DCmpL, 0.0, -0.0, 0),
        (Opcode::DCmpL, 0.0, f64::NAN, -1),
        (Opcode::DCmpL, f64::NAN, 0.0, -1),
        (Opcode::DCmpL, f64::NAN, f64::NAN, -1),
    ];
    for case in cases {
        let opcode = case.0.as_byte();
        let value_1 = &case.1;
        let value_2 = &case.2;
        let expected = case.3;
        let frame = StackFrame::new();
        let mut interpreter = Interpreter::new(frame);
        interpreter.dpush(value_1.to_bits()).unwrap();
        interpreter.dpush(value_2.to_bits()).unwrap();
        println!(
            "opcode: {:?} value_1: {} value_2: {}",
            Opcode::from_byte(opcode).unwrap(),
            value_1,
            value_2
        );
        interpreter.frame.code = vec![opcode];
        let _ = interpreter.execute();
        assert_eq!(interpreter.ipop().unwrap(), expected);
    }
}

/// Whole-program arithmetic: constant pushes feeding arithmetic and a
/// typed return.
#[test]
fn test_arithmetic_programs() {
    // iconst_0, iconst_0, iadd, ireturn yields Int(0)
    let mut interpreter = Interpreter::new(frame_with(
        vec![
            Opcode::IConst0.as_byte(),
            Opcode::IConst0.as_byte(),
            Opcode::IAdd.as_byte(),
            Opcode::IReturn.as_byte(),
        ],
        Type::I,
    ));
    assert_eq!(run(&mut interpreter).unwrap(), Variable::Int(Int { value: 0 }));

    // bipush 100, iconst_m1, iadd, ireturn yields Int(99)
    let mut interpreter = Interpreter::new(frame_with(
        vec![
            Opcode::BIpush.as_byte(),
            100u8,
            Opcode::IConstM1.as_byte(),
            Opcode::IAdd.as_byte(),
            Opcode::IReturn.as_byte(),
        ],
        Type::I,
    ));
    assert_eq!(run(&mut interpreter).unwrap(), Variable::Int(Int { value: 99 }));

    // iconst_0, iconst_1, isub, ireturn: value 1 minus value 2, with
    // value 2 on top, yields Int(-1)
    let mut interpreter = Interpreter::new(frame_with(
        vec![
            Opcode::IConst0.as_byte(),
            Opcode::IConst1.as_byte(),
            Opcode::ISub.as_byte(),
            Opcode::IReturn.as_byte(),
        ],
        Type::I,
    ));
    assert_eq!(run(&mut interpreter).unwrap(), Variable::Int(Int { value: -1 }));
}

/// Shift counts are masked to five bits for ints and six for longs.
#[test]
fn test_shift_masking() {
    // shifting by 33 shifts by 1 for ints
    run_i_test_cases(vec![(1, 33, Opcode::IShl, 2), (8, 33, Opcode::IShr, 4)]);
    // shifting by 65 shifts by 1 for longs
    run_l_test_cases(vec![(1, 65, Opcode::LShl, 2), (8, 65, Opcode::LShr, 4)]);
    // unsigned right shift fills with zeros
    run_i_test_cases(vec![(-2, 1, Opcode::IUShr, i32::MAX)]);
    run_l_test_cases(vec![(-2, 1, Opcode::LUShr, i64::MAX)]);
}

/// Division and remainder by a zero divisor, value 2 on top of the
/// stack, fail with the arithmetic error.
#[test]
fn test_division_by_zero() {
    for opcode in [Opcode::IDiv, Opcode::IRem] {
        let mut interpreter = Interpreter::new(frame_with(vec![opcode.as_byte()], Type::I));
        interpreter.ipush(5).unwrap();
        interpreter.ipush(0).unwrap();
        assert_eq!(run(&mut interpreter), Err(ExecutionError::DivisionByZero));
    }
    for opcode in [Opcode::LDiv, Opcode::LRem] {
        let mut interpreter = Interpreter::new(frame_with(vec![opcode.as_byte()], Type::J));
        interpreter.lpush(5).unwrap();
        interpreter.lpush(0).unwrap();
        assert_eq!(run(&mut interpreter), Err(ExecutionError::DivisionByZero));
    }
}

/// Unknown code bytes fail to decode; decodable but unimplemented
/// opcodes fail at execute time, carrying the opcode.
#[test]
fn test_decode_and_unimplemented_errors() {
    let mut interpreter = Interpreter::new(frame_with(vec![0xCB], Type::V));
    assert_eq!(run(&mut interpreter), Err(ExecutionError::DecodeError(0xCB)));

    let mut interpreter = Interpreter::new(frame_with(vec![Opcode::InvokeVirtual.as_byte()], Type::V));
    assert_eq!(
        run(&mut interpreter),
        Err(ExecutionError::UnimplementedOpcode(Opcode::InvokeVirtual))
    );

    let mut interpreter = Interpreter::new(frame_with(Vec::new(), Type::V));
    assert_eq!(run(&mut interpreter), Err(ExecutionError::EndOfCode(0)));
}

/// A return instruction whose category does not match the declared
/// return type fails with both tags.
#[test]
fn test_bad_return_type() {
    let mut interpreter = Interpreter::new(frame_with(vec![Opcode::IReturn.as_byte()], Type::J));
    interpreter.ipush(1).unwrap();
    assert_eq!(
        run(&mut interpreter),
        Err(ExecutionError::BadReturnType(Type::J, Type::I))
    );
}

/// Loads and stores move values between the operand stack and the
/// local variable table, and a void return yields the null value.
#[test]
fn test_loads_stores_and_void_return() {
    // istore_0 then iload_0 round-trips a value through slot 0
    let mut interpreter = Interpreter::new(frame_with(
        vec![
            Opcode::IStore0.as_byte(),
            Opcode::ILoad0.as_byte(),
            Opcode::IReturn.as_byte(),
        ],
        Type::I,
    ));
    interpreter.ipush(77).unwrap();
    assert_eq!(run(&mut interpreter).unwrap(), Variable::Int(Int { value: 77 }));

    // a long store reserves the following slot
    let mut interpreter = Interpreter::new(frame_with(vec![Opcode::LStore0.as_byte()], Type::V));
    interpreter.lpush(5).unwrap();
    let _ = interpreter.execute();
    assert_eq!(
        interpreter.frame.locals.variables,
        vec![Some(Variable::Long(steele::vm::types::Long { value: 5 })), None]
    );

    let mut interpreter = Interpreter::new(frame_with(vec![Opcode::Return.as_byte()], Type::V));
    assert_eq!(
        run(&mut interpreter).unwrap(),
        Variable::Null(steele::vm::types::Null {})
    );
}

/// Integer narrowing conversions: i2b sign-extends, i2c zero-extends
/// and i2s sign-extends.
#[test]
fn test_narrowing_conversions() {
    for (opcode, input, expected) in [
        (Opcode::I2B, 0x1FF, -1),
        (Opcode::I2B, 127, 127),
        (Opcode::I2C, -1, 0xFFFF),
        (Opcode::I2S, 0x1FFFF, -1),
        (Opcode::I2S, 1234, 1234),
    ] {
        let mut interpreter = Interpreter::new(frame_with(
            vec![opcode.as_byte(), Opcode::IReturn.as_byte()],
            Type::I,
        ));
        interpreter.ipush(input).unwrap();
        assert_eq!(run(&mut interpreter).unwrap(), Variable::Int(Int { value: expected }));
    }
}
