use tetcore::kernel::Address;
use tetcore::vm::tcl::{compile_to_bytecode, parse_tcl_source, TCLContract, TCLType};
use tetcore::vm::tvm::{ExecutionContext, GasSchedule, OpCode, TVM};
use tetcore::vm::VMError;

fn ctx(gas: u64) -> ExecutionContext {
    ExecutionContext { sender: Address([1u8; 32]), contract_address: Address([2u8; 32]), block_height: 7, gas_limit: gas, gas_remaining: gas }
}

#[test]
fn arithmetic_program_runs() {
    let tvm = TVM::new();
    let code = vec![0x50, 2, 0x50, 3, 0x01];
    let r = tvm.execute(ctx(100), &code, vec![]).unwrap();
    assert!(r.success);
    assert_eq!(r.gas_used, 7);
}

#[test]
fn sstore_records_change_and_call_halts() {
    let tvm = TVM::new();
    let code = vec![0x50, 5, 0x50, 9, 0x71, 0x33];
    let r = tvm.execute(ctx(100_000), &code, vec![]).unwrap();
    assert!(r.success);
    assert_eq!(r.return_data, vec![1u8]);
    assert_eq!(r.gas_used, 2 + 2 + 50000 + 3);
    let mut key = 5u64.to_le_bytes().to_vec();
    key.truncate(8);
    assert_eq!(r.storage_changes.get(&key).unwrap().len(), 16);
}

#[test]
fn errors_are_reported() {
    let tvm = TVM::new();
    assert_eq!(tvm.execute(ctx(100), &[0x01], vec![]).err(), Some(VMError::StackUnderflow));
    assert_eq!(tvm.execute(ctx(100), &[0x50, 1, 0x50, 0, 0x04], vec![]).err(), Some(VMError::DivisionByZero));
    assert_eq!(tvm.execute(ctx(100), &[0xEE], vec![]).err(), Some(VMError::InvalidOpcode));
    assert_eq!(tvm.execute(ctx(1), &[0x50, 1], vec![]).err(), Some(VMError::OutOfGas));
    assert_eq!(tvm.execute(ctx(100), &[0x50, 9, 0x30], vec![]).err(), Some(VMError::InvalidJump));
}

#[test]
fn revert_fails_without_error() {
    let tvm = TVM::new();
    let r = tvm.execute(ctx(100), &[0xFF], vec![]).unwrap();
    assert!(!r.success);
    assert_eq!(r.gas_used, 3);
}

#[test]
fn opcodes_and_gas() {
    assert_eq!(OpCode::from_byte(0x71), Some(OpCode::SSTORE));
    assert_eq!(OpCode::from_byte(0x07), None);
    assert_eq!(GasSchedule::default().get_op_gas(OpCode::SLOAD), 5000);
}

#[test]
fn deploy_and_read_back() {
    let mut tvm = TVM::new();
    tvm.deploy_contract(Address([3u8; 32]), vec![1, 2, 3]);
    assert_eq!(tvm.get_contract_bytecode(&Address([3u8; 32])).unwrap(), &vec![1u8, 2, 3]);
    assert!(tvm.get_contract_bytecode(&Address([4u8; 32])).is_none());
}

#[test]
fn front_end_yields_fixed_contract() {
    let c = parse_tcl_source("anything").unwrap();
    assert_eq!(c.name, "ParsedContract");
    assert_eq!(c.module.functions.len(), 1);
    let code = compile_to_bytecode(&c).unwrap();
    assert_eq!(code.len(), 45);
    assert_eq!(code[0], 0x50);
    assert_eq!(code[44], 0xf3);
    let mut t = TCLContract::new("x".to_string(), 2);
    t.add_storage_field("a".to_string(), TCLType::U64);
    assert_eq!(t.module.storage.fields.len(), 1);
}
