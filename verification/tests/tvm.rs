use tetcore::kernel::tvm::{ContractModule, GasSchedule, Opcode, Vm, VmContext};
use tetcore::kernel::Address;

#[test]
fn tvm_test_contract_deployment() {
    let mut module = ContractModule::new();
    let owner = Address([1u8; 32]);
    let code = vec![0x00];

    let result = module.deploy(owner, code, 0);
    assert!(result.is_ok());
}

#[test]
fn tvm_test_gas_schedule() {
    let schedule = GasSchedule::default();
    assert_eq!(schedule.step, 1);
    assert_eq!(schedule.storage_read, 50);
}

#[test]
fn tvm_test_vm_context() {
    let address = Address([1u8; 32]);
    let caller = Address([2u8; 32]);
    let context = VmContext::new(address, caller, caller, 1000);

    assert_eq!(context.gas_limit, 1000);
}

#[test]
fn tests_test_gas_schedule() {
    let schedule = GasSchedule::default();
    assert_eq!(schedule.step, 1);
    assert_eq!(schedule.storage_read, 50);
}

#[test]
fn tests_test_vm_context() {
    let address = Address([1u8; 32]);
    let caller = Address([2u8; 32]);
    let context = VmContext::new(address, caller, caller, 1000);

    assert_eq!(context.gas_limit, 1000);
}

#[test]
fn tests_test_contract_deployment() {
    let mut module = ContractModule::new();
    let owner = Address([1u8; 32]);
    let code = vec![0x00];

    let result = module.deploy(owner, code, 0);
    assert!(result.is_ok());
}

#[test]
fn test_contract_call() {
    let mut module = ContractModule::new();
    let owner = Address([1u8; 32]);

    let contract = module.deploy(owner, vec![0x00], 1000).unwrap();

    let result = module.call(&contract, owner, b"test", vec![], 10000, 0);

    assert!(result.is_ok());
}

#[test]
fn test_contract_balance_transfer() {
    let mut module = ContractModule::new();
    let owner = Address([1u8; 32]);
    let addr2 = Address([2u8; 32]);

    let contract_addr = module.deploy(owner, vec![0x00], 1000).unwrap();

    module.contracts.get_mut(&contract_addr).unwrap().balance = 500;

    let result = module.transfer(&contract_addr, &addr2, 100);
    assert!(result.is_ok());
    assert_eq!(module.get_balance(&addr2), 100);
}

#[test]
fn contract_transfer_beyond_balance_is_refused() {
    let mut module = ContractModule::new();
    let owner = Address([1u8; 32]);
    let contract_addr = module.deploy(owner, vec![0x00], 10).unwrap();
    let before = module.get_balance(&contract_addr);
    assert!(module.transfer(&contract_addr, &Address([2u8; 32]), before + 1).is_err());
    assert_eq!(module.get_balance(&Address([2u8; 32])), 0);
}

#[test]
fn opcode_decoding() {
    assert!(Opcode::from_u8(0x00).is_some());
    assert!(Opcode::from_u8(0xEE).is_none());
}

#[test]
fn contract_call_leaves_other_contracts_storage() {
    let mut module = ContractModule::new();
    let owner = Address([1u8; 32]);

    let mut writer = vec![0x20];
    writer.extend_from_slice(&7u128.to_le_bytes());
    writer.push(0x20);
    writer.extend_from_slice(&1u128.to_le_bytes());
    writer.push(0x22);
    let a = module.deploy(owner, writer, 0).unwrap();
    let b = module.deploy(owner, vec![0x00], 0).unwrap();
    assert_ne!(a, b);

    let result = module.call(&a, owner, b"write", vec![], 10000, 0).unwrap();
    assert!(result.success);
    assert_eq!(module.get_contract(&a).unwrap().storage.len(), 1);
    assert_eq!(module.get_contract(&b).unwrap().storage.len(), 0);
    assert_eq!(module.get_contract(&b).unwrap().nonce, 0);
}

#[test]
fn unknown_and_unimplemented_bytes_stop_after_one_step() {
    let address = Address([1u8; 32]);
    let caller = Address([2u8; 32]);
    for code in [vec![0x19u8, 0x00], vec![0x0cu8, 0x00], vec![0x83u8, 0x00]] {
        let mut context = VmContext::new(address, caller, caller, 1000);
        context.code = code;
        let mut vm = Vm::new(context);
        let result = vm.execute(&GasSchedule::default());
        assert!(!result.success);
        assert_eq!(result.gas_used, 1);
    }
}

#[test]
fn step_without_gas_stops_the_run() {
    let address = Address([1u8; 32]);
    let caller = Address([2u8; 32]);
    let mut context = VmContext::new(address, caller, caller, 1);
    context.code = vec![0x01, 0x01];
    let mut vm = Vm::new(context);
    let mut schedule = GasSchedule::default();
    schedule.step = 2;
    let result = vm.execute(&schedule);
    assert!(!result.success);
    assert_eq!(result.gas_used, 0);
}
