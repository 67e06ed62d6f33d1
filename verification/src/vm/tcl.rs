//! The contract language: modules of structs, storage fields and functions
//! whose bodies are statements over expressions; and its front end.

use vstd::prelude::*;
use crate::table::{Table, TableKey};
use crate::vm::VMError;

verus! {

#[derive(Debug)]
pub struct TCLModule {
    pub name: String,
    pub version: u32,
    pub structs: Vec<TCLStruct>,
    pub storage: TCLStorage,
    pub functions: Vec<TCLFunction>,
}

#[derive(Clone, Debug)]
pub struct TCLStruct {
    pub name: String,
    pub fields: Vec<TCLField>,
}

#[derive(Clone, Debug)]
pub struct TCLField {
    pub name: String,
    pub field_type: TCLType,
}

#[derive(Clone, Copy, Debug, PartialEq, Eq, Structural)]
pub enum TCLType {
    U8,
    U16,
    U32,
    U64,
    U128,
    I64,
    Bool,
    Address,
    Hash32,
    Bytes(u32),
    String(u32),
}

/// The storage fields of a module, by name.
#[derive(Clone, Debug)]
pub struct TCLStorage {
    pub fields: Table<String, TCLType>,
}

impl Default for TCLStorage {
    fn default() -> (r: Self)
        ensures
            r.fields.wf(),
            r.fields@ == Map::<Seq<char>, TCLType>::empty(),
    {
        TCLStorage { fields: Table::new() }
    }
}

#[derive(Debug)]
pub struct TCLFunction {
    pub name: String,
    pub params: Vec<TCLParameter>,
    pub body: Vec<TCLStatement>,
    pub visibility: TCLVisibility,
}

#[derive(Clone, Debug)]
pub struct TCLParameter {
    pub name: String,
    pub param_type: TCLType,
}

#[derive(Clone, Copy, Debug, PartialEq, Eq, Structural)]
pub enum TCLVisibility {
    Public,
    Private,
}

#[derive(Debug)]
pub enum TCLStatement {
    Assign { target: String, value: TCLExpression },
    Require { condition: TCLExpression, message: Option<String> },
    Emit { event: String, fields: Vec<TCLExpression> },
    Return(Option<TCLExpression>),
    If { condition: TCLExpression, then: Vec<TCLStatement>, else_: Option<Vec<TCLStatement>> },
    While { condition: TCLExpression, body: Vec<TCLStatement> },
    Call { contract: Option<String>, method: String, args: Vec<TCLExpression>, result: Option<String> },
}

#[derive(Debug)]
pub enum TCLExpression {
    Literal(LiteralValue),
    Variable(String),
    Binary { op: BinaryOp, left: Box<TCLExpression>, right: Box<TCLExpression> },
    Unary { op: UnaryOp, expr: Box<TCLExpression> },
    Call { contract: Option<String>, method: String, args: Vec<TCLExpression> },
    FieldAccess { object: Box<TCLExpression>, field: String },
    IndexAccess { array: Box<TCLExpression>, index: Box<TCLExpression> },
}

#[derive(Clone, Debug)]
pub enum LiteralValue {
    U8(u8),
    U16(u16),
    U32(u32),
    U64(u64),
    U128(u128),
    Bool(bool),
    Address([u8; 32]),
    Bytes(Vec<u8>),
    String(String),
}

#[derive(Clone, Copy, Debug, PartialEq, Eq, Structural)]
pub enum BinaryOp {
    Add,
    Sub,
    Mul,
    Div,
    Mod,
    And,
    Or,
    Xor,
    Shl,
    Shr,
    Eq,
    Ne,
    Lt,
    Gt,
    Le,
    Ge,
}

#[derive(Clone, Copy, Debug, PartialEq, Eq, Structural)]
pub enum UnaryOp {
    Not,
    Neg,
}

#[derive(Debug)]
pub struct TCLContract {
    pub name: String,
    pub version: u32,
    pub module: TCLModule,
}

/// A module with no name, version 0 and nothing in it.
pub open spec fn empty_module(m: TCLModule) -> bool {
    &&& m.name@.len() == 0
    &&& m.version == 0
    &&& m.structs@.len() == 0
    &&& m.storage.fields.wf()
    &&& m.storage.fields@ == Map::<Seq<char>, TCLType>::empty()
    &&& m.functions@.len() == 0
}

impl TCLContract {
    pub fn new(name: String, version: u32) -> (r: Self)
        ensures
            r.name == name,
            r.version == version,
            empty_module(r.module),
    {
        TCLContract {
            name,
            version,
            module: TCLModule {
                name: String::new(),
                version: 0,
                structs: Vec::new(),
                storage: TCLStorage::default(),
                functions: Vec::new(),
            },
        }
    }

    /// Declares (or redeclares) a storage field.
    pub fn add_storage_field(&mut self, name: String, field_type: TCLType)
        requires
            old(self).module.storage.fields.wf(),
        ensures
            final(self).module.storage.fields.wf(),
            final(self).module.storage.fields@ == old(self).module.storage.fields@.insert(name@, field_type),
            final(self).name == old(self).name && final(self).version == old(self).version,
            final(self).module.functions == old(self).module.functions,
            final(self).module.structs == old(self).module.structs,
    {
        self.module.storage.fields.insert(name, field_type);
    }

    pub fn add_function(&mut self, function: TCLFunction)
        ensures
            final(self).module.functions@ == old(self).module.functions@.push(function),
            final(self).name == old(self).name && final(self).version == old(self).version,
            final(self).module.storage == old(self).module.storage,
            final(self).module.structs == old(self).module.structs,
    {
        self.module.functions.push(function);
    }
}

/// The contract the front end yields: "ParsedContract" version 1, storing
/// an `owner` address and a `nonce`, with a public `init(ctx: Address)`
/// that sets `owner = ctx` and `nonce = 0`.
pub open spec fn is_parsed_contract(c: TCLContract) -> bool {
    &&& c.name@ == "ParsedContract"@
    &&& c.version == 1
    &&& c.module.name@.len() == 0 && c.module.version == 0 && c.module.structs@.len() == 0
    &&& c.module.storage.fields.wf()
    &&& c.module.storage.fields@ == map!["owner"@ => TCLType::Address, "nonce"@ => TCLType::U64]
    &&& c.module.functions@.len() == 1
    &&& {
        let f = c.module.functions@[0];
        &&& f.name@ == "init"@
        &&& f.visibility == TCLVisibility::Public
        &&& f.params@.len() == 1 && f.params@[0].name@ == "ctx"@ && f.params@[0].param_type == TCLType::Address
        &&& f.body@.len() == 2
        &&& f.body@[0] matches TCLStatement::Assign { target, value: TCLExpression::Variable(v) } && target@
            == "owner"@ && v@ == "ctx"@
        &&& f.body@[1] matches TCLStatement::Assign { target, value: TCLExpression::Literal(LiteralValue::U64(n)) }
            && target@ == "nonce"@ && n == 0
    }
}

/// Reads contract source. The front end does not look at the text yet: it
/// always yields the contract described by `is_parsed_contract`.
pub fn parse_tcl_source(source: &str) -> (r: Result<TCLContract, VMError>)
    ensures
        r matches Ok(c) && is_parsed_contract(c),
{
    proof {
        reveal_strlit("ParsedContract");
        reveal_strlit("owner");
        reveal_strlit("nonce");
        reveal_strlit("init");
        reveal_strlit("ctx");
    }
    let mut contract = TCLContract::new("ParsedContract".to_string(), 1);
    contract.module.storage.fields.insert("owner".to_string(), TCLType::Address);
    contract.module.storage.fields.insert("nonce".to_string(), TCLType::U64);
    let init_fn = TCLFunction {
        name: "init".to_string(),
        params: vec![TCLParameter { name: "ctx".to_string(), param_type: TCLType::Address }],
        body: vec![
            TCLStatement::Assign { target: "owner".to_string(), value: TCLExpression::Variable("ctx".to_string()) },
            TCLStatement::Assign {
                target: "nonce".to_string(),
                value: TCLExpression::Literal(LiteralValue::U64(0)),
            },
        ],
        visibility: TCLVisibility::Public,
    };
    contract.module.functions.push(init_fn);
    assert(contract.module.storage.fields@ =~= map!["owner"@ => TCLType::Address, "nonce"@ => TCLType::U64]);
    Ok(contract)
}

/// The bytecode a contract compiles to: a fixed preamble that stores a
/// zero word and returns; the contract itself is not read yet.
pub open spec fn compiled_bytecode() -> Seq<u8> {
    seq![0x50u8, 0x60, 0x00, 0x14, 0x00, 0x7f] + Seq::new(32, |i: int| 0u8) + seq![
        0x60u8,
        0x01,
        0x14,
        0x00,
        0x60,
        0x00,
        0xf3,
    ]
}

pub fn compile_to_bytecode(contract: &TCLContract) -> (r: Result<Vec<u8>, VMError>)
    ensures
        r matches Ok(code) && code@ == compiled_bytecode(),
{
    let mut bytecode: Vec<u8> = Vec::new();
    bytecode.push(0x50);
    bytecode.push(0x60);
    bytecode.push(0x00);
    bytecode.push(0x14);
    bytecode.push(0x00);
    bytecode.push(0x7f);
    let mut i: usize = 0;
    while i < 32
        invariant
            i <= 32,
            bytecode@ == seq![0x50u8, 0x60, 0x00, 0x14, 0x00, 0x7f] + Seq::new(i as nat, |j: int| 0u8),
        decreases 32 - i,
    {
        bytecode.push(0);
        i = i + 1;
        assert(bytecode@ =~= seq![0x50u8, 0x60, 0x00, 0x14, 0x00, 0x7f] + Seq::new(i as nat, |j: int| 0u8));
    }
    bytecode.push(0x60);
    bytecode.push(0x01);
    bytecode.push(0x14);
    bytecode.push(0x00);
    bytecode.push(0x60);
    bytecode.push(0x00);
    bytecode.push(0xf3);
    assert(bytecode@ =~= compiled_bytecode());
    Ok(bytecode)
}

} // verus!
