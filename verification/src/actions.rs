//! AVM1 actions (the bytecode of `DoAction` tags) and their models.
use vstd::prelude::*;

verus! {

/// Code and payload length of an action; codes below `0x80` have no length field.
#[derive(Clone, Copy, Debug, PartialEq, Eq, Structural)]
pub struct ActionHeader {
    pub action_code: u8,
    pub length: usize,
}

/// An action with an unknown code, kept as its payload.
#[derive(Clone, Debug, PartialEq, Eq)]
pub struct UnknownAction {
    pub action_code: u8,
    pub data: Vec<u8>,
}

/// Action code 0x81
#[derive(Clone, Copy, Debug, PartialEq, Eq, Structural)]
pub struct GotoFrame {
    pub frame: usize,
}

/// Action code 0x83
#[derive(Clone, Debug, PartialEq, Eq)]
pub struct GetUrl {
    pub url: String,
    pub target: String,
}

/// Action code 0x87
#[derive(Clone, Copy, Debug, PartialEq, Eq, Structural)]
pub struct StoreRegister {
    pub register_number: u8,
}

/// Action code 0x88
#[derive(Clone, Debug, PartialEq, Eq)]
pub struct ConstantPool {
    pub constant_pool: Vec<String>,
}

/// Action code 0x8a
#[derive(Clone, Copy, Debug, PartialEq, Eq, Structural)]
pub struct WaitForFrame {
    pub frame: usize,
    pub skip_count: usize,
}

/// Action code 0x8b
#[derive(Clone, Debug, PartialEq, Eq)]
pub struct SetTarget {
    pub target_name: String,
}

/// Action code 0x8c
#[derive(Clone, Debug, PartialEq, Eq)]
pub struct GoToLabel {
    pub label: String,
}

/// Action code 0x8d
#[derive(Clone, Copy, Debug, PartialEq, Eq, Structural)]
pub struct WaitForFrame2 {
    pub skip_count: usize,
}

/// A parameter of a function defined by `DefineFunction2`.
#[derive(Clone, Debug, PartialEq, Eq)]
pub struct Parameter {
    pub register: u8,
    pub name: String,
}

/// Action code 0x8e. The name is empty for an anonymous function.
#[derive(Debug, PartialEq, Eq)]
pub struct DefineFunction2 {
    pub name: String,
    pub preload_parent: bool,
    pub preload_root: bool,
    pub suppress_super: bool,
    pub preload_super: bool,
    pub suppress_arguments: bool,
    pub preload_arguments: bool,
    pub suppress_this: bool,
    pub preload_this: bool,
    pub preload_global: bool,
    pub register_count: usize,
    pub parameters: Vec<Parameter>,
    pub body: Vec<Action>,
}

/// Where a `Try` action stores the caught value.
#[derive(Clone, Debug, PartialEq, Eq)]
pub enum CatchTarget {
    Register(u8),
    Variable(String),
}

/// Action code 0x8f
#[derive(Clone, Debug, PartialEq, Eq)]
pub struct Try {
    pub try_size: usize,
    pub catch_target: CatchTarget,
    pub catch_size: usize,
    pub finally_size: usize,
}

/// Action code 0x94
#[derive(Clone, Copy, Debug, PartialEq, Eq, Structural)]
pub struct With {
    pub code_size: usize,
}

/// A value pushed by `Push`. Floating-point values are kept as their IEEE 754 bits.
#[derive(Clone, Debug, PartialEq, Eq)]
pub enum Value {
    CString(String),
    F32(u32),
    Null,
    Undefined,
    Register(u8),
    Boolean(bool),
    F64(u64),
    I32(i32),
    Constant(u16),
}

/// Action code 0x96
#[derive(Clone, Debug, PartialEq, Eq)]
pub struct Push {
    pub values: Vec<Value>,
}

/// Action code 0x99
#[derive(Clone, Copy, Debug, PartialEq, Eq, Structural)]
pub struct Jump {
    pub branch_offset: i16,
}

/// How `GetUrl2` sends the variables.
#[derive(Clone, Copy, Debug, PartialEq, Eq, Structural)]
pub enum SendVarsMethod {
    NoSend,
    Get,
    Post,
}

/// Action code 0x9a
#[derive(Clone, Copy, Debug, PartialEq, Eq, Structural)]
pub struct GetUrl2 {
    pub send_vars_method: SendVarsMethod,
    pub load_target: bool,
    pub load_variables: bool,
}

/// Action code 0x9b. The name is empty for an anonymous function.
#[derive(Debug, PartialEq, Eq)]
pub struct DefineFunction {
    pub name: String,
    pub parameters: Vec<String>,
    pub body: Vec<Action>,
}

/// Action code 0x9d
#[derive(Clone, Copy, Debug, PartialEq, Eq, Structural)]
pub struct If {
    pub branch_offset: i16,
}

/// Action code 0x9f
#[derive(Clone, Copy, Debug, PartialEq, Eq, Structural)]
pub struct GotoFrame2 {
    pub play: bool,
    pub scene_bias: Option<usize>,
}

/// An AVM1 action; the comment of each variant without payload gives its code.
#[derive(Debug, PartialEq, Eq)]
pub enum Action {
    Unknown(UnknownAction),
    NextFrame, // 0x04
    PrevFrame, // 0x05
    Play, // 0x06
    Stop, // 0x07
    ToggleQuality, // 0x08
    StopSounds, // 0x09
    Add, // 0x0a
    Subtract, // 0x0b
    Multiply, // 0x0c
    Divide, // 0x0d
    Equals, // 0x0e
    Less, // 0x0f
    And, // 0x10
    Or, // 0x11
    Not, // 0x12
    StringEquals, // 0x13
    StringLength, // 0x14
    StringExtract, // 0x15
    Pop, // 0x17
    ToInteger, // 0x18
    GetVariable, // 0x1c
    SetVariable, // 0x1d
    SetTarget2, // 0x20
    StringAdd, // 0x21
    GetProperty, // 0x22
    SetProperty, // 0x23
    CloneSprite, // 0x24
    RemoveSprite, // 0x25
    Trace, // 0x26
    StartDrag, // 0x27
    EndDrag, // 0x28
    StringLess, // 0x29
    Throw, // 0x2a
    CastOp, // 0x2b
    ImplementsOp, // 0x2c
    RandomNumber, // 0x30
    MbStringLength, // 0x31
    CharToAscii, // 0x32
    AsciiToChar, // 0x33
    GetTime, // 0x34
    MbStringExtract, // 0x35
    MbCharToAscii, // 0x36
    MbAsciiToChar, // 0x37
    Delete, // 0x3a
    Delete2, // 0x3b
    DefineLocal, // 0x3c
    CallFunction, // 0x3d
    Return, // 0x3e
    Modulo, // 0x3f
    NewObject, // 0x40
    DefineLocal2, // 0x41
    InitArray, // 0x42
    InitObject, // 0x43
    TypeOf, // 0x44
    TargetPath, // 0x45
    Enumerate, // 0x46
    Add2, // 0x47
    Less2, // 0x48
    Equals2, // 0x49
    ToNumber, // 0x4a
    ToString, // 0x4b
    PushDuplicate, // 0x4c
    StackSwap, // 0x4d
    GetMember, // 0x4e
    SetMember, // 0x4f
    Increment, // 0x50
    Decrement, // 0x51
    CallMethod, // 0x52
    NewMethod, // 0x53
    InstanceOf, // 0x54
    Enumerate2, // 0x55
    BitAnd, // 0x60
    BitOr, // 0x61
    BitXor, // 0x62
    BitLShift, // 0x63
    BitRShift, // 0x64
    BitURShift, // 0x65
    StrictEquals, // 0x66
    Greater, // 0x67
    StringGreater, // 0x68
    Extends, // 0x69
    GotoFrame(GotoFrame),
    GetUrl(GetUrl),
    StoreRegister(StoreRegister),
    ConstantPool(ConstantPool),
    WaitForFrame(WaitForFrame),
    SetTarget(SetTarget),
    GotoLabel(GoToLabel),
    WaitForFrame2(WaitForFrame2),
    DefineFunction2(DefineFunction2),
    Try(Try),
    With(With),
    Push(Push),
    Jump(Jump),
    GetUrl2(GetUrl2),
    DefineFunction(DefineFunction),
    If(If),
    Call, // 0x9e
    GotoFrame2(GotoFrame2),
}

// ---------------------------------------------------------------------------
// Models
// ---------------------------------------------------------------------------

pub enum CatchTargetModel {
    Register(u8),
    Variable(Seq<char>),
}

pub struct TryModel {
    pub try_size: usize,
    pub catch_target: CatchTargetModel,
    pub catch_size: usize,
    pub finally_size: usize,
}

pub enum ValueModel {
    CString(Seq<char>),
    F32(u32),
    Null,
    Undefined,
    Register(u8),
    Boolean(bool),
    F64(u64),
    I32(i32),
    Constant(u16),
}

pub struct ParameterModel {
    pub register: u8,
    pub name: Seq<char>,
}

/// The flags of `DefineFunction2`, in the order of its fields.
pub struct FunctionFlags {
    pub preload_parent: bool,
    pub preload_root: bool,
    pub suppress_super: bool,
    pub preload_super: bool,
    pub suppress_arguments: bool,
    pub preload_arguments: bool,
    pub suppress_this: bool,
    pub preload_this: bool,
    pub preload_global: bool,
}

pub struct DefineFunction2Model {
    pub name: Seq<char>,
    pub flags: FunctionFlags,
    pub register_count: usize,
    pub parameters: Seq<ParameterModel>,
    pub body: Seq<ActionModel>,
}

pub struct DefineFunctionModel {
    pub name: Seq<char>,
    pub parameters: Seq<Seq<char>>,
    pub body: Seq<ActionModel>,
}

/// Model of an action; an action without payload is modelled by its code.
pub enum ActionModel {
    Unknown { action_code: u8, data: Seq<u8> },
    Simple(u8),
    GotoFrame(GotoFrame),
    GetUrl { url: Seq<char>, target: Seq<char> },
    StoreRegister(StoreRegister),
    ConstantPool(Seq<Seq<char>>),
    WaitForFrame(WaitForFrame),
    SetTarget(Seq<char>),
    GotoLabel(Seq<char>),
    WaitForFrame2(WaitForFrame2),
    DefineFunction2(DefineFunction2Model),
    Try(TryModel),
    With(With),
    Push(Seq<ValueModel>),
    Jump(Jump),
    GetUrl2(GetUrl2),
    DefineFunction(DefineFunctionModel),
    If(If),
    GotoFrame2(GotoFrame2),
}

impl DeepView for ActionHeader {
    type V = ActionHeader;
    open spec fn deep_view(&self) -> ActionHeader { *self }
}

impl DeepView for CatchTarget {
    type V = CatchTargetModel;
    open spec fn deep_view(&self) -> CatchTargetModel {
        match self {
            CatchTarget::Register(r) => CatchTargetModel::Register(*r),
            CatchTarget::Variable(v) => CatchTargetModel::Variable(v@),
        }
    }
}

impl DeepView for Try {
    type V = TryModel;
    open spec fn deep_view(&self) -> TryModel {
        TryModel {
            try_size: self.try_size,
            catch_target: self.catch_target.deep_view(),
            catch_size: self.catch_size,
            finally_size: self.finally_size,
        }
    }
}

impl DeepView for Value {
    type V = ValueModel;
    open spec fn deep_view(&self) -> ValueModel {
        match self {
            Value::CString(s) => ValueModel::CString(s@),
            Value::F32(v) => ValueModel::F32(*v),
            Value::Null => ValueModel::Null,
            Value::Undefined => ValueModel::Undefined,
            Value::Register(r) => ValueModel::Register(*r),
            Value::Boolean(b) => ValueModel::Boolean(*b),
            Value::F64(v) => ValueModel::F64(*v),
            Value::I32(v) => ValueModel::I32(*v),
            Value::Constant(c) => ValueModel::Constant(*c),
        }
    }
}

impl DeepView for Parameter {
    type V = ParameterModel;
    open spec fn deep_view(&self) -> ParameterModel {
        ParameterModel { register: self.register, name: self.name@ }
    }
}

/// The code of an action without payload.
pub open spec fn simple_action_code(a: Action) -> Option<u8> {
    match a {
        Action::NextFrame => Some(0x04u8),
        Action::PrevFrame => Some(0x05u8),
        Action::Play => Some(0x06u8),
        Action::Stop => Some(0x07u8),
        Action::ToggleQuality => Some(0x08u8),
        Action::StopSounds => Some(0x09u8),
        Action::Add => Some(0x0au8),
        Action::Subtract => Some(0x0bu8),
        Action::Multiply => Some(0x0cu8),
        Action::Divide => Some(0x0du8),
        Action::Equals => Some(0x0eu8),
        Action::Less => Some(0x0fu8),
        Action::And => Some(0x10u8),
        Action::Or => Some(0x11u8),
        Action::Not => Some(0x12u8),
        Action::StringEquals => Some(0x13u8),
        Action::StringLength => Some(0x14u8),
        Action::StringExtract => Some(0x15u8),
        Action::Pop => Some(0x17u8),
        Action::ToInteger => Some(0x18u8),
        Action::GetVariable => Some(0x1cu8),
        Action::SetVariable => Some(0x1du8),
        Action::SetTarget2 => Some(0x20u8),
        Action::StringAdd => Some(0x21u8),
        Action::GetProperty => Some(0x22u8),
        Action::SetProperty => Some(0x23u8),
        Action::CloneSprite => Some(0x24u8),
        Action::RemoveSprite => Some(0x25u8),
        Action::Trace => Some(0x26u8),
        Action::StartDrag => Some(0x27u8),
        Action::EndDrag => Some(0x28u8),
        Action::StringLess => Some(0x29u8),
        Action::Throw => Some(0x2au8),
        Action::CastOp => Some(0x2bu8),
        Action::ImplementsOp => Some(0x2cu8),
        Action::RandomNumber => Some(0x30u8),
        Action::MbStringLength => Some(0x31u8),
        Action::CharToAscii => Some(0x32u8),
        Action::AsciiToChar => Some(0x33u8),
        Action::GetTime => Some(0x34u8),
        Action::MbStringExtract => Some(0x35u8),
        Action::MbCharToAscii => Some(0x36u8),
        Action::MbAsciiToChar => Some(0x37u8),
        Action::Delete => Some(0x3au8),
        Action::Delete2 => Some(0x3bu8),
        Action::DefineLocal => Some(0x3cu8),
        Action::CallFunction => Some(0x3du8),
        Action::Return => Some(0x3eu8),
        Action::Modulo => Some(0x3fu8),
        Action::NewObject => Some(0x40u8),
        Action::DefineLocal2 => Some(0x41u8),
        Action::InitArray => Some(0x42u8),
        Action::InitObject => Some(0x43u8),
        Action::TypeOf => Some(0x44u8),
        Action::TargetPath => Some(0x45u8),
        Action::Enumerate => Some(0x46u8),
        Action::Add2 => Some(0x47u8),
        Action::Less2 => Some(0x48u8),
        Action::Equals2 => Some(0x49u8),
        Action::ToNumber => Some(0x4au8),
        Action::ToString => Some(0x4bu8),
        Action::PushDuplicate => Some(0x4cu8),
        Action::StackSwap => Some(0x4du8),
        Action::GetMember => Some(0x4eu8),
        Action::SetMember => Some(0x4fu8),
        Action::Increment => Some(0x50u8),
        Action::Decrement => Some(0x51u8),
        Action::CallMethod => Some(0x52u8),
        Action::NewMethod => Some(0x53u8),
        Action::InstanceOf => Some(0x54u8),
        Action::Enumerate2 => Some(0x55u8),
        Action::BitAnd => Some(0x60u8),
        Action::BitOr => Some(0x61u8),
        Action::BitXor => Some(0x62u8),
        Action::BitLShift => Some(0x63u8),
        Action::BitRShift => Some(0x64u8),
        Action::BitURShift => Some(0x65u8),
        Action::StrictEquals => Some(0x66u8),
        Action::Greater => Some(0x67u8),
        Action::StringGreater => Some(0x68u8),
        Action::Extends => Some(0x69u8),
        Action::Call => Some(0x9eu8),
        _ => None,
    }
}

impl DeepView for Action {
    type V = ActionModel;
    open spec fn deep_view(&self) -> ActionModel
        decreases self,
    {
        match self {
            Action::Unknown(u) => ActionModel::Unknown { action_code: u.action_code, data: u.data@ },
            Action::GotoFrame(a) => ActionModel::GotoFrame(*a),
            Action::GetUrl(a) => ActionModel::GetUrl { url: a.url@, target: a.target@ },
            Action::StoreRegister(a) => ActionModel::StoreRegister(*a),
            Action::ConstantPool(a) => ActionModel::ConstantPool(
                Seq::new(a.constant_pool@.len(), |i: int| a.constant_pool@[i]@),
            ),
            Action::WaitForFrame(a) => ActionModel::WaitForFrame(*a),
            Action::SetTarget(a) => ActionModel::SetTarget(a.target_name@),
            Action::GotoLabel(a) => ActionModel::GotoLabel(a.label@),
            Action::WaitForFrame2(a) => ActionModel::WaitForFrame2(*a),
            Action::DefineFunction2(f) => ActionModel::DefineFunction2(DefineFunction2Model {
                name: f.name@,
                flags: FunctionFlags {
                    preload_parent: f.preload_parent,
                    preload_root: f.preload_root,
                    suppress_super: f.suppress_super,
                    preload_super: f.preload_super,
                    suppress_arguments: f.suppress_arguments,
                    preload_arguments: f.preload_arguments,
                    suppress_this: f.suppress_this,
                    preload_this: f.preload_this,
                    preload_global: f.preload_global,
                },
                register_count: f.register_count,
                parameters: f.parameters.deep_view(),
                body: Seq::new(
                    f.body@.len(),
                    |i: int| if 0 <= i < f.body@.len() { f.body@[i].deep_view() } else { ActionModel::Simple(0) },
                ),
            }),
            Action::Try(a) => ActionModel::Try(a.deep_view()),
            Action::With(a) => ActionModel::With(*a),
            Action::Push(a) => ActionModel::Push(a.values.deep_view()),
            Action::Jump(a) => ActionModel::Jump(*a),
            Action::GetUrl2(a) => ActionModel::GetUrl2(*a),
            Action::DefineFunction(f) => ActionModel::DefineFunction(DefineFunctionModel {
                name: f.name@,
                parameters: Seq::new(f.parameters@.len(), |i: int| f.parameters@[i]@),
                body: Seq::new(
                    f.body@.len(),
                    |i: int| if 0 <= i < f.body@.len() { f.body@[i].deep_view() } else { ActionModel::Simple(0) },
                ),
            }),
            Action::If(a) => ActionModel::If(*a),
            Action::GotoFrame2(a) => ActionModel::GotoFrame2(*a),
            _ => match simple_action_code(*self) {
                Some(code) => ActionModel::Simple(code),
                None => ActionModel::Simple(0),
            },
        }
    }
}

/// The model of a function definition holds the models of its body's actions.
pub proof fn lemma_define_function_view(f: DefineFunction)
    ensures
        Action::DefineFunction(f).deep_view() == ActionModel::DefineFunction(DefineFunctionModel {
            name: f.name@,
            parameters: Seq::new(f.parameters@.len(), |i: int| f.parameters@[i]@),
            body: f.body.deep_view(),
        }),
{
    let a = Action::DefineFunction(f);
    reveal_with_fuel(<Action as DeepView>::deep_view, 2);
    assert(a.deep_view()->DefineFunction_0.body =~= f.body.deep_view());
}

/// The model of a `DefineFunction2` holds the models of its body's actions.
pub proof fn lemma_define_function2_view(f: DefineFunction2)
    ensures
        Action::DefineFunction2(f).deep_view()->DefineFunction2_0.body == f.body.deep_view(),
        Action::DefineFunction2(f).deep_view() is DefineFunction2,
{
    let a = Action::DefineFunction2(f);
    reveal_with_fuel(<Action as DeepView>::deep_view, 2);
    assert(a.deep_view()->DefineFunction2_0.body =~= f.body.deep_view());
}

} // verus!
