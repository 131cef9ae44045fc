//! Parsers of AVM1 actions: the action header, the payload of each action, blocks of
//! actions of a given size and nul-terminated strings of actions.
use vstd::prelude::*;
use vstd::slice::slice_subrange;
use vstd::slice::slice_to_vec;
use crate::actions::{
    Action, ActionHeader, ActionModel, CatchTarget, CatchTargetModel, ConstantPool,
    DefineFunction, DefineFunction2, DefineFunction2Model, DefineFunctionModel, FunctionFlags,
    GetUrl, GetUrl2, GoToLabel, GotoFrame, GotoFrame2, If, Jump, Parameter, ParameterModel, Push,
    SendVarsMethod, SetTarget, StoreRegister, Try, TryModel, UnknownAction, Value, ValueModel,
    WaitForFrame, WaitForFrame2, With,
};
use crate::bytes::{
    parse_c_string, parse_le_i16, parse_le_i32, parse_le_u16, parse_le_u32, parse_le_u64,
    parse_u8, spec_c_string, spec_le_i16, spec_le_i32, spec_le_u16, spec_le_u32, spec_le_u64,
    spec_u8,
};
use crate::error::{Needed, ParseError, PResult, SpecResult, parsed_as};

verus! {

/// `actionHeader : UINT8 [UINT16_LE if the code is 0x80 or more]`
pub open spec fn spec_action_header(s: Seq<u8>) -> SpecResult<ActionHeader> {
    match spec_u8(s) {
        Err(e) => Err(e),
        Ok((action_code, s1)) => if action_code < 0x80 {
            Ok((ActionHeader { action_code, length: 0 }, s1))
        } else {
            match spec_le_u16(s1) {
                Err(e) => Err(e),
                Ok((length, s2)) => Ok((ActionHeader { action_code, length: length as usize }, s2)),
            }
        },
    }
}

pub fn parse_action_header(input: &[u8]) -> (r: PResult<ActionHeader>)
    ensures
        parsed_as(r, spec_action_header(input@)),
{
    let (rest, action_code) = parse_u8(input)?;
    if action_code < 0x80 {
        Ok((rest, ActionHeader { action_code, length: 0 }))
    } else {
        let (rest, length) = parse_le_u16(rest)?;
        Ok((rest, ActionHeader { action_code, length: length as usize }))
    }
}

/// The codes of the actions without payload.
pub open spec fn is_simple_action_code(code: u8) -> bool {
    ||| 0x04 <= code <= 0x15
    ||| code == 0x17
    ||| code == 0x18
    ||| code == 0x1c
    ||| code == 0x1d
    ||| 0x20 <= code <= 0x2c
    ||| 0x30 <= code <= 0x37
    ||| 0x3a <= code <= 0x55
    ||| 0x60 <= code <= 0x69
    ||| code == 0x9e
}

/// The action without payload that has the given code.
pub fn simple_action(code: u8) -> (r: Option<Action>)
    ensures
        r is Some <==> is_simple_action_code(code),
        r matches Some(a) ==> a.deep_view() == ActionModel::Simple(code),
{
    match code {
        0x04 => Some(Action::NextFrame),
        0x05 => Some(Action::PrevFrame),
        0x06 => Some(Action::Play),
        0x07 => Some(Action::Stop),
        0x08 => Some(Action::ToggleQuality),
        0x09 => Some(Action::StopSounds),
        0x0a => Some(Action::Add),
        0x0b => Some(Action::Subtract),
        0x0c => Some(Action::Multiply),
        0x0d => Some(Action::Divide),
        0x0e => Some(Action::Equals),
        0x0f => Some(Action::Less),
        0x10 => Some(Action::And),
        0x11 => Some(Action::Or),
        0x12 => Some(Action::Not),
        0x13 => Some(Action::StringEquals),
        0x14 => Some(Action::StringLength),
        0x15 => Some(Action::StringExtract),
        0x17 => Some(Action::Pop),
        0x18 => Some(Action::ToInteger),
        0x1c => Some(Action::GetVariable),
        0x1d => Some(Action::SetVariable),
        0x20 => Some(Action::SetTarget2),
        0x21 => Some(Action::StringAdd),
        0x22 => Some(Action::GetProperty),
        0x23 => Some(Action::SetProperty),
        0x24 => Some(Action::CloneSprite),
        0x25 => Some(Action::RemoveSprite),
        0x26 => Some(Action::Trace),
        0x27 => Some(Action::StartDrag),
        0x28 => Some(Action::EndDrag),
        0x29 => Some(Action::StringLess),
        0x2a => Some(Action::Throw),
        0x2b => Some(Action::CastOp),
        0x2c => Some(Action::ImplementsOp),
        0x30 => Some(Action::RandomNumber),
        0x31 => Some(Action::MbStringLength),
        0x32 => Some(Action::CharToAscii),
        0x33 => Some(Action::AsciiToChar),
        0x34 => Some(Action::GetTime),
        0x35 => Some(Action::MbStringExtract),
        0x36 => Some(Action::MbCharToAscii),
        0x37 => Some(Action::MbAsciiToChar),
        0x3a => Some(Action::Delete),
        0x3b => Some(Action::Delete2),
        0x3c => Some(Action::DefineLocal),
        0x3d => Some(Action::CallFunction),
        0x3e => Some(Action::Return),
        0x3f => Some(Action::Modulo),
        0x40 => Some(Action::NewObject),
        0x41 => Some(Action::DefineLocal2),
        0x42 => Some(Action::InitArray),
        0x43 => Some(Action::InitObject),
        0x44 => Some(Action::TypeOf),
        0x45 => Some(Action::TargetPath),
        0x46 => Some(Action::Enumerate),
        0x47 => Some(Action::Add2),
        0x48 => Some(Action::Less2),
        0x49 => Some(Action::Equals2),
        0x4a => Some(Action::ToNumber),
        0x4b => Some(Action::ToString),
        0x4c => Some(Action::PushDuplicate),
        0x4d => Some(Action::StackSwap),
        0x4e => Some(Action::GetMember),
        0x4f => Some(Action::SetMember),
        0x50 => Some(Action::Increment),
        0x51 => Some(Action::Decrement),
        0x52 => Some(Action::CallMethod),
        0x53 => Some(Action::NewMethod),
        0x54 => Some(Action::InstanceOf),
        0x55 => Some(Action::Enumerate2),
        0x60 => Some(Action::BitAnd),
        0x61 => Some(Action::BitOr),
        0x62 => Some(Action::BitXor),
        0x63 => Some(Action::BitLShift),
        0x64 => Some(Action::BitRShift),
        0x65 => Some(Action::BitURShift),
        0x66 => Some(Action::StrictEquals),
        0x67 => Some(Action::Greater),
        0x68 => Some(Action::StringGreater),
        0x69 => Some(Action::Extends),
        0x9e => Some(Action::Call),
        _ => None,
    }
}

// ---------------------------------------------------------------------------
// Payloads without nested actions
// ---------------------------------------------------------------------------

/// Action 0x81: `UINT16_LE` frame.
pub open spec fn spec_goto_frame_action(s: Seq<u8>) -> SpecResult<ActionModel> {
    match spec_le_u16(s) {
        Err(e) => Err(e),
        Ok((frame, rest)) => Ok((ActionModel::GotoFrame(GotoFrame { frame: frame as usize }), rest)),
    }
}

fn parse_goto_frame_action(input: &[u8]) -> (r: PResult<Action>)
    ensures
        parsed_as(r, spec_goto_frame_action(input@)),
{
    let (rest, frame) = parse_le_u16(input)?;
    Ok((rest, Action::GotoFrame(GotoFrame { frame: frame as usize })))
}

/// Action 0x83: URL and target, two C strings.
pub open spec fn spec_get_url_action(s: Seq<u8>) -> SpecResult<ActionModel> {
    match spec_c_string(s) {
        Err(e) => Err(e),
        Ok((url, s1)) => match spec_c_string(s1) {
            Err(e) => Err(e),
            Ok((target, rest)) => Ok((ActionModel::GetUrl { url, target }, rest)),
        },
    }
}

fn parse_get_url_action(input: &[u8]) -> (r: PResult<Action>)
    ensures
        parsed_as(r, spec_get_url_action(input@)),
{
    let (rest, url) = parse_c_string(input)?;
    let (rest, target) = parse_c_string(rest)?;
    Ok((rest, Action::GetUrl(GetUrl { url, target })))
}

/// Action 0x87: `UINT8` register number.
pub open spec fn spec_store_register_action(s: Seq<u8>) -> SpecResult<ActionModel> {
    match spec_u8(s) {
        Err(e) => Err(e),
        Ok((register_number, rest)) => Ok((
            ActionModel::StoreRegister(StoreRegister { register_number }),
            rest,
        )),
    }
}

fn parse_store_register_action(input: &[u8]) -> (r: PResult<Action>)
    ensures
        parsed_as(r, spec_store_register_action(input@)),
{
    let (rest, register_number) = parse_u8(input)?;
    Ok((rest, Action::StoreRegister(StoreRegister { register_number })))
}

/// `count` C strings in a row.
pub open spec fn spec_c_strings(s: Seq<u8>, count: nat) -> SpecResult<Seq<Seq<char>>>
    decreases count,
{
    if count == 0 {
        Ok((Seq::empty(), s))
    } else {
        match spec_c_string(s) {
            Err(e) => Err(e),
            Ok((first, s1)) => match spec_c_strings(s1, (count - 1) as nat) {
                Err(e) => Err(e),
                Ok((others, rest)) => Ok((seq![first] + others, rest)),
            },
        }
    }
}

/// A C string leaves less input than it was given.
pub proof fn lemma_c_string_shrinks(s: Seq<u8>)
    ensures
        spec_c_string(s) matches Ok((_, rest)) ==> rest.len() < s.len(),
{
}

/// Reading C strings never leaves more input than it was given.
pub proof fn lemma_c_strings_shrink(s: Seq<u8>, count: nat)
    ensures
        spec_c_strings(s, count) matches Ok((_, rest)) ==> rest.len() <= s.len(),
    decreases count,
{
    if count > 0 {
        lemma_c_string_shrinks(s);
        if let Ok((_, s1)) = spec_c_string(s) {
            lemma_c_strings_shrink(s1, (count - 1) as nat);
        }
    }
}

fn parse_c_strings(input: &[u8], count: usize) -> (r: PResult<Vec<String>>)
    ensures
        match (r, spec_c_strings(input@, count as nat)) {
            (Ok((rest, v)), Ok((m, srest))) => rest@ == srest
                && m == Seq::new(v@.len(), |i: int| v@[i]@),
            (Err(e1), Err(e2)) => e1 == e2,
            _ => false,
        },
{
    let mut rest: &[u8] = input;
    let mut strings: Vec<String> = Vec::new();
    let mut i: usize = 0;
    while i < count
        invariant
            i <= count,
            strings@.len() == i,
            spec_c_strings(input@, count as nat) == match spec_c_strings(rest@, (count - i) as nat) {
                Err(e) => Err(e),
                Ok((others, r)) => Ok((Seq::new(strings@.len(), |k: int| strings@[k]@) + others, r)),
            },
        decreases count - i,
    {
        let ghost prefix = Seq::new(strings@.len(), |k: int| strings@[k]@);
        let (next, s) = parse_c_string(rest)?;
        let ghost sv = s@;
        strings.push(s);
        proof {
            let np = Seq::new(strings@.len(), |k: int| strings@[k]@);
            assert(np =~= prefix.push(sv));
            match spec_c_strings(next@, (count - i - 1) as nat) {
                Err(_) => {},
                Ok((others, _)) => {
                    assert(prefix + (seq![sv] + others) =~= np + others);
                },
            }
        }
        rest = next;
        i = i + 1;
    }
    proof {
        assert(Seq::new(strings@.len(), |k: int| strings@[k]@) + Seq::<Seq<char>>::empty()
            =~= Seq::new(strings@.len(), |k: int| strings@[k]@));
    }
    Ok((rest, strings))
}

/// Action 0x88: a `UINT16_LE` count, then that many C strings.
pub open spec fn spec_constant_pool_action(s: Seq<u8>) -> SpecResult<ActionModel> {
    match spec_le_u16(s) {
        Err(e) => Err(e),
        Ok((count, s1)) => match spec_c_strings(s1, count as nat) {
            Err(e) => Err(e),
            Ok((pool, rest)) => Ok((ActionModel::ConstantPool(pool), rest)),
        },
    }
}

fn parse_constant_pool_action(input: &[u8]) -> (r: PResult<Action>)
    ensures
        parsed_as(r, spec_constant_pool_action(input@)),
{
    let (rest, count) = parse_le_u16(input)?;
    let (rest, constant_pool) = parse_c_strings(rest, count as usize)?;
    Ok((rest, Action::ConstantPool(ConstantPool { constant_pool })))
}

/// Action 0x8a: `UINT16_LE` frame, `UINT8` skip count.
pub open spec fn spec_wait_for_frame_action(s: Seq<u8>) -> SpecResult<ActionModel> {
    match spec_le_u16(s) {
        Err(e) => Err(e),
        Ok((frame, s1)) => match spec_u8(s1) {
            Err(e) => Err(e),
            Ok((skip_count, rest)) => Ok((
                ActionModel::WaitForFrame(
                    WaitForFrame { frame: frame as usize, skip_count: skip_count as usize },
                ),
                rest,
            )),
        },
    }
}

fn parse_wait_for_frame_action(input: &[u8]) -> (r: PResult<Action>)
    ensures
        parsed_as(r, spec_wait_for_frame_action(input@)),
{
    let (rest, frame) = parse_le_u16(input)?;
    let (rest, skip_count) = parse_u8(rest)?;
    Ok((
        rest,
        Action::WaitForFrame(WaitForFrame { frame: frame as usize, skip_count: skip_count as usize }),
    ))
}

/// Action 0x8b: target name, a C string.
pub open spec fn spec_set_target_action(s: Seq<u8>) -> SpecResult<ActionModel> {
    match spec_c_string(s) {
        Err(e) => Err(e),
        Ok((target_name, rest)) => Ok((ActionModel::SetTarget(target_name), rest)),
    }
}

fn parse_set_target_action(input: &[u8]) -> (r: PResult<Action>)
    ensures
        parsed_as(r, spec_set_target_action(input@)),
{
    let (rest, target_name) = parse_c_string(input)?;
    Ok((rest, Action::SetTarget(SetTarget { target_name })))
}

/// Action 0x8c: label, a C string.
pub open spec fn spec_goto_label_action(s: Seq<u8>) -> SpecResult<ActionModel> {
    match spec_c_string(s) {
        Err(e) => Err(e),
        Ok((label, rest)) => Ok((ActionModel::GotoLabel(label), rest)),
    }
}

fn parse_goto_label_action(input: &[u8]) -> (r: PResult<Action>)
    ensures
        parsed_as(r, spec_goto_label_action(input@)),
{
    let (rest, label) = parse_c_string(input)?;
    Ok((rest, Action::GotoLabel(GoToLabel { label })))
}

/// Action 0x8d: `UINT8` skip count.
pub open spec fn spec_wait_for_frame2_action(s: Seq<u8>) -> SpecResult<ActionModel> {
    match spec_u8(s) {
        Err(e) => Err(e),
        Ok((skip_count, rest)) => Ok((
            ActionModel::WaitForFrame2(WaitForFrame2 { skip_count: skip_count as usize }),
            rest,
        )),
    }
}

fn parse_wait_for_frame2_action(input: &[u8]) -> (r: PResult<Action>)
    ensures
        parsed_as(r, spec_wait_for_frame2_action(input@)),
{
    let (rest, skip_count) = parse_u8(input)?;
    Ok((rest, Action::WaitForFrame2(WaitForFrame2 { skip_count: skip_count as usize })))
}

/// The catch target of a `Try`: a register number or a variable name.
pub open spec fn spec_catch_target(s: Seq<u8>, in_register: bool) -> SpecResult<CatchTargetModel> {
    if in_register {
        match spec_u8(s) {
            Err(e) => Err(e),
            Ok((register, rest)) => Ok((CatchTargetModel::Register(register), rest)),
        }
    } else {
        match spec_c_string(s) {
            Err(e) => Err(e),
            Ok((name, rest)) => Ok((CatchTargetModel::Variable(name), rest)),
        }
    }
}

fn parse_catch_target(input: &[u8], in_register: bool) -> (r: PResult<CatchTarget>)
    ensures
        parsed_as(r, spec_catch_target(input@, in_register)),
{
    if in_register {
        let (rest, register) = parse_u8(input)?;
        Ok((rest, CatchTarget::Register(register)))
    } else {
        let (rest, name) = parse_c_string(input)?;
        Ok((rest, CatchTarget::Variable(name)))
    }
}

/// Action 0x8f: flags (the catch target is a register when bit 2 is set), try, finally
/// and catch sizes (`UINT16_LE` each), then the catch target.
pub open spec fn spec_try_action(s: Seq<u8>) -> SpecResult<ActionModel> {
    match spec_u8(s) {
        Err(e) => Err(e),
        Ok((flags, s1)) => match spec_le_u16(s1) {
            Err(e) => Err(e),
            Ok((try_size, s2)) => match spec_le_u16(s2) {
                Err(e) => Err(e),
                Ok((finally_size, s3)) => match spec_le_u16(s3) {
                    Err(e) => Err(e),
                    Ok((catch_size, s4)) => match spec_catch_target(s4, flags & 4u8 != 0) {
                        Err(e) => Err(e),
                        Ok((catch_target, rest)) => Ok((
                            ActionModel::Try(TryModel {
                                try_size: try_size as usize,
                                catch_target,
                                catch_size: catch_size as usize,
                                finally_size: finally_size as usize,
                            }),
                            rest,
                        )),
                    },
                },
            },
        },
    }
}

fn parse_try_action(input: &[u8]) -> (r: PResult<Action>)
    ensures
        parsed_as(r, spec_try_action(input@)),
{
    let (rest, flags) = parse_u8(input)?;
    let (rest, try_size) = parse_le_u16(rest)?;
    let (rest, finally_size) = parse_le_u16(rest)?;
    let (rest, catch_size) = parse_le_u16(rest)?;
    let (rest, catch_target) = parse_catch_target(rest, flags & 4u8 != 0)?;
    Ok((
        rest,
        Action::Try(Try {
            try_size: try_size as usize,
            catch_target,
            catch_size: catch_size as usize,
            finally_size: finally_size as usize,
        }),
    ))
}

/// Action 0x94: `SINT16_LE` code size, widened as a signed value.
pub open spec fn spec_with_action(s: Seq<u8>) -> SpecResult<ActionModel> {
    match spec_le_i16(s) {
        Err(e) => Err(e),
        Ok((code_size, rest)) => Ok((ActionModel::With(With { code_size: code_size as usize }), rest)),
    }
}

fn parse_with_action(input: &[u8]) -> (r: PResult<Action>)
    ensures
        parsed_as(r, spec_with_action(input@)),
{
    let (rest, code_size) = parse_le_i16(input)?;
    Ok((rest, Action::With(With { code_size: code_size as usize })))
}

/// A pushed value: a type byte, then the value of that type.
pub open spec fn spec_action_value(s: Seq<u8>) -> SpecResult<ValueModel> {
    match spec_u8(s) {
        Err(e) => Err(e),
        Ok((kind, s1)) => if kind == 0 {
            match spec_c_string(s1) { Err(e) => Err(e), Ok((v, r)) => Ok((ValueModel::CString(v), r)) }
        } else if kind == 1 {
            match spec_le_u32(s1) { Err(e) => Err(e), Ok((v, r)) => Ok((ValueModel::F32(v), r)) }
        } else if kind == 2 {
            Ok((ValueModel::Null, s1))
        } else if kind == 3 {
            Ok((ValueModel::Undefined, s1))
        } else if kind == 4 {
            match spec_u8(s1) { Err(e) => Err(e), Ok((v, r)) => Ok((ValueModel::Register(v), r)) }
        } else if kind == 5 {
            match spec_u8(s1) { Err(e) => Err(e), Ok((v, r)) => Ok((ValueModel::Boolean(v != 0), r)) }
        } else if kind == 6 {
            match spec_le_u64(s1) { Err(e) => Err(e), Ok((v, r)) => Ok((ValueModel::F64(v), r)) }
        } else if kind == 7 {
            match spec_le_i32(s1) { Err(e) => Err(e), Ok((v, r)) => Ok((ValueModel::I32(v), r)) }
        } else if kind == 8 {
            match spec_u8(s1) { Err(e) => Err(e), Ok((v, r)) => Ok((ValueModel::Constant(v as u16), r)) }
        } else if kind == 9 {
            match spec_le_u16(s1) { Err(e) => Err(e), Ok((v, r)) => Ok((ValueModel::Constant(v), r)) }
        } else {
            Err(ParseError::Error)
        },
    }
}

/// What a pushed value is, by its type byte: 0 a string, 1 a 32-bit float, 2 null, 3
/// undefined, 4 a register number, 5 a boolean, 6 a 64-bit float, 7 a 32-bit integer,
/// 8 and 9 a constant index on one or two bytes; any other type byte is refused. Null
/// and undefined take the type byte alone, and always read; a register, a boolean and
/// a one-byte constant take the next byte.
pub proof fn lemma_action_value_types(s: Seq<u8>)
    ensures
        spec_action_value(s) matches Ok((v, rest)) ==> {
            &&& s.len() > 0 && s[0] <= 9
            &&& (s[0] == 0 <==> v is CString)
            &&& (s[0] == 1 <==> v is F32)
            &&& (s[0] == 2 <==> v is Null)
            &&& (s[0] == 3 <==> v is Undefined)
            &&& (s[0] == 4 <==> v is Register)
            &&& (s[0] == 5 <==> v is Boolean)
            &&& (s[0] == 6 <==> v is F64)
            &&& (s[0] == 7 <==> v is I32)
            &&& (s[0] == 8 || s[0] == 9 <==> v is Constant)
            &&& (s[0] == 2 || s[0] == 3) ==> rest == s.skip(1)
            &&& v matches ValueModel::Register(n) ==> n == s[1] && rest == s.skip(2)
            &&& v matches ValueModel::Boolean(b) ==> b == (s[1] != 0) && rest == s.skip(2)
            &&& s[0] == 8 ==> v == ValueModel::Constant(s[1] as u16) && rest == s.skip(2)
            &&& s[0] == 9 ==> v == ValueModel::Constant((s[1] + 256 * s[2]) as u16) && rest == s.skip(3)
        },
        s.len() > 0 && (s[0] == 2 || s[0] == 3) ==> spec_action_value(s) is Ok,
        s.len() > 1 && (s[0] == 4 || s[0] == 5 || s[0] == 8) ==> spec_action_value(s) is Ok,
        s.len() > 2 && s[0] == 9 ==> spec_action_value(s) is Ok,
        s.len() > 0 && s[0] > 9 ==> spec_action_value(s) is Err,
{
}

pub fn parse_action_value(input: &[u8]) -> (r: PResult<Value>)
    ensures
        parsed_as(r, spec_action_value(input@)),
{
    let (rest, kind) = parse_u8(input)?;
    match kind {
        0 => {
            let (rest, v) = parse_c_string(rest)?;
            Ok((rest, Value::CString(v)))
        },
        1 => {
            let (rest, v) = parse_le_u32(rest)?;
            Ok((rest, Value::F32(v)))
        },
        2 => Ok((rest, Value::Null)),
        3 => Ok((rest, Value::Undefined)),
        4 => {
            let (rest, v) = parse_u8(rest)?;
            Ok((rest, Value::Register(v)))
        },
        5 => {
            let (rest, v) = parse_u8(rest)?;
            Ok((rest, Value::Boolean(v != 0)))
        },
        6 => {
            let (rest, v) = parse_le_u64(rest)?;
            Ok((rest, Value::F64(v)))
        },
        7 => {
            let (rest, v) = parse_le_i32(rest)?;
            Ok((rest, Value::I32(v)))
        },
        8 => {
            let (rest, v) = parse_u8(rest)?;
            Ok((rest, Value::Constant(v as u16)))
        },
        9 => {
            let (rest, v) = parse_le_u16(rest)?;
            Ok((rest, Value::Constant(v)))
        },
        _ => Err(ParseError::Error),
    }
}

/// Values after the first one of a `Push`: read until the input ends, a value is
/// invalid or a value consumes nothing; running short of input inside a value is
/// reported.
pub open spec fn spec_more_values(s: Seq<u8>) -> SpecResult<Seq<ValueModel>>
    decreases s.len(),
{
    if s.len() == 0 {
        Ok((Seq::empty(), s))
    } else {
        match spec_action_value(s) {
            Err(ParseError::Error) => Ok((Seq::empty(), s)),
            Err(e) => Err(e),
            Ok((v, s1)) => if s1.len() >= s.len() {
                Ok((Seq::empty(), s))
            } else {
                match spec_more_values(s1) {
                    Err(e) => Err(e),
                    Ok((vs, rest)) => Ok((seq![v] + vs, rest)),
                }
            },
        }
    }
}

/// Action 0x96: one or more values.
pub open spec fn spec_push_action(s: Seq<u8>) -> SpecResult<ActionModel> {
    match spec_action_value(s) {
        Err(e) => Err(e),
        Ok((first, s1)) => match spec_more_values(s1) {
            Err(e) => Err(e),
            Ok((others, rest)) => Ok((ActionModel::Push(seq![first] + others), rest)),
        },
    }
}

pub fn parse_push_action(input: &[u8]) -> (r: PResult<Push>)
    ensures
        match (r, spec_push_action(input@)) {
            (Ok((rest, p)), Ok((m, srest))) => rest@ == srest && m == ActionModel::Push(p.values.deep_view()),
            (Err(e1), Err(e2)) => e1 == e2,
            _ => false,
        },
{
    let (rest, first) = parse_action_value(input)?;
    let ghost fm = first.deep_view();
    let mut values: Vec<Value> = Vec::new();
    values.push(first);
    proof {
        assert(values.deep_view() =~= seq![fm]);
    }
    let mut rest: &[u8] = rest;
    loop
        invariant_except_break
            values@.len() >= 1,
            spec_push_action(input@) == match spec_more_values(rest@) {
                Err(e) => Err(e),
                Ok((others, r)) => Ok((ActionModel::Push(values.deep_view() + others), r)),
            },
        ensures
            spec_push_action(input@) == Ok::<(ActionModel, Seq<u8>), ParseError>(
                (ActionModel::Push(values.deep_view()), rest@),
            ),
        decreases rest@.len(),
    {
        if rest.len() == 0 {
            proof {
                assert(values.deep_view() + Seq::<ValueModel>::empty() =~= values.deep_view());
            }
            break;
        }
        let ghost before = values.deep_view();
        match parse_action_value(rest) {
            Err(ParseError::Error) => {
                proof {
                    assert(values.deep_view() + Seq::<ValueModel>::empty() =~= values.deep_view());
                }
                break;
            },
            Err(e) => return Err(e),
            Ok((next, v)) => {
                if next.len() >= rest.len() {
                    proof {
                        assert(values.deep_view() + Seq::<ValueModel>::empty() =~= values.deep_view());
                    }
                    break;
                }
                let ghost vm = v.deep_view();
                values.push(v);
                proof {
                    assert(values.deep_view() =~= before.push(vm));
                    match spec_more_values(next@) {
                        Err(_) => {},
                        Ok((others, _)) => {
                            assert(before + (seq![vm] + others) =~= values.deep_view() + others);
                        },
                    }
                }
                rest = next;
            },
        }
    }
    Ok((rest, Push { values }))
}

/// Action 0x99: `SINT16_LE` branch offset.
pub open spec fn spec_jump_action(s: Seq<u8>) -> SpecResult<ActionModel> {
    match spec_le_i16(s) {
        Err(e) => Err(e),
        Ok((branch_offset, rest)) => Ok((ActionModel::Jump(Jump { branch_offset }), rest)),
    }
}

fn parse_jump_action(input: &[u8]) -> (r: PResult<Action>)
    ensures
        parsed_as(r, spec_jump_action(input@)),
{
    let (rest, branch_offset) = parse_le_i16(input)?;
    Ok((rest, Action::Jump(Jump { branch_offset })))
}

/// Action 0x9a: one flag byte; its two high bits give the method (3 is invalid), then
/// come the load-target and load-variables bits.
pub open spec fn spec_get_url2_action(s: Seq<u8>) -> SpecResult<ActionModel> {
    match spec_u8(s) {
        Err(e) => Err(e),
        Ok((flags, rest)) => {
            let method = flags / 64;
            if method == 3 {
                Err(ParseError::Error)
            } else {
                Ok((
                    ActionModel::GetUrl2(GetUrl2 {
                        send_vars_method: if method == 0 {
                            SendVarsMethod::NoSend
                        } else if method == 1 {
                            SendVarsMethod::Get
                        } else {
                            SendVarsMethod::Post
                        },
                        load_target: flags & 0x20u8 != 0,
                        load_variables: flags & 0x10u8 != 0,
                    }),
                    rest,
                ))
            }
        },
    }
}

fn parse_get_url2_action(input: &[u8]) -> (r: PResult<Action>)
    ensures
        parsed_as(r, spec_get_url2_action(input@)),
{
    let (rest, flags) = parse_u8(input)?;
    let method: u8 = flags / 64;
    let send_vars_method = if method == 0 {
        SendVarsMethod::NoSend
    } else if method == 1 {
        SendVarsMethod::Get
    } else if method == 2 {
        SendVarsMethod::Post
    } else {
        return Err(ParseError::Error);
    };
    Ok((
        rest,
        Action::GetUrl2(GetUrl2 {
            send_vars_method,
            load_target: flags & 0x20u8 != 0,
            load_variables: flags & 0x10u8 != 0,
        }),
    ))
}

/// Action 0x9d: `SINT16_LE` branch offset.
pub open spec fn spec_if_action(s: Seq<u8>) -> SpecResult<ActionModel> {
    match spec_le_i16(s) {
        Err(e) => Err(e),
        Ok((branch_offset, rest)) => Ok((ActionModel::If(If { branch_offset }), rest)),
    }
}

fn parse_if_action(input: &[u8]) -> (r: PResult<Action>)
    ensures
        parsed_as(r, spec_if_action(input@)),
{
    let (rest, branch_offset) = parse_le_i16(input)?;
    Ok((rest, Action::If(If { branch_offset })))
}

/// Action 0x9f: one flag byte (bit 1: a scene bias follows, bit 0: play), then the
/// optional `UINT16_LE` scene bias.
pub open spec fn spec_goto_frame2_action(s: Seq<u8>) -> SpecResult<ActionModel> {
    match spec_u8(s) {
        Err(e) => Err(e),
        Ok((flags, s1)) => {
            let play = flags & 1u8 != 0;
            if flags & 2u8 != 0 {
                match spec_le_u16(s1) {
                    Err(e) => Err(e),
                    Ok((bias, rest)) => Ok((
                        ActionModel::GotoFrame2(GotoFrame2 { play, scene_bias: Some(bias as usize) }),
                        rest,
                    )),
                }
            } else {
                Ok((ActionModel::GotoFrame2(GotoFrame2 { play, scene_bias: None }), s1))
            }
        },
    }
}

fn parse_goto_frame2_action(input: &[u8]) -> (r: PResult<Action>)
    ensures
        parsed_as(r, spec_goto_frame2_action(input@)),
{
    let (rest, flags) = parse_u8(input)?;
    let play: bool = flags & 1u8 != 0;
    if flags & 2u8 != 0 {
        let (rest, bias) = parse_le_u16(rest)?;
        Ok((rest, Action::GotoFrame2(GotoFrame2 { play, scene_bias: Some(bias as usize) })))
    } else {
        Ok((rest, Action::GotoFrame2(GotoFrame2 { play, scene_bias: None })))
    }
}


// ---------------------------------------------------------------------------
// Function definitions, actions and blocks of actions
// ---------------------------------------------------------------------------

/// `count` parameters of a `DefineFunction2`: a register number and a name each.
pub open spec fn spec_parameters(s: Seq<u8>, count: nat) -> SpecResult<Seq<ParameterModel>>
    decreases count,
{
    if count == 0 {
        Ok((Seq::empty(), s))
    } else {
        match spec_u8(s) {
            Err(e) => Err(e),
            Ok((register, s1)) => match spec_c_string(s1) {
                Err(e) => Err(e),
                Ok((name, s2)) => match spec_parameters(s2, (count - 1) as nat) {
                    Err(e) => Err(e),
                    Ok((others, rest)) => Ok((seq![ParameterModel { register, name }] + others, rest)),
                },
            },
        }
    }
}

/// Reading parameters never leaves more input than it was given.
pub proof fn lemma_parameters_shrink(s: Seq<u8>, count: nat)
    ensures
        spec_parameters(s, count) matches Ok((_, rest)) ==> rest.len() <= s.len(),
    decreases count,
{
    if count > 0 {
        if let Ok((_, s1)) = spec_u8(s) {
            lemma_c_string_shrinks(s1);
            if let Ok((_, s2)) = spec_c_string(s1) {
                lemma_parameters_shrink(s2, (count - 1) as nat);
            }
        }
    }
}

fn parse_parameters(input: &[u8], count: usize) -> (r: PResult<Vec<Parameter>>)
    ensures
        match (r, spec_parameters(input@, count as nat)) {
            (Ok((rest, v)), Ok((m, srest))) => rest@ == srest && m == v.deep_view(),
            (Err(e1), Err(e2)) => e1 == e2,
            _ => false,
        },
{
    let mut rest: &[u8] = input;
    let mut params: Vec<Parameter> = Vec::new();
    let mut i: usize = 0;
    while i < count
        invariant
            i <= count,
            spec_parameters(input@, count as nat) == match spec_parameters(rest@, (count - i) as nat) {
                Err(e) => Err(e),
                Ok((others, r)) => Ok((params.deep_view() + others, r)),
            },
        decreases count - i,
    {
        let ghost prefix = params.deep_view();
        let (next, register) = parse_u8(rest)?;
        let (next, name) = parse_c_string(next)?;
        let p = Parameter { register, name };
        let ghost pm = p.deep_view();
        params.push(p);
        proof {
            assert(params.deep_view() =~= prefix.push(pm));
            match spec_parameters(next@, (count - i - 1) as nat) {
                Err(_) => {},
                Ok((others, _)) => {
                    assert(prefix + (seq![pm] + others) =~= params.deep_view() + others);
                },
            }
        }
        rest = next;
        i = i + 1;
    }
    proof {
        assert(params.deep_view() + Seq::<ParameterModel>::empty() =~= params.deep_view());
    }
    Ok((rest, params))
}

/// Actions with a payload that holds no actions, and unknown actions, whose payload
/// is kept as bytes; `rest` starts with the payload.
#[verifier::opaque]
pub open spec fn spec_plain_action(code: u8, length: usize, rest: Seq<u8>) -> SpecResult<ActionModel> {
    if is_simple_action_code(code) {
        Ok((ActionModel::Simple(code), rest))
    } else if code == 0x81 {
        spec_goto_frame_action(rest)
    } else if code == 0x83 {
        spec_get_url_action(rest)
    } else if code == 0x87 {
        spec_store_register_action(rest)
    } else if code == 0x88 {
        spec_constant_pool_action(rest)
    } else if code == 0x8a {
        spec_wait_for_frame_action(rest)
    } else if code == 0x8b {
        spec_set_target_action(rest)
    } else if code == 0x8c {
        spec_goto_label_action(rest)
    } else if code == 0x8d {
        spec_wait_for_frame2_action(rest)
    } else if code == 0x8f {
        spec_try_action(rest)
    } else if code == 0x94 {
        spec_with_action(rest)
    } else if code == 0x96 {
        spec_push_action(rest)
    } else if code == 0x99 {
        spec_jump_action(rest)
    } else if code == 0x9a {
        spec_get_url2_action(rest)
    } else if code == 0x9d {
        spec_if_action(rest)
    } else if code == 0x9f {
        spec_goto_frame2_action(rest)
    } else {
        Ok((
            ActionModel::Unknown { action_code: code, data: rest.take(length as int) },
            rest.skip(length as int),
        ))
    }
}

fn parse_plain_action(code: u8, length: usize, rest: &[u8]) -> (r: PResult<Action>)
    requires
        length <= rest@.len(),
    ensures
        parsed_as(r, spec_plain_action(code, length, rest@)),
{
    reveal(spec_plain_action);
    if let Some(a) = simple_action(code) {
        return Ok((rest, a));
    }
    match code {
        0x81 => parse_goto_frame_action(rest),
        0x83 => parse_get_url_action(rest),
        0x87 => parse_store_register_action(rest),
        0x88 => parse_constant_pool_action(rest),
        0x8a => parse_wait_for_frame_action(rest),
        0x8b => parse_set_target_action(rest),
        0x8c => parse_goto_label_action(rest),
        0x8d => parse_wait_for_frame2_action(rest),
        0x8f => parse_try_action(rest),
        0x94 => parse_with_action(rest),
        0x96 => {
            let (next, push) = parse_push_action(rest)?;
            Ok((next, Action::Push(push)))
        },
        0x99 => parse_jump_action(rest),
        0x9a => parse_get_url2_action(rest),
        0x9d => parse_if_action(rest),
        0x9f => parse_goto_frame2_action(rest),
        _ => {
            let data: &[u8] = slice_subrange(rest, 0, length);
            let next: &[u8] = slice_subrange(rest, length, rest.len());
            Ok((next, Action::Unknown(UnknownAction { action_code: code, data: slice_to_vec(data) })))
        },
    }
}

/// Action 0x9b: name, `UINT16_LE` parameter count, the parameter names (C strings),
/// `UINT16_LE` code size, then a block of actions of that size.
pub open spec fn spec_define_function_action(s: Seq<u8>) -> SpecResult<ActionModel>
    decreases s.len(), 1int,
{
    match spec_c_string(s) {
        Err(e) => Err(e),
        Ok((name, s1)) => match spec_le_u16(s1) {
            Err(e) => Err(e),
            Ok((count, s2)) => match spec_c_strings(s2, count as nat) {
                Err(e) => Err(e),
                Ok((parameters, s3)) => match spec_le_u16(s3) {
                    Err(e) => Err(e),
                    Ok((code_size, s4)) => {
                        proof {
                            lemma_c_string_shrinks(s);
                            lemma_c_strings_shrink(s2, count as nat);
                        }
                        match spec_actions_block(s4, code_size as usize) {
                            Err(e) => Err(e),
                            Ok((body, rest)) => Ok((
                                ActionModel::DefineFunction(DefineFunctionModel { name, parameters, body }),
                                rest,
                            )),
                        }
                    },
                },
            },
        },
    }
}

/// The flags of `DefineFunction2`: eight in the first byte, from the high bit down,
/// and `preload_global` in the low bit of the second byte.
pub open spec fn function_flags(b0: u8, b1: u8) -> FunctionFlags {
    FunctionFlags {
        preload_parent: b0 & 0x80u8 != 0,
        preload_root: b0 & 0x40u8 != 0,
        suppress_super: b0 & 0x20u8 != 0,
        preload_super: b0 & 0x10u8 != 0,
        suppress_arguments: b0 & 0x08u8 != 0,
        preload_arguments: b0 & 0x04u8 != 0,
        suppress_this: b0 & 0x02u8 != 0,
        preload_this: b0 & 0x01u8 != 0,
        preload_global: b1 & 0x01u8 != 0,
    }
}

/// Action 0x8e: name, `UINT16_LE` parameter count, `UINT8` register count, two flag
/// bytes, the parameters, `UINT16_LE` code size, then a block of actions of that size.
pub open spec fn spec_define_function2_action(s: Seq<u8>) -> SpecResult<ActionModel>
    decreases s.len(), 1int,
{
    match spec_c_string(s) {
        Err(e) => Err(e),
        Ok((name, s1)) => match spec_le_u16(s1) {
            Err(e) => Err(e),
            Ok((count, s2)) => match spec_u8(s2) {
                Err(e) => Err(e),
                Ok((register_count, s3)) => match spec_u8(s3) {
                    Err(e) => Err(e),
                    Ok((b0, s4)) => match spec_u8(s4) {
                        Err(e) => Err(e),
                        Ok((b1, s5)) => match spec_parameters(s5, count as nat) {
                            Err(e) => Err(e),
                            Ok((parameters, s6)) => match spec_le_u16(s6) {
                                Err(e) => Err(e),
                                Ok((code_size, s7)) => {
                                    proof {
                                        lemma_c_string_shrinks(s);
                                        lemma_parameters_shrink(s5, count as nat);
                                    }
                                    match spec_actions_block(s7, code_size as usize) {
                                        Err(e) => Err(e),
                                        Ok((body, rest)) => Ok((
                                            ActionModel::DefineFunction2(DefineFunction2Model {
                                                name,
                                                flags: function_flags(b0, b1),
                                                register_count: register_count as usize,
                                                parameters,
                                                body,
                                            }),
                                            rest,
                                        )),
                                    }
                                },
                            },
                        },
                    },
                },
            },
        },
    }
}

/// An action: its header, then a payload that must fit in the input; the payload
/// parser of the code reads from the start of the payload.
pub open spec fn spec_action(s: Seq<u8>) -> SpecResult<ActionModel>
    decreases s.len(), 2int,
{
    match spec_action_header(s) {
        Err(e) => Err(e),
        Ok((h, rest)) => if rest.len() < h.length {
            Err(ParseError::Incomplete(Needed::Size((s.len() - rest.len() + h.length) as usize)))
        } else if h.action_code == 0x8e {
            spec_define_function2_action(rest)
        } else if h.action_code == 0x9b {
            spec_define_function_action(rest)
        } else {
            spec_plain_action(h.action_code, h.length, rest)
        },
    }
}

/// The actions that fill a byte string exactly; an action that would read nothing is
/// an error.
pub open spec fn spec_action_seq(t: Seq<u8>) -> Result<Seq<ActionModel>, ParseError>
    decreases t.len(), 3int,
{
    if t.len() == 0 {
        Ok(Seq::empty())
    } else {
        match spec_action(t) {
            Err(e) => Err(e),
            Ok((a, rest)) => if rest.len() < t.len() {
                match spec_action_seq(rest) {
                    Err(e) => Err(e),
                    Ok(others) => Ok(seq![a] + others),
                }
            } else {
                Err(ParseError::Error)
            },
        }
    }
}

/// A block of actions taking exactly `code_size` bytes.
pub open spec fn spec_actions_block(s: Seq<u8>, code_size: usize) -> SpecResult<Seq<ActionModel>>
    decreases s.len(), 4int,
{
    if code_size > s.len() {
        Err(ParseError::Incomplete(Needed::Size((code_size - s.len()) as usize)))
    } else {
        match spec_action_seq(s.take(code_size as int)) {
            Err(e) => Err(e),
            Ok(actions) => Ok((actions, s.skip(code_size as int))),
        }
    }
}

fn parse_define_function_action(input: &[u8]) -> (r: PResult<Action>)
    ensures
        parsed_as(r, spec_define_function_action(input@)),
    decreases input@.len(), 1int,
{
    proof {
        lemma_c_string_shrinks(input@);
    }
    let (rest, name) = parse_c_string(input)?;
    let (rest, count) = parse_le_u16(rest)?;
    proof {
        lemma_c_strings_shrink(rest@, count as nat);
    }
    let (rest, parameters) = parse_c_strings(rest, count as usize)?;
    let (rest, code_size) = parse_le_u16(rest)?;
    let (rest, body) = parse_actions_block(rest, code_size as usize)?;
    let f = DefineFunction { name, parameters, body };
    proof {
        crate::actions::lemma_define_function_view(f);
    }
    Ok((rest, Action::DefineFunction(f)))
}

fn parse_define_function2_action(input: &[u8]) -> (r: PResult<Action>)
    ensures
        parsed_as(r, spec_define_function2_action(input@)),
    decreases input@.len(), 1int,
{
    proof {
        lemma_c_string_shrinks(input@);
    }
    let (rest, name) = parse_c_string(input)?;
    let (rest, count) = parse_le_u16(rest)?;
    let (rest, register_count) = parse_u8(rest)?;
    let (rest, b0) = parse_u8(rest)?;
    let (rest, b1) = parse_u8(rest)?;
    proof {
        lemma_parameters_shrink(rest@, count as nat);
    }
    let (rest, parameters) = parse_parameters(rest, count as usize)?;
    let (rest, code_size) = parse_le_u16(rest)?;
    let (rest, body) = parse_actions_block(rest, code_size as usize)?;
    let f = DefineFunction2 {
        name,
        preload_parent: b0 & 0x80u8 != 0,
        preload_root: b0 & 0x40u8 != 0,
        suppress_super: b0 & 0x20u8 != 0,
        preload_super: b0 & 0x10u8 != 0,
        suppress_arguments: b0 & 0x08u8 != 0,
        preload_arguments: b0 & 0x04u8 != 0,
        suppress_this: b0 & 0x02u8 != 0,
        preload_this: b0 & 0x01u8 != 0,
        preload_global: b1 & 0x01u8 != 0,
        register_count: register_count as usize,
        parameters,
        body,
    };
    proof {
        crate::actions::lemma_define_function2_view(f);
    }
    Ok((rest, Action::DefineFunction2(f)))
}

/// Parses the action at the start of the input.
pub fn parse_action(input: &[u8]) -> (r: PResult<Action>)
    ensures
        parsed_as(r, spec_action(input@)),
    decreases input@.len(), 2int,
{
    let (rest, header) = parse_action_header(input)?;
    if rest.len() < header.length {
        let header_len: usize = input.len() - rest.len();
        return Err(ParseError::Incomplete(Needed::Size(header_len + header.length)));
    }
    if header.action_code == 0x8e {
        parse_define_function2_action(rest)
    } else if header.action_code == 0x9b {
        parse_define_function_action(rest)
    } else {
        parse_plain_action(header.action_code, header.length, rest)
    }
}

/// Parses a block of actions that takes exactly `code_size` bytes.
#[verifier::rlimit(40)]
pub fn parse_actions_block(input: &[u8], code_size: usize) -> (r: PResult<Vec<Action>>)
    ensures
        match (r, spec_actions_block(input@, code_size)) {
            (Ok((rest, v)), Ok((m, srest))) => rest@ == srest && m == v.deep_view(),
            (Err(e1), Err(e2)) => e1 == e2,
            _ => false,
        },
    decreases input@.len(), 4int,
{
    if code_size > input.len() {
        return Err(ParseError::Incomplete(Needed::Size(code_size - input.len())));
    }
    let block: &[u8] = slice_subrange(input, 0, code_size);
    let after: &[u8] = slice_subrange(input, code_size, input.len());
    let mut current: &[u8] = block;
    let mut actions: Vec<Action> = Vec::new();
    proof {
        assert(actions.deep_view() =~= Seq::<ActionModel>::empty());
    }
    while current.len() > 0
        invariant
            current@.len() <= code_size <= input@.len(),
            block@ == input@.take(code_size as int),
            spec_action_seq(block@) == match spec_action_seq(current@) {
                Err(e) => Err(e),
                Ok(others) => Ok(actions.deep_view() + others),
            },
        decreases current@.len(),
    {
        let ghost before = actions.deep_view();
        let (next, action) = parse_action(current)?;
        if next.len() >= current.len() {
            return Err(ParseError::Error);
        }
        let ghost am = action.deep_view();
        actions.push(action);
        proof {
            assert(actions.deep_view() =~= before.push(am));
            match spec_action_seq(next@) {
                Err(_) => {},
                Ok(others) => {
                    assert(before + (seq![am] + others) =~= actions.deep_view() + others);
                },
            }
        }
        current = next;
    }
    proof {
        assert(actions.deep_view() + Seq::<ActionModel>::empty() =~= actions.deep_view());
    }
    Ok((after, actions))
}

/// A nul-terminated string of actions; the final nul byte is left in the input.
pub open spec fn spec_actions_string(s: Seq<u8>) -> SpecResult<Seq<ActionModel>>
    decreases s.len(),
{
    if s.len() == 0 {
        Err(ParseError::Incomplete(Needed::Size(1)))
    } else if s[0] == 0 {
        Ok((Seq::empty(), s))
    } else {
        match spec_action(s) {
            Err(e) => Err(e),
            Ok((a, rest)) => if rest.len() >= s.len() {
                Err(ParseError::Error)
            } else if rest.len() == 0 {
                Err(ParseError::Incomplete(Needed::Unknown))
            } else {
                match spec_actions_string(rest) {
                    Err(e) => Err(e),
                    Ok((others, r)) => Ok((seq![a] + others, r)),
                }
            },
        }
    }
}

/// Parses a nul-terminated string of actions; the final nul byte is left in the input.
pub fn parse_actions_string(input: &[u8]) -> (r: PResult<Vec<Action>>)
    ensures
        match (r, spec_actions_string(input@)) {
            (Ok((rest, v)), Ok((m, srest))) => rest@ == srest && m == v.deep_view(),
            (Err(e1), Err(e2)) => e1 == e2,
            _ => false,
        },
{
    if input.len() == 0 {
        return Err(ParseError::Incomplete(Needed::Size(1)));
    }
    let mut current: &[u8] = input;
    let mut actions: Vec<Action> = Vec::new();
    proof {
        assert(actions.deep_view() =~= Seq::<ActionModel>::empty());
    }
    while current[0] != 0
        invariant
            current@.len() > 0,
            spec_actions_string(input@) == match spec_actions_string(current@) {
                Err(e) => Err(e),
                Ok((others, r)) => Ok((actions.deep_view() + others, r)),
            },
        decreases current@.len(),
    {
        let ghost before = actions.deep_view();
        let (next, action) = parse_action(current)?;
        if next.len() >= current.len() {
            return Err(ParseError::Error);
        }
        if next.len() == 0 {
            return Err(ParseError::Incomplete(Needed::Unknown));
        }
        let ghost am = action.deep_view();
        actions.push(action);
        proof {
            assert(actions.deep_view() =~= before.push(am));
            match spec_actions_string(next@) {
                Err(_) => {},
                Ok((others, _)) => {
                    assert(before + (seq![am] + others) =~= actions.deep_view() + others);
                },
            }
        }
        current = next;
    }
    proof {
        assert(actions.deep_view() + Seq::<ActionModel>::empty() =~= actions.deep_view());
    }
    Ok((current, actions))
}

} // verus!
