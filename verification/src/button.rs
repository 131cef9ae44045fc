//! Buttons: their character records, their conditional actions, and the tags that
//! define them.
use vstd::prelude::*;
use vstd::slice::slice_subrange;
use vstd::slice::slice_to_vec;
use crate::ast::{ColorTransformWithAlpha, Matrix};
use crate::basic_data_types::{
    parse_color_transform_with_alpha, parse_matrix, spec_color_transform_with_alpha, spec_matrix,
};
use crate::bytes::{parse_le_u16_c, parse_u8_c, u16_c, u8_c};
use crate::display::{
    BlendMode, Filter, FilterModel, parse_blend_mode, parse_filter_list, spec_blend_mode,
    spec_filter_list,
};
use crate::error::{Needed, ParseError, PResult, SpecResult, parsed_as, sbind, spec_complete};

verus! {

/// Version of a button definition.
#[derive(Clone, Copy, Debug, PartialEq, Eq, PartialOrd, Ord, Hash, Structural)]
pub enum ButtonVersion {
    Button1,
    Button2,
}



// ---------------------------------------------------------------------------
// Records
// ---------------------------------------------------------------------------

/// A character shown by a button in some of its states.
#[derive(Clone, Debug, PartialEq, Eq)]
pub struct ButtonRecord {
    pub state_up: bool,
    pub state_over: bool,
    pub state_down: bool,
    pub state_hit_test: bool,
    pub character_id: u16,
    pub depth: u16,
    pub matrix: Matrix,
    pub color_transform: Option<ColorTransformWithAlpha>,
    pub filters: Vec<Filter>,
    pub blend_mode: BlendMode,
}

pub struct ButtonRecordModel {
    pub state_up: bool,
    pub state_over: bool,
    pub state_down: bool,
    pub state_hit_test: bool,
    pub character_id: u16,
    pub depth: u16,
    pub matrix: Matrix,
    pub color_transform: Option<ColorTransformWithAlpha>,
    pub filters: Seq<FilterModel>,
    pub blend_mode: BlendMode,
}

impl DeepView for ButtonRecord {
    type V = ButtonRecordModel;
    open spec fn deep_view(&self) -> ButtonRecordModel {
        ButtonRecordModel {
            state_up: self.state_up,
            state_over: self.state_over,
            state_down: self.state_down,
            state_hit_test: self.state_hit_test,
            character_id: self.character_id,
            depth: self.depth,
            matrix: self.matrix,
            color_transform: self.color_transform,
            filters: self.filters.deep_view(),
            blend_mode: self.blend_mode,
        }
    }
}

/// The filters of a record of version 2 that announces them, else none.
pub open spec fn spec_record_filters(s: Seq<u8>, present: bool) -> SpecResult<Seq<FilterModel>> {
    if present { spec_filter_list(s) } else { Ok((Seq::empty(), s)) }
}

/// The blend mode of a record of version 2 that announces it, else `Normal`.
pub open spec fn spec_record_blend_mode(s: Seq<u8>, present: bool) -> SpecResult<BlendMode> {
    if present { spec_blend_mode(s) } else { Ok((BlendMode::Normal, s)) }
}

/// `buttonRecord : UINT8(flags) UINT16_LE(character) UINT16_LE(depth) matrix
/// [colorTransformWithAlpha [filterList] [blendMode]]`; the flags, from the low bit up:
/// up, over, down and hit-test states, filter list, blend mode. The color transform,
/// filters and blend mode exist from version 2 on.
pub open spec fn spec_button_record(s: Seq<u8>, version: ButtonVersion) -> SpecResult<ButtonRecordModel> {
    let v2 = version == ButtonVersion::Button2;
    sbind(u8_c(s), |flags: u8, s1: Seq<u8>|
    sbind(u16_c(s1), |character_id: u16, s2: Seq<u8>|
    sbind(u16_c(s2), |depth: u16, s3: Seq<u8>|
    sbind(spec_matrix(s3), |matrix: Matrix, s4: Seq<u8>|
    sbind(
        if v2 {
            match spec_color_transform_with_alpha(s4) {
                Err(e) => Err(e),
                Ok((c, rest)) => Ok((Some(c), rest)),
            }
        } else {
            Ok((None, s4))
        },
        |color_transform: Option<ColorTransformWithAlpha>, s5: Seq<u8>|
    sbind(spec_record_filters(s5, v2 && flags & 16u8 != 0), |filters: Seq<FilterModel>, s6: Seq<u8>|
    sbind(spec_record_blend_mode(s6, v2 && flags & 32u8 != 0), |blend_mode: BlendMode, s7: Seq<u8>|
        Ok((
            ButtonRecordModel {
                state_up: flags & 1u8 != 0,
                state_over: flags & 2u8 != 0,
                state_down: flags & 4u8 != 0,
                state_hit_test: flags & 8u8 != 0,
                character_id,
                depth,
                matrix,
                color_transform,
                filters,
                blend_mode,
            },
            s7,
        )))))))))
}

/// The states of a button record are the low bits of its first byte, from the lowest
/// up: up, over, down, hit test. Its character id and depth are the little-endian
/// numbers of the next two pairs of bytes.
pub proof fn lemma_button_record_states(s: Seq<u8>, version: ButtonVersion)
    ensures
        spec_button_record(s, version) matches Ok((r, _)) ==> {
            &&& s.len() >= 5
            &&& r.state_up == (s[0] % 2 == 1)
            &&& r.state_over == ((s[0] / 2) % 2 == 1)
            &&& r.state_down == ((s[0] / 4) % 2 == 1)
            &&& r.state_hit_test == ((s[0] / 8) % 2 == 1)
            &&& r.character_id == s[1] + 256 * s[2]
            &&& r.depth == s[3] + 256 * s[4]
        },
        version == ButtonVersion::Button1 && s.len() >= 5 && spec_matrix(s.skip(5)) is Ok
            ==> spec_button_record(s, version) is Ok,
{
    if s.len() > 0 {
        let f = s[0];
        assert((f & 1u8 != 0) == (f % 2 == 1)) by (bit_vector);
        assert((f & 2u8 != 0) == ((f / 2) % 2 == 1)) by (bit_vector);
        assert((f & 4u8 != 0) == ((f / 4) % 2 == 1)) by (bit_vector);
        assert((f & 8u8 != 0) == ((f / 8) % 2 == 1)) by (bit_vector);
        let s1 = s.skip(1);
        if s1.len() >= 2 {
            assert(s1[0] == s[1] && s1[1] == s[2]);
            let s2 = s1.skip(2);
            if s2.len() >= 2 {
                assert(s2[0] == s[3] && s2[1] == s[4]);
                assert(s2.skip(2) =~= s.skip(5));
            }
        }
    }
}

pub fn parse_button_record(input: &[u8], version: ButtonVersion) -> (r: PResult<ButtonRecord>)
    ensures
        parsed_as(r, spec_button_record(input@, version)),
{
    let v2: bool = match version {
        ButtonVersion::Button2 => true,
        ButtonVersion::Button1 => false,
    };
    let (input, flags) = parse_u8_c(input)?;
    // Bits 6 and 7 are skipped.
    let (input, character_id) = parse_le_u16_c(input)?;
    let (input, depth) = parse_le_u16_c(input)?;
    let (input, matrix) = parse_matrix(input)?;
    let (input, color_transform) = if v2 {
        let (input, c) = parse_color_transform_with_alpha(input)?;
        (input, Some(c))
    } else {
        (input, None)
    };
    let (input, filters) = if v2 && flags & 16u8 != 0 {
        parse_filter_list(input)?
    } else {
        let none: Vec<Filter> = Vec::new();
        assert(none.deep_view() =~= Seq::<FilterModel>::empty());
        (input, none)
    };
    let (input, blend_mode) = if v2 && flags & 32u8 != 0 {
        parse_blend_mode(input)?
    } else {
        (input, BlendMode::Normal)
    };
    Ok((
        input,
        ButtonRecord {
            state_up: flags & 1u8 != 0,
            state_over: flags & 2u8 != 0,
            state_down: flags & 4u8 != 0,
            state_hit_test: flags & 8u8 != 0,
            character_id,
            depth,
            matrix,
            color_transform,
            filters,
            blend_mode,
        },
    ))
}

/// Records up to a null byte, which is consumed. Running out of input, before the null
/// byte or inside a record, is incomplete with an unknown need.
pub open spec fn spec_button_record_string(s: Seq<u8>, version: ButtonVersion)
    -> SpecResult<Seq<ButtonRecordModel>>
    decreases s.len(),
{
    if s.len() == 0 {
        Err(ParseError::Incomplete(Needed::Unknown))
    } else if s[0] == 0 {
        Ok((Seq::empty(), s.skip(1)))
    } else {
        match spec_button_record(s, version) {
            Err(ParseError::Incomplete(_)) => Err(ParseError::Incomplete(Needed::Unknown)),
            Err(e) => Err(e),
            Ok((rec, rest)) => if rest.len() < s.len() {
                match spec_button_record_string(rest, version) {
                    Err(e) => Err(e),
                    Ok((others, rest2)) => Ok((seq![rec] + others, rest2)),
                }
            } else {
                Err(ParseError::Error)
            },
        }
    }
}

/// `r` with `prefix` put in front of its records.
pub open spec fn records_prefixed(prefix: Seq<ButtonRecordModel>, r: SpecResult<Seq<ButtonRecordModel>>)
    -> SpecResult<Seq<ButtonRecordModel>>
{
    match r {
        Ok((others, rest)) => Ok((prefix + others, rest)),
        Err(e) => Err(e),
    }
}

pub fn parse_button_record_string(input: &[u8], version: ButtonVersion) -> (r: PResult<Vec<ButtonRecord>>)
    ensures
        parsed_as(r, spec_button_record_string(input@, version)),
{
    let mut result: Vec<ButtonRecord> = Vec::new();
    let mut cur: &[u8] = input;
    assert(records_prefixed(result.deep_view(), spec_button_record_string(cur@, version))
        == spec_button_record_string(input@, version)) by {
        assert(result.deep_view() =~= Seq::<ButtonRecordModel>::empty());
        match spec_button_record_string(input@, version) {
            Ok((o, rest)) => { assert(Seq::<ButtonRecordModel>::empty() + o =~= o); },
            Err(_) => {},
        }
    }
    loop
        invariant
            records_prefixed(result.deep_view(), spec_button_record_string(cur@, version))
                == spec_button_record_string(input@, version),
        decreases cur@.len(),
    {
        if cur.len() == 0 {
            return Err(ParseError::Incomplete(Needed::Unknown));
        }
        if cur[0] == 0 {
            let rest = slice_subrange(cur, 1, cur.len());
            proof {
                assert(result.deep_view() + Seq::<ButtonRecordModel>::empty() =~= result.deep_view());
            }
            return Ok((rest, result));
        }
        match parse_button_record(cur, version) {
            Ok((next, rec)) => {
                if next.len() >= cur.len() {
                    return Err(ParseError::Error);
                }
                proof {
                    let old_out = result.deep_view();
                    assert(spec_button_record_string(cur@, version)
                        == records_prefixed(seq![rec.deep_view()], spec_button_record_string(next@, version)));
                    match spec_button_record_string(next@, version) {
                        Ok((o, rest)) => {
                            assert(old_out + (seq![rec.deep_view()] + o) =~= old_out.push(rec.deep_view()) + o);
                        },
                        Err(_) => {},
                    }
                }
                let ghost old_out = result.deep_view();
                let ghost rm = rec.deep_view();
                result.push(rec);
                assert(result.deep_view() =~= old_out.push(rm));
                cur = next;
            },
            Err(ParseError::Incomplete(_)) => {
                return Err(ParseError::Incomplete(Needed::Unknown));
            },
            Err(e) => {
                return Err(e);
            },
        }
    }
}

// ---------------------------------------------------------------------------
// Conditional actions
// ---------------------------------------------------------------------------

/// The state transitions and the key press that trigger an action of a button.
#[derive(Clone, Copy, Debug, PartialEq, Eq, Structural)]
pub struct ButtonCond {
    pub key_press: Option<u32>,
    pub over_down_to_idle: bool,
    pub idle_to_over_up: bool,
    pub over_up_to_idle: bool,
    pub over_up_to_over_down: bool,
    pub over_down_to_over_up: bool,
    pub over_down_to_out_down: bool,
    pub out_down_to_over_down: bool,
    pub out_down_to_idle: bool,
    pub idle_to_over_down: bool,
}

impl DeepView for ButtonCond {
    type V = ButtonCond;
    open spec fn deep_view(&self) -> ButtonCond { *self }
}

/// The key of a seven-bit key code: none for 0, the code itself for the special keys
/// (1 to 6, 8, 13 to 19) and the printable ASCII characters (32 to 126); the other
/// codes are refused.
pub open spec fn spec_key_press(code: u16) -> Option<Option<u32>> {
    if code == 0 {
        Some(None)
    } else if (1 <= code <= 6) || code == 8 || (13 <= code <= 19) || (32 <= code <= 126) {
        Some(Some(code as u32))
    } else {
        None
    }
}

fn key_press_from_code(key_press_id: u16) -> (r: Result<Option<u32>, ()>)
    ensures
        match spec_key_press(key_press_id) {
            Some(k) => r == Ok::<Option<u32>, ()>(k),
            None => r is Err,
        },
{
    if key_press_id == 0 {
        Ok(None)
    } else if (1 <= key_press_id && key_press_id <= 6) || key_press_id == 8
        || (13 <= key_press_id && key_press_id <= 19) || (32 <= key_press_id && key_press_id <= 126) {
        Ok(Some(key_press_id as u32))
    } else {
        Err(())
    }
}

/// `buttonCond : UINT16_LE(flags)`; from the low bit up: idle to over-up, over-up to
/// idle, over-up to over-down, over-down to over-up, over-down to out-down, out-down to
/// over-down, out-down to idle, idle to over-down, over-down to idle; the seven high
/// bits hold the key code.
pub open spec fn spec_button_cond(s: Seq<u8>) -> SpecResult<ButtonCond> {
    sbind(u16_c(s), |flags: u16, s1: Seq<u8>|
        match spec_key_press((flags >> 9u16) & 0x7fu16) {
            None => Err(ParseError::Error),
            Some(key_press) => Ok((
                ButtonCond {
                    key_press,
                    over_down_to_idle: flags & 256u16 != 0,
                    idle_to_over_up: flags & 1u16 != 0,
                    over_up_to_idle: flags & 2u16 != 0,
                    over_up_to_over_down: flags & 4u16 != 0,
                    over_down_to_over_up: flags & 8u16 != 0,
                    over_down_to_out_down: flags & 16u16 != 0,
                    out_down_to_over_down: flags & 32u16 != 0,
                    out_down_to_idle: flags & 64u16 != 0,
                    idle_to_over_down: flags & 128u16 != 0,
                },
                s1,
            )),
        })
}

pub fn parse_button_cond(input: &[u8]) -> (r: PResult<ButtonCond>)
    ensures
        parsed_as(r, spec_button_cond(input@)),
{
    let (input, flags) = parse_le_u16_c(input)?;
    let key_press = match key_press_from_code((flags >> 9u16) & 0x7fu16) {
        Ok(k) => k,
        Err(()) => return Err(ParseError::Error),
    };
    Ok((
        input,
        ButtonCond {
            key_press,
            over_down_to_idle: flags & 256u16 != 0,
            idle_to_over_up: flags & 1u16 != 0,
            over_up_to_idle: flags & 2u16 != 0,
            over_up_to_over_down: flags & 4u16 != 0,
            over_down_to_over_up: flags & 8u16 != 0,
            over_down_to_out_down: flags & 16u16 != 0,
            out_down_to_over_down: flags & 32u16 != 0,
            out_down_to_idle: flags & 64u16 != 0,
            idle_to_over_down: flags & 128u16 != 0,
        },
    ))
}

/// Actions of a button, with the conditions that trigger them (none for the actions of
/// a button of version 1). The actions are kept as raw bytes.
#[derive(Clone, Debug, PartialEq, Eq)]
pub struct ButtonCondAction {
    pub conditions: Option<ButtonCond>,
    pub actions: Vec<u8>,
}

pub struct ButtonCondActionModel {
    pub conditions: Option<ButtonCond>,
    pub actions: Seq<u8>,
}

impl DeepView for ButtonCondAction {
    type V = ButtonCondActionModel;
    open spec fn deep_view(&self) -> ButtonCondActionModel {
        ButtonCondActionModel { conditions: self.conditions, actions: self.actions@ }
    }
}

/// `condAction : UINT16_LE(offset of the next one) buttonCond bytes`: the offset and the
/// action, whose bytes are everything after its conditions.
pub open spec fn spec_button2_cond_action(s: Seq<u8>) -> SpecResult<(u16, ButtonCondActionModel)> {
    sbind(u16_c(s), |next_action_offset: u16, s1: Seq<u8>|
    sbind(spec_button_cond(s1), |conditions: ButtonCond, s2: Seq<u8>|
        Ok(((next_action_offset, ButtonCondActionModel { conditions: Some(conditions), actions: s2 }), s2))))
}

pub fn parse_button2_cond_action(input: &[u8]) -> (r: Result<(&[u8], (usize, ButtonCondAction)), ParseError>)
    ensures
        match (r, spec_button2_cond_action(input@)) {
            (Ok((rest, (off, a))), Ok(((soff, sa), srest))) => rest@ == srest && off == soff
                && a.deep_view() == sa,
            (Err(e1), Err(e2)) => e1 == e2,
            _ => false,
        },
{
    let (input, next_action_offset) = parse_le_u16_c(input)?;
    let (input, conditions) = parse_button_cond(input)?;
    let value = ButtonCondAction { conditions: Some(conditions), actions: slice_to_vec(input) };
    Ok((input, (next_action_offset as usize, value)))
}

/// Conditional actions, each at the offset that the previous one gives, up to one with
/// a null offset; the input left starts at that last action.
pub open spec fn spec_button2_cond_action_string(s: Seq<u8>) -> SpecResult<Seq<ButtonCondActionModel>>
    decreases s.len(),
{
    match spec_button2_cond_action(s) {
        Err(e) => Err(e),
        Ok(((off, action), _)) => if off == 0 {
            Ok((seq![action], s))
        } else if off <= s.len() {
            match spec_button2_cond_action_string(s.skip(off as int)) {
                Err(e) => Err(e),
                Ok((others, rest)) => Ok((seq![action] + others, rest)),
            }
        } else {
            Err(ParseError::Error)
        },
    }
}

/// `r` with `prefix` put in front of its actions.
pub open spec fn actions_prefixed(prefix: Seq<ButtonCondActionModel>, r: SpecResult<Seq<ButtonCondActionModel>>)
    -> SpecResult<Seq<ButtonCondActionModel>>
{
    match r {
        Ok((others, rest)) => Ok((prefix + others, rest)),
        Err(e) => Err(e),
    }
}

pub fn parse_button2_cond_action_string(input: &[u8]) -> (r: PResult<Vec<ButtonCondAction>>)
    ensures
        parsed_as(r, spec_button2_cond_action_string(input@)),
{
    let mut actions: Vec<ButtonCondAction> = Vec::new();
    let mut cur: &[u8] = input;
    assert(actions_prefixed(actions.deep_view(), spec_button2_cond_action_string(cur@))
        == spec_button2_cond_action_string(input@)) by {
        assert(actions.deep_view() =~= Seq::<ButtonCondActionModel>::empty());
        match spec_button2_cond_action_string(input@) {
            Ok((o, rest)) => { assert(Seq::<ButtonCondActionModel>::empty() + o =~= o); },
            Err(_) => {},
        }
    }
    loop
        invariant
            actions_prefixed(actions.deep_view(), spec_button2_cond_action_string(cur@))
                == spec_button2_cond_action_string(input@),
        decreases cur@.len(),
    {
        let (_, (next_action_offset, cond_action)) = parse_button2_cond_action(cur)?;
        let ghost old_out = actions.deep_view();
        let ghost am = cond_action.deep_view();
        actions.push(cond_action);
        assert(actions.deep_view() =~= old_out.push(am));
        if next_action_offset == 0 {
            proof {
                assert(old_out + seq![am] =~= old_out.push(am));
            }
            return Ok((cur, actions));
        }
        if next_action_offset > cur.len() {
            return Err(ParseError::Error);
        }
        let next = slice_subrange(cur, next_action_offset, cur.len());
        proof {
            assert(next@ =~= cur@.skip(next_action_offset as int));
            match spec_button2_cond_action_string(next@) {
                Ok((o, rest)) => {
                    assert(old_out + (seq![am] + o) =~= old_out.push(am) + o);
                },
                Err(_) => {},
            }
        }
        cur = next;
    }
}

// ---------------------------------------------------------------------------
// DefineButton and DefineButton2
// ---------------------------------------------------------------------------

/// A button.
#[derive(Clone, Debug, PartialEq, Eq)]
pub struct DefineButton {
    pub id: u16,
    pub track_as_menu: bool,
    pub characters: Vec<ButtonRecord>,
    pub actions: Vec<ButtonCondAction>,
}

pub struct DefineButtonModel {
    pub id: u16,
    pub track_as_menu: bool,
    pub characters: Seq<ButtonRecordModel>,
    pub actions: Seq<ButtonCondActionModel>,
}

impl DeepView for DefineButton {
    type V = DefineButtonModel;
    open spec fn deep_view(&self) -> DefineButtonModel {
        DefineButtonModel {
            id: self.id,
            track_as_menu: self.track_as_menu,
            characters: self.characters.deep_view(),
            actions: self.actions.deep_view(),
        }
    }
}

/// `defineButton : UINT16_LE(id) buttonRecordString bytes`: the bytes after the records
/// are the button's one action list, without conditions; they are not consumed.
#[verifier::opaque]
pub open spec fn spec_define_button(s: Seq<u8>) -> SpecResult<DefineButtonModel> {
    sbind(u16_c(s), |id: u16, s1: Seq<u8>|
    sbind(spec_button_record_string(s1, ButtonVersion::Button1), |characters: Seq<ButtonRecordModel>, s2: Seq<u8>|
        Ok((
            DefineButtonModel {
                id,
                track_as_menu: false,
                characters,
                actions: seq![ButtonCondActionModel { conditions: None, actions: s2 }],
            },
            s2,
        ))))
}

pub fn parse_define_button(input: &[u8]) -> (r: PResult<DefineButton>)
    ensures
        parsed_as(r, spec_define_button(input@)),
{
    reveal(spec_define_button);
    let (input, id) = parse_le_u16_c(input)?;
    let (input, characters) = parse_button_record_string(input, ButtonVersion::Button1)?;
    let cond_action = ButtonCondAction { conditions: None, actions: slice_to_vec(input) };
    let actions = vec![cond_action];
    assert(actions.deep_view() =~= seq![ButtonCondActionModel { conditions: None, actions: input@ }]);
    Ok((input, DefineButton { id, track_as_menu: false, characters, actions }))
}

/// `defineButton2 : UINT16_LE(id) UINT8(flags) UINT16_LE(action offset)
/// buttonRecordString [condActionString]`; the low bit of the flags makes the button
/// track as a menu, and a null action offset means that there are no actions.
#[verifier::opaque]
pub open spec fn spec_define_button2(s: Seq<u8>) -> SpecResult<DefineButtonModel> {
    sbind(u16_c(s), |id: u16, s1: Seq<u8>|
    sbind(u8_c(s1), |flags: u8, s2: Seq<u8>|
    sbind(u16_c(s2), |action_offset: u16, s3: Seq<u8>|
    sbind(spec_button_record_string(s3, ButtonVersion::Button2), |characters: Seq<ButtonRecordModel>, s4: Seq<u8>|
    sbind(
        if action_offset != 0 { spec_button2_cond_action_string(s4) } else { Ok((Seq::empty(), s4)) },
        |actions: Seq<ButtonCondActionModel>, s5: Seq<u8>|
        Ok((DefineButtonModel { id, track_as_menu: flags & 1u8 != 0, characters, actions }, s5)))))))
}

pub fn parse_define_button2(input: &[u8]) -> (r: PResult<DefineButton>)
    ensures
        parsed_as(r, spec_define_button2(input@)),
{
    reveal(spec_define_button2);
    let (input, id) = parse_le_u16_c(input)?;
    let (input, flags) = parse_u8_c(input)?;
    // Bits 1 to 7 are skipped.
    let (input, action_offset) = parse_le_u16_c(input)?;
    let (input, characters) = parse_button_record_string(input, ButtonVersion::Button2)?;
    let (input, actions) = if action_offset != 0 {
        parse_button2_cond_action_string(input)?
    } else {
        let none: Vec<ButtonCondAction> = Vec::new();
        assert(none.deep_view() =~= Seq::<ButtonCondActionModel>::empty());
        (input, none)
    };
    Ok((input, DefineButton { id, track_as_menu: flags & 1u8 != 0, characters, actions }))
}

} // verus!
