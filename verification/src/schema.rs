//! The schema codec: between the JSON document tree and the typed
//! configuration, with the field defaults the device firmware assumes.

use vstd::prelude::*;
use vstd::string::StringExecFns;
use crate::config::{
    ButtonColor, ButtonConfig, ButtonMode, ButtonV, ConfigV, DeviceType, EncoderConfig,
    EncoderPush, EncoderPushV, EncoderV, ExpressionConfig, ExpressionPedals, ExpressionV,
    MidiCaptainConfig, OffMode, PedalsV, Polarity,
};
use crate::json::{jview, jview_arr, jview_obj, lemma_jview_arr, lemma_jview_obj, lemma_member_absent, lemma_member_at, member, spec_member, Json, JsonV};
use crate::text::str_eq;

verus! {

broadcast use vstd::string::group_string_axioms;

/// The unsigned byte a document value stands for, if any.
pub open spec fn spec_u8_of_json(j: JsonV) -> Option<u8> {
    match j {
        JsonV::Num(n) => if n <= 255 {
            Some(n as u8)
        } else {
            None
        },
        _ => None,
    }
}

/// The text a document value stands for, if any.
pub open spec fn spec_str_of_json(j: JsonV) -> Option<Seq<char>> {
    match j {
        JsonV::Str(s) => Some(s),
        _ => None,
    }
}

/// The truth value a document value stands for, if any.
pub open spec fn spec_bool_of_json(j: JsonV) -> Option<bool> {
    match j {
        JsonV::Bool(b) => Some(b),
        _ => None,
    }
}

/// The device class a document value names, if any.
pub open spec fn spec_device_of_json(j: JsonV) -> Option<DeviceType> {
    match j {
        JsonV::Str(s) => if s == "std10"@ {
            Some(DeviceType::Std10)
        } else if s == "mini6"@ {
            Some(DeviceType::Mini6)
        } else {
            None
        },
        _ => None,
    }
}

/// The button color a document value names, if any.
pub open spec fn spec_color_of_json(j: JsonV) -> Option<ButtonColor> {
    match j {
        JsonV::Str(s) => if s == "red"@ {
            Some(ButtonColor::Red)
        } else if s == "green"@ {
            Some(ButtonColor::Green)
        } else if s == "blue"@ {
            Some(ButtonColor::Blue)
        } else if s == "yellow"@ {
            Some(ButtonColor::Yellow)
        } else if s == "cyan"@ {
            Some(ButtonColor::Cyan)
        } else if s == "magenta"@ {
            Some(ButtonColor::Magenta)
        } else if s == "orange"@ {
            Some(ButtonColor::Orange)
        } else if s == "purple"@ {
            Some(ButtonColor::Purple)
        } else if s == "white"@ {
            Some(ButtonColor::White)
        } else {
            None
        },
        _ => None,
    }
}

/// The trigger mode a document value names, if any.
pub open spec fn spec_mode_of_json(j: JsonV) -> Option<ButtonMode> {
    match j {
        JsonV::Str(s) => if s == "toggle"@ {
            Some(ButtonMode::Toggle)
        } else if s == "momentary"@ {
            Some(ButtonMode::Momentary)
        } else {
            None
        },
        _ => None,
    }
}

/// The idle-LED behavior a document value names, if any.
pub open spec fn spec_off_mode_of_json(j: JsonV) -> Option<OffMode> {
    match j {
        JsonV::Str(s) => if s == "dim"@ {
            Some(OffMode::Dim)
        } else if s == "off"@ {
            Some(OffMode::Off)
        } else {
            None
        },
        _ => None,
    }
}

/// The pedal polarity a document value names, if any.
pub open spec fn spec_polarity_of_json(j: JsonV) -> Option<Polarity> {
    match j {
        JsonV::Str(s) => if s == "normal"@ {
            Some(Polarity::Normal)
        } else if s == "inverted"@ {
            Some(Polarity::Inverted)
        } else {
            None
        },
        _ => None,
    }
}

/// The button a document value describes, if well-formed: `label`, `cc` and
/// `color` are required, `mode` and `off_mode` fall back to their defaults.
pub open spec fn spec_button_of_json(j: JsonV) -> Option<ButtonV> {
    match j {
        JsonV::Obj(m) => {
            let label = match spec_member(m, "label"@) {
                Some(x) => spec_str_of_json(x),
                None => None,
            };
            let cc = match spec_member(m, "cc"@) {
                Some(x) => spec_u8_of_json(x),
                None => None,
            };
            let color = match spec_member(m, "color"@) {
                Some(x) => spec_color_of_json(x),
                None => None,
            };
            let mode = match spec_member(m, "mode"@) {
                Some(x) => spec_mode_of_json(x),
                None => Some(ButtonMode::Toggle),
            };
            let off_mode = match spec_member(m, "off_mode"@) {
                Some(x) => spec_off_mode_of_json(x),
                None => Some(OffMode::Dim),
            };
            if label is Some && cc is Some && color is Some && mode is Some && off_mode is Some {
                Some(
                    ButtonV {
                        label: label.unwrap(),
                        cc: cc.unwrap(),
                        color: color.unwrap(),
                        mode: mode.unwrap(),
                        off_mode: off_mode.unwrap(),
                    },
                )
            } else {
                None
            }
        },
        _ => None,
    }
}

/// The buttons a document array describes, if every item is well-formed.
pub open spec fn spec_buttons_of_json(items: Seq<JsonV>) -> Option<Seq<ButtonV>>
    decreases items.len(),
{
    if items.len() == 0 {
        Some(Seq::empty())
    } else {
        match (spec_button_of_json(items.first()), spec_buttons_of_json(items.drop_first())) {
            (Some(b), Some(rest)) => Some(seq![b] + rest),
            _ => None,
        }
    }
}

/// The encoder push button a document value describes, if well-formed.
pub open spec fn spec_push_of_json(j: JsonV) -> Option<EncoderPushV> {
    match j {
        JsonV::Obj(m) => {
            let enabled = match spec_member(m, "enabled"@) {
                Some(x) => spec_bool_of_json(x),
                None => None,
            };
            let cc = match spec_member(m, "cc"@) {
                Some(x) => spec_u8_of_json(x),
                None => None,
            };
            let label = match spec_member(m, "label"@) {
                Some(x) => spec_str_of_json(x),
                None => None,
            };
            let mode = match spec_member(m, "mode"@) {
                Some(x) => spec_mode_of_json(x),
                None => Some(ButtonMode::Toggle),
            };
            if enabled is Some && cc is Some && label is Some && mode is Some {
                Some(
                    EncoderPushV {
                        enabled: enabled.unwrap(),
                        cc: cc.unwrap(),
                        label: label.unwrap(),
                        mode: mode.unwrap(),
                    },
                )
            } else {
                None
            }
        },
        _ => None,
    }
}

/// The encoder a document value describes, if well-formed: `enabled`, `cc`
/// and `label` are required; `min`, `max` and `initial` fall back to 0, 127
/// and 64; `steps` and `push` may be absent or null.
pub open spec fn spec_encoder_of_json(j: JsonV) -> Option<EncoderV> {
    match j {
        JsonV::Obj(m) => {
            let enabled = match spec_member(m, "enabled"@) {
                Some(x) => spec_bool_of_json(x),
                None => None,
            };
            let cc = match spec_member(m, "cc"@) {
                Some(x) => spec_u8_of_json(x),
                None => None,
            };
            let label = match spec_member(m, "label"@) {
                Some(x) => spec_str_of_json(x),
                None => None,
            };
            let min = match spec_member(m, "min"@) {
                Some(x) => spec_u8_of_json(x),
                None => Some(0u8),
            };
            let max = match spec_member(m, "max"@) {
                Some(x) => spec_u8_of_json(x),
                None => Some(127u8),
            };
            let initial = match spec_member(m, "initial"@) {
                Some(x) => spec_u8_of_json(x),
                None => Some(64u8),
            };
            let steps = match spec_member(m, "steps"@) {
                Some(JsonV::Null) => Some(Option::<u8>::None),
                Some(x) => match spec_u8_of_json(x) {
                    Some(v) => Some(Some(v)),
                    None => None,
                },
                None => Some(Option::<u8>::None),
            };
            let push = match spec_member(m, "push"@) {
                Some(JsonV::Null) => Some(Option::<EncoderPushV>::None),
                Some(x) => match spec_push_of_json(x) {
                    Some(p) => Some(Some(p)),
                    None => None,
                },
                None => Some(Option::<EncoderPushV>::None),
            };
            if enabled is Some && cc is Some && label is Some && min is Some && max is Some
                && initial is Some && steps is Some && push is Some {
                Some(
                    EncoderV {
                        enabled: enabled.unwrap(),
                        cc: cc.unwrap(),
                        label: label.unwrap(),
                        min: min.unwrap(),
                        max: max.unwrap(),
                        initial: initial.unwrap(),
                        steps: steps.unwrap(),
                        push: push.unwrap(),
                    },
                )
            } else {
                None
            }
        },
        _ => None,
    }
}

/// The expression pedal a document value describes, if well-formed.
pub open spec fn spec_pedal_of_json(j: JsonV) -> Option<ExpressionV> {
    match j {
        JsonV::Obj(m) => {
            let enabled = match spec_member(m, "enabled"@) {
                Some(x) => spec_bool_of_json(x),
                None => None,
            };
            let cc = match spec_member(m, "cc"@) {
                Some(x) => spec_u8_of_json(x),
                None => None,
            };
            let label = match spec_member(m, "label"@) {
                Some(x) => spec_str_of_json(x),
                None => None,
            };
            let min = match spec_member(m, "min"@) {
                Some(x) => spec_u8_of_json(x),
                None => Some(0u8),
            };
            let max = match spec_member(m, "max"@) {
                Some(x) => spec_u8_of_json(x),
                None => Some(127u8),
            };
            let polarity = match spec_member(m, "polarity"@) {
                Some(x) => spec_polarity_of_json(x),
                None => Some(Polarity::Normal),
            };
            let threshold = match spec_member(m, "threshold"@) {
                Some(x) => spec_u8_of_json(x),
                None => Some(2u8),
            };
            if enabled is Some && cc is Some && label is Some && min is Some && max is Some
                && polarity is Some && threshold is Some {
                Some(
                    ExpressionV {
                        enabled: enabled.unwrap(),
                        cc: cc.unwrap(),
                        label: label.unwrap(),
                        min: min.unwrap(),
                        max: max.unwrap(),
                        polarity: polarity.unwrap(),
                        threshold: threshold.unwrap(),
                    },
                )
            } else {
                None
            }
        },
        _ => None,
    }
}

/// The pedal pair a document value describes: both `exp1` and `exp2` are
/// required.
pub open spec fn spec_pedals_of_json(j: JsonV) -> Option<PedalsV> {
    match j {
        JsonV::Obj(m) => {
            let exp1 = match spec_member(m, "exp1"@) {
                Some(x) => spec_pedal_of_json(x),
                None => None,
            };
            let exp2 = match spec_member(m, "exp2"@) {
                Some(x) => spec_pedal_of_json(x),
                None => None,
            };
            if exp1 is Some && exp2 is Some {
                Some(PedalsV { exp1: exp1.unwrap(), exp2: exp2.unwrap() })
            } else {
                None
            }
        },
        _ => None,
    }
}

/// The configuration a document describes, if well-formed: `buttons` is
/// required, `device` falls back to the ten-button class, and the encoder
/// and expression sections may be absent or null.
pub open spec fn spec_config_of_json(j: JsonV) -> Option<ConfigV> {
    match j {
        JsonV::Obj(m) => {
            let device = match spec_member(m, "device"@) {
                Some(x) => spec_device_of_json(x),
                None => Some(DeviceType::Std10),
            };
            let buttons = match spec_member(m, "buttons"@) {
                Some(JsonV::Arr(items)) => spec_buttons_of_json(items),
                _ => None,
            };
            let encoder = match spec_member(m, "encoder"@) {
                Some(JsonV::Null) => Some(Option::<EncoderV>::None),
                Some(x) => match spec_encoder_of_json(x) {
                    Some(e) => Some(Some(e)),
                    None => None,
                },
                None => Some(Option::<EncoderV>::None),
            };
            let expression = match spec_member(m, "expression"@) {
                Some(JsonV::Null) => Some(Option::<PedalsV>::None),
                Some(x) => match spec_pedals_of_json(x) {
                    Some(p) => Some(Some(p)),
                    None => None,
                },
                None => Some(Option::<PedalsV>::None),
            };
            if device is Some && buttons is Some && encoder is Some && expression is Some {
                Some(
                    ConfigV {
                        device: device.unwrap(),
                        buttons: buttons.unwrap(),
                        encoder: encoder.unwrap(),
                        expression: expression.unwrap(),
                    },
                )
            } else {
                None
            }
        },
        _ => None,
    }
}

fn json_u8(j: &Json) -> (r: Option<u8>)
    ensures
        r == spec_u8_of_json(j@),
{
    match j {
        Json::Num(n) => if *n <= 255 {
            Some(*n as u8)
        } else {
            None
        },
        _ => None,
    }
}

fn json_bool(j: &Json) -> (r: Option<bool>)
    ensures
        r == spec_bool_of_json(j@),
{
    match j {
        Json::Bool(b) => Some(*b),
        _ => None,
    }
}

fn parse_device(j: &Json) -> (r: Option<DeviceType>)
    ensures
        r == spec_device_of_json(j@),
{
    match j {
        Json::Str(s) => if str_eq(s.as_str(), "std10") {
            Some(DeviceType::Std10)
        } else if str_eq(s.as_str(), "mini6") {
            Some(DeviceType::Mini6)
        } else {
            None
        },
        _ => None,
    }
}

fn parse_color(j: &Json) -> (r: Option<ButtonColor>)
    ensures
        r == spec_color_of_json(j@),
{
    match j {
        Json::Str(s) => if str_eq(s.as_str(), "red") {
            Some(ButtonColor::Red)
        } else if str_eq(s.as_str(), "green") {
            Some(ButtonColor::Green)
        } else if str_eq(s.as_str(), "blue") {
            Some(ButtonColor::Blue)
        } else if str_eq(s.as_str(), "yellow") {
            Some(ButtonColor::Yellow)
        } else if str_eq(s.as_str(), "cyan") {
            Some(ButtonColor::Cyan)
        } else if str_eq(s.as_str(), "magenta") {
            Some(ButtonColor::Magenta)
        } else if str_eq(s.as_str(), "orange") {
            Some(ButtonColor::Orange)
        } else if str_eq(s.as_str(), "purple") {
            Some(ButtonColor::Purple)
        } else if str_eq(s.as_str(), "white") {
            Some(ButtonColor::White)
        } else {
            None
        },
        _ => None,
    }
}

fn parse_mode(j: &Json) -> (r: Option<ButtonMode>)
    ensures
        r == spec_mode_of_json(j@),
{
    match j {
        Json::Str(s) => if str_eq(s.as_str(), "toggle") {
            Some(ButtonMode::Toggle)
        } else if str_eq(s.as_str(), "momentary") {
            Some(ButtonMode::Momentary)
        } else {
            None
        },
        _ => None,
    }
}

fn parse_off_mode(j: &Json) -> (r: Option<OffMode>)
    ensures
        r == spec_off_mode_of_json(j@),
{
    match j {
        Json::Str(s) => if str_eq(s.as_str(), "dim") {
            Some(OffMode::Dim)
        } else if str_eq(s.as_str(), "off") {
            Some(OffMode::Off)
        } else {
            None
        },
        _ => None,
    }
}

fn parse_polarity(j: &Json) -> (r: Option<Polarity>)
    ensures
        r == spec_polarity_of_json(j@),
{
    match j {
        Json::Str(s) => if str_eq(s.as_str(), "normal") {
            Some(Polarity::Normal)
        } else if str_eq(s.as_str(), "inverted") {
            Some(Polarity::Inverted)
        } else {
            None
        },
        _ => None,
    }
}

/// The message for a field that is absent or holds the wrong kind of value.
fn bad_field(key: &str) -> (r: String) {
    let mut s = String::from_str("missing or invalid field ");
    s.append(key);
    s
}

/// Reads a button from a document value.
fn parse_button(j: &Json) -> (r: Result<ButtonConfig, String>)
    ensures
        r matches Ok(b) ==> spec_button_of_json(j@) == Some(b.deep_view()),
        r is Err ==> spec_button_of_json(j@) is None,
{
    let members = match j {
        Json::Obj(m) => m,
        _ => {
            return Err(String::from_str("button must be an object"));
        },
    };
    let label = match member(members, "label") {
        Some(Json::Str(s)) => s.clone(),
        _ => {
            return Err(bad_field("label"));
        },
    };
    let cc = match member(members, "cc") {
        Some(x) => match json_u8(x) {
            Some(v) => v,
            None => {
                return Err(bad_field("cc"));
            },
        },
        None => {
            return Err(bad_field("cc"));
        },
    };
    let color = match member(members, "color") {
        Some(x) => match parse_color(x) {
            Some(c) => c,
            None => {
                return Err(bad_field("color"));
            },
        },
        None => {
            return Err(bad_field("color"));
        },
    };
    let mode = match member(members, "mode") {
        Some(x) => match parse_mode(x) {
            Some(m) => m,
            None => {
                return Err(bad_field("mode"));
            },
        },
        None => ButtonMode::Toggle,
    };
    let off_mode = match member(members, "off_mode") {
        Some(x) => match parse_off_mode(x) {
            Some(m) => m,
            None => {
                return Err(bad_field("off_mode"));
            },
        },
        None => OffMode::Dim,
    };
    Ok(ButtonConfig { label, cc, color, mode, off_mode })
}

/// Either every item of `items` is a well-formed button and the sequence of
/// their readings is the array's reading, or one is not and the array has
/// none.
proof fn lemma_spec_buttons(items: Seq<JsonV>)
    ensures
        spec_buttons_of_json(items) is Some <==> (forall|i: int|
            0 <= i < items.len() ==> spec_button_of_json(#[trigger] items[i]) is Some),
        spec_buttons_of_json(items) matches Some(bs) ==> bs.len() == items.len() && (forall|i: int|
            0 <= i < items.len() ==> bs[i] == spec_button_of_json(#[trigger] items[i]).unwrap()),
    decreases items.len(),
{
    if items.len() > 0 {
        lemma_spec_buttons(items.drop_first());
        assert(forall|i: int|
            1 <= i < items.len() ==> #[trigger] items[i] == items.drop_first()[i - 1]);
    }
}

/// Reads the button list from a document array.
fn parse_buttons(items: &Vec<Json>) -> (r: Result<Vec<ButtonConfig>, String>)
    ensures
        r matches Ok(bs) ==> spec_buttons_of_json(jview_arr(items@)) == Some(bs.deep_view()),
        r is Err ==> spec_buttons_of_json(jview_arr(items@)) is None,
{
    proof {
        lemma_jview_arr(items@);
        lemma_spec_buttons(jview_arr(items@));
    }
    let mut out: Vec<ButtonConfig> = Vec::new();
    let mut i: usize = 0;
    while i < items.len()
        invariant
            i <= items@.len(),
            out@.len() == i,
            jview_arr(items@).len() == items@.len(),
            forall|k: int|
                0 <= k < items@.len() ==> jview_arr(items@)[k] == jview(#[trigger] items@[k]),
            forall|k: int|
                0 <= k < i ==> spec_button_of_json(#[trigger] jview_arr(items@)[k]) == Some(
                    out@[k].deep_view(),
                ),
        decreases items@.len() - i,
    {
        match parse_button(&items[i]) {
            Ok(b) => {
                out.push(b);
            },
            Err(e) => {
                proof {
                    lemma_spec_buttons(jview_arr(items@));
                    assert(spec_button_of_json(jview_arr(items@)[i as int]) is None);
                }
                return Err(e);
            },
        }
        i = i + 1;
    }
    proof {
        let s = jview_arr(items@);
        assert(spec_buttons_of_json(s) is Some);
        let bs = spec_buttons_of_json(s).unwrap();
        assert forall|k: int| 0 <= k < out@.len() implies out.deep_view()[k] == bs[k] by {
            assert(spec_button_of_json(s[k]) == Some(out@[k].deep_view()));
            assert(bs[k] == spec_button_of_json(s[k]).unwrap());
        }
        assert(out.deep_view() =~= bs);
    }
    Ok(out)
}

/// Reads the encoder's push button from a document value.
fn parse_push(j: &Json) -> (r: Result<EncoderPush, String>)
    ensures
        r matches Ok(p) ==> spec_push_of_json(j@) == Some(p.deep_view()),
        r is Err ==> spec_push_of_json(j@) is None,
{
    let members = match j {
        Json::Obj(m) => m,
        _ => {
            return Err(String::from_str("encoder push must be an object"));
        },
    };
    let enabled = match member(members, "enabled") {
        Some(x) => match json_bool(x) {
            Some(b) => b,
            None => {
                return Err(bad_field("enabled"));
            },
        },
        None => {
            return Err(bad_field("enabled"));
        },
    };
    let cc = match member(members, "cc") {
        Some(x) => match json_u8(x) {
            Some(v) => v,
            None => {
                return Err(bad_field("cc"));
            },
        },
        None => {
            return Err(bad_field("cc"));
        },
    };
    let label = match member(members, "label") {
        Some(Json::Str(s)) => s.clone(),
        _ => {
            return Err(bad_field("label"));
        },
    };
    let mode = match member(members, "mode") {
        Some(x) => match parse_mode(x) {
            Some(m) => m,
            None => {
                return Err(bad_field("mode"));
            },
        },
        None => ButtonMode::Toggle,
    };
    Ok(EncoderPush { enabled, cc, label, mode })
}

/// Reads the encoder section from a document value.
#[verifier::rlimit(60)]
fn parse_encoder(j: &Json) -> (r: Result<EncoderConfig, String>)
    ensures
        r matches Ok(e) ==> spec_encoder_of_json(j@) == Some(e.deep_view()),
        r is Err ==> spec_encoder_of_json(j@) is None,
{
    let members = match j {
        Json::Obj(m) => m,
        _ => {
            return Err(String::from_str("encoder must be an object"));
        },
    };
    let enabled = match member(members, "enabled") {
        Some(x) => match json_bool(x) {
            Some(b) => b,
            None => {
                return Err(bad_field("enabled"));
            },
        },
        None => {
            return Err(bad_field("enabled"));
        },
    };
    let cc = match member(members, "cc") {
        Some(x) => match json_u8(x) {
            Some(v) => v,
            None => {
                return Err(bad_field("cc"));
            },
        },
        None => {
            return Err(bad_field("cc"));
        },
    };
    let label = match member(members, "label") {
        Some(Json::Str(s)) => s.clone(),
        _ => {
            return Err(bad_field("label"));
        },
    };
    let min = match member(members, "min") {
        Some(x) => match json_u8(x) {
            Some(v) => v,
            None => {
                return Err(bad_field("min"));
            },
        },
        None => 0,
    };
    let max = match member(members, "max") {
        Some(x) => match json_u8(x) {
            Some(v) => v,
            None => {
                return Err(bad_field("max"));
            },
        },
        None => 127,
    };
    let initial = match member(members, "initial") {
        Some(x) => match json_u8(x) {
            Some(v) => v,
            None => {
                return Err(bad_field("initial"));
            },
        },
        None => 64,
    };
    let steps = match member(members, "steps") {
        Some(Json::Null) => None,
        Some(x) => match json_u8(x) {
            Some(v) => Some(v),
            None => {
                return Err(bad_field("steps"));
            },
        },
        None => None,
    };
    let push = match member(members, "push") {
        Some(Json::Null) => None,
        Some(x) => match parse_push(x) {
            Ok(p) => Some(p),
            Err(e) => {
                return Err(e);
            },
        },
        None => None,
    };
    Ok(EncoderConfig { enabled, cc, label, min, max, initial, steps, push })
}

/// Reads one expression pedal from a document value.
#[verifier::rlimit(60)]
fn parse_pedal(j: &Json) -> (r: Result<ExpressionConfig, String>)
    ensures
        r matches Ok(p) ==> spec_pedal_of_json(j@) == Some(p.deep_view()),
        r is Err ==> spec_pedal_of_json(j@) is None,
{
    let members = match j {
        Json::Obj(m) => m,
        _ => {
            return Err(String::from_str("expression pedal must be an object"));
        },
    };
    let enabled = match member(members, "enabled") {
        Some(x) => match json_bool(x) {
            Some(b) => b,
            None => {
                return Err(bad_field("enabled"));
            },
        },
        None => {
            return Err(bad_field("enabled"));
        },
    };
    let cc = match member(members, "cc") {
        Some(x) => match json_u8(x) {
            Some(v) => v,
            None => {
                return Err(bad_field("cc"));
            },
        },
        None => {
            return Err(bad_field("cc"));
        },
    };
    let label = match member(members, "label") {
        Some(Json::Str(s)) => s.clone(),
        _ => {
            return Err(bad_field("label"));
        },
    };
    let min = match member(members, "min") {
        Some(x) => match json_u8(x) {
            Some(v) => v,
            None => {
                return Err(bad_field("min"));
            },
        },
        None => 0,
    };
    let max = match member(members, "max") {
        Some(x) => match json_u8(x) {
            Some(v) => v,
            None => {
                return Err(bad_field("max"));
            },
        },
        None => 127,
    };
    let polarity = match member(members, "polarity") {
        Some(x) => match parse_polarity(x) {
            Some(p) => p,
            None => {
                return Err(bad_field("polarity"));
            },
        },
        None => Polarity::Normal,
    };
    let threshold = match member(members, "threshold") {
        Some(x) => match json_u8(x) {
            Some(v) => v,
            None => {
                return Err(bad_field("threshold"));
            },
        },
        None => 2,
    };
    Ok(ExpressionConfig { enabled, cc, label, min, max, polarity, threshold })
}

/// Reads the expression pedal pair from a document value.
fn parse_pedals(j: &Json) -> (r: Result<ExpressionPedals, String>)
    ensures
        r matches Ok(p) ==> spec_pedals_of_json(j@) == Some(p.deep_view()),
        r is Err ==> spec_pedals_of_json(j@) is None,
{
    let members = match j {
        Json::Obj(m) => m,
        _ => {
            return Err(String::from_str("expression must be an object"));
        },
    };
    let exp1 = match member(members, "exp1") {
        Some(x) => match parse_pedal(x) {
            Ok(p) => p,
            Err(e) => {
                return Err(e);
            },
        },
        None => {
            return Err(bad_field("exp1"));
        },
    };
    let exp2 = match member(members, "exp2") {
        Some(x) => match parse_pedal(x) {
            Ok(p) => p,
            Err(e) => {
                return Err(e);
            },
        },
        None => {
            return Err(bad_field("exp2"));
        },
    };
    Ok(ExpressionPedals { exp1, exp2 })
}

/// Reads a complete configuration from a document.
#[verifier::rlimit(60)]
pub fn json_to_config(j: &Json) -> (r: Result<MidiCaptainConfig, String>)
    ensures
        r matches Ok(c) ==> spec_config_of_json(j@) == Some(c.deep_view()),
        r is Err ==> spec_config_of_json(j@) is None,
{
    let members = match j {
        Json::Obj(m) => m,
        _ => {
            return Err(String::from_str("configuration must be an object"));
        },
    };
    let device = match member(members, "device") {
        Some(x) => match parse_device(x) {
            Some(d) => d,
            None => {
                return Err(bad_field("device"));
            },
        },
        None => DeviceType::Std10,
    };
    let buttons = match member(members, "buttons") {
        Some(Json::Arr(items)) => match parse_buttons(items) {
            Ok(bs) => bs,
            Err(e) => {
                return Err(e);
            },
        },
        _ => {
            return Err(bad_field("buttons"));
        },
    };
    let encoder = match member(members, "encoder") {
        Some(Json::Null) => None,
        Some(x) => match parse_encoder(x) {
            Ok(e) => Some(e),
            Err(e) => {
                return Err(e);
            },
        },
        None => None,
    };
    let expression = match member(members, "expression") {
        Some(Json::Null) => None,
        Some(x) => match parse_pedals(x) {
            Ok(p) => Some(p),
            Err(e) => {
                return Err(e);
            },
        },
        None => None,
    };
    Ok(MidiCaptainConfig { device, buttons, encoder, expression })
}

/// The document value that names a device class.
pub open spec fn spec_json_of_device(d: DeviceType) -> JsonV {
    match d {
        DeviceType::Std10 => JsonV::Str("std10"@),
        DeviceType::Mini6 => JsonV::Str("mini6"@),
    }
}

/// The document value that names a button color.
pub open spec fn spec_json_of_color(c: ButtonColor) -> JsonV {
    match c {
        ButtonColor::Red => JsonV::Str("red"@),
        ButtonColor::Green => JsonV::Str("green"@),
        ButtonColor::Blue => JsonV::Str("blue"@),
        ButtonColor::Yellow => JsonV::Str("yellow"@),
        ButtonColor::Cyan => JsonV::Str("cyan"@),
        ButtonColor::Magenta => JsonV::Str("magenta"@),
        ButtonColor::Orange => JsonV::Str("orange"@),
        ButtonColor::Purple => JsonV::Str("purple"@),
        ButtonColor::White => JsonV::Str("white"@),
    }
}

/// The document value that names a trigger mode.
pub open spec fn spec_json_of_mode(m: ButtonMode) -> JsonV {
    match m {
        ButtonMode::Toggle => JsonV::Str("toggle"@),
        ButtonMode::Momentary => JsonV::Str("momentary"@),
    }
}

/// The document value that names a pedal polarity.
pub open spec fn spec_json_of_polarity(p: Polarity) -> JsonV {
    match p {
        Polarity::Normal => JsonV::Str("normal"@),
        Polarity::Inverted => JsonV::Str("inverted"@),
    }
}

/// The document a button serializes to. The idle-LED field is written only
/// when it differs from its default.
pub open spec fn spec_json_of_button(b: ButtonV) -> JsonV {
    JsonV::Obj(
        seq![
            ("label"@, JsonV::Str(b.label)),
            ("cc"@, JsonV::Num(b.cc as u64)),
            ("color"@, spec_json_of_color(b.color)),
            ("mode"@, spec_json_of_mode(b.mode)),
        ] + if b.off_mode is Dim {
            Seq::empty()
        } else {
            seq![("off_mode"@, JsonV::Str("off"@))]
        },
    )
}

/// The documents a button list serializes to, in order.
pub open spec fn spec_json_of_buttons(bs: Seq<ButtonV>) -> Seq<JsonV>
    decreases bs.len(),
{
    if bs.len() == 0 {
        Seq::empty()
    } else {
        seq![spec_json_of_button(bs.first())] + spec_json_of_buttons(bs.drop_first())
    }
}

/// The document the encoder push button serializes to.
pub open spec fn spec_json_of_push(p: EncoderPushV) -> JsonV {
    JsonV::Obj(
        seq![
            ("enabled"@, JsonV::Bool(p.enabled)),
            ("cc"@, JsonV::Num(p.cc as u64)),
            ("label"@, JsonV::Str(p.label)),
            ("mode"@, spec_json_of_mode(p.mode)),
        ],
    )
}

/// The document the encoder section serializes to. `steps` and `push` are
/// written as null when absent.
pub open spec fn spec_json_of_encoder(e: EncoderV) -> JsonV {
    JsonV::Obj(
        seq![
            ("enabled"@, JsonV::Bool(e.enabled)),
            ("cc"@, JsonV::Num(e.cc as u64)),
            ("label"@, JsonV::Str(e.label)),
            ("min"@, JsonV::Num(e.min as u64)),
            ("max"@, JsonV::Num(e.max as u64)),
            ("initial"@, JsonV::Num(e.initial as u64)),
            (
                "steps"@,
                match e.steps {
                    Some(v) => JsonV::Num(v as u64),
                    None => JsonV::Null,
                },
            ),
            (
                "push"@,
                match e.push {
                    Some(p) => spec_json_of_push(p),
                    None => JsonV::Null,
                },
            ),
        ],
    )
}

/// The document one expression pedal serializes to.
pub open spec fn spec_json_of_pedal(x: ExpressionV) -> JsonV {
    JsonV::Obj(
        seq![
            ("enabled"@, JsonV::Bool(x.enabled)),
            ("cc"@, JsonV::Num(x.cc as u64)),
            ("label"@, JsonV::Str(x.label)),
            ("min"@, JsonV::Num(x.min as u64)),
            ("max"@, JsonV::Num(x.max as u64)),
            ("polarity"@, spec_json_of_polarity(x.polarity)),
            ("threshold"@, JsonV::Num(x.threshold as u64)),
        ],
    )
}

/// The document the expression section serializes to.
pub open spec fn spec_json_of_pedals(p: PedalsV) -> JsonV {
    JsonV::Obj(seq![("exp1"@, spec_json_of_pedal(p.exp1)), ("exp2"@, spec_json_of_pedal(p.exp2))])
}

/// The document a configuration serializes to: `device` and `buttons`
/// always, the encoder and expression sections only when present.
pub open spec fn spec_json_of_config(c: ConfigV) -> JsonV {
    JsonV::Obj(
        seq![
            ("device"@, spec_json_of_device(c.device)),
            ("buttons"@, JsonV::Arr(spec_json_of_buttons(c.buttons))),
        ] + (match c.encoder {
            Some(e) => seq![("encoder"@, spec_json_of_encoder(e))],
            None => Seq::empty(),
        }) + (match c.expression {
            Some(p) => seq![("expression"@, spec_json_of_pedals(p))],
            None => Seq::empty(),
        }),
    )
}

fn device_json(d: DeviceType) -> (r: Json)
    ensures
        r@ == spec_json_of_device(d),
{
    match d {
        DeviceType::Std10 => Json::Str(String::from_str("std10")),
        DeviceType::Mini6 => Json::Str(String::from_str("mini6")),
    }
}

fn color_json(c: ButtonColor) -> (r: Json)
    ensures
        r@ == spec_json_of_color(c),
{
    match c {
        ButtonColor::Red => Json::Str(String::from_str("red")),
        ButtonColor::Green => Json::Str(String::from_str("green")),
        ButtonColor::Blue => Json::Str(String::from_str("blue")),
        ButtonColor::Yellow => Json::Str(String::from_str("yellow")),
        ButtonColor::Cyan => Json::Str(String::from_str("cyan")),
        ButtonColor::Magenta => Json::Str(String::from_str("magenta")),
        ButtonColor::Orange => Json::Str(String::from_str("orange")),
        ButtonColor::Purple => Json::Str(String::from_str("purple")),
        ButtonColor::White => Json::Str(String::from_str("white")),
    }
}

fn mode_json(m: ButtonMode) -> (r: Json)
    ensures
        r@ == spec_json_of_mode(m),
{
    match m {
        ButtonMode::Toggle => Json::Str(String::from_str("toggle")),
        ButtonMode::Momentary => Json::Str(String::from_str("momentary")),
    }
}

fn polarity_json(p: Polarity) -> (r: Json)
    ensures
        r@ == spec_json_of_polarity(p),
{
    match p {
        Polarity::Normal => Json::Str(String::from_str("normal")),
        Polarity::Inverted => Json::Str(String::from_str("inverted")),
    }
}

/// Serializes one button.
fn button_to_json(b: &ButtonConfig) -> (r: Json)
    ensures
        r@ == spec_json_of_button(b.deep_view()),
{
    let mut m: Vec<(String, Json)> = vec![
        (String::from_str("label"), Json::Str(b.label.clone())),
        (String::from_str("cc"), Json::Num(b.cc as u64)),
        (String::from_str("color"), color_json(b.color)),
        (String::from_str("mode"), mode_json(b.mode)),
    ];
    if !crate::config::is_default_off_mode(&b.off_mode) {
        let ghost base = m@;
        m.push((String::from_str("off_mode"), Json::Str(String::from_str("off"))));
        proof {
            assert(m@ == base.push((m@[4].0, m@[4].1)));
            assert(m@[4].0@ == "off_mode"@);
            assert(jview(m@[4].1) == JsonV::Str("off"@));
            assert(forall|k: int| 0 <= k < 4 ==> m@[k] == base[k]);
        }
    }
    proof {
        lemma_jview_obj(m@);
        assert(jview_obj(m@) =~= (seq![
            ("label"@, JsonV::Str(b.deep_view().label)),
            ("cc"@, JsonV::Num(b.cc as u64)),
            ("color"@, spec_json_of_color(b.color)),
            ("mode"@, spec_json_of_mode(b.mode)),
        ] + if b.off_mode is Dim {
            Seq::empty()
        } else {
            seq![("off_mode"@, JsonV::Str("off"@))]
        }));
    }
    Json::Obj(m)
}

/// Each serialized button stands at its button's position.
proof fn lemma_spec_json_of_buttons(bs: Seq<ButtonV>)
    ensures
        spec_json_of_buttons(bs).len() == bs.len(),
        forall|i: int|
            0 <= i < bs.len() ==> spec_json_of_buttons(bs)[i] == spec_json_of_button(
                #[trigger] bs[i],
            ),
    decreases bs.len(),
{
    if bs.len() > 0 {
        lemma_spec_json_of_buttons(bs.drop_first());
        assert(forall|i: int| 1 <= i < bs.len() ==> #[trigger] bs[i] == bs.drop_first()[i - 1]);
    }
}

/// Serializes the button list.
fn buttons_to_json(bs: &Vec<ButtonConfig>) -> (r: Vec<Json>)
    ensures
        jview_arr(r@) == spec_json_of_buttons(bs.deep_view()),
{
    let mut out: Vec<Json> = Vec::new();
    let mut i: usize = 0;
    while i < bs.len()
        invariant
            i <= bs@.len(),
            out@.len() == i,
            forall|k: int|
                0 <= k < i ==> jview(#[trigger] out@[k]) == spec_json_of_button(
                    bs@[k].deep_view(),
                ),
        decreases bs@.len() - i,
    {
        out.push(button_to_json(&bs[i]));
        i = i + 1;
    }
    proof {
        lemma_jview_arr(out@);
        lemma_spec_json_of_buttons(bs.deep_view());
        assert forall|k: int|
            0 <= k < out@.len() implies jview_arr(out@)[k] == spec_json_of_buttons(
            bs.deep_view(),
        )[k] by {
            assert(bs.deep_view()[k] == bs@[k].deep_view());
            assert(jview_arr(out@)[k] == jview(out@[k]));
            assert(spec_json_of_buttons(bs.deep_view())[k] == spec_json_of_button(
                bs.deep_view()[k],
            ));
        }
        assert(jview_arr(out@) =~= spec_json_of_buttons(bs.deep_view()));
    }
    out
}

/// Serializes the encoder push button.
fn push_to_json(p: &EncoderPush) -> (r: Json)
    ensures
        r@ == spec_json_of_push(p.deep_view()),
{
    let m: Vec<(String, Json)> = vec![
        (String::from_str("enabled"), Json::Bool(p.enabled)),
        (String::from_str("cc"), Json::Num(p.cc as u64)),
        (String::from_str("label"), Json::Str(p.label.clone())),
        (String::from_str("mode"), mode_json(p.mode)),
    ];
    proof {
        lemma_jview_obj(m@);
        assert(jview_obj(m@) =~= seq![
            ("enabled"@, JsonV::Bool(p.enabled)),
            ("cc"@, JsonV::Num(p.cc as u64)),
            ("label"@, JsonV::Str(p.deep_view().label)),
            ("mode"@, spec_json_of_mode(p.mode)),
        ]);
    }
    Json::Obj(m)
}

/// Serializes the encoder section.
#[verifier::rlimit(60)]
fn encoder_to_json(e: &EncoderConfig) -> (r: Json)
    ensures
        r@ == spec_json_of_encoder(e.deep_view()),
{
    let m: Vec<(String, Json)> = vec![
        (String::from_str("enabled"), Json::Bool(e.enabled)),
        (String::from_str("cc"), Json::Num(e.cc as u64)),
        (String::from_str("label"), Json::Str(e.label.clone())),
        (String::from_str("min"), Json::Num(e.min as u64)),
        (String::from_str("max"), Json::Num(e.max as u64)),
        (String::from_str("initial"), Json::Num(e.initial as u64)),
        (
            String::from_str("steps"),
            match e.steps {
                Some(v) => Json::Num(v as u64),
                None => Json::Null,
            },
        ),
        (
            String::from_str("push"),
            match &e.push {
                Some(p) => push_to_json(p),
                None => Json::Null,
            },
        ),
    ];
    proof {
        lemma_jview_obj(m@);
        let ev = e.deep_view();
        assert(jview_obj(m@) =~= seq![
            ("enabled"@, JsonV::Bool(ev.enabled)),
            ("cc"@, JsonV::Num(ev.cc as u64)),
            ("label"@, JsonV::Str(ev.label)),
            ("min"@, JsonV::Num(ev.min as u64)),
            ("max"@, JsonV::Num(ev.max as u64)),
            ("initial"@, JsonV::Num(ev.initial as u64)),
            (
                "steps"@,
                match ev.steps {
                    Some(v) => JsonV::Num(v as u64),
                    None => JsonV::Null,
                },
            ),
            (
                "push"@,
                match ev.push {
                    Some(p) => spec_json_of_push(p),
                    None => JsonV::Null,
                },
            ),
        ]);
    }
    Json::Obj(m)
}

/// Serializes one expression pedal.
#[verifier::rlimit(60)]
fn pedal_to_json(x: &ExpressionConfig) -> (r: Json)
    ensures
        r@ == spec_json_of_pedal(x.deep_view()),
{
    let m: Vec<(String, Json)> = vec![
        (String::from_str("enabled"), Json::Bool(x.enabled)),
        (String::from_str("cc"), Json::Num(x.cc as u64)),
        (String::from_str("label"), Json::Str(x.label.clone())),
        (String::from_str("min"), Json::Num(x.min as u64)),
        (String::from_str("max"), Json::Num(x.max as u64)),
        (String::from_str("polarity"), polarity_json(x.polarity)),
        (String::from_str("threshold"), Json::Num(x.threshold as u64)),
    ];
    proof {
        lemma_jview_obj(m@);
        let xv = x.deep_view();
        assert(jview_obj(m@) =~= seq![
            ("enabled"@, JsonV::Bool(xv.enabled)),
            ("cc"@, JsonV::Num(xv.cc as u64)),
            ("label"@, JsonV::Str(xv.label)),
            ("min"@, JsonV::Num(xv.min as u64)),
            ("max"@, JsonV::Num(xv.max as u64)),
            ("polarity"@, spec_json_of_polarity(xv.polarity)),
            ("threshold"@, JsonV::Num(xv.threshold as u64)),
        ]);
    }
    Json::Obj(m)
}

/// Serializes the expression section.
fn pedals_to_json(p: &ExpressionPedals) -> (r: Json)
    ensures
        r@ == spec_json_of_pedals(p.deep_view()),
{
    let m: Vec<(String, Json)> = vec![
        (String::from_str("exp1"), pedal_to_json(&p.exp1)),
        (String::from_str("exp2"), pedal_to_json(&p.exp2)),
    ];
    proof {
        lemma_jview_obj(m@);
        assert(jview_obj(m@) =~= seq![
            ("exp1"@, spec_json_of_pedal(p.exp1.deep_view())),
            ("exp2"@, spec_json_of_pedal(p.exp2.deep_view())),
        ]);
    }
    Json::Obj(m)
}

/// Serializes a complete configuration into a document whose members stand
/// in the order the device file carries them.
pub fn config_to_json(c: &MidiCaptainConfig) -> (r: Json)
    ensures
        r@ == spec_json_of_config(c.deep_view()),
{
    let mut m: Vec<(String, Json)> = vec![
        (String::from_str("device"), device_json(c.device)),
        (String::from_str("buttons"), Json::Arr(buttons_to_json(&c.buttons))),
    ];
    if let Some(e) = &c.encoder {
        let ghost base = m@;
        m.push((String::from_str("encoder"), encoder_to_json(e)));
        proof {
            assert(m@[2].0@ == "encoder"@);
            assert(jview(m@[2].1) == spec_json_of_encoder(e.deep_view()));
            assert(forall|k: int| 0 <= k < 2 ==> m@[k] == base[k]);
        }
    }
    if let Some(p) = &c.expression {
        let ghost base = m@;
        m.push((String::from_str("expression"), pedals_to_json(p)));
        proof {
            assert(m@[m@.len() - 1].0@ == "expression"@);
            assert(jview(m@[m@.len() - 1].1) == spec_json_of_pedals(p.deep_view()));
            assert(forall|k: int| 0 <= k < m@.len() - 1 ==> m@[k] == base[k]);
        }
    }
    proof {
        lemma_jview_obj(m@);
        let cv = c.deep_view();
        assert(jview_obj(m@) =~= (seq![
            ("device"@, spec_json_of_device(cv.device)),
            ("buttons"@, JsonV::Arr(spec_json_of_buttons(cv.buttons))),
        ] + (match cv.encoder {
            Some(e) => seq![("encoder"@, spec_json_of_encoder(e))],
            None => Seq::empty(),
        }) + (match cv.expression {
            Some(p) => seq![("expression"@, spec_json_of_pedals(p))],
            None => Seq::empty(),
        })));
    }
    Json::Obj(m)
}

proof fn lemma_device_round_trip(d: DeviceType)
    ensures
        spec_device_of_json(spec_json_of_device(d)) == Some(d),
{
    reveal_strlit("std10");
    reveal_strlit("mini6");
    assert("std10"@.len() == 5);
    assert("std10"@[0] == 's');
    assert("mini6"@.len() == 5);
    assert("mini6"@[0] == 'm');
}

proof fn lemma_color_round_trip(c: ButtonColor)
    ensures
        spec_color_of_json(spec_json_of_color(c)) == Some(c),
{
    reveal_strlit("red");
    reveal_strlit("green");
    reveal_strlit("blue");
    reveal_strlit("yellow");
    reveal_strlit("cyan");
    reveal_strlit("magenta");
    reveal_strlit("orange");
    reveal_strlit("purple");
    reveal_strlit("white");
    assert("red"@.len() == 3);
    assert("red"@[0] == 'r');
    assert("green"@.len() == 5);
    assert("green"@[0] == 'g');
    assert("blue"@.len() == 4);
    assert("blue"@[0] == 'b');
    assert("yellow"@.len() == 6);
    assert("yellow"@[0] == 'y');
    assert("cyan"@.len() == 4);
    assert("cyan"@[0] == 'c');
    assert("magenta"@.len() == 7);
    assert("magenta"@[0] == 'm');
    assert("orange"@.len() == 6);
    assert("orange"@[0] == 'o');
    assert("purple"@.len() == 6);
    assert("purple"@[0] == 'p');
    assert("white"@.len() == 5);
    assert("white"@[0] == 'w');
}

proof fn lemma_mode_round_trip(m: ButtonMode)
    ensures
        spec_mode_of_json(spec_json_of_mode(m)) == Some(m),
{
    reveal_strlit("toggle");
    reveal_strlit("momentary");
    assert("toggle"@.len() == 6);
    assert("toggle"@[0] == 't');
    assert("momentary"@.len() == 9);
    assert("momentary"@[0] == 'm');
}

proof fn lemma_polarity_round_trip(p: Polarity)
    ensures
        spec_polarity_of_json(spec_json_of_polarity(p)) == Some(p),
{
    reveal_strlit("normal");
    reveal_strlit("inverted");
    assert("normal"@.len() == 6);
    assert("normal"@[0] == 'n');
    assert("inverted"@.len() == 8);
    assert("inverted"@[0] == 'i');
}

proof fn lemma_button_round_trip(b: ButtonV)
    ensures
        spec_button_of_json(spec_json_of_button(b)) == Some(b),
{
    reveal_strlit("label");
    reveal_strlit("cc");
    reveal_strlit("color");
    reveal_strlit("mode");
    reveal_strlit("off_mode");
    reveal_strlit("dim");
    reveal_strlit("off");
    assert("label"@.len() == 5);
    assert("label"@[0] == 'l');
    assert("cc"@.len() == 2);
    assert("cc"@[0] == 'c');
    assert("color"@.len() == 5);
    assert("color"@[0] == 'c');
    assert("mode"@.len() == 4);
    assert("mode"@[0] == 'm');
    assert("off_mode"@.len() == 8);
    assert("off_mode"@[0] == 'o');
    assert("dim"@.len() == 3);
    assert("dim"@[0] == 'd');
    assert("off"@.len() == 3);
    assert("off"@[0] == 'o');
    let m = (seq![
        ("label"@, JsonV::Str(b.label)),
        ("cc"@, JsonV::Num(b.cc as u64)),
        ("color"@, spec_json_of_color(b.color)),
        ("mode"@, spec_json_of_mode(b.mode)),
    ] + if b.off_mode is Dim {
        Seq::empty()
    } else {
        seq![("off_mode"@, JsonV::Str("off"@))]
    });
    assert(spec_json_of_button(b) == JsonV::Obj(m));
    lemma_member_at(m, 0, "label"@);
    lemma_member_at(m, 1, "cc"@);
    lemma_member_at(m, 2, "color"@);
    lemma_member_at(m, 3, "mode"@);
    if b.off_mode is Dim {
        lemma_member_absent(m, "off_mode"@);
    } else {
        lemma_member_at(m, 4, "off_mode"@);
    }
    lemma_color_round_trip(b.color);
    lemma_mode_round_trip(b.mode);
    assert(spec_button_of_json(JsonV::Obj(m)) == Some(b));
}

proof fn lemma_buttons_round_trip(bs: Seq<ButtonV>)
    ensures
        spec_buttons_of_json(spec_json_of_buttons(bs)) == Some(bs),
    decreases bs.len(),
{
    if bs.len() == 0 {
        assert(spec_buttons_of_json(spec_json_of_buttons(bs)) == Some(Seq::<ButtonV>::empty()));
        assert(bs =~= Seq::<ButtonV>::empty());
    } else {
        lemma_button_round_trip(bs.first());
        lemma_buttons_round_trip(bs.drop_first());
        let js = spec_json_of_buttons(bs);
        assert(js == seq![spec_json_of_button(bs.first())] + spec_json_of_buttons(
            bs.drop_first(),
        ));
        assert(js.first() == spec_json_of_button(bs.first()));
        assert(js.drop_first() =~= spec_json_of_buttons(bs.drop_first()));
        assert(spec_buttons_of_json(js) == Some(seq![bs.first()] + bs.drop_first()));
        assert(seq![bs.first()] + bs.drop_first() =~= bs);
    }
}

proof fn lemma_push_round_trip(p: EncoderPushV)
    ensures
        spec_push_of_json(spec_json_of_push(p)) == Some(p),
{
    reveal_strlit("enabled");
    reveal_strlit("cc");
    reveal_strlit("label");
    reveal_strlit("mode");
    assert("enabled"@.len() == 7);
    assert("enabled"@[0] == 'e');
    assert("cc"@.len() == 2);
    assert("cc"@[0] == 'c');
    assert("label"@.len() == 5);
    assert("label"@[0] == 'l');
    assert("mode"@.len() == 4);
    assert("mode"@[0] == 'm');
    let m = seq![
        ("enabled"@, JsonV::Bool(p.enabled)),
        ("cc"@, JsonV::Num(p.cc as u64)),
        ("label"@, JsonV::Str(p.label)),
        ("mode"@, spec_json_of_mode(p.mode)),
    ];
    lemma_member_at(m, 0, "enabled"@);
    lemma_member_at(m, 1, "cc"@);
    lemma_member_at(m, 2, "label"@);
    lemma_member_at(m, 3, "mode"@);
    lemma_mode_round_trip(p.mode);
    assert(spec_push_of_json(JsonV::Obj(m)) == Some(p));
}

proof fn lemma_encoder_round_trip(e: EncoderV)
    ensures
        spec_encoder_of_json(spec_json_of_encoder(e)) == Some(e),
{
    reveal_strlit("enabled");
    reveal_strlit("cc");
    reveal_strlit("label");
    reveal_strlit("min");
    reveal_strlit("max");
    reveal_strlit("initial");
    reveal_strlit("steps");
    reveal_strlit("push");
    assert("enabled"@.len() == 7);
    assert("enabled"@[0] == 'e');
    assert("cc"@.len() == 2);
    assert("cc"@[0] == 'c');
    assert("label"@.len() == 5);
    assert("label"@[0] == 'l');
    assert("min"@.len() == 3);
    assert("min"@[0] == 'm');
    assert("min"@[1] == 'i');
    assert("max"@.len() == 3);
    assert("max"@[0] == 'm');
    assert("max"@[1] == 'a');
    assert("initial"@.len() == 7);
    assert("initial"@[0] == 'i');
    assert("steps"@.len() == 5);
    assert("steps"@[0] == 's');
    assert("push"@.len() == 4);
    assert("push"@[0] == 'p');
    let m = seq![
        ("enabled"@, JsonV::Bool(e.enabled)),
        ("cc"@, JsonV::Num(e.cc as u64)),
        ("label"@, JsonV::Str(e.label)),
        ("min"@, JsonV::Num(e.min as u64)),
        ("max"@, JsonV::Num(e.max as u64)),
        ("initial"@, JsonV::Num(e.initial as u64)),
        (
            "steps"@,
            match e.steps {
                Some(v) => JsonV::Num(v as u64),
                None => JsonV::Null,
            },
        ),
        (
            "push"@,
            match e.push {
                Some(p) => spec_json_of_push(p),
                None => JsonV::Null,
            },
        ),
    ];
    lemma_member_at(m, 0, "enabled"@);
    lemma_member_at(m, 1, "cc"@);
    lemma_member_at(m, 2, "label"@);
    lemma_member_at(m, 3, "min"@);
    lemma_member_at(m, 4, "max"@);
    lemma_member_at(m, 5, "initial"@);
    lemma_member_at(m, 6, "steps"@);
    lemma_member_at(m, 7, "push"@);
    if let Some(p) = e.push {
        lemma_push_round_trip(p);
    }
    assert(spec_encoder_of_json(JsonV::Obj(m)) == Some(e));
}

proof fn lemma_pedal_round_trip(x: ExpressionV)
    ensures
        spec_pedal_of_json(spec_json_of_pedal(x)) == Some(x),
{
    reveal_strlit("enabled");
    reveal_strlit("cc");
    reveal_strlit("label");
    reveal_strlit("min");
    reveal_strlit("max");
    reveal_strlit("polarity");
    reveal_strlit("threshold");
    assert("enabled"@.len() == 7);
    assert("enabled"@[0] == 'e');
    assert("cc"@.len() == 2);
    assert("cc"@[0] == 'c');
    assert("label"@.len() == 5);
    assert("label"@[0] == 'l');
    assert("min"@.len() == 3);
    assert("min"@[0] == 'm');
    assert("min"@[1] == 'i');
    assert("max"@.len() == 3);
    assert("max"@[0] == 'm');
    assert("max"@[1] == 'a');
    assert("polarity"@.len() == 8);
    assert("polarity"@[0] == 'p');
    assert("threshold"@.len() == 9);
    assert("threshold"@[0] == 't');
    let m = seq![
        ("enabled"@, JsonV::Bool(x.enabled)),
        ("cc"@, JsonV::Num(x.cc as u64)),
        ("label"@, JsonV::Str(x.label)),
        ("min"@, JsonV::Num(x.min as u64)),
        ("max"@, JsonV::Num(x.max as u64)),
        ("polarity"@, spec_json_of_polarity(x.polarity)),
        ("threshold"@, JsonV::Num(x.threshold as u64)),
    ];
    lemma_member_at(m, 0, "enabled"@);
    lemma_member_at(m, 1, "cc"@);
    lemma_member_at(m, 2, "label"@);
    lemma_member_at(m, 3, "min"@);
    lemma_member_at(m, 4, "max"@);
    lemma_member_at(m, 5, "polarity"@);
    lemma_member_at(m, 6, "threshold"@);
    lemma_polarity_round_trip(x.polarity);
    assert(spec_pedal_of_json(JsonV::Obj(m)) == Some(x));
}

proof fn lemma_pedals_round_trip(p: PedalsV)
    ensures
        spec_pedals_of_json(spec_json_of_pedals(p)) == Some(p),
{
    reveal_strlit("exp1");
    reveal_strlit("exp2");
    assert("exp1"@.len() == 4);
    assert("exp1"@[0] == 'e');
    assert("exp1"@[3] == '1');
    assert("exp2"@.len() == 4);
    assert("exp2"@[0] == 'e');
    assert("exp2"@[3] == '2');
    let m = seq![("exp1"@, spec_json_of_pedal(p.exp1)), ("exp2"@, spec_json_of_pedal(p.exp2))];
    lemma_member_at(m, 0, "exp1"@);
    lemma_member_at(m, 1, "exp2"@);
    lemma_pedal_round_trip(p.exp1);
    lemma_pedal_round_trip(p.exp2);
    assert(spec_pedals_of_json(JsonV::Obj(m)) == Some(p));
}

/// Law: reading back a serialized configuration yields that configuration,
/// whatever it holds — the field defaults are chosen so that the schema
/// round-trips exactly.
pub proof fn lemma_config_round_trip(c: ConfigV)
    ensures
        spec_config_of_json(spec_json_of_config(c)) == Some(c),
{
    reveal_strlit("device");
    reveal_strlit("buttons");
    reveal_strlit("encoder");
    reveal_strlit("expression");
    assert("device"@.len() == 6);
    assert("device"@[0] == 'd');
    assert("buttons"@.len() == 7);
    assert("buttons"@[0] == 'b');
    assert("encoder"@.len() == 7);
    assert("encoder"@[0] == 'e');
    assert("encoder"@[1] == 'n');
    assert("expression"@.len() == 10);
    assert("expression"@[0] == 'e');
    assert("expression"@[1] == 'x');
    let m = (seq![
        ("device"@, spec_json_of_device(c.device)),
        ("buttons"@, JsonV::Arr(spec_json_of_buttons(c.buttons))),
    ] + (match c.encoder {
        Some(e) => seq![("encoder"@, spec_json_of_encoder(e))],
        None => Seq::empty(),
    }) + (match c.expression {
        Some(p) => seq![("expression"@, spec_json_of_pedals(p))],
        None => Seq::empty(),
    }));
    assert(spec_json_of_config(c) == JsonV::Obj(m));
    lemma_member_at(m, 0, "device"@);
    lemma_member_at(m, 1, "buttons"@);
    match c.encoder {
        Some(e) => {
            lemma_member_at(m, 2, "encoder"@);
            lemma_encoder_round_trip(e);
        },
        None => {
            lemma_member_absent(m, "encoder"@);
        },
    }
    match c.expression {
        Some(p) => {
            lemma_member_at(m, m.len() - 1, "expression"@);
            lemma_pedals_round_trip(p);
        },
        None => {
            lemma_member_absent(m, "expression"@);
        },
    }
    lemma_device_round_trip(c.device);
    lemma_buttons_round_trip(c.buttons);
    assert(spec_config_of_json(JsonV::Obj(m)) == Some(c));
}

} // verus!
