//! Typed representation of a device configuration: buttons, rotary encoder
//! and expression pedals, together with the class-specific validation rules.

use vstd::prelude::*;
use vstd::string::{StrSliceExecFns, StringExecFns};
use crate::text::{push_udec, spec_udec};

verus! {

/// True when `label` fits the device's display: at most eight characters.
fn label_fits(label: &String) -> (r: bool)
    ensures
        r == (label@.len() <= 8),
{
    label.as_str().unicode_len() <= 8
}

/// Valid button colors.
#[derive(Debug, Clone, Copy, PartialEq, Eq, Structural)]
pub enum ButtonColor {
    Red,
    Green,
    Blue,
    Yellow,
    Cyan,
    Magenta,
    Orange,
    Purple,
    White,
}

/// Button trigger mode.
#[derive(Debug, Clone, Copy, PartialEq, Eq, Structural)]
pub enum ButtonMode {
    Toggle,
    Momentary,
}

impl Default for ButtonMode {
    /// The trigger mode a button has when none is given.
    fn default() -> (r: ButtonMode)
        ensures
            r == ButtonMode::Toggle,
    {
        ButtonMode::Toggle
    }
}

/// LED behavior while a button is off.
#[derive(Debug, Clone, Copy, PartialEq, Eq, Structural)]
pub enum OffMode {
    Dim,
    Off,
}

impl Default for OffMode {
    /// The LED behavior a button has when none is given.
    fn default() -> (r: OffMode)
        ensures
            r == OffMode::Dim,
    {
        OffMode::Dim
    }
}

/// True exactly when `mode` is the idle-LED behavior that is assumed when the
/// field is absent; such a value is left out of the serialized form.
pub fn is_default_off_mode(mode: &OffMode) -> (r: bool)
    ensures
        r == (mode is Dim),
{
    match mode {
        OffMode::Dim => true,
        OffMode::Off => false,
    }
}

/// Configuration of one physical button.
#[derive(Debug, Clone)]
pub struct ButtonConfig {
    pub label: String,
    pub cc: u8,
    pub color: ButtonColor,
    pub mode: ButtonMode,
    pub off_mode: OffMode,
}

/// Configuration of the encoder's push button.
#[derive(Debug, Clone)]
pub struct EncoderPush {
    pub enabled: bool,
    pub cc: u8,
    pub label: String,
    pub mode: ButtonMode,
}

/// Configuration of the rotary encoder (ten-button class only).
#[derive(Debug, Clone)]
pub struct EncoderConfig {
    pub enabled: bool,
    pub cc: u8,
    pub label: String,
    pub min: u8,
    pub max: u8,
    pub initial: u8,
    pub steps: Option<u8>,
    pub push: Option<EncoderPush>,
}

/// The value the encoder's and the expression pedals' `max` field takes when
/// none is given.
pub fn default_max() -> (r: u8)
    ensures
        r == 127,
{
    127
}

/// The value the encoder's `initial` field takes when none is given.
pub fn default_initial() -> (r: u8)
    ensures
        r == 64,
{
    64
}

/// Expression pedal polarity.
#[derive(Debug, Clone, Copy, PartialEq, Eq, Structural)]
pub enum Polarity {
    Normal,
    Inverted,
}

impl Default for Polarity {
    fn default() -> (r: Polarity)
        ensures
            r == Polarity::Normal,
    {
        Polarity::Normal
    }
}

/// Configuration of one expression pedal jack.
#[derive(Debug, Clone)]
pub struct ExpressionConfig {
    pub enabled: bool,
    pub cc: u8,
    pub label: String,
    pub min: u8,
    pub max: u8,
    pub polarity: Polarity,
    pub threshold: u8,
}

/// The value an expression pedal's `threshold` field takes when none is given.
pub fn default_threshold() -> (r: u8)
    ensures
        r == 2,
{
    2
}

/// The two expression pedal jacks.
#[derive(Debug, Clone)]
pub struct ExpressionPedals {
    pub exp1: ExpressionConfig,
    pub exp2: ExpressionConfig,
}

/// Hardware class of the device; it dictates the number of physical buttons.
#[derive(Debug, Clone, Copy, PartialEq, Eq, Structural)]
pub enum DeviceType {
    Std10,
    Mini6,
}

impl Default for DeviceType {
    fn default() -> (r: DeviceType)
        ensures
            r == DeviceType::Std10,
    {
        DeviceType::Std10
    }
}

/// The number of buttons mandated by a device class.
pub open spec fn spec_expected_buttons(device: DeviceType) -> nat {
    match device {
        DeviceType::Std10 => 10,
        DeviceType::Mini6 => 6,
    }
}

/// A complete device configuration.
#[derive(Debug, Clone)]
pub struct MidiCaptainConfig {
    pub device: DeviceType,
    pub buttons: Vec<ButtonConfig>,
    pub encoder: Option<EncoderConfig>,
    pub expression: Option<ExpressionPedals>,
}

/// One violated validation rule, with the values the message reports.
/// Button and pedal positions are held as the one-based numbers the
/// messages print.
#[derive(Debug, Clone)]
pub enum ValidationIssue {
    ButtonCountMismatch { expected: u8, device: DeviceType, found: usize },
    ButtonCcTooHigh { number: usize, cc: u8 },
    ButtonLabelTooLong { number: usize, label: String },
    EncoderNotSupported,
    EncoderCcTooHigh { cc: u8 },
    EncoderLabelTooLong { label: String },
    EncoderRangeInvalid { min: u8, max: u8 },
    EncoderInitialOutOfRange { min: u8, max: u8, initial: u8 },
    EncoderPushCcTooHigh { cc: u8 },
    EncoderPushLabelTooLong { label: String },
    ExpressionNotSupported,
    ExpressionCcTooHigh { slot: u8, cc: u8 },
    ExpressionLabelTooLong { slot: u8, label: String },
    ExpressionRangeInvalid { slot: u8, min: u8, max: u8 },
}

/// The issue, if any, raised because the button list's length differs from
/// the class-mandated count.
pub open spec fn spec_count_issues(c: MidiCaptainConfig) -> Seq<ValidationIssue> {
    if c.buttons@.len() != spec_expected_buttons(c.device) {
        seq![
            ValidationIssue::ButtonCountMismatch {
                expected: spec_expected_buttons(c.device) as u8,
                device: c.device,
                found: c.buttons@.len() as usize,
            },
        ]
    } else {
        Seq::empty()
    }
}

/// The issues raised against the button at position `i` (zero-based).
pub open spec fn spec_button_issues(b: ButtonConfig, i: int) -> Seq<ValidationIssue> {
    (if b.cc > 127 {
        seq![ValidationIssue::ButtonCcTooHigh { number: (i + 1) as usize, cc: b.cc }]
    } else {
        Seq::empty()
    }) + (if b.label@.len() > 8 {
        seq![ValidationIssue::ButtonLabelTooLong { number: (i + 1) as usize, label: b.label }]
    } else {
        Seq::empty()
    })
}

/// The issues raised against the buttons from position `i` on.
pub open spec fn spec_buttons_issues_from(s: Seq<ButtonConfig>, i: int) -> Seq<ValidationIssue>
    decreases s.len() - i,
{
    if i < 0 || i >= s.len() {
        Seq::empty()
    } else {
        spec_button_issues(s[i], i) + spec_buttons_issues_from(s, i + 1)
    }
}

/// The issues raised against the encoder section, `device` being the class
/// of the configuration it sits in.
pub open spec fn spec_encoder_issues(device: DeviceType, e: EncoderConfig) -> Seq<ValidationIssue> {
    (if device is Mini6 {
        seq![ValidationIssue::EncoderNotSupported]
    } else {
        Seq::empty()
    }) + (if e.cc > 127 {
        seq![ValidationIssue::EncoderCcTooHigh { cc: e.cc }]
    } else {
        Seq::empty()
    }) + (if e.label@.len() > 8 {
        seq![ValidationIssue::EncoderLabelTooLong { label: e.label }]
    } else {
        Seq::empty()
    }) + (if e.max < e.min {
        seq![ValidationIssue::EncoderRangeInvalid { min: e.min, max: e.max }]
    } else {
        Seq::empty()
    }) + (if e.initial < e.min || e.initial > e.max {
        seq![ValidationIssue::EncoderInitialOutOfRange { min: e.min, max: e.max, initial: e.initial }]
    } else {
        Seq::empty()
    }) + (match e.push {
        Some(p) => (if p.cc > 127 {
            seq![ValidationIssue::EncoderPushCcTooHigh { cc: p.cc }]
        } else {
            Seq::empty()
        }) + (if p.label@.len() > 8 {
            seq![ValidationIssue::EncoderPushLabelTooLong { label: p.label }]
        } else {
            Seq::empty()
        }),
        None => Seq::empty(),
    })
}

/// The issues raised against one expression pedal, `slot` being its
/// one-based jack number.
pub open spec fn spec_pedal_issues(slot: u8, p: ExpressionConfig) -> Seq<ValidationIssue> {
    (if p.cc > 127 {
        seq![ValidationIssue::ExpressionCcTooHigh { slot, cc: p.cc }]
    } else {
        Seq::empty()
    }) + (if p.label@.len() > 8 {
        seq![ValidationIssue::ExpressionLabelTooLong { slot, label: p.label }]
    } else {
        Seq::empty()
    }) + (if p.max < p.min {
        seq![ValidationIssue::ExpressionRangeInvalid { slot, min: p.min, max: p.max }]
    } else {
        Seq::empty()
    })
}

/// The issues raised against the expression section.
pub open spec fn spec_expression_issues(device: DeviceType, x: ExpressionPedals) -> Seq<
    ValidationIssue,
> {
    (if device is Mini6 {
        seq![ValidationIssue::ExpressionNotSupported]
    } else {
        Seq::empty()
    }) + spec_pedal_issues(1, x.exp1) + spec_pedal_issues(2, x.exp2)
}

/// Every issue a configuration raises, in the order the rules are checked:
/// button count, per-button rules, encoder rules, expression rules.
pub open spec fn spec_validate(c: MidiCaptainConfig) -> Seq<ValidationIssue> {
    spec_count_issues(c) + spec_buttons_issues_from(c.buttons@, 0) + (match c.encoder {
        Some(e) => spec_encoder_issues(c.device, e),
        None => Seq::empty(),
    }) + (match c.expression {
        Some(x) => spec_expression_issues(c.device, x),
        None => Seq::empty(),
    })
}

impl MidiCaptainConfig {
    /// Collects every issue the configuration raises, in rule order; the
    /// result is empty exactly when the configuration is valid.
    #[verifier::rlimit(60)]
    pub fn validate_issues(&self) -> (r: Vec<ValidationIssue>)
        ensures
            r@ == spec_validate(*self),
    {
        let mut issues: Vec<ValidationIssue> = Vec::new();

        let expected: usize = match self.device {
            DeviceType::Std10 => 10,
            DeviceType::Mini6 => 6,
        };
        if self.buttons.len() != expected {
            issues.push(
                ValidationIssue::ButtonCountMismatch {
                    expected: expected as u8,
                    device: self.device,
                    found: self.buttons.len(),
                },
            );
        }

        let ghost head = issues@;
        let mut i: usize = 0;
        while i < self.buttons.len()
            invariant
                i <= self.buttons@.len(),
                issues@ + spec_buttons_issues_from(self.buttons@, i as int) == head
                    + spec_buttons_issues_from(self.buttons@, 0),
            decreases self.buttons@.len() - i,
        {
            let ghost before = issues@;
            let b = &self.buttons[i];
            if b.cc > 127 {
                issues.push(ValidationIssue::ButtonCcTooHigh { number: i + 1, cc: b.cc });
            }
            if !label_fits(&b.label) {
                issues.push(
                    ValidationIssue::ButtonLabelTooLong { number: i + 1, label: b.label.clone() },
                );
            }
            proof {
                assert(issues@ =~= before + spec_button_issues(self.buttons@[i as int], i as int));
                assert(issues@ + spec_buttons_issues_from(self.buttons@, i + 1) =~= before
                    + spec_buttons_issues_from(self.buttons@, i as int));
            }
            i = i + 1;
        }

        if let Some(enc) = &self.encoder {
            push_encoder_issues(&mut issues, self.device, enc);
        }

        if let Some(exp) = &self.expression {
            if matches!(self.device, DeviceType::Mini6) {
                issues.push(ValidationIssue::ExpressionNotSupported);
            }
            push_pedal_issues(&mut issues, 1, &exp.exp1);
            push_pedal_issues(&mut issues, 2, &exp.exp2);
        }

        proof {
            assert(issues@ =~= spec_validate(*self));
        }
        issues
    }
}

/// Appends the issues the encoder section raises.
#[verifier::rlimit(60)]
fn push_encoder_issues(issues: &mut Vec<ValidationIssue>, device: DeviceType, enc: &EncoderConfig)
    ensures
        final(issues)@ == old(issues)@ + spec_encoder_issues(device, *enc),
{
    if matches!(device, DeviceType::Mini6) {
        issues.push(ValidationIssue::EncoderNotSupported);
    }
    if enc.cc > 127 {
        issues.push(ValidationIssue::EncoderCcTooHigh { cc: enc.cc });
    }
    if !label_fits(&enc.label) {
        issues.push(ValidationIssue::EncoderLabelTooLong { label: enc.label.clone() });
    }
    if enc.max < enc.min {
        issues.push(ValidationIssue::EncoderRangeInvalid { min: enc.min, max: enc.max });
    }
    if enc.initial < enc.min || enc.initial > enc.max {
        issues.push(
            ValidationIssue::EncoderInitialOutOfRange {
                min: enc.min,
                max: enc.max,
                initial: enc.initial,
            },
        );
    }
    if let Some(push) = &enc.push {
        if push.cc > 127 {
            issues.push(ValidationIssue::EncoderPushCcTooHigh { cc: push.cc });
        }
        if !label_fits(&push.label) {
            issues.push(ValidationIssue::EncoderPushLabelTooLong { label: push.label.clone() });
        }
    }
    proof {
        assert(final(issues)@ =~= old(issues)@ + spec_encoder_issues(device, *enc));
    }
}

/// Appends the issues one expression pedal raises.
fn push_pedal_issues(issues: &mut Vec<ValidationIssue>, slot: u8, p: &ExpressionConfig)
    ensures
        final(issues)@ == old(issues)@ + spec_pedal_issues(slot, *p),
{
    if p.cc > 127 {
        issues.push(ValidationIssue::ExpressionCcTooHigh { slot, cc: p.cc });
    }
    if !label_fits(&p.label) {
        issues.push(ValidationIssue::ExpressionLabelTooLong { slot, label: p.label.clone() });
    }
    if p.max < p.min {
        issues.push(ValidationIssue::ExpressionRangeInvalid { slot, min: p.min, max: p.max });
    }
    proof {
        assert(final(issues)@ =~= old(issues)@ + spec_pedal_issues(slot, *p));
    }
}

/// Mathematical form of a validation issue.
pub enum IssueV {
    ButtonCountMismatch { expected: u8, device: DeviceType, found: usize },
    ButtonCcTooHigh { number: usize, cc: u8 },
    ButtonLabelTooLong { number: usize, label: Seq<char> },
    EncoderNotSupported,
    EncoderCcTooHigh { cc: u8 },
    EncoderLabelTooLong { label: Seq<char> },
    EncoderRangeInvalid { min: u8, max: u8 },
    EncoderInitialOutOfRange { min: u8, max: u8, initial: u8 },
    EncoderPushCcTooHigh { cc: u8 },
    EncoderPushLabelTooLong { label: Seq<char> },
    ExpressionNotSupported,
    ExpressionCcTooHigh { slot: u8, cc: u8 },
    ExpressionLabelTooLong { slot: u8, label: Seq<char> },
    ExpressionRangeInvalid { slot: u8, min: u8, max: u8 },
}

impl DeepView for ValidationIssue {
    type V = IssueV;

    open spec fn deep_view(&self) -> IssueV {
        match self {
            ValidationIssue::ButtonCountMismatch { expected, device, found } => {
                IssueV::ButtonCountMismatch { expected: *expected, device: *device, found: *found }
            },
            ValidationIssue::ButtonCcTooHigh { number, cc } => {
                IssueV::ButtonCcTooHigh { number: *number, cc: *cc }
            },
            ValidationIssue::ButtonLabelTooLong { number, label } => {
                IssueV::ButtonLabelTooLong { number: *number, label: label@ }
            },
            ValidationIssue::EncoderNotSupported => IssueV::EncoderNotSupported,
            ValidationIssue::EncoderCcTooHigh { cc } => IssueV::EncoderCcTooHigh { cc: *cc },
            ValidationIssue::EncoderLabelTooLong { label } => {
                IssueV::EncoderLabelTooLong { label: label@ }
            },
            ValidationIssue::EncoderRangeInvalid { min, max } => {
                IssueV::EncoderRangeInvalid { min: *min, max: *max }
            },
            ValidationIssue::EncoderInitialOutOfRange { min, max, initial } => {
                IssueV::EncoderInitialOutOfRange { min: *min, max: *max, initial: *initial }
            },
            ValidationIssue::EncoderPushCcTooHigh { cc } => {
                IssueV::EncoderPushCcTooHigh { cc: *cc }
            },
            ValidationIssue::EncoderPushLabelTooLong { label } => {
                IssueV::EncoderPushLabelTooLong { label: label@ }
            },
            ValidationIssue::ExpressionNotSupported => IssueV::ExpressionNotSupported,
            ValidationIssue::ExpressionCcTooHigh { slot, cc } => {
                IssueV::ExpressionCcTooHigh { slot: *slot, cc: *cc }
            },
            ValidationIssue::ExpressionLabelTooLong { slot, label } => {
                IssueV::ExpressionLabelTooLong { slot: *slot, label: label@ }
            },
            ValidationIssue::ExpressionRangeInvalid { slot, min, max } => {
                IssueV::ExpressionRangeInvalid { slot: *slot, min: *min, max: *max }
            },
        }
    }
}

/// The debug name of a device class, as the count-mismatch message prints it.
pub open spec fn spec_device_name(device: DeviceType) -> Seq<char> {
    match device {
        DeviceType::Std10 => "Std10"@,
        DeviceType::Mini6 => "Mini6"@,
    }
}

/// The message text reported for an issue, exactly as the validator's
/// error list carries it.
pub open spec fn spec_issue_message_v(i: IssueV) -> Seq<char> {
    match i {
        IssueV::ButtonCountMismatch { expected, device, found } => "Expected "@
            + spec_udec(expected as nat) + " buttons for "@ + spec_device_name(device)
            + ", found "@ + spec_udec(found as nat),
        IssueV::ButtonCcTooHigh { number, cc } => "Button "@ + spec_udec(number as nat)
            + " CC "@ + spec_udec(cc as nat) + " exceeds 127"@,
        IssueV::ButtonLabelTooLong { number, label } => "Button "@
            + spec_udec(number as nat) + " label '"@ + label + "' exceeds 8 chars"@,
        IssueV::EncoderNotSupported => "Mini6 does not support encoder"@,
        IssueV::EncoderCcTooHigh { cc } => "Encoder CC "@ + spec_udec(cc as nat)
            + " exceeds 127"@,
        IssueV::EncoderLabelTooLong { label } => "Encoder label '"@ + label
            + "' exceeds 8 chars"@,
        IssueV::EncoderRangeInvalid { min, max } => "Encoder max ("@
            + spec_udec(max as nat) + ") must be >= min ("@ + spec_udec(min as nat) + ")"@,
        IssueV::EncoderInitialOutOfRange { min, max, initial } => "Encoder initial ("@
            + spec_udec(initial as nat) + ") must be between min ("@ + spec_udec(min as nat)
            + ") and max ("@ + spec_udec(max as nat) + ")"@,
        IssueV::EncoderPushCcTooHigh { cc } => "Encoder push CC "@ + spec_udec(cc as nat)
            + " exceeds 127"@,
        IssueV::EncoderPushLabelTooLong { label } => "Encoder push label '"@ + label
            + "' exceeds 8 chars"@,
        IssueV::ExpressionNotSupported => "Mini6 does not support expression pedals"@,
        IssueV::ExpressionCcTooHigh { slot, cc } => "EXP"@ + spec_udec(slot as nat)
            + " CC "@ + spec_udec(cc as nat) + " exceeds 127"@,
        IssueV::ExpressionLabelTooLong { slot, label } => "EXP"@ + spec_udec(slot as nat)
            + " label '"@ + label + "' exceeds 8 chars"@,
        IssueV::ExpressionRangeInvalid { slot, min, max } => "EXP"@
            + spec_udec(slot as nat) + " max ("@ + spec_udec(max as nat) + ") must be >= min ("@
            + spec_udec(min as nat) + ")"@,
    }
}

/// The message text of an executable issue value.
pub open spec fn spec_issue_message(i: ValidationIssue) -> Seq<char> {
    spec_issue_message_v(i.deep_view())
}

impl ValidationIssue {
    /// Renders the issue as the message text the error list carries.
    #[verifier::rlimit(80)]
    pub fn message(&self) -> (r: String)
        ensures
            r@ == spec_issue_message(*self),
    {
        let mut s = String::new();
        match self {
            ValidationIssue::ButtonCountMismatch { expected, device, found } => {
                s.append("Expected ");
                push_udec(&mut s, *expected as u64);
                s.append(" buttons for ");
                match device {
                    DeviceType::Std10 => s.append("Std10"),
                    DeviceType::Mini6 => s.append("Mini6"),
                }
                s.append(", found ");
                push_udec(&mut s, *found as u64);
            },
            ValidationIssue::ButtonCcTooHigh { number, cc } => {
                s.append("Button ");
                push_udec(&mut s, *number as u64);
                s.append(" CC ");
                push_udec(&mut s, *cc as u64);
                s.append(" exceeds 127");
            },
            ValidationIssue::ButtonLabelTooLong { number, label } => {
                s.append("Button ");
                push_udec(&mut s, *number as u64);
                s.append(" label '");
                s.append(label.as_str());
                s.append("' exceeds 8 chars");
            },
            ValidationIssue::EncoderNotSupported => {
                s.append("Mini6 does not support encoder");
            },
            ValidationIssue::EncoderCcTooHigh { cc } => {
                s.append("Encoder CC ");
                push_udec(&mut s, *cc as u64);
                s.append(" exceeds 127");
            },
            ValidationIssue::EncoderLabelTooLong { label } => {
                s.append("Encoder label '");
                s.append(label.as_str());
                s.append("' exceeds 8 chars");
            },
            ValidationIssue::EncoderRangeInvalid { min, max } => {
                s.append("Encoder max (");
                push_udec(&mut s, *max as u64);
                s.append(") must be >= min (");
                push_udec(&mut s, *min as u64);
                s.append(")");
            },
            ValidationIssue::EncoderInitialOutOfRange { min, max, initial } => {
                s.append("Encoder initial (");
                push_udec(&mut s, *initial as u64);
                s.append(") must be between min (");
                push_udec(&mut s, *min as u64);
                s.append(") and max (");
                push_udec(&mut s, *max as u64);
                s.append(")");
            },
            ValidationIssue::EncoderPushCcTooHigh { cc } => {
                s.append("Encoder push CC ");
                push_udec(&mut s, *cc as u64);
                s.append(" exceeds 127");
            },
            ValidationIssue::EncoderPushLabelTooLong { label } => {
                s.append("Encoder push label '");
                s.append(label.as_str());
                s.append("' exceeds 8 chars");
            },
            ValidationIssue::ExpressionNotSupported => {
                s.append("Mini6 does not support expression pedals");
            },
            ValidationIssue::ExpressionCcTooHigh { slot, cc } => {
                s.append("EXP");
                push_udec(&mut s, *slot as u64);
                s.append(" CC ");
                push_udec(&mut s, *cc as u64);
                s.append(" exceeds 127");
            },
            ValidationIssue::ExpressionLabelTooLong { slot, label } => {
                s.append("EXP");
                push_udec(&mut s, *slot as u64);
                s.append(" label '");
                s.append(label.as_str());
                s.append("' exceeds 8 chars");
            },
            ValidationIssue::ExpressionRangeInvalid { slot, min, max } => {
                s.append("EXP");
                push_udec(&mut s, *slot as u64);
                s.append(" max (");
                push_udec(&mut s, *max as u64);
                s.append(") must be >= min (");
                push_udec(&mut s, *min as u64);
                s.append(")");
            },
        }
        s
    }
}

impl MidiCaptainConfig {
    /// Checks the configuration against every rule of its device class.
    /// Succeeds exactly when no rule is violated; otherwise returns the
    /// messages of all violated rules, one per rule, in rule order. The
    /// result is a function of the configuration alone: checking the same
    /// unmodified configuration again gives the identical answer.
    pub fn validate(&self) -> (r: Result<(), Vec<String>>)
        ensures
            r is Ok <==> spec_validate(*self).len() == 0,
            r matches Err(msgs) ==> {
                &&& msgs@.len() == spec_validate(*self).len()
                &&& forall|k: int|
                    0 <= k < msgs@.len() ==> msgs@[k]@ == spec_issue_message(
                        spec_validate(*self)[k],
                    )
                &&& msgs.deep_view() == spec_messages_v(self.deep_view())
            },
    {
        let issues = self.validate_issues();
        if issues.len() == 0 {
            Ok(())
        } else {
            let mut msgs: Vec<String> = Vec::new();
            let mut k: usize = 0;
            while k < issues.len()
                invariant
                    msgs@.len() == k <= issues@.len(),
                    issues@ == spec_validate(*self),
                    forall|j: int|
                        0 <= j < k ==> msgs@[j]@ == spec_issue_message(issues@[j]),
                decreases issues@.len() - k,
            {
                msgs.push(issues[k].message());
                k = k + 1;
            }
            proof {
                lemma_validate_view(*self);
                assert forall|j: int|
                    0 <= j < msgs@.len() implies msgs.deep_view()[j] == spec_messages_v(
                    self.deep_view(),
                )[j] by {
                    assert(msgs.deep_view()[j] == msgs@[j]@);
                    assert(spec_deep_issues(spec_validate(*self))[j] == spec_validate(*self)[
                        j].deep_view());
                    assert(spec_messages_v(self.deep_view())[j] == spec_issue_message_v(
                        spec_validate_v(self.deep_view())[j],
                    ));
                }
                assert(msgs.deep_view() =~= spec_messages_v(self.deep_view()));
            }
            Err(msgs)
        }
    }
}

/// True of the issue raised when the button count differs from the
/// class-mandated count.
pub open spec fn is_count_issue(i: ValidationIssue) -> bool {
    i is ButtonCountMismatch
}

/// The count-mismatch test as a function value, shared by the statements
/// and proofs that filter the issue list with it.
pub open spec fn count_pred() -> spec_fn(ValidationIssue) -> bool {
    |i: ValidationIssue| is_count_issue(i)
}

proof fn lemma_filter_none<A>(s: Seq<A>, pred: spec_fn(A) -> bool)
    requires
        forall|k: int| 0 <= k < s.len() ==> !pred(s[k]),
    ensures
        s.filter(pred).len() == 0,
    decreases s.len(),
{
    reveal(Seq::filter);
    if s.len() != 0 {
        lemma_filter_none(s.drop_last(), pred);
    }
}

proof fn lemma_buttons_issues_not_count(s: Seq<ButtonConfig>, i: int)
    ensures
        forall|k: int|
            0 <= k < spec_buttons_issues_from(s, i).len() ==> !is_count_issue(
                #[trigger] spec_buttons_issues_from(s, i)[k],
            ),
    decreases s.len() - i,
{
    if 0 <= i < s.len() {
        lemma_buttons_issues_not_count(s, i + 1);
        let a = spec_button_issues(s[i], i);
        let b = spec_buttons_issues_from(s, i + 1);
        assert forall|k: int|
            0 <= k < spec_buttons_issues_from(s, i).len() implies !is_count_issue(
            spec_buttons_issues_from(s, i)[k],
        ) by {
            if k < a.len() {
                assert(spec_buttons_issues_from(s, i)[k] == a[k]);
            } else {
                assert(spec_buttons_issues_from(s, i)[k] == b[k - a.len()]);
            }
        }
    }
}

/// Law: a ten-button configuration with exactly ten buttons, every control
/// change number at most 127, every label at most eight characters, and no
/// encoder or expression section, raises no issue at all.
pub proof fn lemma_valid_ten_button_passes(c: MidiCaptainConfig)
    requires
        c.device is Std10,
        c.buttons@.len() == 10,
        forall|k: int|
            0 <= k < c.buttons@.len() ==> (#[trigger] c.buttons@[k]).cc <= 127
                && c.buttons@[k].label@.len() <= 8,
        c.encoder is None,
        c.expression is None,
    ensures
        spec_validate(c).len() == 0,
{
    lemma_buttons_ok_from(c.buttons@, 0);
}

proof fn lemma_buttons_ok_from(s: Seq<ButtonConfig>, i: int)
    requires
        forall|k: int| 0 <= k < s.len() ==> (#[trigger] s[k]).cc <= 127 && s[k].label@.len() <= 8,
    ensures
        spec_buttons_issues_from(s, i).len() == 0,
    decreases s.len() - i,
{
    if 0 <= i < s.len() {
        lemma_buttons_ok_from(s, i + 1);
    }
}

/// Law: whenever the button count differs from the class-mandated count, the
/// issue list opens with the count-mismatch issue, carries no second one, and
/// the count that issue expects is ten for the ten-button class and six for
/// the six-button class.
#[verifier::rlimit(100)]
pub proof fn lemma_count_mismatch_exactly_one(c: MidiCaptainConfig)
    requires
        c.buttons@.len() != spec_expected_buttons(c.device),
    ensures
        spec_validate(c).filter(count_pred()).len() == 1,
        spec_validate(c)[0] == (ValidationIssue::ButtonCountMismatch {
            expected: spec_expected_buttons(c.device) as u8,
            device: c.device,
            found: c.buttons@.len() as usize,
        }),
        c.device is Std10 ==> spec_expected_buttons(c.device) == 10,
        c.device is Mini6 ==> spec_expected_buttons(c.device) == 6,
{
    let pred = count_pred();
    let count = spec_count_issues(c);
    let buttons = spec_buttons_issues_from(c.buttons@, 0);
    let enc = match c.encoder {
        Some(e) => spec_encoder_issues(c.device, e),
        None => Seq::<ValidationIssue>::empty(),
    };
    let exp = match c.expression {
        Some(x) => spec_expression_issues(c.device, x),
        None => Seq::<ValidationIssue>::empty(),
    };
    lemma_buttons_issues_not_count(c.buttons@, 0);
    lemma_filter_none(buttons, pred);
    lemma_encoder_issues_not_count(c);
    lemma_expression_issues_not_count(c);
    assert(count.filter(pred).len() == 1) by {
        reveal_with_fuel(Seq::filter, 2);
        assert(count.drop_last() =~= Seq::<ValidationIssue>::empty());
    }
    let t1 = count + buttons;
    let t2 = t1 + enc;
    let t3 = t2 + exp;
    assert(spec_validate(c) == t3);
    Seq::filter_distributes_over_add(count, buttons, pred);
    Seq::filter_distributes_over_add(t1, enc, pred);
    Seq::filter_distributes_over_add(t2, exp, pred);
    assert(t3.filter(pred).len() == 1);
    assert(t3[0] == t1[0]);
    assert(t1[0] == count[0]);
}

proof fn lemma_opt_single_filter<A>(s: Seq<A>, pred: spec_fn(A) -> bool)
    requires
        s.len() == 0 || (s.len() == 1 && !pred(s[0])),
    ensures
        s.filter(pred).len() == 0,
{
    reveal_with_fuel(Seq::filter, 2);
    if s.len() == 1 {
        assert(s.drop_last() =~= Seq::<A>::empty());
    }
}

proof fn lemma_pedal_issues_not_count(slot: u8, p: ExpressionConfig)
    ensures
        spec_pedal_issues(slot, p).filter(count_pred()).len() == 0,
{
    broadcast use Seq::filter_distributes_over_add;

    let pred = count_pred();
    let a1 = if p.cc > 127 {
        seq![ValidationIssue::ExpressionCcTooHigh { slot, cc: p.cc }]
    } else {
        Seq::<ValidationIssue>::empty()
    };
    let a2 = if p.label@.len() > 8 {
        seq![ValidationIssue::ExpressionLabelTooLong { slot, label: p.label }]
    } else {
        Seq::<ValidationIssue>::empty()
    };
    let a3 = if p.max < p.min {
        seq![ValidationIssue::ExpressionRangeInvalid { slot, min: p.min, max: p.max }]
    } else {
        Seq::<ValidationIssue>::empty()
    };
    lemma_opt_single_filter(a1, pred);
    lemma_opt_single_filter(a2, pred);
    lemma_opt_single_filter(a3, pred);
    assert(spec_pedal_issues(slot, p) == a1 + a2 + a3);
}

proof fn lemma_encoder_issues_not_count(c: MidiCaptainConfig)
    ensures
        (match c.encoder {
            Some(e) => spec_encoder_issues(c.device, e),
            None => Seq::<ValidationIssue>::empty(),
        }).filter(count_pred()).len() == 0,
{
    broadcast use Seq::filter_distributes_over_add;

    let pred = count_pred();
    reveal_with_fuel(Seq::filter, 1);
    if let Some(e) = c.encoder {
        let a1 = if c.device is Mini6 {
            seq![ValidationIssue::EncoderNotSupported]
        } else {
            Seq::<ValidationIssue>::empty()
        };
        let a2 = if e.cc > 127 {
            seq![ValidationIssue::EncoderCcTooHigh { cc: e.cc }]
        } else {
            Seq::<ValidationIssue>::empty()
        };
        let a3 = if e.label@.len() > 8 {
            seq![ValidationIssue::EncoderLabelTooLong { label: e.label }]
        } else {
            Seq::<ValidationIssue>::empty()
        };
        let a4 = if e.max < e.min {
            seq![ValidationIssue::EncoderRangeInvalid { min: e.min, max: e.max }]
        } else {
            Seq::<ValidationIssue>::empty()
        };
        let a5 = if e.initial < e.min || e.initial > e.max {
            seq![
                ValidationIssue::EncoderInitialOutOfRange {
                    min: e.min,
                    max: e.max,
                    initial: e.initial,
                },
            ]
        } else {
            Seq::<ValidationIssue>::empty()
        };
        let a6 = match e.push {
            Some(p) => (if p.cc > 127 {
                seq![ValidationIssue::EncoderPushCcTooHigh { cc: p.cc }]
            } else {
                Seq::<ValidationIssue>::empty()
            }) + (if p.label@.len() > 8 {
                seq![ValidationIssue::EncoderPushLabelTooLong { label: p.label }]
            } else {
                Seq::<ValidationIssue>::empty()
            }),
            None => Seq::<ValidationIssue>::empty(),
        };
        lemma_opt_single_filter(a1, pred);
        lemma_opt_single_filter(a2, pred);
        lemma_opt_single_filter(a3, pred);
        lemma_opt_single_filter(a4, pred);
        lemma_opt_single_filter(a5, pred);
        if let Some(p) = e.push {
            let b1 = if p.cc > 127 {
                seq![ValidationIssue::EncoderPushCcTooHigh { cc: p.cc }]
            } else {
                Seq::<ValidationIssue>::empty()
            };
            let b2 = if p.label@.len() > 8 {
                seq![ValidationIssue::EncoderPushLabelTooLong { label: p.label }]
            } else {
                Seq::<ValidationIssue>::empty()
            };
            lemma_opt_single_filter(b1, pred);
            lemma_opt_single_filter(b2, pred);
            assert(a6 == b1 + b2);
        }
        assert(spec_encoder_issues(c.device, e) == a1 + a2 + a3 + a4 + a5 + a6);
    }
}

proof fn lemma_expression_issues_not_count(c: MidiCaptainConfig)
    ensures
        (match c.expression {
            Some(x) => spec_expression_issues(c.device, x),
            None => Seq::<ValidationIssue>::empty(),
        }).filter(count_pred()).len() == 0,
{
    broadcast use Seq::filter_distributes_over_add;

    let pred = count_pred();
    reveal_with_fuel(Seq::filter, 1);
    if let Some(x) = c.expression {
        let a1 = if c.device is Mini6 {
            seq![ValidationIssue::ExpressionNotSupported]
        } else {
            Seq::<ValidationIssue>::empty()
        };
        lemma_opt_single_filter(a1, pred);
        lemma_pedal_issues_not_count(1, x.exp1);
        lemma_pedal_issues_not_count(2, x.exp2);
        assert(spec_expression_issues(c.device, x) == a1 + spec_pedal_issues(1, x.exp1)
            + spec_pedal_issues(2, x.exp2));
    }
}

/// Law: a six-button configuration that carries an encoder or an expression
/// section raises the corresponding not-supported issue, whatever the
/// section's own fields hold.
pub proof fn lemma_mini6_sections_rejected(c: MidiCaptainConfig)
    requires
        c.device is Mini6,
    ensures
        c.encoder is Some ==> spec_validate(c).contains(ValidationIssue::EncoderNotSupported),
        c.expression is Some ==> spec_validate(c).contains(
            ValidationIssue::ExpressionNotSupported,
        ),
{
    let head = spec_count_issues(c) + spec_buttons_issues_from(c.buttons@, 0);
    if let Some(e) = c.encoder {
        assert(spec_encoder_issues(c.device, e)[0] == ValidationIssue::EncoderNotSupported);
        assert(spec_validate(c)[head.len() as int] == ValidationIssue::EncoderNotSupported);
    }
    if let Some(x) = c.expression {
        let enc = match c.encoder {
            Some(e) => spec_encoder_issues(c.device, e),
            None => Seq::empty(),
        };
        assert(spec_expression_issues(c.device, x)[0]
            == ValidationIssue::ExpressionNotSupported);
        assert(spec_validate(c)[(head.len() + enc.len()) as int]
            == ValidationIssue::ExpressionNotSupported);
    }
}

/// Law: an encoder whose range is inverted, or whose initial value lies
/// outside its range, raises the issue that names the offending bounds.
pub proof fn lemma_encoder_bounds_rejected(c: MidiCaptainConfig, e: EncoderConfig)
    requires
        c.encoder == Some(e),
    ensures
        e.max < e.min ==> spec_validate(c).contains(
            ValidationIssue::EncoderRangeInvalid { min: e.min, max: e.max },
        ),
        e.initial < e.min || e.initial > e.max ==> spec_validate(c).contains(
            ValidationIssue::EncoderInitialOutOfRange {
                min: e.min,
                max: e.max,
                initial: e.initial,
            },
        ),
{
    let head = spec_count_issues(c) + spec_buttons_issues_from(c.buttons@, 0);
    let enc = spec_encoder_issues(c.device, e);
    let a = (if c.device is Mini6 {
        seq![ValidationIssue::EncoderNotSupported]
    } else {
        Seq::<ValidationIssue>::empty()
    }) + (if e.cc > 127 {
        seq![ValidationIssue::EncoderCcTooHigh { cc: e.cc }]
    } else {
        Seq::<ValidationIssue>::empty()
    }) + (if e.label@.len() > 8 {
        seq![ValidationIssue::EncoderLabelTooLong { label: e.label }]
    } else {
        Seq::<ValidationIssue>::empty()
    });
    if e.max < e.min {
        let issue = ValidationIssue::EncoderRangeInvalid { min: e.min, max: e.max };
        assert(enc[a.len() as int] == issue);
        assert(spec_validate(c)[(head.len() + a.len()) as int] == issue);
    }
    if e.initial < e.min || e.initial > e.max {
        let issue = ValidationIssue::EncoderInitialOutOfRange {
            min: e.min,
            max: e.max,
            initial: e.initial,
        };
        let b = a + (if e.max < e.min {
            seq![ValidationIssue::EncoderRangeInvalid { min: e.min, max: e.max }]
        } else {
            Seq::<ValidationIssue>::empty()
        });
        assert(enc[b.len() as int] == issue);
        assert(spec_validate(c)[(head.len() + b.len()) as int] == issue);
    }
}

/// Mathematical form of a button configuration.
pub struct ButtonV {
    pub label: Seq<char>,
    pub cc: u8,
    pub color: ButtonColor,
    pub mode: ButtonMode,
    pub off_mode: OffMode,
}

impl DeepView for ButtonConfig {
    type V = ButtonV;

    open spec fn deep_view(&self) -> ButtonV {
        ButtonV {
            label: self.label@,
            cc: self.cc,
            color: self.color,
            mode: self.mode,
            off_mode: self.off_mode,
        }
    }
}

/// Mathematical form of an encoder push-button configuration.
pub struct EncoderPushV {
    pub enabled: bool,
    pub cc: u8,
    pub label: Seq<char>,
    pub mode: ButtonMode,
}

impl DeepView for EncoderPush {
    type V = EncoderPushV;

    open spec fn deep_view(&self) -> EncoderPushV {
        EncoderPushV { enabled: self.enabled, cc: self.cc, label: self.label@, mode: self.mode }
    }
}

/// Mathematical form of an encoder configuration.
pub struct EncoderV {
    pub enabled: bool,
    pub cc: u8,
    pub label: Seq<char>,
    pub min: u8,
    pub max: u8,
    pub initial: u8,
    pub steps: Option<u8>,
    pub push: Option<EncoderPushV>,
}

impl DeepView for EncoderConfig {
    type V = EncoderV;

    open spec fn deep_view(&self) -> EncoderV {
        EncoderV {
            enabled: self.enabled,
            cc: self.cc,
            label: self.label@,
            min: self.min,
            max: self.max,
            initial: self.initial,
            steps: self.steps,
            push: self.push.deep_view(),
        }
    }
}

/// Mathematical form of an expression pedal configuration.
pub struct ExpressionV {
    pub enabled: bool,
    pub cc: u8,
    pub label: Seq<char>,
    pub min: u8,
    pub max: u8,
    pub polarity: Polarity,
    pub threshold: u8,
}

impl DeepView for ExpressionConfig {
    type V = ExpressionV;

    open spec fn deep_view(&self) -> ExpressionV {
        ExpressionV {
            enabled: self.enabled,
            cc: self.cc,
            label: self.label@,
            min: self.min,
            max: self.max,
            polarity: self.polarity,
            threshold: self.threshold,
        }
    }
}

/// Mathematical form of the expression pedal pair.
pub struct PedalsV {
    pub exp1: ExpressionV,
    pub exp2: ExpressionV,
}

impl DeepView for ExpressionPedals {
    type V = PedalsV;

    open spec fn deep_view(&self) -> PedalsV {
        PedalsV { exp1: self.exp1.deep_view(), exp2: self.exp2.deep_view() }
    }
}

/// Mathematical form of a complete configuration.
pub struct ConfigV {
    pub device: DeviceType,
    pub buttons: Seq<ButtonV>,
    pub encoder: Option<EncoderV>,
    pub expression: Option<PedalsV>,
}

impl DeepView for MidiCaptainConfig {
    type V = ConfigV;

    open spec fn deep_view(&self) -> ConfigV {
        ConfigV {
            device: self.device,
            buttons: self.buttons.deep_view(),
            encoder: self.encoder.deep_view(),
            expression: self.expression.deep_view(),
        }
    }
}

/// A button that violates no rule.
pub open spec fn spec_button_ok(b: ButtonV) -> bool {
    b.cc <= 127 && b.label.len() <= 8
}

/// An encoder push button that violates no rule.
pub open spec fn spec_push_ok(p: EncoderPushV) -> bool {
    p.cc <= 127 && p.label.len() <= 8
}

/// An encoder section that violates no rule on a device of class `device`.
pub open spec fn spec_encoder_ok(device: DeviceType, e: EncoderV) -> bool {
    &&& !(device is Mini6)
    &&& e.cc <= 127
    &&& e.label.len() <= 8
    &&& e.min <= e.max
    &&& e.min <= e.initial <= e.max
    &&& match e.push {
        Some(p) => spec_push_ok(p),
        None => true,
    }
}

/// An expression pedal that violates no rule.
pub open spec fn spec_pedal_ok(x: ExpressionV) -> bool {
    x.cc <= 127 && x.label.len() <= 8 && x.min <= x.max
}

/// A configuration that violates no rule: the class-mandated button count,
/// every button within bounds, and sections that the class supports and
/// whose fields are within bounds.
pub open spec fn spec_config_ok(c: ConfigV) -> bool {
    &&& c.buttons.len() == spec_expected_buttons(c.device)
    &&& forall|i: int| 0 <= i < c.buttons.len() ==> spec_button_ok(#[trigger] c.buttons[i])
    &&& match c.encoder {
        Some(e) => spec_encoder_ok(c.device, e),
        None => true,
    }
    &&& match c.expression {
        Some(p) => !(c.device is Mini6) && spec_pedal_ok(p.exp1) && spec_pedal_ok(p.exp2),
        None => true,
    }
}

proof fn lemma_buttons_issues_empty_iff(s: Seq<ButtonConfig>, i: int)
    requires
        0 <= i <= s.len(),
    ensures
        spec_buttons_issues_from(s, i).len() == 0 <==> (forall|k: int|
            i <= k < s.len() ==> spec_button_ok((#[trigger] s[k]).deep_view())),
    decreases s.len() - i,
{
    if i < s.len() {
        lemma_buttons_issues_empty_iff(s, i + 1);
    }
}

proof fn lemma_pedal_issues_empty_iff(slot: u8, p: ExpressionConfig)
    ensures
        spec_pedal_issues(slot, p).len() == 0 <==> spec_pedal_ok(p.deep_view()),
{
}

#[verifier::rlimit(60)]
proof fn lemma_encoder_issues_empty_iff(device: DeviceType, e: EncoderConfig)
    ensures
        spec_encoder_issues(device, e).len() == 0 <==> spec_encoder_ok(device, e.deep_view()),
{
}

/// Law: the validator raises no issue exactly on the configurations that
/// violate no rule.
pub proof fn lemma_valid_iff_no_issues(c: MidiCaptainConfig)
    ensures
        spec_validate(c).len() == 0 <==> spec_config_ok(c.deep_view()),
{
    lemma_buttons_issues_empty_iff(c.buttons@, 0);
    assert(forall|k: int|
        0 <= k < c.buttons@.len() ==> c.deep_view().buttons[k] == (#[trigger] c.buttons@[k]).deep_view());
    assert(c.deep_view().buttons.len() == c.buttons@.len());
    if let Some(e) = c.encoder {
        lemma_encoder_issues_empty_iff(c.device, e);
    }
    if let Some(x) = c.expression {
        lemma_pedal_issues_empty_iff(1, x.exp1);
        lemma_pedal_issues_empty_iff(2, x.exp2);
    }
    if spec_validate(c).len() == 0 {
        assert(forall|i: int|
            0 <= i < c.deep_view().buttons.len() ==> spec_button_ok(
                #[trigger] c.deep_view().buttons[i],
            ));
        if c.device is Mini6 && c.expression is Some {
            assert(spec_expression_issues(c.device, c.expression.unwrap()).len() > 0);
        }
    }
    if spec_config_ok(c.deep_view()) {
        assert(spec_buttons_issues_from(c.buttons@, 0).len() == 0);
    }
}

/// The issues of a configuration, mapped to their mathematical form.
pub open spec fn spec_deep_issues(s: Seq<ValidationIssue>) -> Seq<IssueV> {
    s.map_values(|i: ValidationIssue| i.deep_view())
}

/// View-level form of `spec_count_issues`.
pub open spec fn spec_count_issues_v(c: ConfigV) -> Seq<IssueV> {
    if c.buttons.len() != spec_expected_buttons(c.device) {
        seq![
            IssueV::ButtonCountMismatch {
                expected: spec_expected_buttons(c.device) as u8,
                device: c.device,
                found: c.buttons.len() as usize,
            },
        ]
    } else {
        Seq::empty()
    }
}

/// View-level form of `spec_button_issues`.
pub open spec fn spec_button_issues_v(b: ButtonV, i: int) -> Seq<IssueV> {
    (if b.cc > 127 {
        seq![IssueV::ButtonCcTooHigh { number: (i + 1) as usize, cc: b.cc }]
    } else {
        Seq::empty()
    }) + (if b.label.len() > 8 {
        seq![IssueV::ButtonLabelTooLong { number: (i + 1) as usize, label: b.label }]
    } else {
        Seq::empty()
    })
}

/// View-level form of `spec_buttons_issues_from`.
pub open spec fn spec_buttons_issues_from_v(s: Seq<ButtonV>, i: int) -> Seq<IssueV>
    decreases s.len() - i,
{
    if i < 0 || i >= s.len() {
        Seq::empty()
    } else {
        spec_button_issues_v(s[i], i) + spec_buttons_issues_from_v(s, i + 1)
    }
}

/// View-level form of `spec_encoder_issues`.
pub open spec fn spec_encoder_issues_v(device: DeviceType, e: EncoderV) -> Seq<IssueV> {
    (if device is Mini6 {
        seq![IssueV::EncoderNotSupported]
    } else {
        Seq::empty()
    }) + (if e.cc > 127 {
        seq![IssueV::EncoderCcTooHigh { cc: e.cc }]
    } else {
        Seq::empty()
    }) + (if e.label.len() > 8 {
        seq![IssueV::EncoderLabelTooLong { label: e.label }]
    } else {
        Seq::empty()
    }) + (if e.max < e.min {
        seq![IssueV::EncoderRangeInvalid { min: e.min, max: e.max }]
    } else {
        Seq::empty()
    }) + (if e.initial < e.min || e.initial > e.max {
        seq![IssueV::EncoderInitialOutOfRange { min: e.min, max: e.max, initial: e.initial }]
    } else {
        Seq::empty()
    }) + (match e.push {
        Some(p) => (if p.cc > 127 {
            seq![IssueV::EncoderPushCcTooHigh { cc: p.cc }]
        } else {
            Seq::empty()
        }) + (if p.label.len() > 8 {
            seq![IssueV::EncoderPushLabelTooLong { label: p.label }]
        } else {
            Seq::empty()
        }),
        None => Seq::empty(),
    })
}

/// View-level form of `spec_pedal_issues`.
pub open spec fn spec_pedal_issues_v(slot: u8, p: ExpressionV) -> Seq<IssueV> {
    (if p.cc > 127 {
        seq![IssueV::ExpressionCcTooHigh { slot, cc: p.cc }]
    } else {
        Seq::empty()
    }) + (if p.label.len() > 8 {
        seq![IssueV::ExpressionLabelTooLong { slot, label: p.label }]
    } else {
        Seq::empty()
    }) + (if p.max < p.min {
        seq![IssueV::ExpressionRangeInvalid { slot, min: p.min, max: p.max }]
    } else {
        Seq::empty()
    })
}

/// View-level form of `spec_expression_issues`.
pub open spec fn spec_expression_issues_v(device: DeviceType, x: PedalsV) -> Seq<IssueV> {
    (if device is Mini6 {
        seq![IssueV::ExpressionNotSupported]
    } else {
        Seq::empty()
    }) + spec_pedal_issues_v(1, x.exp1) + spec_pedal_issues_v(2, x.exp2)
}

/// Every issue a configuration raises, stated over its mathematical form.
pub open spec fn spec_validate_v(c: ConfigV) -> Seq<IssueV> {
    spec_count_issues_v(c) + spec_buttons_issues_from_v(c.buttons, 0) + (match c.encoder {
        Some(e) => spec_encoder_issues_v(c.device, e),
        None => Seq::empty(),
    }) + (match c.expression {
        Some(x) => spec_expression_issues_v(c.device, x),
        None => Seq::empty(),
    })
}

/// The full message list of a configuration, stated over its mathematical
/// form: one message per violated rule, in rule order.
pub open spec fn spec_messages_v(c: ConfigV) -> Seq<Seq<char>> {
    spec_validate_v(c).map_values(|i: IssueV| spec_issue_message_v(i))
}

proof fn lemma_deep_issues_add(a: Seq<ValidationIssue>, b: Seq<ValidationIssue>)
    ensures
        spec_deep_issues(a + b) == spec_deep_issues(a) + spec_deep_issues(b),
{
    assert(spec_deep_issues(a + b) =~= spec_deep_issues(a) + spec_deep_issues(b));
}

proof fn lemma_buttons_issues_view(s: Seq<ButtonConfig>, sv: Seq<ButtonV>, i: int)
    requires
        sv.len() == s.len(),
        forall|k: int| 0 <= k < s.len() ==> sv[k] == (#[trigger] s[k]).deep_view(),
    ensures
        spec_deep_issues(spec_buttons_issues_from(s, i)) == spec_buttons_issues_from_v(sv, i),
    decreases s.len() - i,
{
    if i < 0 || i >= s.len() {
        assert(spec_deep_issues(spec_buttons_issues_from(s, i)) =~= spec_buttons_issues_from_v(
            sv,
            i,
        ));
    } else {
        lemma_buttons_issues_view(s, sv, i + 1);
        lemma_deep_issues_add(spec_button_issues(s[i], i), spec_buttons_issues_from(s, i + 1));
        assert(spec_deep_issues(spec_button_issues(s[i], i)) =~= spec_button_issues_v(sv[i], i));
    }
}

#[verifier::rlimit(100)]
proof fn lemma_encoder_issues_view(device: DeviceType, e: EncoderConfig)
    ensures
        spec_deep_issues(spec_encoder_issues(device, e)) == spec_encoder_issues_v(
            device,
            e.deep_view(),
        ),
{
    assert(spec_deep_issues(spec_encoder_issues(device, e)) =~= spec_encoder_issues_v(
        device,
        e.deep_view(),
    ));
}

proof fn lemma_pedal_issues_view(slot: u8, p: ExpressionConfig)
    ensures
        spec_deep_issues(spec_pedal_issues(slot, p)) == spec_pedal_issues_v(slot, p.deep_view()),
{
    assert(spec_deep_issues(spec_pedal_issues(slot, p)) =~= spec_pedal_issues_v(
        slot,
        p.deep_view(),
    ));
}

proof fn lemma_expression_issues_view(device: DeviceType, x: ExpressionPedals)
    ensures
        spec_deep_issues(spec_expression_issues(device, x)) == spec_expression_issues_v(
            device,
            x.deep_view(),
        ),
{
    lemma_pedal_issues_view(1, x.exp1);
    lemma_pedal_issues_view(2, x.exp2);
    let head = if device is Mini6 {
        seq![ValidationIssue::ExpressionNotSupported]
    } else {
        Seq::<ValidationIssue>::empty()
    };
    lemma_deep_issues_add(head, spec_pedal_issues(1, x.exp1));
    lemma_deep_issues_add(head + spec_pedal_issues(1, x.exp1), spec_pedal_issues(2, x.exp2));
    assert(spec_deep_issues(head) =~= (if device is Mini6 {
        seq![IssueV::ExpressionNotSupported]
    } else {
        Seq::<IssueV>::empty()
    }));
}

/// Law: the validator's issue list, viewed mathematically, is the issue
/// list of the configuration's mathematical form — validation depends on
/// nothing but the values of the fields.
pub proof fn lemma_validate_view(c: MidiCaptainConfig)
    ensures
        spec_deep_issues(spec_validate(c)) == spec_validate_v(c.deep_view()),
{
    let cv = c.deep_view();
    let count = spec_count_issues(c);
    let buttons = spec_buttons_issues_from(c.buttons@, 0);
    let enc = match c.encoder {
        Some(e) => spec_encoder_issues(c.device, e),
        None => Seq::<ValidationIssue>::empty(),
    };
    let exp = match c.expression {
        Some(x) => spec_expression_issues(c.device, x),
        None => Seq::<ValidationIssue>::empty(),
    };
    lemma_deep_issues_add(count, buttons);
    lemma_deep_issues_add(count + buttons, enc);
    lemma_deep_issues_add(count + buttons + enc, exp);
    assert(spec_deep_issues(count) =~= spec_count_issues_v(cv));
    assert(forall|k: int|
        0 <= k < c.buttons@.len() ==> cv.buttons[k] == (#[trigger] c.buttons@[k]).deep_view());
    lemma_buttons_issues_view(c.buttons@, cv.buttons, 0);
    if let Some(e) = c.encoder {
        lemma_encoder_issues_view(c.device, e);
    }
    if let Some(x) = c.expression {
        lemma_expression_issues_view(c.device, x);
    }
    assert(spec_validate(c) == count + buttons + enc + exp);
}

} // verus!
