//! The text-level configuration operations: parse, validate, serialize.

use vstd::prelude::*;
use vstd::string::StringExecFns;
use crate::config::{
    lemma_valid_iff_no_issues, spec_config_ok, spec_messages_v, MidiCaptainConfig,
};
use crate::errors::ConfigError;
use crate::json::{json_of_text, parse_json_text};
use crate::render::{render_json, spec_render};
use crate::schema::{config_to_json, json_to_config, spec_config_of_json, spec_json_of_config};

verus! {

/// True of the messages that report a malformed or non-schema document:
/// the fixed prefix, then the parser's description.
pub open spec fn spec_parse_error_message(m: Seq<char>) -> bool {
    m.len() >= "JSON parse error: "@.len() && m.subrange(0, "JSON parse error: "@.len() as int)
        == "JSON parse error: "@
}

/// Builds the error that reports a malformed document.
fn parse_error(detail: String) -> (r: ConfigError)
    ensures
        spec_parse_error_message(r.message@),
        r.details is None,
{
    let mut message = String::from_str("JSON parse error: ");
    message.append(detail.as_str());
    proof {
        assert(message@.subrange(0, "JSON parse error: "@.len() as int) =~= "JSON parse error: "@);
    }
    ConfigError { message, details: None }
}

/// Parses a configuration document. Succeeds exactly on texts that are
/// well-formed JSON and fit the schema; the returned configuration is the
/// one the text describes.
pub fn parse_config(json: &str) -> (r: Result<MidiCaptainConfig, ConfigError>)
    ensures
        json_of_text(json@) is None ==> r is Err,
        json_of_text(json@) matches Some(jv) ==> match spec_config_of_json(jv) {
            Some(cv) => r matches Ok(c) && c.deep_view() == cv,
            None => r is Err,
        },
        r matches Err(e) ==> spec_parse_error_message(e.message@) && e.details is None,
{
    let doc = match parse_json_text(json) {
        Ok(doc) => doc,
        Err(detail) => {
            return Err(parse_error(detail));
        },
    };
    match json_to_config(&doc) {
        Ok(c) => Ok(c),
        Err(detail) => Err(parse_error(detail)),
    }
}

/// Checks a configuration document without touching any file. Succeeds
/// exactly on texts that parse, fit the schema and violate no validation
/// rule; a rule violation carries the full message list in `details`.
pub fn validate_config(json: &str) -> (r: Result<(), ConfigError>)
    ensures
        json_of_text(json@) is None ==> (r matches Err(e) && spec_parse_error_message(e.message@)
            && e.details is None),
        json_of_text(json@) matches Some(jv) ==> match spec_config_of_json(jv) {
            Some(cv) => (r is Ok <==> spec_config_ok(cv)) && (!spec_config_ok(cv)
                ==> (r matches Err(e) && e.message@ == "Validation failed"@
                && (e.details matches Some(msgs) && msgs.deep_view() == spec_messages_v(cv)))),
            None => r matches Err(e) && spec_parse_error_message(e.message@)
                && e.details is None,
        },
{
    let config = match parse_config(json) {
        Ok(c) => c,
        Err(e) => {
            return Err(e);
        },
    };
    proof {
        lemma_valid_iff_no_issues(config);
    }
    match config.validate() {
        Ok(()) => Ok(()),
        Err(messages) => Err(
            ConfigError { message: String::from_str("Validation failed"), details: Some(messages) },
        ),
    }
}

/// Serializes a configuration as the pretty-printed document text that is
/// written to a device.
pub fn serialize_config(config: &MidiCaptainConfig) -> (r: String)
    ensures
        r@ == spec_render(spec_json_of_config(config.deep_view()), 0),
{
    let doc = config_to_json(config);
    render_json(&doc)
}

} // verus!
