use vstd::prelude::*;

use crate::arg_util::{parse_model, DeviceModel};

verus! {

/// The value of a string of decimal digits.
pub open spec fn digits_value(s: Seq<char>) -> int
    decreases s.len(),
{
    if s.len() == 0 {
        0
    } else {
        digits_value(s.drop_last()) * 10 + (s.last() as int - '0' as int)
    }
}

/// Whether every character of `s` is a decimal digit.
pub open spec fn all_digits(s: Seq<char>) -> bool {
    forall|i: int| 0 <= i < s.len() ==> '0' <= #[trigger] s[i] <= '9'
}

/// The `u8` that `s` writes in decimal: an optional `+` followed by at least
/// one digit, of a value that fits.
pub open spec fn decimal_u8(s: Seq<char>) -> Option<u8> {
    let d = if s.len() > 0 && s[0] == '+' {
        s.drop_first()
    } else {
        s
    };
    if d.len() > 0 && all_digits(d) && digits_value(d) <= 255 {
        Some(digits_value(d) as u8)
    } else {
        None
    }
}

/// Relies on `u8::from_str_radix` in base ten, which accepts an optional `+`
/// followed by digits and refuses any other text and any value over 255.
#[verifier::external_body]
fn parse_u8(s: &str) -> (r: Option<u8>)
    ensures
        r == decimal_u8(s@),
{
    u8::from_str_radix(s, 10).ok()
}

/// What the tool that runs the extension hands it.
#[derive(Debug)]
pub struct Context {
    /// The path to the binary of the tool.
    pub nitrocli: String,
    /// The model to use.
    pub model: DeviceModel,
    /// The verbosity level to use.
    pub verbosity: u8,
}

/// Why the handed-over settings are unusable.
#[derive(Debug)]
pub enum ContextError {
    /// The path to the tool's binary is not given.
    MissingBinary,
    /// The model is not given.
    MissingModel,
    /// The model's text names no known model.
    UnknownModel(String),
    /// The verbosity is not given.
    MissingVerbosity,
    /// The verbosity is not a number from 0 to 255.
    BadVerbosity(String),
}

impl Context {
    /// Builds the context from the three settings as given, checking them in
    /// order: the binary, the model, then the verbosity.
    pub fn from_values(
        nitrocli: Option<String>,
        model: Option<String>,
        verbosity: Option<String>,
    ) -> (r: Result<Context, ContextError>)
        ensures
            nitrocli is None ==> r matches Err(ContextError::MissingBinary),
            nitrocli is Some && model is None ==> r matches Err(ContextError::MissingModel),
            nitrocli is Some && model is Some && parse_model(model.unwrap()@) is None ==> (
            r matches Err(ContextError::UnknownModel(t)) && t@ == model.unwrap()@),
            nitrocli is Some && model is Some && parse_model(model.unwrap()@) is Some
                && verbosity is None ==> r matches Err(ContextError::MissingVerbosity),
            nitrocli is Some && model is Some && parse_model(model.unwrap()@) is Some
                && verbosity is Some && decimal_u8(verbosity.unwrap()@) is None ==> (
            r matches Err(ContextError::BadVerbosity(t)) && t@ == verbosity.unwrap()@),
            r is Ok <==> (nitrocli is Some && model is Some && parse_model(model.unwrap()@) is Some
                && verbosity is Some && decimal_u8(verbosity.unwrap()@) is Some),
            match r {
                Ok(c) => c.nitrocli@ == nitrocli.unwrap()@ && Some(c.model) == parse_model(
                    model.unwrap()@,
                ) && Some(c.verbosity) == decimal_u8(verbosity.unwrap()@),
                Err(_) => true,
            },
    {
        let nitrocli = match nitrocli {
            Some(n) => n,
            None => return Err(ContextError::MissingBinary),
        };
        let model_text = match model {
            Some(m) => m,
            None => return Err(ContextError::MissingModel),
        };
        let model = match DeviceModel::from_str(model_text.as_str()) {
            Ok(m) => m,
            Err(_) => return Err(ContextError::UnknownModel(model_text)),
        };
        let verbosity_text = match verbosity {
            Some(v) => v,
            None => return Err(ContextError::MissingVerbosity),
        };
        let verbosity = match parse_u8(verbosity_text.as_str()) {
            Some(v) => v,
            None => return Err(ContextError::BadVerbosity(verbosity_text)),
        };
        Ok(Context { nitrocli, model, verbosity })
    }
}

} // verus!
