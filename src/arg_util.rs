use vstd::prelude::*;

use crate::text::text_eq;

verus! {

/// A text that names none of the variants of a textual enumeration; it says
/// which texts are expected.
#[derive(Debug)]
pub struct UnknownVariant {
    pub expected: String,
}

/// The model of token to connect to.
#[derive(Clone, Copy, Debug, PartialEq, Eq, Structural)]
pub enum DeviceModel {
    Pro,
    Storage,
}

/// The text of a model.
pub open spec fn model_text(m: DeviceModel) -> Seq<char> {
    match m {
        DeviceModel::Pro => seq!['p', 'r', 'o'],
        DeviceModel::Storage => seq!['s', 't', 'o', 'r', 'a', 'g', 'e'],
    }
}

/// The model whose text is `s`, if there is one.
pub open spec fn parse_model(s: Seq<char>) -> Option<DeviceModel> {
    if s == model_text(DeviceModel::Pro) {
        Some(DeviceModel::Pro)
    } else if s == model_text(DeviceModel::Storage) {
        Some(DeviceModel::Storage)
    } else {
        None
    }
}

/// The explanation given for a text that names no model.
pub open spec fn unknown_model_text() -> Seq<char> {
    "expected one of pro, storage"@
}

impl DeviceModel {
    /// Every model, in declaration order.
    pub fn all_variants() -> (r: [DeviceModel; 2])
        ensures
            r@ == seq![DeviceModel::Pro, DeviceModel::Storage],
    {
        [DeviceModel::Pro, DeviceModel::Storage]
    }

    /// The texts of every model, in declaration order.
    pub fn all_str() -> (r: [&'static str; 2])
        ensures
            r@.len() == 2,
            r@[0]@ == model_text(DeviceModel::Pro),
            r@[1]@ == model_text(DeviceModel::Storage),
    {
        proof {
            reveal_strlit("pro");
            reveal_strlit("storage");
        }
        ["pro", "storage"]
    }

    /// The text of the model.
    pub fn as_ref(&self) -> (r: &'static str)
        ensures
            r@ == model_text(*self),
    {
        proof {
            reveal_strlit("pro");
            reveal_strlit("storage");
        }
        match self {
            DeviceModel::Pro => "pro",
            DeviceModel::Storage => "storage",
        }
    }

    /// Parses the text of a model; any other text is refused.
    pub fn from_str(s: &str) -> (r: Result<DeviceModel, UnknownVariant>)
        ensures
            match r {
                Ok(m) => parse_model(s@) == Some(m),
                Err(e) => parse_model(s@).is_none() && e.expected@ == unknown_model_text(),
            },
    {
        proof {
            reveal_strlit("expected one of pro, storage");
        }
        if text_eq(s, DeviceModel::Pro.as_ref()) {
            Ok(DeviceModel::Pro)
        } else if text_eq(s, DeviceModel::Storage.as_ref()) {
            Ok(DeviceModel::Storage)
        } else {
            Err(UnknownVariant { expected: "expected one of pro, storage".to_owned() })
        }
    }
}

/// A textual enumeration with three variants, one of which reads as a digit.
#[derive(Clone, Copy, Debug, PartialEq, Eq, Structural)]
pub enum Command {
    Var1,
    Var2,
    Var3,
}

/// The text of a variant of `Command`.
pub open spec fn command_text(c: Command) -> Seq<char> {
    match c {
        Command::Var1 => seq!['v', 'a', 'r', '1'],
        Command::Var2 => seq!['2'],
        Command::Var3 => seq!['c', 'r', 'a', 'z', 'y'],
    }
}

impl Command {
    /// Every variant, in declaration order.
    pub fn all_variants() -> (r: [Command; 3])
        ensures
            r@ == seq![Command::Var1, Command::Var2, Command::Var3],
    {
        [Command::Var1, Command::Var2, Command::Var3]
    }

    /// The text of the variant.
    pub fn as_ref(&self) -> (r: &'static str)
        ensures
            r@ == command_text(*self),
    {
        proof {
            reveal_strlit("var1");
            reveal_strlit("2");
            reveal_strlit("crazy");
        }
        match self {
            Command::Var1 => "var1",
            Command::Var2 => "2",
            Command::Var3 => "crazy",
        }
    }
}

/// The settings that the command line gives explicitly.
#[derive(Clone, Copy, Debug, PartialEq, Eq, Structural)]
pub struct Args {
    /// The model asked for, if any.
    pub model: Option<DeviceModel>,
    /// Whether the cache is to be bypassed.
    pub no_cache: bool,
    /// How often verbose output was asked for.
    pub verbose: u8,
}

} // verus!
