//! Constants that an expression folds to, and their truthiness.

use crate::text::str_eq;
use vstd::prelude::*;

verus! {

/// The constant that an expression denotes, where it denotes one without
/// being evaluated. An expression that folds to no `StaticValue` is unknown:
/// it is never taken for falsy.
#[derive(Debug)]
pub enum StaticValue {
    /// `true` or `false`.
    Boolean(bool),
    /// `null`.
    Null,
    /// `undefined`.
    Undefined,
    /// A number literal, as it is written in the source.
    Number(String),
    /// A big integer literal, as it is written in the source, suffix included.
    BigInt(String),
    /// A string: the text between the quotes of a string literal, or the
    /// only chunk of a template without substitutions.
    String(String),
    /// The template that holds nothing between its back ticks.
    EmptyString,
}

impl StaticValue {
    /// The text of the value: what the source holds for it, without the
    /// quotes of a string.
    pub open spec fn spec_text(&self) -> Seq<char> {
        match self {
            StaticValue::Boolean(value) => if *value {
                "true"@
            } else {
                "false"@
            },
            StaticValue::Null => "null"@,
            StaticValue::Undefined => "undefined"@,
            StaticValue::Number(text) => text@,
            StaticValue::BigInt(text) => text@,
            StaticValue::String(text) => text@,
            StaticValue::EmptyString => Seq::empty(),
        }
    }

    /// Truthiness at the level of the literal: `false`, `null`, `undefined`,
    /// the number written `0`, the big integer written `0n` and the string
    /// without characters are falsy, every other value is not.
    pub open spec fn spec_is_falsy(&self) -> bool {
        match self {
            StaticValue::Boolean(value) => !*value,
            StaticValue::Null | StaticValue::Undefined | StaticValue::EmptyString => true,
            StaticValue::Number(text) => text@ == "0"@,
            StaticValue::BigInt(text) => text@ == "0n"@,
            StaticValue::String(text) => text@.len() == 0,
        }
    }

    #[verifier::when_used_as_spec(spec_is_falsy)]
    pub fn is_falsy(&self) -> (falsy: bool)
        ensures
            falsy == self.spec_is_falsy(),
    {
        match self {
            StaticValue::Boolean(value) => !*value,
            StaticValue::Null | StaticValue::Undefined | StaticValue::EmptyString => true,
            StaticValue::Number(text) => str_eq(text.as_str(), "0"),
            StaticValue::BigInt(text) => str_eq(text.as_str(), "0n"),
            StaticValue::String(text) => text.as_str().is_empty(),
        }
    }

    pub fn text(&self) -> (text: &str)
        ensures
            text@ == self.spec_text(),
    {
        match self {
            StaticValue::Boolean(value) => if *value {
                "true"
            } else {
                "false"
            },
            StaticValue::Null => "null",
            StaticValue::Undefined => "undefined",
            StaticValue::Number(text) => text.as_str(),
            StaticValue::BigInt(text) => text.as_str(),
            StaticValue::String(text) => text.as_str(),
            StaticValue::EmptyString => {
                proof {
                    reveal_strlit("");
                }
                ""
            },
        }
    }

    /// Whether the value stands for "no": it is falsy, or its text is `false`,
    /// as in the attribute `aria-hidden="false"`.
    pub open spec fn spec_denies(&self) -> bool {
        self.spec_is_falsy() || self.spec_text() == "false"@
    }

    #[verifier::when_used_as_spec(spec_denies)]
    pub fn denies(&self) -> (no: bool)
        ensures
            no == self.spec_denies(),
    {
        self.is_falsy() || str_eq(self.text(), "false")
    }
}

/// The constants that are falsy: the string without characters in both of
/// its forms, the number `0`, the big integer `0n`, `false`, `null` and
/// `undefined`. A string with characters is not, whatever it reads, yet `false`
/// and the string that reads `false` both deny.
pub proof fn lemma_falsy_constants(value: StaticValue)
    ensures
        value matches StaticValue::String(text) ==> (value.spec_is_falsy() <==> text@.len() == 0),
        value matches StaticValue::Number(text) ==> (value.spec_is_falsy() <==> text@ == "0"@),
        value matches StaticValue::BigInt(text) ==> (value.spec_is_falsy() <==> text@ == "0n"@),
        value matches StaticValue::Boolean(truth) ==> (value.spec_is_falsy() <==> !truth),
        value is EmptyString || value is Null || value is Undefined ==> value.spec_is_falsy(),
        value.spec_is_falsy() ==> value.spec_denies(),
        value matches StaticValue::String(text) && text@ == "false"@ ==> value.spec_denies(),
{
}

} // verus!
