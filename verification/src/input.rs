//! What the user may name on the command line, and what they are told
//! where they name something else.

use vstd::prelude::*;
use crate::stack::{Kata, Language};
use crate::text::same_text;

verus! {

/// Whether a generation accepts the name for a stack.
pub open spec fn is_valid_language(language: Seq<char>) -> bool {
    language == "rust"@ || language == "ts"@ || language == "cs"@
}

/// Whether a generation accepts the name for a kind of exercise.
pub open spec fn is_valid_kata(kata: Seq<char>) -> bool {
    kata == "calculator"@ || kata == "dsa"@
}

/// What the user is told of a name that stands for no stack.
pub open spec fn invalid_language_text(language: Seq<char>) -> Seq<char> {
    "Invalid language: "@ + language + ". Supported languages are: rust, ts, cs"@
}

/// What the user is told of a name that stands for no kind of exercise.
pub open spec fn invalid_kata_text(kata: Seq<char>) -> Seq<char> {
    "Invalid kata: "@ + kata + ". Supported katas are: calculator, dsa"@
}

/// What validating the two names comes to: the stack and the kind, or what
/// the user is told, of the stack's name first.
pub open spec fn validated(language: Seq<char>, kata: Seq<char>) -> Result<
    (Language, Kata),
    Seq<char>,
> {
    if !is_valid_language(language) {
        Err(invalid_language_text(language))
    } else if !is_valid_kata(kata) {
        Err(invalid_kata_text(kata))
    } else {
        Ok((Language::named(language)->0, Kata::named(kata)->0))
    }
}

/// Every name that a generation accepts stands for a stack or a kind.
pub proof fn lemma_valid_names_are_known(name: Seq<char>)
    ensures
        is_valid_language(name) ==> Language::named(name) is Some,
        is_valid_kata(name) ==> Kata::named(name) is Some,
{
}

/// The stack that `language` names.
///
/// Fails, with what the user is told, unless the name is `rust`, `ts` or `cs`.
pub fn validate_language(language: &str) -> (r: Result<Language, String>)
    ensures
        match r {
            Ok(l) => is_valid_language(language@) && Language::named(language@) == Some(l),
            Err(message) => !is_valid_language(language@) && message@ == invalid_language_text(
                language@,
            ),
        },
{
    if !(same_text(language, "rust") || same_text(language, "ts") || same_text(language, "cs")) {
        let mut message = "Invalid language: ".to_owned();
        message.append(language);
        message.append(". Supported languages are: rust, ts, cs");
        return Err(message);
    }
    Ok(Language::from_str(language).unwrap())
}

/// The kind of exercise that `kata` names.
///
/// Fails, with what the user is told, unless the name is `calculator` or `dsa`.
pub fn validate_kata(kata: &str) -> (r: Result<Kata, String>)
    ensures
        match r {
            Ok(k) => is_valid_kata(kata@) && Kata::named(kata@) == Some(k),
            Err(message) => !is_valid_kata(kata@) && message@ == invalid_kata_text(kata@),
        },
{
    if !(same_text(kata, "calculator") || same_text(kata, "dsa")) {
        let mut message = "Invalid kata: ".to_owned();
        message.append(kata);
        message.append(". Supported katas are: calculator, dsa");
        return Err(message);
    }
    Ok(Kata::from_str(kata).unwrap())
}

/// The stack and the kind of exercise that the two names stand for.
///
/// Fails, with what the user is told, where one of them is not accepted; of
/// the stack's name first.
pub fn validate_generate_input(language: &str, kata: &str) -> (r: Result<(Language, Kata), String>)
    ensures
        match r {
            Ok(pair) => validated(language@, kata@) == Ok::<(Language, Kata), Seq<char>>(pair),
            Err(message) => validated(language@, kata@) == Err::<(Language, Kata), Seq<char>>(
                message@,
            ),
        },
{
    let l = match validate_language(language) {
        Ok(l) => l,
        Err(message) => {
            return Err(message);
        },
    };
    let k = match validate_kata(kata) {
        Ok(k) => k,
        Err(message) => {
            return Err(message);
        },
    };
    Ok((l, k))
}

} // verus!
