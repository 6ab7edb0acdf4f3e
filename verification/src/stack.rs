//! The stacks a kata can be generated for and the kinds of exercise on offer.

use vstd::prelude::*;
use crate::text::same_text;

verus! {

/// A supported stack.
#[derive(Clone, Copy, Debug, PartialEq, Eq, Structural)]
pub enum Language {
    Rust,
    TS,
    CSharp,
}

impl Language {
    /// The name of the stack's directory, which is also the name a session records.
    pub open spec fn name(self) -> Seq<char> {
        match self {
            Language::CSharp => "csharp"@,
            Language::TS => "typescript"@,
            Language::Rust => "rust"@,
        }
    }

    /// The stack that a name or abbreviation stands for.
    pub open spec fn named(s: Seq<char>) -> Option<Language> {
        if s == "cs"@ || s == "csharp"@ {
            Some(Language::CSharp)
        } else if s == "ts"@ || s == "typescript"@ {
            Some(Language::TS)
        } else if s == "rust"@ {
            Some(Language::Rust)
        } else {
            None
        }
    }

    /// The name of the stack's directory.
    pub fn as_str(&self) -> (r: &'static str)
        ensures
            r@ == self.name(),
    {
        match self {
            Language::CSharp => "csharp",
            Language::TS => "typescript",
            Language::Rust => "rust",
        }
    }

    /// Whether the editor is told of the stack's workspaces.
    pub open spec fn is_linked_to_editor(self) -> bool {
        self == Language::Rust
    }

    /// Whether the editor is told of the stack's workspaces.
    pub fn supports_editor_link(&self) -> (r: bool)
        ensures
            r == self.is_linked_to_editor(),
    {
        match self {
            Language::Rust => true,
            _ => false,
        }
    }

    /// The stack that a name or abbreviation stands for, `None` where it
    /// stands for none.
    pub fn from_str(s: &str) -> (r: Option<Language>)
        ensures
            r == Language::named(s@),
    {
        if same_text(s, "cs") || same_text(s, "csharp") {
            Some(Language::CSharp)
        } else if same_text(s, "ts") || same_text(s, "typescript") {
            Some(Language::TS)
        } else if same_text(s, "rust") {
            Some(Language::Rust)
        } else {
            None
        }
    }
}

/// A kind of exercise.
#[derive(Clone, Copy, Debug, PartialEq, Eq, Structural)]
pub enum Kata {
    Calculator,
    Dsa,
}

impl Kata {
    /// The name of the kind's directory, which is also the name a session records.
    pub open spec fn name(self) -> Seq<char> {
        match self {
            Kata::Calculator => "calculator"@,
            Kata::Dsa => "dsa"@,
        }
    }

    /// The kind that a name stands for.
    pub open spec fn named(s: Seq<char>) -> Option<Kata> {
        if s == "calculator"@ {
            Some(Kata::Calculator)
        } else if s == "dsa"@ {
            Some(Kata::Dsa)
        } else {
            None
        }
    }

    /// The name of the kind's directory.
    pub fn as_str(&self) -> (r: &'static str)
        ensures
            r@ == self.name(),
    {
        match self {
            Kata::Calculator => "calculator",
            Kata::Dsa => "dsa",
        }
    }

    /// The kind that a name stands for, `None` where it stands for none.
    pub fn from_str(s: &str) -> (r: Option<Kata>)
        ensures
            r == Kata::named(s@),
    {
        if same_text(s, "calculator") {
            Some(Kata::Calculator)
        } else if same_text(s, "dsa") {
            Some(Kata::Dsa)
        } else {
            None
        }
    }
}

/// What a generation or a test run is asked for.
#[derive(Clone, Copy, Debug, PartialEq, Eq, Structural)]
pub struct KataInput {
    pub language: Language,
    pub kata: Kata,
}

/// Every stack is found again by its own name.
pub proof fn lemma_language_name_round_trip(language: Language)
    ensures
        Language::named(language.name()) == Some(language),
{
    reveal_strlit("cs");
    reveal_strlit("csharp");
    reveal_strlit("ts");
    reveal_strlit("typescript");
    reveal_strlit("rust");
    match language {
        Language::CSharp => {},
        Language::TS => {
            assert("typescript"@.len() == 10);
        },
        Language::Rust => {
            assert("rust"@.len() == 4);
        },
    }
}

/// Every kind of exercise is found again by its own name.
pub proof fn lemma_kata_name_round_trip(kata: Kata)
    ensures
        Kata::named(kata.name()) == Some(kata),
{
    reveal_strlit("calculator");
    reveal_strlit("dsa");
    match kata {
        Kata::Calculator => {},
        Kata::Dsa => {
            assert("dsa"@.len() == 3);
        },
    }
}

} // verus!
