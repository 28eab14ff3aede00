//! The two languages of the interface.
use vstd::prelude::*;

verus! {

/// The language the interface is shown in.
#[derive(Clone, Copy, Debug, PartialEq, Eq, Structural)]
pub enum Language {
    English,
    Chinese,
}

impl Language {
    pub fn is_chinese(self) -> (r: bool)
        ensures
            r == (self == Language::Chinese),
    {
        self == Language::Chinese
    }
}

/// The wording for `lang`, out of the English and the Chinese one.
pub open spec fn translated(lang: Language, en: Seq<char>, zh: Seq<char>) -> Seq<char> {
    match lang {
        Language::English => en,
        Language::Chinese => zh,
    }
}

/// Pick the wording for `lang`.
pub fn tr<'a>(lang: Language, en: &'a str, zh: &'a str) -> (r: &'a str)
    ensures
        r@ == translated(lang, en@, zh@),
{
    match lang {
        Language::English => en,
        Language::Chinese => zh,
    }
}

/// Each language has its own wording.
pub proof fn law_wording_is_that_of_the_language(en: Seq<char>, zh: Seq<char>)
    ensures
        translated(Language::English, en, zh) == en,
        translated(Language::Chinese, en, zh) == zh,
{
}

} // verus!
