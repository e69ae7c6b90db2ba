//! Supported languages and what each one selects.

use vstd::prelude::*;
use vstd::string::*;

verus! {

/// A supported language of the responses.
#[derive(Clone, Copy, Debug, PartialEq, Eq, Structural)]
pub enum Language {
    CS,
    DE,
    EN,
    PL,
    SK,
}

/// Id of Prague, the principal city for Czech and English.
pub const PRAGUE_ID: u64 = 101_748_113;

/// Id of Berlin, the principal city for German.
pub const BERLIN_ID: u64 = 101_909_779;

/// Id of Warsaw, the principal city for Polish.
pub const WARSAW_ID: u64 = 101_752_777;

/// Id of Bratislava, the principal city for Slovak.
pub const BRATISLAVA_ID: u64 = 1_108_800_123;

/// Key under which a record stores its name in the language.
pub open spec fn name_key_of(language: Language) -> Seq<char> {
    match language {
        Language::CS => "cs"@,
        Language::DE => "de"@,
        Language::EN => "en"@,
        Language::PL => "pl"@,
        Language::SK => "sk"@,
    }
}

/// Country whose featured cities are listed first for the language.
pub open spec fn preferred_country_of(language: Language) -> Seq<char> {
    match language {
        Language::CS => "CZ"@,
        Language::DE => "DE"@,
        Language::EN => "CZ"@,
        Language::PL => "PL"@,
        Language::SK => "SK"@,
    }
}

/// Id of the city used when nothing else tells where the client is.
pub open spec fn default_city_of(language: Language) -> u64 {
    match language {
        Language::CS => PRAGUE_ID,
        Language::DE => BERLIN_ID,
        Language::EN => PRAGUE_ID,
        Language::PL => WARSAW_ID,
        Language::SK => BRATISLAVA_ID,
    }
}

impl Language {
    /// Key under which a record stores its name in this language.
    pub fn name_key(self) -> (r: String)
        ensures
            r@ == name_key_of(self),
    {
        let key = match self {
            Language::CS => "cs",
            Language::DE => "de",
            Language::EN => "en",
            Language::PL => "pl",
            Language::SK => "sk",
        };
        String::from_str(key)
    }

    /// Country code whose featured cities come first for this language.
    pub fn preferred_country(self) -> (r: &'static str)
        ensures
            r@ == preferred_country_of(self),
    {
        match self {
            Language::CS => "CZ",
            Language::DE => "DE",
            Language::EN => "CZ",
            Language::PL => "PL",
            Language::SK => "SK",
        }
    }

    /// Id of this language's principal city.
    pub fn default_city_id(self) -> (r: u64)
        ensures
            r == default_city_of(self),
    {
        match self {
            Language::CS => PRAGUE_ID,
            Language::DE => BERLIN_ID,
            Language::EN => PRAGUE_ID,
            Language::PL => WARSAW_ID,
            Language::SK => BRATISLAVA_ID,
        }
    }
}

} // verus!
