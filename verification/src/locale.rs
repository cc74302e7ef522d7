//! Interface language: follow the system, or Chinese or English explicitly.

use vstd::prelude::*;
use crate::text::starts_with;

verus! {

/// The language choice of the user.
#[derive(Clone, Copy, Debug, PartialEq, Eq, Structural)]
pub enum AppLanguage {
    System,
    Chinese,
    English,
}

/// Locale of the interface for a detected system locale: any `zh*` locale is
/// Chinese, any other is English, and an undetectable one falls back to the
/// default language, Chinese.
pub open spec fn locale_for(locale: Option<Seq<char>>) -> Seq<char> {
    match locale {
        Some(l) => if l.len() >= 2 && l.subrange(0, 2) == "zh"@ {
            "zh-CN"@
        } else {
            "en"@
        },
        None => "zh-CN"@,
    }
}

/// The optional text, as characters.
pub open spec fn opt_chars(s: Option<&str>) -> Option<Seq<char>> {
    match s {
        Some(t) => Some(t@),
        None => None,
    }
}

/// Maps a system locale to a supported interface locale (see [`locale_for`]).
pub fn map_system_locale(locale: Option<&str>) -> (r: &'static str)
    ensures
        r@ == locale_for(opt_chars(locale)),
{
    proof {
        reveal_strlit("zh");
    }
    match locale {
        Some(l) => if starts_with(l, "zh") {
            "zh-CN"
        } else {
            "en"
        },
        None => "zh-CN",
    }
}

/// The system locale through `sys_locale::get_locale`; it depends on the
/// environment of the process, so nothing is promised of it.
#[verifier::external_body]
fn system_locale() -> Option<String> {
    sys_locale::get_locale()
}

/// Sets the process-wide interface locale through `rust_i18n::set_locale`.
#[verifier::external_body]
fn set_interface_locale(locale: &str) {
    rust_i18n::set_locale(locale)
}

/// Interface locale for the system's locale (see [`map_system_locale`]).
pub fn detect_system_locale() -> (r: &'static str)
    ensures
        r@ == "zh-CN"@ || r@ == "en"@,
{
    let detected = system_locale();
    match &detected {
        Some(l) => map_system_locale(Some(l.as_str())),
        None => map_system_locale(None),
    }
}

impl AppLanguage {
    /// The locale this choice stands for; `None` means the system's.
    pub open spec fn fixed_locale(self) -> Option<Seq<char>> {
        match self {
            AppLanguage::System => None,
            AppLanguage::Chinese => Some("zh-CN"@),
            AppLanguage::English => Some("en"@),
        }
    }

    /// The locale code to apply for this choice.
    pub fn locale_code(self) -> (r: &'static str)
        ensures
            self.fixed_locale() matches Some(l) ==> r@ == l,
            self.fixed_locale() is None ==> (r@ == "zh-CN"@ || r@ == "en"@),
    {
        match self {
            AppLanguage::System => detect_system_locale(),
            AppLanguage::Chinese => "zh-CN",
            AppLanguage::English => "en",
        }
    }

    /// Makes this choice the interface language of the process.
    pub fn apply(self) {
        set_interface_locale(self.locale_code());
    }
}

} // verus!
