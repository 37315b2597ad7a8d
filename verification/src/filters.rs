use vstd::prelude::*;

verus! {

use crate::errors::LinterWarning;
use crate::errors::warnings_view;
use crate::scan::rule_findings;
use crate::scan::scan_result;
use crate::scan::spans_well_formed;
use vstd::string::StringSliceAdditionalSpecFns;
use vstd::string::StringExecFns;

/// Locale-code equality, stated over the character sequences.
fn str_eq(a: &str, b: &str) -> (r: bool)
    ensures
        r == (a@ == b@),
{
    let sa: String = a.to_owned();
    let sb: String = b.to_owned();
    sa == sb
}

/// Whether one of the locale codes in `v` is `s`.
fn contains_str(v: &Vec<&'static str>, s: &str) -> (b: bool)
    ensures
        b == exists|i: int| 0 <= i < v@.len() && (#[trigger] v@[i])@ == s@,
{
    let mut k: usize = 0;
    while k < v.len()
        invariant
            k <= v@.len(),
            forall|i: int| 0 <= i < k as int ==> (#[trigger] v@[i])@ != s@,
        decreases v@.len() - k,
    {
        if str_eq(v[k], s) {
            return true;
        }
        k += 1;
    }
    false
}

// ---------------------------------------------------------------------------
// Curly apostrophe rule: a straight apostrophe should be a curly one.
// ---------------------------------------------------------------------------

pub open spec fn curly_message() -> Seq<char> {
    "Please use curly apostrophes."@
}

pub open spec fn curly_pattern() -> Seq<char> {
    "'"@
}

pub open spec fn curly_findings(text: Seq<char>) -> Seq<crate::errors::WarningView> {
    rule_findings(curly_message(), curly_pattern(), text)
}

pub struct CurlyApostropheFilter {}

impl CurlyApostropheFilter {
    pub fn locales(&self) -> (v: Vec<&'static str>)
        ensures
            v@.len() == 0,
    {
        Vec::new()
    }

    pub fn message(&self) -> (r: &'static str)
        ensures
            r@ == curly_message(),
    {
        "Please use curly apostrophes."
    }

    pub fn regex_pattern(&self) -> (r: &'static str)
        ensures
            r@ == curly_pattern(),
    {
        "'"
    }

    pub fn check(&self, text: &str) -> (r: Result<(), Vec<LinterWarning>>)
        ensures
            r is Ok <==> curly_findings(text@).len() == 0,
            r matches Err(ws) ==> warnings_view(ws@) == curly_findings(text@) && ws@.len() > 0
                && spans_well_formed(warnings_view(ws@), text.spec_bytes().len() as int),
    {
        scan_result(self.regex_pattern(), self.message(), text)
    }
}

// ---------------------------------------------------------------------------
// Ellipsis symbol rule: three dots should be the ellipsis character.
// ---------------------------------------------------------------------------

pub open spec fn ellipsis_message() -> Seq<char> {
    "Please use the ellipsis symbol (`…`) instead of three dots (`...`)."@
}

pub open spec fn ellipsis_pattern() -> Seq<char> {
    "\\.\\.\\."@
}

pub open spec fn ellipsis_findings(text: Seq<char>) -> Seq<crate::errors::WarningView> {
    rule_findings(ellipsis_message(), ellipsis_pattern(), text)
}

pub struct EllipsisSymbolFilter {}

impl EllipsisSymbolFilter {
    pub fn locales(&self) -> (v: Vec<&'static str>)
        ensures
            v@.len() == 0,
    {
        Vec::new()
    }

    pub fn message(&self) -> (r: &'static str)
        ensures
            r@ == ellipsis_message(),
    {
        "Please use the ellipsis symbol (`…`) instead of three dots (`...`)."
    }

    pub fn regex_pattern(&self) -> (r: &'static str)
        ensures
            r@ == ellipsis_pattern(),
    {
        "\\.\\.\\."
    }

    pub fn check(&self, text: &str) -> (r: Result<(), Vec<LinterWarning>>)
        ensures
            r is Ok <==> ellipsis_findings(text@).len() == 0,
            r matches Err(ws) ==> warnings_view(ws@) == ellipsis_findings(text@) && ws@.len() > 0
                && spans_well_formed(warnings_view(ws@), text.spec_bytes().len() as int),
    {
        scan_result(self.regex_pattern(), self.message(), text)
    }
}

// ---------------------------------------------------------------------------
// No-space-before-comma rule: a comma follows its word with no space between.
// ---------------------------------------------------------------------------

pub open spec fn comma_message() -> Seq<char> {
    "Please don't use a space before a comma."@
}

pub open spec fn comma_pattern() -> Seq<char> {
    "[\\s],"@
}

pub open spec fn comma_findings(text: Seq<char>) -> Seq<crate::errors::WarningView> {
    rule_findings(comma_message(), comma_pattern(), text)
}

pub struct NoSpaceBeforeCommaFilter {}

impl NoSpaceBeforeCommaFilter {
    pub fn locales(&self) -> (v: Vec<&'static str>)
        ensures
            v@.len() == 0,
    {
        Vec::new()
    }

    pub fn message(&self) -> (r: &'static str)
        ensures
            r@ == comma_message(),
    {
        "Please don't use a space before a comma."
    }

    pub fn regex_pattern(&self) -> (r: &'static str)
        ensures
            r@ == comma_pattern(),
    {
        "[\\s],"
    }

    pub fn check(&self, text: &str) -> (r: Result<(), Vec<LinterWarning>>)
        ensures
            r is Ok <==> comma_findings(text@).len() == 0,
            r matches Err(ws) ==> warnings_view(ws@) == comma_findings(text@) && ws@.len() > 0
                && spans_well_formed(warnings_view(ws@), text.spec_bytes().len() as int),
    {
        scan_result(self.regex_pattern(), self.message(), text)
    }
}

// ---------------------------------------------------------------------------
// Space-before-double-punctuation rule (French typography): `;`, `:`, `!`
// and `?` want a non-breaking space before them.
// ---------------------------------------------------------------------------

pub open spec fn space_message() -> Seq<char> {
    "Please use a non-breaking space before “double” ponctuation marks: `;`, `:`, `!`, `?`."@
}

pub open spec fn space_pattern() -> Seq<char> {
    "[^\u{a0}][;:!?]"@
}

pub open spec fn space_findings(text: Seq<char>) -> Seq<crate::errors::WarningView> {
    rule_findings(space_message(), space_pattern(), text)
}

pub struct SpaceBeforeDoublePonctuationFilter {}

impl SpaceBeforeDoublePonctuationFilter {
    pub fn locales(&self) -> (v: Vec<&'static str>)
        ensures
            v@.len() == 1,
            v@[0]@ == "fr"@,
    {
        let mut v: Vec<&'static str> = Vec::new();
        v.push("fr");
        v
    }

    pub fn message(&self) -> (r: &'static str)
        ensures
            r@ == space_message(),
    {
        "Please use a non-breaking space before “double” ponctuation marks: `;`, `:`, `!`, `?`."
    }

    pub fn regex_pattern(&self) -> (r: &'static str)
        ensures
            r@ == space_pattern(),
    {
        "[^\u{a0}][;:!?]"
    }

    pub fn check(&self, text: &str) -> (r: Result<(), Vec<LinterWarning>>)
        ensures
            r is Ok <==> space_findings(text@).len() == 0,
            r matches Err(ws) ==> warnings_view(ws@) == space_findings(text@) && ws@.len() > 0
                && spans_well_formed(warnings_view(ws@), text.spec_bytes().len() as int),
    {
        scan_result(self.regex_pattern(), self.message(), text)
    }
}

// ---------------------------------------------------------------------------
// Price rule: where the currency sign stands relative to the amount, and with
// which spacing, depends on the locale.
// ---------------------------------------------------------------------------

/// The locales for which the price rule has a message and a pattern.
pub open spec fn price_supported(locale: Seq<char>) -> bool {
    locale == "de"@ || locale == "en"@ || locale == "es"@ || locale == "fr"@ || locale == "it"@
}

/// The locales the price rule declares itself applicable to. The rule also
/// knows Italian conventions, but does not list "it", so the locale gate
/// never activates it there.
pub open spec fn price_locales(locale: Seq<char>) -> bool {
    locale == "de"@ || locale == "en"@ || locale == "es"@ || locale == "fr"@
}

pub open spec fn price_message(locale: Seq<char>) -> Seq<char> {
    if locale == "de"@ || locale == "es"@ || locale == "fr"@ {
        "The currency sign should be written after the amount and a non-breaking space."@
    } else if locale == "en"@ {
        "The currency sign should be written before the amount without space."@
    } else if locale == "it"@ {
        "The currency sign should be written before the amount and a non-breaking space."@
    } else {
        ""@
    }
}

pub open spec fn price_currencies() -> Seq<char> {
    "$¢£¤¥֏؋৲৳৻૱௹฿₠₡₢₣₤₥₦₧₨₩₪₫€₭₮₯₰₱₲₳₴₵₶₷₸₹₺₽﹩＄￠￡￥￦"@
}

/// The price pattern matches an amount and a currency sign combined in a way
/// the locale's typography rejects:
/// - "de", "es", "fr": digits, then at most one character that is not a
///   non-breaking space, then a sign; or a sign, then optional whitespace,
///   then digits.
/// - "en": digits, then optional whitespace, then a sign; or a sign, then
///   one whitespace character, then digits.
/// - "it": digits, then optional whitespace, then a sign; or a sign, then at
///   most one character that is not a non-breaking space, then digits.
pub open spec fn price_pattern(locale: Seq<char>) -> Seq<char> {
    if locale == "de"@ || locale == "es"@ || locale == "fr"@ {
        "([\\d]+[^\u{a0}]?["@ + price_currencies() + "]{1}|["@ + price_currencies()
            + "]{1}[\\s]?[\\d]+)"@
    } else if locale == "en"@ {
        "([\\d]+[\\s]?["@ + price_currencies() + "]{1}|["@ + price_currencies()
            + "]{1}[\\s][\\d]+)"@
    } else if locale == "it"@ {
        "([\\d]+[\\s]?["@ + price_currencies() + "]{1}|["@ + price_currencies()
            + "]{1}[^\u{a0}]?[\\d]+)"@
    } else {
        ""@
    }
}

/// The price rule's findings. A locale the rule has no pattern for yields
/// nothing: the rule stays neutral instead of failing.
pub open spec fn price_findings(locale: Seq<char>, text: Seq<char>) -> Seq<
    crate::errors::WarningView,
> {
    if price_supported(locale) {
        rule_findings(price_message(locale), price_pattern(locale), text)
    } else {
        Seq::empty()
    }
}

pub struct PriceFilter {
    pub locale: String,
}

impl PriceFilter {
    fn currencies(&self) -> (r: &'static str)
        ensures
            r@ == price_currencies(),
    {
        "$¢£¤¥֏؋৲৳৻૱௹฿₠₡₢₣₤₥₦₧₨₩₪₫€₭₮₯₰₱₲₳₴₵₶₷₸₹₺₽﹩＄￠￡￥￦"
    }

    pub fn locales(&self) -> (v: Vec<&'static str>)
        ensures
            v@.len() == 4,
            v@[0]@ == "de"@,
            v@[1]@ == "en"@,
            v@[2]@ == "es"@,
            v@[3]@ == "fr"@,
    {
        let mut v: Vec<&'static str> = Vec::new();
        v.push("de");
        v.push("en");
        v.push("es");
        v.push("fr");
        v
    }

    /// The message for a supported locale; `None` keeps the rule neutral for
    /// any other locale.
    pub fn message(&self) -> (r: Option<&'static str>)
        ensures
            match r {
                Some(m) => price_supported(self.locale@) && m@ == price_message(self.locale@),
                None => !price_supported(self.locale@),
            },
    {
        let l = self.locale.as_str();
        if str_eq(l, "de") || str_eq(l, "es") || str_eq(l, "fr") {
            Some("The currency sign should be written after the amount and a non-breaking space.")
        } else if str_eq(l, "en") {
            Some("The currency sign should be written before the amount without space.")
        } else if str_eq(l, "it") {
            Some("The currency sign should be written before the amount and a non-breaking space.")
        } else {
            None
        }
    }

    /// The pattern for a supported locale, assembled around the currency sign
    /// class; `None` keeps the rule neutral for any other locale.
    pub fn regex_pattern(&self) -> (r: Option<String>)
        ensures
            match r {
                Some(p) => price_supported(self.locale@) && p@ == price_pattern(self.locale@),
                None => !price_supported(self.locale@),
            },
    {
        let l = self.locale.as_str();
        if str_eq(l, "de") || str_eq(l, "es") || str_eq(l, "fr") {
            Some(
                "([\\d]+[^\u{a0}]?[".to_owned().concat(self.currencies()).concat(
                    "]{1}|[",
                ).concat(self.currencies()).concat("]{1}[\\s]?[\\d]+)"),
            )
        } else if str_eq(l, "en") {
            Some(
                "([\\d]+[\\s]?[".to_owned().concat(self.currencies()).concat("]{1}|[").concat(
                    self.currencies(),
                ).concat("]{1}[\\s][\\d]+)"),
            )
        } else if str_eq(l, "it") {
            Some(
                "([\\d]+[\\s]?[".to_owned().concat(self.currencies()).concat("]{1}|[").concat(
                    self.currencies(),
                ).concat("]{1}[^\u{a0}]?[\\d]+)"),
            )
        } else {
            None
        }
    }

    pub fn check(&self, text: &str) -> (r: Result<(), Vec<LinterWarning>>)
        ensures
            r is Ok <==> price_findings(self.locale@, text@).len() == 0,
            r matches Err(ws) ==> warnings_view(ws@) == price_findings(self.locale@, text@)
                && ws@.len() > 0 && spans_well_formed(
                warnings_view(ws@),
                text.spec_bytes().len() as int,
            ),
    {
        let message = self.message();
        let pattern = self.regex_pattern();
        match (message, pattern) {
            (Some(m), Some(p)) => scan_result(p.as_str(), m, text),
            _ => Ok(()),
        }
    }
}

// ---------------------------------------------------------------------------
// Quotation marks rule: which quotation glyphs a locale wants, and whether
// spaces belong inside them.
// ---------------------------------------------------------------------------

/// The locales for which the quotes rule has a message and a pattern; the
/// same set it declares itself applicable to.
pub open spec fn quotes_supported(locale: Seq<char>) -> bool {
    locale == "de"@ || locale == "en"@ || locale == "es"@ || locale == "fr"@ || locale == "it"@
}

pub open spec fn quotes_message(locale: Seq<char>) -> Seq<char> {
    if locale == "de"@ {
        "Please use german quotation marks without spaces."@
    } else if locale == "en"@ {
        "Please use english double quotation marks without spaces."@
    } else if locale == "es"@ {
        "Please use french quotation marks without spaces."@
    } else if locale == "fr"@ {
        "Please use french quotation marks with non-breaking spaces."@
    } else if locale == "it"@ {
        "Please use french quotation marks without spaces."@
    } else {
        ""@
    }
}

/// Each locale's pattern matches every quotation style the locale rejects:
/// straight quotes everywhere, plus the accepted glyphs with the wrong
/// spacing and the glyphs of the other conventions.
pub open spec fn quotes_pattern(locale: Seq<char>) -> Seq<char> {
    if locale == "de"@ {
        "(\".+\")|(«.+»)|(“.+”)|(„[\\s].+[\\s]“)"@
    } else if locale == "en"@ {
        "(\".+\")|(«.+»)|(“[\\s].+[\\s]”)|(„.+“)"@
    } else if locale == "es"@ {
        "(\".+\")|(«[\\s].+[\\s]»)|(“.+”)|(„.+“)"@
    } else if locale == "fr"@ {
        "(\".+\")|(«[^\u{a0}].+[^\u{a0}]»)|(“.+”)|(„.+“)"@
    } else if locale == "it"@ {
        "(\".+\")|(«\\s.+\\s»)|(“.+”)|(„.+“)"@
    } else {
        ""@
    }
}

/// The quotes rule's findings. A locale the rule has no pattern for yields
/// nothing: the rule stays neutral instead of failing.
pub open spec fn quotes_findings(locale: Seq<char>, text: Seq<char>) -> Seq<
    crate::errors::WarningView,
> {
    if quotes_supported(locale) {
        rule_findings(quotes_message(locale), quotes_pattern(locale), text)
    } else {
        Seq::empty()
    }
}

pub struct QuotesFilter {
    pub locale: String,
}

impl QuotesFilter {
    pub fn locales(&self) -> (v: Vec<&'static str>)
        ensures
            v@.len() == 5,
            v@[0]@ == "de"@,
            v@[1]@ == "en"@,
            v@[2]@ == "es"@,
            v@[3]@ == "fr"@,
            v@[4]@ == "it"@,
    {
        let mut v: Vec<&'static str> = Vec::new();
        v.push("de");
        v.push("en");
        v.push("es");
        v.push("fr");
        v.push("it");
        v
    }

    /// The message for a supported locale; `None` keeps the rule neutral for
    /// any other locale.
    pub fn message(&self) -> (r: Option<&'static str>)
        ensures
            match r {
                Some(m) => quotes_supported(self.locale@) && m@ == quotes_message(self.locale@),
                None => !quotes_supported(self.locale@),
            },
    {
        let l = self.locale.as_str();
        if str_eq(l, "de") {
            Some("Please use german quotation marks without spaces.")
        } else if str_eq(l, "en") {
            Some("Please use english double quotation marks without spaces.")
        } else if str_eq(l, "es") {
            Some("Please use french quotation marks without spaces.")
        } else if str_eq(l, "fr") {
            Some("Please use french quotation marks with non-breaking spaces.")
        } else if str_eq(l, "it") {
            Some("Please use french quotation marks without spaces.")
        } else {
            None
        }
    }

    /// The pattern for a supported locale; `None` keeps the rule neutral for
    /// any other locale.
    pub fn regex_pattern(&self) -> (r: Option<&'static str>)
        ensures
            match r {
                Some(p) => quotes_supported(self.locale@) && p@ == quotes_pattern(self.locale@),
                None => !quotes_supported(self.locale@),
            },
    {
        let l = self.locale.as_str();
        if str_eq(l, "de") {
            Some("(\".+\")|(«.+»)|(“.+”)|(„[\\s].+[\\s]“)")
        } else if str_eq(l, "en") {
            Some("(\".+\")|(«.+»)|(“[\\s].+[\\s]”)|(„.+“)")
        } else if str_eq(l, "es") {
            Some("(\".+\")|(«[\\s].+[\\s]»)|(“.+”)|(„.+“)")
        } else if str_eq(l, "fr") {
            Some("(\".+\")|(«[^\u{a0}].+[^\u{a0}]»)|(“.+”)|(„.+“)")
        } else if str_eq(l, "it") {
            Some("(\".+\")|(«\\s.+\\s»)|(“.+”)|(„.+“)")
        } else {
            None
        }
    }

    pub fn check(&self, text: &str) -> (r: Result<(), Vec<LinterWarning>>)
        ensures
            r is Ok <==> quotes_findings(self.locale@, text@).len() == 0,
            r matches Err(ws) ==> warnings_view(ws@) == quotes_findings(self.locale@, text@)
                && ws@.len() > 0 && spans_well_formed(
                warnings_view(ws@),
                text.spec_bytes().len() as int,
            ),
    {
        let message = self.message();
        let pattern = self.regex_pattern();
        match (message, pattern) {
            (Some(m), Some(p)) => scan_result(p, m, text),
            _ => Ok(()),
        }
    }
}

// ---------------------------------------------------------------------------
// The shared rule interface: every rule exposes its applicable locales and a
// locale-conditioned check, so the catalog can hold them in one ordered
// collection and the aggregator can drive them uniformly.
// ---------------------------------------------------------------------------

pub enum LinterFilter {
    CurlyApostrophe(CurlyApostropheFilter),
    EllipsisSymbol(EllipsisSymbolFilter),
    NoSpaceBeforeComma(NoSpaceBeforeCommaFilter),
    Price(PriceFilter),
    Quotes(QuotesFilter),
    SpaceBeforeDoublePonctuation(SpaceBeforeDoublePonctuationFilter),
}

impl LinterFilter {
    /// Whether this rule is active for the given locale: its applicable
    /// locale set is empty (the rule is locale-invariant) or lists the locale.
    pub open spec fn spec_active(&self, locale: Seq<char>) -> bool {
        match self {
            LinterFilter::CurlyApostrophe(_) => true,
            LinterFilter::EllipsisSymbol(_) => true,
            LinterFilter::NoSpaceBeforeComma(_) => true,
            LinterFilter::Price(_) => price_locales(locale),
            LinterFilter::Quotes(_) => quotes_supported(locale),
            LinterFilter::SpaceBeforeDoublePonctuation(_) => locale == "fr"@,
        }
    }

    /// The findings this rule reports over a text, for the locale it carries.
    pub open spec fn spec_findings(&self, text: Seq<char>) -> Seq<crate::errors::WarningView> {
        match self {
            LinterFilter::CurlyApostrophe(_) => curly_findings(text),
            LinterFilter::EllipsisSymbol(_) => ellipsis_findings(text),
            LinterFilter::NoSpaceBeforeComma(_) => comma_findings(text),
            LinterFilter::Price(f) => price_findings(f.locale@, text),
            LinterFilter::Quotes(f) => quotes_findings(f.locale@, text),
            LinterFilter::SpaceBeforeDoublePonctuation(_) => space_findings(text),
        }
    }

    /// What the rule's declared locale list holds, variant by variant.
    pub open spec fn locales_listed(&self, ls: Seq<&'static str>) -> bool {
        match self {
            LinterFilter::CurlyApostrophe(_) => ls.len() == 0,
            LinterFilter::EllipsisSymbol(_) => ls.len() == 0,
            LinterFilter::NoSpaceBeforeComma(_) => ls.len() == 0,
            LinterFilter::Price(_) => ls.len() == 4 && ls[0]@ == "de"@ && ls[1]@ == "en"@ && ls[2]@
                == "es"@ && ls[3]@ == "fr"@,
            LinterFilter::Quotes(_) => ls.len() == 5 && ls[0]@ == "de"@ && ls[1]@ == "en"@ && ls[2]@
                == "es"@ && ls[3]@ == "fr"@ && ls[4]@ == "it"@,
            LinterFilter::SpaceBeforeDoublePonctuation(_) => ls.len() == 1 && ls[0]@ == "fr"@,
        }
    }

    pub fn locales(&self) -> (v: Vec<&'static str>)
        ensures
            self.locales_listed(v@),
    {
        match self {
            LinterFilter::CurlyApostrophe(f) => f.locales(),
            LinterFilter::EllipsisSymbol(f) => f.locales(),
            LinterFilter::NoSpaceBeforeComma(f) => f.locales(),
            LinterFilter::Price(f) => f.locales(),
            LinterFilter::Quotes(f) => f.locales(),
            LinterFilter::SpaceBeforeDoublePonctuation(f) => f.locales(),
        }
    }

    /// The locale gate's test for one rule.
    pub fn active(&self, locale: &str) -> (b: bool)
        ensures
            b == self.spec_active(locale@),
    {
        let ls = self.locales();
        if ls.len() == 0 {
            true
        } else {
            contains_str(&ls, locale)
        }
    }

    pub fn check(&self, text: &str) -> (r: Result<(), Vec<LinterWarning>>)
        ensures
            r is Ok <==> self.spec_findings(text@).len() == 0,
            r matches Err(ws) ==> warnings_view(ws@) == self.spec_findings(text@) && ws@.len() > 0
                && spans_well_formed(warnings_view(ws@), text.spec_bytes().len() as int),
    {
        match self {
            LinterFilter::CurlyApostrophe(f) => f.check(text),
            LinterFilter::EllipsisSymbol(f) => f.check(text),
            LinterFilter::NoSpaceBeforeComma(f) => f.check(text),
            LinterFilter::Price(f) => f.check(text),
            LinterFilter::Quotes(f) => f.check(text),
            LinterFilter::SpaceBeforeDoublePonctuation(f) => f.check(text),
        }
    }
}

} // verus!
