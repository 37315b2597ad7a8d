use vstd::prelude::*;

pub mod errors;
pub mod filters;
pub mod scan;

verus! {

use crate::errors::LinterWarning;
use crate::errors::WarningView;
use crate::errors::warnings_view;
use crate::filters::CurlyApostropheFilter;
use crate::filters::EllipsisSymbolFilter;
use crate::filters::LinterFilter;
use crate::filters::NoSpaceBeforeCommaFilter;
use crate::filters::PriceFilter;
use crate::filters::QuotesFilter;
use crate::filters::SpaceBeforeDoublePonctuationFilter;
use crate::filters::comma_findings;
use crate::filters::comma_message;
use crate::filters::comma_pattern;
use crate::filters::curly_findings;
use crate::filters::curly_message;
use crate::filters::curly_pattern;
use crate::filters::ellipsis_findings;
use crate::filters::ellipsis_message;
use crate::filters::ellipsis_pattern;
use crate::filters::price_findings;
use crate::filters::price_locales;
use crate::filters::price_message;
use crate::filters::price_pattern;
use crate::filters::quotes_findings;
use crate::filters::quotes_message;
use crate::filters::quotes_pattern;
use crate::filters::quotes_supported;
use crate::filters::space_findings;
use crate::filters::space_message;
use crate::filters::space_pattern;
use crate::scan::match_spans;
use crate::scan::findings_of;
use crate::scan::pattern_accepted;
use vstd::string::StringSliceAdditionalSpecFns;

// ---------------------------------------------------------------------------
// The catalog as a mathematical object: six rules, in a fixed declaration
// order that governs how findings are merged.
// ---------------------------------------------------------------------------

/// Whether the rule at catalog position `j` is active for the locale.
pub open spec fn rule_active(locale: Seq<char>, j: int) -> bool {
    if j == 3 {
        price_locales(locale)
    } else if j == 4 {
        quotes_supported(locale)
    } else if j == 5 {
        locale == "fr"@
    } else {
        true
    }
}

/// The message of the rule at catalog position `j`, for the locale.
pub open spec fn rule_message(locale: Seq<char>, j: int) -> Seq<char> {
    if j == 0 {
        curly_message()
    } else if j == 1 {
        ellipsis_message()
    } else if j == 2 {
        comma_message()
    } else if j == 3 {
        price_message(locale)
    } else if j == 4 {
        quotes_message(locale)
    } else {
        space_message()
    }
}

/// The pattern of the rule at catalog position `j`, for the locale.
pub open spec fn rule_pattern(locale: Seq<char>, j: int) -> Seq<char> {
    if j == 0 {
        curly_pattern()
    } else if j == 1 {
        ellipsis_pattern()
    } else if j == 2 {
        comma_pattern()
    } else if j == 3 {
        price_pattern(locale)
    } else if j == 4 {
        quotes_pattern(locale)
    } else {
        space_pattern()
    }
}

/// What the rule at catalog position `j` contributes to the aggregate: its
/// findings when it is active for the locale, nothing otherwise.
pub open spec fn rule_contribution(locale: Seq<char>, text: Seq<char>, j: int) -> Seq<WarningView> {
    if !rule_active(locale, j) {
        Seq::empty()
    } else if j == 0 {
        curly_findings(text)
    } else if j == 1 {
        ellipsis_findings(text)
    } else if j == 2 {
        comma_findings(text)
    } else if j == 3 {
        price_findings(locale, text)
    } else if j == 4 {
        quotes_findings(locale, text)
    } else {
        space_findings(text)
    }
}

/// The complete result of one check: every active rule's findings,
/// concatenated in catalog order.
pub open spec fn linter_findings(locale: Seq<char>, text: Seq<char>) -> Seq<WarningView> {
    rule_contribution(locale, text, 0) + rule_contribution(locale, text, 1) + rule_contribution(
        locale,
        text,
        2,
    ) + rule_contribution(locale, text, 3) + rule_contribution(locale, text, 4)
        + rule_contribution(locale, text, 5)
}

// ---------------------------------------------------------------------------
// Findings of a rule sequence, used to relate the executable loops to the
// model above.
// ---------------------------------------------------------------------------

/// The findings of the first `n` rules of `fs`, concatenated in order.
pub open spec fn seq_findings_upto(fs: Seq<LinterFilter>, text: Seq<char>, n: int) -> Seq<
    WarningView,
>
    decreases n,
{
    if n <= 0 {
        Seq::empty()
    } else {
        seq_findings_upto(fs, text, n - 1) + fs[n - 1].spec_findings(text)
    }
}

/// The findings of all rules of `fs`, concatenated in order.
pub open spec fn seq_findings(fs: Seq<LinterFilter>, text: Seq<char>) -> Seq<WarningView> {
    seq_findings_upto(fs, text, fs.len() as int)
}

/// The gated findings of the first `n` rules of `fs`: each active rule
/// contributes its findings, each inactive one nothing.
pub open spec fn gated_findings_upto(
    fs: Seq<LinterFilter>,
    locale: Seq<char>,
    text: Seq<char>,
    n: int,
) -> Seq<WarningView>
    decreases n,
{
    if n <= 0 {
        Seq::empty()
    } else {
        gated_findings_upto(fs, locale, text, n - 1) + (if fs[n - 1].spec_active(locale) {
            fs[n - 1].spec_findings(text)
        } else {
            Seq::empty()
        })
    }
}

/// The ordered subset of the first `n` catalog rules of `fs` that are active
/// for the locale.
pub open spec fn active_rules_upto(fs: Seq<LinterFilter>, locale: Seq<char>, n: int) -> Seq<
    LinterFilter,
>
    decreases n,
{
    if n <= 0 {
        Seq::empty()
    } else {
        active_rules_upto(fs, locale, n - 1) + (if fs[n - 1].spec_active(locale) {
            seq![fs[n - 1]]
        } else {
            Seq::empty()
        })
    }
}

/// What the locale gate's result holds: the three locale-invariant rules
/// always; then the price, quotes and spacing rules exactly where the locale
/// activates them, each built for this locale, all in catalog-declaration
/// order, and nothing else.
pub open spec fn active_catalog(locale: Seq<char>, v: Seq<LinterFilter>) -> bool {
    let np: int = if price_locales(locale) {
        1
    } else {
        0
    };
    let nq: int = if quotes_supported(locale) {
        1
    } else {
        0
    };
    let ns: int = if locale == "fr"@ {
        1
    } else {
        0
    };
    &&& v.len() == 3 + np + nq + ns
    &&& v[0] is CurlyApostrophe
    &&& v[1] is EllipsisSymbol
    &&& v[2] is NoSpaceBeforeComma
    &&& price_locales(locale) ==> (v[3] matches LinterFilter::Price(f) && f.locale@ == locale)
    &&& quotes_supported(locale) ==> (v[3 + np] matches LinterFilter::Quotes(f) && f.locale@
        == locale)
    &&& locale == "fr"@ ==> v[3 + np + nq] is SpaceBeforeDoublePonctuation
}

proof fn lemma_seq_findings_upto_push(fs: Seq<LinterFilter>, f: LinterFilter, text: Seq<char>, n: int)
    requires
        0 <= n <= fs.len(),
    ensures
        seq_findings_upto(fs.push(f), text, n) == seq_findings_upto(fs, text, n),
    decreases n,
{
    if n > 0 {
        lemma_seq_findings_upto_push(fs, f, text, n - 1);
        assert(fs.push(f)[n - 1] == fs[n - 1]);
    }
}

proof fn lemma_seq_findings_push(fs: Seq<LinterFilter>, f: LinterFilter, text: Seq<char>)
    ensures
        seq_findings(fs.push(f), text) == seq_findings(fs, text) + f.spec_findings(text),
{
    lemma_seq_findings_upto_push(fs, f, text, fs.len() as int);
    assert(fs.push(f)[fs.len() as int] == f);
}

/// For a sequence shaped like the catalog, the ordered active subset of all
/// six rules is exactly what the locale gate owes.
proof fn lemma_catalog_gate(cat: Seq<LinterFilter>, locale: Seq<char>)
    requires
        cat.len() == 6,
        cat[0] is CurlyApostrophe,
        cat[1] is EllipsisSymbol,
        cat[2] is NoSpaceBeforeComma,
        cat[3] matches LinterFilter::Price(f) && f.locale@ == locale,
        cat[4] matches LinterFilter::Quotes(f) && f.locale@ == locale,
        cat[5] is SpaceBeforeDoublePonctuation,
    ensures
        active_catalog(locale, active_rules_upto(cat, locale, 6)),
{
    assert(active_rules_upto(cat, locale, 0) == Seq::<LinterFilter>::empty());
    assert(active_rules_upto(cat, locale, 1) =~= seq![cat[0]]);
    assert(active_rules_upto(cat, locale, 2) =~= seq![cat[0], cat[1]]);
    assert(active_rules_upto(cat, locale, 3) =~= seq![cat[0], cat[1], cat[2]]);
    assert(active_rules_upto(cat, locale, 4) == active_rules_upto(cat, locale, 3) + (
    if price_locales(locale) {
        seq![cat[3]]
    } else {
        Seq::empty()
    }));
    assert(active_rules_upto(cat, locale, 5) == active_rules_upto(cat, locale, 4) + (
    if quotes_supported(locale) {
        seq![cat[4]]
    } else {
        Seq::empty()
    }));
    assert(active_rules_upto(cat, locale, 6) == active_rules_upto(cat, locale, 5) + (
    if locale == "fr"@ {
        seq![cat[5]]
    } else {
        Seq::empty()
    }));
}

/// For a sequence shaped like the catalog, the gated findings of all six
/// rules are exactly the aggregate model.
proof fn lemma_catalog_findings(cat: Seq<LinterFilter>, locale: Seq<char>, text: Seq<char>)
    requires
        cat.len() == 6,
        cat[0] is CurlyApostrophe,
        cat[1] is EllipsisSymbol,
        cat[2] is NoSpaceBeforeComma,
        cat[3] matches LinterFilter::Price(f) && f.locale@ == locale,
        cat[4] matches LinterFilter::Quotes(f) && f.locale@ == locale,
        cat[5] is SpaceBeforeDoublePonctuation,
    ensures
        gated_findings_upto(cat, locale, text, 6) == linter_findings(locale, text),
{
    assert(gated_findings_upto(cat, locale, text, 0) == Seq::<WarningView>::empty());
    assert(gated_findings_upto(cat, locale, text, 1) =~= rule_contribution(locale, text, 0));
    assert(gated_findings_upto(cat, locale, text, 2) == gated_findings_upto(cat, locale, text, 1)
        + rule_contribution(locale, text, 1));
    assert(gated_findings_upto(cat, locale, text, 3) == gated_findings_upto(cat, locale, text, 2)
        + rule_contribution(locale, text, 2));
    assert(gated_findings_upto(cat, locale, text, 4) == gated_findings_upto(cat, locale, text, 3)
        + rule_contribution(locale, text, 3));
    assert(gated_findings_upto(cat, locale, text, 5) == gated_findings_upto(cat, locale, text, 4)
        + rule_contribution(locale, text, 4));
    assert(gated_findings_upto(cat, locale, text, 6) == gated_findings_upto(cat, locale, text, 5)
        + rule_contribution(locale, text, 5));
}

// ---------------------------------------------------------------------------
// Laws of the aggregate model. Together with Linter::check's contract, which
// pins the returned list to `linter_findings`, they carry over to every call.
// ---------------------------------------------------------------------------

/// A text that matches no pattern of any rule active for the locale lints
/// clean: the aggregate findings are empty.
pub proof fn lemma_clean_without_matches(locale: Seq<char>, text: Seq<char>)
    requires
        forall|j: int|
            0 <= j < 6 && rule_active(locale, j) ==> match_spans(
                #[trigger] rule_pattern(locale, j),
                text,
            ).len() == 0,
    ensures
        linter_findings(locale, text).len() == 0,
{
    assert forall|j: int| 0 <= j < 6 implies rule_contribution(locale, text, j).len() == 0 by {
        assert(rule_active(locale, j) ==> match_spans(rule_pattern(locale, j), text).len() == 0);
    }
}

/// A text with exactly one match, against the pattern of one rule active for
/// the locale and against no other active rule's pattern, yields exactly one
/// finding: that rule's message for the locale, spanning the match's byte
/// bounds.
pub proof fn lemma_single_match_single_finding(locale: Seq<char>, text: Seq<char>, k: int)
    requires
        0 <= k < 6,
        rule_active(locale, k),
        pattern_accepted(rule_pattern(locale, k)),
        match_spans(rule_pattern(locale, k), text).len() == 1,
        forall|j: int|
            0 <= j < 6 && j != k && rule_active(locale, j) ==> match_spans(
                #[trigger] rule_pattern(locale, j),
                text,
            ).len() == 0,
    ensures
        linter_findings(locale, text).len() == 1,
        linter_findings(locale, text)[0].message == rule_message(locale, k),
        linter_findings(locale, text)[0].start == match_spans(rule_pattern(locale, k), text)[0].0
            as int,
        linter_findings(locale, text)[0].end == match_spans(rule_pattern(locale, k), text)[0].1
            as int,
{
    assert forall|j: int| 0 <= j < 6 && j != k implies rule_contribution(locale, text, j).len()
        == 0 by {
        assert(rule_active(locale, j) ==> match_spans(rule_pattern(locale, j), text).len() == 0);
    }
    assert(rule_contribution(locale, text, k) == findings_of(
        rule_message(locale, k),
        match_spans(rule_pattern(locale, k), text),
    ));
    assert(linter_findings(locale, text)[0] == rule_contribution(locale, text, k)[0]);
}

/// Findings keep catalog-declaration order: the aggregate is each rule's
/// contribution in catalog order, and within one rule the findings are the
/// rule's matches in left-to-right discovery order, each carrying the rule's
/// message for the locale.
pub proof fn lemma_catalog_order(locale: Seq<char>, text: Seq<char>)
    ensures
        linter_findings(locale, text) == rule_contribution(locale, text, 0) + rule_contribution(
            locale,
            text,
            1,
        ) + rule_contribution(locale, text, 2) + rule_contribution(locale, text, 3)
            + rule_contribution(locale, text, 4) + rule_contribution(locale, text, 5),
        forall|j: int|
            0 <= j < 6 && rule_active(locale, j) && pattern_accepted(rule_pattern(locale, j))
                ==> #[trigger] rule_contribution(locale, text, j) == findings_of(
                rule_message(locale, j),
                match_spans(rule_pattern(locale, j), text),
            ),
{
    assert forall|j: int|
        0 <= j < 6 && rule_active(locale, j) && pattern_accepted(
            rule_pattern(locale, j),
        ) implies #[trigger] rule_contribution(locale, text, j) == findings_of(
        rule_message(locale, j),
        match_spans(rule_pattern(locale, j), text),
    ) by {
        assert(rule_pattern(locale, j) == if j == 0 {
            curly_pattern()
        } else if j == 1 {
            ellipsis_pattern()
        } else if j == 2 {
            comma_pattern()
        } else if j == 3 {
            price_pattern(locale)
        } else if j == 4 {
            quotes_pattern(locale)
        } else {
            space_pattern()
        });
    }
}

/// Locale scoping: the spacing rule declares itself only for "fr", so for
/// any other locale it contributes no finding, whatever its pattern would
/// have matched there.
pub proof fn lemma_locale_scoping(locale: Seq<char>, text: Seq<char>)
    requires
        locale != "fr"@,
    ensures
        rule_contribution(locale, text, 5).len() == 0,
{
}

/// Repeated checks agree: the findings for a locale and a text are one
/// function of the pair, so any two lists that Linter::check's contract
/// allows for the same input are equal.
pub proof fn lemma_check_deterministic(
    locale: Seq<char>,
    text: Seq<char>,
    first: Seq<WarningView>,
    second: Seq<WarningView>,
)
    requires
        first == linter_findings(locale, text),
        second == linter_findings(locale, text),
    ensures
        first == second,
{
}

// ---------------------------------------------------------------------------
// The linter itself: locale fixed at construction, rules rebuilt on every
// check, findings aggregated in catalog order.
// ---------------------------------------------------------------------------

/// A style linter bound to one locale: it scans text for locale-specific
/// typographic violations and reports each with a message and a byte span.
pub struct Linter {
    locale: String,
}

impl Linter {
    /// The locale code this linter was built with.
    pub closed spec fn spec_locale(&self) -> Seq<char> {
        self.locale@
    }

    /// Builds a linter for the given locale code. Construction always
    /// succeeds; an unknown locale leaves only the locale-invariant rules
    /// active.
    pub fn new(locale: String) -> (r: Result<Linter, LinterWarning>)
        ensures
            r matches Ok(l) && l.spec_locale() == locale@,
    {
        Ok(Linter { locale })
    }

    /// The rule catalog: one instance of every known rule kind, each built
    /// for the requested locale, in the fixed declaration order.
    fn filters(&self, locale: &str) -> (v: Vec<LinterFilter>)
        ensures
            v@.len() == 6,
            v@[0] is CurlyApostrophe,
            v@[1] is EllipsisSymbol,
            v@[2] is NoSpaceBeforeComma,
            v@[3] matches LinterFilter::Price(f) && f.locale@ == locale@,
            v@[4] matches LinterFilter::Quotes(f) && f.locale@ == locale@,
            v@[5] is SpaceBeforeDoublePonctuation,
    {
        let mut v: Vec<LinterFilter> = Vec::new();
        v.push(LinterFilter::CurlyApostrophe(CurlyApostropheFilter {}));
        v.push(LinterFilter::EllipsisSymbol(EllipsisSymbolFilter {}));
        v.push(LinterFilter::NoSpaceBeforeComma(NoSpaceBeforeCommaFilter {}));
        v.push(LinterFilter::Price(PriceFilter { locale: locale.to_owned() }));
        v.push(LinterFilter::Quotes(QuotesFilter { locale: locale.to_owned() }));
        v.push(
            LinterFilter::SpaceBeforeDoublePonctuation(SpaceBeforeDoublePonctuationFilter {}),
        );
        v
    }

    /// The locale gate: the ordered subset of the catalog whose rules are
    /// active for the locale — exactly those whose declared locale list is
    /// empty or holds the locale, in catalog order. Running exactly these
    /// rules yields the aggregate model, whatever the text.
    fn active_filters(&self, locale: &str) -> (v: Vec<LinterFilter>)
        ensures
            active_catalog(locale@, v@),
            forall|text: Seq<char>| #[trigger] seq_findings(v@, text) == linter_findings(
                locale@,
                text,
            ),
    {
        let mut fs = self.filters(locale);
        let ghost cat: Seq<LinterFilter> = fs@;
        let mut out: Vec<LinterFilter> = Vec::new();
        while fs.len() > 0
            invariant
                fs@.len() <= cat.len(),
                fs@ == cat.subrange(cat.len() - fs@.len(), cat.len() as int),
                out@ == active_rules_upto(cat, locale@, cat.len() - fs@.len()),
                forall|text: Seq<char>| #[trigger] seq_findings(out@, text) == gated_findings_upto(
                    cat,
                    locale@,
                    text,
                    cat.len() - fs@.len(),
                ),
            decreases fs@.len(),
        {
            let ghost n: int = cat.len() - fs@.len();
            let f = fs.remove(0);
            proof {
                assert(f == cat[n]);
                assert(fs@ =~= cat.subrange(cat.len() - fs@.len(), cat.len() as int));
            }
            let ghost out_before: Seq<LinterFilter> = out@;
            if f.active(locale) {
                out.push(f);
                proof {
                    assert(out@ =~= active_rules_upto(cat, locale@, n + 1));
                    assert forall|text: Seq<char>| #[trigger] seq_findings(out@, text)
                        == gated_findings_upto(cat, locale@, text, n + 1) by {
                        lemma_seq_findings_push(out_before, cat[n], text);
                    }
                }
            } else {
                proof {
                    assert(out@ =~= active_rules_upto(cat, locale@, n + 1));
                    assert forall|text: Seq<char>| #[trigger] seq_findings(out@, text)
                        == gated_findings_upto(cat, locale@, text, n + 1) by {
                        assert(gated_findings_upto(cat, locale@, text, n + 1)
                            =~= gated_findings_upto(cat, locale@, text, n));
                    }
                }
            }
        }
        proof {
            lemma_catalog_gate(cat, locale@);
            assert forall|text: Seq<char>| #[trigger] seq_findings(out@, text) == linter_findings(
                locale@,
                text,
            ) by {
                lemma_catalog_findings(cat, locale@, text);
            }
        }
        out
    }

    /// Checks the text against every rule active for this linter's locale.
    /// `Ok` means clean; `Err` carries the complete, exhaustively collected
    /// warning list: every active rule's findings, in catalog order, each
    /// span lying within the text's UTF-8 bytes. The outcome is a function
    /// of the locale and the text alone.
    pub fn check(&self, text: &str) -> (r: Result<(), Vec<LinterWarning>>)
        ensures
            r is Ok <==> linter_findings(self.spec_locale(), text@).len() == 0,
            r matches Err(ws) ==> warnings_view(ws@) == linter_findings(self.spec_locale(), text@)
                && ws@.len() > 0,
            r matches Err(ws) ==> forall|i: int|
                0 <= i < ws@.len() ==> 0 <= (#[trigger] ws@[i])@.start <= ws@[i]@.end
                    <= text.spec_bytes().len(),
    {
        let mut warnings: Vec<LinterWarning> = Vec::new();
        let active = self.active_filters(self.locale.as_str());
        let mut i: usize = 0;
        while i < active.len()
            invariant
                i <= active@.len(),
                warnings_view(warnings@) == seq_findings_upto(active@, text@, i as int),
                forall|k: int|
                    0 <= k < warnings@.len() ==> 0 <= (#[trigger] warnings@[k])@.start
                        <= warnings@[k]@.end <= text.spec_bytes().len(),
            decreases active@.len() - i,
        {
            let ghost acc_before: Seq<LinterWarning> = warnings@;
            let result = active[i].check(text);
            match result {
                Ok(()) => {
                    proof {
                        assert(seq_findings_upto(active@, text@, i + 1) =~= seq_findings_upto(
                            active@,
                            text@,
                            i as int,
                        ));
                    }
                },
                Err(mut ws) => {
                    let ghost ws_before: Seq<LinterWarning> = ws@;
                    warnings.append(&mut ws);
                    proof {
                        assert(warnings_view(warnings@) =~= seq_findings_upto(
                            active@,
                            text@,
                            i + 1,
                        ));
                        assert forall|k: int|
                            0 <= k < warnings@.len() implies 0 <= (
                        #[trigger] warnings@[k])@.start <= warnings@[k]@.end
                            <= text.spec_bytes().len() by {
                            if k < acc_before.len() {
                                assert(warnings@[k] == acc_before[k]);
                            } else {
                                let j = k - acc_before.len();
                                assert(warnings@[k] == ws_before[j]);
                                assert(warnings_view(ws_before)[j] == ws_before[j]@);
                            }
                        }
                    }
                },
            }
            i += 1;
        }
        proof {
            assert(seq_findings(active@, text@) == linter_findings(self.spec_locale(), text@));
        }
        if warnings.len() == 0 {
            Ok(())
        } else {
            Err(warnings)
        }
    }
}

} // verus!
