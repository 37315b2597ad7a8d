use vstd::prelude::*;

verus! {

use crate::errors::LinterWarning;
use crate::errors::WarningView;
use crate::errors::warnings_view;
use vstd::string::StringSliceAdditionalSpecFns;

/// Whether the pattern engine accepts this pattern source as well formed.
/// Acceptance depends on the pattern alone.
pub uninterp spec fn pattern_accepted(pattern: Seq<char>) -> bool;

/// The byte spans of all successive non-overlapping matches of an accepted
/// pattern over a text, in left-to-right discovery order. The spans depend on
/// the pattern and the text alone.
pub uninterp spec fn match_spans(pattern: Seq<char>, text: Seq<char>) -> Seq<(usize, usize)>;

/// Relies on regex::Regex::new and regex::Regex::find_iter: `new` returns
/// `Ok` exactly on the pattern sources the engine accepts, and `find_iter`
/// yields the successive non-overlapping matches of the haystack in order,
/// each reported as byte offsets with `start() <= end()`, both lying on
/// boundaries inside the haystack.
#[verifier::external_body]
fn find_match_spans(pattern: &str, text: &str) -> (r: Option<Vec<(usize, usize)>>)
    ensures
        r is Some <==> pattern_accepted(pattern@),
        r matches Some(spans) ==> {
            &&& spans@ == match_spans(pattern@, text@)
            &&& forall|i: int|
                0 <= i < spans@.len() ==> (#[trigger] spans@[i]).0 <= spans@[i].1
                    <= text.spec_bytes().len()
            &&& forall|i: int|
                0 <= i < spans@.len() - 1 ==> (#[trigger] spans@[i]).1 <= spans@[i + 1].0
        },
{
    match regex::Regex::new(pattern) {
        Ok(re) => Some(re.find_iter(text).map(|m| (m.start(), m.end())).collect()),
        Err(_) => None,
    }
}

/// The findings that one rule reports: one warning per match span, carrying
/// the rule's message, in span order.
pub open spec fn findings_of(message: Seq<char>, spans: Seq<(usize, usize)>) -> Seq<WarningView> {
    spans.map_values(
        |p: (usize, usize)| WarningView { message: message, start: p.0 as int, end: p.1 as int },
    )
}

/// The complete findings of one rule over a text: the warnings for every
/// match of its pattern, or nothing when the engine rejects the pattern
/// source (a configuration bug that the test suite guards against).
pub open spec fn rule_findings(message: Seq<char>, pattern: Seq<char>, text: Seq<char>) -> Seq<
    WarningView,
> {
    if pattern_accepted(pattern) {
        findings_of(message, match_spans(pattern, text))
    } else {
        Seq::empty()
    }
}

/// Well-formedness of a reported warning list over a text: every span lies
/// within the text's bytes, and spans follow each other without overlap.
pub open spec fn spans_well_formed(ws: Seq<WarningView>, text_bytes: int) -> bool {
    &&& forall|i: int| 0 <= i < ws.len() ==> 0 <= #[trigger] ws[i].start <= ws[i].end <= text_bytes
    &&& forall|i: int| 0 <= i < ws.len() - 1 ==> #[trigger] ws[i].end <= ws[i + 1].start
}

/// Shared scanning behavior of every rule: match the rule's pattern over the
/// text and convert each match into a warning carrying the rule's message.
#[verifier::rlimit(60)]
pub fn scan(pattern: &str, message: &'static str, text: &str) -> (ws: Vec<LinterWarning>)
    ensures
        warnings_view(ws@) == rule_findings(message@, pattern@, text@),
        spans_well_formed(warnings_view(ws@), text.spec_bytes().len() as int),
{
    match find_match_spans(pattern, text) {
        None => Vec::new(),
        Some(spans) => {
            let mut out: Vec<LinterWarning> = Vec::new();
            let mut i: usize = 0;
            while i < spans.len()
                invariant
                    i <= spans@.len(),
                    spans@ == match_spans(pattern@, text@),
                    pattern_accepted(pattern@),
                    out@.len() == i as int,
                    forall|j: int|
                        0 <= j < i as int ==> (#[trigger] out@[j])@ == (WarningView {
                            message: message@,
                            start: spans@[j].0 as int,
                            end: spans@[j].1 as int,
                        }),
                    forall|k: int|
                        0 <= k < spans@.len() ==> (#[trigger] spans@[k]).0 <= spans@[k].1
                            <= text.spec_bytes().len(),
                    forall|k: int|
                        0 <= k < spans@.len() - 1 ==> (#[trigger] spans@[k]).1 <= spans@[k + 1].0,
                decreases spans@.len() - i,
            {
                let (s, e) = spans[i];
                out.push(LinterWarning { message, start: s, end: e });
                i += 1;
            }
            proof {
                assert(warnings_view(out@) =~= findings_of(message@, spans@));
                assert(spans_well_formed(
                    warnings_view(out@),
                    text.spec_bytes().len() as int,
                ));
            }
            out
        },
    }
}

/// Runs one rule's scan and tags the outcome: `Ok` when the text holds no
/// violation of the rule, `Err` with the complete warning list otherwise.
pub fn scan_result(pattern: &str, message: &'static str, text: &str) -> (r: Result<
    (),
    Vec<LinterWarning>,
>)
    ensures
        r is Ok <==> rule_findings(message@, pattern@, text@).len() == 0,
        r matches Err(ws) ==> {
            &&& warnings_view(ws@) == rule_findings(message@, pattern@, text@)
            &&& ws@.len() > 0
            &&& spans_well_formed(warnings_view(ws@), text.spec_bytes().len() as int)
        },
{
    let ws = scan(pattern, message, text);
    if ws.len() == 0 {
        Ok(())
    } else {
        Err(ws)
    }
}

} // verus!
