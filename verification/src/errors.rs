use vstd::prelude::*;

verus! {

/// One located typographic violation: a display message and the byte span of
/// the offending text, measured over the input's UTF-8 representation.
#[derive(Debug)]
pub struct LinterWarning {
    pub message: &'static str,
    pub start: usize,
    pub end: usize,
}

/// Mathematical image of a warning: the message as a character sequence and
/// the span endpoints as unbounded integers.
pub ghost struct WarningView {
    pub message: Seq<char>,
    pub start: int,
    pub end: int,
}

impl View for LinterWarning {
    type V = WarningView;

    open spec fn view(&self) -> WarningView {
        WarningView { message: self.message@, start: self.start as int, end: self.end as int }
    }
}

/// Lifts a sequence of warnings to their mathematical images.
pub open spec fn warnings_view(ws: Seq<LinterWarning>) -> Seq<WarningView> {
    ws.map_values(|w: LinterWarning| w@)
}

} // verus!
