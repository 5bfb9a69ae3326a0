//! How the fields of a trace line are marked up when colours are wanted.

use vstd::prelude::*;
use crate::retcode::RetCode;

verus! {

/// The markers that go round one styled field, such as a colour escape and its reset.
#[derive(Debug, Clone, PartialEq, Eq)]
pub struct Style {
    /// Written before the field.
    pub prefix: String,
    /// Written after the field.
    pub suffix: String,
}

/// The mathematical content of a `Style`.
pub struct StyleView {
    pub prefix: Seq<char>,
    pub suffix: Seq<char>,
}

impl View for Style {
    type V = StyleView;

    open spec fn view(&self) -> StyleView {
        StyleView { prefix: self.prefix@, suffix: self.suffix@ }
    }
}

/// The styling of a trace line: whether fields are marked up at all, and the style of each
/// field that can be.
#[derive(Debug, Clone, PartialEq, Eq)]
pub struct StyleConfig {
    /// Whether the styles below are applied. Where this is off, every field is plain.
    pub use_colors: bool,
    /// The style of the process id.
    pub pid: Style,
    /// The style of the name of the call.
    pub syscall: Style,
    /// The style of a successful result.
    pub success: Style,
    /// The style of an error.
    pub error: Style,
    /// The style of a result that is an address.
    pub result: Style,
}

/// The mathematical content of a `StyleConfig`.
pub struct StyleConfigView {
    pub use_colors: bool,
    pub pid: StyleView,
    pub syscall: StyleView,
    pub success: StyleView,
    pub error: StyleView,
    pub result: StyleView,
}

impl View for StyleConfig {
    type V = StyleConfigView;

    open spec fn view(&self) -> StyleConfigView {
        StyleConfigView {
            use_colors: self.use_colors,
            pid: self.pid@,
            syscall: self.syscall@,
            success: self.success@,
            error: self.error@,
            result: self.result@,
        }
    }
}

impl StyleView {
    /// The style without markers.
    pub open spec fn none() -> StyleView {
        StyleView { prefix: Seq::empty(), suffix: Seq::empty() }
    }
}

impl StyleConfigView {
    /// The style that goes with a return code: one for each of its three kinds.
    pub open spec fn for_ret_code(self, code: RetCode) -> StyleView {
        match code {
            RetCode::Success(_) => self.success,
            RetCode::Error(_) => self.error,
            RetCode::Address(_) => self.result,
        }
    }

    /// A field in the given style: between the style's markers where colours are on, and as
    /// it is where they are off.
    pub open spec fn styled(self, style: StyleView, text: Seq<char>) -> Seq<char> {
        if self.use_colors {
            style.prefix + text + style.suffix
        } else {
            text
        }
    }
}

impl Style {
    /// A style without markers.
    pub fn none() -> (style: Style)
        ensures
            style@ == StyleView::none(),
    {
        Style { prefix: String::new(), suffix: String::new() }
    }
}

impl StyleConfig {
    /// The configuration that leaves every field plain.
    pub fn plain() -> (config: StyleConfig)
        ensures
            config@ == (StyleConfigView {
                use_colors: false,
                pid: StyleView::none(),
                syscall: StyleView::none(),
                success: StyleView::none(),
                error: StyleView::none(),
                result: StyleView::none(),
            }),
    {
        StyleConfig {
            use_colors: false,
            pid: Style::none(),
            syscall: Style::none(),
            success: Style::none(),
            error: Style::none(),
            result: Style::none(),
        }
    }

    /// The style that goes with a return code.
    pub fn from_ret_code(&self, ret_code: RetCode) -> (style: &Style)
        ensures
            style@ == self@.for_ret_code(ret_code),
    {
        match ret_code {
            RetCode::Success(_) => &self.success,
            RetCode::Error(_) => &self.error,
            RetCode::Address(_) => &self.result,
        }
    }

    /// Appends a field in the given style to `f`.
    pub fn write_styled(&self, style: &Style, text: &str, f: &mut String)
        ensures
            final(f)@ == old(f)@ + self@.styled(style@, text@),
    {
        if self.use_colors {
            f.append(style.prefix.as_str());
            f.append(text);
            f.append(style.suffix.as_str());
        } else {
            f.append(text);
        }
    }
}

} // verus!
