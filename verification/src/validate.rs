//! Checks of a widget file and its configuration.
use vstd::prelude::*;

use crate::config::{WindowConfig, WindowConfigView};
use crate::text::{contains, find_from_exec, to_chars};

verus! {

/// Something found wrong with a widget.
#[derive(Clone, Copy, Debug, PartialEq, Eq, Structural)]
pub enum ValidationIssue {
    /// Height and width are both 0.
    NoSize,
    /// The exclusive zone is positive but smaller than the height.
    ExclusiveZoneBelowHeight,
    /// The file has fewer than 100 bytes.
    TooShort,
    /// No edge is anchored.
    NoAnchors,
}

impl ValidationIssue {
    /// The text shown to the user for this issue.
    pub fn message(&self) -> (r: &'static str)
        ensures
            r@ == issue_message(*self),
    {
        match self {
            ValidationIssue::NoSize => "Tanto height como width son 0, el widget podría no ser visible",
            ValidationIssue::ExclusiveZoneBelowHeight => "La zona exclusiva es menor que la altura del widget",
            ValidationIssue::TooShort => "El archivo HTML es muy pequeño, podría estar incompleto",
            ValidationIssue::NoAnchors => "No hay anclajes configurados, el widget no se posicionará correctamente",
        }
    }
}

/// The text of each issue.
pub open spec fn issue_message(i: ValidationIssue) -> Seq<char> {
    match i {
        ValidationIssue::NoSize => "Tanto height como width son 0, el widget podría no ser visible"@,
        ValidationIssue::ExclusiveZoneBelowHeight => "La zona exclusiva es menor que la altura del widget"@,
        ValidationIssue::TooShort => "El archivo HTML es muy pequeño, podría estar incompleto"@,
        ValidationIssue::NoAnchors => "No hay anclajes configurados, el widget no se posicionará correctamente"@,
    }
}

/// The outcome of checking one widget.
pub struct ValidationReport {
    /// The file mentions `<html` or `<HTML`.
    pub looks_like_html: bool,
    /// How many of the four edges are anchored.
    pub anchor_count: usize,
    /// Issues that do not make the widget invalid, in the order they are checked.
    pub warnings: Vec<ValidationIssue>,
    /// Issues that make the widget invalid.
    pub errors: Vec<ValidationIssue>,
}

/// 1 for an anchored edge, 0 otherwise.
pub open spec fn count(b: bool) -> nat {
    if b {
        1
    } else {
        0
    }
}

/// How many edges `c` is anchored to.
pub open spec fn anchor_count(c: WindowConfigView) -> nat {
    count(c.anchor_top) + count(c.anchor_bottom) + count(c.anchor_left) + count(c.anchor_right)
}

/// The warnings for configuration `c` of a file of `byte_len` bytes, in order.
pub open spec fn expected_warnings(c: WindowConfigView, byte_len: nat) -> Seq<ValidationIssue> {
    let w1: Seq<ValidationIssue> = if c.height == 0 && c.width == 0 {
        seq![ValidationIssue::NoSize]
    } else {
        seq![]
    };
    let w2 = if c.exclusive_zone > 0 && c.exclusive_zone < c.height {
        w1.push(ValidationIssue::ExclusiveZoneBelowHeight)
    } else {
        w1
    };
    if byte_len < 100 {
        w2.push(ValidationIssue::TooShort)
    } else {
        w2
    }
}

/// The errors for configuration `c`.
pub open spec fn expected_errors(c: WindowConfigView) -> Seq<ValidationIssue> {
    if anchor_count(c) == 0 {
        seq![ValidationIssue::NoAnchors]
    } else {
        seq![]
    }
}

impl ValidationReport {
    /// The widget has no error.
    pub fn is_valid(&self) -> (r: bool)
        ensures
            r == (self.errors@.len() == 0),
    {
        self.errors.len() == 0
    }
}

/// Checks a widget file `html` with the configuration read from it.
pub fn validate_widget(html: &str, config: &WindowConfig) -> (r: ValidationReport)
    ensures
        r.looks_like_html == (contains(html@, "<html"@) || contains(html@, "<HTML"@)),
        r.anchor_count == anchor_count(config@),
        r.warnings@ == expected_warnings(config@, html.len() as nat),
        r.errors@ == expected_errors(config@),
{
    let h = to_chars(html);
    let lower = to_chars("<html");
    let upper = to_chars("<HTML");
    let looks_like_html = find_from_exec(h.as_slice(), lower.as_slice(), 0).is_some()
        || find_from_exec(h.as_slice(), upper.as_slice(), 0).is_some();
    let mut warnings: Vec<ValidationIssue> = Vec::new();
    let mut errors: Vec<ValidationIssue> = Vec::new();
    if config.height == 0 && config.width == 0 {
        warnings.push(ValidationIssue::NoSize);
    }
    let ghost w1 = warnings@;
    assert(w1 =~= (if config.height == 0 && config.width == 0 {
        seq![ValidationIssue::NoSize]
    } else {
        Seq::<ValidationIssue>::empty()
    }));
    let mut anchors: usize = 0;
    if config.anchor_top {
        anchors = anchors + 1;
    }
    if config.anchor_bottom {
        anchors = anchors + 1;
    }
    if config.anchor_left {
        anchors = anchors + 1;
    }
    if config.anchor_right {
        anchors = anchors + 1;
    }
    if anchors == 0 {
        errors.push(ValidationIssue::NoAnchors);
    }
    if config.exclusive_zone > 0 && config.exclusive_zone < config.height {
        warnings.push(ValidationIssue::ExclusiveZoneBelowHeight);
    }
    if html.len() < 100 {
        warnings.push(ValidationIssue::TooShort);
    }
    proof {
        assert(warnings@ =~= expected_warnings(config@, html.len() as nat));
        assert(errors@ =~= expected_errors(config@));
    }
    ValidationReport { looks_like_html, anchor_count: anchors, warnings, errors }
}

} // verus!
