//! A segment is a single styled element in a module. It usually carries one
//! data point shown to the prompt's user (a branch name, a version, a count).

use vstd::prelude::*;

use crate::strutil::{chars_of, trim_chars, trim_spec};
use crate::style::{painted, paint, Style};

verus! {

/// One styled text fragment inside a module.
pub struct Segment {
    /// The segment's name, for configuration and logging.
    pub name: String,
    /// The string value of the current segment.
    pub value: String,
    /// A style overriding the module default, when set.
    pub style_override: Option<Style>,
}

/// The style a segment is painted with, given its module's default.
pub open spec fn segment_style(seg: Segment, default: Style) -> Style {
    match seg.style_override {
        Some(st) => st,
        None => default,
    }
}

/// Whether a segment's value is blank once trimmed.
pub open spec fn segment_blank(seg: Segment) -> bool {
    trim_spec(seg.value@).len() == 0
}

impl Segment {
    /// Creates a new segment with default fields.
    pub fn new() -> (r: Segment)
        ensures
            r.name@ == Seq::<char>::empty(),
            r.value@ == Seq::<char>::empty(),
            r.style_override is None,
    {
        Segment { name: String::new(), value: String::new(), style_override: None }
    }

    /// Sets the value of the segment.
    pub fn set_value(&mut self, value: &str)
        ensures
            final(self).value@ == value@,
            final(self).name == old(self).name,
            final(self).style_override == old(self).style_override,
    {
        self.value = value.to_owned();
    }

    /// Sets a style override for the segment.
    pub fn set_style(&mut self, style: Style)
        ensures
            final(self).style_override == Some(style),
            final(self).name == old(self).name,
            final(self).value == old(self).value,
    {
        self.style_override = Some(style);
    }

    /// The segment's value painted with its override, or with the given
    /// module default.
    pub fn ansi_string(&self, style: &Style) -> (r: String)
        ensures
            r@ == painted(segment_style(*self, *style), self.value@),
    {
        match &self.style_override {
            Some(st) => paint(st, self.value.as_str()),
            None => paint(style, self.value.as_str()),
        }
    }

    /// Determines if the segment contains a (non-blank) value.
    pub fn is_empty(&self) -> (r: bool)
        ensures
            r == segment_blank(*self),
    {
        let v = chars_of(self.value.as_str());
        let trimmed = trim_chars(&v);
        trimmed.len() == 0
    }
}

} // verus!
