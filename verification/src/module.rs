//! A module is a collection of segments showing data for a single integration
//! (the git module shows the current branch and state, and so on), framed by a
//! styled prefix and suffix.

use vstd::prelude::*;

use crate::segment::{segment_blank, segment_style, Segment};
use vstd::string::StringExecFns;
use crate::style::{painted, paint, plain_style, Style};

verus! {

/// A styled separator attached before or after a module's segments.
pub struct Affix {
    /// The affix's style.
    pub style: Style,
    /// The string value of the affix.
    pub value: String,
}

impl Affix {
    /// The default prefix: nothing, unstyled.
    pub fn default_prefix() -> (r: Affix)
        ensures
            r.style == plain_style(),
            r.value@ == Seq::<char>::empty(),
    {
        Affix { style: Style::new(), value: String::new() }
    }

    /// The default suffix: one space, unstyled.
    pub fn default_suffix() -> (r: Affix)
        ensures
            r.style == plain_style(),
            r.value@ == seq![' '],
    {
        let mut value = String::new();
        crate::strutil::push_char(&mut value, ' ');
        Affix { style: Style::new(), value }
    }

    /// Sets the style of the affix.
    pub fn set_style(&mut self, style: Style)
        ensures
            final(self).style == style,
            final(self).value == old(self).value,
    {
        self.style = style;
    }

    /// Sets the value of the affix.
    pub fn set_value(&mut self, value: &str)
        ensures
            final(self).value@ == value@,
            final(self).style == old(self).style,
    {
        self.value = value.to_owned();
    }

    /// The affix's value painted with its style.
    pub fn ansi_string(&self) -> (r: String)
        ensures
            r@ == painted(self.style, self.value@),
    {
        paint(&self.style, self.value.as_str())
    }
}

/// One self-contained, independently activated contributor to the prompt.
pub struct Module {
    /// The module's name, used in configuration and for the renderer's
    /// line-break handling.
    pub name: String,
    /// The styling inherited by all segments contained in this module.
    pub style: Style,
    /// The prefix separating this module from the previous one.
    pub prefix: Affix,
    /// The ordered segments composing this module.
    pub segments: Vec<Segment>,
    /// The suffix separating this module from the next one.
    pub suffix: Affix,
}

/// The painted concatenation of a module's segments under a default style.
pub open spec fn segments_rendered(segs: Seq<Segment>, default: Style) -> Seq<char>
    decreases segs.len(),
{
    if segs.len() == 0 {
        Seq::<char>::empty()
    } else {
        painted(segment_style(segs[0], default), segs[0].value@) + segments_rendered(
            segs.drop_first(),
            default,
        )
    }
}

/// Everything a module paints: its prefix (unless suppressed), its segments,
/// its suffix.
pub open spec fn module_rendered(m: Module, show_prefix: bool) -> Seq<char> {
    (if show_prefix {
        painted(m.prefix.style, m.prefix.value@)
    } else {
        Seq::<char>::empty()
    }) + segments_rendered(m.segments@, m.style) + painted(m.suffix.style, m.suffix.value@)
}

/// The values a segment sequence carries, in order.
pub open spec fn segment_values(segs: Seq<Segment>) -> Seq<Seq<char>> {
    segs.map_values(|s: Segment| s.value@)
}

/// A module is blank when every segment's trimmed value is empty.
pub open spec fn module_blank(m: Module) -> bool {
    forall|i: int| 0 <= i < m.segments@.len() ==> segment_blank(#[trigger] m.segments@[i])
}

impl Module {
    /// Creates a module with no segments.
    pub fn new(name: &str) -> (r: Module)
        ensures
            r.name@ == name@,
            r.style == plain_style(),
            r.prefix.style == plain_style(),
            r.prefix.value@ == Seq::<char>::empty(),
            r.segments@ == Seq::<Segment>::empty(),
            r.suffix.style == plain_style(),
            r.suffix.value@ == seq![' '],
    {
        Module {
            name: name.to_owned(),
            style: Style::new(),
            prefix: Affix::default_prefix(),
            segments: Vec::new(),
            suffix: Affix::default_suffix(),
        }
    }

    /// Appends one segment carrying the given value, styled by the module.
    pub fn append_segment_str(&mut self, value: &str)
        ensures
            final(self).segments@.len() == old(self).segments@.len() + 1,
            final(self).segments@.take(old(self).segments@.len() as int) == old(self).segments@,
            final(self).segments@.last().value@ == value@,
            final(self).segments@.last().name@ == Seq::<char>::empty(),
            final(self).segments@.last().style_override is None,
            final(self).name == old(self).name,
            final(self).style == old(self).style,
            final(self).prefix == old(self).prefix,
            final(self).suffix == old(self).suffix,
    {
        let mut segment = Segment::new();
        segment.set_value(value);
        self.segments.push(segment);
        proof {
            assert(final(self).segments@.take(old(self).segments@.len() as int) =~= old(
                self,
            ).segments@);
        }
    }

    /// Appends one named segment from a value and an optional style override.
    pub fn create_segment(&mut self, name: &str, value: &str, style: Option<Style>)
        ensures
            final(self).segments@.len() == old(self).segments@.len() + 1,
            final(self).segments@.take(old(self).segments@.len() as int) == old(self).segments@,
            final(self).segments@.last().value@ == value@,
            final(self).segments@.last().name@ == name@,
            final(self).segments@.last().style_override == style,
            final(self).name == old(self).name,
            final(self).style == old(self).style,
            final(self).prefix == old(self).prefix,
            final(self).suffix == old(self).suffix,
    {
        let segment = Segment { name: name.to_owned(), value: value.to_owned(), style_override: style };
        self.segments.push(segment);
        proof {
            assert(final(self).segments@.take(old(self).segments@.len() as int) =~= old(
                self,
            ).segments@);
        }
    }

    /// Whether the module has only blank segments.
    pub fn is_empty(&self) -> (r: bool)
        ensures
            r == module_blank(*self),
    {
        let mut i: usize = 0;
        while i < self.segments.len()
            invariant
                i <= self.segments@.len(),
                forall|j: int| 0 <= j < i ==> segment_blank(#[trigger] self.segments@[j]),
            decreases self.segments@.len() - i,
        {
            if !self.segments[i].is_empty() {
                return false;
            }
            i = i + 1;
        }
        true
    }

    /// Read the module's prefix.
    pub fn get_prefix(&self) -> (r: &Affix)
        ensures
            r == self.prefix,
    {
        &self.prefix
    }

    /// Read the module's suffix.
    pub fn get_suffix(&self) -> (r: &Affix)
        ensures
            r == self.suffix,
    {
        &self.suffix
    }

    /// Sets the prefix's value.
    pub fn set_prefix_value(&mut self, value: &str)
        ensures
            final(self).prefix.value@ == value@,
            final(self).prefix.style == old(self).prefix.style,
            final(self).name == old(self).name,
            final(self).style == old(self).style,
            final(self).segments == old(self).segments,
            final(self).suffix == old(self).suffix,
    {
        self.prefix.set_value(value);
    }

    /// Sets the prefix's style.
    pub fn set_prefix_style(&mut self, style: Style)
        ensures
            final(self).prefix.style == style,
            final(self).prefix.value == old(self).prefix.value,
            final(self).name == old(self).name,
            final(self).style == old(self).style,
            final(self).segments == old(self).segments,
            final(self).suffix == old(self).suffix,
    {
        self.prefix.set_style(style);
    }

    /// Sets the suffix's value.
    pub fn set_suffix_value(&mut self, value: &str)
        ensures
            final(self).suffix.value@ == value@,
            final(self).suffix.style == old(self).suffix.style,
            final(self).name == old(self).name,
            final(self).style == old(self).style,
            final(self).segments == old(self).segments,
            final(self).prefix == old(self).prefix,
    {
        self.suffix.set_value(value);
    }

    /// Sets the suffix's style.
    pub fn set_suffix_style(&mut self, style: Style)
        ensures
            final(self).suffix.style == style,
            final(self).suffix.value == old(self).suffix.value,
            final(self).name == old(self).name,
            final(self).style == old(self).style,
            final(self).segments == old(self).segments,
            final(self).prefix == old(self).prefix,
    {
        self.suffix.set_style(style);
    }

    /// Sets the style inherited by the module's segments.
    pub fn set_style(&mut self, style: Style)
        ensures
            final(self).style == style,
            final(self).name == old(self).name,
            final(self).prefix == old(self).prefix,
            final(self).segments == old(self).segments,
            final(self).suffix == old(self).suffix,
    {
        self.style = style;
    }

    /// The painted pieces of the module in order: prefix, segments, suffix.
    pub fn ansi_strings(&self) -> (r: Vec<String>)
        ensures
            r.deep_view() == seq![painted(self.prefix.style, self.prefix.value@)]
                + Seq::new(self.segments@.len(), |i: int| painted(
                segment_style(self.segments@[i], self.style),
                self.segments@[i].value@,
            )) + seq![painted(self.suffix.style, self.suffix.value@)],
    {
        let ghost mids = Seq::new(self.segments@.len(), |i: int| painted(
            segment_style(self.segments@[i], self.style),
            self.segments@[i].value@,
        ));
        let mut out: Vec<String> = Vec::new();
        out.push(self.prefix.ansi_string());
        let mut i: usize = 0;
        while i < self.segments.len()
            invariant
                i <= self.segments@.len(),
                mids == Seq::new(self.segments@.len(), |k: int| painted(
                    segment_style(self.segments@[k], self.style),
                    self.segments@[k].value@,
                )),
                out.deep_view() == seq![painted(self.prefix.style, self.prefix.value@)]
                    + mids.take(i as int),
            decreases self.segments@.len() - i,
        {
            let ghost out0 = out.deep_view();
            let s = self.segments[i].ansi_string(&self.style);
            out.push(s);
            i = i + 1;
            proof {
                assert(out.deep_view() =~~= out0.push(s@));
                assert(out.deep_view() =~~= seq![painted(self.prefix.style, self.prefix.value@)]
                    + mids.take(i as int));
            }
        }
        proof {
            assert(mids.take(self.segments@.len() as int) =~~= mids);
        }
        let ghost out1 = out.deep_view();
        let sfx = self.suffix.ansi_string();
        out.push(sfx);
        proof {
            assert(out.deep_view() =~~= out1.push(sfx@));
            assert(out.deep_view() =~~= seq![painted(self.prefix.style, self.prefix.value@)] + mids
                + seq![painted(self.suffix.style, self.suffix.value@)]);
        }
        out
    }

    /// Everything the module paints, with its prefix suppressed on demand.
    pub fn render(&self, show_prefix: bool) -> (r: String)
        ensures
            r@ == module_rendered(*self, show_prefix),
    {
        let ghost head: Seq<char> = if show_prefix {
            painted(self.prefix.style, self.prefix.value@)
        } else {
            Seq::<char>::empty()
        };
        let ghost target: Seq<char> = head + segments_rendered(self.segments@, self.style);
        let mut out = String::new();
        if show_prefix {
            let p = self.prefix.ansi_string();
            out.append(p.as_str());
        }
        let mut i: usize = 0;
        proof {
            assert(self.segments@.skip(0) =~= self.segments@);
            assert(out@ + segments_rendered(self.segments@, self.style) =~= target);
        }
        while i < self.segments.len()
            invariant
                i <= self.segments@.len(),
                target == head + segments_rendered(self.segments@, self.style),
                out@ + segments_rendered(self.segments@.skip(i as int), self.style) == target,
            decreases self.segments@.len() - i,
        {
            proof {
                assert(self.segments@.skip(i as int)[0] == self.segments@[i as int]);
                assert(self.segments@.skip(i as int).drop_first() =~= self.segments@.skip(
                    i as int + 1,
                ));
            }
            let s = self.segments[i].ansi_string(&self.style);
            out.append(s.as_str());
            i = i + 1;
            proof {
                assert(out@ + segments_rendered(self.segments@.skip(i as int), self.style) =~= target);
            }
        }
        proof {
            assert(self.segments@.skip(self.segments@.len() as int) =~= Seq::<Segment>::empty());
        }
        proof {
            assert(out@ =~= target);
        }
        let sfx = self.suffix.ansi_string();
        out.append(sfx.as_str());
        proof {
            assert(out@ =~= module_rendered(*self, show_prefix));
        }
        out
    }
}

} // verus!
