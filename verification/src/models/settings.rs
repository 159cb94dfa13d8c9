use vstd::prelude::*;

use crate::util::str_eq;

verus! {

/// The size of a text metric of a document (line height, paragraph spacing).
#[derive(Clone, Copy, Debug, PartialEq, Eq, Structural)]
pub enum TextMetricSize {
    Narrow,
    Medium,
    Wide,
}

impl TextMetricSize {
    /// The numeric code of a size: `Narrow` is 0, `Medium` 1, `Wide` 2.
    pub open spec fn spec_code(self) -> u8 {
        match self {
            TextMetricSize::Narrow => 0,
            TextMetricSize::Medium => 1,
            TextMetricSize::Wide => 2,
        }
    }

    /// The textual name of a size, as shown to the user.
    pub open spec fn spec_name(self) -> Seq<char> {
        match self {
            TextMetricSize::Narrow => "Narrow"@,
            TextMetricSize::Medium => "Medium"@,
            TextMetricSize::Wide => "Wide"@,
        }
    }

    /// The numeric code of this size.
    pub fn code(self) -> (r: u8)
        ensures
            r == self.spec_code(),
    {
        match self {
            TextMetricSize::Narrow => 0,
            TextMetricSize::Medium => 1,
            TextMetricSize::Wide => 2,
        }
    }

    /// The size with the given numeric code; only 0, 1 and 2 are codes.
    pub fn from_code(value: u8) -> (r: TextMetricSize)
        requires
            value <= 2,
        ensures
            r.spec_code() == value,
    {
        match value {
            0 => TextMetricSize::Narrow,
            1 => TextMetricSize::Medium,
            _ => TextMetricSize::Wide,
        }
    }

    /// The name of this size.
    pub fn name(self) -> (r: &'static str)
        ensures
            r@ == self.spec_name(),
    {
        match self {
            TextMetricSize::Narrow => "Narrow",
            TextMetricSize::Medium => "Medium",
            TextMetricSize::Wide => "Wide",
        }
    }

    /// The size with the given name; only "Narrow", "Medium" and "Wide" are names.
    pub fn from_name(value: &str) -> (r: TextMetricSize)
        requires
            value@ == "Narrow"@ || value@ == "Medium"@ || value@ == "Wide"@,
        ensures
            r.spec_name() == value@,
    {
        proof {
            reveal_strlit("Narrow");
            reveal_strlit("Medium");
            reveal_strlit("Wide");
        }
        if str_eq(value, "Narrow") {
            TextMetricSize::Narrow
        } else if str_eq(value, "Medium") {
            TextMetricSize::Medium
        } else {
            TextMetricSize::Wide
        }
    }

    /// The position of this size in a selection list ordered
    /// `Narrow`, `Medium`, `Wide`.
    pub fn selected_index(self) -> (r: u32)
        ensures
            r == self.spec_code(),
    {
        match self {
            TextMetricSize::Narrow => 0,
            TextMetricSize::Medium => 1,
            TextMetricSize::Wide => 2,
        }
    }

    /// The size at the given position of a selection list ordered
    /// `Narrow`, `Medium`, `Wide`.
    pub fn from_selected_index(value: u32) -> (r: TextMetricSize)
        requires
            value <= 2,
        ensures
            r.spec_code() == value,
    {
        match value {
            0 => TextMetricSize::Narrow,
            1 => TextMetricSize::Medium,
            _ => TextMetricSize::Wide,
        }
    }
}

impl Default for TextMetricSize {
    fn default() -> (r: TextMetricSize)
        ensures
            r == TextMetricSize::Narrow,
    {
        TextMetricSize::Narrow
    }
}

impl From<TextMetricSize> for u8 {
    fn from(value: TextMetricSize) -> (r: u8)
        ensures
            r == value.spec_code(),
    {
        value.code()
    }
}

impl vstd::std_specs::convert::FromSpecImpl<TextMetricSize> for u8 {
    open spec fn obeys_from_spec() -> bool {
        true
    }

    open spec fn from_spec(v: TextMetricSize) -> u8 {
        v.spec_code()
    }
}

impl From<&TextMetricSize> for u8 {
    fn from(value: &TextMetricSize) -> (r: u8)
        ensures
            r == value.spec_code(),
    {
        value.code()
    }
}

impl vstd::std_specs::convert::FromSpecImpl<&TextMetricSize> for u8 {
    open spec fn obeys_from_spec() -> bool {
        true
    }

    open spec fn from_spec(v: &TextMetricSize) -> u8 {
        v.spec_code()
    }
}

impl From<TextMetricSize> for &'static str {
    fn from(value: TextMetricSize) -> (r: &'static str)
        ensures
            r@ == value.spec_name(),
    {
        value.name()
    }
}

impl vstd::std_specs::convert::FromSpecImpl<TextMetricSize> for &'static str {
    /// The conversion is described by the `ensures` of `from` itself, over
    /// the text of the name; no spec value of type `&str` stands for it.
    open spec fn obeys_from_spec() -> bool {
        false
    }

    open spec fn from_spec(v: TextMetricSize) -> &'static str {
        vstd::pervasive::arbitrary()
    }
}

/// Decoding the code of a size gives the size back.
pub proof fn lemma_metric_code_roundtrip(size: TextMetricSize)
    ensures
        size.spec_code() <= 2,
        forall|other: TextMetricSize| other.spec_code() == size.spec_code() ==> other == size,
{
}

/// Decoding the name of a size gives the size back, and the names of
/// different sizes differ.
pub proof fn lemma_metric_name_roundtrip(size: TextMetricSize)
    ensures
        size.spec_name() == "Narrow"@ || size.spec_name() == "Medium"@ || size.spec_name()
            == "Wide"@,
        forall|other: TextMetricSize| other.spec_name() == size.spec_name() ==> other == size,
{
    reveal_strlit("Narrow");
    reveal_strlit("Medium");
    reveal_strlit("Wide");
    assert("Narrow"@[0] != "Medium"@[0]);
    assert("Narrow"@[0] != "Wide"@[0]);
    assert("Medium"@[0] != "Wide"@[0]);
}

/// The line height and paragraph spacing chosen for a document.
#[derive(Clone, Copy, Debug)]
pub struct DocumentSettings {
    line_height: TextMetricSize,
    paragraph_spacing: TextMetricSize,
}

impl DocumentSettings {
    pub closed spec fn spec_line_height(self) -> TextMetricSize {
        self.line_height
    }

    pub closed spec fn spec_paragraph_spacing(self) -> TextMetricSize {
        self.paragraph_spacing
    }

    pub fn paragraph_spacing(&self) -> (r: TextMetricSize)
        ensures
            r == self.spec_paragraph_spacing(),
    {
        self.paragraph_spacing
    }

    pub fn set_paragraph_spacing(&mut self, value: TextMetricSize)
        ensures
            final(self).spec_paragraph_spacing() == value,
            final(self).spec_line_height() == old(self).spec_line_height(),
    {
        self.paragraph_spacing = value;
    }

    pub fn line_height(&self) -> (r: TextMetricSize)
        ensures
            r == self.spec_line_height(),
    {
        self.line_height
    }

    pub fn set_line_height(&mut self, value: TextMetricSize)
        ensures
            final(self).spec_line_height() == value,
            final(self).spec_paragraph_spacing() == old(self).spec_paragraph_spacing(),
    {
        self.line_height = value;
    }
}

impl Default for DocumentSettings {
    fn default() -> (r: DocumentSettings)
        ensures
            r.spec_line_height() == TextMetricSize::Narrow,
            r.spec_paragraph_spacing() == TextMetricSize::Narrow,
    {
        DocumentSettings {
            line_height: TextMetricSize::Narrow,
            paragraph_spacing: TextMetricSize::Narrow,
        }
    }
}

} // verus!
