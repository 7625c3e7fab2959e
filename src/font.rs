use vstd::prelude::*;

verus! {

/// What a font descriptor stands for: a family name and a style name.
pub ghost struct FontDescriptor {
    pub family: Seq<char>,
    pub style: Seq<char>,
}

/// One installed font variant, as handed to a front end.
#[derive(Clone, Debug, PartialEq, Eq)]
pub struct Font {
    pub family: String,
    pub style: String,
}

impl View for Font {
    type V = FontDescriptor;

    open spec fn view(&self) -> FontDescriptor {
        FontDescriptor { family: self.family@, style: self.style@ }
    }
}

/// A catalog entry as plain text: a family name and a font name.
pub type EntryView = (Seq<char>, Seq<char>);

/// The descriptor that one catalog entry stands for.
pub open spec fn descriptor_of(entry: EntryView) -> FontDescriptor {
    FontDescriptor { family: entry.0, style: entry.1 }
}

/// The listing that a sequence of catalog entries stands for: one
/// descriptor per entry, in the entries' order.
pub open spec fn listing_of(entries: Seq<EntryView>) -> Seq<FontDescriptor> {
    entries.map_values(|e: EntryView| descriptor_of(e))
}

/// The descriptors that a sequence of fonts stands for.
pub open spec fn fonts_view(fonts: Seq<Font>) -> Seq<FontDescriptor> {
    fonts.map_values(|f: Font| f@)
}

/// The plain-text view of a sequence of entries.
pub open spec fn entries_view(entries: Seq<(String, String)>) -> Seq<EntryView> {
    entries.map_values(|e: (String, String)| (e.0@, e.1@))
}

impl Font {
    /// Builds a descriptor from a family name and a style name.
    pub fn new(family: String, style: String) -> (r: Font)
        ensures
            r@ == (FontDescriptor { family: family@, style: style@ }),
    {
        Font { family, style }
    }
}

/// Maps catalog entries, each a family name and a font name, to font
/// descriptors: one per entry, in order, with nothing filtered or merged.
pub fn describe_entries(entries: &Vec<(String, String)>) -> (r: Vec<Font>)
    ensures
        fonts_view(r@) == listing_of(entries_view(entries@)),
        r@.len() == entries@.len(),
        forall|i: int|
            0 <= i < r@.len() ==> r@[i]@ == descriptor_of((entries@[i].0@, entries@[i].1@)),
{
    let mut out: Vec<Font> = Vec::new();
    let mut i: usize = 0;
    while i < entries.len()
        invariant
            i <= entries@.len(),
            out@.len() == i,
            forall|j: int| 0 <= j < i ==> out@[j]@ == descriptor_of((entries@[j].0@, entries@[j].1@)),
        decreases entries@.len() - i,
    {
        let entry = &entries[i];
        let font = Font::new(entry.0.clone(), entry.1.clone());
        out.push(font);
        i = i + 1;
    }
    assert(fonts_view(out@) =~= listing_of(entries_view(entries@)));
    out
}

} // verus!
