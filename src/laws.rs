use vstd::prelude::*;
use crate::catalog::FontCatalog;
use crate::font::{fonts_view, listing_of, EntryView, Font, FontDescriptor};

verus! {

/// A catalog with no entries lists no fonts: the listing is empty, not an
/// error.
pub proof fn lemma_empty_catalog_lists_nothing(entries: Seq<EntryView>)
    requires
        entries.len() == 0,
    ensures
        listing_of(entries) == Seq::<FontDescriptor>::empty(),
{
    assert(listing_of(entries) =~= Seq::<FontDescriptor>::empty());
}

/// A catalog of N entries, each with a non-empty family name and font name,
/// lists exactly N descriptors, each with a non-empty family and style.
pub proof fn lemma_listing_one_per_entry(entries: Seq<EntryView>)
    requires
        forall|i: int| 0 <= i < entries.len() ==> entries[i].0.len() > 0 && entries[i].1.len() > 0,
    ensures
        listing_of(entries).len() == entries.len(),
        forall|i: int|
            0 <= i < listing_of(entries).len() ==> listing_of(entries)[i].family.len() > 0
                && listing_of(entries)[i].style.len() > 0,
{
}

/// Two listings of one catalog, whose contents do not change between them,
/// hold the same descriptors in the same order.
pub proof fn lemma_listing_repeatable(catalog: FontCatalog, first: Seq<Font>, second: Seq<Font>)
    requires
        fonts_view(first) == listing_of(catalog.entries()),
        fonts_view(second) == listing_of(catalog.entries()),
    ensures
        fonts_view(first) == fonts_view(second),
{
}

} // verus!
