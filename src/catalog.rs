use vstd::prelude::*;
use font_enumeration::Collection;
use crate::font::{describe_entries, descriptor_of, entries_view, fonts_view, listing_of, EntryView, Font};

verus! {

#[verifier::external_type_specification]
#[verifier::external_body]
pub struct ExCollection(font_enumeration::Collection);

#[verifier::external_type_specification]
#[verifier::external_body]
pub struct ExEnumerationError(font_enumeration::Error);

/// The entries that a scanned collection holds, each as its family name and
/// its font name, in the order in which the collection stores them.
pub uninterp spec fn catalog_entries(c: font_enumeration::Collection) -> Seq<(Seq<char>, Seq<char>)>;

/// Relies on font_enumeration::Collection::all, which walks the scanned fonts
/// in their stored order; each entry keeps a font's `family_name` and
/// `font_name`.
#[verifier::external_body]
fn collection_entries(c: &Collection) -> (r: Vec<(String, String)>)
    ensures
        entries_view(r@) == catalog_entries(*c),
{
    c.all().map(|f| (f.family_name.clone(), f.font_name.clone())).collect()
}

/// Why a font catalog could not be had.
#[derive(Clone, Copy, Debug, PartialEq, Eq, Structural)]
pub enum CatalogError {
    /// The system font collection could not be initialized.
    Unavailable,
}

/// The application's font catalog: a scanned system collection, held for the
/// application's lifetime and only read after that.
pub struct FontCatalog {
    collection: Collection,
}

impl FontCatalog {
    /// The entries that this catalog holds.
    pub closed spec fn entries(&self) -> Seq<EntryView> {
        catalog_entries(self.collection)
    }

    /// Turns the outcome of a collection scan into a catalog: a catalog of
    /// the scanned collection where the scan succeeded, `Unavailable` where
    /// it failed.
    pub fn from_scan(scanned: Result<Collection, font_enumeration::Error>) -> (r: Result<
        FontCatalog,
        CatalogError,
    >)
        ensures
            r is Ok <==> scanned is Ok,
            r is Ok ==> r->Ok_0.entries() == catalog_entries(scanned->Ok_0),
            r is Err ==> r->Err_0 == CatalogError::Unavailable,
    {
        match scanned {
            Ok(collection) => Ok(FontCatalog { collection }),
            Err(_) => Err(CatalogError::Unavailable),
        }
    }
}

/// Lists every font variant of the catalog as a family name and a style name:
/// one descriptor per entry, in the catalog's order, with nothing filtered,
/// merged or reordered.
pub fn list_installed_fonts(catalog: &FontCatalog) -> (r: Vec<Font>)
    ensures
        fonts_view(r@) == listing_of(catalog.entries()),
        r@.len() == catalog.entries().len(),
        forall|i: int| 0 <= i < r@.len() ==> r@[i]@ == descriptor_of(catalog.entries()[i]),
{
    let entries = collection_entries(&catalog.collection);
    describe_entries(&entries)
}

} // verus!
