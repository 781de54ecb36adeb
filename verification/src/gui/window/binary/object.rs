//! The parts of an ELF object that the binary window reads.

use vstd::prelude::*;

verus! {

/// The kind of a symbol, as far as the search filters tell them apart.
#[derive(Clone, Copy, Debug, PartialEq, Eq, Structural)]
pub enum SymbolKind {
    /// A data object.
    Object,
    /// A function.
    Function,
    /// Any other kind of symbol.
    Other,
}

/// A section header.
pub struct SectionHeader {
    /// Name of the section.
    pub name: String,
    /// Size of the section in the file, in bytes.
    pub filesize: u64,
    /// Virtual address of the section.
    pub vaddr: u64,
}

/// A symbol.
pub struct Symbol {
    /// Name of the symbol.
    pub name: String,
    /// Kind of the symbol.
    pub kind: SymbolKind,
    /// Displayed name of the symbol type.
    pub typename: String,
    /// Value (address) of the symbol.
    pub value: u64,
    /// Size of the symbol, in bytes.
    pub size: u64,
    /// Displayed binding of the symbol.
    pub bind: String,
}

/// An ELF object: its target description, its number of program headers,
/// its sections and its symbols.
pub struct BinaryObject {
    /// Architecture of the target.
    pub architecture: String,
    /// Operating system of the target.
    pub os: String,
    /// Endianness of the object.
    pub endianness: String,
    /// Number of program headers.
    pub programs: usize,
    /// Section headers, in file order.
    pub sections: Vec<SectionHeader>,
    /// Symbols, in table order.
    pub symbols: Vec<Symbol>,
}

/// The names of the sections of an object.
pub open spec fn section_names(b: BinaryObject) -> Seq<Seq<char>> {
    b.sections@.map_values(|s: SectionHeader| s.name@)
}

/// The names of the symbols of an object.
pub open spec fn symbol_names(b: BinaryObject) -> Seq<Seq<char>> {
    b.symbols@.map_values(|s: Symbol| s.name@)
}

impl BinaryObject {
    /// Returns the names of the sections.
    pub fn section_names(&self) -> (names: Vec<String>)
        ensures
            names@.map_values(|s: String| s@) == section_names(*self),
    {
        let mut names: Vec<String> = Vec::new();
        let mut i: usize = 0;
        while i < self.sections.len()
            invariant
                i <= self.sections@.len(),
                names@.len() == i,
                forall|j: int| 0 <= j < i ==> (#[trigger] names@[j])@ == self.sections@[j].name@,
            decreases self.sections@.len() - i,
        {
            names.push(self.sections[i].name.clone());
            i = i + 1;
        }
        assert(names@.map_values(|s: String| s@) =~= section_names(*self));
        names
    }

    /// Returns the names of the symbols.
    pub fn symbol_names(&self) -> (names: Vec<String>)
        ensures
            names@.map_values(|s: String| s@) == symbol_names(*self),
    {
        let mut names: Vec<String> = Vec::new();
        let mut i: usize = 0;
        while i < self.symbols.len()
            invariant
                i <= self.symbols@.len(),
                names@.len() == i,
                forall|j: int| 0 <= j < i ==> (#[trigger] names@[j])@ == self.symbols@[j].name@,
            decreases self.symbols@.len() - i,
        {
            names.push(self.symbols[i].name.clone());
            i = i + 1;
        }
        assert(names@.map_values(|s: String| s@) =~= symbol_names(*self));
        names
    }
}

} // verus!

verus! {

/// Another handle on a shared object (`Arc::clone`, which hands out a new
/// pointer to the same allocation): the object it points to is the same.
#[verifier::external_body]
pub(crate) fn share(b: &std::sync::Arc<BinaryObject>) -> (r: std::sync::Arc<BinaryObject>)
    ensures
        *r == **b,
{
    std::sync::Arc::clone(b)
}

} // verus!
