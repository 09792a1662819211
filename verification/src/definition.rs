//! The structured definition record produced by a successful lookup.

use vstd::prelude::*;

verus! {

/// The mathematical value of a [`WordDefinition`].
#[verifier::ext_equal]
pub struct DefinitionModel {
    pub word: Seq<char>,
    pub pronunciation: Seq<char>,
    pub definition: Seq<char>,
    pub examples: Seq<Seq<char>>,
    pub image: Seq<char>,
}

/// A dictionary entry for one word: its pronunciation, its definition,
/// example sentences, and an image reference. Constructed only from a
/// response payload that carries every field; never partially filled.
#[derive(Debug, Clone, PartialEq, Eq)]
pub struct WordDefinition {
    pub word: String,
    pub pronunciation: String,
    pub definition: String,
    pub examples: Vec<String>,
    pub image: String,
}

impl View for WordDefinition {
    type V = DefinitionModel;

    open spec fn view(&self) -> DefinitionModel {
        DefinitionModel {
            word: self.word@,
            pronunciation: self.pronunciation@,
            definition: self.definition@,
            examples: self.examples@.map_values(|s: String| s@),
            image: self.image@,
        }
    }
}

} // verus!
