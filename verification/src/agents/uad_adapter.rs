//! The adapter for UAD forms: which element of a form goes to which field of
//! the property data.

use crate::text_map::TextMap;
use vstd::prelude::*;

verus! {

/// The version of the UAD schema that the adapter reads and writes.
pub const UAD_SCHEMA_VERSION: &'static str = "3.2";

/// What a UAD form says of the subject property.
#[derive(Clone, Debug)]
pub struct PropertyData {
    pub subject_address: String,
    pub borrower_name: String,
    pub property_rights: String,
    pub legal_description: String,
    pub apn: String,
}

/// One finding of the validation of a form.
#[derive(Clone, Debug)]
pub struct ValidationError {
    pub field: String,
    pub message: String,
    pub severity: String,
}

#[derive(Clone, Debug)]
pub struct UADAdapterAgent {
    pub schema_version: String,
    pub field_mappings: TextMap,
}

/// `mappings` with the five standard elements mapped to their fields.
pub open spec fn with_standard_mappings(mappings: Map<Seq<char>, Seq<char>>) -> Map<Seq<char>, Seq<char>> {
    mappings.insert("SubjectPropertyAddress"@, "subject_address"@).insert(
        "BorrowerName"@,
        "borrower_name"@,
    ).insert("PropertyRightsAppraised"@, "property_rights"@).insert(
        "LegalDescription"@,
        "legal_description"@,
    ).insert("AssessorParcelNumber"@, "apn"@)
}

impl UADAdapterAgent {
    /// An adapter for the current schema with the standard mappings.
    pub fn new() -> (agent: UADAdapterAgent)
        ensures
            agent.schema_version@ == UAD_SCHEMA_VERSION@,
            agent.field_mappings@ == with_standard_mappings(Map::empty()),
    {
        let mut agent = UADAdapterAgent {
            schema_version: UAD_SCHEMA_VERSION.to_owned(),
            field_mappings: TextMap::new(),
        };
        agent.initialize_field_mappings();
        agent
    }

    /// The name under which the agent is registered and addressed.
    pub fn id(&self) -> (id: &'static str)
        ensures
            id@ == "uad-adapter-agent"@,
    {
        "uad-adapter-agent"
    }

    /// The content types that the agent says it can handle.
    pub fn capabilities(&self) -> (list: Vec<String>)
        ensures
            list@.len() == 4,
            list@[0]@ == "uad-xml-parsing"@,
            list@[1]@ == "uad-xml-generation"@,
            list@[2]@ == "uad-validation"@,
            list@[3]@ == "field-mapping"@,
    {
        let mut list: Vec<String> = Vec::new();
        list.push("uad-xml-parsing".to_owned());
        list.push("uad-xml-generation".to_owned());
        list.push("uad-validation".to_owned());
        list.push("field-mapping".to_owned());
        list
    }

    /// Maps the five standard elements to their fields, whatever they were
    /// mapped to before; other mappings stay.
    pub fn initialize_field_mappings(&mut self)
        ensures
            final(self).field_mappings@ == with_standard_mappings(old(self).field_mappings@),
            final(self).schema_version == old(self).schema_version,
    {
        self.field_mappings.insert("SubjectPropertyAddress".to_owned(), "subject_address".to_owned());
        self.field_mappings.insert("BorrowerName".to_owned(), "borrower_name".to_owned());
        self.field_mappings.insert("PropertyRightsAppraised".to_owned(), "property_rights".to_owned());
        self.field_mappings.insert("LegalDescription".to_owned(), "legal_description".to_owned());
        self.field_mappings.insert("AssessorParcelNumber".to_owned(), "apn".to_owned());
    }
}

} // verus!
