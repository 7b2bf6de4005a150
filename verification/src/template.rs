//! A conversion template: which fields a source file has, and which fields
//! of the destination they go to.

use vstd::prelude::*;

verus! {

/// One field of a file.
#[derive(Clone, Debug)]
pub struct Field {
    pub index: usize,
    pub friendly_name: String,
    pub data_type: String,
    pub key: String,
}

#[derive(Clone, Debug)]
pub struct Fields {
    pub fields: Vec<Field>,
}

#[derive(Clone, Debug)]
pub struct TemplateSettings {
    pub source_file_path: String,
    pub source_delimiter: String,
    pub source_has_header: String,
}

#[derive(Clone, Debug)]
pub struct Template {
    pub primary_fields: Fields,
    pub secondary_fields: Fields,
    pub direction: String,
    pub mapping_option: String,
    pub split_option: String,
    pub settings: TemplateSettings,
    pub primary_converter: String,
    pub secondary_converter: String,
    pub customer_number: String,
    pub template_name: String,
    pub description: String,
}

} // verus!
