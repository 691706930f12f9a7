//! Errors in reading a property of an entity.
use vstd::prelude::*;

verus! {

/// A property that an entity should hold is missing, or holds a value of
/// another type.
#[derive(Debug)]
pub enum ConvertError {
    MissingProperty(String),
    UnexpectedPropertyType { expected: String, got: String },
}

/// The text of a conversion error.
pub open spec fn convert_error_text(e: ConvertError) -> Seq<char> {
    match e {
        ConvertError::MissingProperty(name) => "expected property `"@ + name@ + "` was missing"@,
        ConvertError::UnexpectedPropertyType { expected, got } => "expected property type `"@
            + expected@ + "`, got `"@ + got@ + "`"@,
    }
}

impl ConvertError {
    pub fn to_display_string(&self) -> (r: String)
        ensures
            r@ == convert_error_text(*self),
    {
        let mut r = String::new();
        match self {
            ConvertError::MissingProperty(name) => {
                r.append("expected property `");
                r.append(name.as_str());
                r.append("` was missing");
            },
            ConvertError::UnexpectedPropertyType { expected, got } => {
                r.append("expected property type `");
                r.append(expected.as_str());
                r.append("`, got `");
                r.append(got.as_str());
                r.append("`");
            },
        }
        r
    }
}

} // verus!
