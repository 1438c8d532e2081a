//! What can go wrong while a `package.json` file is read or written.

use vstd::prelude::*;
use vstd::string::StringExecFns;

verus! {

/// Why a `package.json` file could not be read or written.
#[derive(Debug)]
pub enum PackageJsonError {
    /// No file path is known.
    NotLocated,
    /// The text is not JSON.
    Syntax(serde_json::Error),
    /// The text is JSON, but not an object.
    NotAnObject,
    /// The named attribute is missing though it is required, or it does not
    /// have the shape of the attribute.
    Attribute(String),
    /// The document could not be written as text.
    Unwritable(serde_json::Error),
}

/// The kind of a [`PackageJsonError`], with the attribute it names.
pub enum Failure {
    NotLocated,
    Syntax,
    NotAnObject,
    Attribute(Seq<char>),
    Unwritable,
}

impl View for PackageJsonError {
    type V = Failure;

    open spec fn view(&self) -> Failure {
        match self {
            PackageJsonError::NotLocated => Failure::NotLocated,
            PackageJsonError::Syntax(_) => Failure::Syntax,
            PackageJsonError::NotAnObject => Failure::NotAnObject,
            PackageJsonError::Attribute(name) => Failure::Attribute(name@),
            PackageJsonError::Unwritable(_) => Failure::Unwritable,
        }
    }
}

/// What `serde_json` says of an error, by `<serde_json::Error as
/// Display>`: a sentence with the line and the column. Nothing is claimed
/// about the text.
#[verifier::external_body]
fn report(error: &serde_json::Error) -> String {
    error.to_string()
}

/// The message of a failure of the library's own; nothing fixed for what
/// `serde_json` reports.
pub open spec fn message_of(failure: Failure) -> Option<Seq<char>> {
    match failure {
        Failure::NotLocated => Some("Couldn't find an available package.json file."@),
        Failure::NotAnObject => Some("A package.json file must hold a JSON object."@),
        Failure::Attribute(name) => Some(
            "The attribute `"@ + name + "` is missing or of the wrong shape."@,
        ),
        Failure::Syntax => None,
        Failure::Unwritable => None,
    }
}

impl PackageJsonError {
    /// The error as a sentence for the user. For text that is not JSON it
    /// is what `serde_json` reports.
    pub fn message(&self) -> (r: String)
        ensures
            message_of(self@) matches Some(text) ==> r@ == text,
    {
        match self {
            PackageJsonError::NotLocated => String::from_str(
                "Couldn't find an available package.json file.",
            ),
            PackageJsonError::NotAnObject => String::from_str(
                "A package.json file must hold a JSON object.",
            ),
            PackageJsonError::Attribute(name) => {
                let mut text = String::from_str("The attribute `");
                text.append(name.as_str());
                text.append("` is missing or of the wrong shape.");
                text
            },
            PackageJsonError::Syntax(error) => report(error),
            PackageJsonError::Unwritable(error) => report(error),
        }
    }
}

} // verus!
