use vstd::prelude::*;

verus! {

/// Error taxonomy of the library.
///
/// Every variant carries a human-readable description of what went wrong.
/// `IoError` marks a fatal run failure (a directory that could not be
/// listed, or a failing channel); the remaining variants report rejected
/// encodings and malformed identity material.
#[derive(Debug)]
pub enum Error {
    Syntax(String),
    InvalidSigil(String),
    InvalidMeta(String),
    InvalidEncoding(String),
    IoError(String),
    Base64EncodingError(String),
    NotUrlSafeBase64(String),
}

impl Error {
    /// The description string carried by the variant.
    pub open spec fn spec_description(&self) -> Seq<char> {
        match self {
            Error::Syntax(e) => e@,
            Error::InvalidSigil(e) => e@,
            Error::InvalidMeta(e) => e@,
            Error::InvalidEncoding(e) => e@,
            Error::IoError(e) => e@,
            Error::Base64EncodingError(e) => e@,
            Error::NotUrlSafeBase64(e) => e@,
        }
    }

    pub fn description(&self) -> (r: &String)
        ensures
            r@ == self.spec_description(),
    {
        match self {
            Error::Syntax(e) => e,
            Error::InvalidSigil(e) => e,
            Error::InvalidMeta(e) => e,
            Error::InvalidEncoding(e) => e,
            Error::IoError(e) => e,
            Error::Base64EncodingError(e) => e,
            Error::NotUrlSafeBase64(e) => e,
        }
    }

    /// The fatal error reported when a directory picked for scanning
    /// cannot be listed.
    pub fn scan_failed(dir: &String) -> (r: Error)
        ensures
            r matches Error::IoError(m) && m@ == "read_dir failed: "@ + dir@,
    {
        let mut m = String::new();
        m.append("read_dir failed: ");
        m.append(dir.as_str());
        Error::IoError(m)
    }
}

impl Clone for Error {
    fn clone(&self) -> (r: Self)
        ensures
            r == *self,
    {
        match self {
            Error::Syntax(e) => Error::Syntax(e.clone()),
            Error::InvalidSigil(e) => Error::InvalidSigil(e.clone()),
            Error::InvalidMeta(e) => Error::InvalidMeta(e.clone()),
            Error::InvalidEncoding(e) => Error::InvalidEncoding(e.clone()),
            Error::IoError(e) => Error::IoError(e.clone()),
            Error::Base64EncodingError(e) => Error::Base64EncodingError(e.clone()),
            Error::NotUrlSafeBase64(e) => Error::NotUrlSafeBase64(e.clone()),
        }
    }
}

} // verus!
