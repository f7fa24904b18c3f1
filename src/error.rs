use vstd::prelude::*;

verus! {

/// Every way a parse or a rasterization can fail.
#[derive(Debug)]
pub enum Error {
    /// The host could not read the input; carries the host's message.
    IoError(String),
    /// The text held a zero byte at this position, which a zero-terminated
    /// string cannot carry.
    NulError(usize),
    /// The engine returned no document for the given content.
    ParseError,
    /// The engine could not allocate its rasterizer state.
    MallocError,
    /// The pixel buffer does not have the size its image declares.
    RasterizeError,
}

impl Error {
    /// What `description` says of each error.
    pub open spec fn spec_description(&self) -> Seq<char> {
        match self {
            Error::IoError(m) => m@,
            Error::NulError(_) => "nul byte found in provided data"@,
            Error::ParseError => "An unknown parsing error"@,
            Error::MallocError => "Failed to allocate memory"@,
            Error::RasterizeError => "Failed to rasterize SVG"@,
        }
    }

    /// A short account of the error for people to read.
    pub fn description(&self) -> (r: String)
        ensures
            r@ == self.spec_description(),
    {
        match self {
            Error::IoError(m) => m.clone(),
            Error::NulError(_) => "nul byte found in provided data".to_owned(),
            Error::ParseError => "An unknown parsing error".to_owned(),
            Error::MallocError => "Failed to allocate memory".to_owned(),
            Error::RasterizeError => "Failed to rasterize SVG".to_owned(),
        }
    }
}

} // verus!
