use vstd::prelude::*;
use crate::error::Error;
use vstd::string::StringSliceAdditionalSpecFns;
use crate::text::{encode_c_string, first_nul, no_interior_nul};
use crate::units::{unit_token, Units};

verus! {

/// What the engine's parse call receives: the document as a zero-terminated
/// string and the unit it should resolve lengths in.
///
/// Only `encode_c_string` makes the text, so it always ends in its one zero
/// byte.
pub struct ParseRequest {
    text: Vec<u8>,
    units: Units,
}

impl ParseRequest {
    /// The bytes handed to the engine, terminator included.
    pub closed spec fn spec_text(&self) -> Seq<u8> {
        self.text@
    }

    pub closed spec fn spec_units(&self) -> Units {
        self.units
    }

    /// The zero-terminated document text.
    pub fn text(&self) -> (r: &Vec<u8>)
        ensures
            r@ == self.spec_text(),
    {
        &self.text
    }

    /// Gives up the zero-terminated document text, for a call that may write
    /// into it.
    pub fn into_text(self) -> (r: Vec<u8>)
        ensures
            r@ == self.spec_text(),
    {
        self.text
    }

    /// The zero-terminated unit token.
    pub fn unit_token(&self) -> (r: [u8; 3])
        ensures
            r@ == unit_token(self.spec_units()),
    {
        self.units.as_c_str()
    }
}

/// A parse request for `content`, or the encoding error that stops it before
/// the engine is called.
pub open spec fn request_spec(content: Seq<u8>, units: Units, r: Result<ParseRequest, Error>) -> bool {
    &&& no_interior_nul(content) <==> r is Ok
    &&& r matches Ok(q) ==> q.spec_text() == content.push(0u8) && q.spec_units() == units
    &&& r matches Err(e) ==> e matches Error::NulError(i) && first_nul(content, i as int)
}

/// An owned parsed document of the engine.
///
/// The handle is never zero: a zero handle is a failed parse and never
/// becomes a document. The document is given back to the engine through
/// `release`, which consumes it, so it cannot be released twice or read
/// after release.
pub struct SvgImage {
    handle: usize,
    width: u64,
    height: u64,
}

impl SvgImage {
    pub closed spec fn spec_handle(&self) -> usize {
        self.handle
    }

    pub closed spec fn spec_width(&self) -> u64 {
        self.width
    }

    pub closed spec fn spec_height(&self) -> u64 {
        self.height
    }

    pub closed spec fn wf(&self) -> bool {
        self.handle != 0
    }

    /// Prepares the engine call for document text held in memory.
    pub fn request_for_str(svg_str: &str, units: Units) -> (r: Result<ParseRequest, Error>)
        ensures
            request_spec(svg_str.spec_bytes(), units, r),
    {
        let bytes = vstd::slice::slice_to_vec(svg_str.as_bytes());
        match encode_c_string(bytes) {
            Ok(text) => Ok(ParseRequest { text, units }),
            Err(e) => Err(e),
        }
    }

    /// Prepares the engine call from the outcome of reading a document file.
    ///
    /// A failed read is an I/O error, carried unchanged; it is never taken for
    /// a parse error.
    pub fn request_for_file(read: Result<Vec<u8>, String>, units: Units) -> (r: Result<
        ParseRequest,
        Error,
    >)
        ensures
            read matches Err(m) ==> r matches Err(e) && e matches Error::IoError(m2) && m2@
                == m@,
            read matches Ok(content) ==> request_spec(content@, units, r),
    {
        match read {
            Err(m) => Err(Error::IoError(m)),
            Ok(content) => match encode_c_string(content) {
                Ok(text) => Ok(ParseRequest { text, units }),
                Err(e) => Err(e),
            },
        }
    }

    /// Takes ownership of what the engine's parse call returned: its handle
    /// (zero when it failed) and the document's size, in 32.32 fixed point.
    pub fn from_parsed(handle: usize, width: u64, height: u64) -> (r: Result<SvgImage, Error>)
        ensures
            handle == 0 <==> r is Err,
            r matches Err(e) ==> e is ParseError,
            r matches Ok(img) ==> img.wf() && img.spec_handle() == handle && img.spec_width()
                == width && img.spec_height() == height,
    {
        if handle == 0 {
            Err(Error::ParseError)
        } else {
            Ok(SvgImage { handle, width, height })
        }
    }

    /// The document's width as the engine reported it, in 32.32 fixed point.
    pub fn width(&self) -> (r: u64)
        ensures
            r == self.spec_width(),
    {
        self.width
    }

    /// The document's height as the engine reported it, in 32.32 fixed point.
    pub fn height(&self) -> (r: u64)
        ensures
            r == self.spec_height(),
    {
        self.height
    }

    /// The engine's handle, for a call that only borrows the document.
    pub fn handle(&self) -> (r: usize)
        requires
            self.wf(),
        ensures
            r == self.spec_handle(),
            r != 0,
    {
        self.handle
    }

    /// Gives up the document and returns the handle the engine must now
    /// delete. The document is consumed, so this happens once.
    pub fn release(self) -> (r: usize)
        requires
            self.wf(),
        ensures
            r == self.spec_handle(),
            r != 0,
    {
        self.handle
    }
}

/// An owned rasterizer context of the engine; like a document, its handle is
/// never zero and `release` consumes it.
pub struct SvgRasterizer {
    handle: usize,
}

impl SvgRasterizer {
    pub closed spec fn spec_handle(&self) -> usize {
        self.handle
    }

    pub closed spec fn wf(&self) -> bool {
        self.handle != 0
    }

    /// Takes ownership of what the engine's create call returned; zero means
    /// it could not allocate.
    pub fn new(handle: usize) -> (r: Result<SvgRasterizer, Error>)
        ensures
            handle == 0 <==> r is Err,
            r matches Err(e) ==> e is MallocError,
            r matches Ok(z) ==> z.wf() && z.spec_handle() == handle,
    {
        if handle == 0 {
            Err(Error::MallocError)
        } else {
            Ok(SvgRasterizer { handle })
        }
    }

    /// The engine's handle, for a call that only borrows the context.
    pub fn handle(&self) -> (r: usize)
        requires
            self.wf(),
        ensures
            r == self.spec_handle(),
            r != 0,
    {
        self.handle
    }

    /// Gives up the context and returns the handle the engine must now delete.
    pub fn release(self) -> (r: usize)
        requires
            self.wf(),
        ensures
            r == self.spec_handle(),
            r != 0,
    {
        self.handle
    }
}

} // verus!
