use std::io::{Read, Write};

use nsvg::{check_path, encode_c_string, find_nul, Error, SvgImage, SvgRasterizer, Units};

const ONE: u64 = 1 << 32;

#[test]
fn error_when_parsing_an_svg_file_containing_nul() {
    let mut file = tempfile::NamedTempFile::new().unwrap();
    file.write_all(b"\0\n").unwrap();
    let mut contents = Vec::new();
    file.reopen().unwrap().read_to_end(&mut contents).unwrap();

    let svg = SvgImage::request_for_file(Ok(contents), Units::Pixel);

    let is_nul_error = match svg {
        Err(Error::NulError(_)) => true,
        _ => false,
    };

    assert!(is_nul_error);
}

#[test]
fn error_when_parsing_a_file_path_that_does_not_exist() {
    let path = std::path::Path::new("examples/missing.svg");
    assert!(check_path(path.to_str().unwrap().as_bytes()).is_ok());
    let read = match path.metadata() {
        Err(e) => Err(e.to_string()),
        Ok(_) => Ok(Vec::new()),
    };
    assert!(read.is_err());
    let svg = SvgImage::request_for_file(read, Units::Pixel);

    let is_parse_error = match svg {
        Err(Error::IoError(_)) => true,
        _ => false,
    };

    assert!(is_parse_error);
}

#[test]
fn io_error_keeps_the_message() {
    let svg = SvgImage::request_for_file(Err("denied".to_string()), Units::Pixel);
    assert!(matches!(svg, Err(Error::IoError(ref m)) if m == "denied"));
}

#[test]
fn unit_tokens_are_two_letters_and_a_terminator() {
    assert_eq!(Units::Pixel.as_c_str(), *b"px\0");
    assert_eq!(Units::Point.as_c_str(), *b"pt\0");
    assert_eq!(Units::Percent.as_c_str(), *b"pc\0");
    assert_eq!(Units::Millimeter.as_c_str(), *b"mm\0");
    assert_eq!(Units::Centimeter.as_c_str(), *b"cm\0");
    assert_eq!(Units::Inch.as_c_str(), *b"in\0");
    for u in [Units::Pixel, Units::Point, Units::Percent, Units::Millimeter, Units::Centimeter, Units::Inch] {
        let t = u.as_c_str();
        assert_eq!(t[2], 0);
        assert!(t[0] != 0 && t[1] != 0);
    }
}

#[test]
fn encoding_appends_one_terminator() {
    assert_eq!(encode_c_string(b"<svg/>".to_vec()).unwrap(), b"<svg/>\0".to_vec());
    assert_eq!(encode_c_string(Vec::new()).unwrap(), vec![0u8]);
}

#[test]
fn encoding_refuses_an_interior_zero_at_its_position() {
    assert!(matches!(encode_c_string(b"ab\0cd\0".to_vec()), Err(Error::NulError(2))));
    assert!(matches!(encode_c_string(vec![0u8]), Err(Error::NulError(0))));
    assert_eq!(find_nul(b"abc"), None);
    assert_eq!(find_nul(b"a\0c"), Some(1));
}

#[test]
fn request_for_str_carries_text_and_unit() {
    let req = SvgImage::request_for_str("<svg/>", Units::Millimeter).unwrap();
    assert_eq!(req.text().as_slice(), b"<svg/>\0");
    assert_eq!(req.unit_token(), *b"mm\0");
    assert!(matches!(SvgImage::request_for_str("<s\0vg/>", Units::Pixel), Err(Error::NulError(2))));
}

#[test]
fn request_for_file_encodes_contents() {
    let req = SvgImage::request_for_file(Ok(b"<svg/>".to_vec()), Units::Inch).unwrap();
    assert_eq!(req.text().as_slice(), b"<svg/>\0");
    assert_eq!(req.unit_token(), *b"in\0");
}

#[test]
fn path_with_a_terminator_is_an_encoding_error() {
    assert!(matches!(check_path(b"examples/sp\0iral.svg"), Err(Error::NulError(11))));
    assert!(check_path("examples/spìral.svg".as_bytes()).is_ok());
}

#[test]
fn null_document_is_a_parse_error() {
    assert!(matches!(SvgImage::from_parsed(0, 256 * ONE, 256 * ONE), Err(Error::ParseError)));
}

#[test]
fn parsed_document_reports_its_size() {
    let svg = SvgImage::from_parsed(0x1000, 256 * ONE, 128 * ONE + ONE / 2).unwrap();
    assert_eq!(svg.width(), 256 * ONE);
    assert_eq!(svg.height(), 128 * ONE + ONE / 2);
    assert_eq!(svg.handle(), 0x1000);
    assert_eq!(svg.release(), 0x1000);
}

#[test]
fn null_rasterizer_is_an_allocation_error() {
    assert!(matches!(SvgRasterizer::new(0), Err(Error::MallocError)));
    let r = SvgRasterizer::new(0x2000).unwrap();
    assert_eq!(r.handle(), 0x2000);
    assert_eq!(r.release(), 0x2000);
}

#[test]
fn errors_describe_themselves() {
    assert_eq!(Error::ParseError.description(), "An unknown parsing error");
    assert_eq!(Error::MallocError.description(), "Failed to allocate memory");
    assert_eq!(Error::RasterizeError.description(), "Failed to rasterize SVG");
    assert_eq!(Error::NulError(3).description(), "nul byte found in provided data");
    assert_eq!(Error::IoError("gone".to_string()).description(), "gone");
}
