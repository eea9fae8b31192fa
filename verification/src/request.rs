//! The parameter resolver: raw invocation values in, a validated render
//! request out.

use vstd::prelude::*;
use vstd::string::*;
use crate::color::{Color, ColorError, hex_body, is_valid_hex_color, spec_color_of_hex,
    parse_hex_color};
use crate::encode::{OutputFormat, FormatError, spec_parse_format, parse_format};

verus! {

/// A fully validated request: the one input of the rendering pipeline.
#[derive(Debug)]
pub struct RenderRequest {
    pub width: u32,
    pub height: u32,
    pub bg: Color,
    pub fg: Color,
    pub text: String,
    pub format: OutputFormat,
    pub output: String,
}

/// Why a request was rejected: a missing required argument, a malformed
/// color, or an unknown format name.
#[derive(Debug)]
pub enum ResolveError {
    MissingWidth,
    MissingHeight,
    InvalidColor(ColorError),
    UnsupportedFormat(FormatError),
}

impl ResolveError {
    /// The diagnostic text for the rejected request.
    pub fn message(&self) -> (m: String)
        ensures
            match self {
                ResolveError::MissingWidth => m@
                    == "the following required arguments were not provided: --width"@,
                ResolveError::MissingHeight => m@
                    == "the following required arguments were not provided: --height"@,
                ResolveError::InvalidColor(e) => m@ == "Invalid hex color: "@ + e.given@,
                ResolveError::UnsupportedFormat(e) => m@ == "Unsupported format: "@ + e.given@,
            },
    {
        match self {
            ResolveError::MissingWidth => String::from_str(
                "the following required arguments were not provided: --width",
            ),
            ResolveError::MissingHeight => String::from_str(
                "the following required arguments were not provided: --height",
            ),
            ResolveError::InvalidColor(e) => e.message(),
            ResolveError::UnsupportedFormat(e) => e.message(),
        }
    }
}

/// The given value, or the default where none was given.
pub open spec fn spec_or_default(given: Option<Seq<char>>, default: Seq<char>) -> Seq<char> {
    match given {
        Some(s) => s,
        None => default,
    }
}

/// The views of an optional string argument.
pub open spec fn opt_view(o: Option<&str>) -> Option<Seq<char>> {
    match o {
        Some(s) => Some(s@),
        None => None,
    }
}

fn or_default<'a>(given: Option<&'a str>, default: &'a str) -> (r: &'a str)
    ensures
        r@ == spec_or_default(opt_view(given), default@),
{
    match given {
        Some(s) => s,
        None => default,
    }
}

/// Validates the invocation parameters in order: width and height are
/// required; the colors must be 6-digit hex strings (defaults `#cccccc`
/// background, `#333333` foreground); the format name must be one of the
/// supported set (default `png`); the text (default `holderplace`) and the
/// output path (default `out.png`) are taken as given. The first invalid
/// field decides the error.
pub fn resolve(
    width: Option<u32>,
    height: Option<u32>,
    bg: Option<&str>,
    fg: Option<&str>,
    text: Option<&str>,
    format: Option<&str>,
    output: Option<&str>,
) -> (r: Result<RenderRequest, ResolveError>)
    ensures
        ({
            let bgs = spec_or_default(opt_view(bg), "#cccccc"@);
            let fgs = spec_or_default(opt_view(fg), "#333333"@);
            let fmts = spec_or_default(opt_view(format), "png"@);
            &&& (width is None ==> r matches Err(ResolveError::MissingWidth))
            &&& (width is Some && height is None ==> r matches Err(ResolveError::MissingHeight))
            &&& (width is Some && height is Some && !is_valid_hex_color(bgs) ==> (r matches Err(
                ResolveError::InvalidColor(e),
            ) && e.given@ == hex_body(bgs)))
            &&& (width is Some && height is Some && is_valid_hex_color(bgs)
                && !is_valid_hex_color(fgs) ==> (r matches Err(ResolveError::InvalidColor(e))
                && e.given@ == hex_body(fgs)))
            &&& (width is Some && height is Some && is_valid_hex_color(bgs) && is_valid_hex_color(
                fgs,
            ) && spec_parse_format(fmts) is None ==> (r matches Err(
                ResolveError::UnsupportedFormat(e),
            ) && e.given@ == fmts))
            &&& (width is Some && height is Some && is_valid_hex_color(bgs) && is_valid_hex_color(
                fgs,
            ) && spec_parse_format(fmts) is Some ==> (r matches Ok(q) && q.width == width->0
                && q.height == height->0 && q.bg == spec_color_of_hex(bgs) && q.fg
                == spec_color_of_hex(fgs) && q.text@ == spec_or_default(
                opt_view(text),
                "holderplace"@,
            ) && Some(q.format) == spec_parse_format(fmts) && q.output@ == spec_or_default(
                opt_view(output),
                "out.png"@,
            )))
        }),
{
    let w = match width {
        Some(w) => w,
        None => {
            return Err(ResolveError::MissingWidth);
        },
    };
    let h = match height {
        Some(h) => h,
        None => {
            return Err(ResolveError::MissingHeight);
        },
    };
    let bg_color = match parse_hex_color(or_default(bg, "#cccccc")) {
        Ok(c) => c,
        Err(e) => {
            return Err(ResolveError::InvalidColor(e));
        },
    };
    let fg_color = match parse_hex_color(or_default(fg, "#333333")) {
        Ok(c) => c,
        Err(e) => {
            return Err(ResolveError::InvalidColor(e));
        },
    };
    let fmt = match parse_format(or_default(format, "png")) {
        Ok(f) => f,
        Err(e) => {
            return Err(ResolveError::UnsupportedFormat(e));
        },
    };
    Ok(
        RenderRequest {
            width: w,
            height: h,
            bg: bg_color,
            fg: fg_color,
            text: String::from_str(or_default(text, "holderplace")),
            format: fmt,
            output: String::from_str(or_default(output, "out.png")),
        },
    )
}

} // verus!
