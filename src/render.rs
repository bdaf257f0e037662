use crate::error::{
    find_byte, first_at, lemma_reports_one_error, reports, same_error, PiktError, PiktErrorReason,
};
use crate::options::{default_class, Options, OptionsBuilder};
use vstd::prelude::*;
use vstd::string::StringSliceAdditionalSpecFns;
use vstd::utf8::*;

verus! {

/// The text that the engine wrote, on either side of its result.
pub open spec fn text_result(r: Result<String, String>) -> Result<Seq<char>, Seq<char>> {
    match r {
        Ok(s) => Ok(s@),
        Err(e) => Err(e@),
    }
}

/// Relies on `pikchr::Pikchr::render` (the C pikchr engine): it compiles the
/// markup to SVG, or writes a plain-text diagnostic when the flags ask for
/// plain-text errors, as the default flags do. What it writes also depends on
/// the process's numeric locale and the platform's maths library, so nothing
/// is promised of it. The engine reads the class up to a nul byte, so one is
/// appended.
#[verifier::external_body]
fn engine_render(source: &str, class: &str, dark_mode: bool) -> (r: Result<String, String>) {
    let mut flags = pikchr::PikchrFlags::default();
    if dark_mode {
        flags.use_dark_mode();
    }
    let mut class = class.to_string();
    class.push('\0');
    match pikchr::Pikchr::render(source, Some(&class), flags) {
        Ok(svg) => Ok(svg.rendered().to_string()),
        Err(text) => Err(text),
    }
}

/// The offset of the first nul byte of `b`, or its length.
pub open spec fn nul_offset(b: Seq<u8>) -> int {
    first_at(b, 0, b.len() as int, 0u8)
}

/// `e` is an error with no position and the given reason.
pub open spec fn unplaced(e: PiktError, reason: PiktErrorReason) -> bool {
    e.spec_line() == 0 && e.spec_column() == 0 && e.spec_reason() == reason
}

/// `r` is the outcome of rendering `input` with root class `class`: a nul
/// byte in the class, then one in the markup, is refused at its offset;
/// otherwise the engine's SVG is returned, or an error that a diagnostic of
/// the engine reports.
pub open spec fn render_outcome(input: &str, class: Seq<char>, r: Result<String, PiktError>) -> bool {
    let cb = encode_utf8(class);
    let ib = input.spec_bytes();
    if nul_offset(cb) < cb.len() {
        r is Err && unplaced(
            r->Err_0,
            PiktErrorReason::IncompatibleInput(nul_offset(cb) as usize),
        )
    } else if nul_offset(ib) < ib.len() {
        r is Err && unplaced(
            r->Err_0,
            PiktErrorReason::IncompatibleInput(nul_offset(ib) as usize),
        )
    } else {
        r is Err ==> (exists|text: Seq<char>| reports(r->Err_0, encode_utf8(text))) && !(r->Err_0.spec_reason() is IncompatibleInput)
    }
}

/// `r` is what the engine's text `out` amounts to: its SVG as it stands, or
/// the error that its diagnostic reports.
pub open spec fn engine_result(
    out: Result<Seq<char>, Seq<char>>,
    r: Result<String, PiktError>,
) -> bool {
    match out {
        Ok(svg) => r is Ok && r->Ok_0@ == svg,
        Err(text) => r is Err && reports(r->Err_0, encode_utf8(text)),
    }
}

/// A diagnostic never reports a nul byte in the input.
pub proof fn lemma_reports_no_nul_error(e: PiktError, b: Seq<u8>)
    requires
        reports(e, b),
    ensures
        !(e.spec_reason() is IncompatibleInput),
{
}

/// Renders the given pikchr markup as SVG with the default options.
///
/// Use [`render_with`] to change them.
pub fn render(input: &str) -> (r: Result<String, PiktError>)
    ensures
        render_outcome(input, default_class(), r),
{
    let options = OptionsBuilder::default().build();
    render_with(input, options)
}

/// Renders the given pikchr markup as SVG with the given options.
///
/// It fails where the markup or the class holds a nul byte, and wherever the
/// engine reports an error; see [`PiktError`].
pub fn render_with(input: &str, options: Options) -> (r: Result<String, PiktError>)
    ensures
        render_outcome(input, options.spec_class(), r),
{
    let class = options.class();
    let cb = class.as_bytes();
    let cn = find_byte(cb, 0, cb.len(), 0u8);
    if cn < cb.len() {
        return Err(PiktError::new(0, 0, PiktErrorReason::IncompatibleInput(cn)));
    }
    let ib = input.as_bytes();
    let n = find_byte(ib, 0, ib.len(), 0u8);
    if n < ib.len() {
        return Err(PiktError::new(0, 0, PiktErrorReason::IncompatibleInput(n)));
    }
    let dark_mode = options.flags().is_dark_mode();
    let out = engine_render(input, class, dark_mode);
    let ghost text = text_result(out);
    let r = from_engine(out);
    proof {
        if let Err(t) = text {
            lemma_reports_no_nul_error(r->Err_0, encode_utf8(t));
        }
    }
    r
}

/// Turns what the engine wrote into the result of a render: its SVG as it
/// stands, or the error that its diagnostic reports.
pub fn from_engine(out: Result<String, String>) -> (r: Result<String, PiktError>)
    ensures
        engine_result(text_result(out), r),
{
    match out {
        Ok(svg) => Ok(svg),
        Err(text) => Err(PiktError::parse_diagnostic(text.as_str())),
    }
}

/// Two results of a render agree: the same SVG text, or the same error.
pub open spec fn same_outcome(a: Result<String, PiktError>, b: Result<String, PiktError>) -> bool {
    match (a, b) {
        (Ok(x), Ok(y)) => x@ == y@,
        (Err(x), Err(y)) => same_error(x, y),
        _ => false,
    }
}

/// What follows the engine is deterministic: the same text from the engine
/// gives the same SVG text, or the same error.
pub proof fn lemma_from_engine_deterministic(
    out: Result<Seq<char>, Seq<char>>,
    r1: Result<String, PiktError>,
    r2: Result<String, PiktError>,
)
    requires
        engine_result(out, r1),
        engine_result(out, r2),
    ensures
        same_outcome(r1, r2),
{
    if let Err(text) = out {
        lemma_reports_one_error(encode_utf8(text), r1->Err_0, r2->Err_0);
    }
}

} // verus!
