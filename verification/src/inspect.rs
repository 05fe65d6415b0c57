use vstd::prelude::*;
use vstd::utf8::encode_utf8;

use crate::channel::Channel;
use crate::channel::log;
use crate::render::inspect_text;
use crate::render::location_text;
use crate::render::render_inspect_line;
use crate::render::render_location;

verus! {

/// The bytes that one inspection of an expression puts on the channel:
/// the UTF-8 encoding of the inspection line built from the call site, the
/// expression's source text, and the rendering of its value.
pub open spec fn inspect_message(
    file: Seq<char>,
    line: u64,
    column: u64,
    source: Seq<char>,
    value: Seq<char>,
) -> Seq<u8> {
    encode_utf8(inspect_text(file, line, column, source, value))
}

/// Relies on core::fmt's `Debug` formatting (`{:#?}`) to pretty-print a
/// value for an inspection line. A `Debug` implementation may render
/// anything, so nothing is promised of the result.
#[verifier::external_body]
fn render_value<T: core::fmt::Debug>(value: &T) -> String {
    format!("{:#?}", value)
}

/// Inspect a call site alone: the zero-expression form of the facility.
///
/// In a diagnostic build it transmits exactly one line holding the call's
/// file, line and column and nothing else; in a production build it
/// transmits nothing.
pub fn inspect_location(channel: &mut Channel, debug: bool, file: &str, line: u64, column: u64)
    ensures
        debug ==> final(channel)@ == old(channel)@.push(
            encode_utf8(location_text(file@, line, column)),
        ),
        !debug ==> final(channel)@ == old(channel)@,
{
    if debug {
        let stamp = render_location(file, line, column);
        log(channel, stamp.as_str());
    }
}

/// Inspect one already-rendered value: log the inspection line built from
/// the call site, the expression's source text and the given rendering,
/// and yield the value unchanged.
///
/// The value passes through untouched in both build modes, so wrapping an
/// expression in an inspection never changes its type or its value; only
/// the one logged line, present exactly in diagnostic builds, is added.
pub fn inspect_rendered<T>(
    channel: &mut Channel,
    debug: bool,
    file: &str,
    line: u64,
    column: u64,
    source: &str,
    value_text: &str,
    value: T,
) -> (r: T)
    ensures
        r == value,
        debug ==> final(channel)@ == old(channel)@.push(
            inspect_message(file@, line, column, source@, value_text@),
        ),
        !debug ==> final(channel)@ == old(channel)@,
{
    if debug {
        let line_text = render_inspect_line(file, line, column, source, value_text);
        log(channel, line_text.as_str());
    }
    value
}

/// Inspect one expression: the single-expression form of the facility.
///
/// The caller hands over the expression's value, evaluated exactly once at
/// the call site in either build mode; it comes back unchanged. In a
/// diagnostic build exactly one inspection line for this call site and
/// source text is transmitted, with some `Debug` rendering of the value;
/// in a production build nothing is transmitted.
pub fn inspect<T: core::fmt::Debug>(
    channel: &mut Channel,
    debug: bool,
    file: &str,
    line: u64,
    column: u64,
    source: &str,
    value: T,
) -> (r: T)
    ensures
        r == value,
        debug ==> exists|rendered: Seq<char>|
            final(channel)@ == old(channel)@.push(
                #[trigger] inspect_message(file@, line, column, source@, rendered),
            ),
        !debug ==> final(channel)@ == old(channel)@,
{
    if debug {
        let value_text = render_value(&value);
        let r = inspect_rendered(channel, true, file, line, column, source, value_text.as_str(), value);
        proof {
            assert(channel@ == old(channel)@.push(
                inspect_message(file@, line, column, source@, value_text@),
            ));
        }
        r
    } else {
        value
    }
}

/// Inspect two expressions: each is logged as its own inspection line, in
/// left-to-right order, and the pair of values comes back unchanged.
pub fn inspect2<T1: core::fmt::Debug, T2: core::fmt::Debug>(
    channel: &mut Channel,
    debug: bool,
    file: &str,
    line: u64,
    column: u64,
    source1: &str,
    value1: T1,
    source2: &str,
    value2: T2,
) -> (r: (T1, T2))
    ensures
        r == (value1, value2),
        debug ==> exists|rendered1: Seq<char>, rendered2: Seq<char>|
            final(channel)@ == old(channel)@.push(
                #[trigger] inspect_message(file@, line, column, source1@, rendered1),
            ).push(#[trigger] inspect_message(file@, line, column, source2@, rendered2)),
        !debug ==> final(channel)@ == old(channel)@,
{
    if debug {
        let text1 = render_value(&value1);
        let r1 = inspect_rendered(channel, true, file, line, column, source1, text1.as_str(), value1);
        let text2 = render_value(&value2);
        let r2 = inspect_rendered(channel, true, file, line, column, source2, text2.as_str(), value2);
        proof {
            assert(channel@ == old(channel)@.push(
                inspect_message(file@, line, column, source1@, text1@),
            ).push(inspect_message(file@, line, column, source2@, text2@)));
        }
        (r1, r2)
    } else {
        (value1, value2)
    }
}

/// Inspect three expressions: each is logged as its own inspection line,
/// in left-to-right order, and the ordered triple of values comes back
/// unchanged.
pub fn inspect3<T1: core::fmt::Debug, T2: core::fmt::Debug, T3: core::fmt::Debug>(
    channel: &mut Channel,
    debug: bool,
    file: &str,
    line: u64,
    column: u64,
    source1: &str,
    value1: T1,
    source2: &str,
    value2: T2,
    source3: &str,
    value3: T3,
) -> (r: (T1, T2, T3))
    ensures
        r == (value1, value2, value3),
        debug ==> exists|rendered1: Seq<char>, rendered2: Seq<char>, rendered3: Seq<char>|
            final(channel)@ == old(channel)@.push(
                #[trigger] inspect_message(file@, line, column, source1@, rendered1),
            ).push(#[trigger] inspect_message(file@, line, column, source2@, rendered2)).push(
                #[trigger] inspect_message(file@, line, column, source3@, rendered3),
            ),
        !debug ==> final(channel)@ == old(channel)@,
{
    if debug {
        let text1 = render_value(&value1);
        let r1 = inspect_rendered(channel, true, file, line, column, source1, text1.as_str(), value1);
        let text2 = render_value(&value2);
        let r2 = inspect_rendered(channel, true, file, line, column, source2, text2.as_str(), value2);
        let text3 = render_value(&value3);
        let r3 = inspect_rendered(channel, true, file, line, column, source3, text3.as_str(), value3);
        proof {
            assert(channel@ == old(channel)@.push(
                inspect_message(file@, line, column, source1@, text1@),
            ).push(inspect_message(file@, line, column, source2@, text2@)).push(
                inspect_message(file@, line, column, source3@, text3@),
            ));
        }
        (r1, r2, r3)
    } else {
        (value1, value2, value3)
    }
}

} // verus!
