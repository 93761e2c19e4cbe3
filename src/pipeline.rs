//! The palette pipeline: parse, validate, serialize, frame.

use vstd::prelude::*;

use crate::document::{
    all_slots, has_slot, names_first_missing, parse_colors, slot_values, toml_document, ParseError,
};
use crate::frame::{colors_json, frame, json_object_bytes, lemma_palette_json_size, spec_frame};
use crate::palette::{
    all_hex, is_hex_color, names_first_invalid, spec_field_name, spec_field_names, validate_hex_colors,
    ValidationError, FIELD_COUNT,
};

verus! {

/// Why a document produced no frame.
#[derive(Clone, Debug)]
pub enum ProcessError {
    /// The document does not have the shape of a palette.
    Parse(ParseError),
    /// A slot holds something other than a hex color.
    Validation(ValidationError),
    /// The payload is too long for a four-byte length header; holds its length.
    TooLarge(usize),
}

/// Frames a serialized payload, unless its length does not fit the header.
pub fn frame_payload(payload: Vec<u8>) -> (r: Result<Vec<u8>, ProcessError>)
    ensures
        if payload@.len() <= u32::MAX {
            r matches Ok(f) && f@ == spec_frame(payload@)
        } else {
            r matches Err(ProcessError::TooLarge(n)) && n == payload@.len()
        },
{
    if payload.len() <= 4294967295usize {
        Ok(frame(payload.as_slice()))
    } else {
        Err(ProcessError::TooLarge(payload.len()))
    }
}

/// What processing a document whose top-level entries are `entries` gives:
/// the error of the first absent or non-string slot; else the error of the
/// first slot that is not a hex color; else the frame of the palette's JSON
/// text.
pub open spec fn process_outcome(
    entries: Map<Seq<char>, Option<Seq<char>>>,
    r: Result<Vec<u8>, ProcessError>,
) -> bool {
    if !all_slots(entries) {
        r matches Err(ProcessError::Parse(e)) && names_first_missing(entries, e)
    } else if !all_hex(slot_values(entries)) {
        r matches Err(ProcessError::Validation(e)) && names_first_invalid(slot_values(entries), e)
    } else {
        r matches Ok(f) && f@ == spec_frame(json_object_bytes(spec_field_names(), slot_values(entries)))
    }
}

/// Turns the text of a palette file into the frame to send, or the reason
/// there is none.
pub fn process_content(text: &str) -> (r: Result<Vec<u8>, ProcessError>)
    ensures
        toml_document(text@) is None ==> r matches Err(ProcessError::Parse(ParseError::Syntax(_))),
        toml_document(text@) matches Some(entries) ==> process_outcome(entries, r),
{
    let colors = match parse_colors(text) {
        Ok(c) => c,
        Err(e) => {
            return Err(ProcessError::Parse(e));
        },
    };
    match validate_hex_colors(&colors) {
        Ok(()) => {},
        Err(e) => {
            return Err(ProcessError::Validation(e));
        },
    }
    let payload = colors_json(&colors);
    proof {
        lemma_palette_json_size(colors);
    }
    frame_payload(payload)
}

/// A document that holds all sixteen slots as hex colors yields a frame, and
/// that frame carries the JSON text of exactly those sixteen values, named by
/// their slots.
pub proof fn lemma_valid_palette_is_framed(
    entries: Map<Seq<char>, Option<Seq<char>>>,
    r: Result<Vec<u8>, ProcessError>,
)
    requires
        all_slots(entries),
        all_hex(slot_values(entries)),
        process_outcome(entries, r),
    ensures
        r matches Ok(f) && f@ == spec_frame(json_object_bytes(spec_field_names(), slot_values(entries))),
{
}

/// A document that lacks a slot, or holds it as something other than a
/// string, yields a parse error and no frame.
pub proof fn lemma_missing_slot_is_parse_error(
    entries: Map<Seq<char>, Option<Seq<char>>>,
    i: int,
    r: Result<Vec<u8>, ProcessError>,
)
    requires
        0 <= i < FIELD_COUNT,
        !has_slot(entries, i),
        process_outcome(entries, r),
    ensures
        r matches Err(ProcessError::Parse(_)),
{
}

/// A document whose slots are all strings, all hex colors but slot `i`,
/// yields a validation error that names slot `i` and its value.
pub proof fn lemma_single_bad_slot_is_named(
    entries: Map<Seq<char>, Option<Seq<char>>>,
    i: int,
    r: Result<Vec<u8>, ProcessError>,
)
    requires
        0 <= i < FIELD_COUNT,
        all_slots(entries),
        !is_hex_color(slot_values(entries)[i]),
        forall|j: int| 0 <= j < FIELD_COUNT && j != i ==> is_hex_color(#[trigger] slot_values(entries)[j]),
        process_outcome(entries, r),
    ensures
        r matches Err(ProcessError::Validation(e))
            && e.field@ == spec_field_name(i)
            && e.value@ == slot_values(entries)[i],
{
}

/// Where slots `i` and `j`, `i < j`, are both not hex colors and every slot
/// before `i` is one, the validation error names slot `i` alone.
pub proof fn lemma_first_bad_slot_wins(
    entries: Map<Seq<char>, Option<Seq<char>>>,
    i: int,
    j: int,
    r: Result<Vec<u8>, ProcessError>,
)
    requires
        0 <= i < j < FIELD_COUNT,
        all_slots(entries),
        !is_hex_color(slot_values(entries)[i]),
        !is_hex_color(slot_values(entries)[j]),
        forall|k: int| 0 <= k < i ==> is_hex_color(#[trigger] slot_values(entries)[k]),
        process_outcome(entries, r),
    ensures
        r matches Err(ProcessError::Validation(e))
            && e.field@ == spec_field_name(i)
            && e.value@ == slot_values(entries)[i],
{
}

} // verus!
