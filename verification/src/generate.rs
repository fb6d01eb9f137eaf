//! The generation driver: validates that the input definition is a
//! fixed-field record, locates the field marked `deref`, extracts the
//! marker's boolean argument, and describes the delegation code to
//! generate — read delegation always, write delegation only when the
//! argument is `true`. Every failure is a structured error; nothing is
//! generated for a failed invocation.

use vstd::prelude::*;
use crate::attribute::{first_marked_field, first_matching_marker, identify_attributed_field};
use crate::fields::{Field, FieldView, Marker, MarkerView, resolved_name};
use crate::types::{Attributed, Named};

verus! {

/// The marker identifier this generator looks for.
pub open spec fn deref_marker_ident() -> Seq<char> {
    "deref"@
}

/// Returns the marker identifier this generator looks for.
pub fn deref_attribute() -> (r: &'static str)
    ensures
        r@ == deref_marker_ident(),
{
    "deref"
}

/// The shape of an input definition: a fixed-field record, or one of
/// the tagged shapes this generator does not support.
pub enum RecordData {
    Struct(Vec<Field>),
    Enum,
    Union,
}

/// A structured record definition as handed in by the surrounding build
/// system: the record's identifier and its shape.
pub struct RecordInput {
    pub ident: String,
    pub data: RecordData,
}

/// The delegation code to generate for a record: the record's
/// identifier, the resolved name of the field delegated to, that
/// field's declared type (the result type of the delegation), and
/// whether write delegation is generated besides read delegation.
#[derive(Debug)]
pub struct DerefImpls {
    pub record_ident: String,
    pub field_name: String,
    pub target_ty: String,
    pub mutable: bool,
}

/// Why a generation attempt failed; every failure reflects a structural
/// mistake in the input definition.
#[derive(Debug)]
pub enum DeriveError {
    /// The input is not a fixed-field record.
    UnsupportedShape,
    /// No field carries the `deref` marker.
    MissingMarker,
    /// The marker's argument is absent or not a boolean literal.
    MalformedArgument,
}

impl DeriveError {
    /// The diagnostic text of the error.
    pub open spec fn spec_message(&self) -> Seq<char> {
        match self {
            DeriveError::UnsupportedShape => "Deref only supports structs"@,
            DeriveError::MissingMarker => "Could not locate position of deref field, be sure its annotated with `deref`"@,
            DeriveError::MalformedArgument => "malformed `deref` argument, expected a boolean literal"@,
        }
    }

    /// Renders the diagnostic text of the error.
    pub fn message(&self) -> (r: String)
        ensures
            r@ == self.spec_message(),
    {
        match self {
            DeriveError::UnsupportedShape => String::from_str("Deref only supports structs"),
            DeriveError::MissingMarker => String::from_str(
                "Could not locate position of deref field, be sure its annotated with `deref`",
            ),
            DeriveError::MalformedArgument => String::from_str(
                "malformed `deref` argument, expected a boolean literal",
            ),
        }
    }
}

/// The boolean a literal's source text denotes, if any: exactly `true`
/// and `false` are boolean literals.
pub open spec fn spec_parse_bool(s: Seq<char>) -> Option<bool> {
    if s == "true"@ {
        Some(true)
    } else if s == "false"@ {
        Some(false)
    } else {
        None
    }
}

/// Parses a literal's source text as a boolean literal.
pub fn parse_bool_literal(s: &str) -> (r: Option<bool>)
    ensures
        r == spec_parse_bool(s@),
{
    let v = String::from_str(s);
    if v == String::from_str("true") {
        Some(true)
    } else if v == String::from_str("false") {
        Some(false)
    } else {
        None
    }
}

/// The configuration a marker carries: the boolean its argument
/// denotes, or nothing when the argument is absent or not a boolean
/// literal.
pub open spec fn marker_config(m: MarkerView) -> Option<bool> {
    match m.arg {
        Some(s) => spec_parse_bool(s),
        None => None,
    }
}

/// Extracts the boolean configuration of a marker's argument.
pub fn marker_bool_argument(m: &Marker) -> (r: Option<bool>)
    ensures
        r == marker_config(m@),
{
    match &m.arg {
        Some(s) => parse_bool_literal(s.as_str()),
        None => None,
    }
}

/// The first `deref` marker of a field known to carry one.
pub open spec fn field_deref_marker(f: FieldView) -> MarkerView
    recommends
        first_matching_marker(f.markers, deref_marker_ident()) is Some,
{
    first_matching_marker(f.markers, deref_marker_ident())->Some_0
}

/// Generates delegation code for a record definition: the record must
/// be a fixed-field struct, exactly the first field marked `deref` is
/// delegated to under its resolved name and declared type, and write
/// delegation is added exactly when the marker's boolean argument is
/// `true`. Fails with the matching error on any other input, and emits
/// nothing then.
pub fn auto_deref_derive(input: &RecordInput) -> (r: Result<DerefImpls, DeriveError>)
    ensures
        (match input.data {
            RecordData::Struct(fields) => (match first_marked_field(
                fields.deep_view(),
                deref_marker_ident(),
            ) {
                Some(i) => (match marker_config(field_deref_marker(fields.deep_view()[i])) {
                    Some(b) => r matches Ok(g) && g.record_ident@ == input.ident@
                        && g.field_name@ == resolved_name(fields.deep_view()[i], i)
                        && g.target_ty@ == fields.deep_view()[i].ty && g.mutable == b,
                    None => r == Err::<DerefImpls, DeriveError>(DeriveError::MalformedArgument),
                }),
                None => r == Err::<DerefImpls, DeriveError>(DeriveError::MissingMarker),
            }),
            RecordData::Enum => r == Err::<DerefImpls, DeriveError>(DeriveError::UnsupportedShape),
            RecordData::Union => r == Err::<DerefImpls, DeriveError>(DeriveError::UnsupportedShape),
        }),
{
    let fields = match &input.data {
        RecordData::Struct(fields) => fields,
        _ => {
            return Err(DeriveError::UnsupportedShape);
        },
    };
    let located = match identify_attributed_field(fields, deref_attribute()) {
        Some(w) => w,
        None => {
            return Err(DeriveError::MissingMarker);
        },
    };
    let mutable = match marker_bool_argument(located.attribute()) {
        Some(b) => b,
        None => {
            return Err(DeriveError::MalformedArgument);
        },
    };
    let field_name = located.name().clone();
    let target_ty = located.inner().ty.clone();
    Ok(DerefImpls { record_ident: input.ident.clone(), field_name, target_ty, mutable })
}

} // verus!
