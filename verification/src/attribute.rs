//! The field locator: scans a record's fields in declared order for the
//! first one carrying a marker with a requested identifier, and packages
//! the match as a named-and-marked wrapper. The traversal itself is
//! parameterized over the match test and the combine step, so the same
//! loop serves any matching policy.

use vstd::prelude::*;
use crate::fields::{Field, FieldView, Marker, MarkerView, resolve_field_name, resolved_name};
use crate::types::{Named, SimpleNamedAttributed};

verus! {

/// The first marker of `markers` at or after position `i` whose
/// identifier is `ident`, if any.
pub open spec fn first_matching_marker_from(
    markers: Seq<MarkerView>,
    ident: Seq<char>,
    i: int,
) -> Option<MarkerView>
    decreases markers.len() - i,
{
    if i < 0 || i >= markers.len() {
        None
    } else if markers[i].ident == ident {
        Some(markers[i])
    } else {
        first_matching_marker_from(markers, ident, i + 1)
    }
}

/// The first marker of `markers` whose identifier is `ident`, if any.
pub open spec fn first_matching_marker(markers: Seq<MarkerView>, ident: Seq<char>) -> Option<
    MarkerView,
> {
    first_matching_marker_from(markers, ident, 0)
}

/// Whether some marker of the field has the identifier `ident`.
pub open spec fn field_has_marker(f: FieldView, ident: Seq<char>) -> bool {
    first_matching_marker(f.markers, ident) is Some
}

/// The position of the first field of `fields` at or after position `i`
/// carrying a marker with identifier `ident`, if any.
pub open spec fn first_marked_field_from(fields: Seq<FieldView>, ident: Seq<char>, i: int) -> Option<
    int,
>
    decreases fields.len() - i,
{
    if i < 0 || i >= fields.len() {
        None
    } else if field_has_marker(fields[i], ident) {
        Some(i)
    } else {
        first_marked_field_from(fields, ident, i + 1)
    }
}

/// The position of the first field of `fields` carrying a marker with
/// identifier `ident`, if any.
pub open spec fn first_marked_field(fields: Seq<FieldView>, ident: Seq<char>) -> Option<int> {
    first_marked_field_from(fields, ident, 0)
}

proof fn lemma_first_marked_field_from(fields: Seq<FieldView>, ident: Seq<char>, i: int)
    requires
        0 <= i <= fields.len(),
    ensures
        match first_marked_field_from(fields, ident, i) {
            Some(j) => i <= j < fields.len() && field_has_marker(fields[j], ident)
                && (forall|k: int| i <= k < j ==> !field_has_marker(fields[k], ident)),
            None => forall|k: int| i <= k < fields.len() ==> !field_has_marker(fields[k], ident),
        },
    decreases fields.len() - i,
{
    if i < fields.len() && !field_has_marker(fields[i], ident) {
        lemma_first_marked_field_from(fields, ident, i + 1);
    }
}

/// Law: the locator's choice is deterministic and first-match. When a
/// field is located it is marked, every field before it is unmarked, and
/// when none is located no field of the list is marked.
pub proof fn lemma_first_marked_field_is_first(fields: Seq<FieldView>, ident: Seq<char>)
    ensures
        match first_marked_field(fields, ident) {
            Some(i) => 0 <= i < fields.len() && field_has_marker(fields[i], ident)
                && (forall|k: int| 0 <= k < i ==> !field_has_marker(fields[k], ident)),
            None => forall|k: int| 0 <= k < fields.len() ==> !field_has_marker(fields[k], ident),
        },
{
    lemma_first_marked_field_from(fields, ident, 0);
}

/// Returns the first marker declared on the field whose identifier is
/// `attribute_ident`, or nothing when the field carries no such marker.
pub fn get_attribute<'a>(field: &'a Field, attribute_ident: &str) -> (r: Option<&'a Marker>)
    ensures
        match r {
            Some(m) => first_matching_marker(field@.markers, attribute_ident@) == Some(m@),
            None => first_matching_marker(field@.markers, attribute_ident@) is None,
        },
{
    let target = String::from_str(attribute_ident);
    let n = field.markers.len();
    let mut j: usize = 0;
    while j < n
        invariant
            n == field.markers@.len(),
            0 <= j <= n,
            target@ == attribute_ident@,
            first_matching_marker(field@.markers, attribute_ident@) == first_matching_marker_from(
                field@.markers,
                attribute_ident@,
                j as int,
            ),
        decreases n - j,
    {
        let m: &Marker = &field.markers[j];
        proof {
            assert(m@ == field@.markers[j as int]);
        }
        if m.ident == target {
            return Some(m);
        }
        j = j + 1;
    }
    None
}

/// What a marker-match test reports of one field: the first marker with
/// the requested identifier when the field carries one, else no match.
pub open spec fn marker_match_result(field: FieldView, ident: Seq<char>, res: Option<Marker>) -> bool {
    match res {
        Some(m) => first_matching_marker(field.markers, ident) == Some(m@),
        None => first_matching_marker(field.markers, ident) is None,
    }
}

/// The traversal skipped position `k`: the match test, given the field
/// standing there, returned no match.
pub open spec fn locator_skips<E, P: Fn(usize, Field) -> Option<E>>(
    predicate: P,
    fields: Seq<FieldView>,
    k: int,
) -> bool {
    exists|f: Field|
        f@ == fields[k] && call_ensures(predicate, (k as usize, f), Option::<E>::None)
}

/// The traversal selected position `i` and produced `t`: the match test,
/// given the field standing there, returned a match, and the combine
/// step, given that field, the match and the field's resolved name,
/// produced `t`.
pub open spec fn locator_selects<
    E,
    T,
    P: Fn(usize, Field) -> Option<E>,
    M: Fn(Field, E, String) -> T,
>(predicate: P, mapper: M, fields: Seq<FieldView>, i: int, t: T) -> bool {
    exists|f: Field, f2: Field, e: E, name: String|
        f@ == fields[i] && f2@ == fields[i] && name@ == resolved_name(fields[i], i)
            && call_ensures(predicate, (i as usize, f), Option::Some(e)) && call_ensures(
            mapper,
            (f2, e, name),
            t,
        )
}

/// The traversal located position `i` and produced `t`: every earlier
/// position was skipped and position `i` was selected.
pub open spec fn locator_locates<
    E,
    T,
    P: Fn(usize, Field) -> Option<E>,
    M: Fn(Field, E, String) -> T,
>(predicate: P, mapper: M, fields: Seq<FieldView>, i: int, t: T) -> bool {
    0 <= i < fields.len() && (forall|k: int| 0 <= k < i ==> locator_skips(predicate, fields, k))
        && locator_selects(predicate, mapper, fields, i, t)
}

/// Scans the fields in declared order; on the first one for which the
/// match test returns a match, resolves the field's name, hands field,
/// match and name to the combine step and returns its result at once.
/// Later fields are never examined. Absence of a match is a legitimate
/// outcome, not a failure.
pub fn identify_field<
    E,
    T: Named<String>,
    P: Fn(usize, Field) -> Option<E>,
    M: Fn(Field, E, String) -> T,
>(fields: &Vec<Field>, predicate: P, mapper: M) -> (r: Option<T>)
    requires
        forall|k: int, f: Field|
            0 <= k < fields@.len() && f@ == fields.deep_view()[k] ==> call_requires(
                predicate,
                (k as usize, f),
            ),
        forall|f: Field, e: E, name: String| call_requires(mapper, (f, e, name)),
    ensures
        r is Some ==> exists|i: int|
            #[trigger] locator_locates(predicate, mapper, fields.deep_view(), i, r->Some_0),
        r is None ==> forall|k: int|
            0 <= k < fields@.len() ==> locator_skips(predicate, fields.deep_view(), k),
{
    let n = fields.len();
    let mut j: usize = 0;
    while j < n
        invariant
            n == fields@.len(),
            0 <= j <= n,
            forall|k: int, f: Field|
                0 <= k < fields@.len() && f@ == fields.deep_view()[k] ==> call_requires(
                    predicate,
                    (k as usize, f),
                ),
            forall|f: Field, e: E, name: String| call_requires(mapper, (f, e, name)),
            forall|k: int| 0 <= k < j ==> locator_skips(predicate, fields.deep_view(), k),
        decreases n - j,
    {
        let fr: &Field = &fields[j];
        proof {
            assert(fr@ == fields.deep_view()[j as int]);
        }
        let fld = fr.clone();
        match predicate(j, fld) {
            None => {
                proof {
                    assert(locator_skips(predicate, fields.deep_view(), j as int));
                }
                j = j + 1;
            },
            Some(extra) => {
                let fr2: &Field = &fields[j];
                let fld2 = fr2.clone();
                let name = resolve_field_name(fr2, j);
                let t = mapper(fld2, extra, name);
                let r: Option<T> = Some(t);
                proof {
                    assert(locator_selects(predicate, mapper, fields.deep_view(), j as int, r->Some_0));
                    assert(locator_locates(predicate, mapper, fields.deep_view(), j as int, r->Some_0));
                    assert(exists|i: int|
                        #[trigger] locator_locates(
                            predicate,
                            mapper,
                            fields.deep_view(),
                            i,
                            r->Some_0,
                        ));
                }
                return r;
            },
        }
    }
    None
}

/// Locates the first field (in declared order) carrying a marker whose
/// identifier is `attribute_ident`, and packages it with its first such
/// marker and its resolved name; returns nothing when no field carries
/// such a marker.
pub fn identify_attributed_field(fields: &Vec<Field>, attribute_ident: &str) -> (r: Option<
    SimpleNamedAttributed<Field, Marker, String>,
>)
    ensures
        match first_marked_field(fields.deep_view(), attribute_ident@) {
            Some(i) => r matches Some(w) && w.inner@ == fields.deep_view()[i] && Some(w.attribute@)
                == first_matching_marker(fields.deep_view()[i].markers, attribute_ident@)
                && w.name@ == resolved_name(fields.deep_view()[i], i),
            None => r is None,
        },
{
    let target = String::from_str(attribute_ident);
    let predicate = |_idx: usize, field: Field| -> (res: Option<Marker>)
        ensures
            marker_match_result(field@, target@, res),
        {
            match get_attribute(&field, target.as_str()) {
                Some(m) => Some(m.clone()),
                None => None,
            }
        };
    let mapper = |field: Field, marker: Marker, name: String| -> (res: SimpleNamedAttributed<Field, Marker, String>)
        ensures
            res.inner == field && res.attribute == marker && res.name == name,
        {
            SimpleNamedAttributed::create(field, marker, name)
        };
    let r = identify_field(fields, predicate, mapper);
    proof {
        let dv = fields.deep_view();
        let id = attribute_ident@;
        lemma_first_marked_field_is_first(dv, id);
        if r is Some {
            let w = r->Some_0;
            let i = choose|i: int| locator_locates(predicate, mapper, dv, i, w);
            assert(locator_locates(predicate, mapper, dv, i, w));
            assert forall|k: int| 0 <= k < i implies !field_has_marker(dv[k], id) by {
                assert(locator_skips(predicate, dv, k));
                let f = choose|f: Field|
                    f@ == dv[k] && call_ensures(predicate, (k as usize, f), Option::<Marker>::None);
                assert(marker_match_result(f@, id, Option::<Marker>::None));
            }
            let (f, f2, e, name) = choose|f: Field, f2: Field, e: Marker, name: String|
                f@ == dv[i] && f2@ == dv[i] && name@ == resolved_name(dv[i], i)
                    && call_ensures(predicate, (i as usize, f), Option::Some(e))
                    && call_ensures(mapper, (f2, e, name), w);
            assert(marker_match_result(f@, id, Option::Some(e)));
            assert(field_has_marker(dv[i], id));
            assert(first_marked_field(dv, id) == Some(i));
            assert(w.inner == f2 && w.attribute == e && w.name == name);
        } else {
            assert forall|k: int| 0 <= k < dv.len() implies !field_has_marker(dv[k], id) by {
                assert(locator_skips(predicate, dv, k));
                let f = choose|f: Field|
                    f@ == dv[k] && call_ensures(predicate, (k as usize, f), Option::<Marker>::None);
                assert(marker_match_result(f@, id, Option::<Marker>::None));
            }
            assert(first_marked_field(dv, id) is None);
        }
    }
    r
}

} // verus!
