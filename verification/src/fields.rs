//! The structural model of a record definition: fields and the markers
//! attached to them, their mathematical views, and the resolved name of
//! a field (its explicit identifier when present, else the decimal form
//! of its position).

use vstd::prelude::*;

verus! {

/// The mathematical view of a marker.
pub ghost struct MarkerView {
    pub ident: Seq<char>,
    pub arg: Option<Seq<char>>,
}

/// A declarative annotation attached to a field: an identifier and an
/// optional argument, carried as the source text of a single literal.
pub struct Marker {
    pub ident: String,
    pub arg: Option<String>,
}

impl View for Marker {
    type V = MarkerView;

    open spec fn view(&self) -> MarkerView {
        MarkerView {
            ident: self.ident@,
            arg: match self.arg {
                Some(s) => Some(s@),
                None => None,
            },
        }
    }
}

impl DeepView for Marker {
    type V = MarkerView;

    open spec fn deep_view(&self) -> MarkerView {
        self.view()
    }
}

impl Clone for Marker {
    fn clone(&self) -> (r: Self)
        ensures
            r@ == self@,
    {
        Marker {
            ident: self.ident.clone(),
            arg: match &self.arg {
                Some(s) => Some(s.clone()),
                None => None,
            },
        }
    }
}

/// The mathematical view of a field.
pub ghost struct FieldView {
    pub ident: Option<Seq<char>>,
    pub ty: Seq<char>,
    pub markers: Seq<MarkerView>,
}

/// One element of a record's structure: an optional explicit identifier
/// (absent for positional fields), a declared type carried as opaque
/// source text, and the markers declared on the field.
pub struct Field {
    pub ident: Option<String>,
    pub ty: String,
    pub markers: Vec<Marker>,
}

impl View for Field {
    type V = FieldView;

    open spec fn view(&self) -> FieldView {
        FieldView {
            ident: match self.ident {
                Some(s) => Some(s@),
                None => None,
            },
            ty: self.ty@,
            markers: self.markers.deep_view(),
        }
    }
}

impl DeepView for Field {
    type V = FieldView;

    open spec fn deep_view(&self) -> FieldView {
        self.view()
    }
}

impl Clone for Field {
    fn clone(&self) -> (r: Self)
        ensures
            r@ == self@,
    {
        let markers = clone_markers(&self.markers);
        Field {
            ident: match &self.ident {
                Some(s) => Some(s.clone()),
                None => None,
            },
            ty: self.ty.clone(),
            markers,
        }
    }
}

fn clone_markers(markers: &Vec<Marker>) -> (r: Vec<Marker>)
    ensures
        r.deep_view() == markers.deep_view(),
{
    let mut out: Vec<Marker> = Vec::new();
    let mut i: usize = 0;
    while i < markers.len()
        invariant
            0 <= i <= markers@.len(),
            out@.len() == i,
            forall|j: int| 0 <= j < i ==> out@[j]@ == #[trigger] markers@[j]@,
        decreases markers@.len() - i,
    {
        out.push(markers[i].clone());
        i = i + 1;
    }
    proof {
        assert(out.deep_view() =~= markers.deep_view());
    }
    out
}

/// The decimal digit for a value below ten.
pub open spec fn dec_digit(d: nat) -> char
    recommends
        d < 10,
{
    if d == 0 {
        '0'
    } else if d == 1 {
        '1'
    } else if d == 2 {
        '2'
    } else if d == 3 {
        '3'
    } else if d == 4 {
        '4'
    } else if d == 5 {
        '5'
    } else if d == 6 {
        '6'
    } else if d == 7 {
        '7'
    } else if d == 8 {
        '8'
    } else {
        '9'
    }
}

/// The decimal form of a number: its digits in order, no sign, no
/// leading zero except for the number zero itself.
pub open spec fn dec_rep(n: nat) -> Seq<char>
    decreases n,
{
    if n < 10 {
        seq![dec_digit(n)]
    } else {
        dec_rep(n / 10).push(dec_digit(n % 10))
    }
}

/// The resolved name of a field standing at position `idx` of its
/// record: the explicit identifier when present, else the decimal form
/// of the position.
pub open spec fn resolved_name(f: FieldView, idx: int) -> Seq<char>
    recommends
        0 <= idx,
{
    match f.ident {
        Some(s) => s,
        None => dec_rep(idx as nat),
    }
}

fn digit_str(d: usize) -> (r: &'static str)
    requires
        d < 10,
    ensures
        r@ == seq![dec_digit(d as nat)],
{
    proof {
        reveal_strlit("0");
        reveal_strlit("1");
        reveal_strlit("2");
        reveal_strlit("3");
        reveal_strlit("4");
        reveal_strlit("5");
        reveal_strlit("6");
        reveal_strlit("7");
        reveal_strlit("8");
        reveal_strlit("9");
    }
    let r = match d {
        0 => "0",
        1 => "1",
        2 => "2",
        3 => "3",
        4 => "4",
        5 => "5",
        6 => "6",
        7 => "7",
        8 => "8",
        _ => "9",
    };
    proof {
        assert(r@ =~= seq![dec_digit(d as nat)]);
    }
    r
}

/// The decimal form of a position, as a string.
pub fn usize_to_string(n: usize) -> (r: String)
    ensures
        r@ == dec_rep(n as nat),
    decreases n,
{
    if n < 10 {
        String::from_str(digit_str(n))
    } else {
        let mut s = usize_to_string(n / 10);
        s.append(digit_str(n % 10));
        proof {
            assert(s@ =~= dec_rep(n as nat));
        }
        s
    }
}

/// Resolves a field's name exactly as `resolved_name` states it; the
/// locator and the generation driver both name fields through here, so
/// the two always agree.
pub fn resolve_field_name(field: &Field, index: usize) -> (r: String)
    ensures
        r@ == resolved_name(field@, index as int),
{
    match &field.ident {
        Some(s) => s.clone(),
        None => usize_to_string(index),
    }
}

} // verus!
