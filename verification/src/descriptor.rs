//! The one-time device-description exchange: locating the descriptor in
//! the raw response and parsing its `;`-separated `id=value` attributes.

use vstd::prelude::*;
use vstd::utf8::{decode_utf8, valid_utf8};
use crate::session::Sun2000;
use crate::strutil;
use crate::strutil::parse_u8_spec;

verus! {

/// A malformed descriptor response.  Either way the exchange is written
/// off; the failure never ends the session.
#[derive(Clone, PartialEq, Eq, Structural, Debug)]
pub enum DescriptorError {
    /// The advertised length runs past the end of the response.
    Truncated,
    /// The descriptor payload is not valid UTF-8.
    MalformedText,
}

/// One parsed device-description attribute.
#[derive(Debug)]
pub struct DeviceAttribute {
    pub id: String,
    pub name: &'static str,
    pub value: String,
}

/// Mathematical model of a [`DeviceAttribute`].
#[verifier::ext_equal]
pub struct AttrModel {
    pub id: Seq<char>,
    pub name: Seq<char>,
    pub value: Seq<char>,
}

impl View for DeviceAttribute {
    type V = AttrModel;

    open spec fn view(&self) -> AttrModel {
        AttrModel { id: self.id@, name: self.name@, value: self.value@ }
    }
}

/// The views of an attribute vector.
pub open spec fn attrs_view(v: Seq<DeviceAttribute>) -> Seq<AttrModel> {
    Seq::new(v.len(), |i: int| v[i]@)
}

/// The first index at which `x` occurs in `s`.
pub open spec fn spec_find_byte(s: Seq<u8>, x: u8) -> Option<int>
    decreases s.len(),
{
    if s.len() == 0 {
        None
    } else if s[0] == x {
        Some(0)
    } else {
        match spec_find_byte(s.drop_first(), x) {
            Some(i) => Some(i + 1),
            None => None,
        }
    }
}

/// The first index at which `x` occurs in `s`.
pub open spec fn spec_find_char(s: Seq<char>, x: char) -> Option<int>
    decreases s.len(),
{
    if s.len() == 0 {
        None
    } else if s[0] == x {
        Some(0)
    } else {
        match spec_find_char(s.drop_first(), x) {
            Some(i) => Some(i + 1),
            None => None,
        }
    }
}

/// The human-readable name of a device-description attribute id.
pub open spec fn spec_attribute_name(id: Seq<char>) -> Seq<char> {
    match parse_u8_spec(id) {
        Some(n) => if n == 1 {
            "Device model"@
        } else if n == 2 {
            "Device software version"@
        } else if n == 3 {
            "Port protocol version"@
        } else if n == 4 {
            "ESN"@
        } else if n == 5 {
            "Device ID"@
        } else if n == 6 {
            "Feature version"@
        } else {
            "Unknown attribute"@
        },
        None => "Unknown attribute"@,
    }
}

/// What one `;`-piece contributes: nothing without an `=`; otherwise the
/// id before the first `=`, the value up to the second `=` or the end,
/// and the id's resolved attribute name.
pub open spec fn spec_attr_of(piece: Seq<char>) -> Option<AttrModel> {
    match spec_find_char(piece, '=') {
        None => None,
        Some(i) => {
            let id = piece.subrange(0, i);
            let rest = piece.subrange(i + 1, piece.len() as int);
            let value = match spec_find_char(rest, '=') {
                Some(j) => rest.subrange(0, j),
                None => rest,
            };
            Some(AttrModel { id, name: spec_attribute_name(id), value })
        },
    }
}

/// A found index lies within the sequence, at the separator.
pub proof fn lemma_find_char_bounds(s: Seq<char>, x: char)
    ensures
        spec_find_char(s, x) matches Some(i) ==> 0 <= i < s.len() && s[i] == x,
    decreases s.len(),
{
    if s.len() > 0 && s[0] != x {
        lemma_find_char_bounds(s.drop_first(), x);
    }
}

/// Splits on a separator; a string without the separator is one piece,
/// so the result is never empty.
pub open spec fn spec_split(s: Seq<char>, sep: char) -> Seq<Seq<char>>
    decreases s.len(),
    via spec_split_decreases
{
    match spec_find_char(s, sep) {
        Some(i) => seq![s.subrange(0, i)] + spec_split(s.subrange(i + 1, s.len() as int), sep),
        None => seq![s],
    }
}

#[via_fn]
proof fn spec_split_decreases(s: Seq<char>, sep: char) {
    lemma_find_char_bounds(s, sep);
}

/// The attributes contributed by a piece run, in order.
pub open spec fn spec_attrs_pieces(pieces: Seq<Seq<char>>) -> Seq<AttrModel>
    decreases pieces.len(),
{
    if pieces.len() == 0 {
        Seq::empty()
    } else {
        let rest = spec_attrs_pieces(pieces.drop_last());
        match spec_attr_of(pieces.last()) {
            Some(a) => rest.push(a),
            None => rest,
        }
    }
}

/// What parsing a raw descriptor response yields: nothing without the
/// descriptor marker byte; past the marker, a one-byte length prefixes
/// the payload, which must lie within the response and decode as UTF-8;
/// the payload's `;`-pieces holding an `=` become attributes.
pub open spec fn spec_parse_descriptor(a: Seq<u8>) -> Result<Seq<AttrModel>, DescriptorError> {
    match spec_find_byte(a, 0x88) {
        None => Ok(Seq::empty()),
        Some(i) => {
            let rest = a.subrange(i + 1, a.len() as int);
            if rest.len() < 1 {
                Err(DescriptorError::Truncated)
            } else {
                let l = rest[0] as int;
                if rest.len() < 1 + l {
                    Err(DescriptorError::Truncated)
                } else {
                    let payload = rest.subrange(1, 1 + l);
                    if valid_utf8(payload) {
                        Ok(spec_attrs_pieces(spec_split(decode_utf8(payload), ';')))
                    } else {
                        Err(DescriptorError::MalformedText)
                    }
                }
            }
        },
    }
}

/// The attributes of a single piece.
proof fn lemma_attrs_single(piece: Seq<char>)
    ensures
        spec_attrs_pieces(seq![piece]) == (match spec_attr_of(piece) {
            Some(x) => seq![x],
            None => Seq::<AttrModel>::empty(),
        }),
{
    assert(spec_attrs_pieces(Seq::<Seq<char>>::empty()) =~= Seq::<AttrModel>::empty());
    assert(seq![piece].drop_last() =~= Seq::<Seq<char>>::empty());
    assert(seq![piece].last() == piece);
    match spec_attr_of(piece) {
        Some(x) => {
            assert(spec_attrs_pieces(seq![piece]) =~= seq![x]);
        },
        None => {
            assert(spec_attrs_pieces(seq![piece]) =~= Seq::<AttrModel>::empty());
        },
    }
}

/// Attribute extraction distributes over piece concatenation.
proof fn lemma_attrs_pieces_concat(a: Seq<Seq<char>>, b: Seq<Seq<char>>)
    ensures
        spec_attrs_pieces(a + b) == spec_attrs_pieces(a) + spec_attrs_pieces(b),
    decreases b.len(),
{
    if b.len() == 0 {
        assert(a + b =~= a);
        assert(spec_attrs_pieces(a) + spec_attrs_pieces(b) =~= spec_attrs_pieces(a));
    } else {
        assert((a + b).drop_last() =~= a + b.drop_last());
        assert((a + b).last() == b.last());
        lemma_attrs_pieces_concat(a, b.drop_last());
        match spec_attr_of(b.last()) {
            Some(x) => {
                assert(spec_attrs_pieces(a + b) =~= spec_attrs_pieces(a) + spec_attrs_pieces(b));
            },
            None => {
                assert(spec_attrs_pieces(a + b) =~= spec_attrs_pieces(a) + spec_attrs_pieces(b));
            },
        }
    }
}

/// A scan that saw no `x` before `i` pins down `spec_find_char`.
proof fn lemma_find_char_at(s: Seq<char>, x: char, i: int)
    requires
        0 <= i <= s.len(),
        forall|j: int| 0 <= j < i ==> s[j] != x,
        i < s.len() ==> s[i] == x,
    ensures
        i < s.len() ==> spec_find_char(s, x) == Some(i),
        i == s.len() ==> spec_find_char(s, x) is None,
    decreases i,
{
    if s.len() == 0 {
    } else if i == 0 {
    } else {
        assert(s.drop_first() =~= s.subrange(1, s.len() as int));
        lemma_find_char_at(s.drop_first(), x, i - 1);
    }
}

/// A scan that saw no `x` before `i` pins down `spec_find_byte`.
proof fn lemma_find_byte_at(s: Seq<u8>, x: u8, i: int)
    requires
        0 <= i <= s.len(),
        forall|j: int| 0 <= j < i ==> s[j] != x,
        i < s.len() ==> s[i] == x,
    ensures
        i < s.len() ==> spec_find_byte(s, x) == Some(i),
        i == s.len() ==> spec_find_byte(s, x) is None,
    decreases i,
{
    if s.len() == 0 {
    } else if i == 0 {
    } else {
        assert(s.drop_first() =~= s.subrange(1, s.len() as int));
        lemma_find_byte_at(s.drop_first(), x, i - 1);
    }
}

/// Finds the first `x` in `v`, searching from `from`.
fn find_byte_from(v: &Vec<u8>, from: usize, x: u8) -> (r: Option<usize>)
    requires
        from <= v@.len(),
    ensures
        match r {
            Some(i) => from <= i < v@.len() && v@[i as int] == x && forall|j: int|
                from <= j < i ==> v@[j] != x,
            None => forall|j: int| from <= j < v@.len() ==> v@[j] != x,
        },
{
    let n = v.len();
    let mut i: usize = from;
    while i < n
        invariant
            from <= i <= n,
            n == v@.len(),
            forall|j: int| from <= j < i ==> v@[j] != x,
        decreases n - i,
    {
        if v[i] == x {
            return Some(i);
        }
        i += 1;
    }
    None
}

/// Finds the first `x` in `v` within the index range `[from, to)`.
fn find_char_in(v: &Vec<char>, from: usize, to: usize, x: char) -> (r: Option<usize>)
    requires
        from <= to <= v@.len(),
    ensures
        match r {
            Some(i) => from <= i < to && v@[i as int] == x && forall|j: int|
                from <= j < i ==> v@[j] != x,
            None => forall|j: int| from <= j < to ==> v@[j] != x,
        },
{
    let mut i: usize = from;
    while i < to
        invariant
            from <= i <= to <= v@.len(),
            forall|j: int| from <= j < i ==> v@[j] != x,
        decreases to - i,
    {
        if v[i] == x {
            return Some(i);
        }
        i += 1;
    }
    None
}

/// The human-readable name of a device-description attribute id, per
/// [`spec_attribute_name`]: ids 1 to 6 are known, everything else is an
/// unknown attribute.
pub fn get_attribute_name(id: &str) -> (r: &'static str)
    ensures
        r@ == spec_attribute_name(id@),
{
    match strutil::parse_u8(id) {
        Some(1) => "Device model",
        Some(2) => "Device software version",
        Some(3) => "Port protocol version",
        Some(4) => "ESN",
        Some(5) => "Device ID",
        Some(6) => "Feature version",
        _ => "Unknown attribute",
    }
}

/// Appends the attribute of the piece `v[from..to]`, if it holds one.
fn push_attr(v: &Vec<char>, from: usize, to: usize, out: &mut Vec<DeviceAttribute>)
    requires
        from <= to <= v@.len(),
    ensures
        attrs_view(final(out)@) == attrs_view(old(out)@) + (match spec_attr_of(
            v@.subrange(from as int, to as int),
        ) {
            Some(x) => seq![x],
            None => Seq::<AttrModel>::empty(),
        }),
{
    let ghost piece = v@.subrange(from as int, to as int);
    match find_char_in(v, from, to, '=') {
        None => {
            proof {
                lemma_find_char_at(piece, '=', piece.len() as int);
                assert(attrs_view(out@) =~= attrs_view(out@) + Seq::<AttrModel>::empty());
            }
        },
        Some(eq) => {
            proof {
                lemma_find_char_at(piece, '=', eq - from);
            }
            let idv = strutil::copy_char_range(v, from, eq);
            let ghost rest = piece.subrange(eq - from + 1, piece.len() as int);
            proof {
                assert(rest =~= v@.subrange(eq + 1, to as int));
            }
            let valv = match find_char_in(v, eq + 1, to, '=') {
                Some(e2) => {
                    proof {
                        lemma_find_char_at(rest, '=', e2 - eq - 1);
                        assert(rest.subrange(0, e2 - eq - 1) =~= v@.subrange(
                            eq + 1,
                            e2 as int,
                        ));
                    }
                    strutil::copy_char_range(v, eq + 1, e2)
                },
                None => {
                    proof {
                        lemma_find_char_at(rest, '=', rest.len() as int);
                        assert(rest =~= v@.subrange(eq + 1, to as int));
                    }
                    strutil::copy_char_range(v, eq + 1, to)
                },
            };
            let ghost idc = idv@;
            let ghost valc = valv@;
            let id = strutil::string_from_chars(idv);
            let name = get_attribute_name(id.as_str());
            let value = strutil::string_from_chars(valv);
            proof {
                assert(idc =~= piece.subrange(0, eq - from));
            }
            let attr = DeviceAttribute { id, name, value };
            let ghost am = attr@;
            out.push(attr);
            proof {
                match spec_attr_of(piece) {
                    Some(x) => {
                        assert(am =~~= x);
                        assert(attrs_view(out@) =~~= attrs_view(old(out)@) + seq![x]);
                    },
                    None => {
                        assert(false);
                    },
                }
            }
        },
    }
}

/// Appends the attributes of every `;`-piece of `v[from..]`.
fn split_attrs(v: &Vec<char>, from: usize, out: &mut Vec<DeviceAttribute>)
    requires
        from <= v@.len(),
    ensures
        attrs_view(final(out)@) == attrs_view(old(out)@) + spec_attrs_pieces(
            spec_split(v@.subrange(from as int, v@.len() as int), ';'),
        ),
    decreases v@.len() - from,
{
    let ghost tail = v@.subrange(from as int, v@.len() as int);
    match find_char_in(v, from, v.len(), ';') {
        Some(i) => {
            proof {
                lemma_find_char_at(tail, ';', i - from);
                assert(tail.subrange(0, i - from) =~= v@.subrange(from as int, i as int));
                assert(tail.subrange(i - from + 1, tail.len() as int) =~= v@.subrange(
                    i + 1,
                    v@.len() as int,
                ));
            }
            push_attr(v, from, i, out);
            split_attrs(v, i + 1, out);
            proof {
                let piece = v@.subrange(from as int, i as int);
                let restsplit = spec_split(v@.subrange(i + 1, v@.len() as int), ';');
                lemma_attrs_pieces_concat(seq![piece], restsplit);
                lemma_attrs_single(piece);
                assert(attrs_view(out@) =~= attrs_view(old(out)@) + spec_attrs_pieces(
                    spec_split(tail, ';'),
                ));
            }
        },
        None => {
            proof {
                lemma_find_char_at(tail, ';', tail.len() as int);
            }
            push_attr(v, from, v.len(), out);
            proof {
                lemma_attrs_single(tail);
                assert(tail =~= v@.subrange(from as int, v@.len() as int));
            }
        },
    }
}

impl Sun2000 {
    /// Parses a raw device-description response, per
    /// [`spec_parse_descriptor`]: locates the descriptor marker, reads
    /// the one-byte length, UTF-8-decodes the length-prefixed payload,
    /// and extracts its `id=value` attributes.
    pub fn attribute_parser(&self, a: Vec<u8>) -> (r: Result<Vec<DeviceAttribute>, DescriptorError>)
        ensures
            r matches Ok(attrs) ==> Ok::<Seq<AttrModel>, DescriptorError>(attrs_view(attrs@))
                == spec_parse_descriptor(a@),
            r matches Err(e) ==> Err::<Seq<AttrModel>, DescriptorError>(e)
                == spec_parse_descriptor(a@),
    {
        match find_byte_from(&a, 0, 0x88) {
            None => {
                proof {
                    lemma_find_byte_at(a@, 0x88, a@.len() as int);
                }
                let r: Vec<DeviceAttribute> = Vec::new();
                proof {
                    assert(attrs_view(r@) =~= Seq::<AttrModel>::empty());
                }
                Ok(r)
            },
            Some(i) => {
                proof {
                    lemma_find_byte_at(a@, 0x88, i as int);
                }
                let n = a.len();
                let ghost rest = a@.subrange(i + 1, a@.len() as int);
                if i + 1 >= n {
                    return Err(DescriptorError::Truncated);
                }
                let l = a[i + 1] as usize;
                proof {
                    assert(rest[0] == a@[i + 1]);
                }
                if n - (i + 2) < l {
                    return Err(DescriptorError::Truncated);
                }
                let payload: Vec<u8> = vstd::slice::slice_to_vec(
                    vstd::slice::slice_subrange(a.as_slice(), i + 2, i + 2 + l),
                );
                proof {
                    assert(payload@ =~= rest.subrange(1, 1 + l));
                }
                match strutil::string_from_utf8(payload) {
                    None => Err(DescriptorError::MalformedText),
                    Some(s) => {
                        let chars = strutil::str_chars_vec(s.as_str());
                        let mut out: Vec<DeviceAttribute> = Vec::new();
                        proof {
                            assert(attrs_view(out@) =~= Seq::<AttrModel>::empty());
                        }
                        split_attrs(&chars, 0, &mut out);
                        proof {
                            assert(chars@.subrange(0, chars@.len() as int) =~= chars@);
                            assert(attrs_view(out@) =~= spec_attrs_pieces(
                                spec_split(chars@, ';'),
                            ));
                        }
                        Ok(out)
                    },
                }
            },
        }
    }
}

} // verus!
