//! The tagged-union codec: one generic encoder and decoder interpreting a
//! validated [`Schema`].
//!
//! An encoded frame is exactly `total_size` bytes: byte 0 is the
//! discriminant, the active variant's fields follow left to right, and zero
//! bytes pad the frame. Decoding tolerates raw input of any length by
//! truncating or zero-extending it to `total_size` first, then rejects
//! unknown discriminants and out-of-range enumeration bytes. Encoding then
//! decoding any conforming instance is proved to give the instance back,
//! with or without its trailing padding.

use crate::layout::le_bytes_of;
use crate::layout::le_value_of;
use crate::layout::lemma_le_bytes_len;
use crate::layout::lemma_le_round_trip;
use crate::layout::lemma_le_value_bound;
use crate::layout::lemma_pow256_increases;
use crate::layout::pow256;
use crate::layout::spec_le_bytes;
use crate::layout::spec_le_value;
use crate::layout::zero_seq;
use crate::schema::fields_width;
use crate::schema::kind_wf;
use crate::schema::kind_width;
use crate::schema::lemma_find_variant_properties;
use crate::schema::schema_wf;
use crate::schema::spec_find_variant;
use crate::schema::variant_wf;
use crate::schema::views_of_fields;
use crate::schema::FieldDescriptor;
use crate::schema::FieldKind;
use crate::schema::Schema;
use crate::schema::SpecField;
use crate::schema::SpecSchema;
use crate::schema::SpecVariant;
use vstd::pervasive::unreached;
use vstd::prelude::*;
use vstd::slice::slice_index_get;
use vstd::slice::slice_subrange;
use vstd::slice::slice_to_vec;

verus! {

/// One field value of a variant instance.
#[derive(Clone, PartialEq, Eq, Debug)]
pub enum FieldValue {
    /// An unsigned integer field value.
    Uint(u64),
    /// An opaque byte-array field value.
    Bytes(Vec<u8>),
    /// A case of a closed enumeration, as its byte code.
    Enumerated(u8),
}

/// The ghost image of a [`FieldValue`].
#[verifier::ext_equal]
pub enum SpecValue {
    Uint(u64),
    Bytes(Seq<u8>),
    Enumerated(u8),
}

impl View for FieldValue {
    type V = SpecValue;

    open spec fn view(&self) -> SpecValue {
        match self {
            FieldValue::Uint(x) => SpecValue::Uint(*x),
            FieldValue::Bytes(b) => SpecValue::Bytes(b@),
            FieldValue::Enumerated(e) => SpecValue::Enumerated(*e),
        }
    }
}

/// The ghost images of a field value list.
pub open spec fn views_of_values(vs: Seq<FieldValue>) -> Seq<SpecValue> {
    Seq::new(vs.len(), |i: int| vs[i]@)
}

/// A runtime value carrying exactly one discriminant's field set.
#[derive(Clone, PartialEq, Eq, Debug)]
pub struct VariantInstance {
    pub discriminant: u8,
    pub fields: Vec<FieldValue>,
}

/// The ghost image of a [`VariantInstance`].
#[verifier::ext_equal]
pub struct SpecInstance {
    pub discriminant: u8,
    pub fields: Seq<SpecValue>,
}

impl View for VariantInstance {
    type V = SpecInstance;

    open spec fn view(&self) -> SpecInstance {
        SpecInstance { discriminant: self.discriminant, fields: views_of_values(self.fields@) }
    }
}

/// Why a frame was rejected on decode.
#[derive(Clone, Copy, PartialEq, Eq, Debug)]
pub enum DecodeError {
    /// Byte 0 named no variant of the schema.
    UnknownDiscriminant(u8),
    /// The named field's byte is outside its enumeration's case range.
    InvalidFieldValue(&'static str, u8),
}

/// The ghost image of a [`DecodeError`].
#[verifier::ext_equal]
pub enum SpecDecodeError {
    UnknownDiscriminant(u8),
    InvalidFieldValue(Seq<char>, u8),
}

impl View for DecodeError {
    type V = SpecDecodeError;

    open spec fn view(&self) -> SpecDecodeError {
        match self {
            DecodeError::UnknownDiscriminant(d) => SpecDecodeError::UnknownDiscriminant(*d),
            DecodeError::InvalidFieldValue(name, b) => SpecDecodeError::InvalidFieldValue(
                name@,
                *b,
            ),
        }
    }
}

/// Whether a field value fits a declared kind.
pub open spec fn value_fits(v: SpecValue, k: FieldKind) -> bool {
    match k {
        FieldKind::Uint { width } => v matches SpecValue::Uint(x) && (x as nat) < pow256(
            width as nat,
        ),
        FieldKind::Bytes { len } => v matches SpecValue::Bytes(b) && b.len() == len,
        FieldKind::Enumerated { count } => v matches SpecValue::Enumerated(e) && e < count,
    }
}

/// Whether an instance carries exactly the fields its variant declares.
pub open spec fn instance_conforms(inst: SpecInstance, v: SpecVariant) -> bool {
    &&& inst.discriminant == v.discriminant
    &&& inst.fields.len() == v.fields.len()
    &&& forall|i: int|
        0 <= i < v.fields.len() ==> value_fits(#[trigger] inst.fields[i], v.fields[i].kind)
}

/// The wire bytes of one field value: little-endian for integers, verbatim
/// for byte arrays, the case byte for enumerations.
pub open spec fn spec_encode_value(v: SpecValue, k: FieldKind) -> Seq<u8> {
    match k {
        FieldKind::Uint { width } => spec_le_bytes(v->Uint_0 as nat, width as nat),
        FieldKind::Bytes { len: _ } => v->Bytes_0,
        FieldKind::Enumerated { count: _ } => seq![v->Enumerated_0],
    }
}

/// The wire bytes of a field list, left to right.
pub open spec fn spec_encode_fields(fs: Seq<SpecField>, vals: Seq<SpecValue>) -> Seq<u8>
    decreases fs.len(),
{
    if fs.len() == 0 {
        Seq::empty()
    } else {
        spec_encode_value(vals[0], fs[0].kind) + spec_encode_fields(
            fs.drop_first(),
            vals.drop_first(),
        )
    }
}

/// The full encoded frame of an instance under a schema.
pub open spec fn spec_encode(s: SpecSchema, inst: SpecInstance) -> Seq<u8>
    recommends
        spec_find_variant(s.variants, inst.discriminant) is Some,
{
    let v = spec_find_variant(s.variants, inst.discriminant)->Some_0;
    seq![inst.discriminant] + spec_encode_fields(v.fields, inst.fields) + zero_seq(v.pad)
}

/// The encoded frame without its trailing pad bytes.
pub open spec fn spec_encode_trimmed(s: SpecSchema, inst: SpecInstance) -> Seq<u8>
    recommends
        spec_find_variant(s.variants, inst.discriminant) is Some,
{
    let v = spec_find_variant(s.variants, inst.discriminant)->Some_0;
    spec_encode(s, inst).take(s.total_size - v.pad)
}

/// Raw input truncated or zero-extended to exactly `total` bytes.
pub open spec fn spec_normalize(bytes: Seq<u8>, total: nat) -> Seq<u8> {
    if bytes.len() >= total {
        bytes.take(total as int)
    } else {
        bytes + zero_seq((total - bytes.len()) as nat)
    }
}

/// The value of the field of kind `f.kind` that starts at `off`, or the
/// error for an enumeration byte outside its case range.
pub open spec fn spec_decode_one(f: SpecField, buf: Seq<u8>, off: int) -> Result<
    SpecValue,
    SpecDecodeError,
> {
    match f.kind {
        FieldKind::Uint { width } => Ok(
            SpecValue::Uint(spec_le_value(buf.subrange(off, off + width)) as u64),
        ),
        FieldKind::Bytes { len } => Ok(SpecValue::Bytes(buf.subrange(off, off + len))),
        FieldKind::Enumerated { count } => if buf[off] < count {
            Ok(SpecValue::Enumerated(buf[off]))
        } else {
            Err(SpecDecodeError::InvalidFieldValue(f.name, buf[off]))
        },
    }
}

/// The values of a field list read from `buf` starting at `off`, or the
/// first field error, left to right.
pub open spec fn spec_decode_fields(fs: Seq<SpecField>, buf: Seq<u8>, off: int) -> Result<
    Seq<SpecValue>,
    SpecDecodeError,
>
    decreases fs.len(),
{
    if fs.len() == 0 {
        Ok(Seq::empty())
    } else {
        match spec_decode_one(fs[0], buf, off) {
            Err(e) => Err(e),
            Ok(v) => match spec_decode_fields(
                fs.drop_first(),
                buf,
                off + kind_width(fs[0].kind),
            ) {
                Err(e) => Err(e),
                Ok(rest) => Ok(seq![v] + rest),
            },
        }
    }
}

/// What decoding `bytes` under schema `s` must produce.
pub open spec fn spec_decode(s: SpecSchema, bytes: Seq<u8>) -> Result<
    SpecInstance,
    SpecDecodeError,
> {
    let buf = spec_normalize(bytes, s.total_size);
    let d = buf[0];
    match spec_find_variant(s.variants, d) {
        None => Err(SpecDecodeError::UnknownDiscriminant(d)),
        Some(v) => match spec_decode_fields(v.fields, buf, 1) {
            Err(e) => Err(e),
            Ok(vals) => Ok(SpecInstance { discriminant: d, fields: vals }),
        },
    }
}

/// The byte width of a field kind.
pub fn kind_width_of(k: &FieldKind) -> (r: usize)
    ensures
        r as nat == kind_width(*k),
{
    match *k {
        FieldKind::Uint { width } => width as usize,
        FieldKind::Bytes { len } => len,
        FieldKind::Enumerated { count: _ } => 1,
    }
}

/// The wire bytes of one field value.
fn encode_value(val: &FieldValue, k: FieldKind) -> (r: Vec<u8>)
    requires
        value_fits(val@, k),
    ensures
        r@ == spec_encode_value(val@, k),
{
    match k {
        FieldKind::Uint { width } => match val {
            FieldValue::Uint(x) => le_bytes_of(*x, width),
            _ => unreached(),
        },
        FieldKind::Bytes { len: _ } => match val {
            FieldValue::Bytes(b) => slice_to_vec(b.as_slice()),
            _ => unreached(),
        },
        FieldKind::Enumerated { count: _ } => match val {
            FieldValue::Enumerated(e) => {
                let mut r: Vec<u8> = Vec::new();
                r.push(*e);
                assert(r@ =~= seq![*e]);
                r
            },
            _ => unreached(),
        },
    }
}

/// The wire bytes of a field list, left to right.
fn encode_fields(fds: &[FieldDescriptor], vals: &[FieldValue]) -> (r: Vec<u8>)
    requires
        fds@.len() == vals@.len(),
        forall|i: int| 0 <= i < fds@.len() ==> value_fits(vals@[i]@, #[trigger] fds@[i].kind),
    ensures
        r@ == spec_encode_fields(views_of_fields(fds@), views_of_values(vals@)),
    decreases fds@.len(),
{
    let n = fds.len();
    let ghost gfs = views_of_fields(fds@);
    let ghost gvs = views_of_values(vals@);
    if n == 0 {
        let r: Vec<u8> = Vec::new();
        assert(r@ =~= spec_encode_fields(gfs, gvs));
        r
    } else {
        let fd = slice_index_get(fds, 0);
        let v0 = slice_index_get(vals, 0);
        let mut r = encode_value(v0, fd.kind);
        let tail_fds = slice_subrange(fds, 1, n);
        let tail_vals = slice_subrange(vals, 1, vals.len());
        proof {
            assert forall|i: int| 0 <= i < tail_fds@.len() implies value_fits(
                tail_vals@[i]@,
                #[trigger] tail_fds@[i].kind,
            ) by {
                assert(tail_fds@[i] == fds@[i + 1]);
                assert(tail_vals@[i] == vals@[i + 1]);
            }
        }
        let mut rest = encode_fields(tail_fds, tail_vals);
        proof {
            assert(views_of_fields(tail_fds@) =~= gfs.drop_first());
            assert(views_of_values(tail_vals@) =~= gvs.drop_first());
            assert(gfs[0] == fds@[0]@);
            assert(gvs[0] == vals@[0]@);
        }
        r.append(&mut rest);
        assert(r@ =~= spec_encode_fields(gfs, gvs));
        r
    }
}

/// The encoded bytes of a conforming field list are exactly as wide as the
/// descriptor list declares.
pub proof fn lemma_encode_fields_len(fs: Seq<SpecField>, vals: Seq<SpecValue>)
    requires
        fs.len() == vals.len(),
        forall|i: int| 0 <= i < fs.len() ==> value_fits(vals[i], #[trigger] fs[i].kind),
    ensures
        spec_encode_fields(fs, vals).len() == fields_width(fs),
    decreases fs.len(),
{
    if fs.len() > 0 {
        assert forall|i: int| 0 <= i < fs.drop_first().len() implies value_fits(
            vals.drop_first()[i],
            #[trigger] fs.drop_first()[i].kind,
        ) by {
            assert(fs.drop_first()[i] == fs[i + 1]);
            assert(vals.drop_first()[i] == vals[i + 1]);
        }
        lemma_encode_fields_len(fs.drop_first(), vals.drop_first());
        match fs[0].kind {
            FieldKind::Uint { width } => {
                lemma_le_bytes_len(vals[0]->Uint_0 as nat, width as nat);
            },
            FieldKind::Bytes { len: _ } => {},
            FieldKind::Enumerated { count: _ } => {},
        }
    }
}

impl Schema {
    /// Encodes a conforming instance into its fixed-size frame:
    /// discriminant byte, fields left to right, then zero padding. Total for
    /// every conforming instance.
    pub fn encode(&self, inst: &VariantInstance) -> (r: Vec<u8>)
        requires
            schema_wf(self@),
            spec_find_variant(self@.variants, inst@.discriminant) is Some,
            instance_conforms(
                inst@,
                spec_find_variant(self@.variants, inst@.discriminant)->Some_0,
            ),
        ensures
            r@ == spec_encode(self@, inst@),
            r@.len() == self@.total_size,
    {
        let ghost gv = spec_find_variant(self@.variants, inst@.discriminant)->Some_0;
        let idx = match self.find_variant(inst.discriminant) {
            Some(i) => i,
            None => unreached(),
        };
        let vd = self.variant_at(idx);
        assert(vd@ == gv);
        let mut r: Vec<u8> = Vec::new();
        r.push(inst.discriminant);
        proof {
            assert forall|i: int| 0 <= i < vd.fields@.len() implies value_fits(
                inst.fields@[i]@,
                #[trigger] vd.fields@[i].kind,
            ) by {
                assert(gv.fields[i] == vd.fields@[i]@);
                assert(inst@.fields[i] == inst.fields@[i]@);
            }
        }
        let mut body = encode_fields(vd.fields.as_slice(), inst.fields.as_slice());
        r.append(&mut body);
        let mut p: usize = 0;
        let pad = vd.pad;
        let ghost mid = r@;
        let mut padv: Vec<u8> = Vec::new();
        while p < pad
            invariant
                p <= pad,
                padv@ == zero_seq(p as nat),
            decreases pad - p,
        {
            padv.push(0);
            p = p + 1;
            proof {
                assert(padv@ =~= zero_seq(p as nat));
            }
        }
        r.append(&mut padv);
        proof {
            lemma_find_variant_properties(self@.variants, inst@.discriminant);
            let i = choose|i: int|
                0 <= i < self@.variants.len() && self@.variants[i] == gv;
            assert(variant_wf(gv, self@.total_size));
            lemma_encode_fields_len(gv.fields, inst@.fields);
            assert(r@ =~= spec_encode(self@, inst@));
        }
        r
    }

    /// Encodes a conforming instance and strips its trailing pad bytes, for
    /// transmission over a bandwidth-constrained bus. The dropped bytes are
    /// all zero and [`Self::decode`] reconstructs them.
    pub fn encode_trimmed(&self, inst: &VariantInstance) -> (r: Vec<u8>)
        requires
            schema_wf(self@),
            spec_find_variant(self@.variants, inst@.discriminant) is Some,
            instance_conforms(
                inst@,
                spec_find_variant(self@.variants, inst@.discriminant)->Some_0,
            ),
        ensures
            r@ == spec_encode_trimmed(self@, inst@),
    {
        let mut r = self.encode(inst);
        let idx = match self.find_variant(inst.discriminant) {
            Some(i) => i,
            None => unreached(),
        };
        let vd = self.variant_at(idx);
        proof {
            lemma_find_variant_properties(self@.variants, inst@.discriminant);
            let i = choose|i: int|
                0 <= i < self@.variants.len() && self@.variants[i] == vd@;
            assert(variant_wf(vd@, self@.total_size));
        }
        let keep = self.total_size() - vd.pad;
        r.truncate(keep);
        proof {
            assert(r@ =~= spec_encode_trimmed(self@, inst@));
        }
        r
    }
}

/// The values of a field list read from `buf` at `off`, left to right,
/// stopping at the first out-of-range enumeration byte.
fn decode_fields(fds: &[FieldDescriptor], buf: &[u8], off: usize) -> (r: Result<
    Vec<FieldValue>,
    DecodeError,
>)
    requires
        forall|i: int| 0 <= i < fds@.len() ==> kind_wf(#[trigger] fds@[i].kind),
        off + fields_width(views_of_fields(fds@)) <= buf@.len(),
    ensures
        r matches Ok(vs) ==> spec_decode_fields(views_of_fields(fds@), buf@, off as int) == Ok::<
            Seq<SpecValue>,
            SpecDecodeError,
        >(views_of_values(vs@)),
        r matches Err(e) ==> spec_decode_fields(views_of_fields(fds@), buf@, off as int)
            == Err::<Seq<SpecValue>, SpecDecodeError>(e@),
    decreases fds@.len(),
{
    let n = fds.len();
    let bn = buf.len();
    let ghost gfs = views_of_fields(fds@);
    assert(off + fields_width(gfs) <= bn as int);
    if n == 0 {
        let r: Vec<FieldValue> = Vec::new();
        assert(views_of_values(r@) =~= Seq::<SpecValue>::empty());
        return Ok(r);
    }
    let fd = slice_index_get(fds, 0);
    let w = kind_width_of(&fd.kind);
    proof {
        assert(gfs[0] == fds@[0]@);
        assert(gfs.drop_first() =~= views_of_fields(fds@.subrange(1, n as int)));
        assert(fields_width(gfs) == kind_width(gfs[0].kind) + fields_width(gfs.drop_first()));
    }
    let first: FieldValue = match fd.kind {
        FieldKind::Uint { width } => {
            let x = le_value_of(buf, off, width);
            proof {
                let sub = buf@.subrange(off as int, off + width);
                lemma_le_value_bound(sub);
                lemma_pow256_increases(sub.len(), 8);
                assert(pow256(8) == 0x10000000000000000) by {
                    reveal_with_fuel(pow256, 9);
                }
                assert((spec_le_value(sub) as u64) == x);
            }
            FieldValue::Uint(x)
        },
        FieldKind::Bytes { len } => {
            let b = slice_to_vec(slice_subrange(buf, off, off + len));
            FieldValue::Bytes(b)
        },
        FieldKind::Enumerated { count } => {
            let e = *slice_index_get(buf, off);
            if e >= count {
                return Err(DecodeError::InvalidFieldValue(fd.name, e));
            }
            FieldValue::Enumerated(e)
        },
    };
    assert(spec_decode_one(gfs[0], buf@, off as int) == Ok::<SpecValue, SpecDecodeError>(first@));
    let tail = slice_subrange(fds, 1, n);
    proof {
        assert forall|i: int| 0 <= i < tail@.len() implies kind_wf(#[trigger] tail@[i].kind) by {
            assert(tail@[i] == fds@[i + 1]);
        }
    }
    match decode_fields(tail, buf, off + w) {
        Err(e) => {
            assert(spec_decode_fields(gfs, buf@, off as int) == Err::<
                Seq<SpecValue>,
                SpecDecodeError,
            >(e@));
            Err(e)
        },
        Ok(rest) => {
            let ghost grest = rest@;
            let mut out = rest;
            out.insert(0, first);
            proof {
                assert(out@ == grest.insert(0, first));
                assert forall|i: int| 0 <= i < out@.len() implies views_of_values(out@)[i]
                    == (seq![first@] + views_of_values(grest))[i] by {
                    if i > 0 {
                        assert(out@[i] == grest[i - 1]);
                    }
                }
                assert(views_of_values(out@) =~= seq![first@] + views_of_values(grest));
            }
            Ok(out)
        },
    }
}

impl Schema {
    /// Decodes raw bytes of any length: the input is truncated or
    /// zero-extended to the frame size, byte 0 picks the variant, and the
    /// variant's fields are read left to right. Fails exactly on a
    /// discriminant no variant declares or on a nested enumeration byte
    /// outside its case range.
    pub fn decode(&self, bytes: &[u8]) -> (r: Result<VariantInstance, DecodeError>)
        requires
            schema_wf(self@),
        ensures
            r matches Ok(inst) ==> spec_decode(self@, bytes@) == Ok::<
                SpecInstance,
                SpecDecodeError,
            >(inst@),
            r matches Err(e) ==> spec_decode(self@, bytes@) == Err::<
                SpecInstance,
                SpecDecodeError,
            >(e@),
    {
        let total = self.total_size();
        let mut buf: Vec<u8>;
        if bytes.len() >= total {
            buf = slice_to_vec(slice_subrange(bytes, 0, total));
        } else {
            buf = slice_to_vec(bytes);
            while buf.len() < total
                invariant
                    bytes@.len() <= buf@.len() <= total,
                    buf@ == bytes@ + zero_seq((buf@.len() - bytes@.len()) as nat),
                decreases total - buf@.len(),
            {
                buf.push(0);
                proof {
                    assert(buf@ =~= bytes@ + zero_seq((buf@.len() - bytes@.len()) as nat));
                }
            }
        }
        assert(buf@ =~= spec_normalize(bytes@, self@.total_size));
        let d = buf[0];
        match self.find_variant(d) {
            None => Err(DecodeError::UnknownDiscriminant(d)),
            Some(idx) => {
                let vd = self.variant_at(idx);
                proof {
                    assert(variant_wf(vd@, self@.total_size));
                    assert(1 + fields_width(vd@.fields) <= buf@.len());
                    assert forall|i: int| 0 <= i < vd.fields@.len() implies kind_wf(
                        #[trigger] vd.fields@[i].kind,
                    ) by {
                        assert(kind_wf(vd@.fields[i].kind));
                        assert(vd@.fields[i] == vd.fields@[i]@);
                    }
                }
                match decode_fields(vd.fields.as_slice(), buf.as_slice(), 1) {
                    Err(e) => Err(e),
                    Ok(vals) => Ok(VariantInstance { discriminant: d, fields: vals }),
                }
            },
        }
    }
}


/// Discriminant stability: byte 0 of every encoded frame is the encoded
/// instance's declared discriminant, whichever variant is active.
pub proof fn lemma_encoded_discriminant(s: SpecSchema, inst: SpecInstance)
    requires
        spec_find_variant(s.variants, inst.discriminant) is Some,
    ensures
        spec_encode(s, inst)[0] == inst.discriminant,
{
}

/// Decoding the bytes that a conforming field list encodes to, at the
/// offset where they lie in `buf`, recovers exactly the encoded values.
proof fn lemma_decode_encoded_fields(fs: Seq<SpecField>, vals: Seq<SpecValue>, buf: Seq<u8>, off: int)
    requires
        fs.len() == vals.len(),
        forall|i: int| 0 <= i < fs.len() ==> kind_wf(#[trigger] fs[i].kind),
        forall|i: int| 0 <= i < fs.len() ==> value_fits(vals[i], #[trigger] fs[i].kind),
        0 <= off,
        off + fields_width(fs) <= buf.len(),
        buf.subrange(off, off + fields_width(fs)) == spec_encode_fields(fs, vals),
    ensures
        spec_decode_fields(fs, buf, off) == Ok::<Seq<SpecValue>, SpecDecodeError>(vals),
    decreases fs.len(),
{
    if fs.len() == 0 {
        assert(vals =~= Seq::<SpecValue>::empty());
    } else {
        let w = kind_width(fs[0].kind) as int;
        let fw = fields_width(fs) as int;
        let enc0 = spec_encode_value(vals[0], fs[0].kind);
        let ghost rest_fs = fs.drop_first();
        let ghost rest_vals = vals.drop_first();
        assert forall|i: int| 0 <= i < rest_fs.len() implies kind_wf(#[trigger] rest_fs[i].kind)
            && value_fits(rest_vals[i], rest_fs[i].kind) by {
            assert(rest_fs[i] == fs[i + 1]);
            assert(rest_vals[i] == vals[i + 1]);
        }
        match fs[0].kind {
            FieldKind::Uint { width } => {
                lemma_le_bytes_len(vals[0]->Uint_0 as nat, width as nat);
            },
            FieldKind::Bytes { len: _ } => {},
            FieldKind::Enumerated { count: _ } => {},
        }
        assert(enc0.len() == w);
        assert(buf.subrange(off, off + fw) == enc0 + spec_encode_fields(rest_fs, rest_vals));
        assert forall|i: int| 0 <= i < w implies buf.subrange(off, off + w)[i] == enc0[i] by {
            assert(buf.subrange(off, off + fw)[i] == enc0[i]);
        }
        assert(buf.subrange(off, off + w) =~= enc0);
        match fs[0].kind {
            FieldKind::Uint { width } => {
                let x = vals[0]->Uint_0;
                lemma_le_round_trip(x as nat, width as nat);
                assert(spec_decode_one(fs[0], buf, off) == Ok::<SpecValue, SpecDecodeError>(
                    vals[0],
                ));
            },
            FieldKind::Bytes { len: _ } => {
                assert(spec_decode_one(fs[0], buf, off) == Ok::<SpecValue, SpecDecodeError>(
                    vals[0],
                ));
            },
            FieldKind::Enumerated { count: _ } => {
                assert(buf[off] == enc0[0]);
                assert(spec_decode_one(fs[0], buf, off) == Ok::<SpecValue, SpecDecodeError>(
                    vals[0],
                ));
            },
        }
        assert forall|i: int| 0 <= i < fields_width(rest_fs) implies buf.subrange(
            off + w,
            off + w + fields_width(rest_fs),
        )[i] == spec_encode_fields(rest_fs, rest_vals)[i] by {
            assert(buf.subrange(off, off + fw)[w + i] == (enc0 + spec_encode_fields(
                rest_fs,
                rest_vals,
            ))[w + i]);
        }
        assert(buf.subrange(off + w, off + w + fields_width(rest_fs)) =~= spec_encode_fields(
            rest_fs,
            rest_vals,
        ));
        lemma_decode_encoded_fields(rest_fs, rest_vals, buf, off + w);
        assert(seq![vals[0]] + rest_vals =~= vals);
    }
}

/// Round trip: decoding the encoded frame of any conforming instance of a
/// valid schema gives the instance back.
pub proof fn lemma_round_trip(s: SpecSchema, inst: SpecInstance)
    requires
        schema_wf(s),
        spec_find_variant(s.variants, inst.discriminant) is Some,
        instance_conforms(inst, spec_find_variant(s.variants, inst.discriminant)->Some_0),
    ensures
        spec_decode(s, spec_encode(s, inst)) == Ok::<SpecInstance, SpecDecodeError>(inst),
{
    let v = spec_find_variant(s.variants, inst.discriminant)->Some_0;
    lemma_find_variant_properties(s.variants, inst.discriminant);
    let i = choose|i: int| 0 <= i < s.variants.len() && s.variants[i] == v;
    assert(variant_wf(v, s.total_size));
    lemma_encode_fields_len(v.fields, inst.fields);
    let enc = spec_encode(s, inst);
    assert(enc.len() == s.total_size);
    let buf = spec_normalize(enc, s.total_size);
    assert(buf =~= enc);
    assert(buf[0] == inst.discriminant);
    let fw = fields_width(v.fields) as int;
    assert forall|j: int| 0 <= j < fw implies enc.subrange(1, 1 + fw)[j] == spec_encode_fields(
        v.fields,
        inst.fields,
    )[j] by {
        assert(enc[1 + j] == (seq![inst.discriminant] + spec_encode_fields(v.fields, inst.fields)
            + zero_seq(v.pad))[1 + j]);
    }
    assert(enc.subrange(1, 1 + fw) =~= spec_encode_fields(v.fields, inst.fields));
    lemma_decode_encoded_fields(v.fields, inst.fields, enc, 1);
    assert(spec_decode(s, enc) == Ok::<SpecInstance, SpecDecodeError>(
        SpecInstance { discriminant: inst.discriminant, fields: inst.fields },
    ));
}

/// Trim round trip: the trailing pad bytes of an encoded frame may be
/// dropped before transmission; decode zero-extends the trimmed frame back
/// to the identical full frame, so the instance still comes back.
pub proof fn lemma_trim_round_trip(s: SpecSchema, inst: SpecInstance)
    requires
        schema_wf(s),
        spec_find_variant(s.variants, inst.discriminant) is Some,
        instance_conforms(inst, spec_find_variant(s.variants, inst.discriminant)->Some_0),
    ensures
        spec_decode(s, spec_encode_trimmed(s, inst)) == Ok::<SpecInstance, SpecDecodeError>(inst),
{
    let v = spec_find_variant(s.variants, inst.discriminant)->Some_0;
    lemma_find_variant_properties(s.variants, inst.discriminant);
    let i = choose|i: int| 0 <= i < s.variants.len() && s.variants[i] == v;
    assert(variant_wf(v, s.total_size));
    lemma_encode_fields_len(v.fields, inst.fields);
    let enc = spec_encode(s, inst);
    let trimmed = spec_encode_trimmed(s, inst);
    assert(enc.len() == s.total_size);
    assert(trimmed.len() == s.total_size - v.pad);
    assert forall|j: int| s.total_size - v.pad <= j < s.total_size implies enc[j] == 0 by {
        assert(enc[j] == zero_seq(v.pad)[j - (1 + fields_width(v.fields))]);
    }
    assert(spec_normalize(trimmed, s.total_size) =~= enc);
    lemma_round_trip(s, inst);
    assert(spec_normalize(enc, s.total_size) =~= enc);
}

/// Undersized input: decoding a byte sequence shorter than the frame size
/// behaves exactly as if the input were zero-padded to the frame size.
pub proof fn lemma_undersized_input(s: SpecSchema, bytes: Seq<u8>)
    requires
        bytes.len() <= s.total_size,
    ensures
        spec_decode(s, bytes) == spec_decode(
            s,
            bytes + zero_seq((s.total_size - bytes.len()) as nat),
        ),
{
    let padded = bytes + zero_seq((s.total_size - bytes.len()) as nat);
    assert(spec_normalize(bytes, s.total_size) =~= spec_normalize(padded, s.total_size));
}

/// Oversized input: decoding a byte sequence longer than the frame size
/// silently truncates the excess; the result equals decoding just the first
/// `total_size` bytes.
pub proof fn lemma_oversized_input(s: SpecSchema, bytes: Seq<u8>)
    requires
        bytes.len() >= s.total_size,
    ensures
        spec_decode(s, bytes) == spec_decode(s, bytes.take(s.total_size as int)),
{
    assert(spec_normalize(bytes, s.total_size) =~= spec_normalize(
        bytes.take(s.total_size as int),
        s.total_size,
    ));
}

/// Every value list a successful field decode yields fits the descriptors.
proof fn lemma_decode_fields_conform(fs: Seq<SpecField>, buf: Seq<u8>, off: int)
    requires
        forall|i: int| 0 <= i < fs.len() ==> kind_wf(#[trigger] fs[i].kind),
        0 <= off,
        off + fields_width(fs) <= buf.len(),
    ensures
        spec_decode_fields(fs, buf, off) matches Ok(vals) ==> vals.len() == fs.len() && forall|
            i: int,
        | 0 <= i < fs.len() ==> value_fits(#[trigger] vals[i], fs[i].kind),
    decreases fs.len(),
{
    if fs.len() > 0 {
        assert forall|i: int| 0 <= i < fs.drop_first().len() implies kind_wf(
            #[trigger] fs.drop_first()[i].kind,
        ) by {
            assert(fs.drop_first()[i] == fs[i + 1]);
        }
        assert(fields_width(fs) == kind_width(fs[0].kind) + fields_width(fs.drop_first()));
        lemma_decode_fields_conform(fs.drop_first(), buf, off + kind_width(fs[0].kind));
        if spec_decode_fields(fs, buf, off) is Ok {
            let vals = spec_decode_fields(fs, buf, off)->Ok_0;
            let v0 = spec_decode_one(fs[0], buf, off)->Ok_0;
            match fs[0].kind {
                FieldKind::Uint { width } => {
                    let sub = buf.subrange(off, off + width);
                    lemma_le_value_bound(sub);
                    lemma_pow256_increases(sub.len(), 8);
                    assert(pow256(8) == 0x10000000000000000) by {
                        reveal_with_fuel(pow256, 9);
                    }
                    assert(value_fits(v0, fs[0].kind));
                },
                FieldKind::Bytes { len: _ } => {
                    assert(value_fits(v0, fs[0].kind));
                },
                FieldKind::Enumerated { count: _ } => {
                    assert(value_fits(v0, fs[0].kind));
                },
            }
            let rest = spec_decode_fields(
                fs.drop_first(),
                buf,
                off + kind_width(fs[0].kind),
            )->Ok_0;
            assert(vals == seq![v0] + rest);
            assert forall|i: int| 0 <= i < fs.len() implies value_fits(
                #[trigger] vals[i],
                fs[i].kind,
            ) by {
                if i > 0 {
                    assert(vals[i] == rest[i - 1]);
                    assert(fs.drop_first()[i - 1] == fs[i]);
                    assert(value_fits(rest[i - 1], fs.drop_first()[i - 1].kind));
                }
            }
        }
    }
}

/// Every instance a successful decode yields conforms to the variant its
/// discriminant names, so it can be encoded again.
pub proof fn lemma_decode_conforms(s: SpecSchema, bytes: Seq<u8>)
    requires
        schema_wf(s),
    ensures
        spec_decode(s, bytes) matches Ok(inst) ==> spec_find_variant(s.variants, inst.discriminant)
            is Some && instance_conforms(
            inst,
            spec_find_variant(s.variants, inst.discriminant)->Some_0,
        ),
{
    let buf = spec_normalize(bytes, s.total_size);
    let d = buf[0];
    if spec_decode(s, bytes) is Ok {
        let inst = spec_decode(s, bytes)->Ok_0;
        let v = spec_find_variant(s.variants, d)->Some_0;
        lemma_find_variant_properties(s.variants, d);
        let i = choose|i: int| 0 <= i < s.variants.len() && s.variants[i] == v;
        assert(variant_wf(v, s.total_size));
        assert forall|j: int| 0 <= j < v.fields.len() implies kind_wf(
            #[trigger] v.fields[j].kind,
        ) by {}
        assert(buf.len() == s.total_size);
        assert(1 + fields_width(v.fields) <= buf.len());
        lemma_decode_fields_conform(v.fields, buf, 1);
        assert(inst.discriminant == d);
        assert(inst.fields == spec_decode_fields(v.fields, buf, 1)->Ok_0);
    }
}

} // verus!

