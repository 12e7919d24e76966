//! Variant layout descriptors and the schema validator.
//!
//! A schema is an ordered table of variant descriptors sharing one fixed
//! `total_size` (the discriminant byte plus the payload bytes). A schema is
//! built once through [`Schema::new`], which rejects any table whose variants
//! do not all fill the frame exactly or whose discriminants collide; the
//! codec then only ever sees validated schemas.

use vstd::prelude::*;

verus! {

/// How one field of a variant is laid out on the wire.
#[derive(Clone, Copy, PartialEq, Eq, Debug)]
pub enum FieldKind {
    /// A little-endian unsigned integer of the given byte width (1 to 8).
    Uint { width: u8 },
    /// An opaque byte array of the given length, copied verbatim.
    Bytes { len: usize },
    /// One byte holding a closed enumeration: exactly the values below
    /// `count` name a case, anything else is rejected on decode.
    Enumerated { count: u8 },
}

/// The ghost image of a [`FieldDescriptor`].
#[verifier::ext_equal]
pub struct SpecField {
    pub name: Seq<char>,
    pub kind: FieldKind,
}

/// One named field of a variant.
#[derive(Clone, Copy, Debug)]
pub struct FieldDescriptor {
    pub name: &'static str,
    pub kind: FieldKind,
}

impl View for FieldDescriptor {
    type V = SpecField;

    open spec fn view(&self) -> SpecField {
        SpecField { name: self.name@, kind: self.kind }
    }
}

/// The ghost image of a [`VariantDescriptor`].
#[verifier::ext_equal]
pub struct SpecVariant {
    pub name: Seq<char>,
    pub discriminant: u8,
    pub fields: Seq<SpecField>,
    pub pad: nat,
}

/// One variant of a tagged union: its discriminant, its ordered fields and
/// the number of zero bytes that pad it to the schema's total size.
#[derive(Debug)]
pub struct VariantDescriptor {
    pub name: &'static str,
    pub discriminant: u8,
    pub fields: Vec<FieldDescriptor>,
    pub pad: usize,
}

/// The ghost images of a field descriptor list.
pub open spec fn views_of_fields(fs: Seq<FieldDescriptor>) -> Seq<SpecField> {
    Seq::new(fs.len(), |i: int| fs[i]@)
}

impl View for VariantDescriptor {
    type V = SpecVariant;

    open spec fn view(&self) -> SpecVariant {
        SpecVariant {
            name: self.name@,
            discriminant: self.discriminant,
            fields: views_of_fields(self.fields@),
            pad: self.pad as nat,
        }
    }
}

/// The ghost images of a variant descriptor list.
pub open spec fn views_of_variants(vs: Seq<VariantDescriptor>) -> Seq<SpecVariant> {
    Seq::new(vs.len(), |i: int| vs[i]@)
}

/// The ghost image of a [`Schema`].
#[verifier::ext_equal]
pub struct SpecSchema {
    pub variants: Seq<SpecVariant>,
    pub total_size: nat,
}

/// The ghost schema that a variant table and total size describe.
pub open spec fn schema_model(vs: Seq<VariantDescriptor>, total: nat) -> SpecSchema {
    SpecSchema { variants: views_of_variants(vs), total_size: total }
}

/// The number of bytes a field of kind `k` occupies.
pub open spec fn kind_width(k: FieldKind) -> nat {
    match k {
        FieldKind::Uint { width } => width as nat,
        FieldKind::Bytes { len } => len as nat,
        FieldKind::Enumerated { count: _ } => 1,
    }
}

/// A field kind a schema may declare: integer widths are 1 to 8 bytes and an
/// enumeration names at least one case.
pub open spec fn kind_wf(k: FieldKind) -> bool {
    match k {
        FieldKind::Uint { width } => 1 <= width <= 8,
        FieldKind::Bytes { len: _ } => true,
        FieldKind::Enumerated { count } => count >= 1,
    }
}

/// Total width in bytes of a field list.
pub open spec fn fields_width(fs: Seq<SpecField>) -> nat
    decreases fs.len(),
{
    if fs.len() == 0 {
        0
    } else {
        kind_width(fs[0].kind) + fields_width(fs.drop_first())
    }
}

/// A variant fills the frame exactly: well-formed field kinds, and field
/// bytes plus padding equal to the payload size `total_size - 1`.
pub open spec fn variant_wf(v: SpecVariant, total_size: nat) -> bool {
    &&& forall|i: int| 0 <= i < v.fields.len() ==> kind_wf(#[trigger] v.fields[i].kind)
    &&& fields_width(v.fields) + v.pad == total_size - 1
}

/// The schema invariant: a positive total size, every variant filling the
/// frame, and pairwise distinct discriminants.
pub open spec fn schema_wf(s: SpecSchema) -> bool {
    &&& s.total_size >= 1
    &&& forall|i: int|
        0 <= i < s.variants.len() ==> variant_wf(#[trigger] s.variants[i], s.total_size)
    &&& forall|i: int, j: int|
        0 <= i < j < s.variants.len() ==> s.variants[i].discriminant != s.variants[
            j
        ].discriminant
}

/// The first variant of `vars` declared with discriminant `d`, if any.
pub open spec fn spec_find_variant(vars: Seq<SpecVariant>, d: u8) -> Option<SpecVariant>
    decreases vars.len(),
{
    if vars.len() == 0 {
        None
    } else if vars[0].discriminant == d {
        Some(vars[0])
    } else {
        spec_find_variant(vars.drop_first(), d)
    }
}

/// Appending one field adds exactly its width.
pub proof fn lemma_fields_width_snoc(fs: Seq<SpecField>, f: SpecField)
    ensures
        fields_width(fs.push(f)) == fields_width(fs) + kind_width(f.kind),
    decreases fs.len(),
{
    reveal_with_fuel(fields_width, 3);
    if fs.len() == 0 {
        assert(fs.push(f).drop_first() =~= Seq::<SpecField>::empty());
        assert(fs.push(f)[0] == f);
        assert(fields_width(fs.push(f)) == kind_width(f.kind) + fields_width(
            Seq::<SpecField>::empty(),
        ));
    } else {
        lemma_fields_width_snoc(fs.drop_first(), f);
        assert(fs.push(f).drop_first() =~= fs.drop_first().push(f));
        assert(fs.push(f)[0] == fs[0]);
        assert(fields_width(fs.push(f)) == kind_width(fs[0].kind) + fields_width(
            fs.drop_first().push(f),
        ));
    }
}

/// A prefix of a field list is no wider than the whole list.
pub proof fn lemma_fields_width_prefix_le(fs: Seq<SpecField>, j: int)
    requires
        0 <= j <= fs.len(),
    ensures
        fields_width(fs.take(j)) <= fields_width(fs),
    decreases fs.len() - j,
{
    if j == fs.len() {
        assert(fs.take(j) =~= fs);
    } else {
        lemma_fields_width_prefix_le(fs, j + 1);
        assert(fs.take(j + 1) =~= fs.take(j).push(fs[j]));
        lemma_fields_width_snoc(fs.take(j), fs[j]);
    }
}

/// Skipping variants that do not carry `d` does not change the lookup.
pub proof fn lemma_find_variant_skip(vars: Seq<SpecVariant>, d: u8, i: int)
    requires
        0 <= i <= vars.len(),
        forall|k: int| 0 <= k < i ==> vars[k].discriminant != d,
    ensures
        spec_find_variant(vars, d) == spec_find_variant(vars.skip(i), d),
    decreases i,
{
    if i > 0 {
        assert forall|k: int| 0 <= k < i - 1 implies vars.drop_first()[k].discriminant != d by {
            assert(vars.drop_first()[k] == vars[k + 1]);
        }
        lemma_find_variant_skip(vars.drop_first(), d, i - 1);
        assert(vars.drop_first().skip(i - 1) =~= vars.skip(i));
    } else {
        assert(vars.skip(0) =~= vars);
    }
}

/// What a successful or failed lookup says about the table.
pub proof fn lemma_find_variant_properties(vars: Seq<SpecVariant>, d: u8)
    ensures
        spec_find_variant(vars, d) is None ==> forall|i: int|
            0 <= i < vars.len() ==> vars[i].discriminant != d,
        spec_find_variant(vars, d) matches Some(v) ==> v.discriminant == d && exists|i: int|
            0 <= i < vars.len() && vars[i] == v,
    decreases vars.len(),
{
    if vars.len() > 0 {
        lemma_find_variant_properties(vars.drop_first(), d);
        if vars[0].discriminant == d {
        } else {
            if spec_find_variant(vars, d) is None {
                assert forall|i: int| 0 <= i < vars.len() implies vars[i].discriminant != d by {
                    if i > 0 {
                        assert(vars.drop_first()[i - 1] == vars[i]);
                    }
                }
            } else {
                let v = spec_find_variant(vars.drop_first(), d)->Some_0;
                let i = choose|i: int|
                    0 <= i < vars.drop_first().len() && vars.drop_first()[i] == v;
                assert(vars[i + 1] == v);
            }
        }
    }
}

/// In a well-formed table, the variant that declares `d` is what the lookup
/// returns.
pub proof fn lemma_find_variant_at(s: SpecSchema, i: int)
    requires
        schema_wf(s),
        0 <= i < s.variants.len(),
    ensures
        spec_find_variant(s.variants, s.variants[i].discriminant) == Some(s.variants[i]),
{
    let d = s.variants[i].discriminant;
    lemma_find_variant_properties(s.variants, d);
    match spec_find_variant(s.variants, d) {
        None => {}
        Some(v) => {
            let j = choose|j: int| 0 <= j < s.variants.len() && s.variants[j] == v;
            if i < j {
                assert(s.variants[i].discriminant != s.variants[j].discriminant);
            } else if j < i {
                assert(s.variants[j].discriminant != s.variants[i].discriminant);
            }
        }
    }
}

/// Why a variant table was rejected.
#[derive(Clone, Copy, PartialEq, Eq, Debug)]
pub enum SchemaError {
    /// The total size leaves no room for the discriminant byte.
    ZeroTotalSize,
    /// Two variants declare the same discriminant.
    DuplicateDiscriminant { discriminant: u8 },
    /// A field kind of the named variant is out of range.
    InvalidFieldKind { variant: &'static str },
    /// The named variant's field bytes and padding do not fill the frame.
    SizeMismatch { variant: &'static str },
}

/// A validated tagged-union schema; values of this type always satisfy
/// [`schema_wf`] of their view.
#[derive(Debug)]
pub struct Schema {
    variants: Vec<VariantDescriptor>,
    total_size: usize,
}

impl View for Schema {
    type V = SpecSchema;

    closed spec fn view(&self) -> SpecSchema {
        SpecSchema {
            variants: views_of_variants(self.variants@),
            total_size: self.total_size as nat,
        }
    }
}

impl Schema {
    /// Validates a variant table: the one-time schema self-check. Returns the
    /// schema exactly when every variant fills the frame and no discriminant
    /// repeats; any violation is a definition error that blocks use of the
    /// table.
    pub fn new(variants: Vec<VariantDescriptor>, total_size: usize) -> (r: Result<Schema, SchemaError>)
        ensures
            r is Ok <==> schema_wf(schema_model(variants@, total_size as nat)),
            r matches Ok(s) ==> s@ == schema_model(variants@, total_size as nat),
            r matches Err(SchemaError::ZeroTotalSize) ==> total_size == 0,
            r matches Err(SchemaError::DuplicateDiscriminant { discriminant }) ==> (exists|i: int, j: int|
                0 <= i < j < variants@.len() && variants@[i].discriminant == discriminant
                    && variants@[j].discriminant == discriminant),
            r matches Err(SchemaError::InvalidFieldKind { variant }) ==> (exists|i: int|
                0 <= i < variants@.len() && variants@[i].name == variant),
            r matches Err(SchemaError::SizeMismatch { variant }) ==> (exists|i: int|
                0 <= i < variants@.len() && variants@[i].name == variant),
    {
        let ghost gs = schema_model(variants@, total_size as nat);
        if total_size == 0 {
            return Err(SchemaError::ZeroTotalSize);
        }
        let payload = total_size - 1;
        let n = variants.len();
        let mut i: usize = 0;
        while i < n
            invariant
                n == variants@.len(),
                payload == total_size - 1,
                gs == schema_model(variants@, total_size as nat),
                forall|k: int| 0 <= k < i ==> variant_wf(#[trigger] gs.variants[k], gs.total_size),
            decreases n - i,
        {
            let v = &variants[i];
            let ghost vv = gs.variants[i as int];
            let m = v.fields.len();
            let mut sum: usize = 0;
            let mut j: usize = 0;
            while j < m
                invariant
                    0 <= i < n,
                    n == variants@.len(),
                    v == variants@[i as int],
                    vv == gs.variants[i as int],
                    vv.fields == views_of_fields(v.fields@),
                    m == v.fields@.len(),
                    payload == total_size - 1,
                    gs == schema_model(variants@, total_size as nat),
                    j <= m,
                    sum == fields_width(vv.fields.take(j as int)),
                    sum <= payload,
                    forall|k: int| 0 <= k < j ==> kind_wf(#[trigger] vv.fields[k].kind),
                decreases m - j,
            {
                let kind = v.fields[j].kind;
                assert(vv.fields[j as int].kind == kind);
                let w: usize = match kind {
                    FieldKind::Uint { width } => {
                        if width < 1 || width > 8 {
                            return Err(SchemaError::InvalidFieldKind { variant: v.name });
                        }
                        width as usize
                    },
                    FieldKind::Bytes { len } => len,
                    FieldKind::Enumerated { count } => {
                        if count < 1 {
                            return Err(SchemaError::InvalidFieldKind { variant: v.name });
                        }
                        1
                    },
                };
                assert(w == kind_width(vv.fields[j as int].kind));
                proof {
                    assert(vv.fields.take(j + 1) =~= vv.fields.take(j as int).push(
                        vv.fields[j as int],
                    ));
                    lemma_fields_width_snoc(vv.fields.take(j as int), vv.fields[j as int]);
                }
                if w > payload - sum {
                    proof {
                        lemma_fields_width_prefix_le(vv.fields, j + 1);
                        assert(!variant_wf(vv, gs.total_size));
                    }
                    return Err(SchemaError::SizeMismatch { variant: v.name });
                }
                sum = sum + w;
                j = j + 1;
            }
            assert(vv.fields.take(m as int) =~= vv.fields);
            if v.pad != payload - sum {
                assert(!variant_wf(vv, gs.total_size));
                return Err(SchemaError::SizeMismatch { variant: v.name });
            }
            assert(variant_wf(vv, gs.total_size));
            i = i + 1;
        }
        let mut a: usize = 0;
        while a < n
            invariant
                n == variants@.len(),
                gs == schema_model(variants@, total_size as nat),
                forall|k: int| 0 <= k < n ==> variant_wf(#[trigger] gs.variants[k], gs.total_size),
                forall|p: int, q: int|
                    0 <= p < q < n && p < a ==> gs.variants[p].discriminant != gs.variants[
                        q
                    ].discriminant,
            decreases n - a,
        {
            let da = variants[a].discriminant;
            let mut b: usize = a + 1;
            while b < n
                invariant
                    0 <= a < n,
                    a < b,
                    n == variants@.len(),
                    da == gs.variants[a as int].discriminant,
                    gs == schema_model(variants@, total_size as nat),
                    forall|q: int|
                        a < q < b ==> gs.variants[a as int].discriminant != gs.variants[
                            q
                        ].discriminant,
                decreases n - b,
            {
                if variants[b].discriminant == da {
                    proof {
                        assert(gs.variants[a as int].discriminant == gs.variants[
                            b as int
                        ].discriminant);
                        assert(!schema_wf(gs));
                    }
                    return Err(SchemaError::DuplicateDiscriminant { discriminant: da });
                }
                b = b + 1;
            }
            a = a + 1;
        }
        assert(schema_wf(gs));
        Ok(Schema { variants, total_size })
    }

    /// The fixed size in bytes of every encoded frame of this schema.
    pub fn total_size(&self) -> (r: usize)
        ensures
            r as nat == self@.total_size,
    {
        self.total_size
    }

    /// The number of variants in the table.
    pub fn variant_count(&self) -> (r: usize)
        ensures
            r as nat == self@.variants.len(),
    {
        self.variants.len()
    }

    /// The descriptor at a table index.
    pub fn variant_at(&self, i: usize) -> (r: &VariantDescriptor)
        requires
            i < self@.variants.len(),
        ensures
            r@ == self@.variants[i as int],
    {
        &self.variants[i]
    }

    /// Looks up the table index of the variant declared with discriminant
    /// `d`, scanning in declaration order.
    pub fn find_variant(&self, d: u8) -> (r: Option<usize>)
        ensures
            r matches Some(i) ==> i < self@.variants.len() && self@.variants[
                i as int
            ].discriminant == d && spec_find_variant(self@.variants, d) == Some(
                self@.variants[i as int],
            ),
            r is None ==> spec_find_variant(self@.variants, d) is None,
    {
        let n = self.variants.len();
        let mut i: usize = 0;
        while i < n
            invariant
                n == self@.variants.len(),
                i <= n,
                forall|k: int| 0 <= k < i ==> self@.variants[k].discriminant != d,
            decreases n - i,
        {
            if self.variants[i].discriminant == d {
                proof {
                    lemma_find_variant_skip(self@.variants, d, i as int);
                    assert(self@.variants.skip(i as int)[0] == self@.variants[i as int]);
                }
                return Some(i);
            }
            i = i + 1;
        }
        proof {
            lemma_find_variant_skip(self@.variants, d, n as int);
            assert(self@.variants.skip(n as int).len() == 0);
        }
        None
    }
}

} // verus!
