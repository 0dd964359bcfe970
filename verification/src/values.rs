//! Runtime type information that code generation tracks for each value:
//! the types themselves, their names, the array metadata they need, their
//! machine lane types, and how the element types of a literal unify.

use vstd::prelude::*;

verus! {

broadcast use vstd::std_specs::vec::group_vec_axioms;

/// Runtime type info for AOT values. A copy is made with `duplicate` and
/// two types are compared with `same_type`.
#[derive(Debug)]
pub enum AotValueType {
    Int,
    Float,
    Bool,
    Char,
    String,
    Ptr,
    Unknown,
    // Fixed-width types
    U8,
    U16,
    U32,
    U64,
    U128,
    I8,
    I16,
    I32,
    I64,
    I128,
    F32,
    F64,
    /// Array with element type and length
    Array(Box<AotValueType>, usize),
    /// Raw array with element type and length (zero metadata overhead)
    RawArray(Box<AotValueType>, usize),
    /// Set with element type and length
    SetOf(Box<AotValueType>, usize),
    /// Tuple with element types
    Tuple(Vec<AotValueType>),
    /// Handle to a runtime value (for JIT bridge)
    Handle,
}

/// The mathematical value of a runtime type: the same shape, with the
/// element types of a tuple as a sequence, so that two types are equal
/// exactly when their views are.
pub enum TypeView {
    Int,
    Float,
    Bool,
    Char,
    Str,
    Ptr,
    Unknown,
    U8,
    U16,
    U32,
    U64,
    U128,
    I8,
    I16,
    I32,
    I64,
    I128,
    F32,
    F64,
    Array(Box<TypeView>, usize),
    RawArray(Box<TypeView>, usize),
    SetOf(Box<TypeView>, usize),
    Tuple(Seq<TypeView>),
    Handle,
}

/// The view of a runtime type.
pub open spec fn view_of(t: AotValueType) -> TypeView
    decreases t,
{
    match t {
        AotValueType::Int => TypeView::Int,
        AotValueType::Float => TypeView::Float,
        AotValueType::Bool => TypeView::Bool,
        AotValueType::Char => TypeView::Char,
        AotValueType::String => TypeView::Str,
        AotValueType::Ptr => TypeView::Ptr,
        AotValueType::Unknown => TypeView::Unknown,
        AotValueType::U8 => TypeView::U8,
        AotValueType::U16 => TypeView::U16,
        AotValueType::U32 => TypeView::U32,
        AotValueType::U64 => TypeView::U64,
        AotValueType::U128 => TypeView::U128,
        AotValueType::I8 => TypeView::I8,
        AotValueType::I16 => TypeView::I16,
        AotValueType::I32 => TypeView::I32,
        AotValueType::I64 => TypeView::I64,
        AotValueType::I128 => TypeView::I128,
        AotValueType::F32 => TypeView::F32,
        AotValueType::F64 => TypeView::F64,
        AotValueType::Array(e, n) => TypeView::Array(Box::new(view_of(*e)), n),
        AotValueType::RawArray(e, n) => TypeView::RawArray(Box::new(view_of(*e)), n),
        AotValueType::SetOf(e, n) => TypeView::SetOf(Box::new(view_of(*e)), n),
        AotValueType::Tuple(v) => TypeView::Tuple(views_of(v@)),
        AotValueType::Handle => TypeView::Handle,
    }
}

/// The views of a sequence of runtime types, in order.
pub open spec fn views_of(s: Seq<AotValueType>) -> Seq<TypeView>
    decreases s,
{
    if s.len() == 0 {
        Seq::empty()
    } else {
        seq![view_of(s[0])] + views_of(s.subrange(1, s.len() as int))
    }
}

impl View for AotValueType {
    type V = TypeView;

    open spec fn view(&self) -> TypeView {
        view_of(*self)
    }
}

/// `views_of` keeps the length and maps each element by `view_of`.
pub proof fn lemma_views_of(s: Seq<AotValueType>)
    ensures
        views_of(s).len() == s.len(),
        forall|i: int| 0 <= i < s.len() ==> #[trigger] views_of(s)[i] == view_of(s[i]),
    decreases s.len(),
{
    if s.len() > 0 {
        let rest = s.subrange(1, s.len() as int);
        lemma_views_of(rest);
        assert forall|i: int| 0 <= i < s.len() implies #[trigger] views_of(s)[i] == view_of(s[i]) by {
            if i > 0 {
                assert(rest[i - 1] == s[i]);
            }
        }
    }
}

/// Machine lane types of the code generator.
#[derive(Debug, Clone, Copy, PartialEq, Eq, Structural)]
pub enum ClifType {
    I8,
    I16,
    I32,
    I64,
    I128,
    F32,
    F64,
}

/// The name a runtime type has in messages and type tags.
pub open spec fn type_label(t: TypeView) -> Seq<char> {
    match t {
        TypeView::SetOf(..) => "set"@,
        TypeView::Tuple(..) => "tuple"@,
        TypeView::Array(..) | TypeView::RawArray(..) => "array"@,
        TypeView::U8 => "u8"@,
        TypeView::I8 => "i8"@,
        TypeView::U16 => "u16"@,
        TypeView::I16 => "i16"@,
        TypeView::U32 => "u32"@,
        TypeView::I32 => "i32"@,
        TypeView::U64 => "u64"@,
        TypeView::I64 => "i64"@,
        TypeView::U128 => "u128"@,
        TypeView::I128 => "i128"@,
        TypeView::F32 => "f32"@,
        TypeView::F64 => "f64"@,
        TypeView::Bool => "bool"@,
        TypeView::Char => "char"@,
        TypeView::Str => "string"@,
        _ => "number"@,
    }
}

/// Whether array elements of this type are at most four bytes wide.
pub open spec fn is_narrow(t: TypeView) -> bool {
    match t {
        TypeView::U8 | TypeView::I8 | TypeView::Bool | TypeView::U16 | TypeView::I16 | TypeView::U32
        | TypeView::I32 | TypeView::F32 | TypeView::Char => true,
        _ => false,
    }
}

/// Lane width and signedness of the fixed-width integer types (`Int` is a
/// signed 64-bit lane); none for the others.
pub open spec fn native_width_of(t: TypeView) -> Option<(u32, bool)> {
    match t {
        TypeView::U8 => Some((8, false)),
        TypeView::U16 => Some((16, false)),
        TypeView::U32 => Some((32, false)),
        TypeView::U64 => Some((64, false)),
        TypeView::I8 => Some((8, true)),
        TypeView::I16 => Some((16, true)),
        TypeView::I32 => Some((32, true)),
        TypeView::I64 | TypeView::Int => Some((64, true)),
        _ => None,
    }
}

/// Whether a type is numeric: the fixed-width integers and floats and the
/// dynamic `Int` and `Float`.
pub open spec fn is_numeric(t: TypeView) -> bool {
    match t {
        TypeView::U8 | TypeView::U16 | TypeView::U32 | TypeView::U64 | TypeView::U128 | TypeView::I8
        | TypeView::I16 | TypeView::I32 | TypeView::I64 | TypeView::I128 | TypeView::F32
        | TypeView::F64 | TypeView::Int | TypeView::Float => true,
        _ => false,
    }
}

/// The lane type a value of this type is held in: floats in float lanes,
/// `Bool` in a byte, the fixed-width integers by width, everything else in
/// a 64-bit lane.
pub open spec fn lane_of(t: TypeView) -> ClifType {
    match t {
        TypeView::Float | TypeView::F64 => ClifType::F64,
        TypeView::F32 => ClifType::F32,
        TypeView::Bool => ClifType::I8,
        TypeView::U8 | TypeView::I8 => ClifType::I8,
        TypeView::U16 | TypeView::I16 => ClifType::I16,
        TypeView::U32 | TypeView::I32 => ClifType::I32,
        TypeView::U128 | TypeView::I128 => ClifType::I128,
        _ => ClifType::I64,
    }
}

/// Two element types unify to the type itself when they are equal, and to
/// `Handle` otherwise, which keeps each element's own type tag.
pub open spec fn unify_view(a: TypeView, b: TypeView) -> TypeView {
    if a == b {
        a
    } else {
        TypeView::Handle
    }
}

/// The unification of the first `n` types of `s`, from left to right.
pub open spec fn unify_prefix(s: Seq<TypeView>, n: nat) -> TypeView
    decreases n,
{
    if n <= 1 {
        s[0]
    } else {
        unify_view(unify_prefix(s, (n - 1) as nat), s[n - 1])
    }
}

/// Whether the first `n` types of `s` all equal the first.
pub open spec fn all_same(s: Seq<TypeView>, n: nat) -> bool {
    forall|i: int| 0 <= i < n ==> #[trigger] s[i] == s[0]
}

/// The element type of an array literal with element types `s`: `Int` for
/// no elements, the common type when all are equal, `Handle` otherwise.
pub open spec fn unified_elements(s: Seq<TypeView>) -> TypeView {
    if s.len() == 0 {
        TypeView::Int
    } else if all_same(s, s.len()) {
        s[0]
    } else {
        TypeView::Handle
    }
}

impl AotValueType {
    /// A copy of this type with the same view.
    pub fn duplicate(&self) -> (r: AotValueType)
        ensures
            r@ == self@,
        decreases self,
    {
        match self {
            AotValueType::Int => AotValueType::Int,
            AotValueType::Float => AotValueType::Float,
            AotValueType::Bool => AotValueType::Bool,
            AotValueType::Char => AotValueType::Char,
            AotValueType::String => AotValueType::String,
            AotValueType::Ptr => AotValueType::Ptr,
            AotValueType::Unknown => AotValueType::Unknown,
            AotValueType::U8 => AotValueType::U8,
            AotValueType::U16 => AotValueType::U16,
            AotValueType::U32 => AotValueType::U32,
            AotValueType::U64 => AotValueType::U64,
            AotValueType::U128 => AotValueType::U128,
            AotValueType::I8 => AotValueType::I8,
            AotValueType::I16 => AotValueType::I16,
            AotValueType::I32 => AotValueType::I32,
            AotValueType::I64 => AotValueType::I64,
            AotValueType::I128 => AotValueType::I128,
            AotValueType::F32 => AotValueType::F32,
            AotValueType::F64 => AotValueType::F64,
            AotValueType::Array(e, n) => AotValueType::Array(Box::new(e.duplicate()), *n),
            AotValueType::RawArray(e, n) => AotValueType::RawArray(Box::new(e.duplicate()), *n),
            AotValueType::SetOf(e, n) => AotValueType::SetOf(Box::new(e.duplicate()), *n),
            AotValueType::Tuple(v) => AotValueType::Tuple(duplicate_all(v)),
            AotValueType::Handle => AotValueType::Handle,
        }
    }

    pub fn element_type_name(&self) -> (s: &'static str)
        ensures
            s@ == type_label(self@),
    {
        match self {
            AotValueType::SetOf(..) => "set",
            AotValueType::Tuple(..) => "tuple",
            AotValueType::Array(..) | AotValueType::RawArray(..) => "array",
            AotValueType::U8 => "u8",
            AotValueType::I8 => "i8",
            AotValueType::U16 => "u16",
            AotValueType::I16 => "i16",
            AotValueType::U32 => "u32",
            AotValueType::I32 => "i32",
            AotValueType::U64 => "u64",
            AotValueType::I64 => "i64",
            AotValueType::U128 => "u128",
            AotValueType::I128 => "i128",
            AotValueType::F32 => "f32",
            AotValueType::F64 => "f64",
            AotValueType::Int | AotValueType::Float => "number",
            AotValueType::Bool => "bool",
            AotValueType::Char => "char",
            AotValueType::String => "string",
            _ => "number",
        }
    }

    /// Metadata overhead of an array of this element type: 16 bytes
    /// (32-bit length and capacity, 8-byte pointer) for elements of at most
    /// four bytes, 24 bytes (64-bit length and capacity) otherwise.
    pub fn metadata_size(&self) -> (n: i64)
        ensures
            n == (if is_narrow(self@) {
                16int
            } else {
                24int
            }),
    {
        match self {
            AotValueType::U8
            | AotValueType::I8
            | AotValueType::Bool
            | AotValueType::U16
            | AotValueType::I16
            | AotValueType::U32
            | AotValueType::I32
            | AotValueType::F32
            | AotValueType::Char => 16,
            _ => 24,
        }
    }
}

/// Copies of a list of types, in order, each with the same view.
fn duplicate_all(v: &Vec<AotValueType>) -> (r: Vec<AotValueType>)
    ensures
        views_of(r@) == views_of(v@),
    decreases v,
{
    let mut r: Vec<AotValueType> = Vec::new();
    let mut i: usize = 0;
    while i < v.len()
        invariant
            i <= v@.len(),
            r@.len() == i,
            forall|j: int| 0 <= j < i ==> #[trigger] view_of(r@[j]) == view_of(v@[j]),
        decreases v.len() - i,
    {
        let t = v[i].duplicate();
        r.push(t);
        i = i + 1;
    }
    proof {
        lemma_views_of(r@);
        lemma_views_of(v@);
        assert(views_of(r@) =~= views_of(v@));
    }
    r
}

/// Whether two types are equal, comparing tuple elements in order.
pub fn same_type(a: &AotValueType, b: &AotValueType) -> (r: bool)
    ensures
        r == (a@ == b@),
    decreases a,
{
    match (a, b) {
        (AotValueType::Int, AotValueType::Int) => true,
        (AotValueType::Float, AotValueType::Float) => true,
        (AotValueType::Bool, AotValueType::Bool) => true,
        (AotValueType::Char, AotValueType::Char) => true,
        (AotValueType::String, AotValueType::String) => true,
        (AotValueType::Ptr, AotValueType::Ptr) => true,
        (AotValueType::Unknown, AotValueType::Unknown) => true,
        (AotValueType::U8, AotValueType::U8) => true,
        (AotValueType::U16, AotValueType::U16) => true,
        (AotValueType::U32, AotValueType::U32) => true,
        (AotValueType::U64, AotValueType::U64) => true,
        (AotValueType::U128, AotValueType::U128) => true,
        (AotValueType::I8, AotValueType::I8) => true,
        (AotValueType::I16, AotValueType::I16) => true,
        (AotValueType::I32, AotValueType::I32) => true,
        (AotValueType::I64, AotValueType::I64) => true,
        (AotValueType::I128, AotValueType::I128) => true,
        (AotValueType::F32, AotValueType::F32) => true,
        (AotValueType::F64, AotValueType::F64) => true,
        (AotValueType::Handle, AotValueType::Handle) => true,
        (AotValueType::Array(x, n), AotValueType::Array(y, m)) => *n == *m && same_type(x, y),
        (AotValueType::RawArray(x, n), AotValueType::RawArray(y, m)) => *n == *m && same_type(x, y),
        (AotValueType::SetOf(x, n), AotValueType::SetOf(y, m)) => *n == *m && same_type(x, y),
        (AotValueType::Tuple(x), AotValueType::Tuple(y)) => same_types(x, y),
        _ => false,
    }
}

/// Whether two lists of types are equal element by element.
fn same_types(a: &Vec<AotValueType>, b: &Vec<AotValueType>) -> (r: bool)
    ensures
        r == (views_of(a@) == views_of(b@)),
    decreases a,
{
    proof {
        lemma_views_of(a@);
        lemma_views_of(b@);
    }
    if a.len() != b.len() {
        return false;
    }
    let mut i: usize = 0;
    while i < a.len()
        invariant
            i <= a@.len(),
            a@.len() == b@.len(),
            views_of(a@).len() == a@.len(),
            views_of(b@).len() == b@.len(),
            forall|j: int| 0 <= j < a@.len() ==> #[trigger] views_of(a@)[j] == view_of(a@[j]),
            forall|j: int| 0 <= j < b@.len() ==> #[trigger] views_of(b@)[j] == view_of(b@[j]),
            forall|j: int| 0 <= j < i ==> view_of(#[trigger] a@[j]) == view_of(b@[j]),
        decreases a.len() - i,
    {
        if !same_type(&a[i], &b[i]) {
            assert(views_of(a@)[i as int] != views_of(b@)[i as int]);
            return false;
        }
        i = i + 1;
    }
    assert(views_of(a@) =~= views_of(b@)) by {
        assert forall|j: int| 0 <= j < a@.len() implies views_of(a@)[j] == views_of(b@)[j] by {
            assert(view_of(a@[j]) == view_of(b@[j]));
        }
    }
    true
}

/// Fixed-width lane info for native bitwise lowering: `(bits, is_signed)`.
/// None for 128-bit and untracked values, which keep the 64-bit path.
pub fn native_width(ty: Option<&AotValueType>) -> (r: Option<(u32, bool)>)
    ensures
        r == (match ty {
            Some(t) => native_width_of(t@),
            None => None,
        }),
{
    match ty {
        None => None,
        Some(t) => match t {
            AotValueType::U8 => Some((8, false)),
            AotValueType::U16 => Some((16, false)),
            AotValueType::U32 => Some((32, false)),
            AotValueType::U64 => Some((64, false)),
            AotValueType::I8 => Some((8, true)),
            AotValueType::I16 => Some((16, true)),
            AotValueType::I32 => Some((32, true)),
            AotValueType::I64 | AotValueType::Int => Some((64, true)),
            _ => None,
        },
    }
}

/// Whether a type is numeric.
pub fn is_numeric_type(t: &AotValueType) -> (r: bool)
    ensures
        r == is_numeric(t@),
{
    match t {
        AotValueType::U8
        | AotValueType::U16
        | AotValueType::U32
        | AotValueType::U64
        | AotValueType::U128
        | AotValueType::I8
        | AotValueType::I16
        | AotValueType::I32
        | AotValueType::I64
        | AotValueType::I128
        | AotValueType::F32
        | AotValueType::F64
        | AotValueType::Int
        | AotValueType::Float => true,
        _ => false,
    }
}

/// The lane type a value of this runtime type is held in.
pub fn aot_type_to_cranelift(aot_type: &AotValueType) -> (r: ClifType)
    ensures
        r == lane_of(aot_type@),
{
    match aot_type {
        AotValueType::Float | AotValueType::F64 => ClifType::F64,
        AotValueType::F32 => ClifType::F32,
        AotValueType::Bool => ClifType::I8,
        AotValueType::U8 | AotValueType::I8 => ClifType::I8,
        AotValueType::U16 | AotValueType::I16 => ClifType::I16,
        AotValueType::U32 | AotValueType::I32 => ClifType::I32,
        AotValueType::U128 | AotValueType::I128 => ClifType::I128,
        _ => ClifType::I64,
    }
}

/// Unify two element types: equal types unify to themselves, different
/// ones to `Handle`.
pub fn unify_two_types(a: &AotValueType, b: &AotValueType) -> (r: AotValueType)
    ensures
        r@ == unify_view(a@, b@),
{
    if same_type(a, b) {
        return a.duplicate();
    }
    AotValueType::Handle
}

/// After `n` types, the left-to-right unification is the first type when
/// all of them equal it, and `Handle` otherwise.
pub proof fn lemma_unify_prefix(s: Seq<TypeView>, n: nat)
    requires
        1 <= n <= s.len(),
    ensures
        unify_prefix(s, n) == (if all_same(s, n) {
            s[0]
        } else {
            TypeView::Handle
        }),
    decreases n,
{
    if n > 1 {
        lemma_unify_prefix(s, (n - 1) as nat);
        if all_same(s, (n - 1) as nat) {
            if s[n - 1] == s[0] {
                assert(all_same(s, n));
            } else {
                assert(!all_same(s, n));
            }
        } else {
            let k = choose|i: int| 0 <= i < n - 1 && #[trigger] s[i] != s[0];
            assert(s[k] != s[0]);
            assert(!all_same(s, n));
        }
    }
}

/// Unification is symmetric and idempotent.
pub proof fn lemma_unify_symmetric(a: TypeView, b: TypeView)
    ensures
        unify_view(a, b) == unify_view(b, a),
        unify_view(a, a) == a,
{
}

/// Element type of an array literal: `Int` for no elements; otherwise the
/// element types unified from left to right, which gives the common type
/// when all are equal and `Handle` when any differs.
pub fn unify_array_elem_types(elem_types: &[AotValueType]) -> (r: AotValueType)
    ensures
        r@ == unified_elements(views_of(elem_types@)),
{
    proof {
        lemma_views_of(elem_types@);
    }
    if elem_types.len() == 0 {
        return AotValueType::Int;
    }
    let ghost s = views_of(elem_types@);
    let mut current = elem_types[0].duplicate();
    let mut i: usize = 1;
    while i < elem_types.len()
        invariant
            1 <= i <= elem_types@.len(),
            s == views_of(elem_types@),
            s.len() == elem_types@.len(),
            forall|j: int| 0 <= j < elem_types@.len() ==> #[trigger] s[j] == view_of(elem_types@[j]),
            current@ == unify_prefix(s, i as nat),
        decreases elem_types.len() - i,
    {
        current = unify_two_types(&current, &elem_types[i]);
        i = i + 1;
    }
    proof {
        lemma_unify_prefix(s, s.len());
    }
    current
}

} // verus!
