//! The pieces that every slot is wired from: the decoder of comparison
//! operators, the softening of type errors, the converters of results, the
//! wrapping casts behind hashing, and the forwarding of indexed access.

use vstd::prelude::*;
use crate::err::{ExcType, PyErr, PyErrView, PyResult};
use crate::ffi::{c_int, Py_hash_t, Py_ssize_t, Py_EQ, Py_GE, Py_GT, Py_LE, Py_LT, Py_NE};
use crate::function::CallbackConverter;
use crate::py_class::CompareOp;
use crate::python::{Interp, PyObject, Python};

verus! {

/// The comparison that a raw operator code stands for, if it stands for one.
pub open spec fn compare_op_of(op: int) -> Option<CompareOp> {
    if op == Py_LT {
        Some(CompareOp::Lt)
    } else if op == Py_LE {
        Some(CompareOp::Le)
    } else if op == Py_EQ {
        Some(CompareOp::Eq)
    } else if op == Py_NE {
        Some(CompareOp::Ne)
    } else if op == Py_GT {
        Some(CompareOp::Gt)
    } else if op == Py_GE {
        Some(CompareOp::Ge)
    } else {
        None
    }
}

/// The error that answers an operator code which stands for no comparison.
pub open spec fn invalid_operator() -> PyErrView {
    PyErrView {
        ptype: ExcType::ValueError,
        pvalue: Some("tp_richcompare called with invalid comparison operator"@),
    }
}

/// Decodes the raw operator code of a rich comparison.
pub fn extract_op(_py: &Python, op: c_int) -> (r: PyResult<CompareOp>)
    ensures
        match compare_op_of(op as int) {
            Some(decoded) => r == Ok::<CompareOp, PyErr>(decoded),
            None => r is Err && r->Err_0@ == invalid_operator(),
        },
{
    if op == Py_LT {
        Ok(CompareOp::Lt)
    } else if op == Py_LE {
        Ok(CompareOp::Le)
    } else if op == Py_EQ {
        Ok(CompareOp::Eq)
    } else if op == Py_NE {
        Ok(CompareOp::Ne)
    } else if op == Py_GT {
        Ok(CompareOp::Gt)
    } else if op == Py_GE {
        Ok(CompareOp::Ge)
    } else {
        Err(
            PyErr::new_lazy_init(
                ExcType::ValueError,
                Some("tp_richcompare called with invalid comparison operator".to_string()),
            ),
        )
    }
}

/// Every comparison has exactly one raw code, and the decoder maps the code
/// back to it.
pub proof fn lemma_compare_op_codes(decoded: CompareOp)
    ensures
        exists|op: int| #[trigger] compare_op_of(op) == Some(decoded),
        forall|a: int, b: int|
            compare_op_of(a) == Some(decoded) && compare_op_of(b) == Some(decoded) ==> a == b,
{
    match decoded {
        CompareOp::Lt => assert(compare_op_of(0) == Some(decoded)),
        CompareOp::Le => assert(compare_op_of(1) == Some(decoded)),
        CompareOp::Eq => assert(compare_op_of(2) == Some(decoded)),
        CompareOp::Ne => assert(compare_op_of(3) == Some(decoded)),
        CompareOp::Gt => assert(compare_op_of(4) == Some(decoded)),
        CompareOp::Ge => assert(compare_op_of(5) == Some(decoded)),
    }
}

/// What becomes of an error in a containment test: a type error is the
/// answer `false`, every other error stays the error it is.
pub open spec fn type_error_to_false_spec(e: PyErr) -> PyResult<bool> {
    if e.ptype == ExcType::TypeError {
        Ok(false)
    } else {
        Err(e)
    }
}

/// Turns a type error into the answer `false` and hands every other error on
/// unchanged.
pub fn type_error_to_false(py: &Python, e: PyErr) -> (r: PyResult<bool>)
    ensures
        r == type_error_to_false_spec(e),
{
    if e.matches(py, ExcType::TypeError) {
        Ok(false)
    } else {
        Err(e)
    }
}

/// Converter of slots that return nothing.
pub struct VoidCallbackConverter;

impl CallbackConverter<()> for VoidCallbackConverter {
    type R = ();

    open spec fn convert_spec(val: (), before: Interp) -> ((), Interp) {
        ((), before)
    }

    open spec fn error_value_spec() -> () {
        ()
    }

    #[inline]
    fn convert(val: (), py: &mut Python) -> (r: ()) {
        ()
    }

    #[inline]
    fn error_value() -> (r: ()) {
        ()
    }

    proof fn lemma_convert_raises_only(val: (), before: Interp) {
    }
}

/// Converter of slots that report success as `0` and failure as `-1`, for
/// methods that return nothing.
pub struct UnitCallbackConverter;

impl CallbackConverter<()> for UnitCallbackConverter {
    type R = c_int;

    open spec fn convert_spec(val: (), before: Interp) -> (c_int, Interp) {
        (0, before)
    }

    open spec fn error_value_spec() -> c_int {
        -1i32
    }

    #[inline]
    fn convert(val: (), py: &mut Python) -> (r: c_int) {
        0
    }

    #[inline]
    fn error_value() -> (r: c_int) {
        -1
    }

    proof fn lemma_convert_raises_only(val: (), before: Interp) {
    }
}

/// The error that answers a length which the signed size word cannot hold.
pub open spec fn length_overflow() -> PyErrView {
    PyErrView { ptype: ExcType::OverflowError, pvalue: None }
}

/// Converter of length slots.
pub struct LenResultConverter;

impl CallbackConverter<usize> for LenResultConverter {
    type R = Py_ssize_t;

    open spec fn convert_spec(val: usize, before: Interp) -> (Py_ssize_t, Interp) {
        if val <= isize::MAX {
            (val as isize, before)
        } else {
            (-1isize, before.raise(length_overflow()))
        }
    }

    open spec fn error_value_spec() -> Py_ssize_t {
        -1isize
    }

    fn convert(val: usize, py: &mut Python) -> (r: Py_ssize_t) {
        if val <= (isize::MAX as usize) {
            val as isize
        } else {
            PyErr::new_lazy_init(ExcType::OverflowError, None).restore(py);
            -1
        }
    }

    #[inline]
    fn error_value() -> (r: Py_ssize_t) {
        -1
    }

    proof fn lemma_convert_raises_only(val: usize, before: Interp) {
    }
}

/// The signal that an iterator raises when it has no further value.
pub open spec fn stop_iteration() -> PyErrView {
    PyErrView { ptype: ExcType::StopIteration, pvalue: None }
}

/// Converter of the slot that asks an iterator for its next value.  The
/// value arrives in the runtime's object form.
pub struct IterNextResultConverter;

impl CallbackConverter<Option<PyObject>> for IterNextResultConverter {
    type R = usize;

    open spec fn convert_spec(val: Option<PyObject>, before: Interp) -> (usize, Interp) {
        match val {
            Some(obj) => (obj@, before),
            None => (0, before.raise(stop_iteration())),
        }
    }

    open spec fn error_value_spec() -> usize {
        0
    }

    fn convert(val: Option<PyObject>, py: &mut Python) -> (r: usize) {
        match val {
            Some(obj) => obj.steal_ptr(),
            None => {
                PyErr::new_lazy_init(ExcType::StopIteration, None).restore(py);
                0
            },
        }
    }

    #[inline]
    fn error_value() -> (r: usize) {
        0
    }

    proof fn lemma_convert_raises_only(val: Option<PyObject>, before: Interp) {
    }
}

/// Converter of slots that answer a question: `1` for yes, `0` for no.
pub struct BoolConverter;

impl CallbackConverter<bool> for BoolConverter {
    type R = c_int;

    open spec fn convert_spec(val: bool, before: Interp) -> (c_int, Interp) {
        (if val { 1i32 } else { 0i32 }, before)
    }

    open spec fn error_value_spec() -> c_int {
        -1i32
    }

    #[inline]
    fn convert(val: bool, py: &mut Python) -> (r: c_int) {
        if val {
            1
        } else {
            0
        }
    }

    #[inline]
    fn error_value() -> (r: c_int) {
        -1
    }

    proof fn lemma_convert_raises_only(val: bool, before: Interp) {
    }
}

/// Converter of slots whose method reports by `true` that it succeeded and by
/// `false` that it has raised an error itself.
pub struct SuccessConverter;

impl CallbackConverter<bool> for SuccessConverter {
    type R = c_int;

    open spec fn convert_spec(val: bool, before: Interp) -> (c_int, Interp) {
        (if val { 0i32 } else { -1i32 }, before)
    }

    open spec fn error_value_spec() -> c_int {
        -1i32
    }

    #[inline]
    fn convert(val: bool, py: &mut Python) -> (r: c_int) {
        if val {
            0
        } else {
            -1
        }
    }

    #[inline]
    fn error_value() -> (r: c_int) {
        -1
    }

    proof fn lemma_convert_raises_only(val: bool, before: Interp) {
    }
}

/// The capability of an integer type to be reduced to `T` by a cast that
/// keeps the low bits and reads them in `T`'s own signedness: no rounding,
/// no saturation, no failure.
pub trait WrappingCastTo<T>: Sized {
    /// The value that the cast gives.
    spec fn wrapping_cast_spec(self) -> T;

    /// The cast.
    fn wrapping_cast(self) -> (r: T)
        ensures
            r == self.wrapping_cast_spec(),
    ;
}

/// The hash word that holds the low bits of `v`: the one value of the word's
/// range that differs from `v` by a multiple of the word's modulus.
pub open spec fn wrap_to_hash(v: int) -> Py_hash_t {
    let m = v % (usize::MAX + 1);
    if m > isize::MAX {
        (m - (usize::MAX + 1)) as isize
    } else {
        m as isize
    }
}

/// The word is 32 or 64 bits wide, and `wrap_to_hash` is the reduction to
/// that width.
pub proof fn lemma_wrap_to_hash_by_width(v: int)
    ensures
        usize::BITS == 32 || usize::BITS == 64,
        usize::BITS == 32 ==> wrap_to_hash(v) == (if v % 0x1_0000_0000 > 0x7fff_ffff {
            v % 0x1_0000_0000 - 0x1_0000_0000
        } else {
            v % 0x1_0000_0000
        }),
        usize::BITS == 64 ==> wrap_to_hash(v) == (if v % 0x1_0000_0000_0000_0000
            > 0x7fff_ffff_ffff_ffff {
            v % 0x1_0000_0000_0000_0000 - 0x1_0000_0000_0000_0000
        } else {
            v % 0x1_0000_0000_0000_0000
        }),
{
    if usize::BITS == 32 {
        assert(usize::MAX + 1 == 0x1_0000_0000);
        assert(isize::MAX == 0x7fff_ffff);
    } else {
        assert(usize::MAX + 1 == 0x1_0000_0000_0000_0000);
        assert(isize::MAX == 0x7fff_ffff_ffff_ffff);
    }
}

/// A value that the hash word can hold is cast to itself.
pub proof fn lemma_wrap_to_hash_fits(v: int)
    requires
        isize::MIN <= v <= isize::MAX,
    ensures
        wrap_to_hash(v) == v,
{
    lemma_wrap_to_hash_by_width(v);
}

/// The cast differs from its argument by a multiple of the word's modulus.
pub proof fn lemma_wrap_to_hash_congruent(v: int)
    ensures
        (v - wrap_to_hash(v)) % (usize::MAX + 1) == 0,
{
    lemma_wrap_to_hash_by_width(v);
    let w = wrap_to_hash(v) as int;
    if usize::BITS == 32 {
        assert(usize::MAX + 1 == 0x1_0000_0000);
        assert((v - w) % 0x1_0000_0000 == 0);
    } else {
        assert(usize::MAX + 1 == 0x1_0000_0000_0000_0000);
        assert((v - w) % 0x1_0000_0000_0000_0000 == 0);
    }
}

/// What the cast gives for zero and for the greatest value of each of the
/// ten integer types.
pub proof fn lemma_wrap_to_hash_extremes()
    ensures
        wrap_to_hash(0) == 0,
        wrap_to_hash(u8::MAX as int) == u8::MAX,
        wrap_to_hash(u16::MAX as int) == u16::MAX,
        wrap_to_hash(u32::MAX as int) == (if usize::BITS == 32 { -1int } else { u32::MAX as int }),
        wrap_to_hash(usize::MAX as int) == -1,
        wrap_to_hash(u64::MAX as int) == -1,
        wrap_to_hash(i8::MAX as int) == i8::MAX,
        wrap_to_hash(i16::MAX as int) == i16::MAX,
        wrap_to_hash(i32::MAX as int) == i32::MAX,
        wrap_to_hash(isize::MAX as int) == isize::MAX,
        wrap_to_hash(i64::MAX as int) == (if usize::BITS == 32 { -1int } else { i64::MAX as int }),
{
    lemma_wrap_to_hash_by_width(0);
    lemma_wrap_to_hash_by_width(u8::MAX as int);
    lemma_wrap_to_hash_by_width(u16::MAX as int);
    lemma_wrap_to_hash_by_width(u32::MAX as int);
    lemma_wrap_to_hash_by_width(usize::MAX as int);
    lemma_wrap_to_hash_by_width(u64::MAX as int);
    lemma_wrap_to_hash_by_width(i8::MAX as int);
    lemma_wrap_to_hash_by_width(i16::MAX as int);
    lemma_wrap_to_hash_by_width(i32::MAX as int);
    lemma_wrap_to_hash_by_width(isize::MAX as int);
    lemma_wrap_to_hash_by_width(i64::MAX as int);
}

/// The plain cast of a `u32` is its wrapping cast.
pub proof fn lemma_cast_u32(x: u32)
    ensures
        x as isize == wrap_to_hash(x as int),
{
    lemma_wrap_to_hash_by_width(x as int);
    assert(usize::BITS == 32 ==> (x as isize) as int == (if x > 0x7fff_ffffu32 {
        x - 0x1_0000_0000
    } else {
        x as int
    })) by (bit_vector);
}

/// The plain cast of a `usize` is its wrapping cast.
pub proof fn lemma_cast_usize(x: usize)
    ensures
        x as isize == wrap_to_hash(x as int),
{
    lemma_wrap_to_hash_by_width(x as int);
    assert(usize::BITS == 32 ==> (x as isize) as int == (if x > 0x7fff_ffffusize {
        x - 0x1_0000_0000
    } else {
        x as int
    })) by (bit_vector);
    assert(usize::BITS == 64 ==> (x as isize) as int == (if x > 0x7fff_ffff_ffff_ffffu64 {
        x - 0x1_0000_0000_0000_0000
    } else {
        x as int
    })) by (bit_vector);
}

/// The plain cast of a `u64` is its wrapping cast.
pub proof fn lemma_cast_u64(x: u64)
    ensures
        x as isize == wrap_to_hash(x as int),
{
    lemma_wrap_to_hash_by_width(x as int);
    assert(usize::BITS == 32 ==> (x as isize) as int == (if x % 0x1_0000_0000 > 0x7fff_ffff {
        x % 0x1_0000_0000 - 0x1_0000_0000
    } else {
        (x % 0x1_0000_0000) as int
    })) by (bit_vector);
    assert(usize::BITS == 64 ==> (x as isize) as int == (if x > 0x7fff_ffff_ffff_ffffu64 {
        x - 0x1_0000_0000_0000_0000
    } else {
        x as int
    })) by (bit_vector);
}

/// The plain cast of an `i64` is its wrapping cast.
pub proof fn lemma_cast_i64(x: i64)
    ensures
        x as isize == wrap_to_hash(x as int),
{
    lemma_wrap_to_hash_by_width(x as int);
    assert(usize::BITS == 32 ==> (x as isize) as int == (if x % 0x1_0000_0000 > 0x7fff_ffff {
        x % 0x1_0000_0000 - 0x1_0000_0000
    } else {
        (x % 0x1_0000_0000) as int
    })) by (bit_vector);
    assert(usize::BITS == 64 ==> (x as isize) as int == x as int) by (bit_vector);
}

/// For every one of the ten integer types, the plain cast to the hash word
/// is the wrapping cast: it never fails and never saturates.
pub proof fn lemma_plain_cast_wraps(
    a: u8,
    b: u16,
    c: u32,
    d: usize,
    e: u64,
    f: i8,
    g: i16,
    h: i32,
    i: isize,
    j: i64,
)
    ensures
        a as isize == wrap_to_hash(a as int),
        b as isize == wrap_to_hash(b as int),
        c as isize == wrap_to_hash(c as int),
        d as isize == wrap_to_hash(d as int),
        e as isize == wrap_to_hash(e as int),
        f as isize == wrap_to_hash(f as int),
        g as isize == wrap_to_hash(g as int),
        h as isize == wrap_to_hash(h as int),
        i as isize == wrap_to_hash(i as int),
        j as isize == wrap_to_hash(j as int),
{
    lemma_wrap_to_hash_fits(a as int);
    lemma_wrap_to_hash_fits(b as int);
    lemma_cast_u32(c);
    lemma_cast_usize(d);
    lemma_cast_u64(e);
    lemma_wrap_to_hash_fits(f as int);
    lemma_wrap_to_hash_fits(g as int);
    lemma_wrap_to_hash_fits(h as int);
    lemma_wrap_to_hash_fits(i as int);
    lemma_cast_i64(j);
}

impl WrappingCastTo<Py_hash_t> for u8 {
    open spec fn wrapping_cast_spec(self) -> Py_hash_t {
        wrap_to_hash(self as int)
    }

    #[inline]
    fn wrapping_cast(self) -> (r: Py_hash_t)
        ensures
            r == self,
    {
        proof {
            lemma_wrap_to_hash_fits(self as int);
        }
        self as Py_hash_t
    }
}

impl WrappingCastTo<Py_hash_t> for u16 {
    open spec fn wrapping_cast_spec(self) -> Py_hash_t {
        wrap_to_hash(self as int)
    }

    #[inline]
    fn wrapping_cast(self) -> (r: Py_hash_t)
        ensures
            r == self,
    {
        proof {
            lemma_wrap_to_hash_fits(self as int);
        }
        self as Py_hash_t
    }
}

impl WrappingCastTo<Py_hash_t> for u32 {
    open spec fn wrapping_cast_spec(self) -> Py_hash_t {
        wrap_to_hash(self as int)
    }

    #[inline]
    fn wrapping_cast(self) -> (r: Py_hash_t) {
        proof {
            lemma_cast_u32(self);
        }
        #[verifier::truncate]
        (self as Py_hash_t)
    }
}

impl WrappingCastTo<Py_hash_t> for usize {
    open spec fn wrapping_cast_spec(self) -> Py_hash_t {
        wrap_to_hash(self as int)
    }

    #[inline]
    fn wrapping_cast(self) -> (r: Py_hash_t) {
        proof {
            lemma_cast_usize(self);
        }
        #[verifier::truncate]
        (self as Py_hash_t)
    }
}

impl WrappingCastTo<Py_hash_t> for u64 {
    open spec fn wrapping_cast_spec(self) -> Py_hash_t {
        wrap_to_hash(self as int)
    }

    #[inline]
    fn wrapping_cast(self) -> (r: Py_hash_t) {
        proof {
            lemma_cast_u64(self);
        }
        #[verifier::truncate]
        (self as Py_hash_t)
    }
}

impl WrappingCastTo<Py_hash_t> for i8 {
    open spec fn wrapping_cast_spec(self) -> Py_hash_t {
        wrap_to_hash(self as int)
    }

    #[inline]
    fn wrapping_cast(self) -> (r: Py_hash_t)
        ensures
            r == self,
    {
        proof {
            lemma_wrap_to_hash_fits(self as int);
        }
        self as Py_hash_t
    }
}

impl WrappingCastTo<Py_hash_t> for i16 {
    open spec fn wrapping_cast_spec(self) -> Py_hash_t {
        wrap_to_hash(self as int)
    }

    #[inline]
    fn wrapping_cast(self) -> (r: Py_hash_t)
        ensures
            r == self,
    {
        proof {
            lemma_wrap_to_hash_fits(self as int);
        }
        self as Py_hash_t
    }
}

impl WrappingCastTo<Py_hash_t> for i32 {
    open spec fn wrapping_cast_spec(self) -> Py_hash_t {
        wrap_to_hash(self as int)
    }

    #[inline]
    fn wrapping_cast(self) -> (r: Py_hash_t)
        ensures
            r == self,
    {
        proof {
            lemma_wrap_to_hash_fits(self as int);
        }
        self as Py_hash_t
    }
}

impl WrappingCastTo<Py_hash_t> for isize {
    open spec fn wrapping_cast_spec(self) -> Py_hash_t {
        wrap_to_hash(self as int)
    }

    #[inline]
    fn wrapping_cast(self) -> (r: Py_hash_t)
        ensures
            r == self,
    {
        proof {
            lemma_wrap_to_hash_fits(self as int);
        }
        self as Py_hash_t
    }
}

impl WrappingCastTo<Py_hash_t> for i64 {
    open spec fn wrapping_cast_spec(self) -> Py_hash_t {
        wrap_to_hash(self as int)
    }

    #[inline]
    fn wrapping_cast(self) -> (r: Py_hash_t) {
        proof {
            lemma_cast_i64(self);
        }
        #[verifier::truncate]
        (self as Py_hash_t)
    }
}

/// Converter of the hash slot.  The runtime reads `-1` as "hashing failed",
/// so a hash that wraps to `-1` is reported as `-2`.
pub struct HashConverter;

impl<T: WrappingCastTo<Py_hash_t>> CallbackConverter<T> for HashConverter {
    type R = Py_hash_t;

    open spec fn convert_spec(val: T, before: Interp) -> (Py_hash_t, Interp) {
        let hash = val.wrapping_cast_spec();
        (if hash == -1 { -2isize } else { hash }, before)
    }

    open spec fn error_value_spec() -> Py_hash_t {
        -1isize
    }

    #[inline]
    fn convert(val: T, py: &mut Python) -> (r: Py_hash_t) {
        let hash = val.wrapping_cast();
        if hash == -1 {
            -2
        } else {
            hash
        }
    }

    #[inline]
    fn error_value() -> (r: Py_hash_t) {
        -1
    }

    proof fn lemma_convert_raises_only(val: T, before: Interp) {
    }
}

/// Doing nothing and reporting plain success differ from the sentinel.
pub proof fn lemma_unit_success_differs_from_sentinel(before: Interp)
    ensures
        <UnitCallbackConverter as CallbackConverter<()>>::convert_spec((), before).0
            != <UnitCallbackConverter as CallbackConverter<()>>::error_value_spec(),
{
}

/// A length is encoded as itself exactly when the signed size word holds it;
/// then the encoding differs from the sentinel and raises nothing.  Any
/// greater length raises the overflow error and is answered by the sentinel.
pub proof fn lemma_length_encoding(val: usize, before: Interp)
    ensures
        val <= isize::MAX ==> LenResultConverter::convert_spec(val, before) == (
            val as isize,
            before,
        ) && val as isize != LenResultConverter::error_value_spec(),
        val > isize::MAX ==> LenResultConverter::convert_spec(val, before) == (
            LenResultConverter::error_value_spec(),
            before.raise(length_overflow()),
        ),
{
}

/// A present value is encoded as the address of its object, which differs
/// from the sentinel for every object that exists; an absent value raises the
/// stop signal and is answered by the null address.
pub proof fn lemma_iter_next_encoding(val: Option<PyObject>, before: Interp)
    ensures
        val matches Some(obj) ==> IterNextResultConverter::convert_spec(val, before) == (
            obj@,
            before,
        ),
        val matches Some(obj) && obj@ != 0 ==> IterNextResultConverter::convert_spec(
            val,
            before,
        ).0 != IterNextResultConverter::error_value_spec(),
        val is None ==> IterNextResultConverter::convert_spec(val, before) == (
            0usize,
            before.raise(stop_iteration()),
        ),
{
}

/// A hash is never encoded as the sentinel: the one hash that wraps to it is
/// reported as `-2`, and every other hash as what it wraps to.
pub proof fn lemma_hash_encoding<T: WrappingCastTo<Py_hash_t>>(val: T, before: Interp)
    ensures
        <HashConverter as CallbackConverter<T>>::convert_spec(val, before).0
            != <HashConverter as CallbackConverter<T>>::error_value_spec(),
        <HashConverter as CallbackConverter<T>>::convert_spec(val, before).1 == before,
        val.wrapping_cast_spec() == -1 ==> <HashConverter as CallbackConverter<T>>::convert_spec(
            val,
            before,
        ).0 == -2,
        val.wrapping_cast_spec() != -1 ==> <HashConverter as CallbackConverter<T>>::convert_spec(
            val,
            before,
        ).0 == val.wrapping_cast_spec(),
{
}

/// Neither answer to a question is the sentinel.
pub proof fn lemma_bool_differs_from_sentinel(val: bool, before: Interp)
    ensures
        BoolConverter::convert_spec(val, before).0 != BoolConverter::error_value_spec(),
        BoolConverter::convert_spec(val, before).1 == before,
{
}

/// A reported success differs from the sentinel; a reported failure is the
/// sentinel.
pub proof fn lemma_success_encoding(val: bool, before: Interp)
    ensures
        val <==> SuccessConverter::convert_spec(val, before).0
            != SuccessConverter::error_value_spec(),
        SuccessConverter::convert_spec(val, before).1 == before,
{
}

/// Where the forwarding of an indexed access stands.
#[derive(Clone, Copy, Debug, PartialEq, Eq, Structural)]
pub enum SqItemState {
    /// Nothing is done yet.
    Start {
        /// The object that is indexed.
        obj: usize,
        /// The index.
        index: Py_ssize_t,
    },
    /// The runtime is asked to box the index.
    Boxing {
        /// The object that is indexed.
        obj: usize,
    },
    /// The generic item access is asked for the item.
    Fetching {
        /// The boxed index.
        key: usize,
    },
    /// The boxed index is being released.
    Releasing {
        /// What the generic item access gave.
        ret: usize,
    },
    /// The slot has returned.
    Done {
        /// What it returned.
        ret: usize,
    },
}

/// What the forwarding of an indexed access asks of its runner.
#[derive(Clone, Copy, Debug, PartialEq, Eq, Structural)]
pub enum SqItemAction {
    /// Box the index as an integer object; reply with its address, or with
    /// the null address if that failed.
    BoxIndex(Py_ssize_t),
    /// Call the generic item access; reply with what it returns.
    GetItem {
        /// The object that is indexed.
        obj: usize,
        /// The boxed index.
        key: usize,
    },
    /// Release the object at this address.
    Release(usize),
    /// Return this address to the runtime.
    Return(usize),
}

/// The step that follows `state` when the previous action was answered with
/// `reply`.  The first step and the step after a release read no reply.
pub open spec fn sq_item_spec(state: SqItemState, reply: usize) -> (SqItemState, SqItemAction) {
    match state {
        SqItemState::Start { obj, index } => (
            SqItemState::Boxing { obj },
            SqItemAction::BoxIndex(index),
        ),
        SqItemState::Boxing { obj } => if reply == 0 {
            (SqItemState::Done { ret: 0 }, SqItemAction::Return(0))
        } else {
            (SqItemState::Fetching { key: reply }, SqItemAction::GetItem { obj, key: reply })
        },
        SqItemState::Fetching { key } => (
            SqItemState::Releasing { ret: reply },
            SqItemAction::Release(key),
        ),
        SqItemState::Releasing { ret } => (SqItemState::Done { ret }, SqItemAction::Return(ret)),
        SqItemState::Done { ret } => (SqItemState::Done { ret }, SqItemAction::Return(ret)),
    }
}

/// Forwards an access by integer index to the generic, key-based item access,
/// one step at a time: the caller performs each action against the runtime
/// and hands back the reply.
pub fn sq_item(state: SqItemState, reply: usize) -> (r: (SqItemState, SqItemAction))
    ensures
        r == sq_item_spec(state, reply),
{
    match state {
        SqItemState::Start { obj, index } => (
            SqItemState::Boxing { obj },
            SqItemAction::BoxIndex(index),
        ),
        SqItemState::Boxing { obj } => {
            let arg = reply;
            if arg == 0 {
                (SqItemState::Done { ret: arg }, SqItemAction::Return(arg))
            } else {
                (SqItemState::Fetching { key: arg }, SqItemAction::GetItem { obj, key: arg })
            }
        },
        SqItemState::Fetching { key } => (
            SqItemState::Releasing { ret: reply },
            SqItemAction::Release(key),
        ),
        SqItemState::Releasing { ret } => (SqItemState::Done { ret }, SqItemAction::Return(ret)),
        SqItemState::Done { ret } => (SqItemState::Done { ret }, SqItemAction::Return(ret)),
    }
}

/// A forwarded access boxes the index first.  If that gives the null address,
/// it returns the null address at once.  Otherwise it calls the generic item
/// access with the object and the boxed index, releases the boxed index, and
/// returns what the item access gave.
pub proof fn lemma_sq_item_run(obj: usize, index: Py_ssize_t, key: usize, ret: usize, idle: usize)
    ensures
        ({
            let (boxing, first) = sq_item_spec(SqItemState::Start { obj, index }, idle);
            let (after_box, second) = sq_item_spec(boxing, key);
            let (releasing, third) = sq_item_spec(after_box, ret);
            let (done, fourth) = sq_item_spec(releasing, idle);
            &&& first == SqItemAction::BoxIndex(index)
            &&& key == 0 ==> second == SqItemAction::Return(0) && after_box == (SqItemState::Done {
                ret: 0,
            })
            &&& key != 0 ==> {
                &&& second == (SqItemAction::GetItem { obj, key })
                &&& third == SqItemAction::Release(key)
                &&& fourth == SqItemAction::Return(ret)
                &&& done == (SqItemState::Done { ret })
            }
        }),
{
}

/// The generic item access is called only with a boxed index that exists, and
/// once the slot has returned it only returns the same address again.
pub proof fn lemma_sq_item_steps(state: SqItemState, reply: usize)
    ensures
        sq_item_spec(state, reply).1 is GetItem ==> state is Boxing && reply != 0 && sq_item_spec(
            state,
            reply,
        ).1->key == reply,
        state matches SqItemState::Done { ret } ==> sq_item_spec(state, reply) == (
            state,
            SqItemAction::Return(ret),
        ),
{
}

} // verus!
