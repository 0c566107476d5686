//! Values that remember whether they changed since they were last published.
use vstd::prelude::*;
use vstd::string::*;

use crate::text::{decimal, render_i64, render_u64, signed_decimal};

verus! {

/// What a `TrackedField` needs of the value it holds: an equality and the text
/// that is published for it.
pub trait TrackedValue: Sized {
    /// Whether `self` equals `other`.
    spec fn same_as(&self, other: &Self) -> bool;

    /// The text that is published for the value.
    spec fn text(&self) -> Seq<char>;

    fn equals(&self, other: &Self) -> (r: bool)
        ensures
            r == self.same_as(other),
    ;

    fn render(&self) -> (s: String)
        ensures
            s@ == self.text(),
    ;
}

impl TrackedValue for String {
    open spec fn same_as(&self, other: &Self) -> bool {
        self@ == other@
    }

    open spec fn text(&self) -> Seq<char> {
        self@
    }

    fn equals(&self, other: &Self) -> (r: bool) {
        self.eq(other)
    }

    fn render(&self) -> (s: String) {
        self.clone()
    }
}

impl TrackedValue for u64 {
    open spec fn same_as(&self, other: &Self) -> bool {
        *self == *other
    }

    open spec fn text(&self) -> Seq<char> {
        decimal(*self as nat)
    }

    fn equals(&self, other: &Self) -> (r: bool) {
        *self == *other
    }

    fn render(&self) -> (s: String) {
        render_u64(*self)
    }
}

impl TrackedValue for i64 {
    open spec fn same_as(&self, other: &Self) -> bool {
        *self == *other
    }

    open spec fn text(&self) -> Seq<char> {
        signed_decimal(*self as int)
    }

    fn equals(&self, other: &Self) -> (r: bool) {
        *self == *other
    }

    fn render(&self) -> (s: String) {
        render_i64(*self)
    }
}

impl TrackedValue for bool {
    open spec fn same_as(&self, other: &Self) -> bool {
        *self == *other
    }

    open spec fn text(&self) -> Seq<char> {
        if *self {
            "true"@
        } else {
            "false"@
        }
    }

    fn equals(&self, other: &Self) -> (r: bool) {
        *self == *other
    }

    fn render(&self) -> (s: String) {
        if *self {
            "true".to_string()
        } else {
            "false".to_string()
        }
    }
}

/// A measurement as a binary64 floating-point number: its bit pattern, by
/// which two readings are compared, and its decimal text, which is published.
pub struct Reading {
    pub bits: u64,
    pub text: String,
}

/// Whether a binary64 bit pattern is a NaN: all exponent bits set and a
/// nonzero fraction.
pub open spec fn is_nan_bits(bits: u64) -> bool {
    (bits >> 52u64) & 0x7ffu64 == 0x7ffu64 && bits & 0xf_ffff_ffff_ffffu64 != 0
}

/// Whether a binary64 bit pattern is a zero, positive or negative.
pub open spec fn is_zero_bits(bits: u64) -> bool {
    bits & 0x7fff_ffff_ffff_ffffu64 == 0
}

/// Equality of binary64 numbers given by their bits: a NaN equals nothing,
/// the two zeros are equal, and other numbers are equal when their bits are.
pub open spec fn binary64_equal(a: u64, b: u64) -> bool {
    !is_nan_bits(a) && !is_nan_bits(b) && (a == b || (is_zero_bits(a) && is_zero_bits(b)))
}

impl Reading {
    pub fn new(bits: u64, text: String) -> (r: Reading)
        ensures
            r.bits == bits,
            r.text@ == text@,
    {
        Reading { bits, text }
    }
}

impl Clone for Reading {
    fn clone(&self) -> (r: Self)
        ensures
            r == *self,
    {
        Reading { bits: self.bits, text: self.text.clone() }
    }
}

impl TrackedValue for Reading {
    open spec fn same_as(&self, other: &Self) -> bool {
        binary64_equal(self.bits, other.bits)
    }

    open spec fn text(&self) -> Seq<char> {
        self.text@
    }

    fn equals(&self, other: &Self) -> (r: bool) {
        let a = self.bits;
        let b = other.bits;
        let a_nan = (a >> 52u64) & 0x7ffu64 == 0x7ffu64 && a & 0xf_ffff_ffff_ffffu64 != 0;
        let b_nan = (b >> 52u64) & 0x7ffu64 == 0x7ffu64 && b & 0xf_ffff_ffff_ffffu64 != 0;
        let both_zero = a & 0x7fff_ffff_ffff_ffffu64 == 0 && b & 0x7fff_ffff_ffff_ffffu64 == 0;
        !a_nan && !b_nan && (a == b || both_zero)
    }

    fn render(&self) -> (s: String) {
        self.text.clone()
    }
}

/// The state of a `TrackedField`: the value it holds, if any, and whether it
/// changed since it was last read out.
pub struct FieldState<T> {
    pub value: Option<T>,
    pub modified: bool,
}

impl<T: TrackedValue> FieldState<T> {
    /// The state of a new field: no value, not modified.
    pub open spec fn empty() -> Self {
        FieldState { value: None, modified: false }
    }

    /// Whether the field already holds a value equal to `val`.
    pub open spec fn holds_equal(self, val: T) -> bool {
        self.value matches Some(w) && w.same_as(&val)
    }

    /// The state after `set(val)`: unchanged when the field already holds an
    /// equal value, else holding `val` and modified.
    pub open spec fn after_set(self, val: T) -> Self {
        if self.holds_equal(val) {
            self
        } else {
            FieldState { value: Some(val), modified: true }
        }
    }

    /// The state after `set_option(val)`: unchanged when `val` is `None`.
    pub open spec fn after_set_option(self, val: Option<T>) -> Self {
        match val {
            Some(v) => self.after_set(v),
            None => self,
        }
    }

    /// The state after `get_and_reset`: the same value, not modified.
    pub open spec fn after_read(self) -> Self {
        FieldState { value: self.value, modified: false }
    }

    /// The state after `reset`: no value, modified.
    pub open spec fn cleared() -> Self {
        FieldState { value: None, modified: true }
    }

    /// What `get_and_reset` hands out: the text of the value when the field
    /// is modified and holds one.
    pub open spec fn pending(self) -> Option<Seq<char>> {
        if self.modified {
            match self.value {
                Some(v) => Some(v.text()),
                None => None,
            }
        } else {
            None
        }
    }
}

/// A small generic wrapper that tracks whether a value has changed.
pub struct TrackedField<T: TrackedValue> {
    value: Option<T>,
    modified: bool,
}

impl<T: TrackedValue> View for TrackedField<T> {
    type V = FieldState<T>;

    closed spec fn view(&self) -> FieldState<T> {
        FieldState { value: self.value, modified: self.modified }
    }
}

impl<T: TrackedValue> TrackedField<T> {
    pub fn new() -> (r: Self)
        ensures
            r@ == FieldState::<T>::empty(),
    {
        TrackedField { value: None, modified: false }
    }

    pub fn set(&mut self, val: T)
        ensures
            final(self)@ == old(self)@.after_set(val),
    {
        let same = match &self.value {
            Some(w) => w.equals(&val),
            None => false,
        };
        if !same {
            self.value = Some(val);
            self.modified = true;
        }
    }

    pub fn set_option(&mut self, val: Option<T>)
        ensures
            final(self)@ == old(self)@.after_set_option(val),
    {
        if let Some(v) = val {
            self.set(v);
        }
    }

    pub fn is_modified(&self) -> (r: bool)
        ensures
            r == self@.modified,
    {
        self.modified
    }

    pub fn get_and_reset(&mut self) -> (r: Option<String>)
        ensures
            final(self)@ == old(self)@.after_read(),
            r is Some <==> old(self)@.pending() is Some,
            r matches Some(s) ==> s@ == old(self)@.pending()->0,
    {
        if self.modified {
            self.modified = false;
            match &self.value {
                Some(v) => Some(v.render()),
                None => None,
            }
        } else {
            None
        }
    }

    pub fn reset(&mut self)
        ensures
            final(self)@ == FieldState::<T>::cleared(),
    {
        self.value = None;
        self.modified = true;
    }
}

/// Setting a value that equals itself twice in a row changes nothing the
/// second time, also when the field was read out in between: an unchanged
/// value is not published again.
pub proof fn law_set_same_value_twice<T: TrackedValue>(f: FieldState<T>, v: T)
    requires
        v.same_as(&v),
    ensures
        f.after_set(v).after_set(v) == f.after_set(v),
        f.after_set(v).after_read().after_set(v) == f.after_set(v).after_read(),
        f.after_set(v).after_read().after_set(v).pending() is None,
{
}

/// Setting a value on a new field marks it modified, and reading it out
/// hands out the value's text.
pub proof fn law_new_field_publishes_first_value<T: TrackedValue>(v: T)
    ensures
        FieldState::<T>::empty().pending() is None,
        FieldState::<T>::empty().after_set(v).modified,
        FieldState::<T>::empty().after_set(v).pending() == Some(v.text()),
{
}

/// Reading a field out clears its modified flag: a second read hands out
/// nothing and changes nothing.
pub proof fn law_read_clears<T: TrackedValue>(f: FieldState<T>)
    ensures
        !f.after_read().modified,
        f.after_read().pending() is None,
        f.after_read().after_read() == f.after_read(),
        f.after_read().value == f.value,
{
}

/// A reset field counts as modified but holds no value, so reading it out
/// hands out nothing.
pub proof fn law_reset_publishes_nothing<T: TrackedValue>()
    ensures
        FieldState::<T>::cleared().modified,
        FieldState::<T>::cleared().pending() is None,
        FieldState::<T>::cleared().after_read() == FieldState::<T>::empty(),
{
}

/// Setting no value leaves a field as it is.
pub proof fn law_set_nothing_changes_nothing<T: TrackedValue>(f: FieldState<T>)
    ensures
        f.after_set_option(None) == f,
{
}

/// Readings are compared as binary64 numbers are: the two zeros are equal,
/// and a NaN equals nothing, not even itself.
pub proof fn law_reading_equality(a: Reading, b: Reading)
    ensures
        is_zero_bits(a.bits) && is_zero_bits(b.bits) ==> a.same_as(&b),
        is_nan_bits(a.bits) ==> !a.same_as(&b),
        !is_nan_bits(a.bits) ==> a.same_as(&a),
        a.same_as(&b) == b.same_as(&a),
{
    let x = a.bits;
    let y = b.bits;
    assert(x & 0x7fff_ffff_ffff_ffffu64 == 0 ==> (x >> 52u64) & 0x7ffu64 != 0x7ffu64) by (bit_vector);
    assert(y & 0x7fff_ffff_ffff_ffffu64 == 0 ==> (y >> 52u64) & 0x7ffu64 != 0x7ffu64) by (bit_vector);
}

/// One call on a `TrackedField`: `Assign` is `set`, `AssignOption` is
/// `set_option`, `Read` is `get_and_reset` and `Reset` is `reset`.
pub enum FieldOp<T> {
    Assign(T),
    AssignOption(Option<T>),
    Read,
    Reset,
}

impl<T: TrackedValue> FieldState<T> {
    /// The state after the call `op`.
    pub open spec fn after_op(self, op: FieldOp<T>) -> Self {
        match op {
            FieldOp::Assign(v) => self.after_set(v),
            FieldOp::AssignOption(o) => self.after_set_option(o),
            FieldOp::Read => self.after_read(),
            FieldOp::Reset => Self::cleared(),
        }
    }

    /// Whether the call `op` changes the value or resets: a `set` of a value
    /// that differs from the one held, or a `reset`.
    pub open spec fn changed_by(self, op: FieldOp<T>) -> bool {
        match op {
            FieldOp::Assign(v) => !self.holds_equal(v),
            FieldOp::AssignOption(o) => o matches Some(v) && !self.holds_equal(v),
            FieldOp::Read => false,
            FieldOp::Reset => true,
        }
    }
}

/// The state after the calls `ops`, in order, from `f`.
pub open spec fn run_ops<T: TrackedValue>(f: FieldState<T>, ops: Seq<FieldOp<T>>) -> FieldState<T>
    decreases ops.len(),
{
    if ops.len() == 0 {
        f
    } else {
        run_ops(f, ops.drop_last()).after_op(ops.last())
    }
}

/// Whether no call of `ops` from index `k` on is a read.
pub open spec fn no_read_from<T>(ops: Seq<FieldOp<T>>, k: int) -> bool {
    forall|m: int| k <= m < ops.len() ==> !(#[trigger] ops[m] is Read)
}

/// Whether, since the last read of `ops` (or since `f` when there is none),
/// a call changed the value or reset, or `f` was already modified and no
/// read followed.
pub open spec fn changed_since_read<T: TrackedValue>(f: FieldState<T>, ops: Seq<FieldOp<T>>) -> bool {
    ||| f.modified && no_read_from(ops, 0)
    ||| exists|k: int|
        0 <= k < ops.len() && #[trigger] run_ops(f, ops.take(k)).changed_by(ops[k]) && no_read_from(
            ops,
            k + 1,
        )
}

/// A field is modified exactly when, since the last `get_and_reset`, a call
/// changed its value or reset it (or it was modified before and not read
/// since). From a new field: `is_modified` is true exactly when a `set`
/// changed the value or a `reset` ran since construction or the last read.
pub proof fn law_modified_since_last_read<T: TrackedValue>(f: FieldState<T>, ops: Seq<FieldOp<T>>)
    ensures
        run_ops(f, ops).modified == changed_since_read(f, ops),
        run_ops(FieldState::<T>::empty(), ops).modified == changed_since_read(
            FieldState::<T>::empty(),
            ops,
        ),
{
    lemma_modified_since_last_read(f, ops);
    lemma_modified_since_last_read(FieldState::<T>::empty(), ops);
}

proof fn lemma_modified_since_last_read<T: TrackedValue>(f: FieldState<T>, ops: Seq<FieldOp<T>>)
    ensures
        run_ops(f, ops).modified == changed_since_read(f, ops),
    decreases ops.len(),
{
    if ops.len() == 0 {
        assert(no_read_from(ops, 0));
    } else {
        let n = ops.len() - 1;
        let p = ops.drop_last();
        let o = ops.last();
        let before = run_ops(f, p);
        lemma_modified_since_last_read(f, p);
        assert(ops.take(n) =~= p);
        assert forall|k: int| 0 <= k < n implies #[trigger] ops.take(k) == p.take(k) && ops[k]
            == p[k] by {
            assert(ops.take(k) =~= p.take(k));
        }
        if o is Read {
            assert(!no_read_from(ops, 0)) by {
                assert(ops[n] is Read);
            }
            assert forall|k: int| 0 <= k < ops.len() implies !(run_ops(f, ops.take(k)).changed_by(
                ops[k],
            ) && no_read_from(ops, k + 1)) by {
                if k < n {
                    assert(ops[n] is Read);
                }
            }
        } else {
            assert(no_read_from(ops, 0) == no_read_from(p, 0)) by {
                if no_read_from(p, 0) {
                    assert forall|m: int| 0 <= m < ops.len() implies !(#[trigger] ops[m] is Read) by {
                        if m < n {
                            assert(ops[m] == p[m]);
                        }
                    }
                }
                if no_read_from(ops, 0) {
                    assert forall|m: int| 0 <= m < p.len() implies !(#[trigger] p[m] is Read) by {
                        assert(ops[m] == p[m]);
                    }
                }
            }
            assert forall|j: int| 1 <= j <= n implies #[trigger] no_read_from(ops, j)
                == no_read_from(p, j) by {
                if no_read_from(p, j) {
                    assert forall|m: int| j <= m < ops.len() implies !(
                    #[trigger] ops[m] is Read) by {
                        if m < n {
                            assert(ops[m] == p[m]);
                        }
                    }
                }
                if no_read_from(ops, j) {
                    assert forall|m: int| j <= m < p.len() implies !(#[trigger] p[m] is Read) by {
                        assert(ops[m] == p[m]);
                    }
                }
            }
            assert(no_read_from(ops, n + 1));
            if before.changed_by(o) {
                assert(run_ops(f, ops.take(n)).changed_by(ops[n]));
            } else {
                assert(before.after_op(o) == before);
                if changed_since_read(f, ops) && !(f.modified && no_read_from(ops, 0)) {
                    let k = choose|k: int|
                        0 <= k < ops.len() && #[trigger] run_ops(f, ops.take(k)).changed_by(ops[k])
                            && no_read_from(ops, k + 1);
                    assert(k < n);
                    assert(run_ops(f, p.take(k)).changed_by(p[k]));
                }
                if changed_since_read(f, p) && !(f.modified && no_read_from(p, 0)) {
                    let k = choose|k: int|
                        0 <= k < p.len() && #[trigger] run_ops(f, p.take(k)).changed_by(p[k])
                            && no_read_from(p, k + 1);
                    assert(run_ops(f, ops.take(k)).changed_by(ops[k]));
                }
            }
        }
    }
}

/// Flags, counts, timestamps and texts are equal exactly when they are the
/// same value: a field that holds one and is set to a different one becomes
/// modified, holds the new value and hands out its text (`true` or `false`
/// for a flag).
pub proof fn law_plain_values_change_when_different(
    f: FieldState<bool>,
    a: bool,
    b: bool,
    x: u64,
    y: u64,
    p: i64,
    q: i64,
    s: String,
    t: String,
)
    ensures
        a.same_as(&b) <==> a == b,
        x.same_as(&y) <==> x == y,
        p.same_as(&q) <==> p == q,
        s.same_as(&t) <==> s@ == t@,
        b.text() == if b {
            "true"@
        } else {
            "false"@
        },
        f.value == Some(a) && a != b ==> f.after_set(b) == (FieldState { value: Some(b), modified: true }),
        f.value == Some(a) && a != b ==> f.after_set(b).pending() == Some(
            if b {
                "true"@
            } else {
                "false"@
            },
        ),
{
}

} // verus!
