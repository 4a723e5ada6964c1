//! Bit and field arithmetic on 8-bit registers.
//!
//! Every register of the device is one byte wide. A pin owns one bit of each
//! of its port's registers, and a timer setting owns a field of a few
//! adjacent bits. The functions here are the only place where the library
//! shifts and masks; everything above them speaks of bits and fields.

use vstd::prelude::*;

verus! {

/// The byte in which bit `i` alone is set.
pub open spec fn mask(i: u8) -> u8 {
    1u8 << i
}

/// Whether bit `i` of `reg` is set.
pub open spec fn has_bit(reg: u8, i: u8) -> bool {
    reg & mask(i) != 0
}

/// `reg` with bit `i` set.
pub open spec fn with_bit(reg: u8, i: u8) -> u8 {
    reg | mask(i)
}

/// `reg` with bit `i` cleared.
pub open spec fn without_bit(reg: u8, i: u8) -> u8 {
    reg & !mask(i)
}

/// `reg` with bit `i` inverted.
pub open spec fn with_bit_flipped(reg: u8, i: u8) -> u8 {
    reg ^ mask(i)
}

/// The bits of `reg` that a field of the given mask and offset covers.
pub open spec fn field_bits(field_mask: u8, offset: u8) -> u8 {
    field_mask << offset
}

/// `reg` with the field replaced by `value`. Bits of `value` outside the
/// mask are dropped, as the register map's field writers drop them.
pub open spec fn with_field(reg: u8, field_mask: u8, offset: u8, value: u8) -> u8 {
    (reg & !(field_mask << offset)) | ((value & field_mask) << offset)
}

/// The value that the field holds in `reg`.
pub open spec fn field_value(reg: u8, field_mask: u8, offset: u8) -> u8 {
    (reg >> offset) & field_mask
}

/// `current` with the bits in which `after` differs from `before` taken
/// from `after`, and every other bit left as `current` has it.
pub open spec fn with_changes(current: u8, before: u8, after: u8) -> u8 {
    (current & !(before ^ after)) | (after & (before ^ after))
}

/// A field lies inside the byte: shifting its mask into place loses nothing.
pub open spec fn field_fits(field_mask: u8, offset: u8) -> bool {
    offset < 8 && (field_mask << offset) >> offset == field_mask
}

/// Tests bit `i` of `reg`.
pub fn test_bit(reg: u8, i: u8) -> (r: bool)
    requires
        i < 8,
    ensures
        r == has_bit(reg, i),
{
    reg & (1u8 << i) != 0
}

/// Sets bit `i` of `reg`.
pub fn set_bit(reg: u8, i: u8) -> (r: u8)
    requires
        i < 8,
    ensures
        r == with_bit(reg, i),
{
    reg | (1u8 << i)
}

/// Clears bit `i` of `reg`.
pub fn clear_bit(reg: u8, i: u8) -> (r: u8)
    requires
        i < 8,
    ensures
        r == without_bit(reg, i),
{
    reg & !(1u8 << i)
}

/// Inverts bit `i` of `reg`.
pub fn flip_bit(reg: u8, i: u8) -> (r: u8)
    requires
        i < 8,
    ensures
        r == with_bit_flipped(reg, i),
{
    reg ^ (1u8 << i)
}

/// Writes `value` into a field of `reg`.
pub fn write_field(reg: u8, field_mask: u8, offset: u8, value: u8) -> (r: u8)
    requires
        offset < 8,
    ensures
        r == with_field(reg, field_mask, offset, value),
{
    (reg & !(field_mask << offset)) | ((value & field_mask) << offset)
}

/// Carries a change over to a register that may have moved on: the bits in
/// which `after` differs from `before` are written into `current`.
pub fn apply_changes(current: u8, before: u8, after: u8) -> (r: u8)
    ensures
        r == with_changes(current, before, after),
{
    let changed = before ^ after;
    (current & !changed) | (after & changed)
}

/// Setting bit `i` sets that bit and leaves every other bit as it was.
pub proof fn lemma_with_bit(reg: u8, i: u8, j: u8)
    by (bit_vector)
    requires
        i < 8,
        j < 8,
    ensures
        has_bit(with_bit(reg, i), j) == (i == j || has_bit(reg, j)),
{
}

/// Clearing bit `i` clears that bit and leaves every other bit as it was.
pub proof fn lemma_without_bit(reg: u8, i: u8, j: u8)
    by (bit_vector)
    requires
        i < 8,
        j < 8,
    ensures
        has_bit(without_bit(reg, i), j) == (i != j && has_bit(reg, j)),
{
}

/// Inverting bit `i` inverts that bit and leaves every other bit as it was.
pub proof fn lemma_with_bit_flipped(reg: u8, i: u8, j: u8)
    by (bit_vector)
    requires
        i < 8,
        j < 8,
    ensures
        has_bit(with_bit_flipped(reg, i), j) == (if i == j {
            !has_bit(reg, j)
        } else {
            has_bit(reg, j)
        }),
{
}

/// Of two writes to one bit the later one decides: what the earlier one
/// wrote leaves no trace.
pub proof fn lemma_last_bit_write_wins(reg: u8, i: u8)
    by (bit_vector)
    requires
        i < 8,
    ensures
        without_bit(with_bit(reg, i), i) == without_bit(reg, i),
        with_bit(without_bit(reg, i), i) == with_bit(reg, i),
        with_bit(with_bit(reg, i), i) == with_bit(reg, i),
        without_bit(without_bit(reg, i), i) == without_bit(reg, i),
{
}

/// Setting a bit that is set, or clearing one that is clear, changes nothing.
pub proof fn lemma_bit_already_there(reg: u8, i: u8)
    by (bit_vector)
    requires
        i < 8,
    ensures
        has_bit(reg, i) ==> with_bit(reg, i) == reg,
        !has_bit(reg, i) ==> without_bit(reg, i) == reg,
{
}

/// Inverting a bit twice restores the byte.
pub proof fn lemma_with_bit_flipped_twice(reg: u8, i: u8)
    by (bit_vector)
    requires
        i < 8,
    ensures
        with_bit_flipped(with_bit_flipped(reg, i), i) == reg,
{
}

/// Carrying a change over writes the bits that changed and no others; on
/// a register that has not moved on it gives what the change gave.
pub proof fn lemma_with_changes(current: u8, before: u8, after: u8, j: u8)
    by (bit_vector)
    requires
        j < 8,
    ensures
        has_bit(with_changes(current, before, after), j) == (if has_bit(before, j) != has_bit(
            after,
            j,
        ) {
            has_bit(after, j)
        } else {
            has_bit(current, j)
        }),
        with_changes(before, before, after) == after,
        with_changes(current, before, before) == current,
{
}

/// No bit of the zero byte is set.
pub proof fn lemma_zero_has_no_bit(i: u8)
    by (bit_vector)
    requires
        i < 8,
    ensures
        !has_bit(0, i),
{
}

/// A field that was written reads back as the value written, cut to the
/// field's width.
pub proof fn lemma_field_reads_back(reg: u8, field_mask: u8, offset: u8, value: u8)
    by (bit_vector)
    requires
        field_fits(field_mask, offset),
    ensures
        field_value(with_field(reg, field_mask, offset, value), field_mask, offset) == value
            & field_mask,
{
}

/// Of two writes to one field the later one decides.
pub proof fn lemma_field_overwritten(reg: u8, field_mask: u8, offset: u8, first: u8, second: u8)
    by (bit_vector)
    requires
        offset < 8,
    ensures
        with_field(with_field(reg, field_mask, offset, first), field_mask, offset, second)
            == with_field(reg, field_mask, offset, second),
{
}

/// Setting a bit outside a field leaves the field as it was.
pub proof fn lemma_bit_keeps_field(reg: u8, i: u8, field_mask: u8, offset: u8)
    by (bit_vector)
    requires
        i < 8,
        field_fits(field_mask, offset),
        !has_bit(field_bits(field_mask, offset), i),
    ensures
        field_value(with_bit(reg, i), field_mask, offset) == field_value(reg, field_mask, offset),
{
}

/// Writing a field leaves every field that shares no bit with it as it was.
pub proof fn lemma_field_keeps_other_fields(
    reg: u8,
    field_mask: u8,
    offset: u8,
    value: u8,
    other_mask: u8,
    other_offset: u8,
)
    by (bit_vector)
    requires
        field_fits(field_mask, offset),
        field_fits(other_mask, other_offset),
        field_bits(field_mask, offset) & field_bits(other_mask, other_offset) == 0,
    ensures
        field_value(
            with_field(reg, field_mask, offset, value),
            other_mask,
            other_offset,
        ) == field_value(reg, other_mask, other_offset),
{
}

} // verus!
