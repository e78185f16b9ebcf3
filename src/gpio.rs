//! GPIO pin operations over packed register fields.
//!
//! Each pin owns one field of `width` bits in a bank of 32-bit registers that
//! starts at a base offset. An operation is planned here as a [`FieldWrite`]:
//! the register to update and the field within it. The caller reads that
//! register, merges the field in with [`FieldWrite::apply`], and writes the
//! word back, so every other field of the register keeps its value.
use vstd::prelude::*;
use vstd::arithmetic::div_mod::{lemma_div_is_ordered, lemma_fundamental_div_mod};

use crate::addr::{GPCLR0, GPFSEL0, GPPUPPDN0, GPSET0};

verus! {

/// State of a pin's pull resistor.
#[derive(Clone, Copy, Debug, PartialEq, Eq, Structural)]
pub enum GPIOPullState {
    PullNone,
    PullDown,
    PullUp,
}

impl GPIOPullState {
    /// The value of the pull-select field for this state.
    pub open spec fn spec_code(self) -> u32 {
        match self {
            GPIOPullState::PullNone => 0,
            GPIOPullState::PullDown => 1,
            GPIOPullState::PullUp => 2,
        }
    }

    pub fn code(&self) -> (r: u32)
        ensures
            r == self.spec_code(),
    {
        match self {
            GPIOPullState::PullNone => 0,
            GPIOPullState::PullDown => 1,
            GPIOPullState::PullUp => 2,
        }
    }
}

/// A pin function, as written to the function-select field.
#[derive(Clone, Copy, Debug, PartialEq, Eq, Structural)]
pub enum GPIOFunction {
    Out,
    Alt5,
    Alt3,
}

impl GPIOFunction {
    /// The value of the function-select field for this function.
    pub open spec fn spec_code(self) -> u32 {
        match self {
            GPIOFunction::Out => 1,
            GPIOFunction::Alt5 => 2,
            GPIOFunction::Alt3 => 7,
        }
    }

    pub fn code(&self) -> (r: u32)
        ensures
            r == self.spec_code(),
    {
        match self {
            GPIOFunction::Out => 1,
            GPIOFunction::Alt5 => 2,
            GPIOFunction::Alt3 => 7,
        }
    }
}

/// The highest pin number of the GPIO bank.
pub const GPIO_MAX_PIN: u32 = 53;

/// The mask of the low `width` bits.
pub open spec fn field_mask(width: u32) -> u32 {
    ((1u32 << width) - 1) as u32
}

/// The `width`-bit field of `word` that starts at bit `shift`.
pub open spec fn field_value(word: u32, shift: u32, width: u32) -> u32 {
    (word >> shift) & field_mask(width)
}

/// The bits of `word` outside the `width`-bit field at `shift`.
pub open spec fn outside_field(word: u32, shift: u32, width: u32) -> u32 {
    word & !(field_mask(width) << shift)
}

/// Field widths that the packing scheme handles.
pub open spec fn valid_width(width: u32) -> bool {
    0 < width < 32
}

/// How many fields of `width` bits one register holds.
pub open spec fn fields_per_register(width: u32) -> int {
    32int / (width as int)
}

/// Offset of the register that holds the field of `pin`.
pub open spec fn register_of(pin: u32, base: u32, width: u32) -> int {
    base + (pin as int / fields_per_register(width)) * 4
}

/// Lowest bit of the field of `pin` within its register.
pub open spec fn shift_of(pin: u32, width: u32) -> int {
    (pin as int % fields_per_register(width)) * (width as int)
}

/// Every register of the bank, up to the one of `max_pin`, has an offset
/// that fits in 32 bits.
pub open spec fn bank_fits(base: u32, width: u32, max_pin: u32) -> bool {
    register_of(max_pin, base, width) <= u32::MAX
}

/// An update of one field: the register at offset `reg` gets `value` in its
/// `width` bits from bit `shift` up.
#[derive(Clone, Copy, Debug, PartialEq, Eq, Structural)]
pub struct FieldWrite {
    pub reg: u32,
    pub shift: u32,
    pub width: u32,
    pub value: u32,
}

impl FieldWrite {
    /// The field lies inside the register and the value fits the field.
    pub open spec fn wf(self) -> bool {
        &&& valid_width(self.width)
        &&& self.shift + self.width <= 32
        &&& self.value <= field_mask(self.width)
    }

    /// The register word after this update of `cur`.
    pub open spec fn merged(self, cur: u32) -> u32 {
        outside_field(cur, self.shift, self.width) | (self.value << self.shift)
    }

    /// Merges the field into the register word `cur`: the field reads back as
    /// `value` and every other bit of `cur` is kept.
    pub fn apply(&self, cur: u32) -> (r: u32)
        requires
            self.wf(),
        ensures
            r == self.merged(cur),
            field_value(r, self.shift, self.width) == self.value,
            outside_field(r, self.shift, self.width) == outside_field(cur, self.shift, self.width),
    {
        let mask = mask_of(self.width);
        let r = (cur & !(mask << self.shift)) | (self.value << self.shift);
        proof {
            lemma_merge_fields(cur, self.value, self.shift, self.width, self.shift);
        }
        r
    }
}

/// The update that puts `val` in the field of `pin`.
pub open spec fn planned_write(pin: u32, val: u32, base: u32, width: u32) -> FieldWrite {
    FieldWrite {
        reg: register_of(pin, base, width) as u32,
        shift: shift_of(pin, width) as u32,
        width,
        value: val,
    }
}

/// Outcome of packing `val` into the field of `pin`: an error when the pin is
/// past `max_pin` or the value does not fit in `width` bits.
pub open spec fn pack(pin: u32, val: u32, base: u32, width: u32, max_pin: u32) -> Result<FieldWrite, ()> {
    if pin > max_pin || val > field_mask(width) {
        Err(())
    } else {
        Ok(planned_write(pin, val, base, width))
    }
}

fn mask_of(width: u32) -> (r: u32)
    requires
        valid_width(width),
    ensures
        r == field_mask(width),
{
    assert(1u32 << width >= 1) by (bit_vector)
        requires width < 32;
    (1u32 << width) - 1
}

/// The field of one pin lies inside its register, and fields of distinct
/// pins of one register do not overlap.
proof fn lemma_shift_bounds(pin: u32, width: u32)
    requires
        valid_width(width),
    ensures
        fields_per_register(width) >= 1,
        fields_per_register(width) * width <= 32,
        0 <= shift_of(pin, width),
        shift_of(pin, width) + width <= 32,
{
    let n = fields_per_register(width);
    let w = width as int;
    lemma_fundamental_div_mod(32int, w);
    assert(n >= 1) by (nonlinear_arith)
        requires n == 32int / w, 0 < w < 32;
    let k = pin as int % n;
    assert(0 <= k < n);
    assert(k * w + w <= n * w) by (nonlinear_arith)
        requires k < n, w > 0;
    assert(0 <= k * w) by (nonlinear_arith)
        requires k >= 0, w > 0;
}

/// Two pins that share a register have fields that do not overlap.
proof fn lemma_fields_disjoint(p: u32, q: u32, base: u32, width: u32)
    requires
        valid_width(width),
        p != q,
        register_of(p, base, width) == register_of(q, base, width),
    ensures
        shift_of(p, width) + width <= shift_of(q, width) || shift_of(q, width) + width <= shift_of(p, width),
{
    let n = fields_per_register(width);
    let w = width as int;
    lemma_shift_bounds(p, width);
    lemma_fundamental_div_mod(p as int, n);
    lemma_fundamental_div_mod(q as int, n);
    let a = p as int % n;
    let b = q as int % n;
    assert(p as int / n == q as int / n);
    assert(a != b);
    if a < b {
        assert(a * w + w <= b * w) by (nonlinear_arith)
            requires a + 1 <= b, w > 0;
    } else {
        assert(b * w + w <= a * w) by (nonlinear_arith)
            requires b + 1 <= a, w > 0;
    }
}

/// Merging a field sets that field and keeps every bit outside it, so any
/// field that does not overlap it reads as before.
proof fn lemma_merge_fields(cur: u32, v: u32, s: u32, w: u32, s2: u32)
    by (bit_vector)
    requires
        valid_width(w),
        s + w <= 32,
        v <= field_mask(w),
    ensures
        field_value((cur & !(field_mask(w) << s)) | (v << s), s, w) == v,
        outside_field((cur & !(field_mask(w) << s)) | (v << s), s, w) == outside_field(cur, s, w),
        s2 + w <= 32 && (s2 + w <= s || s + w <= s2) ==> field_value(
            (cur & !(field_mask(w) << s)) | (v << s),
            s2,
            w,
        ) == field_value(cur, s2, w),
{
}

/// Plans writing `val` into the `field_size`-bit field of `pin_number` in
/// the register bank at `base`. Fails, planning no write at all, when the pin
/// is past `field_max` or the value does not fit the field.
pub fn gpio_call(pin_number: u32, val: u32, base: u32, field_size: u32, field_max: u32) -> (r: Result<FieldWrite, ()>)
    requires
        valid_width(field_size),
        bank_fits(base, field_size, field_max),
    ensures
        r == pack(pin_number, val, base, field_size, field_max),
        r is Err <==> (pin_number > field_max || val > field_mask(field_size)),
        r matches Ok(w) ==> w.wf(),
{
    let field_mask = mask_of(field_size);
    if pin_number > field_max {
        return Err(());
    }
    if val > field_mask {
        return Err(());
    }
    let num_fields = 32 / field_size;
    proof {
        lemma_shift_bounds(pin_number, field_size);
        lemma_div_is_ordered(pin_number as int, field_max as int, num_fields as int);
    }
    let reg = base + (pin_number / num_fields) * 4;
    let shift = (pin_number % num_fields) * field_size;
    Ok(FieldWrite { reg, shift, width: field_size, value: val })
}

/// Plans setting the output of `pin_number` (one bit per pin).
pub fn gpio_set(pin_number: u32, value: u32) -> (r: Result<FieldWrite, ()>)
    ensures
        r == pack(pin_number, value, GPSET0, 1, GPIO_MAX_PIN),
        r is Ok <==> pin_number <= GPIO_MAX_PIN && value <= 1,
{
    assert(field_mask(1) == 1) by (bit_vector);
    gpio_call(pin_number, value, GPSET0, 1, GPIO_MAX_PIN)
}

/// Plans clearing the output of `pin_number` (one bit per pin).
pub fn gpio_clear(pin_number: u32, value: u32) -> (r: Result<FieldWrite, ()>)
    ensures
        r == pack(pin_number, value, GPCLR0, 1, GPIO_MAX_PIN),
        r is Ok <==> pin_number <= GPIO_MAX_PIN && value <= 1,
{
    assert(field_mask(1) == 1) by (bit_vector);
    gpio_call(pin_number, value, GPCLR0, 1, GPIO_MAX_PIN)
}

/// Plans selecting the pull resistor of `pin_number` (two bits per pin).
pub fn gpio_pull(pin_number: u32, value: u32) -> (r: Result<FieldWrite, ()>)
    ensures
        r == pack(pin_number, value, GPPUPPDN0, 2, GPIO_MAX_PIN),
        r is Ok <==> pin_number <= GPIO_MAX_PIN && value <= 3,
{
    assert(field_mask(2) == 3) by (bit_vector);
    gpio_call(pin_number, value, GPPUPPDN0, 2, GPIO_MAX_PIN)
}

/// Plans selecting the function of `pin_number` (three bits per pin).
pub fn gpio_function(pin_number: u32, value: u32) -> (r: Result<FieldWrite, ()>)
    ensures
        r == pack(pin_number, value, GPFSEL0, 3, GPIO_MAX_PIN),
        r is Ok <==> pin_number <= GPIO_MAX_PIN && value <= 7,
{
    assert(field_mask(3) == 7) by (bit_vector);
    gpio_call(pin_number, value, GPFSEL0, 3, GPIO_MAX_PIN)
}

/// Plans switching `pin_number` to alternate function `func`: first its pull
/// resistor to none, then its function-select field.
fn use_as_alt(pin_number: u32, func: GPIOFunction) -> (r: (FieldWrite, FieldWrite))
    requires
        pin_number <= GPIO_MAX_PIN,
    ensures
        r.0 == planned_write(pin_number, GPIOPullState::PullNone.spec_code(), GPPUPPDN0, 2),
        r.1 == planned_write(pin_number, func.spec_code(), GPFSEL0, 3),
        r.0.wf(),
        r.1.wf(),
{
    let none = GPIOPullState::PullNone;
    let pull = match gpio_pull(pin_number, none.code()) {
        Ok(w) => w,
        Err(_) => vstd::pervasive::unreached(),
    };
    let select = match gpio_function(pin_number, func.code()) {
        Ok(w) => w,
        Err(_) => vstd::pervasive::unreached(),
    };
    (pull, select)
}

/// Plans using `pin_number` as alternate function 3.
pub fn gpio_use_as_alt3(pin_number: u32) -> (r: (FieldWrite, FieldWrite))
    requires
        pin_number <= GPIO_MAX_PIN,
    ensures
        r.0 == planned_write(pin_number, 0, GPPUPPDN0, 2),
        r.1 == planned_write(pin_number, 7, GPFSEL0, 3),
        r.0.wf(),
        r.1.wf(),
{
    use_as_alt(pin_number, GPIOFunction::Alt3)
}

/// Plans using `pin_number` as alternate function 5.
pub fn gpio_use_as_alt5(pin_number: u32) -> (r: (FieldWrite, FieldWrite))
    requires
        pin_number <= GPIO_MAX_PIN,
    ensures
        r.0 == planned_write(pin_number, 0, GPPUPPDN0, 2),
        r.1 == planned_write(pin_number, 2, GPFSEL0, 3),
        r.0.wf(),
        r.1.wf(),
{
    use_as_alt(pin_number, GPIOFunction::Alt5)
}

/// Packing a valid pin and value succeeds; the planned write, applied to any
/// register word, makes the pin's field read back as the value and leaves the
/// field of every other pin of that register, and every other bit, unchanged.
pub proof fn lemma_pack_round_trip(pin: u32, val: u32, base: u32, width: u32, cur: u32)
    requires
        valid_width(width),
        bank_fits(base, width, GPIO_MAX_PIN),
        pin <= GPIO_MAX_PIN,
        val <= field_mask(width),
    ensures
        pack(pin, val, base, width, GPIO_MAX_PIN) == Ok::<FieldWrite, ()>(planned_write(pin, val, base, width)),
        planned_write(pin, val, base, width).wf(),
        field_value(planned_write(pin, val, base, width).merged(cur), shift_of(pin, width) as u32, width) == val,
        outside_field(planned_write(pin, val, base, width).merged(cur), shift_of(pin, width) as u32, width)
            == outside_field(cur, shift_of(pin, width) as u32, width),
        forall|q: u32| q != pin && #[trigger] register_of(q, base, width) == register_of(pin, base, width)
            ==> field_value(planned_write(pin, val, base, width).merged(cur), shift_of(q, width) as u32, width)
                == field_value(cur, shift_of(q, width) as u32, width),
{
    lemma_shift_bounds(pin, width);
    let s = shift_of(pin, width) as u32;
    lemma_merge_fields(cur, val, s, width, s);
    assert forall|q: u32| q != pin && #[trigger] register_of(q, base, width) == register_of(pin, base, width)
        implies field_value(planned_write(pin, val, base, width).merged(cur), shift_of(q, width) as u32, width)
            == field_value(cur, shift_of(q, width) as u32, width) by {
        lemma_shift_bounds(q, width);
        lemma_fields_disjoint(pin, q, base, width);
        lemma_merge_fields(cur, val, s, width, shift_of(q, width) as u32);
    }
}

/// Packing fails, and plans no write, when the pin is past the last GPIO pin
/// or the value does not fit the field.
pub proof fn lemma_pack_rejects(pin: u32, val: u32, base: u32, width: u32)
    requires
        pin > GPIO_MAX_PIN || val > field_mask(width),
    ensures
        pack(pin, val, base, width, GPIO_MAX_PIN) is Err,
{
}

} // verus!
