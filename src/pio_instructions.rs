//! Programmatic encoding of state-machine instructions.
//!
//! Every encoder returns a word whose delay / side-set field (bits 12..8) is
//! zero; [`pio_encode_delay`], [`pio_encode_sideset`] and
//! [`pio_encode_sideset_opt`] produce those bits separately, to be OR-ed in.
use vstd::prelude::*;

verus! {

/// Opcode class of an instruction, as placed in the top bits of the word.
#[allow(non_camel_case_types)]
#[derive(Clone, Copy, Debug)]
pub enum pio_instr_bits {
    pio_instr_bits_jmp,
    pio_instr_bits_wait,
    pio_instr_bits_in,
    pio_instr_bits_out,
    pio_instr_bits_push,
    pio_instr_bits_pull,
    pio_instr_bits_mov,
    pio_instr_bits_irq,
    pio_instr_bits_set,
}

impl pio_instr_bits {
    /// The hardware-defined bits of the opcode class.
    pub open spec fn tag(self) -> u32 {
        match self {
            pio_instr_bits::pio_instr_bits_jmp => 0x0000,
            pio_instr_bits::pio_instr_bits_wait => 0x2000,
            pio_instr_bits::pio_instr_bits_in => 0x4000,
            pio_instr_bits::pio_instr_bits_out => 0x6000,
            pio_instr_bits::pio_instr_bits_push => 0x8000,
            pio_instr_bits::pio_instr_bits_pull => 0x8080,
            pio_instr_bits::pio_instr_bits_mov => 0xa000,
            pio_instr_bits::pio_instr_bits_irq => 0xc000,
            pio_instr_bits::pio_instr_bits_set => 0xe000,
        }
    }

    /// The class's bits as an integer.
    pub fn bits(&self) -> (r: u32)
        ensures
            r == self.tag(),
    {
        match self {
            pio_instr_bits::pio_instr_bits_jmp => 0x0000,
            pio_instr_bits::pio_instr_bits_wait => 0x2000,
            pio_instr_bits::pio_instr_bits_in => 0x4000,
            pio_instr_bits::pio_instr_bits_out => 0x6000,
            pio_instr_bits::pio_instr_bits_push => 0x8000,
            pio_instr_bits::pio_instr_bits_pull => 0x8080,
            pio_instr_bits::pio_instr_bits_mov => 0xa000,
            pio_instr_bits::pio_instr_bits_irq => 0xc000,
            pio_instr_bits::pio_instr_bits_set => 0xe000,
        }
    }
}

/// The word made of class bits `tag`, the low three bits of selector `sel`
/// in bits 7..5 and the low five bits of `arg` in bits 4..0.
pub open spec fn instr_word(tag: u32, sel: u32, arg: u32) -> u32 {
    tag | ((sel & 7u32) << 5u32) | (arg & 0x1f)
}

/// The major opcode bits (15..13) of an instruction word.
pub open spec fn major_bits(instr: u32) -> u32 {
    instr & 0xe000
}

/// Extracts the major opcode bits (15..13) of `instr`.
pub fn _pio_major_instr_bits(instr: u32) -> (r: u32)
    ensures
        r == major_bits(instr),
{
    instr & 0xe000
}

/// Packs class, selector and argument into an instruction word, without
/// checking either range: each is masked to its field's width (three bits
/// for the selector, five for the argument), so neither reaches another
/// field.
pub fn _pio_encode_instr_and_args(instr_bits: pio_instr_bits, arg1: u32, arg2: u32) -> (r: u32)
    ensures
        r == instr_word(instr_bits.tag(), arg1, arg2),
{
    instr_bits.bits() | ((arg1 & 7u32) << 5u32) | (arg2 & 0x1f)
}

/// A source or destination operand of IN, OUT, SET and MOV.
///
/// Not every operand suits every instruction: [`pio_src_dest::forbids`] is the
/// table of the uses each one may not be put to.
#[allow(non_camel_case_types)]
#[derive(Clone, Copy, Debug, PartialEq, Eq, Structural)]
pub enum pio_src_dest {
    pio_pins,
    pio_x,
    pio_y,
    pio_null,
    pio_pindirs,
    pio_exec_mov,
    pio_status,
    pio_pc,
    pio_isr,
    pio_osr,
    pio_exec_out,
}

/// The ways in which an instruction can use an operand.
#[derive(Clone, Copy, Debug, PartialEq, Eq, Structural)]
pub enum OperandRole {
    InSrc,
    OutDest,
    SetDest,
    MovSrc,
    MovDest,
}

impl pio_src_dest {
    /// The operand's 3-bit selector.
    pub open spec fn spec_selector(self) -> u32 {
        match self {
            pio_src_dest::pio_pins => 0,
            pio_src_dest::pio_x => 1,
            pio_src_dest::pio_y => 2,
            pio_src_dest::pio_null => 3,
            pio_src_dest::pio_pindirs => 4,
            pio_src_dest::pio_exec_mov => 4,
            pio_src_dest::pio_status => 5,
            pio_src_dest::pio_pc => 5,
            pio_src_dest::pio_isr => 6,
            pio_src_dest::pio_osr => 7,
            pio_src_dest::pio_exec_out => 7,
        }
    }

    /// Whether the operand may not be used in `role`.
    pub open spec fn forbids(self, role: OperandRole) -> bool {
        match self {
            pio_src_dest::pio_pins => false,
            pio_src_dest::pio_x => false,
            pio_src_dest::pio_y => false,
            pio_src_dest::pio_null => role is SetDest || role is MovDest,
            pio_src_dest::pio_pindirs => role is InSrc || role is MovSrc || role is MovDest,
            pio_src_dest::pio_exec_mov => !(role is MovDest),
            pio_src_dest::pio_status => !(role is MovSrc),
            pio_src_dest::pio_pc => role is InSrc || role is SetDest || role is MovSrc,
            pio_src_dest::pio_isr => role is SetDest,
            pio_src_dest::pio_osr => role is OutDest || role is SetDest,
            pio_src_dest::pio_exec_out => !(role is OutDest),
        }
    }

    /// The bare 3-bit selector, as packed into an instruction word.
    pub fn selector(&self) -> (r: u32)
        ensures
            r == self.spec_selector(),
            r <= 7,
    {
        match self {
            pio_src_dest::pio_pins => 0,
            pio_src_dest::pio_x => 1,
            pio_src_dest::pio_y => 2,
            pio_src_dest::pio_null => 3,
            pio_src_dest::pio_pindirs => 4,
            pio_src_dest::pio_exec_mov => 4,
            pio_src_dest::pio_status => 5,
            pio_src_dest::pio_pc => 5,
            pio_src_dest::pio_isr => 6,
            pio_src_dest::pio_osr => 7,
            pio_src_dest::pio_exec_out => 7,
        }
    }

    /// Whether the operand may be used in `role`.
    pub fn is_valid_for(&self, role: OperandRole) -> (r: bool)
        ensures
            r == !self.forbids(role),
    {
        match self {
            pio_src_dest::pio_pins => true,
            pio_src_dest::pio_x => true,
            pio_src_dest::pio_y => true,
            pio_src_dest::pio_null => !matches!(role, OperandRole::SetDest | OperandRole::MovDest),
            pio_src_dest::pio_pindirs => !matches!(
                role,
                OperandRole::InSrc | OperandRole::MovSrc | OperandRole::MovDest
            ),
            pio_src_dest::pio_exec_mov => matches!(role, OperandRole::MovDest),
            pio_src_dest::pio_status => matches!(role, OperandRole::MovSrc),
            pio_src_dest::pio_pc => !matches!(
                role,
                OperandRole::InSrc | OperandRole::SetDest | OperandRole::MovSrc
            ),
            pio_src_dest::pio_isr => !matches!(role, OperandRole::SetDest),
            pio_src_dest::pio_osr => !matches!(role, OperandRole::OutDest | OperandRole::SetDest),
            pio_src_dest::pio_exec_out => matches!(role, OperandRole::OutDest),
        }
    }
}

/// Why a checked encoder refused its parameters.
#[derive(Clone, Copy, Debug, PartialEq, Eq, Structural)]
pub enum PioParamError {
    /// The selector does not fit in three bits.
    SelectorOutOfRange,
    /// The argument is outside 1..=32 for IN / OUT, or above 31 otherwise.
    ArgumentOutOfRange,
    /// The IRQ number is above 7.
    IrqOutOfRange,
    /// The operand may not be used in this position of this instruction.
    IllegalOperand,
    /// The delay is above 31 cycles.
    DelayOutOfRange,
    /// The side-set bit count is outside the range of the side-set mode.
    SideSetCountOutOfRange,
    /// The side-set value does not fit in the side-set bit count.
    SideSetValueOutOfRange,
}

/// Whether `arg` is a legal argument for class `instr_bits`: a bit count
/// 1..=32 for IN and OUT (32 is packed as 0), at most 31 for the rest.
pub open spec fn arg_in_range(instr_bits: pio_instr_bits, arg: u32) -> bool {
    if instr_bits is pio_instr_bits_in || instr_bits is pio_instr_bits_out {
        1 <= arg <= 32
    } else {
        arg <= 31
    }
}

/// What the checked packer returns for class, selector and argument.
pub open spec fn checked_word(instr_bits: pio_instr_bits, sel: u32, arg: u32) -> Result<
    u32,
    PioParamError,
> {
    if sel > 7 {
        Err(PioParamError::SelectorOutOfRange)
    } else if !arg_in_range(instr_bits, arg) {
        Err(PioParamError::ArgumentOutOfRange)
    } else {
        Ok(instr_word(instr_bits.tag(), sel, arg))
    }
}

/// The class bits stay out of the delay / side-set and argument fields; only
/// PULL has a bit (bit 7) inside the selector field, which tells it from PUSH.
pub proof fn lemma_tag_layout(instr_bits: pio_instr_bits)
    ensures
        instr_bits.tag() & 0x1f1f == 0,
        (instr_bits.tag() >> 5u32) & 7 == (if instr_bits is pio_instr_bits_pull {
            4u32
        } else {
            0u32
        }),
{
    let t = instr_bits.tag();
    assert(t & 0x1f1f == 0 && (t == 0x8080 ==> (t >> 5u32) & 7 == 4) && (t != 0x8080 ==> (t
        >> 5u32) & 7 == 0)) by (bit_vector)
        requires
            t == 0 || t == 0x2000 || t == 0x4000 || t == 0x6000 || t == 0x8000 || t == 0x8080
                || t == 0xa000 || t == 0xc000 || t == 0xe000,
    ;
}

/// How a packed word reads back: the opcode bits are those of the class,
/// whatever the selector and argument; the delay / side-set field is clear;
/// the selector field holds the selector's low three bits (beside PULL's own
/// bit); the argument field holds the argument's low five bits.
pub proof fn lemma_instr_word_fields(instr_bits: pio_instr_bits, sel: u32, arg: u32)
    ensures
        major_bits(instr_word(instr_bits.tag(), sel, arg)) == major_bits(instr_bits.tag()),
        (instr_word(instr_bits.tag(), sel, arg) >> 8u32) & 0x1f == 0,
        (instr_word(instr_bits.tag(), sel, arg) >> 5u32) & 7 == (sel & 7) | ((instr_bits.tag()
            >> 5u32) & 7),
        instr_word(instr_bits.tag(), sel, arg) & 0x1f == arg & 0x1f,
{
    lemma_tag_layout(instr_bits);
    let t = instr_bits.tag();
    assert(((t | ((sel & 7u32) << 5u32) | (arg & 0x1f)) & 0xe000 == t & 0xe000) && (((t | ((sel
        & 7u32) << 5u32) | (arg & 0x1f)) >> 8u32) & 0x1f == 0) && (((t | ((sel & 7u32) << 5u32)
        | (arg & 0x1f)) >> 5u32) & 7 == (sel & 7) | ((t >> 5u32) & 7)) && ((t | ((sel & 7u32)
        << 5u32) | (arg & 0x1f)) & 0x1f == arg & 0x1f)) by (bit_vector)
        requires
            t & 0x1f1f == 0,
    ;
}

/// Packs class, selector and argument into an instruction word, refusing a
/// selector above 7 and an argument out of range for the class.
pub fn _pio_encode_instr_and_args_checked(instr_bits: pio_instr_bits, arg1: u32, arg2: u32) -> (r:
    Result<u32, PioParamError>)
    ensures
        r == checked_word(instr_bits, arg1, arg2),
{
    if arg1 > 7 {
        return Err(PioParamError::SelectorOutOfRange);
    }
    let in_range = match instr_bits {
        pio_instr_bits::pio_instr_bits_in | pio_instr_bits::pio_instr_bits_out => 1 <= arg2
            && arg2 <= 32,
        _ => arg2 <= 31,
    };
    if !in_range {
        return Err(PioParamError::ArgumentOutOfRange);
    }
    Ok(_pio_encode_instr_and_args(instr_bits, arg1, arg2))
}

/// Packs class, the selector of `dest` and `value` into an instruction word.
pub fn _pio_encode_instr_and_src_dest(
    instr_bits: pio_instr_bits,
    dest: pio_src_dest,
    value: u32,
) -> (r: u32)
    ensures
        r == instr_word(instr_bits.tag(), dest.spec_selector(), value),
{
    _pio_encode_instr_and_args(instr_bits, dest.selector(), value)
}

/// The IRQ field: the number, with bit 4 set for an index relative to the
/// executing state machine.
pub open spec fn irq_field(relative: bool, irq: u32) -> u32 {
    if relative {
        0x10 | irq
    } else {
        irq
    }
}

/// Encodes an IRQ number and its relative flag for the argument field.
pub fn _pio_encode_irq(relative: bool, irq: u32) -> (r: u32)
    ensures
        r == irq_field(relative, irq),
{
    if relative {
        0x10 | irq
    } else {
        irq
    }
}

/// Encodes a delay of `cycles` for the delay / side-set field, to be OR-ed
/// with an instruction word. The range is not checked: a value above 31
/// reaches the opcode bits (32 gives `0x2000`), and bits shifted past bit 31
/// are lost. [`pio_encode_delay_checked`] refuses such a value.
///
/// The field is shared with side-set: with side-set in use fewer delay bits
/// remain, which this function does not check.
pub fn pio_encode_delay(cycles: u32) -> (r: u32)
    ensures
        r == cycles << 8u32,
        cycles <= 31 ==> (r >> 8u32) & 0x1f == cycles,
        cycles <= 31 ==> r & !0x1f00u32 == 0,
{
    proof {
        assert(cycles <= 31 ==> ((cycles << 8u32) >> 8u32) & 0x1f == cycles && (cycles << 8u32)
            & !0x1f00u32 == 0) by (bit_vector);
    }
    cycles << 8u32
}

/// [`pio_encode_delay`], refusing a delay above 31 cycles.
pub fn pio_encode_delay_checked(cycles: u32) -> (r: Result<u32, PioParamError>)
    ensures
        r == if cycles <= 31 {
            Ok(cycles << 8u32)
        } else {
            Err(PioParamError::DelayOutOfRange)
        },
{
    if cycles > 31 {
        return Err(PioParamError::DelayOutOfRange);
    }
    Ok(pio_encode_delay(cycles))
}

/// Side-set bits of `value` in non-optional mode with `sideset_bit_count`
/// bits: the value sits at the top of the delay / side-set field.
pub open spec fn sideset_bits(sideset_bit_count: u32, value: u32) -> u32 {
    value << (13 - sideset_bit_count) as u32
}

/// Side-set bits of `value` in optional mode with `sideset_bit_count` bits:
/// bit 12 marks the side-set as present, the value sits just below it.
pub open spec fn sideset_opt_bits(sideset_bit_count: u32, value: u32) -> u32 {
    0x1000 | (value << (12 - sideset_bit_count) as u32)
}

/// Bit 12, which optional mode uses to mark a side-set as present, is always
/// set by the optional encoding; the non-optional encoding sets it exactly
/// when the value's top bit is set, that is when the value is at least half
/// of `2^sideset_bit_count`.
pub proof fn lemma_sideset_bit12(sideset_bit_count: u32, value: u32)
    requires
        1 <= sideset_bit_count <= 5,
        value < (1u32 << sideset_bit_count),
    ensures
        sideset_opt_bits(sideset_bit_count, value) & 0x1000 == 0x1000,
        sideset_bits(sideset_bit_count, value) & 0x1000 == 0 <==> value < (1u32 << (
        sideset_bit_count - 1) as u32),
{
    let n = sideset_bit_count;
    let shift = (13 - n) as u32;
    let shift_opt = (12 - n) as u32;
    let half = (n - 1) as u32;
    assert((0x1000u32 | (value << shift_opt)) & 0x1000 == 0x1000) by (bit_vector);
    assert((value << shift) & 0x1000 == 0 <==> value < (1u32 << half)) by (bit_vector)
        requires
            1 <= n <= 5,
            value < (1u32 << n),
            shift == 13 - n,
            half == n - 1,
    ;
}

/// Encodes side-set bits in non-optional mode, to be OR-ed with an
/// instruction word. Neither range is checked here:
/// [`pio_encode_sideset_checked`] refuses a count outside 1..=5 and a value
/// of `2^sideset_bit_count` or more.
pub fn pio_encode_sideset(sideset_bit_count: u32, value: u32) -> (r: u32)
    requires
        sideset_bit_count <= 13,
    ensures
        r == sideset_bits(sideset_bit_count, value),
{
    let shift: u32 = 13 - sideset_bit_count;
    value << shift
}

/// [`pio_encode_sideset`], refusing a bit count outside 1..=5 and a value
/// that does not fit in it.
pub fn pio_encode_sideset_checked(sideset_bit_count: u32, value: u32) -> (r: Result<
    u32,
    PioParamError,
>)
    ensures
        r == if !(1 <= sideset_bit_count <= 5) {
            Err(PioParamError::SideSetCountOutOfRange)
        } else if value >= (1u32 << sideset_bit_count) {
            Err(PioParamError::SideSetValueOutOfRange)
        } else {
            Ok(sideset_bits(sideset_bit_count, value))
        },
{
    if sideset_bit_count < 1 || sideset_bit_count > 5 {
        return Err(PioParamError::SideSetCountOutOfRange);
    }
    if value >= (1u32 << sideset_bit_count) {
        return Err(PioParamError::SideSetValueOutOfRange);
    }
    Ok(pio_encode_sideset(sideset_bit_count, value))
}

/// Encodes side-set bits in optional mode, to be OR-ed with an instruction
/// word. Neither range is checked here; the presence bit is always set.
/// [`pio_encode_sideset_opt_checked`] refuses a count outside 1..=4 and a
/// value of `2^sideset_bit_count` or more.
pub fn pio_encode_sideset_opt(sideset_bit_count: u32, value: u32) -> (r: u32)
    requires
        sideset_bit_count <= 12,
    ensures
        r == sideset_opt_bits(sideset_bit_count, value),
        r & 0x1000 == 0x1000,
{
    let shift: u32 = 12 - sideset_bit_count;
    proof {
        assert((0x1000u32 | (value << shift)) & 0x1000 == 0x1000) by (bit_vector);
    }
    0x1000 | (value << shift)
}

/// [`pio_encode_sideset_opt`], refusing a bit count outside 1..=4 and a value
/// that does not fit in it.
pub fn pio_encode_sideset_opt_checked(sideset_bit_count: u32, value: u32) -> (r: Result<
    u32,
    PioParamError,
>)
    ensures
        r == if !(1 <= sideset_bit_count <= 4) {
            Err(PioParamError::SideSetCountOutOfRange)
        } else if value >= (1u32 << sideset_bit_count) {
            Err(PioParamError::SideSetValueOutOfRange)
        } else {
            Ok(sideset_opt_bits(sideset_bit_count, value))
        },
{
    if sideset_bit_count < 1 || sideset_bit_count > 4 {
        return Err(PioParamError::SideSetCountOutOfRange);
    }
    if value >= (1u32 << sideset_bit_count) {
        return Err(PioParamError::SideSetValueOutOfRange);
    }
    Ok(pio_encode_sideset_opt(sideset_bit_count, value))
}

/// Encodes `JMP <addr>`: an unconditional jump. `addr` is an instruction
/// memory address 0..=31; only its low five bits are packed.
pub fn pio_encode_jmp(addr: u32) -> (r: u32)
    ensures
        r == instr_word(pio_instr_bits::pio_instr_bits_jmp.tag(), 0, addr),
{
    _pio_encode_instr_and_args(pio_instr_bits::pio_instr_bits_jmp, 0, addr)
}

/// [`pio_encode_jmp`], refusing an address above 31.
pub fn pio_encode_jmp_checked(addr: u32) -> (r: Result<u32, PioParamError>)
    ensures
        r == checked_word(pio_instr_bits::pio_instr_bits_jmp, 0, addr),
{
    _pio_encode_instr_and_args_checked(pio_instr_bits::pio_instr_bits_jmp, 0, addr)
}

/// Encodes `JMP !X <addr>`: jump if scratch X is zero. `addr` is an instruction
/// memory address 0..=31; only its low five bits are packed.
pub fn pio_encode_jmp_not_x(addr: u32) -> (r: u32)
    ensures
        r == instr_word(pio_instr_bits::pio_instr_bits_jmp.tag(), 1, addr),
{
    _pio_encode_instr_and_args(pio_instr_bits::pio_instr_bits_jmp, 1, addr)
}

/// [`pio_encode_jmp_not_x`], refusing an address above 31.
pub fn pio_encode_jmp_not_x_checked(addr: u32) -> (r: Result<u32, PioParamError>)
    ensures
        r == checked_word(pio_instr_bits::pio_instr_bits_jmp, 1, addr),
{
    _pio_encode_instr_and_args_checked(pio_instr_bits::pio_instr_bits_jmp, 1, addr)
}

/// Encodes `JMP X-- <addr>`: jump if scratch X is non-zero, then decrement
/// X. `addr` is an instruction memory address 0..=31; only its low five bits
/// are packed.
pub fn pio_encode_jmp_x_dec(addr: u32) -> (r: u32)
    ensures
        r == instr_word(pio_instr_bits::pio_instr_bits_jmp.tag(), 2, addr),
{
    _pio_encode_instr_and_args(pio_instr_bits::pio_instr_bits_jmp, 2, addr)
}

/// [`pio_encode_jmp_x_dec`], refusing an address above 31.
pub fn pio_encode_jmp_x_dec_checked(addr: u32) -> (r: Result<u32, PioParamError>)
    ensures
        r == checked_word(pio_instr_bits::pio_instr_bits_jmp, 2, addr),
{
    _pio_encode_instr_and_args_checked(pio_instr_bits::pio_instr_bits_jmp, 2, addr)
}

/// Encodes `JMP !Y <addr>`: jump if scratch Y is zero. `addr` is an instruction
/// memory address 0..=31; only its low five bits are packed.
pub fn pio_encode_jmp_not_y(addr: u32) -> (r: u32)
    ensures
        r == instr_word(pio_instr_bits::pio_instr_bits_jmp.tag(), 3, addr),
{
    _pio_encode_instr_and_args(pio_instr_bits::pio_instr_bits_jmp, 3, addr)
}

/// [`pio_encode_jmp_not_y`], refusing an address above 31.
pub fn pio_encode_jmp_not_y_checked(addr: u32) -> (r: Result<u32, PioParamError>)
    ensures
        r == checked_word(pio_instr_bits::pio_instr_bits_jmp, 3, addr),
{
    _pio_encode_instr_and_args_checked(pio_instr_bits::pio_instr_bits_jmp, 3, addr)
}

/// Encodes `JMP Y-- <addr>`: jump if scratch Y is non-zero, then decrement
/// Y. `addr` is an instruction memory address 0..=31; only its low five bits
/// are packed.
pub fn pio_encode_jmp_y_dec(addr: u32) -> (r: u32)
    ensures
        r == instr_word(pio_instr_bits::pio_instr_bits_jmp.tag(), 4, addr),
{
    _pio_encode_instr_and_args(pio_instr_bits::pio_instr_bits_jmp, 4, addr)
}

/// [`pio_encode_jmp_y_dec`], refusing an address above 31.
pub fn pio_encode_jmp_y_dec_checked(addr: u32) -> (r: Result<u32, PioParamError>)
    ensures
        r == checked_word(pio_instr_bits::pio_instr_bits_jmp, 4, addr),
{
    _pio_encode_instr_and_args_checked(pio_instr_bits::pio_instr_bits_jmp, 4, addr)
}

/// Encodes `JMP X!=Y <addr>`: jump if scratch X differs from scratch Y. `addr` is an instruction
/// memory address 0..=31; only its low five bits are packed.
pub fn pio_encode_jmp_x_ne_y(addr: u32) -> (r: u32)
    ensures
        r == instr_word(pio_instr_bits::pio_instr_bits_jmp.tag(), 5, addr),
{
    _pio_encode_instr_and_args(pio_instr_bits::pio_instr_bits_jmp, 5, addr)
}

/// [`pio_encode_jmp_x_ne_y`], refusing an address above 31.
pub fn pio_encode_jmp_x_ne_y_checked(addr: u32) -> (r: Result<u32, PioParamError>)
    ensures
        r == checked_word(pio_instr_bits::pio_instr_bits_jmp, 5, addr),
{
    _pio_encode_instr_and_args_checked(pio_instr_bits::pio_instr_bits_jmp, 5, addr)
}

/// Encodes `JMP PIN <addr>`: jump if the jump pin is high. `addr` is an instruction
/// memory address 0..=31; only its low five bits are packed.
pub fn pio_encode_jmp_pin(addr: u32) -> (r: u32)
    ensures
        r == instr_word(pio_instr_bits::pio_instr_bits_jmp.tag(), 6, addr),
{
    _pio_encode_instr_and_args(pio_instr_bits::pio_instr_bits_jmp, 6, addr)
}

/// [`pio_encode_jmp_pin`], refusing an address above 31.
pub fn pio_encode_jmp_pin_checked(addr: u32) -> (r: Result<u32, PioParamError>)
    ensures
        r == checked_word(pio_instr_bits::pio_instr_bits_jmp, 6, addr),
{
    _pio_encode_instr_and_args_checked(pio_instr_bits::pio_instr_bits_jmp, 6, addr)
}

/// Encodes `JMP !OSRE <addr>`: jump if the output shift register is not
/// empty. `addr` is an instruction memory address 0..=31; only its low five
/// bits are packed.
pub fn pio_encode_jmp_not_osre(addr: u32) -> (r: u32)
    ensures
        r == instr_word(pio_instr_bits::pio_instr_bits_jmp.tag(), 7, addr),
{
    _pio_encode_instr_and_args(pio_instr_bits::pio_instr_bits_jmp, 7, addr)
}

/// [`pio_encode_jmp_not_osre`], refusing an address above 31.
pub fn pio_encode_jmp_not_osre_checked(addr: u32) -> (r: Result<u32, PioParamError>)
    ensures
        r == checked_word(pio_instr_bits::pio_instr_bits_jmp, 7, addr),
{
    _pio_encode_instr_and_args_checked(pio_instr_bits::pio_instr_bits_jmp, 7, addr)
}

/// Selector of a WAIT: the source (0 GPIO, 1 pin, 2 IRQ), plus 4 when
/// waiting for a 1.
pub open spec fn wait_sel(polarity: bool, source: u32) -> u32 {
    if polarity {
        (source + 4) as u32
    } else {
        source
    }
}

/// Encodes `WAIT <polarity> GPIO <gpio>`: wait for a GPIO, by its real
/// number 0..=31, to be high (`polarity`) or low.
pub fn pio_encode_wait_gpio(polarity: bool, gpio: u32) -> (r: u32)
    ensures
        r == instr_word(pio_instr_bits::pio_instr_bits_wait.tag(), wait_sel(polarity, 0), gpio),
{
    let arg1: u32 = if polarity {
        4
    } else {
        0
    };
    _pio_encode_instr_and_args(pio_instr_bits::pio_instr_bits_wait, arg1, gpio)
}

/// [`pio_encode_wait_gpio`], refusing a GPIO number above 31.
pub fn pio_encode_wait_gpio_checked(polarity: bool, gpio: u32) -> (r: Result<u32, PioParamError>)
    ensures
        r == checked_word(pio_instr_bits::pio_instr_bits_wait, wait_sel(polarity, 0), gpio),
{
    let arg1: u32 = if polarity {
        4
    } else {
        0
    };
    _pio_encode_instr_and_args_checked(pio_instr_bits::pio_instr_bits_wait, arg1, gpio)
}

/// Encodes `WAIT <polarity> PIN <pin>`: wait for an input pin, numbered
/// 0..=31 from the state machine's input mapping, to be high or low.
pub fn pio_encode_wait_pin(polarity: bool, pin: u32) -> (r: u32)
    ensures
        r == instr_word(pio_instr_bits::pio_instr_bits_wait.tag(), wait_sel(polarity, 1), pin),
{
    let arg1: u32 = if polarity {
        5
    } else {
        1
    };
    _pio_encode_instr_and_args(pio_instr_bits::pio_instr_bits_wait, arg1, pin)
}

/// [`pio_encode_wait_pin`], refusing a pin number above 31.
pub fn pio_encode_wait_pin_checked(polarity: bool, pin: u32) -> (r: Result<u32, PioParamError>)
    ensures
        r == checked_word(pio_instr_bits::pio_instr_bits_wait, wait_sel(polarity, 1), pin),
{
    let arg1: u32 = if polarity {
        5
    } else {
        1
    };
    _pio_encode_instr_and_args_checked(pio_instr_bits::pio_instr_bits_wait, arg1, pin)
}

/// Encodes `WAIT <polarity> IRQ <irq> [REL]`: wait for IRQ flag `irq` to be
/// set or clear; `relative` adds the state machine's index to the number.
pub fn pio_encode_wait_irq(polarity: bool, relative: bool, irq: u32) -> (r: u32)
    ensures
        r == instr_word(
            pio_instr_bits::pio_instr_bits_wait.tag(),
            wait_sel(polarity, 2),
            irq_field(relative, irq),
        ),
{
    let arg1: u32 = if polarity {
        6
    } else {
        2
    };
    _pio_encode_instr_and_args(
        pio_instr_bits::pio_instr_bits_wait,
        arg1,
        _pio_encode_irq(relative, irq),
    )
}

/// [`pio_encode_wait_irq`], refusing an IRQ number above 7.
pub fn pio_encode_wait_irq_checked(polarity: bool, relative: bool, irq: u32) -> (r: Result<
    u32,
    PioParamError,
>)
    ensures
        r == if irq > 7 {
            Err(PioParamError::IrqOutOfRange)
        } else {
            Ok(
                instr_word(
                    pio_instr_bits::pio_instr_bits_wait.tag(),
                    wait_sel(polarity, 2),
                    irq_field(relative, irq),
                ),
            )
        },
{
    if irq > 7 {
        return Err(PioParamError::IrqOutOfRange);
    }
    Ok(pio_encode_wait_irq(polarity, relative, irq))
}

/// Encodes `IN <src>, <count>`: shift `count` bits, 1..=32, from `src` into
/// the input shift register. A count of 32 is packed as 0; the count is not
/// checked here, [`pio_encode_in_checked`] refuses 0 and counts above 32.
pub fn pio_encode_in(src: pio_src_dest, count: u32) -> (r: u32)
    ensures
        r == instr_word(pio_instr_bits::pio_instr_bits_in.tag(), src.spec_selector(), count),
{
    _pio_encode_instr_and_src_dest(pio_instr_bits::pio_instr_bits_in, src, count)
}

/// [`pio_encode_in`], refusing a source that IN cannot read and a count
/// outside 1..=32.
pub fn pio_encode_in_checked(src: pio_src_dest, count: u32) -> (r: Result<u32, PioParamError>)
    ensures
        r == if src.forbids(OperandRole::InSrc) {
            Err(PioParamError::IllegalOperand)
        } else if !(1 <= count <= 32) {
            Err(PioParamError::ArgumentOutOfRange)
        } else {
            Ok(instr_word(pio_instr_bits::pio_instr_bits_in.tag(), src.spec_selector(), count))
        },
{
    if !src.is_valid_for(OperandRole::InSrc) {
        return Err(PioParamError::IllegalOperand);
    }
    _pio_encode_instr_and_args_checked(pio_instr_bits::pio_instr_bits_in, src.selector(), count)
}

/// Encodes `OUT <dest>, <count>`: shift `count` bits, 1..=32, out of the
/// output shift register into `dest`. A count of 32 is packed as 0; the
/// count is not checked here, [`pio_encode_out_checked`] refuses 0 and counts
/// above 32.
pub fn pio_encode_out(dest: pio_src_dest, count: u32) -> (r: u32)
    ensures
        r == instr_word(pio_instr_bits::pio_instr_bits_out.tag(), dest.spec_selector(), count),
{
    _pio_encode_instr_and_src_dest(pio_instr_bits::pio_instr_bits_out, dest, count)
}

/// [`pio_encode_out`], refusing a destination that OUT cannot write and a
/// count outside 1..=32.
pub fn pio_encode_out_checked(dest: pio_src_dest, count: u32) -> (r: Result<u32, PioParamError>)
    ensures
        r == if dest.forbids(OperandRole::OutDest) {
            Err(PioParamError::IllegalOperand)
        } else if !(1 <= count <= 32) {
            Err(PioParamError::ArgumentOutOfRange)
        } else {
            Ok(instr_word(pio_instr_bits::pio_instr_bits_out.tag(), dest.spec_selector(), count))
        },
{
    if !dest.is_valid_for(OperandRole::OutDest) {
        return Err(PioParamError::IllegalOperand);
    }
    _pio_encode_instr_and_args_checked(pio_instr_bits::pio_instr_bits_out, dest.selector(), count)
}

/// Selector of PUSH and PULL: 2 for the conditional form, plus 1 to block.
pub open spec fn fifo_sel(conditional: bool, block: bool) -> u32 {
    match (conditional, block) {
        (false, false) => 0,
        (false, true) => 1,
        (true, false) => 2,
        (true, true) => 3,
    }
}

/// Encodes `PUSH [IF_FULL] [BLOCK]`.
pub fn pio_encode_push(if_full: bool, block: bool) -> (r: u32)
    ensures
        r == instr_word(pio_instr_bits::pio_instr_bits_push.tag(), fifo_sel(if_full, block), 0),
{
    let arg1_p1: u32 = if if_full {
        2
    } else {
        0
    };
    let arg1_p2: u32 = if block {
        1
    } else {
        0
    };
    _pio_encode_instr_and_args(pio_instr_bits::pio_instr_bits_push, arg1_p1 + arg1_p2, 0)
}

/// Encodes `PULL [IF_EMPTY] [BLOCK]`.
pub fn pio_encode_pull(if_empty: bool, block: bool) -> (r: u32)
    ensures
        r == instr_word(pio_instr_bits::pio_instr_bits_pull.tag(), fifo_sel(if_empty, block), 0),
{
    let arg1_p1: u32 = if if_empty {
        2
    } else {
        0
    };
    let arg1_p2: u32 = if block {
        1
    } else {
        0
    };
    _pio_encode_instr_and_args(pio_instr_bits::pio_instr_bits_pull, arg1_p1 + arg1_p2, 0)
}

/// A MOV from `src` into `dest` with operation `op` (0 plain, 1 bit-invert,
/// 2 bit-reverse) in bits 4..3 of the argument field.
pub open spec fn mov_word(dest: pio_src_dest, src: pio_src_dest, op: u32) -> u32 {
    instr_word(
        pio_instr_bits::pio_instr_bits_mov.tag(),
        dest.spec_selector(),
        (op << 3u32) | src.spec_selector(),
    )
}

/// Whether `dest` and `src` may stand in a MOV.
pub open spec fn mov_operands_valid(dest: pio_src_dest, src: pio_src_dest) -> bool {
    !dest.forbids(OperandRole::MovDest) && !src.forbids(OperandRole::MovSrc)
}

/// Encodes `MOV <dest>, <src>`.
pub fn pio_encode_mov(dest: pio_src_dest, src: pio_src_dest) -> (r: u32)
    ensures
        r == mov_word(dest, src, 0),
{
    let sel = src.selector();
    assert((0u32 << 3u32) | sel == sel) by (bit_vector);
    _pio_encode_instr_and_src_dest(pio_instr_bits::pio_instr_bits_mov, dest, sel)
}

/// [`pio_encode_mov`], refusing operands that MOV cannot use there.
pub fn pio_encode_mov_checked(dest: pio_src_dest, src: pio_src_dest) -> (r: Result<
    u32,
    PioParamError,
>)
    ensures
        r == if mov_operands_valid(dest, src) {
            Ok(mov_word(dest, src, 0))
        } else {
            Err(PioParamError::IllegalOperand)
        },
{
    if !dest.is_valid_for(OperandRole::MovDest) || !src.is_valid_for(OperandRole::MovSrc) {
        return Err(PioParamError::IllegalOperand);
    }
    Ok(pio_encode_mov(dest, src))
}

/// Encodes `MOV <dest>, ~<src>`: move the bitwise inverse of `src`.
pub fn pio_encode_mov_not(dest: pio_src_dest, src: pio_src_dest) -> (r: u32)
    ensures
        r == mov_word(dest, src, 1),
{
    _pio_encode_instr_and_src_dest(
        pio_instr_bits::pio_instr_bits_mov,
        dest,
        (1u32 << 3u32) | src.selector(),
    )
}

/// [`pio_encode_mov_not`], refusing operands that MOV cannot use there.
pub fn pio_encode_mov_not_checked(dest: pio_src_dest, src: pio_src_dest) -> (r: Result<
    u32,
    PioParamError,
>)
    ensures
        r == if mov_operands_valid(dest, src) {
            Ok(mov_word(dest, src, 1))
        } else {
            Err(PioParamError::IllegalOperand)
        },
{
    if !dest.is_valid_for(OperandRole::MovDest) || !src.is_valid_for(OperandRole::MovSrc) {
        return Err(PioParamError::IllegalOperand);
    }
    Ok(pio_encode_mov_not(dest, src))
}

/// Encodes `MOV <dest>, ::<src>`: move `src` with its bits reversed.
pub fn pio_encode_mov_reverse(dest: pio_src_dest, src: pio_src_dest) -> (r: u32)
    ensures
        r == mov_word(dest, src, 2),
{
    _pio_encode_instr_and_src_dest(
        pio_instr_bits::pio_instr_bits_mov,
        dest,
        (2u32 << 3u32) | src.selector(),
    )
}

/// [`pio_encode_mov_reverse`], refusing operands that MOV cannot use there.
pub fn pio_encode_mov_reverse_checked(dest: pio_src_dest, src: pio_src_dest) -> (r: Result<
    u32,
    PioParamError,
>)
    ensures
        r == if mov_operands_valid(dest, src) {
            Ok(mov_word(dest, src, 2))
        } else {
            Err(PioParamError::IllegalOperand)
        },
{
    if !dest.is_valid_for(OperandRole::MovDest) || !src.is_valid_for(OperandRole::MovSrc) {
        return Err(PioParamError::IllegalOperand);
    }
    Ok(pio_encode_mov_reverse(dest, src))
}

/// Encodes `IRQ SET <irq> [REL]`: raise IRQ flag `irq`, a number 0..=7;
/// `relative` adds the state machine's index to the number.
pub fn pio_encode_irq_set(relative: bool, irq: u32) -> (r: u32)
    ensures
        r == instr_word(pio_instr_bits::pio_instr_bits_irq.tag(), 0, irq_field(relative, irq)),
{
    _pio_encode_instr_and_args(
        pio_instr_bits::pio_instr_bits_irq,
        0,
        _pio_encode_irq(relative, irq),
    )
}

/// [`pio_encode_irq_set`], refusing an IRQ number above 7.
pub fn pio_encode_irq_set_checked(relative: bool, irq: u32) -> (r: Result<u32, PioParamError>)
    ensures
        r == if irq > 7 {
            Err(PioParamError::IrqOutOfRange)
        } else {
            Ok(instr_word(pio_instr_bits::pio_instr_bits_irq.tag(), 0, irq_field(relative, irq)))
        },
{
    if irq > 7 {
        return Err(PioParamError::IrqOutOfRange);
    }
    Ok(pio_encode_irq_set(relative, irq))
}

/// Encodes `IRQ WAIT <irq> [REL]`: raise IRQ flag `irq`, a number 0..=7,
/// and wait for it to be cleared; `relative` adds the state machine's index
/// to the number.
pub fn pio_encode_irq_wait(relative: bool, irq: u32) -> (r: u32)
    ensures
        r == instr_word(pio_instr_bits::pio_instr_bits_irq.tag(), 1, irq_field(relative, irq)),
{
    _pio_encode_instr_and_args(
        pio_instr_bits::pio_instr_bits_irq,
        1,
        _pio_encode_irq(relative, irq),
    )
}

/// [`pio_encode_irq_wait`], refusing an IRQ number above 7.
pub fn pio_encode_irq_wait_checked(relative: bool, irq: u32) -> (r: Result<u32, PioParamError>)
    ensures
        r == if irq > 7 {
            Err(PioParamError::IrqOutOfRange)
        } else {
            Ok(instr_word(pio_instr_bits::pio_instr_bits_irq.tag(), 1, irq_field(relative, irq)))
        },
{
    if irq > 7 {
        return Err(PioParamError::IrqOutOfRange);
    }
    Ok(pio_encode_irq_wait(relative, irq))
}

/// Encodes `IRQ CLEAR <irq> [REL]`: clear IRQ flag `irq`, a number 0..=7;
/// `relative` adds the state machine's index to the number.
pub fn pio_encode_irq_clear(relative: bool, irq: u32) -> (r: u32)
    ensures
        r == instr_word(pio_instr_bits::pio_instr_bits_irq.tag(), 2, irq_field(relative, irq)),
{
    _pio_encode_instr_and_args(
        pio_instr_bits::pio_instr_bits_irq,
        2,
        _pio_encode_irq(relative, irq),
    )
}

/// [`pio_encode_irq_clear`], refusing an IRQ number above 7.
pub fn pio_encode_irq_clear_checked(relative: bool, irq: u32) -> (r: Result<u32, PioParamError>)
    ensures
        r == if irq > 7 {
            Err(PioParamError::IrqOutOfRange)
        } else {
            Ok(instr_word(pio_instr_bits::pio_instr_bits_irq.tag(), 2, irq_field(relative, irq)))
        },
{
    if irq > 7 {
        return Err(PioParamError::IrqOutOfRange);
    }
    Ok(pio_encode_irq_clear(relative, irq))
}

/// Encodes `SET <dest>, <value>`: write the immediate `value`, 0..=31, to
/// `dest`.
pub fn pio_encode_set(dest: pio_src_dest, value: u32) -> (r: u32)
    ensures
        r == instr_word(pio_instr_bits::pio_instr_bits_set.tag(), dest.spec_selector(), value),
{
    _pio_encode_instr_and_src_dest(pio_instr_bits::pio_instr_bits_set, dest, value)
}

/// [`pio_encode_set`], refusing a destination that SET cannot write and a
/// value above 31.
pub fn pio_encode_set_checked(dest: pio_src_dest, value: u32) -> (r: Result<u32, PioParamError>)
    ensures
        r == if dest.forbids(OperandRole::SetDest) {
            Err(PioParamError::IllegalOperand)
        } else if value > 31 {
            Err(PioParamError::ArgumentOutOfRange)
        } else {
            Ok(instr_word(pio_instr_bits::pio_instr_bits_set.tag(), dest.spec_selector(), value))
        },
{
    if !dest.is_valid_for(OperandRole::SetDest) {
        return Err(PioParamError::IllegalOperand);
    }
    _pio_encode_instr_and_args_checked(pio_instr_bits::pio_instr_bits_set, dest.selector(), value)
}

/// Encodes `NOP`, which is the plain `MOV Y, Y`.
pub fn pio_encode_nop() -> (r: u32)
    ensures
        r == mov_word(pio_src_dest::pio_y, pio_src_dest::pio_y, 0),
{
    pio_encode_mov(pio_src_dest::pio_y, pio_src_dest::pio_y)
}

} // verus!
