use piolib_rs::pio_instructions::{
    _pio_encode_instr_and_args, _pio_encode_instr_and_args_checked, _pio_encode_instr_and_src_dest,
    _pio_encode_irq, _pio_major_instr_bits, pio_encode_delay, pio_encode_delay_checked,
    pio_encode_in, pio_encode_in_checked, pio_encode_irq_clear, pio_encode_irq_clear_checked,
    pio_encode_irq_set, pio_encode_irq_set_checked, pio_encode_irq_wait,
    pio_encode_irq_wait_checked, pio_encode_jmp, pio_encode_jmp_checked, pio_encode_jmp_not_osre,
    pio_encode_jmp_not_osre_checked, pio_encode_jmp_not_x, pio_encode_jmp_not_x_checked,
    pio_encode_jmp_not_y, pio_encode_jmp_not_y_checked, pio_encode_jmp_pin,
    pio_encode_jmp_pin_checked, pio_encode_jmp_x_dec, pio_encode_jmp_x_dec_checked,
    pio_encode_jmp_x_ne_y, pio_encode_jmp_x_ne_y_checked, pio_encode_jmp_y_dec,
    pio_encode_jmp_y_dec_checked, pio_encode_mov, pio_encode_mov_checked, pio_encode_mov_not,
    pio_encode_mov_not_checked, pio_encode_mov_reverse, pio_encode_mov_reverse_checked,
    pio_encode_nop, pio_encode_out, pio_encode_out_checked, pio_encode_pull, pio_encode_push,
    pio_encode_set, pio_encode_set_checked, pio_encode_sideset, pio_encode_sideset_checked,
    pio_encode_sideset_opt, pio_encode_sideset_opt_checked, pio_encode_wait_gpio,
    pio_encode_wait_gpio_checked, pio_encode_wait_irq, pio_encode_wait_irq_checked,
    pio_encode_wait_pin, pio_encode_wait_pin_checked, pio_instr_bits, pio_src_dest, OperandRole,
    PioParamError,
};

const ALL_CLASSES: [pio_instr_bits; 9] = [
    pio_instr_bits::pio_instr_bits_jmp,
    pio_instr_bits::pio_instr_bits_wait,
    pio_instr_bits::pio_instr_bits_in,
    pio_instr_bits::pio_instr_bits_out,
    pio_instr_bits::pio_instr_bits_push,
    pio_instr_bits::pio_instr_bits_pull,
    pio_instr_bits::pio_instr_bits_mov,
    pio_instr_bits::pio_instr_bits_irq,
    pio_instr_bits::pio_instr_bits_set,
];

#[test]
fn class_bits_values() {
    let expected: [u32; 9] = [
        0x0000, 0x2000, 0x4000, 0x6000, 0x8000, 0x8080, 0xa000, 0xc000, 0xe000,
    ];
    for (c, e) in ALL_CLASSES.iter().zip(expected.iter()) {
        assert_eq!(c.bits(), *e);
    }
}

#[test]
fn major_bits_of_pull_collapse_to_push() {
    assert_eq!(_pio_major_instr_bits(0x80a0), 0x8000);
    assert_eq!(_pio_major_instr_bits(0xffff), 0xe000);
    assert_eq!(_pio_major_instr_bits(0x1fff), 0);
}

#[test]
fn class_bits_independent_of_selector_and_argument() {
    for c in ALL_CLASSES.iter() {
        for sel in 0..8u32 {
            for arg in [0u32, 1, 17, 31, 32, 0xffff_ffff] {
                let wide = _pio_encode_instr_and_args(*c, sel + 8, arg);
                assert_eq!(wide & 0xe000, c.bits() & 0xe000);
                let w = _pio_encode_instr_and_args(*c, sel, arg);
                assert_eq!(w & 0xe000, c.bits() & 0xe000);
                assert_eq!(w & 0x1f00, 0);
            }
        }
    }
}

#[test]
fn packing_formula_exact() {
    for c in ALL_CLASSES.iter() {
        for sel in 0..8u32 {
            for arg in 0..32u32 {
                let w = _pio_encode_instr_and_args(*c, sel, arg);
                assert_eq!(w, c.bits() | (sel << 5) | (arg & 0x1f));
            }
        }
    }
}

#[test]
fn packing_truncates_argument_to_five_bits() {
    assert_eq!(_pio_encode_instr_and_args(pio_instr_bits::pio_instr_bits_set, 0, 0x25), 0xe005);
    assert_eq!(
        _pio_encode_instr_and_src_dest(pio_instr_bits::pio_instr_bits_set, pio_src_dest::pio_y, 3),
        0xe043
    );
}

#[test]
fn packing_masks_selector_to_three_bits() {
    assert_eq!(_pio_encode_instr_and_args(pio_instr_bits::pio_instr_bits_jmp, 8, 0), 0);
    assert_eq!(_pio_encode_instr_and_args(pio_instr_bits::pio_instr_bits_set, 0xf, 1), 0xe0e1);
    for sel in [8u32, 0xff, 0xffff_ffff] {
        let w = _pio_encode_instr_and_args(pio_instr_bits::pio_instr_bits_wait, sel, 3);
        assert_eq!(w & 0x1f00, 0);
    }
}

#[test]
fn checked_packing_errors() {
    assert_eq!(
        _pio_encode_instr_and_args_checked(pio_instr_bits::pio_instr_bits_jmp, 8, 0),
        Err(PioParamError::SelectorOutOfRange)
    );
    assert_eq!(
        _pio_encode_instr_and_args_checked(pio_instr_bits::pio_instr_bits_jmp, 0, 32),
        Err(PioParamError::ArgumentOutOfRange)
    );
    assert_eq!(
        _pio_encode_instr_and_args_checked(pio_instr_bits::pio_instr_bits_out, 0, 0),
        Err(PioParamError::ArgumentOutOfRange)
    );
    assert_eq!(
        _pio_encode_instr_and_args_checked(pio_instr_bits::pio_instr_bits_out, 0, 32),
        Ok(0x6000)
    );
    assert_eq!(
        _pio_encode_instr_and_args_checked(pio_instr_bits::pio_instr_bits_jmp, 7, 31),
        Ok(0x00ff)
    );
}

#[test]
fn jmp_scenario() {
    assert_eq!(pio_encode_jmp(5), 0x0005);
}

#[test]
fn jmp_conditions() {
    assert_eq!(pio_encode_jmp_not_x(3), 0x0023);
    assert_eq!(pio_encode_jmp_x_dec(3), 0x0043);
    assert_eq!(pio_encode_jmp_not_y(3), 0x0063);
    assert_eq!(pio_encode_jmp_y_dec(3), 0x0083);
    assert_eq!(pio_encode_jmp_x_ne_y(3), 0x00a3);
    assert_eq!(pio_encode_jmp_pin(3), 0x00c3);
    assert_eq!(pio_encode_jmp_not_osre(3), 0x00e3);
}

#[test]
fn jmp_checked_address_range() {
    assert_eq!(pio_encode_jmp_checked(31), Ok(0x001f));
    assert_eq!(pio_encode_jmp_checked(32), Err(PioParamError::ArgumentOutOfRange));
    assert_eq!(pio_encode_jmp_not_x_checked(1), Ok(0x0021));
    assert_eq!(pio_encode_jmp_x_dec_checked(40), Err(PioParamError::ArgumentOutOfRange));
    assert_eq!(pio_encode_jmp_not_y_checked(2), Ok(0x0062));
    assert_eq!(pio_encode_jmp_y_dec_checked(2), Ok(0x0082));
    assert_eq!(pio_encode_jmp_x_ne_y_checked(2), Ok(0x00a2));
    assert_eq!(pio_encode_jmp_pin_checked(2), Ok(0x00c2));
    assert_eq!(pio_encode_jmp_not_osre_checked(33), Err(PioParamError::ArgumentOutOfRange));
}

#[test]
fn wait_gpio_scenario() {
    assert_eq!(pio_encode_wait_gpio(true, 3), 0x2083);
    assert_eq!(pio_encode_wait_gpio(false, 3), 0x2003);
    assert_eq!(pio_encode_wait_gpio_checked(true, 31), Ok(0x209f));
    assert_eq!(pio_encode_wait_gpio_checked(true, 32), Err(PioParamError::ArgumentOutOfRange));
}

#[test]
fn wait_pin_and_irq() {
    assert_eq!(pio_encode_wait_pin(false, 2), 0x2022);
    assert_eq!(pio_encode_wait_pin(true, 2), 0x20a2);
    assert_eq!(pio_encode_wait_pin_checked(true, 32), Err(PioParamError::ArgumentOutOfRange));
    assert_eq!(pio_encode_wait_irq(true, true, 3), 0x20d3);
    assert_eq!(pio_encode_wait_irq(false, false, 7), 0x2047);
    assert_eq!(pio_encode_wait_irq_checked(true, false, 7), Ok(0x20c7));
    assert_eq!(pio_encode_wait_irq_checked(true, false, 8), Err(PioParamError::IrqOutOfRange));
}

#[test]
fn irq_field_relative_bit() {
    assert_eq!(_pio_encode_irq(true, 2), 0x12);
    assert_eq!(_pio_encode_irq(false, 2), 0x02);
}

#[test]
fn irq_set_scenario() {
    assert_eq!(pio_encode_irq_set(true, 2), 0xc012);
    assert_eq!(pio_encode_irq_set(false, 2), 0xc002);
}

#[test]
fn irq_wait_and_clear() {
    assert_eq!(pio_encode_irq_wait(false, 1), 0xc021);
    assert_eq!(pio_encode_irq_clear(true, 3), 0xc053);
    assert_eq!(pio_encode_irq_set_checked(false, 8), Err(PioParamError::IrqOutOfRange));
    assert_eq!(pio_encode_irq_wait_checked(true, 7), Ok(0xc037));
    assert_eq!(pio_encode_irq_clear_checked(false, 0), Ok(0xc040));
    assert_eq!(pio_encode_irq_clear_checked(false, 9), Err(PioParamError::IrqOutOfRange));
}

#[test]
fn in_and_out_words() {
    assert_eq!(pio_encode_in(pio_src_dest::pio_x, 8), 0x4028);
    assert_eq!(pio_encode_in(pio_src_dest::pio_pins, 32), 0x4000);
    assert_eq!(pio_encode_out(pio_src_dest::pio_pindirs, 4), 0x6084);
    assert_eq!(pio_encode_out(pio_src_dest::pio_exec_out, 16), 0x60f0);
}

#[test]
fn in_out_count_range() {
    assert_eq!(pio_encode_in_checked(pio_src_dest::pio_pins, 1), Ok(0x4001));
    assert_eq!(pio_encode_in_checked(pio_src_dest::pio_pins, 32), Ok(0x4000));
    assert_eq!(
        pio_encode_in_checked(pio_src_dest::pio_pins, 0),
        Err(PioParamError::ArgumentOutOfRange)
    );
    assert_eq!(
        pio_encode_in_checked(pio_src_dest::pio_pins, 33),
        Err(PioParamError::ArgumentOutOfRange)
    );
    assert_eq!(pio_encode_out_checked(pio_src_dest::pio_x, 1), Ok(0x6021));
    assert_eq!(pio_encode_out_checked(pio_src_dest::pio_x, 32), Ok(0x6020));
    assert_eq!(
        pio_encode_out_checked(pio_src_dest::pio_x, 0),
        Err(PioParamError::ArgumentOutOfRange)
    );
    assert_eq!(
        pio_encode_out_checked(pio_src_dest::pio_x, 33),
        Err(PioParamError::ArgumentOutOfRange)
    );
}

#[test]
fn operand_legality() {
    assert_eq!(
        pio_encode_in_checked(pio_src_dest::pio_pindirs, 8),
        Err(PioParamError::IllegalOperand)
    );
    assert_eq!(pio_encode_in_checked(pio_src_dest::pio_pins, 8), Ok(0x4008));
    assert_eq!(
        pio_encode_mov_checked(pio_src_dest::pio_null, pio_src_dest::pio_x),
        Err(PioParamError::IllegalOperand)
    );
    assert_eq!(
        pio_encode_mov_checked(pio_src_dest::pio_x, pio_src_dest::pio_null),
        Ok(0xa023)
    );
    assert_eq!(
        pio_encode_out_checked(pio_src_dest::pio_status, 4),
        Err(PioParamError::IllegalOperand)
    );
    assert_eq!(
        pio_encode_out_checked(pio_src_dest::pio_osr, 4),
        Err(PioParamError::IllegalOperand)
    );
    assert_eq!(
        pio_encode_set_checked(pio_src_dest::pio_null, 1),
        Err(PioParamError::IllegalOperand)
    );
    assert_eq!(pio_encode_set_checked(pio_src_dest::pio_pindirs, 1), Ok(0xe081));
}

#[test]
fn operand_table() {
    assert_eq!(pio_src_dest::pio_exec_mov.selector(), 4);
    assert_eq!(pio_src_dest::pio_exec_out.selector(), 7);
    assert!(pio_src_dest::pio_pc.is_valid_for(OperandRole::MovDest));
    assert!(pio_src_dest::pio_pc.is_valid_for(OperandRole::OutDest));
    assert!(!pio_src_dest::pio_pc.is_valid_for(OperandRole::MovSrc));
    assert!(pio_src_dest::pio_status.is_valid_for(OperandRole::MovSrc));
    assert!(!pio_src_dest::pio_status.is_valid_for(OperandRole::InSrc));
    assert!(pio_src_dest::pio_isr.is_valid_for(OperandRole::InSrc));
    assert!(!pio_src_dest::pio_isr.is_valid_for(OperandRole::SetDest));
    for role in [
        OperandRole::InSrc,
        OperandRole::OutDest,
        OperandRole::SetDest,
        OperandRole::MovSrc,
        OperandRole::MovDest,
    ] {
        assert!(pio_src_dest::pio_pins.is_valid_for(role));
        assert!(pio_src_dest::pio_x.is_valid_for(role));
        assert!(pio_src_dest::pio_y.is_valid_for(role));
    }
}

#[test]
fn push_and_pull() {
    assert_eq!(pio_encode_push(false, false), 0x8000);
    assert_eq!(pio_encode_push(false, true), 0x8020);
    assert_eq!(pio_encode_push(true, true), 0x8060);
    assert_eq!(pio_encode_pull(false, true), 0x80a0);
    assert_eq!(pio_encode_pull(true, false), 0x80c0);
}

#[test]
fn mov_variants() {
    assert_eq!(pio_encode_mov(pio_src_dest::pio_x, pio_src_dest::pio_y), 0xa022);
    assert_eq!(pio_encode_mov_not(pio_src_dest::pio_x, pio_src_dest::pio_y), 0xa02a);
    assert_eq!(pio_encode_mov_reverse(pio_src_dest::pio_x, pio_src_dest::pio_y), 0xa032);
    assert_eq!(
        pio_encode_mov_checked(pio_src_dest::pio_pc, pio_src_dest::pio_x),
        Ok(0xa0a1)
    );
    assert_eq!(
        pio_encode_mov_checked(pio_src_dest::pio_exec_mov, pio_src_dest::pio_x),
        Ok(0xa081)
    );
    assert_eq!(
        pio_encode_mov_not_checked(pio_src_dest::pio_x, pio_src_dest::pio_pindirs),
        Err(PioParamError::IllegalOperand)
    );
    assert_eq!(
        pio_encode_mov_not_checked(pio_src_dest::pio_x, pio_src_dest::pio_status),
        Ok(0xa02d)
    );
    assert_eq!(
        pio_encode_mov_reverse_checked(pio_src_dest::pio_status, pio_src_dest::pio_x),
        Err(PioParamError::IllegalOperand)
    );
    assert_eq!(
        pio_encode_mov_reverse_checked(pio_src_dest::pio_isr, pio_src_dest::pio_osr),
        Ok(0xa0d7)
    );
}

#[test]
fn nop_is_mov_y_y() {
    assert_eq!(pio_encode_nop(), 0xa042);
    assert_eq!(pio_encode_nop(), pio_encode_mov(pio_src_dest::pio_y, pio_src_dest::pio_y));
}

#[test]
fn set_words() {
    assert_eq!(pio_encode_set(pio_src_dest::pio_pins, 31), 0xe01f);
    assert_eq!(pio_encode_set(pio_src_dest::pio_x, 3), 0xe023);
    assert_eq!(pio_encode_set_checked(pio_src_dest::pio_x, 31), Ok(0xe03f));
    assert_eq!(
        pio_encode_set_checked(pio_src_dest::pio_x, 32),
        Err(PioParamError::ArgumentOutOfRange)
    );
}

#[test]
fn delay_round_trip() {
    for c in 0..32u32 {
        let d = pio_encode_delay(c);
        assert_eq!((d >> 8) & 0x1f, c);
        assert_eq!(d & !0x1f00, 0);
        assert_eq!(pio_encode_delay_checked(c), Ok(d));
    }
    assert_eq!(pio_encode_delay(7), 0x0700);
    assert_eq!(pio_encode_delay(32), 0x2000);
    assert_eq!(pio_encode_delay_checked(32), Err(PioParamError::DelayOutOfRange));
}

#[test]
fn sideset_scenario() {
    assert_eq!(pio_encode_sideset(3, 5), 0x1400);
    assert_eq!(pio_encode_sideset_checked(3, 5), Ok(0x1400));
}

#[test]
fn sideset_ranges() {
    assert_eq!(pio_encode_sideset_checked(0, 0), Err(PioParamError::SideSetCountOutOfRange));
    assert_eq!(pio_encode_sideset_checked(6, 0), Err(PioParamError::SideSetCountOutOfRange));
    assert_eq!(pio_encode_sideset_checked(3, 8), Err(PioParamError::SideSetValueOutOfRange));
    assert_eq!(pio_encode_sideset_checked(5, 31), Ok(0x1f00));
    assert_eq!(pio_encode_sideset_opt_checked(5, 0), Err(PioParamError::SideSetCountOutOfRange));
    assert_eq!(pio_encode_sideset_opt_checked(2, 4), Err(PioParamError::SideSetValueOutOfRange));
    assert_eq!(pio_encode_sideset_opt_checked(4, 15), Ok(0x1f00));
    assert_eq!(pio_encode_sideset_opt(2, 3), 0x1c00);
}

#[test]
fn sideset_presence_bit() {
    for n in 1..=4u32 {
        for v in 0..(1u32 << n) {
            assert_eq!(pio_encode_sideset_opt(n, v) & 0x1000, 0x1000);
        }
    }
    for n in 1..=5u32 {
        for v in 0..(1u32 << (n - 1)) {
            assert_eq!(pio_encode_sideset(n, v) & 0x1000, 0);
        }
        for v in (1u32 << (n - 1))..(1u32 << n) {
            assert_eq!(pio_encode_sideset(n, v) & 0x1000, 0x1000);
        }
    }
}
