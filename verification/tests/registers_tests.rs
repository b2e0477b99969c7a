use gbemu::cpu::{cpu_get_ie_register, cpu_set_ie_register, CpuContext};
use gbemu::cpu_proc::{check_cond, cpu_set_flags};
use gbemu::cpu_util::{cpu_flag_c, cpu_flag_z, cpu_read_reg, cpu_set_reg, reverse};
use gbemu::instructions::{AddrMode, CondType, InType, Instruction, RegType};

#[test]
fn power_on_state() {
    let ctx = CpuContext::new();
    assert_eq!(ctx.regs.a, 1);
    assert_eq!(ctx.regs.f, 0);
    assert_eq!(ctx.regs.b, 0);
    assert_eq!(ctx.regs.c, 0);
    assert_eq!(ctx.regs.d, 0);
    assert_eq!(ctx.regs.e, 0);
    assert_eq!(ctx.regs.h, 0);
    assert_eq!(ctx.regs.l, 0);
    assert_eq!(ctx.regs.pc, 0);
    assert_eq!(ctx.regs.sp, 0);
    assert_eq!(ctx.fetched_data, 0);
    assert_eq!(ctx.mem_dest, 0);
    assert!(!ctx.dest_is_mem);
    assert_eq!(ctx.cur_opcode, 0);
    assert!(!ctx.halted);
    assert!(!ctx.stepping);
    assert!(ctx.int_master_enabled);
    assert_eq!(ctx.ie_register, 0);
    assert_eq!(
        ctx.cur_inst,
        Instruction {
            i_type: InType::IN_NONE,
            mode: AddrMode::AM_IMP,
            reg_1: RegType::RT_NONE,
            reg_2: RegType::RT_NONE,
            cond: CondType::CT_NONE,
            param: 0,
        }
    );
}

#[test]
fn reverse_swaps_the_bytes() {
    assert_eq!(reverse(0x1234), 0x3412);
    assert_eq!(reverse(0x00FF), 0xFF00);
    assert_eq!(reverse(0xFF00), 0x00FF);
    assert_eq!(reverse(0xABAB), 0xABAB);
    assert_eq!(reverse(0), 0);
    for v in [1u16, 0x0100, 0x8001, 0xFFFE] {
        assert_eq!(reverse(reverse(v)), v);
    }
}

#[test]
fn pairs_read_high_byte_from_the_first_register() {
    let mut ctx = CpuContext::new();
    ctx.regs.a = 0x01;
    ctx.regs.f = 0xB0;
    ctx.regs.b = 0x12;
    ctx.regs.c = 0x34;
    ctx.regs.d = 0x56;
    ctx.regs.e = 0x78;
    ctx.regs.h = 0x9A;
    ctx.regs.l = 0xBC;
    ctx.regs.pc = 0x0150;
    ctx.regs.sp = 0xFFFE;
    assert_eq!(cpu_read_reg(&ctx, RegType::RT_AF), 0x01B0);
    assert_eq!(cpu_read_reg(&ctx, RegType::RT_BC), 0x1234);
    assert_eq!(cpu_read_reg(&ctx, RegType::RT_DE), 0x5678);
    assert_eq!(cpu_read_reg(&ctx, RegType::RT_HL), 0x9ABC);
    assert_eq!(cpu_read_reg(&ctx, RegType::RT_PC), 0x0150);
    assert_eq!(cpu_read_reg(&ctx, RegType::RT_SP), 0xFFFE);
    assert_eq!(cpu_read_reg(&ctx, RegType::RT_A), 0x01);
    assert_eq!(cpu_read_reg(&ctx, RegType::RT_F), 0xB0);
    assert_eq!(cpu_read_reg(&ctx, RegType::RT_B), 0x12);
    assert_eq!(cpu_read_reg(&ctx, RegType::RT_C), 0x34);
    assert_eq!(cpu_read_reg(&ctx, RegType::RT_D), 0x56);
    assert_eq!(cpu_read_reg(&ctx, RegType::RT_E), 0x78);
    assert_eq!(cpu_read_reg(&ctx, RegType::RT_H), 0x9A);
    assert_eq!(cpu_read_reg(&ctx, RegType::RT_L), 0xBC);
    assert_eq!(cpu_read_reg(&ctx, RegType::RT_NONE), 0);
}

#[test]
fn pairs_write_high_byte_to_the_first_register() {
    let mut ctx = CpuContext::new();
    cpu_set_reg(&mut ctx, RegType::RT_BC, 0x1234);
    assert_eq!((ctx.regs.b, ctx.regs.c), (0x12, 0x34));
    cpu_set_reg(&mut ctx, RegType::RT_DE, 0x5678);
    assert_eq!((ctx.regs.d, ctx.regs.e), (0x56, 0x78));
    cpu_set_reg(&mut ctx, RegType::RT_HL, 0x9ABC);
    assert_eq!((ctx.regs.h, ctx.regs.l), (0x9A, 0xBC));
    cpu_set_reg(&mut ctx, RegType::RT_AF, 0xDEF0);
    assert_eq!((ctx.regs.a, ctx.regs.f), (0xDE, 0xF0));
    cpu_set_reg(&mut ctx, RegType::RT_SP, 0xCFFF);
    assert_eq!(ctx.regs.sp, 0xCFFF);
    cpu_set_reg(&mut ctx, RegType::RT_PC, 0x0100);
    assert_eq!(ctx.regs.pc, 0x0100);
    assert_eq!((ctx.regs.b, ctx.regs.c), (0x12, 0x34));
}

#[test]
fn pair_round_trip_for_every_value() {
    let mut ctx = CpuContext::new();
    for rt in [RegType::RT_BC, RegType::RT_DE, RegType::RT_HL, RegType::RT_SP, RegType::RT_PC] {
        for v in 0..=0xFFFFu16 {
            cpu_set_reg(&mut ctx, rt, v);
            assert_eq!(cpu_read_reg(&ctx, rt), v);
        }
    }
}

#[test]
fn af_round_trip_loses_the_low_nibble() {
    let mut ctx = CpuContext::new();
    for v in 0..=0xFFFFu16 {
        cpu_set_reg(&mut ctx, RegType::RT_AF, v);
        assert_eq!(cpu_read_reg(&ctx, RegType::RT_AF), v & 0xFFF0);
        assert_eq!(ctx.regs.f & 0x0F, 0);
    }
}

#[test]
fn byte_registers_take_the_low_byte() {
    let mut ctx = CpuContext::new();
    for rt in [
        RegType::RT_A,
        RegType::RT_B,
        RegType::RT_C,
        RegType::RT_D,
        RegType::RT_E,
        RegType::RT_H,
        RegType::RT_L,
    ] {
        cpu_set_reg(&mut ctx, rt, 0x12AB);
        assert_eq!(cpu_read_reg(&ctx, rt), 0x00AB);
        cpu_set_reg(&mut ctx, rt, 0x0100);
        assert_eq!(cpu_read_reg(&ctx, rt), 0);
    }
}

#[test]
fn writing_f_keeps_only_the_flags() {
    let mut ctx = CpuContext::new();
    cpu_set_reg(&mut ctx, RegType::RT_F, 0x00FF);
    assert_eq!(ctx.regs.f, 0xF0);
    cpu_set_reg(&mut ctx, RegType::RT_F, 0x120F);
    assert_eq!(ctx.regs.f, 0x00);
    cpu_set_reg(&mut ctx, RegType::RT_F, 0x00A5);
    assert_eq!(ctx.regs.f, 0xA0);
}

#[test]
fn writing_no_register_changes_nothing() {
    let mut ctx = CpuContext::new();
    ctx.regs.b = 7;
    let before = ctx;
    cpu_set_reg(&mut ctx, RegType::RT_NONE, 0xFFFF);
    assert_eq!(ctx, before);
}

#[test]
fn a_write_touches_only_its_register() {
    let mut ctx = CpuContext::new();
    let before = ctx;
    cpu_set_reg(&mut ctx, RegType::RT_HL, 0xC123);
    let mut expected = before;
    expected.regs.h = 0xC1;
    expected.regs.l = 0x23;
    assert_eq!(ctx, expected);
}

#[test]
fn zero_and_carry_flags_are_bits_7_and_4() {
    let mut ctx = CpuContext::new();
    ctx.regs.f = 0x00;
    assert!(!cpu_flag_z(&ctx));
    assert!(!cpu_flag_c(&ctx));
    ctx.regs.f = 0x80;
    assert!(cpu_flag_z(&ctx));
    assert!(!cpu_flag_c(&ctx));
    ctx.regs.f = 0x10;
    assert!(!cpu_flag_z(&ctx));
    assert!(cpu_flag_c(&ctx));
    ctx.regs.f = 0x60;
    assert!(!cpu_flag_z(&ctx));
    assert!(!cpu_flag_c(&ctx));
    ctx.regs.f = 0xF0;
    assert!(cpu_flag_z(&ctx));
    assert!(cpu_flag_c(&ctx));
}

#[test]
fn flag_positions() {
    let mut ctx = CpuContext::new();
    cpu_set_flags(&mut ctx, Some(true), None, None, None);
    assert_eq!(ctx.regs.f, 0b1000_0000);
    cpu_set_flags(&mut ctx, None, Some(true), None, None);
    assert_eq!(ctx.regs.f, 0b1100_0000);
    cpu_set_flags(&mut ctx, None, None, Some(true), None);
    assert_eq!(ctx.regs.f, 0b1110_0000);
    cpu_set_flags(&mut ctx, None, None, None, Some(true));
    assert_eq!(ctx.regs.f, 0b1111_0000);
    cpu_set_flags(&mut ctx, Some(false), None, None, None);
    assert_eq!(ctx.regs.f, 0b0111_0000);
    cpu_set_flags(&mut ctx, None, Some(false), None, None);
    assert_eq!(ctx.regs.f, 0b0011_0000);
    cpu_set_flags(&mut ctx, None, None, Some(false), None);
    assert_eq!(ctx.regs.f, 0b0001_0000);
    cpu_set_flags(&mut ctx, None, None, None, Some(false));
    assert_eq!(ctx.regs.f, 0b0000_0000);
}

#[test]
fn all_four_flags_at_once() {
    let mut ctx = CpuContext::new();
    for bits in 0..16u8 {
        let z = bits & 8 != 0;
        let n = bits & 4 != 0;
        let h = bits & 2 != 0;
        let c = bits & 1 != 0;
        cpu_set_flags(&mut ctx, Some(z), Some(n), Some(h), Some(c));
        assert_eq!(ctx.regs.f, bits << 4);
    }
}

#[test]
fn setting_a_flag_twice_is_setting_it_once() {
    for start in [0x00u8, 0x10, 0x50, 0xA0, 0xF0] {
        let mut once = CpuContext::new();
        once.regs.f = start;
        cpu_set_flags(&mut once, Some(true), None, None, None);
        let mut twice = once;
        cpu_set_flags(&mut twice, Some(true), None, None, None);
        assert_eq!(once.regs.f, twice.regs.f);
        assert_eq!(once.regs.f, start | 0x80);
    }
}

#[test]
fn any_update_twice_is_that_update_once() {
    let choices = [None, Some(false), Some(true)];
    for start in [0x00u8, 0x30, 0x90, 0xF0] {
        for z in choices {
            for n in choices {
                for h in choices {
                    for c in choices {
                        let mut once = CpuContext::new();
                        once.regs.f = start;
                        cpu_set_flags(&mut once, z, n, h, c);
                        let mut twice = once;
                        cpu_set_flags(&mut twice, z, n, h, c);
                        assert_eq!(once, twice);
                    }
                }
            }
        }
    }
}

#[test]
fn an_update_without_flags_changes_nothing() {
    for start in [0x00u8, 0x10, 0x80, 0xF0, 0xA0] {
        let mut ctx = CpuContext::new();
        ctx.regs.f = start;
        let before = ctx;
        cpu_set_flags(&mut ctx, None, None, None, None);
        assert_eq!(ctx, before);
    }
}

#[test]
fn a_flag_update_changes_only_f() {
    let mut ctx = CpuContext::new();
    ctx.regs.a = 0x42;
    ctx.regs.pc = 0x1234;
    let before = ctx;
    cpu_set_flags(&mut ctx, Some(true), Some(false), Some(true), Some(false));
    let mut expected = before;
    expected.regs.f = 0xA0;
    assert_eq!(ctx, expected);
}

#[test]
fn branch_conditions() {
    let mut ctx = CpuContext::new();
    let conds = [CondType::CT_NONE, CondType::CT_NZ, CondType::CT_Z, CondType::CT_NC, CondType::CT_C];
    // (flags, expected for NONE, NZ, Z, NC, C)
    let cases: [(u8, [bool; 5]); 4] = [
        (0x00, [true, true, false, true, false]),
        (0x80, [true, false, true, true, false]),
        (0x10, [true, true, false, false, true]),
        (0x90, [true, false, true, false, true]),
    ];
    for (f, expected) in cases {
        ctx.regs.f = f;
        for (i, cond) in conds.iter().enumerate() {
            ctx.cur_inst.cond = *cond;
            assert_eq!(check_cond(&ctx), expected[i]);
        }
    }
}

#[test]
fn interrupt_enable_register_accessors() {
    let mut ctx = CpuContext::new();
    assert_eq!(cpu_get_ie_register(&ctx), 0);
    let before = ctx;
    cpu_set_ie_register(&mut ctx, 0x1F);
    assert_eq!(cpu_get_ie_register(&ctx), 0x1F);
    let mut expected = before;
    expected.ie_register = 0x1F;
    assert_eq!(ctx, expected);
}
