use hde::bytes::{
    read_byte, read_dword, read_qword, read_value, read_word, window_len, MAX_INSTRUCTION_LEN,
};
use hde::decode::{
    decode_instruction, flag_if, read_addressing, read_immediate, read_one_immediate, read_opcode,
    size_displacement,
};
use hde::opcode::{
    is_group_undefined, is_lock_allowed, is_memory_only, is_operand_rejected, is_prefix_excluded,
    is_register_only, is_special_register_move, is_x87_undefined, lookup_rule, mask_holds,
    prefix_situation, rule_has_modrm, Rule, ESCAPE, ONE_BYTE_LONG, ONE_BYTE_PROTECTED,
    PLAIN_OR_OPERAND_SIZE, TWO_BYTE, WITHOUT_PREFIX, WITH_OPERAND_SIZE, WITH_REPEAT, WITH_REPNZ,
    WITH_REPX,
};
use hde::prefix::{
    is_legacy_prefix, is_prefix_byte, is_rex_byte, is_segment_override, scan_prefixes, Mode,
    Prefixes,
};

const NO_PREFIX: Prefixes = Prefixes {
    len: 0,
    rep: 0,
    lock: 0,
    seg: 0,
    opsize: 0,
    addrsize: 0,
    repnz: false,
    repx: false,
    rex: 0,
};

#[test]
fn reads_stay_in_the_window() {
    let code: Vec<u8> = (1..=20).collect();
    assert_eq!(MAX_INSTRUCTION_LEN, 15);
    assert_eq!(window_len(&code), 15);
    assert_eq!(window_len(&code[..4]), 4);
    assert_eq!(window_len(&[]), 0);
    assert_eq!(read_byte(&code, 0), 1);
    assert_eq!(read_byte(&code, 14), 15);
    assert_eq!(read_byte(&code, 15), 0);
    assert_eq!(read_byte(&code, 19), 0);
    assert_eq!(read_byte(&code[..4], 3), 4);
    assert_eq!(read_byte(&code[..4], 4), 0);
    assert_eq!(read_byte(&[], 0), 0);
}

#[test]
fn reads_are_little_endian() {
    let code = [0x11, 0x22, 0x33, 0x44, 0x55, 0x66, 0x77, 0x88, 0x99];
    assert_eq!(read_word(&code, 0), 0x2211);
    assert_eq!(read_word(&code, 1), 0x3322);
    assert_eq!(read_dword(&code, 0), 0x44332211);
    assert_eq!(read_dword(&code, 5), 0x99887766);
    assert_eq!(read_qword(&code, 0), 0x8877665544332211);
    assert_eq!(read_qword(&code, 1), 0x9988776655443322);
    // what is missing counts as zero
    assert_eq!(read_word(&code, 8), 0x0099);
    assert_eq!(read_dword(&code, 7), 0x00009988);
    assert_eq!(read_qword(&code, 4), 0x0000009988776655);
    assert_eq!(read_dword(&code, 9), 0);
    assert_eq!(read_value(&code, 2, 1), 0x33);
    assert_eq!(read_value(&code, 2, 2), 0x4433);
    assert_eq!(read_value(&code, 2, 4), 0x66554433);
    assert_eq!(read_value(&code, 0, 8), 0x8877665544332211);
    assert_eq!(read_value(&code, 0, 0), 0);
    assert_eq!(read_value(&code, 0, 3), 0);
    let long: Vec<u8> = (1..=20).collect();
    assert_eq!(read_dword(&long, 13), 0x00000f0e);
    assert_eq!(read_word(&long, usize::MAX), 0);
    assert_eq!(read_dword(&long, usize::MAX - 1), 0);
    assert_eq!(read_qword(&long, usize::MAX), 0);
    assert_eq!(read_value(&long, usize::MAX, 8), 0);
}

#[test]
fn prefix_bytes() {
    let mut legacy = 0;
    let mut segment = 0;
    let mut rex = 0;
    for b in 0..=255u8 {
        if is_legacy_prefix(b) {
            legacy += 1;
            assert!(is_prefix_byte(Mode::Protected, b));
            assert!(is_prefix_byte(Mode::Long, b));
        }
        if is_segment_override(b) {
            segment += 1;
            assert!(is_legacy_prefix(b));
        }
        if is_rex_byte(b) {
            rex += 1;
            assert_eq!(b & 0xf0, 0x40);
            assert!(!is_legacy_prefix(b));
            assert!(is_prefix_byte(Mode::Long, b));
            assert!(!is_prefix_byte(Mode::Protected, b));
        }
    }
    assert_eq!((legacy, segment, rex), (11, 6, 16));
    for b in [0xf0, 0xf2, 0xf3, 0x66, 0x67, 0x26, 0x2e, 0x36, 0x3e, 0x64, 0x65] {
        assert!(is_legacy_prefix(b));
    }
}

#[test]
fn prefix_scan() {
    let p = scan_prefixes(&[0x90], Mode::Long);
    assert_eq!(p, NO_PREFIX);
    let p = scan_prefixes(&[], Mode::Long);
    assert_eq!(p, NO_PREFIX);
    let p = scan_prefixes(&[0xf3, 0x2e, 0x66, 0x48, 0x0f, 0x10], Mode::Long);
    assert_eq!(
        p,
        Prefixes {
            len: 4,
            rep: 0xf3,
            lock: 0,
            seg: 0x2e,
            opsize: 0x66,
            addrsize: 0,
            repnz: false,
            repx: true,
            rex: 0x48,
        }
    );
    let p = scan_prefixes(&[0xf3, 0x2e, 0x66, 0x48, 0x0f, 0x10], Mode::Protected);
    assert_eq!((p.len, p.rex, p.opsize), (3, 0, 0x66));
    let p = scan_prefixes(&[0x48, 0xf0, 0x90], Mode::Long);
    assert_eq!((p.len, p.rex, p.lock), (2, 0, 0xf0));
    let p = scan_prefixes(&[0x41, 0x42, 0x90], Mode::Long);
    assert_eq!((p.len, p.rex), (2, 0x42));
    let p = scan_prefixes(&[0xf2, 0xf3, 0xf2, 0x67, 0x90], Mode::Protected);
    assert_eq!((p.len, p.rep, p.repnz, p.repx, p.addrsize), (4, 0xf2, true, true, 0x67));
    let p = scan_prefixes(&[0x66; 40], Mode::Long);
    assert_eq!((p.len, p.opsize), (15, 0x66));
    let p = scan_prefixes(&[0x66; 3], Mode::Long);
    assert_eq!(p.len, 3);
}

#[test]
fn prefix_situations() {
    assert_eq!(prefix_situation(&NO_PREFIX), WITHOUT_PREFIX);
    let rex = Prefixes { len: 1, rex: 0x48, ..NO_PREFIX };
    assert_eq!(prefix_situation(&rex), WITHOUT_PREFIX);
    let p = scan_prefixes(&[0x66, 0x90], Mode::Long);
    assert_eq!(prefix_situation(&p), WITH_OPERAND_SIZE);
    let p = scan_prefixes(&[0xf2, 0xf3, 0x66, 0x90], Mode::Long);
    assert_eq!(prefix_situation(&p), WITH_REPNZ | WITH_REPX | WITH_OPERAND_SIZE);
    let p = scan_prefixes(&[0x67, 0x90], Mode::Long);
    assert_eq!(prefix_situation(&p), 0);
    let p = scan_prefixes(&[0xf0, 0x2e, 0x90], Mode::Long);
    assert_eq!(prefix_situation(&p), 0);
    assert_eq!(PLAIN_OR_OPERAND_SIZE, WITHOUT_PREFIX | WITH_OPERAND_SIZE);
    assert_eq!(WITH_REPEAT, WITH_REPNZ | WITH_REPX);
}

#[test]
fn masks_count_from_the_top() {
    assert!(mask_holds(0x80, 0));
    assert!(mask_holds(0x01, 7));
    assert!(!mask_holds(0x80, 1));
    assert!(!mask_holds(0x7f, 0));
    for i in 0..8u8 {
        assert!(mask_holds(0xff, i));
        assert!(!mask_holds(0x00, i));
        assert_eq!(mask_holds(0x33, i), [2, 3, 6, 7].contains(&i));
    }
}

#[test]
fn rules_come_from_the_tables() {
    for op in 0..=255u8 {
        assert_eq!(lookup_rule(Mode::Long, false, op), ONE_BYTE_LONG[op as usize]);
        assert_eq!(lookup_rule(Mode::Protected, false, op), ONE_BYTE_PROTECTED[op as usize]);
        assert_eq!(lookup_rule(Mode::Long, true, op), TWO_BYTE[op as usize]);
        assert_eq!(lookup_rule(Mode::Protected, true, op), TWO_BYTE[op as usize]);
    }
    assert_eq!(ESCAPE, 0x0f);
    assert_eq!(lookup_rule(Mode::Long, false, 0x00), Rule::ModRm);
    assert_eq!(lookup_rule(Mode::Long, false, 0x04), Rule::Ib);
    assert_eq!(lookup_rule(Mode::Long, false, 0x05), Rule::Iz);
    assert_eq!(lookup_rule(Mode::Long, false, 0x06), Rule::Undefined);
    assert_eq!(lookup_rule(Mode::Protected, false, 0x06), Rule::Bare);
    assert_eq!(lookup_rule(Mode::Long, false, 0x63), Rule::ModRm);
    assert_eq!(lookup_rule(Mode::Long, false, 0x69), Rule::ModRmIz);
    assert_eq!(lookup_rule(Mode::Long, false, 0x6b), Rule::ModRmIb);
    assert_eq!(lookup_rule(Mode::Long, false, 0x70), Rule::Jb);
    assert_eq!(lookup_rule(Mode::Long, false, 0x9a), Rule::Undefined);
    assert_eq!(lookup_rule(Mode::Protected, false, 0x9a), Rule::Far);
    assert_eq!(lookup_rule(Mode::Protected, false, 0xea), Rule::Far);
    assert_eq!(lookup_rule(Mode::Long, false, 0xa0), Rule::Moffs);
    assert_eq!(lookup_rule(Mode::Long, false, 0xb0), Rule::Ib);
    assert_eq!(lookup_rule(Mode::Long, false, 0xb8), Rule::Iv);
    assert_eq!(lookup_rule(Mode::Long, false, 0xc2), Rule::Iw);
    assert_eq!(lookup_rule(Mode::Long, false, 0xc3), Rule::Bare);
    assert_eq!(lookup_rule(Mode::Long, false, 0xc8), Rule::IwIb);
    assert_eq!(lookup_rule(Mode::Long, false, 0xe8), Rule::Jz);
    assert_eq!(lookup_rule(Mode::Long, false, 0xf6), Rule::UnaryIb);
    assert_eq!(lookup_rule(Mode::Long, false, 0xf7), Rule::UnaryIz);
    assert_eq!(lookup_rule(Mode::Long, true, 0x05), Rule::Bare);
    assert_eq!(lookup_rule(Mode::Long, true, 0x1f), Rule::ModRm);
    assert_eq!(lookup_rule(Mode::Long, true, 0x38), Rule::Undefined);
    assert_eq!(lookup_rule(Mode::Long, true, 0x80), Rule::Jz);
    assert_eq!(lookup_rule(Mode::Long, true, 0xa4), Rule::ModRmIb);
    assert_eq!(lookup_rule(Mode::Long, true, 0xc8), Rule::Bare);
    let with_modrm = [Rule::ModRm, Rule::ModRmIb, Rule::ModRmIz, Rule::UnaryIb, Rule::UnaryIz];
    let without = [
        Rule::Undefined,
        Rule::Bare,
        Rule::Ib,
        Rule::Iw,
        Rule::Iz,
        Rule::Iv,
        Rule::Moffs,
        Rule::IwIb,
        Rule::Far,
        Rule::Jb,
        Rule::Jz,
    ];
    for rule in with_modrm {
        assert!(rule_has_modrm(rule));
    }
    for rule in without {
        assert!(!rule_has_modrm(rule));
    }
}

#[test]
fn modes_differ_where_long_mode_dropped_opcodes() {
    let dropped = [
        0x06, 0x07, 0x0e, 0x16, 0x17, 0x1e, 0x1f, 0x27, 0x2f, 0x37, 0x3f, 0x60, 0x61, 0x62, 0x82,
        0x9a, 0x9e, 0x9f, 0xc4, 0xc5, 0xce, 0xd4, 0xd5, 0xd6, 0xea,
    ];
    for op in 0..=255u8 {
        let long = lookup_rule(Mode::Long, false, op);
        let protected = lookup_rule(Mode::Protected, false, op);
        if dropped.contains(&op) {
            assert_eq!(long, Rule::Undefined, "{:02x}", op);
            assert_ne!(protected, Rule::Undefined, "{:02x}", op);
        } else {
            assert_eq!(long, protected, "{:02x}", op);
        }
    }
}

#[test]
fn sparse_tables() {
    assert!(is_prefix_excluded(0x77, WITH_OPERAND_SIZE));
    assert!(!is_prefix_excluded(0x77, WITHOUT_PREFIX));
    assert!(is_prefix_excluded(0xb8, WITHOUT_PREFIX));
    assert!(!is_prefix_excluded(0xb8, WITH_REPX));
    assert!(!is_prefix_excluded(0x10, WITH_REPNZ | WITH_REPX | WITH_OPERAND_SIZE));
    assert!(is_group_undefined(false, 0xff, 7));
    assert!(!is_group_undefined(false, 0xff, 6));
    assert!(!is_group_undefined(true, 0xff, 7));
    assert!(is_group_undefined(true, 0x73, 0));
    assert!(!is_group_undefined(true, 0x73, 3));
    assert!(!is_group_undefined(false, 0x73, 0));
    assert!(is_x87_undefined(0xd9, 3, 2, 1));
    assert!(!is_x87_undefined(0xd9, 3, 2, 0));
    assert!(is_x87_undefined(0xdd, 0, 5, 0));
    assert!(!is_x87_undefined(0xd8, 3, 7, 7));
    assert!(!is_x87_undefined(0x90, 3, 2, 1));
    assert!(is_lock_allowed(false, 0x87, 0));
    assert!(!is_lock_allowed(false, 0x85, 0));
    assert!(!is_lock_allowed(true, 0x87, 0));
    assert!(is_lock_allowed(true, 0xb1, 3));
    assert!(is_lock_allowed(false, 0x81, 6));
    assert!(!is_lock_allowed(false, 0x81, 7));
    assert!(is_special_register_move(true, 0x20));
    assert!(is_special_register_move(true, 0x23));
    assert!(!is_special_register_move(true, 0x24));
    assert!(!is_special_register_move(false, 0x20));
    assert!(is_memory_only(false, 0x8d, 0, WITHOUT_PREFIX));
    assert!(is_memory_only(false, 0xff, 3, WITHOUT_PREFIX));
    assert!(!is_memory_only(false, 0xff, 2, WITHOUT_PREFIX));
    assert!(is_memory_only(true, 0x13, 0, WITHOUT_PREFIX));
    assert!(is_memory_only(true, 0x13, 0, WITH_OPERAND_SIZE));
    assert!(!is_memory_only(true, 0x13, 0, WITH_REPX));
    assert!(is_register_only(0xc5, WITHOUT_PREFIX));
    assert!(is_register_only(0xd6, WITH_REPNZ));
    assert!(!is_register_only(0xd6, WITH_OPERAND_SIZE));
    assert!(is_register_only(0x50, WITH_OPERAND_SIZE));
    assert!(!is_register_only(0x50, WITH_REPX));
    assert!(is_operand_rejected(false, 0x8c, 3, 6, WITHOUT_PREFIX));
    assert!(is_operand_rejected(false, 0x8c, 0, 6, WITHOUT_PREFIX));
    assert!(!is_operand_rejected(false, 0x8c, 3, 5, WITHOUT_PREFIX));
    assert!(is_operand_rejected(false, 0x8e, 3, 1, WITHOUT_PREFIX));
    assert!(is_operand_rejected(true, 0x22, 3, 5, WITHOUT_PREFIX));
    assert!(!is_operand_rejected(true, 0x22, 3, 4, WITHOUT_PREFIX));
    assert!(is_operand_rejected(true, 0x21, 3, 4, WITHOUT_PREFIX));
    assert!(is_operand_rejected(false, 0x8d, 3, 0, WITHOUT_PREFIX));
    assert!(!is_operand_rejected(false, 0x8d, 2, 0, WITHOUT_PREFIX));
    assert!(is_operand_rejected(true, 0xc5, 0, 0, WITHOUT_PREFIX));
    assert!(!is_operand_rejected(true, 0xc5, 3, 0, WITHOUT_PREFIX));
}

#[test]
fn displacement_sizes() {
    // mod, rm, direct, narrow, has_sib, base
    assert_eq!(size_displacement(3, 5, true, false, false, 0), 0);
    assert_eq!(size_displacement(0, 0, false, false, false, 0), 0);
    assert_eq!(size_displacement(0, 5, false, false, false, 0), 4);
    assert_eq!(size_displacement(0, 4, false, false, true, 5), 4);
    assert_eq!(size_displacement(0, 4, false, false, true, 4), 0);
    assert_eq!(size_displacement(1, 4, false, false, true, 5), 1);
    assert_eq!(size_displacement(1, 0, false, false, false, 0), 1);
    assert_eq!(size_displacement(2, 0, false, false, false, 0), 4);
    assert_eq!(size_displacement(0, 6, false, true, false, 0), 2);
    assert_eq!(size_displacement(0, 5, false, true, false, 0), 0);
    assert_eq!(size_displacement(1, 6, false, true, false, 0), 1);
    assert_eq!(size_displacement(2, 0, false, true, false, 0), 2);
    assert_eq!(size_displacement(1, 0, true, false, false, 0), 0);
}

#[test]
fn stages_one_by_one() {
    // mov eax, [rbp + rcx*4 + 0x12345678], behind a segment override
    let code = [0x65, 0x8b, 0x84, 0x8d, 0x78, 0x56, 0x34, 0x12, 0x90];
    let p = scan_prefixes(&code, Mode::Long);
    assert_eq!((p.len, p.seg), (1, 0x65));
    let o = read_opcode(&code, Mode::Long, &p);
    assert_eq!((o.first, o.second, o.two_byte, o.code), (0x8b, 0, false, 0x8b));
    assert_eq!((o.rule, o.end), (Rule::ModRm, 2));
    let a = read_addressing(&code, Mode::Long, &p, &o);
    assert!(a.present && a.has_sib);
    assert_eq!((a.modrm, a.modrm_mod, a.modrm_reg, a.modrm_rm), (0x84, 2, 0, 4));
    assert_eq!((a.sib, a.sib_scale, a.sib_index, a.sib_base), (0x8d, 2, 1, 5));
    assert_eq!((a.disp_size, a.disp, a.end), (4, 0x12345678, 8));
    let i = read_immediate(&code, Mode::Long, &p, &o, &a);
    assert!(!i.imm8 && !i.imm16 && !i.imm32 && !i.imm64 && !i.relative && !i.second16);
    assert_eq!((i.value, i.selector, i.end), (0, 0, 8));
    let d = decode_instruction(&code, Mode::Long);
    assert_eq!((d.prefixes, d.opcode, d.addressing, d.immediate), (p, o, a, i));
    assert_eq!((d.needed, d.len), (8, 8));
    assert!(!d.undefined && !d.lock_rejected && !d.operand_rejected && !d.too_long);
}

#[test]
fn opcode_stage() {
    let code = [0x0f, 0x84, 0x10, 0x00, 0x00, 0x00];
    let o = read_opcode(&code, Mode::Long, &NO_PREFIX);
    assert_eq!((o.first, o.second, o.two_byte, o.code), (0x0f, 0x84, true, 0x84));
    assert_eq!((o.rule, o.end), (Rule::Jz, 2));
    let a = read_addressing(&code, Mode::Long, &NO_PREFIX, &o);
    assert!(!a.present);
    assert_eq!(a.end, 2);
    let i = read_immediate(&code, Mode::Long, &NO_PREFIX, &o, &a);
    assert!(i.imm32 && i.relative && !i.imm8 && !i.imm16 && !i.imm64);
    assert_eq!((i.value, i.end), (0x10, 6));
    let o = read_opcode(&[0x0f], Mode::Long, &NO_PREFIX);
    assert_eq!((o.second, o.two_byte, o.rule, o.end), (0, true, Rule::ModRm, 2));
    let o = read_opcode(&[], Mode::Protected, &NO_PREFIX);
    assert_eq!((o.first, o.two_byte, o.rule, o.end), (0, false, Rule::ModRm, 1));
}

#[test]
fn immediate_stage() {
    let code = [0x11, 0x22, 0x33, 0x44, 0x55, 0x66, 0x77, 0x88];
    let i = read_one_immediate(&code, 0, 1, false);
    assert!(i.imm8 && !i.imm16 && !i.imm32 && !i.imm64 && !i.relative);
    assert_eq!((i.value, i.end), (0x11, 1));
    let i = read_one_immediate(&code, 1, 2, true);
    assert!(!i.imm8 && i.imm16 && !i.imm32 && !i.imm64 && i.relative);
    assert_eq!((i.value, i.end), (0x3322, 3));
    let i = read_one_immediate(&code, 2, 4, false);
    assert!(i.imm32);
    assert_eq!((i.value, i.end), (0x66554433, 6));
    let i = read_one_immediate(&code, 0, 8, false);
    assert!(i.imm64);
    assert_eq!((i.value, i.end), (0x8877665544332211, 8));
}

#[test]
fn decoded_instruction_says_what_is_wrong() {
    let d = decode_instruction(&[0xf0, 0x8d, 0xc0], Mode::Protected);
    assert!(d.lock_rejected && d.operand_rejected && !d.undefined && !d.too_long);
    assert_eq!((d.needed, d.len), (3, 3));
    let d = decode_instruction(&[0x0f, 0x38], Mode::Protected);
    assert!(d.undefined && !d.lock_rejected && !d.operand_rejected && !d.too_long);
    let d = decode_instruction(&[0xe8, 0x00], Mode::Protected);
    assert!(d.too_long && !d.undefined);
    assert_eq!((d.needed, d.len), (5, 2));
    let d = decode_instruction(&[0x9a, 1, 2, 3, 4, 5, 6], Mode::Protected);
    assert!(d.immediate.imm32 && d.immediate.imm16 && !d.immediate.second16);
    assert_eq!((d.immediate.value, d.immediate.selector), (0x04030201, 0x0605));
    let d = decode_instruction(&[0x66, 0x9a, 1, 2, 5, 6], Mode::Protected);
    assert!(!d.immediate.imm32 && d.immediate.imm16 && d.immediate.second16);
    assert_eq!((d.immediate.value, d.immediate.selector), (0x0201, 0x0605));
}

#[test]
fn flags_on_and_off() {
    assert_eq!(flag_if(true, 0x40), 0x40);
    assert_eq!(flag_if(false, 0x40), 0);
    assert_eq!(flag_if(true, 0), 0);
}

#[test]
fn default_records_are_zero() {
    assert_eq!(hde::hde64::hde64s::default(), hde::hde64::hde64s::new());
    assert_eq!(hde::hde32::hde32s::default(), hde::hde32::hde32s::new());
    assert_eq!(hde::hde64::hde64s::default().flags, 0);
}
