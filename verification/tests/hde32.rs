use hde::hde32::{
    hde32_disasm, hde32s, F_2IMM16, F_DISP16, F_DISP32, F_DISP8, F_ERROR, F_ERROR_LENGTH,
    F_ERROR_LOCK, F_ERROR_OPCODE, F_ERROR_OPERAND, F_IMM16, F_IMM32, F_IMM8, F_MODRM,
    F_PREFIX_66, F_PREFIX_67, F_PREFIX_ANY, F_PREFIX_LOCK, F_PREFIX_REP, F_PREFIX_REPNZ,
    F_PREFIX_REPX, F_PREFIX_SEG, F_RELATIVE, F_SIB, PREFIX_ADDRESS_SIZE, PREFIX_SEGMENT_FS,
};

fn bytes(text_hex: &str) -> Vec<u8> {
    text_hex
        .split_whitespace()
        .map(|byte_str| u8::from_str_radix(byte_str, 16).unwrap())
        .collect()
}

fn decode(text_hex: &str) -> hde32s {
    let codes = bytes(text_hex);
    let mut hs = hde32s::new();
    let len = hde32_disasm(&codes, &mut hs);
    assert_eq!(len, hs.len as u32);
    hs
}

fn decode_all(codes: &[u8]) -> Vec<hde32s> {
    let mut results = Vec::new();
    let mut offset = 0;
    while offset < codes.len() {
        let mut hs = hde32s::new();
        hde32_disasm(&codes[offset..], &mut hs);
        offset += hs.len as usize;
        results.push(hs);
    }
    assert_eq!(offset, codes.len());
    results
}

fn noise(seed: u32, n: usize) -> Vec<u8> {
    let mut state = seed;
    let mut out = Vec::new();
    for _ in 0..n {
        state = state.wrapping_mul(1664525).wrapping_add(1013904223);
        out.push((state >> 24) as u8);
    }
    out
}

#[test]
fn protected_function_prologue() {
    let insns = [
        "55",
        "8B EC",
        "83 EC 10",
        "53",
        "8B 5D 08",
        "C7 45 FC 00 00 00 00",
        "A1 78 56 34 12",
        "FF 15 78 56 34 12",
        "85 C0",
        "0F 84 10 00 00 00",
        "68 78 56 34 12",
        "E8 00 01 00 00",
        "8D 44 88 04",
        "64 A1 00 00 00 00",
        "C9",
        "C2 08 00",
    ];
    let mut codes = Vec::new();
    for text in insns.iter() {
        codes.extend_from_slice(&bytes(text));
    }
    let results = decode_all(&codes);
    assert_eq!(results.len(), insns.len());
    for (hs, text) in results.iter().zip(insns.iter()) {
        assert_eq!(hs.len as usize, bytes(text).len(), "{}", text);
        assert_eq!(*hs, decode(text));
        assert_eq!(hs.flags & F_ERROR, 0, "{}", text);
    }
    assert_eq!(results[13].p_seg, PREFIX_SEGMENT_FS);
    assert_eq!(results[13].flags, F_IMM32 | F_PREFIX_SEG);
}

#[test]
fn protected_short_jump_into_the_stream() {
    let results = decode_all(&bytes("EB 78 56 34 12"));
    let lens: Vec<u8> = results.iter().map(|hs| hs.len).collect();
    assert_eq!(lens, vec![2, 1, 2]);
    assert_eq!(results[0].flags, F_IMM8 | F_RELATIVE);
    assert_eq!(results[0].imm.imm8(), 0x78);
}

#[test]
fn protected_length_is_between_one_and_fifteen() {
    for a in 0..=255u8 {
        for b in 0..=255u8 {
            let mut codes = vec![a, b];
            codes.extend_from_slice(&noise(a as u32 * 256 + b as u32, 18));
            let mut hs = hde32s::new();
            let len = hde32_disasm(&codes, &mut hs);
            assert!(1 <= len && len <= 15, "{:02x} {:02x}: {}", a, b, len);
            assert_eq!(len, hs.len as u32);
        }
    }
}

#[test]
fn protected_same_bytes_same_record() {
    let codes = noise(11, 64);
    let mut shifted = vec![0x90, 0x90, 0x90];
    shifted.extend_from_slice(&codes);
    for offset in 0..codes.len() {
        let mut first = hde32s::new();
        let mut again = hde32s::new();
        let mut moved = hde32s::new();
        hde32_disasm(&codes[offset..], &mut first);
        hde32_disasm(&codes[offset..], &mut again);
        hde32_disasm(&shifted[offset + 3..], &mut moved);
        assert_eq!(first, again);
        assert_eq!(first, moved);
    }
}

#[test]
fn protected_walk_covers_any_buffer() {
    for seed in 0..200u32 {
        let codes = noise(seed, 300);
        let results = decode_all(&codes);
        let total: usize = results.iter().map(|hs| hs.len as usize).sum();
        assert_eq!(total, codes.len());
        for hs in &results {
            assert!(1 <= hs.len && hs.len <= 15);
        }
    }
}

#[test]
fn protected_flags_agree_with_fields() {
    for a in 0..=255u8 {
        for b in 0..=255u8 {
            for seed in 0..4u32 {
                let mut codes = vec![a, b];
                codes.extend_from_slice(&noise(seed * 65536 + a as u32 * 256 + b as u32, 18));
                let mut hs = hde32s::new();
                hde32_disasm(&codes, &mut hs);
                let far = hs.opcode == 0x9a || hs.opcode == 0xea;
                let two = far || hs.opcode == 0xc8;
                if hs.flags & F_MODRM == 0 {
                    assert_eq!((hs.modrm, hs.modrm_mod, hs.modrm_reg, hs.modrm_rm), (0, 0, 0, 0));
                }
                if hs.flags & F_SIB == 0 {
                    assert_eq!((hs.sib, hs.sib_scale, hs.sib_index, hs.sib_base), (0, 0, 0, 0));
                } else {
                    assert_ne!(hs.flags & F_MODRM, 0);
                }
                let disp = [F_DISP8, F_DISP16, F_DISP32];
                let set = disp.iter().filter(|f| hs.flags & **f != 0).count();
                assert!(set <= 1);
                if set == 0 && !far {
                    assert_eq!(hs.disp.disp32(), 0);
                }
                let imm = [F_IMM8, F_IMM16, F_IMM32];
                let set = imm.iter().filter(|f| hs.flags & **f != 0).count();
                if set == 0 {
                    assert_eq!(hs.imm.imm32(), 0);
                }
                if !two {
                    assert!(set <= 1);
                    assert_eq!(hs.flags & F_2IMM16, 0);
                }
                let any = F_ERROR_OPCODE | F_ERROR_LENGTH | F_ERROR_LOCK | F_ERROR_OPERAND;
                assert_eq!(hs.flags & F_ERROR != 0, hs.flags & any != 0);
            }
        }
    }
}

#[test]
fn protected_records_are_well_formed() {
    for a in 0..=255u8 {
        for b in 0..=255u8 {
            for seed in 0..4u32 {
                let mut codes = vec![a, b];
                codes.extend_from_slice(&noise(seed * 65536 + a as u32 * 256 + b as u32, 18));
                let mut hs = hde32s::new();
                hde32_disasm(&codes[..(18 - 5 * seed as usize)], &mut hs);
                let has = |mask: u32| hs.flags & mask != 0;
                assert!(hs.len <= 15);
                assert!(hs.len >= 1 || has(F_ERROR_LENGTH));
                assert_eq!(hs.flags & !0x3f01f9ff, 0);
                assert!([0, 0xf2, 0xf3].contains(&hs.p_rep));
                assert!([0, 0xf0].contains(&hs.p_lock));
                assert!([0, 0x26, 0x2e, 0x36, 0x3e, 0x64, 0x65].contains(&hs.p_seg));
                assert!([0, 0x66].contains(&hs.p_66));
                assert!([0, 0x67].contains(&hs.p_67));
                assert_eq!(has(F_PREFIX_REP), hs.p_rep != 0);
                assert_eq!(has(F_PREFIX_LOCK), hs.p_lock != 0);
                assert_eq!(has(F_PREFIX_SEG), hs.p_seg != 0);
                assert_eq!(has(F_PREFIX_66), hs.p_66 != 0);
                assert_eq!(has(F_PREFIX_67), hs.p_67 != 0);
                assert!(hs.opcode2 == 0 || hs.opcode == 0x0f);
                assert_eq!(hs.modrm_mod, hs.modrm >> 6);
                assert_eq!(hs.modrm_reg, (hs.modrm >> 3) & 7);
                assert_eq!(hs.modrm_rm, hs.modrm & 7);
                assert_eq!(hs.sib_scale, hs.sib >> 6);
                assert_eq!(hs.sib_index, (hs.sib >> 3) & 7);
                assert_eq!(hs.sib_base, hs.sib & 7);
                assert!(has(F_MODRM) || hs.modrm == 0);
                assert!(has(F_SIB) || hs.sib == 0);
                assert!(!has(F_SIB) || (has(F_MODRM) && hs.modrm_mod != 3 && hs.modrm_rm == 4));
                assert!(!has(F_SIB) || !has(F_PREFIX_67));
                assert!(!has(F_DISP8) || (has(F_MODRM) && hs.disp.disp32() < 0x100));
                assert!(!has(F_DISP16) || (has(F_MODRM) && hs.disp.disp32() < 0x1_0000));
                assert!(!has(F_DISP16) || has(F_PREFIX_67));
                assert!(!has(F_DISP32) || (has(F_MODRM) && !has(F_PREFIX_67)));
                let far = has(F_2IMM16) || (has(F_IMM16) && has(F_IMM32));
                assert_eq!(far, hs.opcode == 0x9a || hs.opcode == 0xea);
                assert!(!far || (!has(F_MODRM) && hs.disp.disp32() < 0x1_0000));
                assert!(!has(F_2IMM16) || (has(F_IMM16) && !has(F_IMM32)));
                assert_eq!(has(F_IMM8) && has(F_IMM16), hs.opcode == 0xc8);
                assert!(!has(F_IMM8) || has(F_IMM16) || hs.imm.imm32() < 0x100);
                assert!(!has(F_IMM16) || has(F_IMM32) || hs.imm.imm32() < 0x1_0000);
                assert!(!has(F_IMM32) || !has(F_IMM8));
                assert!(!has(F_RELATIVE) || has(F_IMM8 | F_IMM16 | F_IMM32));
            }
        }
    }
}

#[test]
fn protected_no_rex() {
    // inc eax; dec eax
    let results = decode_all(&bytes("40 48 89 C8"));
    let lens: Vec<u8> = results.iter().map(|hs| hs.len).collect();
    assert_eq!(lens, vec![1, 1, 2]);
    assert_eq!(results[0].opcode, 0x40);
    assert_eq!(results[0].flags, 0);
    assert_eq!(results[1].opcode, 0x48);
}

#[test]
fn protected_opcodes_that_long_mode_lacks() {
    for text in ["06", "07", "0E", "16", "17", "1E", "1F", "27", "2F", "37", "3F", "60", "61"] {
        let hs = decode(text);
        assert_eq!((hs.len, hs.flags), (1, 0), "{}", text);
    }
    let hs = decode("D4 0A");
    assert_eq!((hs.len, hs.flags), (2, F_IMM8));
    let hs = decode("C5 00");
    assert_eq!((hs.len, hs.flags), (2, F_MODRM));
    let hs = decode("62 00");
    assert_eq!((hs.len, hs.flags), (2, F_MODRM));
    let hs = decode("62 C0");
    assert_eq!((hs.len, hs.flags), (2, F_MODRM | F_ERROR | F_ERROR_OPERAND));
    let hs = decode("82 C0 01");
    assert_eq!((hs.len, hs.flags), (3, F_MODRM | F_IMM8));
    let hs = decode("9E");
    assert_eq!((hs.len, hs.flags), (1, 0));
}

#[test]
fn protected_sixteen_bit_addressing() {
    // mov eax, [bp + 8]
    let hs = decode("67 8B 46 08");
    assert_eq!((hs.len, hs.flags), (4, F_MODRM | F_DISP8 | F_PREFIX_67));
    assert_eq!(hs.p_67, PREFIX_ADDRESS_SIZE);
    // mov eax, [0x1234]
    let hs = decode("67 8B 06 34 12");
    assert_eq!((hs.len, hs.flags), (5, F_MODRM | F_DISP16 | F_PREFIX_67));
    assert_eq!(hs.disp.disp16(), 0x1234);
    // mov eax, [si]: r/m 4 asks for no SIB byte
    let hs = decode("67 8B 04");
    assert_eq!((hs.len, hs.flags), (3, F_MODRM | F_PREFIX_67));
    // mov eax, [di]: r/m 5 asks for no displacement
    let hs = decode("67 8B 05");
    assert_eq!((hs.len, hs.flags), (3, F_MODRM | F_PREFIX_67));
    // mov eax, [bx + si + 0x1234]
    let hs = decode("67 8B 80 34 12");
    assert_eq!((hs.len, hs.flags), (5, F_MODRM | F_DISP16 | F_PREFIX_67));
    // mov eax, [si + 0x1234]
    let hs = decode("67 8B 84 34 12");
    assert_eq!((hs.len, hs.flags), (5, F_MODRM | F_DISP16 | F_PREFIX_67));
    // mov eax, ecx
    let hs = decode("67 8B C1");
    assert_eq!((hs.len, hs.flags), (3, F_MODRM | F_PREFIX_67));
}

#[test]
fn protected_addressing_forms() {
    let hs = decode("8B 00");
    assert_eq!((hs.len, hs.flags), (2, F_MODRM));
    let hs = decode("8B 45 08");
    assert_eq!((hs.len, hs.flags), (3, F_MODRM | F_DISP8));
    let hs = decode("8B 05 78 56 34 12");
    assert_eq!((hs.len, hs.flags), (6, F_MODRM | F_DISP32));
    assert_eq!(hs.disp.disp32(), 0x12345678);
    let hs = decode("8B 06");
    assert_eq!((hs.len, hs.flags), (2, F_MODRM));
    let hs = decode("8B 04 24");
    assert_eq!((hs.len, hs.flags), (3, F_MODRM | F_SIB));
    let hs = decode("8B 84 8D 78 56 34 12");
    assert_eq!((hs.len, hs.flags), (7, F_MODRM | F_SIB | F_DISP32));
    assert_eq!((hs.sib, hs.sib_scale, hs.sib_index, hs.sib_base), (0x8d, 2, 1, 5));
    let hs = decode("8B 04 8D 78 56 34 12");
    assert_eq!((hs.len, hs.flags), (7, F_MODRM | F_SIB | F_DISP32));
    let hs = decode("8B 44 8D 08");
    assert_eq!((hs.len, hs.flags), (4, F_MODRM | F_SIB | F_DISP8));
    assert_eq!(hs.disp.disp8(), 8);
}

#[test]
fn protected_far_pointer() {
    // call 0xabcd:0x12345678
    let hs = decode("9A 78 56 34 12 CD AB");
    assert_eq!((hs.len, hs.flags), (7, F_IMM32 | F_IMM16));
    assert_eq!(hs.imm.imm32(), 0x12345678);
    assert_eq!(hs.disp.disp16(), 0xabcd);
    // jmp 0xabcd:0x1234
    let hs = decode("66 EA 34 12 CD AB");
    assert_eq!((hs.len, hs.flags), (6, F_IMM16 | F_2IMM16 | F_PREFIX_66));
    assert_eq!(hs.imm.imm16(), 0x1234);
    assert_eq!(hs.imm.imm32(), 0x1234);
    assert_eq!(hs.disp.disp16(), 0xabcd);
    assert_eq!(hs.disp.disp32(), 0xabcd);
}

#[test]
fn protected_enter() {
    let hs = decode("C8 34 12 56");
    assert_eq!((hs.len, hs.flags), (4, F_IMM16 | F_IMM8));
    assert_eq!(hs.imm.imm8(), 0x56);
    assert_eq!(hs.imm.imm16(), 0x1256);
    assert_eq!(hs.disp.disp32(), 0);
}

#[test]
fn protected_memory_offset() {
    let hs = decode("A1 78 56 34 12");
    assert_eq!((hs.len, hs.flags), (5, F_IMM32));
    assert_eq!(hs.imm.imm32(), 0x12345678);
    let hs = decode("67 A1 34 12");
    assert_eq!((hs.len, hs.flags), (4, F_IMM16 | F_PREFIX_67));
    assert_eq!(hs.imm.imm16(), 0x1234);
    let hs = decode("66 A1 78 56 34 12");
    assert_eq!((hs.len, hs.flags), (6, F_IMM32 | F_PREFIX_66));
    let hs = decode("66 67 A3 34 12");
    assert_eq!((hs.len, hs.flags), (5, F_IMM16 | F_PREFIX_66 | F_PREFIX_67));
}

#[test]
fn protected_immediates() {
    let hs = decode("B8 78 56 34 12");
    assert_eq!((hs.len, hs.flags), (5, F_IMM32));
    let hs = decode("66 B8 34 12");
    assert_eq!((hs.len, hs.flags), (4, F_IMM16 | F_PREFIX_66));
    let hs = decode("B0 12");
    assert_eq!((hs.len, hs.flags), (2, F_IMM8));
    let hs = decode("81 C1 78 56 34 12");
    assert_eq!((hs.len, hs.flags), (6, F_MODRM | F_IMM32));
    let hs = decode("69 C1 78 56 34 12");
    assert_eq!((hs.len, hs.flags), (6, F_MODRM | F_IMM32));
    let hs = decode("6B C1 12");
    assert_eq!((hs.len, hs.flags), (3, F_MODRM | F_IMM8));
    let hs = decode("F6 C0 01");
    assert_eq!((hs.len, hs.flags), (3, F_MODRM | F_IMM8));
    let hs = decode("F7 D0");
    assert_eq!((hs.len, hs.flags), (2, F_MODRM));
    let hs = decode("66 E9 10 00");
    assert_eq!((hs.len, hs.flags), (4, F_IMM16 | F_RELATIVE | F_PREFIX_66));
    let hs = decode("CD 80");
    assert_eq!((hs.len, hs.flags), (2, F_IMM8));
}

#[test]
fn protected_prefixes() {
    let hs = decode("F3 A5");
    assert_eq!((hs.len, hs.flags), (2, F_PREFIX_REPX));
    assert_eq!(hs.p_rep, 0xf3);
    let hs = decode("F2 F3 AE");
    assert_eq!((hs.len, hs.flags), (3, F_PREFIX_REP));
    assert_eq!(F_PREFIX_REP, F_PREFIX_REPNZ | F_PREFIX_REPX);
    let hs = decode("2E 36 3E 26 64 65 90");
    assert_eq!((hs.len, hs.flags), (7, F_PREFIX_SEG));
    assert_eq!(hs.p_seg, 0x65);
    let hs = decode("F0 66 67 01 08");
    assert_eq!(hs.flags, F_MODRM | F_PREFIX_LOCK | F_PREFIX_66 | F_PREFIX_67);
    assert_eq!(hs.flags & F_PREFIX_ANY, hs.flags & !F_MODRM);
}

#[test]
fn protected_errors() {
    let hs = decode("0F 38 00");
    assert_eq!((hs.len, hs.flags), (2, F_ERROR | F_ERROR_OPCODE));
    let hs = decode("F0 90");
    assert_eq!((hs.len, hs.flags), (2, F_PREFIX_LOCK | F_ERROR | F_ERROR_LOCK));
    let hs = decode("F0 0F C7 08");
    assert_eq!((hs.len, hs.flags), (4, F_MODRM | F_PREFIX_LOCK));
    let hs = decode("8D C0");
    assert_eq!((hs.len, hs.flags), (2, F_MODRM | F_ERROR | F_ERROR_OPERAND));
    let hs = decode("C4 C0");
    assert_eq!((hs.len, hs.flags), (2, F_MODRM | F_ERROR | F_ERROR_OPERAND));
    let hs = decode("E8 01 02");
    assert_eq!((hs.len, hs.flags), (3, F_IMM32 | F_RELATIVE | F_ERROR | F_ERROR_LENGTH));
    let mut hs = decode("90");
    let len = hde32_disasm(&[], &mut hs);
    assert_eq!(len, 0);
    assert_eq!(hs.flags, F_MODRM | F_ERROR | F_ERROR_LENGTH);
    let hs = decode("66 66 66 66 66 66 66 66 66 66 66 66 66 B8 34 12");
    assert_eq!((hs.len, hs.flags), (15, F_IMM16 | F_PREFIX_66 | F_ERROR | F_ERROR_LENGTH));
}

#[test]
fn protected_flag_test_and_new() {
    let hs = hde32s::new();
    assert_eq!((hs.len, hs.flags, hs.opcode), (0, 0, 0));
    assert_eq!(hs.imm.imm32(), 0);
    assert_eq!(hs.disp.disp32(), 0);
    let hs = decode("F0 01 C0");
    assert!(hs.has_flag(F_ERROR | F_SIB));
    assert!(!hs.has_flag(F_SIB));
}
