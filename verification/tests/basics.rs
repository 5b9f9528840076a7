use cpuex2_simulator::cache::{Cache, CacheAccess};
use cpuex2_simulator::decoder::{decode_instruction, instruction_bytes, Instruction};
use cpuex2_simulator::fpu::FloatingPoint;
use cpuex2_simulator::instruction_memory::InstructionMemory;
use cpuex2_simulator::memory::Memory;
use cpuex2_simulator::register::{FloatRegister, IntRegister};
use cpuex2_simulator::sign_extension::{sign_extention_i16, sign_extention_i32};
use cpuex2_simulator::utils::{colorize, decimal_bytes, i32_to_u32, i8_to_u8, u16_to_i16, u32_to_i32, u8_to_i8};

#[test]
fn byte_reinterpretation() {
    assert_eq!(u8_to_i8(0), 0);
    assert_eq!(u8_to_i8(127), 127);
    assert_eq!(u8_to_i8(128), -128);
    assert_eq!(u8_to_i8(255), -1);
    assert_eq!(i8_to_u8(-1), 255);
    assert_eq!(i8_to_u8(-128), 128);
    assert_eq!(i8_to_u8(5), 5);
    assert_eq!(u16_to_i16(0xffff), -1);
    assert_eq!(u16_to_i16(0x8000), -32768);
}

#[test]
fn word_reinterpretation_round_trip() {
    for v in [0u32, 1, 0x7fff_ffff, 0x8000_0000, 0xffff_ffff, 0x1234_5678] {
        assert_eq!(i32_to_u32(u32_to_i32(v)), v);
    }
    for v in [0i32, -1, i32::MIN, i32::MAX, 42] {
        assert_eq!(u32_to_i32(i32_to_u32(v)), v);
    }
    assert_eq!(u32_to_i32(0xffff_fffe), -2);
}

#[test]
fn colorize_wraps_text() {
    assert_eq!(colorize("hello", "31"), "\x1b[31mhello\x1b[0m");
    assert_eq!(colorize("", "34"), "\x1b[34m\x1b[0m");
}

#[test]
fn decimal_text_of_numbers() {
    assert_eq!(decimal_bytes(0), b"0".to_vec());
    assert_eq!(decimal_bytes(1234), b"1234".to_vec());
    assert_eq!(decimal_bytes(-56), b"-56".to_vec());
    assert_eq!(decimal_bytes(i32::MIN as i64), b"-2147483648".to_vec());
}

#[test]
fn sign_extension_of_immediates() {
    assert_eq!(sign_extention_i16(0b0_1111_1111_1111, 13), 4095);
    assert_eq!(sign_extention_i16(0b1_0000_0000_0000, 13), -4096);
    assert_eq!(sign_extention_i16(0b1_1111_1111_1111, 13), -1);
    assert_eq!(sign_extention_i16(0xfff, 12), -1);
    assert_eq!(sign_extention_i16(0x7ff, 12), 2047);
    assert_eq!(sign_extention_i32(0x40000, 19), -262144);
    assert_eq!(sign_extention_i32(0x3ffff, 19), 262143);
    assert_eq!(sign_extention_i32(5, 19), 5);
}

#[test]
fn decode_i_format() {
    // addi x1, x0, 5
    let word = 0x0050_0093u32;
    assert_eq!(instruction_bytes(word), [0x93, 0x00, 0x50, 0x00]);
    assert_eq!(decode_instruction([0x93, 0x00, 0x50, 0x00]), Instruction::IInstruction(5, 0, 0, 1, 19));
}

#[test]
fn decode_r_format() {
    // add x3, x1, x2
    let word = 0x0020_81b3u32;
    assert_eq!(decode_instruction(instruction_bytes(word)), Instruction::RInstruction(0, 2, 1, 0, 3, 51));
}

#[test]
fn decode_other_format() {
    assert_eq!(decode_instruction([0, 0, 0, 0]), Instruction::OtherInstruction);
}

#[test]
fn decode_u_format() {
    // lui x5, 0x12345
    let word = 0x1234_52b7u32;
    assert_eq!(decode_instruction(instruction_bytes(word)), Instruction::UInstruction(0x12345, 5, 55));
}

#[test]
fn fadd_exact_values() {
    let one = FloatingPoint::new(0x3f80_0000);
    let two = FloatingPoint::new(0x4000_0000);
    assert_eq!(one.add(two).get_32_bits(), 0x4040_0000);
    let a = FloatingPoint::new(0x3fc0_0000); // 1.5
    let b = FloatingPoint::new(0x4010_0000); // 2.25
    assert_eq!(a.add(b).get_32_bits(), 0x4070_0000); // 3.75
    assert_eq!(one.add(one.neg()).get_32_bits(), 0);
}

#[test]
fn fadd_special_values() {
    let inf = FloatingPoint::new(0x7f80_0000);
    let ninf = FloatingPoint::new(0xff80_0000);
    let one = FloatingPoint::new(0x3f80_0000);
    assert_eq!(inf.add(one).get_32_bits(), 0x7f80_0000);
    assert_eq!(inf.add(ninf).get_32_bits(), 0xffc0_0000);
    let nan = FloatingPoint::new(0x7f80_0001);
    assert_eq!(nan.add(one).get_32_bits(), 0x7fc0_0001);
}

#[test]
fn fadd_commutes_on_examples() {
    let values = [0x3f80_0000u32, 0xc0a0_0000, 0x0000_0001, 0x7f7f_ffff, 0x8000_0000, 0x3eaa_aaab];
    for &x in &values {
        for &y in &values {
            let a = FloatingPoint::new(x).add(FloatingPoint::new(y)).get_32_bits();
            let b = FloatingPoint::new(y).add(FloatingPoint::new(x)).get_32_bits();
            assert_eq!(a, b);
        }
    }
}

#[test]
fn floating_point_fields() {
    let x = FloatingPoint::new(0xc0a0_0000); // -5.0
    assert_eq!(x.get_sign(), -1);
    assert_eq!(x.get_exp(), 2);
    assert_eq!(x.get_fraction(), 0xa0_0000);
    assert_eq!(x.gets(), (1, 129, 0x20_0000));
    assert_eq!(x.get_all(), (-1, 2, 0xa0_0000));
    assert_eq!(x.neg().get_32_bits(), 0x40a0_0000);
    assert_eq!(x.neg().neg().get_32_bits(), 0xc0a0_0000);
}

#[test]
fn floating_point_order() {
    let zero = FloatingPoint::new(0);
    let tiny = FloatingPoint::new(1);
    let one = FloatingPoint::new(0x3f80_0000);
    assert!(zero == zero);
    assert!(!(zero < tiny));
    assert!(zero <= tiny);
    assert!(tiny < one);
    assert!(!(one < tiny));
    assert!(zero != tiny);
}

#[test]
fn memory_store_and_load() {
    let mut memory = Memory::new();
    assert_eq!(memory.load_word(0x100), 0);
    memory.store_word(0x100, -5);
    assert_eq!(memory.load_word(0x100), -5);
    assert_eq!(memory.load_word(0x101), -5);
    assert_eq!(memory.load_word(0x104), 0);
    let line = memory.get_cache_line(0x100);
    assert_eq!(line[0], 0xffff_fffb);
    assert_eq!(line[1], 0);
    let mut words = [(0u32, 0u32); 16];
    for (i, w) in words.iter_mut().enumerate() {
        *w = (0x200 + 4 * i as u32, i as u32);
    }
    memory.set_cache_line(words);
    assert_eq!(memory.load_word(0x204), 1);
    assert_eq!(memory.load_word(0x23c), 15);
}

#[test]
fn instruction_memory_store_and_load() {
    let mut memory = InstructionMemory::new();
    assert_eq!(memory.load(8), 0);
    memory.store(8, 0xdead_beef);
    assert_eq!(memory.load(8), 0xdead_beef);
    assert_eq!(memory.load(11), 0xdead_beef);
    assert_eq!(memory.load(12), 0);
}

#[test]
fn registers_hold_values() {
    let mut r = IntRegister::new();
    assert_eq!(r.get(), 0);
    r.set(-7);
    assert_eq!(r.get(), -7);
    let mut f = FloatRegister::new();
    assert_eq!(f.get().get_32_bits(), 0);
    f.set(FloatingPoint::new(0x3f80_0000));
    assert_eq!(f.get().get_32_bits(), 0x3f80_0000);
}

#[test]
fn cache_miss_then_hit() {
    let mut cache = Cache::new();
    assert_eq!(cache.get_offset_bit_num(), 6);
    assert!(matches!(cache.get_word(0x1000), CacheAccess::Miss));
    let mut line = [0u8; 64];
    line[4] = 0x78;
    line[5] = 0x56;
    line[6] = 0x34;
    line[7] = 0x12;
    assert!(cache.set_line(0x1000, line).is_none());
    assert!(matches!(cache.get_word(0x1004), CacheAccess::HitWord(0x1234_5678)));
    assert!(matches!(cache.get_ubyte(0x1005), CacheAccess::HitUByte(0x56)));
    assert!(matches!(cache.get_uhalf(0x1006), CacheAccess::HitUHalf(0x1234)));
    assert!(matches!(cache.set_word(0x1008, -1), CacheAccess::HitSet));
    assert!(matches!(cache.get_word(0x1008), CacheAccess::HitWord(-1)));
    assert!(matches!(cache.set_ubyte(0x1008, 0), CacheAccess::HitSet));
    assert!(matches!(cache.get_word(0x1008), CacheAccess::HitWord(-256)));
    assert!(matches!(cache.set_uhalf(0x2_0000, 1), CacheAccess::Miss));
}

#[test]
fn cache_evicts_dirty_least_recently_used_line() {
    let mut cache = Cache::new();
    // three lines of the same set (set 0) under different tags
    assert!(cache.set_line(0x0, [1u8; 64]).is_none());
    assert!(cache.set_line(0x2_0000, [2u8; 64]).is_none());
    assert!(matches!(cache.set_word(0x0, 7), CacheAccess::HitSet));
    assert!(matches!(cache.get_word(0x2_0000), CacheAccess::HitWord(_)));
    // the line of 0x0 is now the least recently used, and dirty
    let evicted = cache.set_line(0x4_0000, [3u8; 64]).expect("a dirty line leaves");
    assert_eq!(evicted[0], (0x0, 7));
    assert_eq!(evicted[4], (0x4, 1));
    assert!(matches!(cache.get_word(0x0), CacheAccess::Miss));
    assert!(matches!(cache.get_word(0x4_0000), CacheAccess::HitWord(0x0303_0303)));
}

#[test]
fn addition_is_commutative_on_sample_values() {
    let samples: [u32; 8] = [
        1.5f32.to_bits(),
        (-2.25f32).to_bits(),
        1.0e-40f32.to_bits(),
        3.0e38f32.to_bits(),
        0x8000_0000,
        0,
        0x7f80_0000,
        0xff80_0000,
    ];
    for &a in &samples {
        for &b in &samples {
            let x = FloatingPoint::new(a);
            let y = FloatingPoint::new(b);
            assert_eq!(x.add(y).get_32_bits(), y.add(x).get_32_bits());
        }
    }
    let one = FloatingPoint::new(1.0f32.to_bits());
    let minus_one = FloatingPoint::new((-1.0f32).to_bits());
    assert_eq!(one.add(minus_one).get_32_bits(), 0);
    assert_eq!(minus_one.add(one).get_32_bits(), 0);
}

#[test]
fn sums_of_two_nans_keep_the_first_payload() {
    let x = FloatingPoint::new(0x7fc0_0001);
    let y = FloatingPoint::new(0xffc0_0002);
    assert_eq!(x.add(y).get_32_bits(), 0x7fc0_0001);
    assert_eq!(y.add(x).get_32_bits(), 0xffc0_0002);
}

#[test]
fn negating_twice_gives_back_the_number() {
    for &v in &[0u32, 0x8000_0000, 1.5f32.to_bits(), 0x7fc0_0001] {
        let x = FloatingPoint::new(v);
        assert_eq!(x.neg().neg().get_32_bits(), v);
        assert_eq!(x.neg().get_32_bits(), v ^ 0x8000_0000);
    }
}

#[test]
fn adding_a_signed_zero_keeps_the_bits() {
    let zero = FloatingPoint::new(0);
    let minus_zero = FloatingPoint::new(0x8000_0000);
    for &v in &[0u32, 1, 0x007f_ffff, 0x0080_0000, 0x3fc0_0000, 0x7f7f_ffff, 0x8000_0001, 0xbf80_0000, 0xff7f_ffff] {
        let x = FloatingPoint::new(v);
        assert_eq!(x.add(zero).get_32_bits(), v);
        assert_eq!(x.add(minus_zero).get_32_bits(), v);
        assert_eq!(zero.add(x).get_32_bits(), v);
        assert_eq!(minus_zero.add(x).get_32_bits(), v);
    }
    assert_eq!(minus_zero.add(minus_zero).get_32_bits(), 0x8000_0000);
}

#[test]
fn writing_back_a_line_in_order_keeps_the_last_word() {
    let mut memory = Memory::new();
    let mut line = [(0u32, 0u32); 16];
    for k in 0..16u32 {
        line[k as usize] = (0x100 + 4 * k, k + 1);
    }
    line[15] = (0x100, 99);
    memory.set_cache_line(line);
    assert_eq!(memory.load_word(0x100), 99);
    assert_eq!(memory.load_word(0x104), 2);
    assert_eq!(memory.load_word(0x140), 0);
    let unchanged = memory.get_cache_line(0x100);
    let mut same = [(0u32, 0u32); 16];
    for k in 0..16u32 {
        same[k as usize] = (0x100 + 4 * k, unchanged[k as usize]);
    }
    memory.set_cache_line(same);
    assert_eq!(memory.get_cache_line(0x100), unchanged);
}
