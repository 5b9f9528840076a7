use cpuex2_simulator::cpu_core::{disassemble, Core, StepFault, StepOutcome};
use cpuex2_simulator::decoder::Instruction;
use cpuex2_simulator::fpu::FloatingPoint;
use cpuex2_simulator::instruction::{
    create_instruction_struct, exec_instruction, get_destination_register, get_instruction_count, get_jump_address,
    get_name, get_source_registers, is_load_instruction, is_supported_instruction, memory_access, register_fetch,
    write_back, Addi, Beq, End, Fadd, Feq, Fle, Flt, Flw, Fsw, In, InstructionEnum, Jal, Jalr, Lui, Lw, Outchar,
    Outint, Sll, Slli, Slt, Sra, Srai, Srl, Srli, Sub, Sw,
};
use cpuex2_simulator::statistics::order_by_count;
use cpuex2_simulator::types::RegisterId;

fn core_with(values: &[(usize, i32)]) -> Core {
    let mut core = Core::new();
    for &(index, value) in values {
        core.set_int_register(index, value);
    }
    core
}

#[test]
fn register_zero_stays_zero() {
    let mut core = Core::new();
    core.set_int_register(0, 5);
    assert_eq!(core.get_int_register(0), 0);
    core.set_int_register(3, 7);
    assert_eq!(core.get_int_register(3), 7);
    core.set_forwarding_int_source(0, 1, 9);
    assert!(core.get_forwarding_int_source(0).is_none());
}

#[test]
fn load_after_store_through_cache() {
    let mut core = Core::new();
    core.store_word(0x100, 0x1234_5678);
    assert_eq!(core.get_memory_access_count(), 1);
    assert_eq!(core.get_cache_hit_count(), 0);
    assert_eq!(core.load_word(0x100), 0x1234_5678);
    assert_eq!(core.get_memory_access_count(), 2);
    assert_eq!(core.get_cache_hit_count(), 1);
    core.store_word(0x104, -3);
    assert_eq!(core.get_cache_hit_count(), 2);
    assert_eq!(core.load_word(0x104), -3);
    assert_eq!(core.load_word(0x100), 0x1234_5678);
}

#[test]
fn dirty_lines_reach_memory_on_eviction() {
    let mut core = Core::new();
    core.store_word(0x40, 11);
    core.load_word(0x40); // the line of 0x40 is now cached
    core.store_word(0x40, 22); // a hit: only the cache holds 22
    core.load_word(0x2_0040); // same set, another tag
    core.load_word(0x4_0040); // evicts the line of 0x40, which is dirty
    assert_eq!(core.load_word(0x40), 22);
}

#[test]
fn output_of_print_instructions() {
    let mut core = Core::new();
    core.print_char(0x41);
    core.print_char(0x142);
    core.print_int(-120);
    core.print_int(7);
    assert_eq!(core.get_output(), &b"AB-1207".to_vec());
}

#[test]
fn input_tokens_are_read_in_order() {
    let mut core = Core::new();
    let tokens = vec!["12".to_string(), "-3".to_string(), "1.5".to_string(), "+4".to_string()];
    let bits = vec![Some(0x4140_0000), Some(0xc040_0000), Some(0x3fc0_0000), Some(0x4080_0000)];
    core.load_sld_tokens(tokens, bits);
    assert!(core.can_read_int());
    assert_eq!(core.read_int(), 12);
    assert_eq!(core.read_int(), -3);
    assert!(!core.can_read_int());
    assert!(core.can_read_float());
    assert_eq!(core.read_float() as u32, 0x3fc0_0000);
    assert_eq!(core.read_int(), 4);
    assert!(!core.can_read_int());
    assert!(!core.can_read_float());
}

#[test]
fn addi_through_the_stages() {
    let mut core = core_with(&[(2, 40)]);
    let mut addi = Addi::new(0b1_1111_1111_1110, 2, 5); // addi x5, x2, -2
    addi.register_fetch(&core);
    addi.exec(&mut core);
    assert_eq!(core.get_forwarding_int_source(5), Some(&(0, 38)));
    addi.write_back(&mut core);
    assert_eq!(core.get_int_register(5), 38);
    assert_eq!(addi.get_name(), "addi");
    assert_eq!(addi.get_source_registers(), vec![RegisterId::Int(2)]);
    assert_eq!(addi.get_destination_register(), Some(RegisterId::Int(5)));
    assert_eq!(addi.get_instruction_count(), Some(0));
}

#[test]
fn addi_wraps_around() {
    let mut core = core_with(&[(1, i32::MAX)]);
    let mut addi = Addi::new(1, 1, 2);
    addi.register_fetch(&core);
    addi.exec(&mut core);
    addi.write_back(&mut core);
    assert_eq!(core.get_int_register(2), i32::MIN);
}

#[test]
fn shifts() {
    let mut core = core_with(&[(1, -16), (2, 34)]);
    let mut slli = Slli::new(3, 1, 3);
    slli.register_fetch(&core);
    slli.exec(&mut core);
    slli.write_back(&mut core);
    assert_eq!(core.get_int_register(3), -128);
    let mut srli = Srli::new(28, 1, 4);
    srli.register_fetch(&core);
    srli.exec(&mut core);
    srli.write_back(&mut core);
    assert_eq!(core.get_int_register(4), 0xf);
    let mut srai = Srai::new(2, 1, 5);
    srai.register_fetch(&core);
    srai.exec(&mut core);
    srai.write_back(&mut core);
    assert_eq!(core.get_int_register(5), -4);
    // shift amounts from a register use its 5 low bits: 34 & 31 == 2
    let mut sll = Sll::new(2, 1, 6);
    sll.register_fetch(&core);
    sll.exec(&mut core);
    sll.write_back(&mut core);
    assert_eq!(core.get_int_register(6), -64);
    let mut srl = Srl::new(2, 1, 7);
    srl.register_fetch(&core);
    srl.exec(&mut core);
    srl.write_back(&mut core);
    assert_eq!(core.get_int_register(7), 0x3fff_fffc);
    let mut sra = Sra::new(2, 1, 8);
    sra.register_fetch(&core);
    sra.exec(&mut core);
    sra.write_back(&mut core);
    assert_eq!(core.get_int_register(8), -4);
}

#[test]
fn sub_and_slt() {
    let mut core = core_with(&[(1, 3), (2, 10)]);
    let mut sub = Sub::new(2, 1, 3);
    sub.register_fetch(&core);
    sub.exec(&mut core);
    sub.write_back(&mut core);
    assert_eq!(core.get_int_register(3), -7);
    let mut slt = Slt::new(2, 1, 4);
    slt.register_fetch(&core);
    slt.exec(&mut core);
    slt.write_back(&mut core);
    assert_eq!(core.get_int_register(4), 1);
}

#[test]
fn forwarded_values_win_over_registers() {
    let mut core = core_with(&[(1, 1)]);
    core.set_forwarding_int_source(1, 3, 100);
    let mut addi = Addi::new(5, 1, 2);
    addi.register_fetch(&core);
    addi.exec(&mut core);
    addi.write_back(&mut core);
    assert_eq!(core.get_int_register(2), 105);
}

#[test]
fn lui_shifts_by_thirteen() {
    let mut core = Core::new();
    let mut lui = Lui::new(3, 4);
    lui.register_fetch(&core);
    lui.exec(&mut core);
    lui.write_back(&mut core);
    assert_eq!(core.get_int_register(4), 3 << 13);
}

#[test]
fn branch_targets() {
    let mut core = core_with(&[(1, 9), (2, 9)]);
    core.set_pc(100);
    let mut beq = Beq::new(4, 2, 1);
    beq.register_fetch(&core);
    beq.exec(&mut core);
    assert_eq!(beq.get_jump_address(), Some(92 + 16));
    let mut beq = Beq::new(0b1_1111_1111_1111, 0, 1); // x1 != x0: not taken
    beq.register_fetch(&core);
    beq.exec(&mut core);
    assert_eq!(beq.get_jump_address(), None);
    assert_eq!(String::from_utf8(beq.assembly_text()).unwrap(), "beq x1, x0, 92 + -4");
}

#[test]
fn jumps_link_the_return_address() {
    let mut core = core_with(&[(1, 1000)]);
    core.set_pc(200);
    let mut jal = Jal::new(10, 1);
    jal.register_fetch(&core);
    jal.exec(&mut core);
    assert_eq!(jal.get_jump_address(), Some(192 + 40));
    jal.write_back(&mut core);
    assert_eq!(core.get_int_register(1), 196);
    let mut jalr = Jalr::new(3, 1, 5);
    jalr.register_fetch(&core);
    jalr.exec(&mut core);
    assert_eq!(jalr.get_jump_address(), Some(196 + 12));
    jalr.write_back(&mut core);
    assert_eq!(core.get_int_register(5), 196);
}

#[test]
fn store_then_load_instructions() {
    let mut core = core_with(&[(1, 0x200), (2, -42)]);
    let mut sw = Sw::new(8, 2, 1);
    sw.register_fetch(&core);
    sw.exec(&mut core);
    sw.memory(&mut core);
    let mut lw = Lw::new(8, 1, 3);
    lw.register_fetch(&core);
    lw.exec(&mut core);
    lw.memory(&mut core);
    lw.write_back(&mut core);
    assert_eq!(core.get_int_register(3), -42);
    assert!(lw.is_load_instruction());
}

#[test]
fn float_store_then_load() {
    let mut core = core_with(&[(1, 0x300)]);
    core.set_float_register(2, FloatingPoint::new(0x4049_0fdb));
    let mut fsw = Fsw::new(0, 2, 1);
    fsw.register_fetch(&core);
    fsw.exec(&mut core);
    fsw.memory(&mut core);
    let mut flw = Flw::new(0, 1, 3);
    flw.register_fetch(&core);
    flw.exec(&mut core);
    flw.memory(&mut core);
    flw.write_back(&mut core);
    assert_eq!(core.get_float_register(3).get_32_bits(), 0x4049_0fdb);
}

#[test]
fn float_add_and_compare() {
    let mut core = Core::new();
    core.set_float_register(1, FloatingPoint::new(0x3f80_0000));
    core.set_float_register(2, FloatingPoint::new(0x4000_0000));
    let mut fadd = Fadd::new(2, 1, 3);
    fadd.register_fetch(&core);
    fadd.exec(&mut core);
    fadd.write_back(&mut core);
    assert_eq!(core.get_float_register(3).get_32_bits(), 0x4040_0000);
    let mut flt = Flt::new(2, 1, 4);
    flt.register_fetch(&core);
    flt.exec(&mut core);
    flt.write_back(&mut core);
    assert_eq!(core.get_int_register(4), 1);
    let mut fle = Fle::new(1, 2, 5);
    fle.register_fetch(&core);
    fle.exec(&mut core);
    fle.write_back(&mut core);
    assert_eq!(core.get_int_register(5), 0);
    let mut feq = Feq::new(1, 1, 6);
    feq.register_fetch(&core);
    feq.exec(&mut core);
    feq.write_back(&mut core);
    assert_eq!(core.get_int_register(6), 1);
}

#[test]
fn input_and_output_instructions() {
    let mut core = Core::new();
    core.load_sld_tokens(vec!["-17".to_string()], vec![None]);
    let mut inst = In::new(1);
    inst.register_fetch(&core);
    inst.exec(&mut core);
    inst.write_back(&mut core);
    assert_eq!(core.get_int_register(1), -17);
    let mut outint = Outint::new(1);
    outint.register_fetch(&core);
    outint.exec(&mut core);
    let mut outchar = Outchar::new(1);
    outchar.register_fetch(&core);
    outchar.exec(&mut core);
    assert_eq!(core.get_output(), &vec![b'-', b'1', b'7', 0xef]);
}

#[test]
fn stage_functions_run_the_instruction_in_each_stage() {
    let mut core = core_with(&[(1, 6)]);
    core.set_decoded_instruction(Some(InstructionEnum::Addi(Addi::new(4, 1, 2))));
    register_fetch(&mut core);
    let fetched = *core.get_decoded_instruction();
    core.set_instruction_in_exec_stage(fetched);
    exec_instruction(&mut core);
    let executed = *core.get_instruction_in_exec_stage();
    core.set_instruction_in_memory_stage(executed);
    memory_access(&mut core);
    let done = *core.get_instruction_in_memory_stage();
    let inst = done.unwrap();
    assert_eq!(get_name(&inst), "addi");
    assert_eq!(get_destination_register(&inst), Some(RegisterId::Int(2)));
    assert_eq!(get_source_registers(&inst), vec![RegisterId::Int(1)]);
    assert!(!is_load_instruction(&inst));
    assert_eq!(get_jump_address(&inst), None);
    assert_eq!(get_instruction_count(&inst), Some(0));
    core.move_instructions_to_next_stage_stalling();
    write_back(&mut core);
    assert_eq!(core.get_int_register(2), 10);
}

#[test]
fn load_hazard_is_detected() {
    let mut core = Core::new();
    core.set_instruction_in_exec_stage(Some(InstructionEnum::Lw(Lw::new(0, 1, 5))));
    core.set_decoded_instruction(Some(InstructionEnum::Addi(Addi::new(1, 5, 6))));
    assert!(core.check_load_hazard());
    core.set_decoded_instruction(Some(InstructionEnum::Addi(Addi::new(1, 4, 6))));
    assert!(!core.check_load_hazard());
    core.set_instruction_in_exec_stage(Some(InstructionEnum::Addi(Addi::new(0, 1, 4))));
    assert!(!core.check_load_hazard());
}

#[test]
fn created_instructions_follow_the_opcode_tables() {
    let addi = create_instruction_struct(Instruction::IInstruction(5, 1, 0b000, 2, 1));
    assert_eq!(get_name(&addi), "addi");
    let srai = create_instruction_struct(Instruction::IInstruction(0b0100000_000011, 1, 0b101, 2, 1));
    assert_eq!(get_name(&srai), "srai");
    let fle = create_instruction_struct(Instruction::RInstruction(0b1010000, 2, 1, 0b000, 3, 9));
    assert_eq!(get_name(&fle), "fle");
    let outint = create_instruction_struct(Instruction::SInstruction(0, 4, 0, 0b001, 12));
    assert_eq!(get_name(&outint), "outint");
    let fblt = create_instruction_struct(Instruction::BInstruction(3, 2, 1, 0b100, 13));
    assert_eq!(get_name(&fblt), "fblt");
    let jal = create_instruction_struct(Instruction::JInstruction(3, 1, 7));
    assert_eq!(get_name(&jal), "jal");
    let lui = create_instruction_struct(Instruction::UInstruction(3, 1, 4));
    assert_eq!(get_name(&lui), "lui");
    let fcvt = create_instruction_struct(Instruction::RInstruction(0b1100000, 0, 1, 0, 3, 9));
    assert_eq!(get_name(&fcvt), "fcvt.w.s");
    assert!(is_supported_instruction(Instruction::IInstruction(0, 0, 0b000, 0, 14)));
    assert!(!is_supported_instruction(Instruction::IInstruction(5, 0, 0, 1, 19)));
    assert!(!is_supported_instruction(Instruction::RInstruction(0b0000001, 2, 1, 0, 3, 3)));
    assert!(!is_supported_instruction(Instruction::OtherInstruction));
}

#[test]
fn assembly_text_of_instructions() {
    let lw = InstructionEnum::Lw(Lw::new(0b1_1111_1111_1100, 2, 5));
    assert_eq!(String::from_utf8(lw.assembly_text()).unwrap(), "lw x5, -4(x2)");
    let fadd = InstructionEnum::Fadd(Fadd::new(3, 2, 1));
    assert_eq!(String::from_utf8(fadd.assembly_text()).unwrap(), "fadd f1, f2, f3");
    let end = InstructionEnum::End(End::new());
    assert_eq!(String::from_utf8(end.assembly_text()).unwrap(), "end");
    let slli = InstructionEnum::Slli(Slli::new(0x47, 1, 1));
    assert_eq!(String::from_utf8(slli.assembly_text()).unwrap(), "slli x1, x1, 7");
}

#[test]
fn step_runs_an_end_instruction_to_the_finish() {
    let mut core = Core::new();
    core.set_decoded_instruction(Some(InstructionEnum::End(End::new())));
    register_fetch(&mut core);
    assert_eq!(core.step(), Ok(StepOutcome::Ran(0, None)));
    assert_eq!(core.get_cycle_count(), 1);
    assert_eq!(core.get_pc(), 4);
    assert_eq!(core.step(), Ok(StepOutcome::Ran(4, None)));
    assert_eq!(core.step(), Ok(StepOutcome::Ran(8, None)));
    assert_eq!(core.get_instruction_count_total(), 1);
    assert_eq!(core.step(), Ok(StepOutcome::Finished));
    assert_eq!(core.get_cycle_count(), 4);
}

#[test]
fn step_reports_unimplemented_operations() {
    let mut core = Core::new();
    let mut fsub = cpuex2_simulator::instruction::Fsub::new(2, 1, 3);
    fsub.register_fetch(&core);
    core.set_decoded_instruction(Some(InstructionEnum::Fsub(fsub)));
    assert_eq!(core.step(), Err(StepFault::UnimplementedOperation));
}

#[test]
fn stored_program_fills_the_instruction_memory() {
    let mut core = Core::new();
    assert!(core.store_program(&vec![0x78, 0x56, 0x34, 0x12, 0xef, 0xbe, 0xad, 0xde]));
    assert_eq!(core.load_instruction(0), 0x1234_5678);
    assert_eq!(core.load_instruction(4), 0xdead_beef);
    assert_eq!(core.load_instruction(8), 0);
    assert!(!core.store_program(&vec![1, 2, 3, 4, 5]));
    assert_eq!(core.load_instruction(0), 0x0403_0201);
}

#[test]
fn disassembly_stops_at_the_first_word_without_format() {
    assert_eq!(disassemble(&vec![]), Some(vec![]));
    assert_eq!(disassemble(&vec![0, 0, 0, 0, 0x93, 0, 0x50, 0]), Some(vec![]));
    // addi x1, x0, 5 in the encoding of the decoder has opcode 19, which the machine lacks
    assert_eq!(disassemble(&vec![0x93, 0, 0x50, 0]), None);
}

#[test]
fn statistics_count_fetches_and_written_back_instructions() {
    let mut core = Core::new();
    assert_eq!(core.get_pc_stats().report(), Some(vec![]));
    assert_eq!(core.get_inst_stats().report(), vec![]);
    core.set_decoded_instruction(Some(InstructionEnum::End(End::new())));
    register_fetch(&mut core);
    assert_eq!(core.step(), Ok(StepOutcome::Ran(0, None)));
    assert_eq!(core.step(), Ok(StepOutcome::Ran(4, None)));
    assert_eq!(core.get_inst_stats().report(), vec![]);
    assert_eq!(core.step(), Ok(StepOutcome::Ran(8, None)));
    assert_eq!(core.get_inst_stats().report(), vec![("end".to_string(), 1)]);
    assert_eq!(core.get_pc_stats().report(), Some(vec![]));
}

#[test]
fn fetches_of_words_with_a_format_are_counted_at_their_address() {
    let mut core = Core::new();
    // addi x1, x0, 5 in the encoding of the decoder: a format, but no instruction of the machine
    assert!(core.store_program(&vec![0x93, 0, 0x50, 0]));
    assert_eq!(core.step(), Ok(StepOutcome::Ran(0, Some(0x0050_0093))));
    assert_eq!(core.get_pc_stats().report(), None);
    let entries = core.get_pc_stats().entries();
    assert_eq!(entries.len(), 1);
    assert_eq!(entries[0].0, 0);
    assert_eq!((entries[0].1).1, 1);
    assert!(!is_supported_instruction((entries[0].1).0));
}

#[test]
fn indices_are_ordered_by_count_largest_first() {
    assert_eq!(order_by_count(&vec![3, 7, 3, 9]), vec![3, 1, 0, 2]);
    assert_eq!(order_by_count(&vec![]), Vec::<usize>::new());
    assert_eq!(order_by_count(&vec![1, 1, 1]), vec![0, 1, 2]);
}

#[test]
fn memory_reads_back_writes_across_evictions() {
    let mut core = Core::new();
    let addresses: [u32; 6] = [0x40, 0x2_0040, 0x4_0040, 0x6_0044, 0x44, 0x7fc];
    for (k, &a) in addresses.iter().enumerate() {
        core.store_word(a, (k as i32 + 1) * 1000 - 7);
    }
    for (k, &a) in addresses.iter().enumerate().rev() {
        assert_eq!(core.load_word(a), (k as i32 + 1) * 1000 - 7);
    }
    core.store_word(0x2_0040, -1);
    core.load_word(0x8_0040);
    core.load_word(0xa_0040);
    assert_eq!(core.load_word(0x2_0040), -1);
    assert_eq!(core.load_word(0x2_0044), 0);
    assert_eq!(core.load_word(0x40), 993);
}

#[test]
fn kinds_of_instruction_have_distinct_names() {
    let insts = vec![
        InstructionEnum::Addi(Addi::new(1, 1, 2)),
        InstructionEnum::Slli(Slli::new(3, 1, 3)),
        InstructionEnum::Srli(Srli::new(28, 1, 4)),
        InstructionEnum::Srai(Srai::new(2, 1, 5)),
        InstructionEnum::Sll(Sll::new(2, 1, 6)),
        InstructionEnum::End(End::new()),
    ];
    for (i, a) in insts.iter().enumerate() {
        for (j, b) in insts.iter().enumerate() {
            assert_eq!(get_name(a) == get_name(b), i == j);
        }
    }
    assert_eq!(get_name(&InstructionEnum::Addi(Addi::new(7, 3, 4))), get_name(&insts[0]));
}

#[test]
fn integer_tokens_follow_the_decimal_syntax() {
    let texts = ["2147483647", "-2147483648", "2147483648", "-2147483649", "+0", "-", "+", "12a", "", "007"];
    let readable = [true, true, false, false, true, false, false, false, false, true];
    for (text, &ok) in texts.iter().zip(readable.iter()) {
        let mut core = Core::new();
        core.load_sld_tokens(vec![text.to_string()], vec![None]);
        assert_eq!(core.can_read_int(), ok, "{}", text);
        if ok {
            assert_eq!(core.read_int(), text.parse::<i32>().unwrap());
        }
    }
}
