use nes_core::cartridge::{
    load_cartridge, get_mapper_from_id, Cartridge, LoadError, Mapper, MirrorMode,
};
use nes_core::cpu::opcodes::{decode, Mode, Op};
use nes_core::cpu::{carry_add, increment_no_carry, FLAG_C, FLAG_I, FLAG_V};
use nes_core::device::apu::{Apu, Envelope, LengthCounter, NoiseChannel, Sweep, TriangleChannel};
use nes_core::device::controller::{Controller, ControllerPort, BUTTON_A, BUTTON_START};
use nes_core::device::ppu::Ppu;
use nes_core::device::vram::Vram;
use nes_core::device::Ram;
use nes_core::system::{PpuBus, System};

/// An iNES image with one 16 KiB PRG bank holding `program` at 0x8000 (and
/// mirrored at 0xC000), one CHR bank, and the given vectors.
fn image(mapper: u8, program: &[u8], nmi: u16, reset: u16, irq: u16) -> Vec<u8> {
    let mut data = vec![0x4E, 0x45, 0x53, 0x1A, 1, 1, (mapper & 0x0F) << 4, mapper & 0xF0];
    data.extend_from_slice(&[0; 8]);
    let mut prg = vec![0xEAu8; 0x4000];
    prg[..program.len()].copy_from_slice(program);
    prg[0x3FFA] = (nmi & 0xFF) as u8;
    prg[0x3FFB] = (nmi >> 8) as u8;
    prg[0x3FFC] = (reset & 0xFF) as u8;
    prg[0x3FFD] = (reset >> 8) as u8;
    prg[0x3FFE] = (irq & 0xFF) as u8;
    prg[0x3FFF] = (irq >> 8) as u8;
    data.extend_from_slice(&prg);
    data.extend_from_slice(&vec![0u8; 0x2000]);
    data
}

fn system_with(program: &[u8]) -> System {
    let cart = load_cartridge(image(0, program, 0x8000, 0x8000, 0x8000)).unwrap();
    System::new(cart)
}

/// Runs master cycles until the CPU starts a new instruction; returns how
/// many cycles the previous one took.
fn run_instruction(sys: &mut System) -> u64 {
    let start = sys.cycles;
    sys.step();
    while sys.cpu.cycle_counter != 0 || sys.bus.dma.active {
        sys.step();
    }
    sys.cycles - start
}

#[test]
fn reset_loads_pc_from_vector() {
    let cart = load_cartridge(image(0, &[], 0x9000, 0x8123, 0x9000)).unwrap();
    let mut sys = System::new(cart);
    assert_eq!(sys.cpu.pc, 0x8123);
    sys.clock(1000);
    sys.reset();
    assert_eq!(sys.cpu.pc, 0x8123);
}

#[test]
fn ram_round_trip_within_mirror() {
    let mut ram = Ram::new(11);
    for addr in [0x0000u16, 0x0123, 0x07FF] {
        ram.write(addr, 0xA5);
        assert_eq!(ram.read(addr), 0xA5);
        assert_eq!(ram.read(addr + 0x0800), 0xA5);
        assert_eq!(ram.read(addr + 0x1800), 0xA5);
    }
    ram.write(0x0801, 0x5A);
    assert_eq!(ram.read(0x0001), 0x5A);
}

#[test]
fn controller_protocol_shifts_a_first() {
    let mut c = Controller::new();
    c.update_state(BUTTON_A | BUTTON_START, 0);
    assert_eq!(BUTTON_A | BUTTON_START, 0x90);
    c.write(1);
    c.write(0);
    let bits: Vec<u8> = (0..8).map(|_| c.read(ControllerPort::PortA)).collect();
    assert_eq!(bits, vec![1, 0, 0, 1, 0, 0, 0, 0]);
}

#[test]
fn controller_reads_refresh_while_latched() {
    let mut c = Controller::new();
    c.update_state(0x80, 0x01);
    c.write(1);
    assert_eq!(c.read(ControllerPort::PortA), 1);
    assert_eq!(c.read(ControllerPort::PortA), 1);
    assert_eq!(c.read(ControllerPort::PortB), 0);
}

#[test]
fn mmc1_interleaved_reset_leaves_control() {
    let mut m = match get_mapper_from_id(1, 2).unwrap() {
        Mapper::Mmc1(m) => m,
        _ => panic!("mapper 1 is MMC1"),
    };
    for data in [0x80u8, 0x00, 0x01, 0x80, 0x00, 0x00, 0x00] {
        m.cpu_write(0x8000, data);
    }
    assert_eq!(m.regs.control, 0x1C);
    assert_eq!((m.regs.control >> 2) & 3, 3);
    assert_eq!(m.regs.mirror, MirrorMode::Horizontal);
    assert_eq!(m.regs.load_count, 3);
}

#[test]
fn mmc1_commits_on_fifth_write() {
    let mut m = match get_mapper_from_id(1, 2).unwrap() {
        Mapper::Mmc1(m) => m,
        _ => panic!("mapper 1 is MMC1"),
    };
    for data in [0x00u8, 0x01, 0x00, 0x00] {
        m.cpu_write(0x8000, data);
        assert_eq!(m.regs.control, 0x1C);
    }
    m.cpu_write(0x8000, 0x00);
    assert_eq!(m.regs.control, 0x02);
    assert_eq!(m.regs.mirror, MirrorMode::Vertical);
    assert_eq!(m.regs.load_count, 0);
}

#[test]
fn mmc1_reset_write_forces_prg_mode_3() {
    let mut m = match get_mapper_from_id(1, 2).unwrap() {
        Mapper::Mmc1(m) => m,
        _ => panic!("mapper 1 is MMC1"),
    };
    for data in [0x00u8, 0x00, 0x00, 0x00, 0x00] {
        m.cpu_write(0x8000, data);
    }
    assert_eq!(m.regs.control, 0x00);
    m.cpu_write(0x8000, 0x01);
    m.cpu_write(0x8000, 0x80);
    assert_eq!(m.regs.load_count, 0);
    assert_eq!((m.regs.control >> 2) & 3, 3);
    // PRG mode 2 (fixed first bank), then bank 0 at 0xC000.
    for data in [0x00u8, 0x00, 0x00, 0x01, 0x00] {
        m.cpu_write(0x8000, data);
    }
    assert_eq!((m.regs.control >> 2) & 3, 2);
    for _ in 0..5 {
        m.cpu_write(0xE000, 0x00);
    }
    assert_eq!(m.regs.prg_bank_16_hi, 0);
    m.cpu_write(0x8000, 0x80);
    assert_eq!((m.regs.control >> 2) & 3, 3);
    assert_eq!(m.regs.prg_bank_16_hi, 1);
}

#[test]
fn mmc3_irq_after_reload_plus_one() {
    let mut m = match get_mapper_from_id(4, 2).unwrap() {
        Mapper::Mmc3(m) => m,
        _ => panic!("mapper 4 is MMC3"),
    };
    m.cpu_write(0xC000, 3);
    m.cpu_write(0xC001, 0);
    m.cpu_write(0xE001, 0);
    for _ in 0..3 {
        m.on_scanline();
        assert!(!m.regs.interrupt_active);
    }
    m.on_scanline();
    assert!(m.regs.interrupt_active);
    m.cpu_write(0xE000, 0);
    assert!(!m.regs.interrupt_active);
}

#[test]
fn mmc3_bank_select_and_data() {
    let mut m = match get_mapper_from_id(4, 4).unwrap() {
        Mapper::Mmc3(m) => m,
        _ => panic!("mapper 4 is MMC3"),
    };
    m.cpu_write(0x8000, 6);
    m.cpu_write(0x8001, 3);
    assert_eq!(m.regs.prg_bank[0], 3 * 0x2000);
    assert_eq!(m.regs.prg_bank[2], 6 * 0x2000);
    assert_eq!(m.regs.prg_bank[3], 7 * 0x2000);
    m.cpu_write(0x8000, 0x46);
    assert_eq!(m.regs.prg_bank[0], 6 * 0x2000);
    assert_eq!(m.regs.prg_bank[2], 3 * 0x2000);
    m.cpu_write(0xA000, 0);
    assert_eq!(m.regs.mirror, MirrorMode::Vertical);
}

fn ppu_bus() -> PpuBus {
    let mut data = image(0, &[], 0x8000, 0x8000, 0x8000);
    data[5] = 0;
    data.truncate(16 + 0x4000);
    let cart = load_cartridge(data).unwrap();
    PpuBus { cart, vram: Vram::new(), palette: Ram::new(5) }
}

#[test]
fn palette_backdrop_mirrors() {
    let mut bus = ppu_bus();
    for (hi, lo) in [(0x3F10u16, 0x3F00u16), (0x3F14, 0x3F04), (0x3F18, 0x3F08), (0x3F1C, 0x3F0C)] {
        bus.write(hi, 0x21);
        assert_eq!(bus.read(lo), 0x21);
        bus.write(lo, 0x12);
        assert_eq!(bus.read(hi), 0x12);
    }
    bus.write(0x3F11, 0x05);
    assert_ne!(bus.read(0x3F01), 0x05);
}

#[test]
fn ppudata_round_trip_through_read_buffer() {
    let mut bus = ppu_bus();
    let mut ppu = Ppu::new();
    ppu.cpu_write(&mut bus, 0, 0x00);
    ppu.cpu_write(&mut bus, 6, 0x21);
    ppu.cpu_write(&mut bus, 6, 0x08);
    ppu.cpu_write(&mut bus, 7, 0xAB);
    ppu.cpu_write(&mut bus, 7, 0xCD);
    ppu.cpu_write(&mut bus, 6, 0x21);
    ppu.cpu_write(&mut bus, 6, 0x08);
    let _stale = ppu.cpu_read(&bus, 7);
    assert_eq!(ppu.cpu_read(&bus, 7), 0xAB);
    assert_eq!(ppu.cpu_read(&bus, 7), 0xCD);
}

#[test]
fn ppudata_increment_32() {
    let mut bus = ppu_bus();
    let mut ppu = Ppu::new();
    ppu.cpu_write(&mut bus, 0, 0x04);
    ppu.cpu_write(&mut bus, 6, 0x20);
    ppu.cpu_write(&mut bus, 6, 0x00);
    ppu.cpu_write(&mut bus, 7, 0x11);
    assert_eq!(ppu.v, 0x2020);
    assert_eq!(bus.read(0x2000), 0x11);
}

#[test]
fn chr_ram_is_writable() {
    let mut bus = ppu_bus();
    bus.write(0x0123, 0x77);
    assert_eq!(bus.read(0x0123), 0x77);
}

#[test]
fn vram_horizontal_and_vertical_mirroring() {
    let mut v = Vram::new();
    v.write(MirrorMode::Horizontal, 0x0005, 1);
    assert_eq!(v.read(MirrorMode::Horizontal, 0x0405), 1);
    assert_ne!(v.read(MirrorMode::Horizontal, 0x0805), 1);
    v.write(MirrorMode::Vertical, 0x0006, 2);
    assert_eq!(v.read(MirrorMode::Vertical, 0x0806), 2);
    v.write(MirrorMode::OneScreenHigh, 0x0007, 3);
    assert_eq!(v.read(MirrorMode::OneScreenHigh, 0x0C07), 3);
}

#[test]
fn nmi_signalled_once_per_frame() {
    // LDA #$80; STA $2000; loop: JMP loop ; NMI at 0x8010: INC $10; RTI
    let mut program = vec![0xA9, 0x80, 0x8D, 0x00, 0x20, 0x4C, 0x05, 0x80];
    program.resize(0x10, 0xEA);
    program.extend_from_slice(&[0xE6, 0x10, 0x40]);
    let cart = load_cartridge(image(0, &program, 0x8010, 0x8000, 0x8000)).unwrap();
    let mut sys = System::new(cart);
    sys.clock(29781);
    assert_eq!(sys.bus.ram.read(0x10), 1);
    assert_eq!(sys.bus.ppu.ticks, 3 * 29781);
    sys.clock(29781);
    assert_eq!(sys.bus.ram.read(0x10), 2);
}

#[test]
fn vblank_starts_at_scanline_241_dot_1() {
    let mut sys = system_with(&[0x4C, 0x00, 0x80]);
    sys.clock(27394);
    assert_eq!(sys.bus.ppu.status & 0x80, 0);
    sys.clock(1);
    assert_eq!(sys.bus.ppu.scanline, 241);
    assert_ne!(sys.bus.ppu.status & 0x80, 0);
}

#[test]
fn cycle_counts_follow_table() {
    // LDX #$01; LDA $80FF,X (crosses); LDA $8000,X; STA $0200,X; INC $10; BNE +0
    let program = [
        0xA2, 0x01, 0xBD, 0xFF, 0x80, 0xBD, 0x00, 0x80, 0x9D, 0x00, 0x02, 0xE6, 0x10, 0xD0, 0x00,
    ];
    let mut sys = system_with(&program);
    assert_eq!(run_instruction(&mut sys), 2);
    assert_eq!(run_instruction(&mut sys), 5);
    assert_eq!(run_instruction(&mut sys), 4);
    assert_eq!(run_instruction(&mut sys), 5);
    assert_eq!(run_instruction(&mut sys), 5);
    assert_eq!(run_instruction(&mut sys), 3);
    assert_eq!(sys.bus.ram.read(0x10), 1);
}

#[test]
fn branch_crossing_page_costs_two_more() {
    // at 0x80FD: BEQ -> not taken (Z clear after LDX #1)
    let mut program = vec![0xA2, 0x01, 0x4C, 0xFA, 0x80];
    program.resize(0xFA, 0xEA);
    // 0x80FA: LDX #$00 (Z set); 0x80FC: BEQ +4 -> 0x8102 crosses
    program.extend_from_slice(&[0xA2, 0x00, 0xF0, 0x04]);
    let mut sys = system_with(&program);
    assert_eq!(run_instruction(&mut sys), 2);
    assert_eq!(run_instruction(&mut sys), 3);
    assert_eq!(run_instruction(&mut sys), 2);
    assert_eq!(run_instruction(&mut sys), 4);
    assert_eq!(sys.cpu.pc, 0x8102);
}

#[test]
fn dma_steals_513_or_514_cycles() {
    let mut seen = Vec::new();
    for pad in [0usize, 1] {
        // an optional three-cycle LDA $00 shifts the parity; LDA #$02; STA $4014
        let mut program = if pad == 1 { vec![0xA5, 0x00] } else { Vec::new() };
        program.extend_from_slice(&[0xA9, 0x02, 0x8D, 0x14, 0x40]);
        let mut sys = system_with(&program);
        for _ in 0..pad + 1 {
            run_instruction(&mut sys);
        }
        sys.step();
        let write_cycle_even = (sys.cycles - 1) % 2 == 0;
        let mut active = 0u64;
        while sys.bus.dma.active {
            sys.step();
            active += 1;
        }
        assert_eq!(active, if write_cycle_even { 513 } else { 514 });
        seen.push(active);
    }
    seen.sort();
    assert_eq!(seen, vec![513, 514]);
}

#[test]
fn dma_copies_256_bytes_into_oam() {
    // LDA #$07; STA $0200; STA $02FF; LDA #$02; STA $4014
    let program = [0xA9, 0x07, 0x8D, 0x00, 0x02, 0x8D, 0xFF, 0x02, 0xA9, 0x02, 0x8D, 0x14, 0x40];
    let mut sys = system_with(&program);
    for _ in 0..5 {
        run_instruction(&mut sys);
    }
    assert!(!sys.bus.dma.active);
    assert_eq!(sys.bus.ppu.oam[0], 7);
    assert_eq!(sys.bus.ppu.oam[255], 7);
    assert_eq!(sys.bus.ppu.oam[1], 0);
}

#[test]
fn apu_length_counter_table() {
    let mut apu = Apu::new();
    apu.write_control(0x01);
    apu.write(0x03, 0x08);
    assert_eq!(apu.pulse_channel_1.envelope.length_counter.counter, 160);
    assert_eq!(apu.read_status() & 0x01, 0x01);
    for _ in 0..159 {
        apu.pulse_channel_1.envelope.length_counter.clock();
    }
    assert_eq!(apu.read_status() & 0x01, 0x01);
    apu.pulse_channel_1.envelope.length_counter.clock();
    assert_eq!(apu.pulse_channel_1.envelope.length_counter.counter, 0);
    assert_eq!(apu.read_status() & 0x01, 0);
}

#[test]
fn length_counter_halt_stops_counting() {
    let mut l = LengthCounter::new();
    l.load(0x08);
    l.halt = true;
    l.clock();
    assert_eq!(l.counter, 160);
    l.halt = false;
    l.clock();
    assert_eq!(l.counter, 159);
}

#[test]
fn apu_disable_zeroes_length() {
    let mut apu = Apu::new();
    apu.write_control(0x0F);
    apu.write(0x0F, 0x08);
    assert_eq!(apu.noise_channel.envelope.length_counter.counter, 160);
    apu.write_control(0x00);
    assert_eq!(apu.noise_channel.envelope.length_counter.counter, 0);
}

#[test]
fn apu_frame_irq_in_four_step_mode() {
    let cart = load_cartridge(image(0, &[], 0x8000, 0x8000, 0x8000)).unwrap();
    let mut apu = Apu::new();
    apu.write_frame_counter(0x00);
    let mut samples = 0;
    for _ in 0..2 * 14915 {
        if apu.clock(&cart).is_some() {
            samples += 1;
        }
    }
    assert!(apu.irq_requested());
    assert_eq!(apu.read_status() & 0x40, 0x40);
    assert!(!apu.irq_requested());
    // 14915 APU cycles at 894886.5 Hz is about 735 samples at 44.1 kHz
    assert!((734..=736).contains(&samples));
}

#[test]
fn carry_add_exact() {
    assert_eq!(carry_add(0xFF, 0x01, false), (0x00, true));
    assert_eq!(carry_add(0x10, 0x20, true), (0x31, false));
    assert_eq!(carry_add(0xFF, 0xFF, true), (0xFF, true));
}

#[test]
fn adc_sets_overflow() {
    let mut sys = system_with(&[0xA9, 0x50, 0x69, 0x50]);
    run_instruction(&mut sys);
    run_instruction(&mut sys);
    assert_eq!(sys.cpu.a, 0xA0);
    assert_ne!(sys.cpu.p & FLAG_V, 0);
    assert_eq!(sys.cpu.p & FLAG_C, 0);
}

#[test]
fn indirect_jump_page_bug() {
    assert_eq!(increment_no_carry(0x10FF), 0x1000);
    assert_eq!(increment_no_carry(0x1234), 0x1235);
}

#[test]
fn decode_table_entries() {
    let lda = decode(0xBD).unwrap();
    assert_eq!(lda.op, Op::Lda);
    assert_eq!(lda.mode, Mode::AbsoluteOffsetX);
    assert_eq!(lda.cycles, 4);
    assert!(lda.page_penalty);
    let sta = decode(0x9D).unwrap();
    assert_eq!(sta.cycles, 5);
    assert!(!sta.page_penalty);
    assert!(decode(0x02).is_none());
    assert_eq!(decode(0xFE).unwrap().cycles, 7);
}

#[test]
fn jam_opcode_stops_cpu() {
    let mut sys = system_with(&[0x02]);
    sys.clock(10);
    assert!(sys.cpu.jammed);
    assert_eq!(sys.cpu.pc, 0x8001);
}

#[test]
fn stack_push_and_pull() {
    // LDA #$42; PHA; LDA #$00; PLA
    let mut sys = system_with(&[0xA9, 0x42, 0x48, 0xA9, 0x00, 0x68]);
    let s = sys.cpu.s;
    for _ in 0..2 {
        run_instruction(&mut sys);
    }
    assert_eq!(sys.bus.ram.read(0x0100 | s as u16), 0x42);
    assert_eq!(sys.cpu.s, s.wrapping_sub(1));
    run_instruction(&mut sys);
    run_instruction(&mut sys);
    assert_eq!(sys.cpu.a, 0x42);
    assert_eq!(sys.cpu.s, s);
}

#[test]
fn load_errors_are_distinct() {
    assert_eq!(load_cartridge(vec![0x4E, 0x45, 0x53, 0x00]).err(), Some(LoadError::BadMagic));
    assert_eq!(load_cartridge(vec![0x4E, 0x45, 0x53, 0x1A, 1]).err(), Some(LoadError::Truncated));
    let mut bad = image(5, &[], 0x8000, 0x8000, 0x8000);
    bad[6] = 0x50;
    assert_eq!(load_cartridge(bad).err(), Some(LoadError::UnsupportedMapper(5)));
    let mut short = image(0, &[], 0x8000, 0x8000, 0x8000);
    short.truncate(1000);
    assert_eq!(load_cartridge(short).err(), Some(LoadError::Truncated));
    let mut empty = image(0, &[], 0x8000, 0x8000, 0x8000);
    empty[4] = 0;
    assert_eq!(load_cartridge(empty).err(), Some(LoadError::NoProgramRom));
}

#[test]
fn load_reads_header_fields() {
    let mut data = image(66, &[0x12, 0x34], 0x8000, 0x8000, 0x8000);
    data[6] |= 0x01;
    let cart: Cartridge = load_cartridge(data).unwrap();
    assert_eq!(cart.mirror(), MirrorMode::Vertical);
    assert!(!cart.chr_is_ram);
    assert_eq!(cart.prg_rom.len(), 0x4000);
    assert_eq!(cart.cpu_read(0x8001), Some(0x34));
    assert!(matches!(cart.mapper, Mapper::GxRom(_)));
}

#[test]
fn nrom_mirrors_single_bank() {
    let cart = load_cartridge(image(0, &[0x99], 0x8000, 0x8000, 0x8000)).unwrap();
    assert_eq!(cart.cpu_read(0x8000), Some(0x99));
    assert_eq!(cart.cpu_read(0xC000), Some(0x99));
    assert_eq!(cart.cpu_read(0x5000), None);
}

#[test]
fn uxrom_switches_low_bank() {
    let mut data = image(2, &[], 0x8000, 0x8000, 0x8000);
    data[4] = 2;
    let mut second = vec![0u8; 0x4000];
    second[0] = 0x77;
    let at = 16 + 0x4000;
    for (i, b) in second.into_iter().enumerate() {
        data.insert(at + i, b);
    }
    let mut cart = load_cartridge(data).unwrap();
    assert_eq!(cart.cpu_read(0xC000), Some(0x77));
    cart.cpu_write(0x8000, 1);
    assert_eq!(cart.cpu_read(0x8000), Some(0x77));
}

#[test]
fn open_bus_returns_last_value() {
    // LDA $5000 (unmapped) after the operand byte 0x50 was last on the bus
    let mut sys = system_with(&[0xAD, 0x00, 0x50]);
    run_instruction(&mut sys);
    assert_eq!(sys.cpu.a, 0x50);
}

#[test]
fn ppu_frame_length_and_odd_skip() {
    let mut sys = system_with(&[0x4C, 0x00, 0x80]);
    let mut ppu = Ppu::new();
    let mut bus = ppu_bus();
    for _ in 0..341 * 262 {
        ppu.clock(&mut bus);
    }
    assert_eq!((ppu.scanline, ppu.dot), (0, 0));
    ppu.mask = 0x08;
    for _ in 0..341 * 262 - 1 {
        ppu.clock(&mut bus);
    }
    assert_eq!((ppu.scanline, ppu.dot), (0, 0));
    sys.clock(10);
    assert_eq!(sys.bus.ppu.ticks, 30);
}

#[test]
fn envelope_decays_and_loops() {
    let mut e = Envelope::new();
    e.set(0x02);
    e.clock();
    assert_eq!(e.decay_counter, 15);
    for _ in 0..3 {
        e.clock();
    }
    assert_eq!(e.decay_counter, 14);
    e.length_counter.counter = 1;
    assert_eq!(e.get_volume(), 14);
    e.set(0x10);
    assert_eq!(e.get_volume(), 0);
}

#[test]
fn sweep_target_negates_with_extra_one_on_first_channel() {
    let mut first = Sweep::new(true);
    first.sequencer.set_period(0x100);
    first.set(0x89);
    first.update_target_period();
    assert_eq!(first.target_period, 0x100 - 0x80 - 1);
    let mut second = Sweep::new(false);
    second.sequencer.set_period(0x100);
    second.set(0x89);
    second.update_target_period();
    assert_eq!(second.target_period, 0x80);
    second.set(0x81);
    second.update_target_period();
    assert_eq!(second.target_period, 0x180);
}

#[test]
fn noise_feedback_enters_bit_14() {
    let mut n = NoiseChannel::new();
    n.clock(false, false);
    assert_eq!(n.shift, 0x4000);
    n.write(2, 0x80);
    assert!(n.mode);
    assert_eq!(n.sequencer.period & 0x7FF, 3);
}

#[test]
fn triangle_output_steps() {
    let mut t = TriangleChannel::new();
    t.write(0, 0x7F);
    t.write(2, 0x10);
    t.write(3, 0x08);
    t.clock(true, false);
    assert_eq!(t.linear_counter, 0x7F);
    assert_eq!(t.sample(), 15);
    t.sequence_pos = 15;
    assert_eq!(t.sample(), -15);
    t.sequence_pos = 20;
    assert_eq!(t.sample(), -7);
}

#[test]
fn irq_respects_interrupt_mask() {
    let mut sys = system_with(&[0x58, 0xEA, 0xEA]);
    assert_ne!(sys.cpu.p & FLAG_I, 0);
    sys.cpu.signal_irq();
    assert!(!sys.cpu.irq_pending);
    run_instruction(&mut sys);
    sys.cpu.signal_irq();
    assert!(sys.cpu.irq_pending);
    assert_eq!(run_instruction(&mut sys), 7);
    assert_eq!(sys.cpu.pc, 0x8000);
    assert_ne!(sys.cpu.p & FLAG_I, 0);
}

#[test]
fn brk_pushes_pc_plus_two_and_b_flag() {
    let mut sys = system_with(&[0x00, 0xEA]);
    let s = sys.cpu.s;
    assert_eq!(run_instruction(&mut sys), 7);
    assert_eq!(sys.bus.ram.read(0x0100 | s as u16), 0x80);
    assert_eq!(sys.bus.ram.read(0x0100 | s.wrapping_sub(1) as u16), 0x02);
    assert_eq!(sys.bus.ram.read(0x0100 | s.wrapping_sub(2) as u16) & 0x30, 0x30);
}

#[test]
fn mmc3_chr_inversion_swaps_layout() {
    let mut m = match get_mapper_from_id(4, 2).unwrap() {
        Mapper::Mmc3(m) => m,
        _ => panic!("mapper 4 is MMC3"),
    };
    m.cpu_write(0x8000, 0x00);
    m.cpu_write(0x8001, 0x04);
    assert_eq!(m.regs.chr_bank[0], 4 * 0x400);
    assert_eq!(m.regs.chr_bank[1], 5 * 0x400);
    m.cpu_write(0x8000, 0x80);
    assert_eq!(m.regs.chr_bank[4], 4 * 0x400);
    assert_eq!(m.regs.chr_bank[5], 5 * 0x400);
    m.cpu_write(0x8001, 0x05);
    assert_eq!(m.regs.chr_bank[4], 4 * 0x400);
    assert_eq!(m.regs.chr_bank[5], 5 * 0x400);
}

#[test]
fn axrom_selects_bank_and_one_screen() {
    let mut m = match get_mapper_from_id(7, 8).unwrap() {
        Mapper::AxRom(m) => m,
        _ => panic!("mapper 7 is AxROM"),
    };
    m.cpu_write(0x8000, 0x13);
    assert_eq!(m.prg_bank, 3);
    assert_eq!(m.mirror, MirrorMode::OneScreenHigh);
    m.cpu_write(0x8000, 0x02);
    assert_eq!(m.mirror, MirrorMode::OneScreenLow);
}

#[test]
fn gxrom_and_cnrom_bank_bits() {
    let mut g = match get_mapper_from_id(66, 2).unwrap() {
        Mapper::GxRom(m) => m,
        _ => panic!("mapper 66 is GxROM"),
    };
    g.cpu_write(0x8000, 0x31);
    assert_eq!((g.prg_bank, g.chr_bank), (3, 1));
    let mut c = match get_mapper_from_id(3, 1).unwrap() {
        Mapper::CNRom(m) => m,
        _ => panic!("mapper 3 is CNROM"),
    };
    c.cpu_write(0x8000, 0x06);
    assert_eq!(c.chr_bank, 2);
}

#[test]
fn apu_status_read_takes_bit_5_from_open_bus() {
    // LDA #$0F; STA $4015 enables four channels; LDA #$08; STA $4003 loads the
    // pulse-1 length; LDA $4015 reads the status. Before that read the bus
    // holds 0x40, the address's high byte, whose bit 5 is clear.
    let program = [0xA9, 0x0F, 0x8D, 0x15, 0x40, 0xA9, 0x08, 0x8D, 0x03, 0x40, 0xAD, 0x15, 0x40];
    let mut sys = system_with(&program);
    for _ in 0..5 {
        run_instruction(&mut sys);
    }
    assert_eq!(sys.cpu.a, 0x01);
}

#[test]
fn ppu_dots_track_cpu_cycles_through_dma() {
    let program = [0xA9, 0x02, 0x8D, 0x14, 0x40, 0x4C, 0x05, 0x80];
    let mut sys = system_with(&program);
    for n in [1usize, 7, 100, 1000, 3] {
        sys.clock(n);
        assert_eq!(sys.bus.ppu.ticks, 3 * sys.cycles);
    }
}

#[test]
fn jmp_indirect_wraps_within_page() {
    // LDA #$34; STA $02FF; LDA #$12; STA $0200; LDA #$99; STA $0300; JMP ($02FF)
    let program = [
        0xA9, 0x34, 0x8D, 0xFF, 0x02, 0xA9, 0x12, 0x8D, 0x00, 0x02, 0xA9, 0x99, 0x8D, 0x00, 0x03,
        0x6C, 0xFF, 0x02,
    ];
    let mut sys = system_with(&program);
    for _ in 0..6 {
        run_instruction(&mut sys);
    }
    assert_eq!(run_instruction(&mut sys), 5);
    assert_eq!(sys.cpu.pc, 0x1234);
}

#[test]
fn jsr_and_rts_return_after_call() {
    // JSR $8010; LDX #$07 ... at 0x8010: LDA #$05; RTS
    let mut program = vec![0x20, 0x10, 0x80, 0xA2, 0x07];
    program.resize(0x10, 0xEA);
    program.extend_from_slice(&[0xA9, 0x05, 0x60]);
    let mut sys = system_with(&program);
    let s = sys.cpu.s;
    assert_eq!(run_instruction(&mut sys), 6);
    assert_eq!(sys.cpu.pc, 0x8010);
    assert_eq!(sys.cpu.s, s.wrapping_sub(2));
    run_instruction(&mut sys);
    assert_eq!(run_instruction(&mut sys), 6);
    assert_eq!(sys.cpu.pc, 0x8003);
    run_instruction(&mut sys);
    assert_eq!((sys.cpu.a, sys.cpu.x), (5, 7));
}

#[test]
fn plp_keeps_b_and_u_clear() {
    // LDA #$FF; PHA; PLP
    let mut sys = system_with(&[0xA9, 0xFF, 0x48, 0x28]);
    for _ in 0..3 {
        run_instruction(&mut sys);
    }
    assert_eq!(sys.cpu.p, 0xCF);
}

#[test]
fn triangle_holds_step_when_linear_counter_is_zero() {
    let mut t = TriangleChannel::new();
    t.write(0, 0x00);
    t.write(2, 0x10);
    t.write(3, 0x08);
    t.sequencer.timer = 0;
    t.clock(false, false);
    assert_eq!(t.sequence_pos, 0);
    t.linear_counter = 3;
    t.sequencer.timer = 0;
    t.clock(false, false);
    assert_eq!(t.sequence_pos, 1);
}
