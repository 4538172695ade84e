//! The emulator core.
use genesoxide::api::{
    AudioEvent, Command, GenesisCore, Stamp, TimedPsgWrite, TimedYm2612Write, Z80Report,
    Z80Request,
};
use genesoxide::cpu::Bus;
use genesoxide::io::{Button, ControllerPort, PadType};
use genesoxide::rewind::RewindConfig;
use genesoxide::z80::Z80Registers;

#[test]
fn new_core_is_not_paused() {
    let core = GenesisCore::new();
    assert!(!core.paused());
}

#[test]
fn load_rom_reads_vectors() {
    let mut rom = vec![0u8; 1024];
    // SSP = 0x00FF_FFF0 at address 0
    rom[0..4].copy_from_slice(&0x00FF_FFF0u32.to_be_bytes());
    // PC = 0x0000_0200 at address 4
    rom[4..8].copy_from_slice(&0x0000_0200u32.to_be_bytes());
    // System type for header validation
    rom[0x100..0x110].copy_from_slice(b"SEGA GENESIS    ");

    let mut core = GenesisCore::new();
    core.execute(Command::LoadRom(rom));

    assert_eq!(core.cpu_ssp(), 0x00FF_FFF0);
    assert_eq!(core.cpu_pc(), 0x0000_0200);
    assert_eq!(core.rom_header().unwrap().system_type, "SEGA GENESIS");
}

#[test]
fn step_frame_increments_counter() {
    let mut core = GenesisCore::new();
    core.execute(Command::LoadRom(vec![0; 1024]));
    core.execute(Command::StepFrame);
    assert_eq!(core.frame_count(), 1);
}

#[test]
fn pause_prevents_frame_execution() {
    let mut core = GenesisCore::new();
    core.execute(Command::LoadRom(vec![0; 1024]));
    core.execute(Command::Pause);
    core.execute(Command::StepFrame);
    assert_eq!(core.frame_count(), 0);
}

#[test]
fn work_ram_read_write() {
    let mut core = GenesisCore::new();
    core.board.bus.work_ram[0x1234] = 0xAB;
    assert_eq!(core.read_byte(0xFF1234), 0xAB);
}

#[test]
fn io_version_register_returns_region() {
    let core = GenesisCore::new();
    let val = core.read_byte(0xA10001);
    // Should be 0xA0 (overseas NTSC), not controller data (0x7F)
    assert_eq!(val, 0xA0);
}

#[test]
fn z80_bus_request_grants_immediately() {
    let core = GenesisCore::new();
    // Z80 bus request: bit 0 = 0 means bus granted to 68K
    let val = core.read_byte(0xA11100);
    assert_eq!(val & 0x01, 0x00, "bit 0 should be 0 (bus granted)");
}

#[test]
fn power_cycle_resets_z80() {
    let mut core = GenesisCore::new();
    core.z80.pc = 0x1234;
    core.board.bus.z80_ram[0] = 0xFF;
    core.execute(Command::PowerCycle);
    assert_eq!(core.z80.pc, 0);
    assert_eq!(core.board.bus.z80_ram[0], 0);
}

/// Stamps the bus with a master tick of the current scanline.
fn stamp_at(core: &mut GenesisCore, master_tick: u64) {
    let scanline = core.board.bus.vdp.scanline();
    core.board.bus.stamp = Stamp { frame: core.frame_count(), scanline, master_tick };
}

#[test]
fn timed_ym2612_trace_records_68k_bus_writes() {
    let mut core = GenesisCore::new();
    stamp_at(&mut core, 1_234);
    let bus = &mut core.board.bus;
    bus.write_byte(0xA04000, 0x28);
    bus.write_byte(0xA04001, 0x30);
    bus.write_byte(0xA04002, 0x2A);
    bus.write_byte(0xA04003, 0x7F);

    assert_eq!(
        core.ym2612_timed_write_trace(),
        &[
            TimedYm2612Write {
                master_tick: 1_234,
                frame: 0,
                scanline: 0,
                port: 0,
                addr: 0x28,
                value: 0x30,
            },
            TimedYm2612Write {
                master_tick: 1_234,
                frame: 0,
                scanline: 0,
                port: 1,
                addr: 0x2A,
                value: 0x7F,
            },
        ]
    );
}

#[test]
fn timed_ym2612_trace_records_z80_bus_writes_and_can_clear() {
    let mut core = GenesisCore::new();
    stamp_at(&mut core, 9_876);
    core.z80_write(0x4000, 0x2B);
    core.z80_write(0x4001, 0x80);

    assert_eq!(
        core.ym2612_timed_write_trace(),
        &[TimedYm2612Write {
            master_tick: 9_876,
            frame: 0,
            scanline: 0,
            port: 0,
            addr: 0x2B,
            value: 0x80,
        }]
    );

    core.clear_ym2612_timed_write_trace();
    assert!(core.ym2612_timed_write_trace().is_empty());
}

#[test]
fn timed_psg_trace_records_68k_and_z80_writes() {
    let mut core = GenesisCore::new();
    stamp_at(&mut core, 2_468);
    core.board.bus.write_byte(0xC00011, 0x9F);
    stamp_at(&mut core, 8_642);
    core.z80_write(0x7F11, 0xE4);

    assert_eq!(
        core.psg_timed_write_trace(),
        &[
            TimedPsgWrite {
                master_tick: 2_468,
                frame: 0,
                scanline: 0,
                value: 0x9F,
            },
            TimedPsgWrite {
                master_tick: 8_642,
                frame: 0,
                scanline: 0,
                value: 0xE4,
            },
        ]
    );

    core.clear_psg_timed_write_trace();
    assert!(core.psg_timed_write_trace().is_empty());
}

#[test]
fn snapshot_restore_roundtrip() {
    let rom = vec![0u8; 0x8000];
    let mut core = GenesisCore::new();
    core.execute(Command::LoadRom(rom));

    // Advance to a non-trivial state.
    for _ in 0..10 {
        core.execute(Command::StepFrame);
    }
    let snap = core.snapshot();

    // Run forward and capture the reference framebuffer.
    for _ in 0..10 {
        core.execute(Command::StepFrame);
    }
    let fb_forward = core.framebuffer_rgba().to_vec();
    let snap_forward = core.snapshot();

    // Restore and replay the same frames — must reproduce exactly.
    core.restore(&snap);
    assert_eq!(core.frame_count(), snap.frame_count);
    for _ in 0..10 {
        core.execute(Command::StepFrame);
    }
    let fb_replay = core.framebuffer_rgba().to_vec();

    assert_eq!(fb_forward, fb_replay, "framebuffers diverged after restore");
    assert!(
        core.snapshot() == snap_forward,
        "snapshot state diverged after restore+replay"
    );
}

/// Deterministic scripted controller input for frame `frame`.
fn scripted_buttons(frame: u64) -> u16 {
    // A fixed, frame-dependent bit pattern. The exact semantics are
    // irrelevant — both runs receive the identical stream, so the emulator
    // must reach identical state.
    let mut b = 0u16;
    if frame % 2 == 0 {
        b |= 0x0001;
    }
    if frame % 3 == 0 {
        b |= 0x0010;
    }
    if frame % 5 == 0 {
        b |= 0x0020;
    }
    if frame % 7 == 0 {
        b |= 0x0008;
    }
    b
}

#[test]
fn determinism_frame_to_frame() {
    let rom = vec![0u8; 0x8000];
    let mut a = GenesisCore::new();
    let mut b = GenesisCore::new();
    a.execute(Command::LoadRom(rom.clone()));
    b.execute(Command::LoadRom(rom));

    for frame in 0..120u64 {
        let buttons = scripted_buttons(frame);
        a.execute(Command::SetControllerState { port: 0, buttons });
        b.execute(Command::SetControllerState { port: 0, buttons });
        a.execute(Command::StepFrame);
        b.execute(Command::StepFrame);
    }

    let sa = a.snapshot();
    let sb = b.snapshot();
    assert!(sa == sb, "snapshot state diverged between identical runs");
    // Byte-equal printed snapshots.
    assert_eq!(
        format!("{sa:?}"),
        format!("{sb:?}"),
        "printed snapshots are not byte-equal"
    );
    // Framebuffers identical.
    assert_eq!(
        a.framebuffer_rgba(),
        b.framebuffer_rgba(),
        "framebuffers diverged between identical runs"
    );
}

#[test]
fn rewind_roundtrip() {
    const F: u64 = 120;
    const R: u32 = 30;
    let rom = vec![0u8; 0x8000];

    // Core under test (rewind enabled by default).
    let mut core = GenesisCore::new();
    core.execute(Command::LoadRom(rom.clone()));
    // Reference core that never rewinds.
    let mut reference = GenesisCore::new();
    reference.execute(Command::LoadRom(rom));

    for frame in 0..F {
        let buttons = scripted_buttons(frame);
        core.execute(Command::SetControllerState { port: 0, buttons });
        reference.execute(Command::SetControllerState { port: 0, buttons });
        core.execute(Command::StepFrame);
        reference.execute(Command::StepFrame);
    }

    let ref_snap = reference.snapshot();
    let ref_fb = reference.framebuffer_rgba().to_vec();
    assert_eq!(core.frame_count(), F);

    // Rewind, then replay the same input stream for the abandoned frames.
    core.execute(Command::Rewind { frames: R });
    assert_eq!(core.frame_count(), F - u64::from(R));
    for frame in (F - u64::from(R))..F {
        let buttons = scripted_buttons(frame);
        core.execute(Command::SetControllerState { port: 0, buttons });
        core.execute(Command::StepFrame);
    }
    assert_eq!(core.frame_count(), F);

    assert!(
        core.snapshot() == ref_snap,
        "state after rewind+replay differs from the never-rewound reference"
    );
    assert_eq!(
        format!("{:?}", core.snapshot()),
        format!("{ref_snap:?}"),
        "printed state after rewind+replay is not byte-equal to reference"
    );
    assert_eq!(
        core.framebuffer_rgba(),
        ref_fb.as_slice(),
        "framebuffer after rewind+replay differs from reference"
    );
}

/// Measures the compressed timeline against a ring of full snapshots.
#[test]
fn rewind_measurements() {
    let rom = vec![0u8; 0x8000];
    let mut core = GenesisCore::new();
    core.execute(Command::LoadRom(rom));

    // Warm up to a representative state.
    for _ in 0..120 {
        core.execute(Command::StepFrame);
    }

    // The bytes of the large buffers alone.
    let snap = core.snapshot();
    let plain_bytes = snap.work_ram.len() + snap.z80_ram.len() + snap.vdp.vram.len();

    // Fill a full 30s window (default config = 1800 frames) and measure the
    // compressed timeline against a naive full-snapshot ring buffer.
    const WINDOW_FRAMES: u64 = 1800;
    for _ in 0..WINDOW_FRAMES {
        core.execute(Command::StepFrame);
    }
    let delta_bytes = core.rewind_memory_used();
    let naive_bytes = (plain_bytes as u64) * WINDOW_FRAMES;
    println!(
        "timeline: {} bytes, {} frames; full snapshots: {} bytes",
        delta_bytes,
        core.rewind_frames_available(),
        naive_bytes
    );

    assert!(delta_bytes > 0);
    assert!((delta_bytes as u64) < naive_bytes);
}

/// Pad type (and the extended-read behavior it enables) survives a snapshot
/// round-trip.
#[test]
fn pad_type_survives_snapshot() {
    let mut core = GenesisCore::new();
    let mut port = ControllerPort::new();
    port.set_pad_type(PadType::ThreeButton);
    core.board.bus.port1 = port;
    let snap = core.snapshot();
    let mut other = GenesisCore::new();
    other.restore(&snap);
    assert_eq!(other.board.bus.port1.pad_type(), PadType::ThreeButton);
    assert_eq!(other.board.bus.port1, port);

    let mut six = ControllerPort::new();
    six.set_pad_type(PadType::SixButton);
    core.board.bus.port1 = six;
    let snap = core.snapshot();
    other.restore(&snap);
    assert_eq!(other.board.bus.port1.pad_type(), PadType::SixButton);
}

/// A ROM with vectors and code at 0x200.
fn program(code: &[u16]) -> Vec<u8> {
    let mut rom = vec![0u8; 0x1000];
    rom[0..4].copy_from_slice(&0x00FF_FF00u32.to_be_bytes());
    rom[4..8].copy_from_slice(&0x0000_0200u32.to_be_bytes());
    for (i, word) in code.iter().enumerate() {
        rom[0x200 + i * 2..0x202 + i * 2].copy_from_slice(&word.to_be_bytes());
    }
    rom
}

/// A core that runs a program.
fn running(code: &[u16]) -> GenesisCore {
    let mut core = GenesisCore::new();
    core.execute(Command::LoadRom(program(code)));
    core
}

#[test]
fn step_cpu_executes_one_instruction() {
    // MOVEQ #5, D0
    let mut core = running(&[0x7005]);
    core.execute(Command::StepCpu);
    assert_eq!(core.board.cpu.d[0], 5);
    assert_eq!(core.cpu_pc(), 0x202);
    assert_eq!(core.board.cpu.cycles, 4);
    assert_eq!(core.master_ticks(), 28);
}

#[test]
fn step_scanline_runs_488_cycles() {
    // NOPs take 4 cycles each.
    let mut core = running(&[0x4E71; 400]);
    core.execute(Command::StepScanline);
    assert_eq!(core.board.cpu.cycles, 488);
    assert_eq!(core.cpu_pc(), 0x200 + 122 * 2);
}

#[test]
fn cpu_writes_reach_work_ram_and_wrap_by_word() {
    // MOVE.W #$1234, $FF0010 ; MOVE.B #$56, $FF0012
    let mut core = running(&[0x33FC, 0x1234, 0x00FF, 0x0010, 0x13FC, 0x0056, 0x00FF, 0x0012]);
    core.execute(Command::StepCpu);
    core.execute(Command::StepCpu);
    assert_eq!(core.read_long(0xFF0010), 0x1234_5600);
    assert_eq!(core.read_word(0xFF_0010), 0x1234);
}

#[test]
fn reset_rereads_vectors_and_keeps_ram() {
    let mut core = running(&[0x7005]);
    core.execute(Command::StepCpu);
    core.write_byte_bus(0xFF0000, 0x99);
    core.execute(Command::Reset);
    assert_eq!(core.cpu_pc(), 0x200);
    assert_eq!(core.cpu_sr(), 0x2000);
    assert_eq!(core.read_byte(0xFF0000), 0x99);
    core.execute(Command::PowerCycle);
    assert_eq!(core.read_byte(0xFF0000), 0);
    assert_eq!(core.cpu_pc(), 0x200);
}

#[test]
fn host_writes_reach_ram_io_and_vdp_ports() {
    let mut core = GenesisCore::new();
    core.write_word_bus(0xFF0001, 0xABCD);
    // An odd word write puts both bytes at the odd address; the low byte stays.
    assert_eq!(core.read_byte(0xFF0001), 0xCD);
    assert_eq!(core.read_byte(0xFF0000), 0);
    core.write_byte_bus(0xA10009, 0x40);
    assert_eq!(core.read_byte(0xA10009), 0x40);
    core.write_word_bus(0xC00004, 0x8144);
    assert_eq!(core.vdp_register(1), 0x44);
    assert_eq!(core.read_byte(0xC00004), 0x36);
}

#[test]
fn rom_reads_beyond_the_end() {
    let core = running(&[0x4E71]);
    assert_eq!(core.read_byte(0x00_0004), 0);
    assert_eq!(core.read_byte(0x00_0202), 0);
    assert_eq!(core.read_byte(0x3F_0000), 0);
    assert_eq!(core.rom_byte(0x200), 0x4E);
    assert_eq!(core.rom_byte(0x10_0000), 0xFF);
}

#[test]
fn controller_commands_reach_their_ports() {
    let mut core = GenesisCore::new();
    core.execute(Command::PressButton { port: 0, button: Button::B });
    core.execute(Command::SetControllerState { port: 1, buttons: 0x0011 });
    assert_eq!(core.board.bus.port1.buttons(), 0x0020);
    assert_eq!(core.board.bus.port2.buttons(), 0x0011);
    core.execute(Command::ReleaseButton { port: 0, button: Button::B });
    assert_eq!(core.board.bus.port1.buttons(), 0);
    core.execute(Command::SetSpeed(500));
    assert_eq!(core.speed_permille, 500);
    core.execute(Command::Pause);
    assert!(core.paused());
    core.execute(Command::Resume);
    assert!(!core.paused());
}

#[test]
fn z80_area_and_control_lines() {
    let mut core = GenesisCore::new();
    let bus = &mut core.board.bus;
    bus.write_byte(0xA01FFF, 0x81);
    bus.write_word(0xA00010, 0xBEEF);
    assert_eq!(bus.read_byte(0xA01FFF), 0x81);
    // The RAM is mirrored.
    assert_eq!(bus.read_byte(0xA02010), 0xBE);
    assert_eq!(bus.read_word(0xA00010), 0xBEEF);
    assert_eq!(bus.read_byte(0xA05000), 0xFF);
    // Bus request: granted at once; releasing it is noted.
    assert_eq!(bus.read_byte(0xA11100), 0);
    assert_eq!(bus.read_byte(0xA11200), 1);
    assert_eq!(bus.read_word(0xA11200), 0x0100);
    bus.write_word(0xA11100, 0x0100);
    assert_eq!(bus.read_word(0xA11200), 0);
    bus.write_byte(0xA11100, 0);
    assert!(bus.z80_bus_released_this_scanline);
    // Reset line: releasing it restarts the Z80.
    assert!(bus.z80_reset);
    bus.write_word(0xA11200, 0x0100);
    assert!(!bus.z80_reset);
    assert!(bus.z80_reset_pending);
    assert_eq!(core.z80_cmd_trace(), &[(0, 0x81)]);
    assert_eq!(core.z80_driver_write_info(), (2, 0));
}

#[test]
fn z80_sees_its_ram_and_the_banked_rom() {
    let mut rom = vec![0u8; 0x20000];
    rom[0x1_8003] = 0x77;
    let mut core = GenesisCore::new();
    core.execute(Command::LoadRom(rom));
    core.z80_write(0x0005, 0x12);
    assert_eq!(core.z80_read(0x2005), 0x12);
    assert_eq!(core.z80_read(0x5000), 0xFF);
    // Nine bits, lowest first: bank 3 is ROM offset 0x18000.
    for bit in [1, 1, 0, 0, 0, 0, 0, 0, 0] {
        core.z80_write(0x6000, bit);
    }
    assert_eq!(core.z80_bank(), 0x1_8000);
    assert_eq!(core.z80_read(0x8003), 0x77);
}

/// A report of the Z80 with the interrupt line down.
fn report(cycles: u32, pc: u16, halted: bool) -> Z80Report {
    Z80Report { cycles, pc, halted, int_line: false, registers: Z80Registers::default() }
}

/// Runs a frame with a Z80 that answers as given.
fn run_frame_with(core: &mut GenesisCore, mut answer: impl FnMut(Z80Request) -> Z80Report) {
    core.execute(Command::StepFrame);
    while let Some(request) = core.z80_request() {
        let answered = answer(request);
        core.z80_report(answered);
    }
}

/// A program that lets the Z80 run: MOVE.W #$0100, $A11200 ; BRA.S *
const RELEASE_Z80: [u16; 5] = [0x33FC, 0x0100, 0x00A1, 0x1200, 0x60FE];

#[test]
fn frame_waits_for_the_z80() {
    let mut core = running(&RELEASE_Z80);
    core.execute(Command::StepFrame);
    assert_eq!(core.frame_count(), 0);
    assert_eq!(core.z80_request(), Some(Z80Request::Reset));
    // Asking again changes nothing.
    core.execute(Command::StepFrame);
    assert_eq!(core.z80_request(), Some(Z80Request::Reset));
    // A reset takes no time.
    let idle = report(0, 0, false);
    core.z80_report(idle);
    assert_eq!(core.z80_request(), Some(Z80Request::Interrupt));
    // No interrupt: an instruction is due.
    core.z80_report(idle);
    assert_eq!(core.z80_request(), Some(Z80Request::Instruction));
    core.z80_report(report(4, 1, false));
    assert_eq!(core.z80_request(), Some(Z80Request::Interrupt));
    assert_eq!(core.z80_cycles(), 4);
    assert_eq!(core.z80_pc(), 1);
}

#[test]
fn z80_gets_228_cycles_a_scanline() {
    let mut core = running(&RELEASE_Z80);
    run_frame_with(&mut core, |request| match request {
        Z80Request::Reset | Z80Request::Interrupt => {
            report(0, 0, false)
        }
        Z80Request::Instruction => report(4, 0, false),
    });
    assert_eq!(core.frame_count(), 1);
    assert_eq!(core.z80_cycles(), 228 * 262);
}

#[test]
fn halted_z80_sleeps_through_its_cycles() {
    let mut core = running(&RELEASE_Z80);
    let mut requests = 0;
    run_frame_with(&mut core, |request| {
        if request == Z80Request::Interrupt {
            requests += 1;
        }
        report(0, 0x10, true)
    });
    assert_eq!(requests, 262);
    assert_eq!(core.z80_cycles(), 228 * 262);
    assert_eq!(core.frame_count(), 1);
}

#[test]
fn z80_writes_carry_their_tick() {
    let mut core = running(&RELEASE_Z80);
    core.execute(Command::StepFrame);
    core.z80_report(report(0, 0, false));
    core.z80_report(report(0, 0, false));
    core.z80_report(report(10, 0, false));
    core.z80_write(0x4000, 0x2A);
    core.z80_write(0x4001, 0x55);
    let trace = core.ym2612_timed_write_trace();
    assert_eq!(trace.len(), 1);
    assert_eq!(trace[0].master_tick, 150);
    assert_eq!(trace[0].scanline, 0);
}

#[test]
fn frames_advance_the_audio_timeline() {
    let mut core = running(&[0x60FE]);
    core.execute(Command::StepFrame);
    assert_eq!(core.audio_master_ticks(), 262 * 3420);
    // 896040 ticks at 44100 Hz: samples 1 to 735 are due.
    assert_eq!(core.audio_output_sample_count(), 735);
    let outputs = core
        .audio_events()
        .iter()
        .filter(|e| matches!(e, AudioEvent::Output))
        .count();
    assert_eq!(outputs, 735);
    let native = core
        .audio_events()
        .iter()
        .filter(|e| matches!(e, AudioEvent::Ym(_)))
        .count();
    // Ticks 1008, 2016, ... below 896040.
    assert_eq!(native, 888);
    core.clear_audio_buffer();
    assert!(core.audio_events().is_empty());
    core.execute(Command::SetAudioSampleRate(48_000));
    assert_eq!(core.audio_output_sample_count(), 0);
    assert_eq!(core.audio_master_ticks(), 0);
    assert_eq!(core.audio_events(), &[AudioEvent::Restart]);
    core.execute(Command::StepFrame);
    assert_eq!(core.audio_output_sample_count(), 801);
}

/// A program that enables the V-interrupt and waits with a mask.
/// MOVE.W #$8164, $C00004 ; MOVE.W #sr, SR ; BRA.S *
fn vint_program(sr: u16) -> Vec<u16> {
    vec![0x33FC, 0x8164, 0x00C0, 0x0004, 0x46FC, sr, 0x60FE]
}

#[test]
fn vblank_interrupt_is_taken_when_the_mask_allows() {
    let mut core = running(&vint_program(0x2300));
    core.execute(Command::StepFrame);
    assert!(!core.board.bus.vdp.vint_pending());
    assert_eq!(core.cpu_interrupt_mask(), 6);
}

#[test]
fn vblank_interrupt_is_held_until_the_mask_falls() {
    let mut core = running(&vint_program(0x2700));
    core.execute(Command::StepFrame);
    assert!(core.board.bus.vdp.vint_pending());
    assert_eq!(core.cpu_interrupt_mask(), 7);
    // Lower the mask: the held interrupt is taken at once.
    core.board.cpu.sr.set_interrupt_mask(3);
    core.execute(Command::StepCpu);
    assert!(!core.board.bus.vdp.vint_pending());
    assert_eq!(core.cpu_interrupt_mask(), 6);
}

#[test]
fn dma_copies_and_stalls_the_cpu() {
    let mut rom = program(&[0x60FE]);
    rom[0x800..0x804].copy_from_slice(&[0x12, 0x34, 0x56, 0x78]);
    let mut core = GenesisCore::new();
    core.execute(Command::LoadRom(rom));
    // DMA of two words from 0x800 to VRAM 0, in blanking.
    for word in [0x8F02u16, 0x8114, 0x9302, 0x9400, 0x9500, 0x9604, 0x9700, 0x4000, 0x0080] {
        core.write_word_bus(0xC00004, word);
    }
    assert!(core.board.bus.vdp.dma_pending());
    core.board.bus.execute_vdp_dma();
    assert_eq!(&core.board.bus.vdp.vram[0..4], &[0x12, 0x34, 0x56, 0x78]);
    assert_eq!(core.board.bus.vdp.dma_busy_cpu_cycles(), 488);
    // The CPU stands still for a scanline.
    let pc = core.cpu_pc();
    core.execute(Command::StepScanline);
    assert_eq!(core.cpu_pc(), pc);
    assert_eq!(core.board.cpu.cycles, 488);
    assert!(!core.board.bus.vdp.dma_busy());
}

#[test]
fn step_back_undoes_a_frame() {
    // ADDQ.W #1, D0 ; BRA.S back
    let mut core = running(&[0x5240, 0x60FC]);
    core.execute(Command::StepFrame);
    core.execute(Command::StepFrame);
    let second = core.snapshot();
    core.execute(Command::StepFrame);
    assert!(core.snapshot() != second);
    core.execute(Command::StepBack);
    assert!(core.snapshot() == second);
    assert_eq!(core.rewind_status().newest_frame, Some(2));
    // A frame that is not retained leaves everything as it is.
    core.execute(Command::Rewind { frames: 50 });
    assert!(core.snapshot() == second);
    core.execute(Command::SetRewindConfig(RewindConfig {
        enabled: false,
        ..RewindConfig::default()
    }));
    assert_eq!(core.rewind_frames_available(), 0);
}

#[test]
fn restored_core_runs_on_identically() {
    // ADDQ.W #1, D0 ; MOVE.W D0, $FF0000 ; BRA.S back
    let code = [0x5240, 0x33C0, 0x00FF, 0x0000, 0x60F6];
    let mut a = running(&code);
    a.execute(Command::StepFrame);
    let snap = a.snapshot();
    let mut b = running(&code);
    b.restore(&snap);
    a.execute(Command::StepFrame);
    b.execute(Command::StepFrame);
    assert!(a.snapshot() == b.snapshot());
    assert_eq!(a.framebuffer_rgba(), b.framebuffer_rgba());
}

/// A Z80 that counts its instructions in its RAM and in a register.
fn run_counting_frame(core: &mut GenesisCore) {
    core.execute(Command::StepFrame);
    while let Some(request) = core.z80_request() {
        let mut registers = core.z80.registers;
        let cycles = match request {
            Z80Request::Reset => {
                registers.bc = 0;
                0
            }
            Z80Request::Interrupt => 0,
            Z80Request::Instruction => {
                let count = core.z80_read(0x0100);
                core.z80_write(0x0100, count.wrapping_add(1));
                registers.bc += 1;
                11
            }
        };
        core.z80_report(Z80Report { registers, ..report(cycles, 0x20, false) });
    }
}

#[test]
fn stepped_back_frame_plays_again_the_same() {
    let mut core = running(&RELEASE_Z80);
    run_counting_frame(&mut core);
    run_counting_frame(&mut core);
    let second = core.snapshot();
    run_counting_frame(&mut core);
    let third = core.snapshot();
    assert!(third != second);
    assert_eq!(third.frame_count, 3);
    core.execute(Command::StepBack);
    assert!(core.snapshot() == second);
    assert_eq!(core.z80.registers.bc, 2 * 21 * 262);
    run_counting_frame(&mut core);
    assert!(core.snapshot() == third);
    assert_eq!(core.z80.registers.bc, 3 * 21 * 262);
}

#[test]
fn save_state_resumes_in_another_core() {
    let mut a = running(&RELEASE_Z80);
    run_counting_frame(&mut a);
    let saved = a.snapshot();
    let mut b = running(&RELEASE_Z80);
    // The other core has a past of its own.
    run_counting_frame(&mut b);
    run_counting_frame(&mut b);
    b.restore(&saved);
    for core in [&mut a, &mut b] {
        core.execute(Command::PressButton { port: 0, button: Button::Start });
        run_counting_frame(core);
        core.execute(Command::StepScanline);
        core.execute(Command::StepCpu);
    }
    assert!(a.snapshot() == b.snapshot());
    assert!(a.ym2612_timed_write_trace() == b.ym2612_timed_write_trace());
}

#[test]
fn frames_keep_the_rom_and_the_buttons() {
    // MOVE.W D0, $000300 ; ADDQ.W #1, D0 ; BRA.S back
    let code = [0x33C0, 0x0000, 0x0300, 0x5240, 0x60F6];
    let mut core = running(&code);
    core.execute(Command::PressButton { port: 0, button: Button::A });
    let buttons = core.board.bus.port1.buttons;
    for command in [
        Command::StepFrame,
        Command::StepScanline,
        Command::StepCpu,
        Command::Reset,
        Command::StepFrame,
        Command::StepBack,
        Command::PowerCycle,
    ] {
        core.execute(command);
        assert_eq!(core.board.bus.rom, program(&code));
    }
    assert_eq!(core.board.bus.port1.buttons, buttons);
}

#[test]
fn rte_undoes_the_interrupt() {
    // The V-interrupt handler at 0x300 is a single RTE.
    let mut rom = program(&vint_program(0x2300));
    rom[0x78..0x7C].copy_from_slice(&0x0000_0300u32.to_be_bytes());
    rom[0x300..0x302].copy_from_slice(&0x4E73u16.to_be_bytes());
    let mut core = GenesisCore::new();
    core.execute(Command::LoadRom(rom));
    for _ in 0..3 {
        core.execute(Command::StepCpu);
    }
    let before = core.snapshot().cpu;
    core.board.bus.vdp.set_vint_pending();
    core.execute(Command::StepCpu);
    assert_eq!(core.cpu_pc(), 0x300);
    assert_eq!(core.cpu_interrupt_mask(), 6);
    assert_eq!(core.cpu_ssp(), 0x00FF_FEFA);
    core.execute(Command::StepCpu);
    let after = core.snapshot().cpu;
    assert_eq!(after.pc, before.pc);
    assert_eq!(after.sr, before.sr);
    assert_eq!(after.a, before.a);
    assert_eq!(after.d, before.d);
    assert_eq!(after.ssp, before.ssp);
    assert_eq!(after.cycles, before.cycles + 44 + 20);
}

/// The instruction stream sees nothing in the control registers and the Z80 area;
/// data accesses do.
#[test]
fn host_reads_see_no_control_registers() {
    let mut core = GenesisCore::new();
    core.board.bus.write_byte(0xA00000, 0x77);
    assert_eq!(core.board.bus.read_byte(0xA00000), 0x77);
    assert_eq!(core.board.bus.read_byte(0xA11200), 1);
    assert_eq!(core.read_byte(0xA00000), 0);
    for addr in [0xA11100, 0xA11101, 0xA11200, 0xA11201] {
        assert_eq!(core.read_byte(addr), 0);
    }
    assert_eq!(core.read_word(0xA11200), 0);
}

/// A snapshot of a core is well formed; one with a buffer or a register out of
/// its range is not.
#[test]
fn malformed_snapshots_are_told_apart() {
    let core = GenesisCore::new();
    let good = core.snapshot();
    assert!(good.is_well_formed());
    let mut snap = good.clone();
    snap.work_ram.pop();
    assert!(!snap.is_well_formed());
    let mut snap = good.clone();
    snap.z80_ram.push(0);
    assert!(!snap.is_well_formed());
    let mut snap = good.clone();
    snap.vdp.cram.clear();
    assert!(!snap.is_well_formed());
    let mut snap = good.clone();
    snap.psg.volume[3] = 16;
    assert!(!snap.is_well_formed());
    let mut snap = good.clone();
    snap.ym2612.channels[5].operators[3].envelope = 1024;
    assert!(!snap.is_well_formed());
    let mut snap = good.clone();
    snap.ym2612.channels[2].ams = 4;
    assert!(!snap.is_well_formed());
    let mut snap = good;
    snap.ym2612.timer_a_period = 1024;
    assert!(!snap.is_well_formed());
}
