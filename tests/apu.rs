use rustboylib::apu::channel2::Channel2;
use rustboylib::apu::channel3::Channel3;
use rustboylib::apu::channel4::Channel4;
use rustboylib::apu::envelope::Envelope;
use rustboylib::apu::sweep::Sweep;
use rustboylib::apu::wave::WaveDuty;
use rustboylib::apu::{Apu, ApuChannel, Volume};

#[test]
fn envelope_register_round_trip() {
    let mut e = Envelope::new();
    e.write(0xAB);
    assert_eq!(e.volume, 0x0A);
    assert!(e.increasing);
    assert_eq!(e.length, 3);
    assert_eq!(e.read(), 0xAB);
}

#[test]
fn sweep_register_round_trip() {
    let mut s = Sweep::new();
    s.write(0x5D);
    assert_eq!(s.read(), 0xDD);
}

#[test]
fn channel2_length_counter() {
    let mut c = Channel2::new();
    c.write_register_1(0xBE);
    assert_eq!(c.wave_duty, WaveDuty::Half);
    assert_eq!(c.counter, 2);
    assert_eq!(c.read_register_1(), 0xBF);
    c.write_register_4(0xC7);
    assert!(c.status && c.use_counter);
    assert_eq!(c.read_register_4(), 0xFF);
    c.write_register_3(0x34);
    assert_eq!(c.freq_bits, 0x734);
    c.tick();
    assert!(c.status);
    c.tick();
    assert!(!c.status);
    assert_eq!(c.counter, 0);
    c.reset();
    assert_eq!(c.freq_bits, 0);
}

#[test]
fn channel3_wave_ram_and_registers() {
    let mut c = Channel3::new();
    c.write_wave_ram(3, 0x5A);
    assert_eq!(c.read_wave_ram(3), 0x5A);
    c.write_register_0(0x80);
    assert_eq!(c.read_register_0(), 0xFF);
    c.write_register_2(0x40);
    assert_eq!(c.read_register_2(), 0xDF);
    c.write_register_1(0xFF);
    assert_eq!(c.counter, 1);
    c.write_register_4(0x40);
    assert_eq!(c.read_register_4(), 0xFF);
    c.reset();
    assert_eq!(c.read_register_0(), 0x7F);
    assert_eq!(c.read_wave_ram(3), 0x5A);
}

#[test]
fn channel4_trigger_reloads_counter() {
    let mut c = Channel4::new();
    c.write_reg3(0x21);
    assert_eq!(c.read_reg3(), 0x21);
    c.write_reg4(0x80);
    assert_eq!(c.counter, 64);
    assert_eq!(c.read_reg4(), 0xBF);
    c.write_reg1(0x3F);
    assert_eq!(c.counter, 1);
    c.tick();
    assert_eq!(c.counter, 1);
}

#[test]
fn volume_levels() {
    assert_eq!(Volume::from_u8(7), Some(Volume::Vol7));
    assert_eq!(Volume::from_u8(8), None);
    let apu = Apu::new(ApuChannel::Wave);
    assert!(apu.enabled);
    assert_eq!(apu.cycles, 4096);
}
