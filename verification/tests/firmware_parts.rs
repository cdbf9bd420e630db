use analog_noise_test1::bootloader::rcc_set_defaults;
use analog_noise_test1::dac::{sine_table, test_dac, triangle_step, Direction, DAC_MAX, SINE_LEN};
use analog_noise_test1::registers::{Register, RegisterOp};
use analog_noise_test1::delay::ticks_for_ns;
use analog_noise_test1::pwm::{test_pwm_step, PwmAction};
use analog_noise_test1::text::{push_decimal, push_hex, push_hex2};
use analog_noise_test1::touch::{test_touch, touch_line_bytes, TouchAction, TouchEvent};

#[test]
fn delay_ticks_scale_nanoseconds() {
    assert_eq!(ticks_for_ns(1000, 48), 48);
    assert_eq!(ticks_for_ns(999, 48), 48);
    assert_eq!(ticks_for_ns(10, 48), 1);
    assert_eq!(ticks_for_ns(0, 48), 0);
    assert_eq!(ticks_for_ns(20, 8), 1);
    assert_eq!(ticks_for_ns(125, 8), 1);
    assert_eq!(ticks_for_ns(126, 8), 2);
    assert_eq!(ticks_for_ns(5_000_000, 48), 240_000);
    for ns in 0..3000u32 {
        assert!(ticks_for_ns(ns, 48) as u64 * 1000 >= ns as u64 * 48);
    }
    assert!(ticks_for_ns(5000, 48) <= ticks_for_ns(6000, 48));
}

#[test]
fn hex_and_decimal_formatting() {
    let mut v = Vec::new();
    push_hex2(&mut v, 0x0f);
    push_hex2(&mut v, 0xa0);
    assert_eq!(v, b"0fa0".to_vec());
    let mut v = Vec::new();
    push_hex(&mut v, 0x33);
    push_hex(&mut v, 0x0a);
    push_hex(&mut v, 0);
    assert_eq!(v, b"33a0".to_vec());
    for n in [0u32, 7, 10, 99, 12345, 65535, u32::MAX] {
        let mut v = Vec::new();
        push_decimal(&mut v, n);
        assert_eq!(v, format!("{}", n).into_bytes());
    }
    for b in 0..=255u8 {
        let mut v = Vec::new();
        push_hex2(&mut v, b);
        assert_eq!(v, format!("{:02x}", b).into_bytes());
        let mut v = Vec::new();
        push_hex(&mut v, b);
        assert_eq!(v, format!("{:x}", b).into_bytes());
    }
}

#[test]
fn triangle_turns_at_both_ends() {
    assert_eq!(triangle_step(0, Direction::Upcounting), (1, Direction::Upcounting));
    assert_eq!(triangle_step(0, Direction::Downcounting), (1, Direction::Upcounting));
    assert_eq!(triangle_step(4095, Direction::Upcounting), (4094, Direction::Downcounting));
    assert_eq!(triangle_step(100, Direction::Downcounting), (99, Direction::Downcounting));
}

#[test]
fn triangle_wave_has_period_8190() {
    let (mut val, mut dir) = (0u16, Direction::Upcounting);
    let mut max_seen = 0;
    for n in 0..(3 * 8190u32) {
        let m = n % 8190;
        let expected = if m <= 4095 { m } else { 8190 - m };
        assert_eq!(val as u32, expected);
        max_seen = max_seen.max(val);
        let next = triangle_step(val, dir);
        val = next.0;
        dir = next.1;
    }
    assert_eq!(max_seen, DAC_MAX);
}

#[test]
fn sine_table_is_one_period_around_mid_scale() {
    let t = sine_table();
    assert_eq!(t.len(), SINE_LEN as usize);
    assert_eq!(t[0], 2048);
    assert_eq!(t[128], 3839);
    assert_eq!(t[256], 2048);
    assert_eq!(t[384], 256);
    assert!(t.iter().all(|&v| v <= DAC_MAX));
    assert!(t.iter().all(|&v| (256..=3839).contains(&v)));
}

#[test]
fn dac_noise_setup_writes() {
    let ops = test_dac(0x2000_0100);
    assert_eq!(
        ops,
        vec![
            RegisterOp::Write(Register::Tim6Cr2, 0x20),
            RegisterOp::Write(Register::DacCr, 0x0b45_1745),
            RegisterOp::Write(Register::DacDhr12rd, 0),
            RegisterOp::SetBits(Register::RccAhbenr, 1),
            RegisterOp::Write(Register::Dma1Ccr3, 0),
            RegisterOp::Write(Register::Dma1Cmar3, 0x2000_0100),
            RegisterOp::Write(Register::Dma1Cndtr3, 512),
            RegisterOp::Write(Register::Dma1Cpar3, 0x4000_7408),
            RegisterOp::Write(Register::Dma1Ccr3, 0x5b0),
            RegisterOp::Write(Register::Dma1Ccr3, 0x5b1),
        ]
    );
    assert_eq!(Register::DacCr.address(), 0x4000_7400);
    assert_eq!(Register::Tim6Cr2.address(), 0x4000_1004);
    assert_eq!(Register::Dma1Ccr3.address(), 0x4002_0030);
    assert_eq!(Register::Dma1Cmar3.address(), 0x4002_003c);
}

#[test]
fn clock_controller_reset_values() {
    let ops = rcc_set_defaults();
    assert_eq!(ops.len(), 14);
    assert_eq!(ops[0], RegisterOp::Write(Register::RccCr, 0x83));
    assert_eq!(ops[5], RegisterOp::Write(Register::RccAhbenr, 0x14));
    assert_eq!(ops[8], RegisterOp::Write(Register::RccBdcr, 0x18));
    assert_eq!(ops[9], RegisterOp::Write(Register::RccCsr, 0x0c00_0000));
    assert_eq!(ops[13], RegisterOp::Write(Register::RccCr2, 0x80));
    assert_eq!(Register::RccCr.address(), 0x4002_1000);
    assert_eq!(Register::RccCr2.address(), 0x4002_1034);
}

#[test]
fn touch_line_format() {
    assert_eq!(touch_line_bytes(12, 3456), b"TOUCH: 12, 3456\n".to_vec());
    assert_eq!(touch_line_bytes(0, 65535), b"TOUCH: 0, 65535\n".to_vec());
}

#[test]
fn touch_test_makes_four_acquisitions() {
    let mut t = test_touch();
    let mut acquisitions = 0;
    let mut lines = Vec::new();
    let mut a = t.pending();
    let mut round = 0u16;
    loop {
        a = match a {
            TouchAction::Acquire => {
                acquisitions += 1;
                round += 1;
                if round == 2 {
                    t.step(TouchEvent::Acquired(None))
                } else {
                    t.step(TouchEvent::Acquired(Some((round, 100 + round))))
                }
            }
            TouchAction::Print(line) => {
                lines.push(String::from_utf8(line).unwrap());
                t.step(TouchEvent::Printed)
            }
            TouchAction::Finish => break,
        };
    }
    assert_eq!(acquisitions, 4);
    assert_eq!(lines, vec!["TOUCH: 1, 101\n", "TOUCH: 3, 103\n", "TOUCH: 4, 104\n"]);
}

#[test]
fn pwm_sweep_steps() {
    let max = 3u16;
    let mut steps = Vec::new();
    let mut k = 0u32;
    loop {
        let a = test_pwm_step(max, k);
        steps.push(a);
        if a == PwmAction::Finish {
            break;
        }
        k += 1;
    }
    let mut expected = vec![PwmAction::SetDuty(1), PwmAction::Enable];
    for _ in 0..4 {
        for i in 0..max {
            expected.push(PwmAction::SetDuty(i));
            expected.push(PwmAction::WaitMs);
        }
    }
    expected.push(PwmAction::Finish);
    assert_eq!(steps, expected);
    assert_eq!(test_pwm_step(0, 2), PwmAction::Finish);
    assert_eq!(test_pwm_step(2400, 0), PwmAction::SetDuty(1200));
}
