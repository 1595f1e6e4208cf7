use feo_boy::memory::Addressable;
use feo_boy::audio::{Envelope, Frequency, SoundController, Sweep, Wave};
use feo_boy::bytes::ByteExt;

#[test]
fn sweep_read() {
    let mut sweep = Sweep::default();

    for shift_num in 0..8 {
        for inc_dec in 0..2 {
            for time in 0..8 {
                let expected = (time << 4) | (inc_dec << 3) | shift_num;

                sweep.time = time;
                sweep.decrease = if inc_dec == 1 { true } else { false };
                sweep.shift = shift_num;

                assert_eq!(sweep.read(), expected);
            }
        }
    }
}

#[test]
fn sweep_write() {
    let mut sweep = Sweep::default();

    for shift_num in 0..8 {
        for inc_dec in 0..2 {
            for time in 0..8 {
                for extra in 0..2 {
                    let byte = (extra << 7) | (time << 4) | (inc_dec << 3) | shift_num;

                    let expected_time = time;
                    let expected_decrease = if inc_dec == 1 { true } else { false };
                    let expected_shift = shift_num;

                    sweep.write(byte);

                    assert_eq!(sweep.time, expected_time);
                    assert_eq!(sweep.decrease, expected_decrease);
                    assert_eq!(sweep.shift, expected_shift);
                }
            }
        }
    }
}

#[test]
fn wave_read() {
    let mut wave = Wave::default();

    for pattern in 0..4 {
        for length in 0..64 {
            let expected = (pattern << 6) | 0x3F;

            wave.pattern = pattern;
            wave.length = length;

            assert_eq!(wave.read(), expected);
        }
    }
}

#[test]
fn wave_write() {
    let mut wave = Wave::default();

    for pattern in 0..4 {
        for length in 0..64 {
            let byte = (pattern << 6) | length;

            let expected_pattern = pattern;
            let expected_length = length;

            wave.write(byte);

            assert_eq!(wave.pattern, expected_pattern);
            assert_eq!(wave.length, expected_length);
        }
    }
}

#[test]
fn envelope_read() {
    let mut envelope = Envelope::default();

    for initial_vol in 0..16 {
        for direction_increase in 0..2 {
            for number in 0..8 {
                let expected = (initial_vol << 4) | (direction_increase << 3) | number;

                envelope.initial_vol = initial_vol;
                envelope.direction_increase =
                    if direction_increase == 1 { true } else { false };
                envelope.number = number;

                assert_eq!(envelope.read(), expected);
            }
        }
    }
}

#[test]
fn envelope_write() {
    let mut envelope = Envelope::default();

    for initial_vol in 0..16 {
        for direction_increase in 0..2 {
            for number in 0..8 {
                let byte = (initial_vol << 4) | (direction_increase << 3) | number;

                let expected_initial_vol = initial_vol;
                let expected_direction_increase =
                    if direction_increase == 1 { true } else { false };
                let expected_number = number;

                envelope.write(byte);

                assert_eq!(envelope.initial_vol, expected_initial_vol);
                assert_eq!(envelope.direction_increase, expected_direction_increase);
                assert_eq!(envelope.number, expected_number);
            }
        }
    }
}

#[test]
fn frequency_write_low() {
    let mut frequency = Frequency::default();

    for freq in 0..4096 {
        let byte = (freq & 0xFF) as u8;

        frequency.write_lo(byte);

        assert_eq!((frequency.frequency & 0xFF) as u8, byte);

        frequency.frequency = 4095;
        frequency.write_lo(byte);

        assert_eq!((frequency.frequency & 0xFF) as u8, byte);
    }
}

#[test]
fn frequency_read_high() {
    let mut frequency = Frequency::default();

    for initial in 0..2 {
        for counter in 0..2 {
            for freq in 0..4096 {
                let mut expected = 0xFF;
                expected.set_bit(6, counter == 1);

                frequency.initial = if initial == 1 { true } else { false };
                frequency.counter = if counter == 1 { true } else { false };
                frequency.frequency = freq;

                assert_eq!(frequency.read_hi(), expected);
            }
        }
    }
}

#[test]
fn frequency_write_high() {
    let mut frequency = Frequency::default();

    for initial in 0..2 {
        for counter in 0..2 {
            for freq in 0..4096 {
                let byte = (initial << 7) | (counter << 6) | (((freq >> 8) as u8) & 0x7);

                let expected_initial = if initial == 1 { true } else { false };
                let expected_counter = if counter == 1 { true } else { false };
                let expected_frequency = freq & 0x0700;

                frequency.write_hi(byte);

                assert_eq!(frequency.initial, expected_initial);
                assert_eq!(frequency.counter, expected_counter);
                assert_eq!(frequency.frequency, expected_frequency);
            }
        }
    }
}

#[test]
fn ff24_read() {
    let mut sc = SoundController::new();

    for so1_vol in 0..8 {
        for so2_vol in 0..8 {
            for vin_so1 in vec![false, true] {
                for vin_so2 in vec![false, true] {
                    sc.so1_vol = so1_vol;
                    sc.so2_vol = so2_vol;
                    sc.vin_so1 = vin_so1;
                    sc.vin_so2 = vin_so2;

                    let mut expected = 0;
                    expected.set_bit(0, so1_vol.has_bit_set(0));
                    expected.set_bit(1, so1_vol.has_bit_set(1));
                    expected.set_bit(2, so1_vol.has_bit_set(2));
                    expected.set_bit(3, vin_so1);
                    expected.set_bit(4, so2_vol.has_bit_set(0));
                    expected.set_bit(5, so2_vol.has_bit_set(1));
                    expected.set_bit(6, so2_vol.has_bit_set(2));
                    expected.set_bit(7, vin_so2);

                    sc.sound_enabled = false;
                    assert_eq!(sc.read_byte(0xFF24), 0xFF);

                    sc.sound_enabled = true;
                    assert_eq!(sc.read_byte(0xFF24), expected);
                }
            }
        }
    }
}

#[test]
fn ff24_write() {
    let mut sc = SoundController::new();

    for so1_vol in 0..8 {
        for so2_vol in 0..8 {
            for vin_so1 in vec![false, true] {
                for vin_so2 in vec![false, true] {
                    sc.so1_vol = 0;
                    sc.so2_vol = 0;
                    sc.vin_so1 = false;
                    sc.vin_so2 = false;

                    let mut byte = so1_vol & (so2_vol << 4);
                    byte.set_bit(0, so1_vol.has_bit_set(0));
                    byte.set_bit(1, so1_vol.has_bit_set(1));
                    byte.set_bit(2, so1_vol.has_bit_set(2));
                    byte.set_bit(3, vin_so1);
                    byte.set_bit(4, so2_vol.has_bit_set(0));
                    byte.set_bit(5, so2_vol.has_bit_set(1));
                    byte.set_bit(6, so2_vol.has_bit_set(2));
                    byte.set_bit(7, vin_so2);

                    sc.sound_enabled = false;
                    sc.write_byte(0xFF24, byte);

                    assert_eq!(sc.so1_vol, 0);
                    assert_eq!(sc.so2_vol, 0);
                    assert_eq!(sc.vin_so1, false);
                    assert_eq!(sc.vin_so2, false);

                    sc.sound_enabled = true;
                    sc.write_byte(0xFF24, byte);

                    assert_eq!(sc.so1_vol, so1_vol);
                    assert_eq!(sc.so2_vol, so2_vol);
                    assert_eq!(sc.vin_so1, vin_so1);
                    assert_eq!(sc.vin_so2, vin_so2);
                }
            }
        }
    }
}

#[test]
fn ff25_read() {
    let mut sc = SoundController::new();

    for i_large in 0usize..256 {
        let i = i_large as u8;

        sc.sound_1.so1_enabled = i.has_bit_set(0);
        sc.sound_1.so2_enabled = i.has_bit_set(4);

        sc.sound_2.so1_enabled = i.has_bit_set(1);
        sc.sound_2.so2_enabled = i.has_bit_set(5);

        sc.sound_3.so1_enabled = i.has_bit_set(2);
        sc.sound_3.so2_enabled = i.has_bit_set(6);

        sc.sound_4.so1_enabled = i.has_bit_set(3);
        sc.sound_4.so2_enabled = i.has_bit_set(7);

        sc.sound_enabled = false;
        assert_eq!(sc.read_byte(0xFF25), 0xFF);

        sc.sound_enabled = true;
        assert_eq!(sc.read_byte(0xFF25), i);
    }
}

#[test]
fn ff25_write() {
    let mut sc = SoundController::new();

    for i_large in 0usize..256 {
        let i = i_large as u8;

        // Make up a default state - writing with sound disabled shouldn't change this
        sc.sound_1.so1_enabled = false;
        sc.sound_1.so2_enabled = false;

        sc.sound_2.so1_enabled = true;
        sc.sound_2.so2_enabled = false;

        sc.sound_3.so1_enabled = false;
        sc.sound_3.so2_enabled = true;

        sc.sound_4.so1_enabled = true;
        sc.sound_4.so2_enabled = true;

        sc.sound_enabled = false;
        sc.write_byte(0xFF25, i);

        assert_eq!(sc.sound_1.so1_enabled, false);
        assert_eq!(sc.sound_1.so2_enabled, false);

        assert_eq!(sc.sound_2.so1_enabled, true);
        assert_eq!(sc.sound_2.so2_enabled, false);

        assert_eq!(sc.sound_3.so1_enabled, false);
        assert_eq!(sc.sound_3.so2_enabled, true);

        assert_eq!(sc.sound_4.so1_enabled, true);
        assert_eq!(sc.sound_4.so2_enabled, true);

        sc.sound_enabled = true;
        sc.write_byte(0xFF25, i);

        assert_eq!(sc.sound_1.so1_enabled, i.has_bit_set(0));
        assert_eq!(sc.sound_1.so2_enabled, i.has_bit_set(4));

        assert_eq!(sc.sound_2.so1_enabled, i.has_bit_set(1));
        assert_eq!(sc.sound_2.so2_enabled, i.has_bit_set(5));

        assert_eq!(sc.sound_3.so1_enabled, i.has_bit_set(2));
        assert_eq!(sc.sound_3.so2_enabled, i.has_bit_set(6));

        assert_eq!(sc.sound_4.so1_enabled, i.has_bit_set(3));
        assert_eq!(sc.sound_4.so2_enabled, i.has_bit_set(7));
    }
}

#[test]
fn ff26_read() {
    let mut sc = SoundController::new();

    for i in 0u8..32 {
        let mut expected: u8 = i & 0x0F;
        expected.set_bit(7, i.has_bit_set(4));

        sc.sound_1.is_on = i.has_bit_set(0);
        sc.sound_2.is_on = i.has_bit_set(1);
        sc.sound_3.is_on = i.has_bit_set(2);
        sc.sound_4.is_on = i.has_bit_set(3);
        sc.sound_enabled = i.has_bit_set(4);

        assert_eq!(sc.read_byte(0xFF26), expected);
    }
}

#[test]
fn ff26_write() {
    let mut sc = SoundController::new();

    for i_large in 0usize..256 {
        let i = i_large as u8;

        sc.write_byte(0xFF26, i);

        assert_eq!(sc.sound_enabled, i.has_bit_set(7));
    }
}
