use lintx::adc::AdcRawMsg;
use lintx::calibrate::{CalibrationData, ChannelInfo, JoystickChannel};
use lintx::mixer::{cal_mixout, mix, MixerOutMsg};
use rand::{thread_rng, Rng};

fn record(infos: [(u8, i16, i16, bool); 4]) -> CalibrationData {
    CalibrationData {
        channel_infos: infos
            .iter()
            .zip(JoystickChannel::STRS)
            .map(|(&(index, min, max, rev), name)| ChannelInfo {
                name: name.to_string(),
                index,
                min,
                max,
                rev,
            })
            .collect(),
        channel_indexs: infos.iter().map(|i| i.0).collect(),
    }
}

#[test]
fn test_cal_mixout() {
    let mut rng = thread_rng();
    let mut get_random_channel_value = || rng.gen_range(300..1400) as i16;
    let mut adc_raw = AdcRawMsg {
        value: [500, 100, 1600, get_random_channel_value()],
    };
    let mut cal_data = CalibrationData {
        channel_infos: [
            ChannelInfo {
                name: "thrust".to_string(),
                index: 0,
                min: 200,
                max: 1500,
                rev: false,
            },
            ChannelInfo {
                name: "direction".to_string(),
                index: 1,
                min: 200,
                max: 1500,
                rev: false,
            },
            ChannelInfo {
                name: "aliron".to_string(),
                index: 2,
                min: 200,
                max: 1500,
                rev: false,
            },
            ChannelInfo {
                name: "ele".to_string(),
                index: 3,
                min: 200,
                max: 1500,
                rev: false,
            },
        ]
        .to_vec(),
        channel_indexs: [0; 4].to_vec(),
    };

    assert_eq!(
        cal_mixout(JoystickChannel::Thrust, &adc_raw, &cal_data),
        ((500 - 200) as u32 * 10000 / (1500 - 200)) as u16
    );
    assert_eq!(
        cal_mixout(JoystickChannel::Direction, &adc_raw, &cal_data),
        ((200 - 200) as u32 * 10000 / (1500 - 200)) as u16
    );
    assert_eq!(
        cal_mixout(JoystickChannel::Aileron, &adc_raw, &cal_data),
        ((1500 - 200) as u32 * 10000 / (1500 - 200)) as u16
    );

    for _ in 0..1000 {
        assert!(cal_mixout(JoystickChannel::Elevator, &adc_raw, &cal_data) <= 10000);
        adc_raw.value[3] = get_random_channel_value();
    }

    cal_data.channel_infos[0].rev = true;
    assert_eq!(
        cal_mixout(JoystickChannel::Thrust, &adc_raw, &cal_data),
        10000 - ((500 - 200) as u32 * 10000 / (1500 - 200)) as u16
    );
}

#[test]
fn mixout_scales_and_clamps() {
    let cal = record([(0, 200, 1500, false); 4]);
    let at = |v: i16| {
        cal_mixout(JoystickChannel::Thrust, &AdcRawMsg { value: [v, 0, 0, 0] }, &cal)
    };
    assert_eq!(at(500), 2307);
    assert_eq!(at(200), 0);
    assert_eq!(at(199), 0);
    assert_eq!(at(i16::MIN), 0);
    assert_eq!(at(1500), 10000);
    assert_eq!(at(1501), 10000);
    assert_eq!(at(i16::MAX), 10000);
    assert_eq!(at(850), 5000);
    assert_eq!(at(201), 7);
    assert_eq!(at(1499), 9992);
}

#[test]
fn mixout_reversed_mirrors_the_output() {
    let plain = record([(0, 200, 1500, false); 4]);
    let flipped = record([(0, 200, 1500, true); 4]);
    for v in [i16::MIN, 0, 200, 201, 500, 850, 1499, 1500, 3000] {
        let raw = AdcRawMsg { value: [v, 0, 0, 0] };
        let out = cal_mixout(JoystickChannel::Thrust, &raw, &plain);
        assert_eq!(cal_mixout(JoystickChannel::Thrust, &raw, &flipped), 10000 - out);
    }
    let raw = AdcRawMsg { value: [500, 0, 0, 0] };
    assert_eq!(cal_mixout(JoystickChannel::Thrust, &raw, &flipped), 7693);
}

#[test]
fn mixout_over_the_widest_range() {
    let cal = record([(1, i16::MIN, i16::MAX, false); 4]);
    let at = |v: i16| {
        cal_mixout(JoystickChannel::Aileron, &AdcRawMsg { value: [0, v, 0, 0] }, &cal)
    };
    assert_eq!(at(i16::MIN), 0);
    assert_eq!(at(i16::MAX), 10000);
    assert_eq!(at(0), 5000);
    assert_eq!(at(-1), 4999);
    let narrow = record([(1, -1, 0, true); 4]);
    let raw = |v: i16| AdcRawMsg { value: [0, v, 0, 0] };
    assert_eq!(cal_mixout(JoystickChannel::Aileron, &raw(-1), &narrow), 10000);
    assert_eq!(cal_mixout(JoystickChannel::Aileron, &raw(0), &narrow), 0);
}

#[test]
fn mixout_stays_on_the_scale() {
    let mut rng = thread_rng();
    for _ in 0..1000 {
        let a: i16 = rng.gen();
        let b: i16 = rng.gen();
        if a == b {
            continue;
        }
        let cal = record([(3, a.min(b), a.max(b), rng.gen()); 4]);
        let raw = AdcRawMsg { value: [0, 0, 0, rng.gen()] };
        assert!(cal_mixout(JoystickChannel::Elevator, &raw, &cal) <= 10000);
    }
}

#[test]
fn mix_reads_each_axis_from_its_input() {
    let cal = record([
        (2, 0, 1000, false),
        (0, 0, 1000, true),
        (3, -500, 500, false),
        (1, 100, 300, false),
    ]);
    let raw = AdcRawMsg { value: [250, 150, 1000, -250] };
    assert_eq!(
        mix(&raw, &cal),
        MixerOutMsg { thrust: 10000, direction: 7500, aileron: 2500, elevator: 2500 }
    );
    assert_eq!(mix(&raw, &cal).thrust, cal_mixout(JoystickChannel::Thrust, &raw, &cal));
    assert_eq!(mix(&raw, &cal).elevator, cal_mixout(JoystickChannel::Elevator, &raw, &cal));
}

#[test]
fn mix_may_read_one_input_twice() {
    let cal =
        record([(1, 0, 100, false), (1, 0, 100, true), (1, 0, 200, false), (1, 50, 100, false)]);
    let raw = AdcRawMsg { value: [0, 50, 0, 0] };
    assert_eq!(
        mix(&raw, &cal),
        MixerOutMsg { thrust: 5000, direction: 5000, aileron: 2500, elevator: 0 }
    );
}
