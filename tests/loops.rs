use lhr::{
    default_roster, Angle, Consumer, DispatchError, Emission, HslColor, Hue, LoopKind,
    LoopRegistry, Producer, RandomHueLoop, SoloAction, SoloCursor, SoloHueLoop, Steps, TestLoop,
    Transition, LIGHTNESS, SATURATION,
};

fn solo_color(units: u32) -> HslColor {
    HslColor { hue: Hue { units, per_degree: 24 }, saturation: SATURATION, lightness: LIGHTNESS }
}

#[test]
fn test_steps() {
    let expected = (0..360).step_by(15).collect::<Vec<_>>();
    let got = Steps::new(24)
        .collect_angles()
        .iter()
        .map(|step| step.rounded_degrees() as usize)
        .collect::<Vec<_>>();
    assert_eq!(got, expected);
}

#[test]
fn steps_give_exactly_n_angles() {
    for n in 1..=127i8 {
        let angles = Steps::new(n).collect_angles();
        assert_eq!(angles.len(), n as usize);
        for (k, a) in angles.iter().enumerate() {
            assert_eq!(*a, Angle { index: k as i8, steps: n });
        }
    }
}

#[test]
fn steps_of_zero_give_nothing() {
    let mut s = Steps::new(0);
    assert_eq!(s.next(), None);
    assert!(Steps::new(0).collect_angles().is_empty());
    assert!(Steps::new(-5).collect_angles().is_empty());
}

#[test]
fn steps_end_and_restart() {
    let mut s = Steps::new(2);
    assert_eq!(s.next(), Some(Angle { index: 0, steps: 2 }));
    assert_eq!(s.next(), Some(Angle { index: 1, steps: 2 }));
    assert_eq!(s.next(), None);
    assert_eq!(s.next(), None);
    assert_eq!(Steps::new(2).next(), Some(Angle { index: 0, steps: 2 }));
}

#[test]
fn rounded_degrees_round_to_nearest() {
    assert_eq!(Angle { index: 1, steps: 7 }.rounded_degrees(), 51);
    assert_eq!(Angle { index: 6, steps: 7 }.rounded_degrees(), 309);
    assert_eq!(Angle { index: 1, steps: 16 }.rounded_degrees(), 23);
    assert_eq!(Angle { index: 126, steps: 127 }.rounded_degrees(), 357);
}

#[test]
fn hue_wraps_by_whole_turns() {
    for units in [0u64, 1, 359, 360, 3960, 8639] {
        assert_eq!(Hue::wrapped(units + 360 * 24, 24), Hue::wrapped(units, 24));
    }
    assert_eq!(Hue::wrapped(370, 1), Hue { units: 10, per_degree: 1 });
    assert_eq!(Hue::wrapped(8640 + 100, 24), Hue { units: 100, per_degree: 24 });
}

#[test]
fn light_hue_adds_shift_per_position() {
    let step = Angle { index: 1, steps: 24 };
    assert_eq!(lhr::light_hue(step, 75, 2), Hue { units: 165 * 24, per_degree: 24 });
    let step = Angle { index: 23, steps: 24 };
    assert_eq!(lhr::light_hue(step, 75, 1), Hue { units: 60 * 24, per_degree: 24 });
    assert_eq!(lhr::light_hue(step, 400, 1), Hue { units: 25 * 24, per_degree: 24 });
}

#[test]
fn solo_offsets_over_one_cycle() {
    let roster = default_roster();
    assert_eq!(roster, vec![2u8, 3, 4]);
    for step in Steps::new(24).collect_angles() {
        let cmds = SoloHueLoop.step_commands(&roster, step);
        assert_eq!(cmds.len(), 3);
        let h0 = cmds[0].color.hue.units;
        assert_eq!(h0, 360 * step.index as u32);
        assert_eq!(cmds[1].color.hue.units, (h0 + 75 * 24) % 8640);
        assert_eq!(cmds[2].color.hue.units, (h0 + 150 * 24) % 8640);
        for (c, light) in cmds.iter().zip(roster.iter()) {
            assert_eq!(c.light, *light);
            assert_eq!(c.duration, 5);
            assert_eq!(c.color.saturation, 800);
            assert_eq!(c.color.lightness, 500);
        }
    }
}

#[test]
fn solo_actions_send_each_light_then_pause() {
    let roster = default_roster();
    let mut cursor = SoloHueLoop.start();
    let a = SoloHueLoop.next_action(&roster, &mut cursor);
    assert_eq!(a, SoloAction::Send(Transition { light: 2, color: solo_color(0), duration: 5 }));
    let a = SoloHueLoop.next_action(&roster, &mut cursor);
    assert_eq!(a, SoloAction::Send(Transition { light: 3, color: solo_color(75 * 24), duration: 5 }));
    let a = SoloHueLoop.next_action(&roster, &mut cursor);
    assert_eq!(a, SoloAction::Send(Transition { light: 4, color: solo_color(150 * 24), duration: 5 }));
    assert_eq!(SoloHueLoop.next_action(&roster, &mut cursor), SoloAction::Pause(5));
    assert_eq!(cursor, SoloCursor { step: 1, light: 0 });
    let a = SoloHueLoop.next_action(&roster, &mut cursor);
    assert_eq!(a, SoloAction::Send(Transition { light: 2, color: solo_color(15 * 24), duration: 5 }));
}

#[test]
fn solo_cycle_starts_again_after_last_step() {
    let roster = default_roster();
    let mut cursor = SoloCursor { step: 23, light: 3 };
    assert_eq!(SoloHueLoop.next_action(&roster, &mut cursor), SoloAction::Pause(5));
    assert_eq!(cursor, SoloCursor { step: 0, light: 0 });
}

#[test]
fn solo_with_empty_roster_only_pauses() {
    let roster: Vec<u8> = Vec::new();
    let mut cursor = SoloHueLoop.start();
    for _ in 0..30 {
        assert_eq!(SoloHueLoop.next_action(&roster, &mut cursor), SoloAction::Pause(5));
    }
    assert!(SoloHueLoop.step_commands(&roster, Angle { index: 0, steps: 24 }).is_empty());
}

#[test]
fn producer_draws_shift_once_per_cycle() {
    let mut p = Producer::new(4, 2);
    let e = p.advance(100, 7);
    assert_eq!(e, Emission { light: 4, color: solo_color(200 * 24), hold: 7 });
    assert_eq!(p.shift, 100);
    let e = p.advance(50, 9);
    assert_eq!(p.shift, 100);
    assert_eq!(e, Emission { light: 4, color: solo_color(215 * 24), hold: 9 });
    for _ in 2..24 {
        p.advance(50, 4);
    }
    assert!(p.is_cycle_over());
    let e = p.advance(50, 4);
    assert_eq!(p.shift, 50);
    assert_eq!(e.color, solo_color(100 * 24));
}

#[test]
fn producer_random_draws_stay_in_range() {
    let mut shifts = Vec::new();
    let mut holds = Vec::new();
    let mut p = Producer::new(3, 1);
    for k in 0..24 * 40 {
        let e = p.next_emission();
        assert!((4..16).contains(&e.hold));
        assert!((35..140).contains(&p.shift));
        assert_eq!(e.light, 3);
        if k % 24 == 0 {
            shifts.push(p.shift);
        }
        holds.push(e.hold);
        let base = 360 * (k % 24) as u32;
        assert_eq!(e.color.hue.units, (base + p.shift * 24) % 8640);
    }
    assert!(shifts.iter().any(|s| *s != shifts[0]));
    assert!(holds.iter().any(|h| *h != holds[0]));
}

#[test]
fn random_loop_makes_one_worker_per_light() {
    let ps = RandomHueLoop.producers(&default_roster());
    assert_eq!(ps.len(), 3);
    for (j, p) in ps.iter().enumerate() {
        assert_eq!(p.index, j);
        assert_eq!(p.light, default_roster()[j]);
        assert!(p.is_cycle_over());
    }
}

#[test]
fn consumer_takes_nothing_while_in_flight() {
    let mut c = Consumer::new();
    let t = c.take(2, solo_color(0));
    assert_eq!(t, Some(Transition { light: 2, color: solo_color(0), duration: 5 }));
    assert!(c.in_flight);
    assert_eq!(c.take(3, solo_color(1)), None);
    c.done();
    assert_eq!(c, Consumer { handled: 1, in_flight: false });
    c.done();
    assert_eq!(c.handled, 1);
}

#[test]
fn consumer_handles_every_item_once() {
    let k = 3usize;
    let m = 24usize;
    let mut producers = RandomHueLoop.producers(&default_roster());
    let mut received = Vec::new();
    for round in 0..m {
        for j in 0..k {
            let j = (j + round) % k;
            received.push(producers[j].advance(40 + j as u32, 5));
        }
    }
    let mut c = Consumer::new();
    let out = c.drain(&received);
    assert_eq!(out.len(), k * m);
    assert_eq!(c, Consumer { handled: (k * m) as u64, in_flight: false });
    for (t, e) in out.iter().zip(received.iter()) {
        assert_eq!(*t, Transition { light: e.light, color: e.color, duration: 5 });
    }
    for light in default_roster() {
        assert_eq!(out.iter().filter(|t| t.light == light).count(), m);
    }
}

#[test]
fn dispatch_finds_registered_loops() {
    let reg = LoopRegistry::new()
        .add_loop(LoopKind::Test)
        .add_loop(LoopKind::SoloHue)
        .add_loop(LoopKind::RandomHue);
    assert_eq!(reg.find("solo-hue"), Ok(LoopKind::SoloHue));
    assert_eq!(reg.find("test"), Ok(LoopKind::Test));
    assert_eq!(reg.find("random-hue"), Ok(LoopKind::RandomHue));
    assert_eq!(reg.find("rainbow"), Err(DispatchError::NotFound));
    assert_eq!(reg.find(""), Err(DispatchError::NotFound));
    assert_eq!(reg.names(), vec!["test", "solo-hue", "random-hue"]);
}

#[test]
fn dispatch_on_empty_registry_finds_nothing() {
    let reg = LoopRegistry::new();
    assert_eq!(reg.find("test"), Err(DispatchError::NotFound));
    assert!(reg.names().is_empty());
}

#[test]
fn loop_names_are_distinct() {
    assert_eq!(TestLoop.name(), "test");
    assert_eq!(SoloHueLoop.name(), "solo-hue");
    assert_eq!(RandomHueLoop.name(), "random-hue");
}
