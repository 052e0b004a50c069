use razer_control::kbd::board::KeyColour;
use razer_control::kbd::board::KeyboardData;
use razer_control::kbd::board::KEYS;
use razer_control::kbd::effects::AnyEffect;
use razer_control::kbd::effects::BreathSingle;
use razer_control::kbd::effects::Effect;
use razer_control::kbd::effects::EffectError;
use razer_control::kbd::effects::EffectSave;
use razer_control::kbd::effects::Static;
use razer_control::kbd::effects::StaticGradient;
use razer_control::kbd::effects::WaveGradient;

fn rgb(r: u8, g: u8, b: u8) -> KeyColour {
    KeyColour { r, g, b }
}

fn keys(board: &KeyboardData) -> Vec<KeyColour> {
    (0..KEYS).map(|pos| board.get_key_at(pos)).collect()
}

#[test]
fn names_are_the_persisted_ones() {
    assert_eq!(Static::get_name(), "Static");
    assert_eq!(StaticGradient::get_name(), "Static Gradient");
    assert_eq!(WaveGradient::get_name(), "Wave Gradient");
    assert_eq!(BreathSingle::get_name(), "Breathing Single");
}

#[test]
fn static_paints_every_key_in_its_colour() {
    let mut effect = Static::new(vec![255, 0, 0]).unwrap();
    for _ in 0..3 {
        let board = effect.update();
        assert_eq!(keys(&board), vec![rgb(255, 0, 0); 90]);
    }
    assert_eq!(effect.get_varargs(), vec![255, 0, 0]);
}

#[test]
fn static_refuses_a_wrong_parameter_count() {
    assert_eq!(Static::new(vec![]), Err(EffectError::InvalidParameters));
    assert_eq!(Static::new(vec![1, 2]), Err(EffectError::InvalidParameters));
    assert_eq!(Static::new(vec![1, 2, 3, 4]), Err(EffectError::InvalidParameters));
    assert_eq!(Static::new(vec![1, 2, 3]), Ok(Static { colour: rgb(1, 2, 3) }));
}

#[test]
fn gradient_runs_from_first_to_last_key() {
    let mut effect = StaticGradient::new(vec![0, 0, 255, 0, 255, 0]).unwrap();
    let board = effect.update();
    assert_eq!(board.get_key_at(0), rgb(0, 0, 255));
    assert_eq!(board.get_key_at(1), rgb(0, 2, 253));
    assert_eq!(board.get_key_at(2), rgb(0, 5, 250));
    assert_eq!(board.get_key_at(3), rgb(0, 8, 247));
    assert_eq!(board.get_key_at(44), rgb(0, 126, 129));
    assert_eq!(board.get_key_at(45), rgb(0, 128, 127));
    assert_eq!(board.get_key_at(88), rgb(0, 252, 3));
    assert_eq!(board.get_key_at(89), rgb(0, 255, 0));
}

#[test]
fn gradient_mixes_rising_and_falling_channels() {
    let mut effect = StaticGradient::new(vec![255, 100, 50, 10, 200, 50]).unwrap();
    let board = effect.update();
    assert_eq!(board.get_key_at(0), rgb(255, 100, 50));
    assert_eq!(board.get_key_at(1), rgb(253, 101, 50));
    assert_eq!(board.get_key_at(10), rgb(228, 111, 50));
    assert_eq!(board.get_key_at(44), rgb(134, 149, 50));
    assert_eq!(board.get_key_at(89), rgb(10, 200, 50));
}

#[test]
fn gradient_does_not_move() {
    let mut effect = StaticGradient::new(vec![0, 0, 255, 0, 255, 0]).unwrap();
    let first = keys(&effect.update());
    let second = keys(&effect.update());
    assert_eq!(first, second);
}

#[test]
fn gradient_refuses_a_wrong_parameter_count() {
    assert_eq!(StaticGradient::new(vec![1, 2, 3]), Err(EffectError::InvalidParameters));
    assert_eq!(StaticGradient::new(vec![0; 7]), Err(EffectError::InvalidParameters));
    assert_eq!(WaveGradient::new(vec![1, 2, 3]), Err(EffectError::InvalidParameters));
    assert_eq!(WaveGradient::new(vec![0; 5]), Err(EffectError::InvalidParameters));
}

#[test]
fn wave_moves_the_gradient_one_key_per_tick() {
    let args = vec![0, 0, 255, 0, 255, 0];
    let gradient = keys(&StaticGradient::new(args.clone()).unwrap().update());
    let mut wave = WaveGradient::new(args).unwrap();
    for tick in 1..=200usize {
        let frame = keys(&wave.update());
        for pos in 0..KEYS {
            assert_eq!(frame[pos], gradient[(pos + tick) % 90], "tick {} key {}", tick, pos);
        }
    }
}

#[test]
fn wave_comes_round_after_ninety_ticks() {
    let mut wave = WaveGradient::new(vec![9, 8, 7, 200, 100, 0]).unwrap();
    let start = wave;
    for _ in 0..89 {
        wave.update();
    }
    assert_eq!(wave.shift, 89);
    wave.update();
    assert_eq!(wave, start);
}

#[test]
fn breathing_rises_and_falls() {
    let mut effect = BreathSingle::new(vec![255, 100, 50, 10]).unwrap();
    assert_eq!(effect.get_state()[0..3], [0, 0, 0]);
    let expected: [(usize, KeyColour); 7] = [
        (1, rgb(25, 10, 5)),
        (5, rgb(127, 50, 25)),
        (9, rgb(229, 90, 45)),
        (10, rgb(255, 100, 50)),
        (11, rgb(229, 90, 45)),
        (19, rgb(25, 10, 5)),
        (20, rgb(0, 0, 0)),
    ];
    let mut tick = 0;
    for (at, colour) in expected {
        let mut board = KeyboardData::new();
        while tick < at {
            board = effect.update();
            tick += 1;
        }
        assert_eq!(keys(&board), vec![colour; 90], "tick {}", at);
    }
    assert_eq!(effect.phase, 0);
}

#[test]
fn breathing_with_a_short_duration() {
    let mut effect = BreathSingle::new(vec![255, 100, 50, 3]).unwrap();
    let expected =
        [rgb(85, 33, 16), rgb(170, 66, 33), rgb(255, 100, 50), rgb(170, 66, 33), rgb(85, 33, 16), rgb(0, 0, 0)];
    for colour in expected {
        assert_eq!(effect.update().get_key_at(42), colour);
    }
}

#[test]
fn breathing_with_duration_zero_blinks() {
    let mut effect = BreathSingle::new(vec![255, 100, 50, 0]).unwrap();
    assert_eq!(effect.update().get_key_at(0), rgb(255, 100, 50));
    assert_eq!(effect.update().get_key_at(0), rgb(0, 0, 0));
    assert_eq!(effect.update().get_key_at(0), rgb(255, 100, 50));
}

#[test]
fn breathing_refuses_a_wrong_parameter_count() {
    assert_eq!(BreathSingle::new(vec![1, 2, 3]), Err(EffectError::InvalidParameters));
    assert_eq!(BreathSingle::new(vec![1, 2, 3, 4, 5]), Err(EffectError::InvalidParameters));
}

#[test]
fn parameters_come_back_as_given() {
    assert_eq!(Static::new(vec![1, 2, 3]).unwrap().get_varargs(), vec![1, 2, 3]);
    assert_eq!(
        StaticGradient::new(vec![1, 2, 3, 4, 5, 6]).unwrap().get_varargs(),
        vec![1, 2, 3, 4, 5, 6]
    );
    let mut wave = WaveGradient::new(vec![6, 5, 4, 3, 2, 1]).unwrap();
    wave.update();
    assert_eq!(wave.get_varargs(), vec![6, 5, 4, 3, 2, 1]);
    let mut breath = BreathSingle::new(vec![9, 9, 9, 0]).unwrap();
    breath.update();
    assert_eq!(breath.get_varargs(), vec![9, 9, 9, 0]);
}

#[test]
fn save_holds_name_and_parameters() {
    assert_eq!(
        Static::new(vec![1, 2, 3]).unwrap().save(),
        EffectSave { args: vec![1, 2, 3], name: String::from("Static") }
    );
    assert_eq!(
        BreathSingle::new(vec![1, 2, 3, 4]).unwrap().save(),
        EffectSave { args: vec![1, 2, 3, 4], name: String::from("Breathing Single") }
    );
    let any = AnyEffect::from_name("Wave Gradient", vec![1, 2, 3, 4, 5, 6]).unwrap();
    assert_eq!(
        any.save(),
        EffectSave { args: vec![1, 2, 3, 4, 5, 6], name: String::from("Wave Gradient") }
    );
}

#[test]
fn state_is_the_frame_last_painted() {
    let mut wave = WaveGradient::new(vec![0, 0, 255, 0, 255, 0]).unwrap();
    let board = wave.update();
    assert_eq!(wave.get_state(), board.get_curr_state());
    let board = wave.update();
    assert_eq!(wave.get_state(), board.get_curr_state());
    let mut breath = BreathSingle::new(vec![255, 100, 50, 10]).unwrap();
    let board = breath.update();
    assert_eq!(breath.get_state(), board.get_curr_state());
    assert_eq!(&breath.get_state()[0..3], &[25, 10, 5]);
    let mut fixed = Static::new(vec![3, 2, 1]).unwrap();
    assert_eq!(fixed.get_state(), fixed.update().get_curr_state());
    let mut gradient = StaticGradient::new(vec![0, 0, 255, 0, 255, 0]).unwrap();
    assert_eq!(gradient.get_state(), gradient.update().get_curr_state());
    assert_eq!(&gradient.get_state()[3..6], &[0, 2, 253]);
}

#[test]
fn a_copy_does_not_share_the_phase() {
    let mut wave = WaveGradient::new(vec![0, 0, 255, 0, 255, 0]).unwrap();
    wave.update();
    let copy = wave.clone_box();
    assert_eq!(copy, wave);
    wave.update();
    assert_eq!(copy.shift, 1);
    assert_eq!(wave.shift, 2);

    let mut any = AnyEffect::from_name("Breathing Single", vec![1, 2, 3, 4]).unwrap();
    let before = any.clone_box();
    any.update();
    assert_ne!(any, before);
    assert_eq!(before, AnyEffect::from_name("Breathing Single", vec![1, 2, 3, 4]).unwrap());
}

#[test]
fn registry_makes_each_effect_by_its_name() {
    assert_eq!(
        AnyEffect::from_name("Static", vec![1, 2, 3]),
        Ok(AnyEffect::Static(Static { colour: rgb(1, 2, 3) }))
    );
    assert_eq!(
        AnyEffect::from_name("Static Gradient", vec![1, 2, 3, 4, 5, 6]),
        Ok(AnyEffect::StaticGradient(StaticGradient { from: rgb(1, 2, 3), to: rgb(4, 5, 6) }))
    );
    assert_eq!(
        AnyEffect::from_name("Wave Gradient", vec![1, 2, 3, 4, 5, 6]),
        Ok(AnyEffect::WaveGradient(WaveGradient { from: rgb(1, 2, 3), to: rgb(4, 5, 6), shift: 0 }))
    );
    assert_eq!(
        AnyEffect::from_name("Breathing Single", vec![1, 2, 3, 4]),
        Ok(AnyEffect::BreathSingle(BreathSingle { colour: rgb(1, 2, 3), duration: 4, phase: 0 }))
    );
}

#[test]
fn registry_refuses_unknown_names_and_bad_parameters() {
    assert_eq!(AnyEffect::from_name("static", vec![1, 2, 3]), Err(EffectError::UnknownEffectName));
    assert_eq!(AnyEffect::from_name("", vec![1, 2, 3]), Err(EffectError::UnknownEffectName));
    assert_eq!(AnyEffect::from_name("Static ", vec![1, 2, 3]), Err(EffectError::UnknownEffectName));
    assert_eq!(AnyEffect::from_name("Rainbow", vec![]), Err(EffectError::UnknownEffectName));
    assert_eq!(AnyEffect::from_name("Static", vec![1, 2]), Err(EffectError::InvalidParameters));
    assert_eq!(
        AnyEffect::from_name("Static Gradient", vec![1, 2, 3]),
        Err(EffectError::InvalidParameters)
    );
    assert_eq!(
        AnyEffect::from_name("Wave Gradient", vec![1, 2, 3]),
        Err(EffectError::InvalidParameters)
    );
    assert_eq!(
        AnyEffect::from_name("Breathing Single", vec![1, 2, 3]),
        Err(EffectError::InvalidParameters)
    );
}

#[test]
fn requests_call_the_effects_by_their_own_names() {
    assert_eq!(
        AnyEffect::from_command("static", vec![1, 2, 3]),
        AnyEffect::from_name("Static", vec![1, 2, 3])
    );
    assert_eq!(
        AnyEffect::from_command("static_gradient", vec![1, 2, 3, 4, 5, 6]),
        AnyEffect::from_name("Static Gradient", vec![1, 2, 3, 4, 5, 6])
    );
    assert_eq!(
        AnyEffect::from_command("wave_gradient", vec![1, 2, 3, 4, 5, 6]),
        AnyEffect::from_name("Wave Gradient", vec![1, 2, 3, 4, 5, 6])
    );
    assert_eq!(
        AnyEffect::from_command("breathing_single", vec![1, 2, 3, 10]),
        AnyEffect::from_name("Breathing Single", vec![1, 2, 3, 10])
    );
    assert_eq!(AnyEffect::from_command("Static", vec![1, 2, 3]), Err(EffectError::UnknownEffectName));
    assert_eq!(AnyEffect::from_command("breathing", vec![1, 2, 3, 4]), Err(EffectError::UnknownEffectName));
    assert_eq!(AnyEffect::from_command("static", vec![1]), Err(EffectError::InvalidParameters));
}

#[test]
fn an_effect_is_made_again_from_its_name_and_parameters() {
    let effects = [
        AnyEffect::from_name("Static", vec![1, 2, 3]).unwrap(),
        AnyEffect::from_name("Static Gradient", vec![1, 2, 3, 4, 5, 6]).unwrap(),
        AnyEffect::from_name("Wave Gradient", vec![1, 2, 3, 4, 5, 6]).unwrap(),
        AnyEffect::from_name("Breathing Single", vec![1, 2, 3, 4]).unwrap(),
    ];
    for mut effect in effects {
        let fresh = effect;
        effect.update();
        effect.update();
        assert_eq!(AnyEffect::from_name(effect.get_name(), effect.get_varargs()), Ok(fresh));
    }
}

#[test]
fn any_effect_does_what_its_kind_does() {
    let mut any = AnyEffect::from_name("Wave Gradient", vec![0, 0, 255, 0, 255, 0]).unwrap();
    let mut wave = WaveGradient::new(vec![0, 0, 255, 0, 255, 0]).unwrap();
    assert_eq!(any.get_name(), "Wave Gradient");
    for _ in 0..3 {
        assert_eq!(any.update().get_curr_state(), wave.update().get_curr_state());
        assert_eq!(any.get_state(), wave.get_state());
    }
    assert_eq!(any, AnyEffect::WaveGradient(wave));
    assert_eq!(any.get_varargs(), wave.get_varargs());
}
