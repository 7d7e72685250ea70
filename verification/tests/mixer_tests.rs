use fuurin::mixer::{Directive, Mixer};

fn mixer_with(volumes: &[u8]) -> Mixer {
    let mut m = Mixer::new(25);
    for (i, v) in volumes.iter().enumerate() {
        m.add(format!("ch{}", i), *v);
    }
    m
}

#[test]
fn adjust_clamps_at_granularity() {
    // granularity=25, level=24, adjust(+5) -> level=25, gain=1.0
    let mut m = mixer_with(&[24]);
    let d = m.adjust(0, 5);
    assert_eq!(m.volume_at(0), 25);
    assert_eq!(d, Directive::SetGainThenPlay { level: 25 });
    let gain = m.volume_at(0) as f32 / m.volume_granularity() as f32;
    assert_eq!(gain, 1.0);
}

#[test]
fn adjust_clamps_at_zero() {
    let mut m = mixer_with(&[3]);
    let d = m.adjust(0, -5);
    assert_eq!(m.volume_at(0), 0);
    assert_eq!(d, Directive::Pause);
    assert!(!m.playing_at(0));
}

#[test]
fn adjust_saturates_at_extreme_deltas() {
    let mut m = mixer_with(&[10]);
    m.adjust(0, i8::MAX);
    assert_eq!(m.volume_at(0), 25);
    m.adjust(0, i8::MIN);
    assert_eq!(m.volume_at(0), 0);
}

#[test]
fn zero_level_pauses_nonzero_level_plays() {
    let mut m = mixer_with(&[1]);
    let down = m.adjust(0, -1);
    assert_eq!(down, Directive::Pause);
    assert!(!m.playing_at(0));
    let up = m.adjust(0, 1);
    assert_eq!(up, Directive::SetGainThenPlay { level: 1 });
    assert!(m.playing_at(0));
}

#[test]
fn adjust_under_master_pause_stores_gain_but_withholds_play() {
    let mut m = mixer_with(&[5]);
    m.toggle_master();
    let d = m.adjust(0, 1);
    // the gain is updated, the play call is withheld
    assert_eq!(d, Directive::SetGain { level: 6 });
    assert_eq!(m.volume_at(0), 6);
    assert!(!m.playing_at(0));
}

#[test]
fn adjust_to_zero_pauses_even_under_master_pause() {
    let mut m = mixer_with(&[1]);
    m.toggle_master();
    let d = m.adjust(0, -1);
    assert_eq!(d, Directive::Pause);
    assert_eq!(m.volume_at(0), 0);
    assert!(!m.playing_at(0));
}

#[test]
fn adjust_all_moves_every_channel_and_keeps_selection() {
    let mut m = mixer_with(&[0, 24, 25, 7]);
    m.move_selection(3);
    assert_eq!(m.selected_index(), 3);
    let ds = m.adjust_all(2);
    assert_eq!(m.volume_at(0), 2);
    assert_eq!(m.volume_at(1), 25);
    assert_eq!(m.volume_at(2), 25);
    assert_eq!(m.volume_at(3), 9);
    assert_eq!(m.selected_index(), 3);
    assert_eq!(
        ds,
        vec![
            Directive::SetGainThenPlay { level: 2 },
            Directive::SetGainThenPlay { level: 25 },
            Directive::SetGainThenPlay { level: 25 },
            Directive::SetGainThenPlay { level: 9 },
        ]
    );
}

#[test]
fn adjust_all_down_can_mute_everything() {
    let mut m = mixer_with(&[1, 2]);
    let ds = m.adjust_all(-2);
    assert_eq!(ds, vec![Directive::Pause, Directive::Pause]);
    assert!(!m.playing_at(0));
    assert!(!m.playing_at(1));
}

#[test]
fn master_pause_pauses_every_channel() {
    let mut m = mixer_with(&[0, 3]);
    let ds = m.toggle_master();
    assert!(m.is_master_paused());
    // pause is issued unconditionally, even to the muted channel
    assert_eq!(ds, vec![Directive::Pause, Directive::Pause]);
    assert!(!m.playing_at(0));
    assert!(!m.playing_at(1));
    // stored volumes are untouched
    assert_eq!(m.volume_at(0), 0);
    assert_eq!(m.volume_at(1), 3);
}

#[test]
fn master_pause_round_trip_restores_only_nonzero_channels() {
    let mut m = mixer_with(&[0, 3, 25, 0]);
    m.toggle_master();
    let ds = m.toggle_master();
    assert!(!m.is_master_paused());
    // resume plays exactly the channels with nonzero volume
    assert_eq!(
        ds,
        vec![Directive::Stay, Directive::Play, Directive::Play, Directive::Stay]
    );
    assert!(!m.playing_at(0));
    assert!(m.playing_at(1));
    assert!(m.playing_at(2));
    assert!(!m.playing_at(3));
    assert_eq!(m.volume_at(0), 0);
    assert_eq!(m.volume_at(1), 3);
    assert_eq!(m.volume_at(2), 25);
    assert_eq!(m.volume_at(3), 0);
}

#[test]
fn new_registry_is_empty() {
    // an empty discovery leaves an empty registry, which the caller must
    // treat as fatal before entering the control loop
    let m = Mixer::new(25);
    assert!(m.is_empty());
    assert_eq!(m.len(), 0);
}

#[test]
fn add_records_label_volume_and_play_state() {
    let mut m = Mixer::new(25);
    m.add(String::from("rain"), 0);
    m.add(String::from("waterfall"), 10);
    assert_eq!(m.len(), 2);
    assert_eq!(m.label_at(0).as_str(), "rain");
    assert_eq!(m.label_at(1).as_str(), "waterfall");
    assert!(!m.playing_at(0));
    assert!(m.playing_at(1));
}

#[test]
fn longest_label_tracks_the_maximum() {
    let mut m = Mixer::new(25);
    assert_eq!(m.longest_label_len(), 0);
    m.add(String::from("rain"), 0);
    assert_eq!(m.longest_label_len(), 4);
    m.add(String::from("waterfall"), 0);
    assert_eq!(m.longest_label_len(), 9);
    m.add(String::from("sea"), 0);
    assert_eq!(m.longest_label_len(), 9);
}

#[test]
fn move_selection_wraps_both_ways() {
    let mut m = mixer_with(&[1, 2, 3]);
    assert_eq!(m.selected_index(), 0);
    m.move_selection(-1);
    assert_eq!(m.selected_index(), 2);
    m.move_selection(1);
    assert_eq!(m.selected_index(), 0);
    m.move_selection(5);
    assert_eq!(m.selected_index(), 2);
}
