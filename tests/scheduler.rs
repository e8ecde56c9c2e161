use radio_dj::catalog::{cfg_to_music, CatalogError, Cfg, Music};
use radio_dj::fold::{foldn, foldn_opt, play_round, run_rounds};
use radio_dj::schedule::{
    add_combo, add_intro, add_song, add_trans, play_b1, play_b1_choice, play_b1a, play_b1b,
    play_b2, play_b2_choice, Item, State,
};
use radio_dj::select::{next_index, pick_index};
use rand::rngs::StdRng;
use rand::SeedableRng;

fn names(v: &[&str]) -> Vec<String> {
    v.iter().map(|s| s.to_string()).collect()
}

fn cfg(
    trans: &[&str],
    songs: &[(&str, Option<&str>)],
    intros: &[&str],
    min: usize,
    max: usize,
) -> Cfg {
    Cfg {
        trans: names(trans),
        songs_combo: songs
            .iter()
            .map(|(s, c)| (s.to_string(), c.map(|c| c.to_string())))
            .collect(),
        intros: names(intros),
        min_b1_songs: min,
        max_b1_songs: max,
    }
}

fn sample_music(min: usize, max: usize) -> Music {
    let c = cfg(
        &["chat.mp3", "comment.mp3", "interruption.mp3"],
        &[
            ("t.mp3", Some("t_c.mp3")),
            ("a.mp3", None),
            ("b.mp3", Some("b_c.mp3")),
            ("d.mp3", Some("d_c.mp3")),
        ],
        &["hi.mp3", "hola.mp3"],
        min,
        max,
    );
    cfg_to_music(c).ok().unwrap()
}

fn state(seed: u64, min: usize, max: usize) -> State {
    State::new(sample_music(min, max), StdRng::seed_from_u64(seed))
}

fn is_song(i: &Item) -> bool {
    matches!(i, Item::Song(_))
}

#[test]
fn next_index_steps_around() {
    assert_eq!(next_index(3, 2, 4), 1);
    assert_eq!(next_index(0, 1, 2), 1);
    assert_eq!(next_index(1, 1, 2), 0);
    assert_eq!(next_index(2, 3, 5), 0);
    assert_eq!(next_index(usize::MAX - 1, usize::MAX - 1, usize::MAX), usize::MAX - 2);
}

#[test]
fn pick_index_never_repeats_consecutively() {
    let mut rng = StdRng::seed_from_u64(1);
    for n in 2..8usize {
        let mut last = 0usize;
        for _ in 0..500 {
            let next = pick_index(&mut rng, last, n);
            assert!(next < n);
            assert_ne!(next, last);
            last = next;
        }
    }
}

#[test]
fn pick_index_is_uniform_over_the_others() {
    let mut rng = StdRng::seed_from_u64(2);
    let n = 4usize;
    let last = 1usize;
    let draws = 30000usize;
    let mut counts = vec![0usize; n];
    for _ in 0..draws {
        counts[pick_index(&mut rng, last, n)] += 1;
    }
    assert_eq!(counts[last], 0);
    for v in [0usize, 2, 3] {
        let share = counts[v] as f64 / draws as f64;
        assert!((share - 1.0 / 3.0).abs() < 0.02, "value {} share {}", v, share);
    }
}

#[test]
fn catalog_links_songs_and_combos() {
    let m = sample_music(1, 3);
    assert_eq!(m.songs, names(&["t.mp3", "a.mp3", "b.mp3", "d.mp3"]));
    assert_eq!(m.combos, names(&["t_c.mp3", "b_c.mp3", "d_c.mp3"]));
    assert_eq!(m.combo_idx_to_song_idx, vec![0, 2, 3]);
    assert_eq!(m.song_idx_to_combo_idx, vec![Some(0), None, Some(1), Some(2)]);
    assert_eq!(m.trans.len(), 3);
    assert_eq!(m.intros.len(), 2);
    assert_eq!(m.min_b1_songs, 1);
    assert_eq!(m.max_b1_songs, 3);
    assert_eq!(m.filename(Item::Combo(1)), "b_c.mp3");
    assert_eq!(m.filename(Item::Song(1)), "a.mp3");
    assert_eq!(m.filename(Item::Transition(2)), "interruption.mp3");
    assert_eq!(m.filename(Item::Intro(0)), "hi.mp3");
}

#[test]
fn single_transition_is_rejected() {
    let c = cfg(
        &["chat.mp3"],
        &[("a.mp3", Some("a_c.mp3")), ("b.mp3", Some("b_c.mp3"))],
        &["hi.mp3", "hola.mp3"],
        1,
        1,
    );
    assert_eq!(cfg_to_music(c).err(), Some(CatalogError::TooFewTransitions));
}

#[test]
fn single_combo_catalog_is_rejected() {
    let c = cfg(
        &["T1", "T2"],
        &[("A", Some("Ac")), ("B", None)],
        &["I1", "I2"],
        1,
        1,
    );
    assert_eq!(cfg_to_music(c).err(), Some(CatalogError::TooFewCombos));
}

#[test]
fn other_degenerate_catalogs_are_rejected() {
    let songs = [("a", Some("a_c")), ("b", Some("b_c"))];
    let one_song = cfg(&["t1", "t2"], &[("a", Some("a_c"))], &["i1", "i2"], 0, 0);
    assert_eq!(cfg_to_music(one_song).err(), Some(CatalogError::TooFewSongs));
    let one_intro = cfg(&["t1", "t2"], &songs, &["i1"], 0, 0);
    assert_eq!(cfg_to_music(one_intro).err(), Some(CatalogError::TooFewIntros));
    let bad_bounds = cfg(&["t1", "t2"], &songs, &["i1", "i2"], 3, 2);
    assert_eq!(cfg_to_music(bad_bounds).err(), Some(CatalogError::SongRunBounds));
    let empty = cfg(&[], &[], &[], 0, 0);
    assert_eq!(cfg_to_music(empty).err(), Some(CatalogError::TooFewTransitions));
    let ok = cfg(&["t1", "t2"], &songs, &["i1", "i2"], 0, 0);
    assert!(cfg_to_music(ok).is_ok());
}

#[test]
fn add_combo_marks_its_song_as_last() {
    let mut s = state(3, 1, 2);
    for _ in 0..200 {
        let before = s.lst_combo_idx;
        s = add_combo(s);
        assert_ne!(s.lst_combo_idx, before);
        assert_eq!(s.lst_song_idx, s.music.combo_idx_to_song_idx[s.lst_combo_idx]);
        assert_eq!(s.plays.last(), Some(&Item::Combo(s.lst_combo_idx)));
        s = add_song(s);
    }
}

#[test]
fn add_song_marks_its_combo_as_last() {
    let mut s = state(4, 1, 2);
    let mut saw_bare = false;
    for _ in 0..300 {
        let last_song = s.lst_song_idx;
        let last_combo = s.lst_combo_idx;
        s = add_song(s);
        assert_ne!(s.lst_song_idx, last_song);
        match s.music.song_idx_to_combo_idx[s.lst_song_idx] {
            Some(c) => assert_eq!(s.lst_combo_idx, c),
            None => {
                saw_bare = true;
                assert_eq!(s.lst_combo_idx, last_combo);
            }
        }
        assert_eq!(s.plays.last(), Some(&Item::Song(s.lst_song_idx)));
        s = add_combo(s);
    }
    assert!(saw_bare);
}

#[test]
fn transitions_and_intros_never_repeat() {
    let mut s = state(5, 0, 0);
    for _ in 0..200 {
        let t = s.lst_trans_idx;
        s = add_trans(s);
        assert_ne!(s.lst_trans_idx, t);
        let i = s.lst_intro_idx;
        s = add_intro(s);
        assert_ne!(s.lst_intro_idx, i);
    }
    let plays = s.take_plays();
    assert_eq!(plays.len(), 400);
    assert!(s.plays.is_empty());
}

#[test]
fn chatty_blocks_keep_the_song_run_in_bounds() {
    let mut s = state(6, 1, 3);
    let mut seen = [false; 4];
    for round in 0..300 {
        let before = s.plays.len();
        s = if round % 2 == 0 { play_b1a(s) } else { play_b1b(s) };
        let block = &s.plays[before..];
        let songs = block.len() - 2;
        assert!((1..=3).contains(&songs));
        seen[songs] = true;
        assert!(matches!(block[0], Item::Transition(_)));
        if round % 2 == 0 {
            assert!(matches!(block[1], Item::Combo(_)));
        } else {
            assert!(matches!(block[1], Item::Intro(_)));
        }
        assert!(block[2..].iter().all(is_song));
    }
    assert!(seen[1] && seen[2] && seen[3]);
}

#[test]
fn empty_song_run_is_allowed() {
    let s = play_b1a(state(7, 0, 0));
    assert_eq!(s.plays.len(), 2);
}

#[test]
fn forced_choices_in_a_two_entry_catalog() {
    let c = cfg(
        &["T1", "T2"],
        &[("A", Some("Ac")), ("B", Some("Bc"))],
        &["I1", "I2"],
        1,
        1,
    );
    let m = cfg_to_music(c).ok().unwrap();
    let s = play_b1a(State::new(m, StdRng::seed_from_u64(8)));
    assert_eq!(s.plays, vec![Item::Transition(1), Item::Combo(1), Item::Song(0)]);
    assert_eq!(s.music.filename(s.plays[1]), "Bc");
    assert_eq!(s.music.filename(s.plays[2]), "A");
    assert_eq!(s.lst_combo_idx, 0);
}

#[test]
fn play_b1_uses_both_leads() {
    let mut s = state(9, 0, 0);
    let mut combo_led = 0usize;
    let mut intro_led = 0usize;
    for _ in 0..400 {
        let before = s.plays.len();
        s = play_b1(s);
        match s.plays[before + 1] {
            Item::Combo(_) => combo_led += 1,
            Item::Intro(_) => intro_led += 1,
            _ => panic!("unexpected lead"),
        }
    }
    assert!(combo_led > 150 && intro_led > 150);
}

#[test]
fn play_b2_choices_have_their_shapes() {
    let s = play_b2_choice(state(10, 2, 2), 2);
    assert_eq!(s.plays.len(), 2);
    assert!(matches!(s.plays[0], Item::Combo(_)) && is_song(&s.plays[1]));
    let s = play_b2_choice(state(10, 2, 2), 3);
    assert!(matches!(s.plays[0], Item::Intro(_)) && is_song(&s.plays[1]));
    let s = play_b2_choice(state(10, 2, 2), 1);
    assert_eq!(s.plays.len(), 4);
    assert!(matches!(s.plays[1], Item::Intro(_)));
    let s = play_b2_choice(state(10, 2, 2), 0);
    assert!(matches!(s.plays[1], Item::Combo(_)));
}

#[test]
fn play_b2_branches_are_equally_likely() {
    let mut s = state(11, 2, 2);
    let mut counts = [0usize; 4];
    let rounds = 8000usize;
    for _ in 0..rounds {
        s = play_b2(s);
        let block = s.take_plays();
        let kind = match (block.len(), block[0], block[1]) {
            (4, _, Item::Combo(_)) => 0,
            (4, _, Item::Intro(_)) => 1,
            (2, Item::Combo(_), _) => 2,
            (2, Item::Intro(_), _) => 3,
            _ => panic!("unexpected block"),
        };
        counts[kind] += 1;
    }
    for c in counts {
        let share = c as f64 / rounds as f64;
        assert!((share - 0.25).abs() < 0.03, "share {}", share);
    }
}

#[test]
fn foldn_applies_exactly_n_times() {
    assert_eq!(foldn(|x: u64| x + 3, 5, 1), 16);
    assert_eq!(foldn(|x: u64| x * 2, 0, 7), 7);
    assert_eq!(foldn_opt(|x: u64| x + 1, Some(4), 0), 4);
}

#[test]
fn bounded_driver_runs_exactly_n_rounds() {
    let (s, rounds) = foldn(
        |(s, k): (State, usize)| (play_round(s, true), k + 1),
        6,
        (state(12, 1, 2), 0),
    );
    assert_eq!(rounds, 6);
    let transitions = s.plays.iter().filter(|i| matches!(i, Item::Transition(_))).count();
    assert!((6..=12).contains(&transitions));
    let s = run_rounds(state(13, 1, 1), false, 5);
    assert!(s.plays.len() >= 5 * (2 + 3));
    let s = run_rounds(state(14, 1, 1), true, 0);
    assert!(s.plays.is_empty());
}

#[test]
fn rounds_never_repeat_an_item_back_to_back() {
    let mut s = state(15, 0, 3);
    let b1_first = s.flip();
    s = run_rounds(s, b1_first, 200);
    for w in s.plays.windows(2) {
        assert_ne!(w[0], w[1]);
        match (w[0], w[1]) {
            (Item::Combo(c), Item::Song(x)) => assert_ne!(s.music.combo_idx_to_song_idx[c], x),
            (Item::Song(x), Item::Combo(c)) => {
                assert_ne!(s.music.song_idx_to_combo_idx[x], Some(c))
            }
            _ => {}
        }
    }
}

fn index_of(i: Item) -> usize {
    match i {
        Item::Transition(x) | Item::Intro(x) | Item::Combo(x) | Item::Song(x) => x,
    }
}

#[test]
fn chatty_blocks_differ_from_the_previous_pointers() {
    let mut s = state(16, 0, 2);
    for round in 0..300 {
        let (t0, i0, c0, s0) = (s.lst_trans_idx, s.lst_intro_idx, s.lst_combo_idx, s.lst_song_idx);
        let intro_led = round % 3 == 0;
        s = play_b1_choice(s, intro_led);
        let block = s.take_plays();
        assert_eq!(block[0], Item::Transition(s.lst_trans_idx));
        assert_ne!(s.lst_trans_idx, t0);
        if intro_led {
            assert_eq!(block[1], Item::Intro(s.lst_intro_idx));
            assert_ne!(s.lst_intro_idx, i0);
            if block.len() > 2 {
                assert_ne!(index_of(block[2]), s0);
            } else {
                assert_eq!((s.lst_song_idx, s.lst_combo_idx), (s0, c0));
            }
        } else {
            let c = index_of(block[1]);
            assert!(matches!(block[1], Item::Combo(_)));
            assert_ne!(c, c0);
            assert_eq!(s.lst_intro_idx, i0);
            let linked = s.music.combo_idx_to_song_idx[c];
            if block.len() > 2 {
                assert_ne!(index_of(block[2]), linked);
            } else {
                assert_eq!((s.lst_combo_idx, s.lst_song_idx), (c, linked));
            }
        }
    }
}

#[test]
fn quiet_blocks_follow_the_pointer_rules() {
    let mut s = state(17, 1, 1);
    for round in 0..300 {
        let (t0, i0, c0, s0) = (s.lst_trans_idx, s.lst_intro_idx, s.lst_combo_idx, s.lst_song_idx);
        let choice = 2 + round % 2;
        s = play_b2_choice(s, choice);
        let block = s.take_plays();
        assert_eq!(block.len(), 2);
        assert_eq!(block[1], Item::Song(s.lst_song_idx));
        assert_eq!(s.lst_trans_idx, t0);
        let combo_before_song = if choice == 2 {
            let c = index_of(block[0]);
            assert!(matches!(block[0], Item::Combo(_)));
            assert_ne!(c, c0);
            assert_ne!(s.lst_song_idx, s.music.combo_idx_to_song_idx[c]);
            assert_eq!(s.lst_intro_idx, i0);
            c
        } else {
            assert_eq!(block[0], Item::Intro(s.lst_intro_idx));
            assert_ne!(s.lst_intro_idx, i0);
            assert_ne!(s.lst_song_idx, s0);
            c0
        };
        let expected = s.music.song_idx_to_combo_idx[s.lst_song_idx].unwrap_or(combo_before_song);
        assert_eq!(s.lst_combo_idx, expected);
    }
}
