use crate::catalog::Music;
use crate::random::{draw_between, flip_coin};
use crate::select::pick_index;
use vstd::prelude::*;

verus! {

/// One scheduled play: a category and the index of the entry in it.
#[derive(Clone, Copy, Debug, PartialEq, Eq, Structural)]
pub enum Item {
    Transition(usize),
    Intro(usize),
    Combo(usize),
    Song(usize),
}

impl Music {
    /// The item names an entry that the catalog holds.
    pub open spec fn holds(&self, item: Item) -> bool {
        match item {
            Item::Transition(i) => i < self.trans@.len(),
            Item::Intro(i) => i < self.intros@.len(),
            Item::Combo(i) => i < self.combos@.len(),
            Item::Song(i) => i < self.songs@.len(),
        }
    }

    /// The file name of the entry an item names.
    pub open spec fn file_of(&self, item: Item) -> String {
        match item {
            Item::Transition(i) => self.trans@[i as int],
            Item::Intro(i) => self.intros@[i as int],
            Item::Combo(i) => self.combos@[i as int],
            Item::Song(i) => self.songs@[i as int],
        }
    }

    /// The file to play for `item`.
    pub fn filename(&self, item: Item) -> (r: &String)
        requires
            self.holds(item),
        ensures
            *r == self.file_of(item),
    {
        match item {
            Item::Transition(i) => &self.trans[i],
            Item::Intro(i) => &self.intros[i],
            Item::Combo(i) => &self.combos[i],
            Item::Song(i) => &self.songs[i],
        }
    }
}

/// The scheduler: the catalog, the random source, the index last played in
/// each category, and the plays scheduled and not yet handed out.
pub struct State {
    pub music: Music,
    pub rng: rand::rngs::StdRng,
    pub lst_song_idx: usize,
    pub lst_trans_idx: usize,
    pub lst_intro_idx: usize,
    pub lst_combo_idx: usize,
    pub plays: Vec<Item>,
}

/// `after` starts with every item of `before`.
pub open spec fn extends(before: Seq<Item>, after: Seq<Item>) -> bool {
    &&& before.len() <= after.len()
    &&& forall|i: int| 0 <= i < before.len() ==> #[trigger] after[i] == before[i]
}

/// `after` is `before` followed by a chatty block: a transition, a combo
/// (or an intro, where `combo_led` is false), then between `min` and `max`
/// songs.
pub open spec fn chatty_block(
    before: Seq<Item>,
    after: Seq<Item>,
    combo_led: bool,
    min: int,
    max: int,
) -> bool {
    let b = before.len() as int;
    &&& extends(before, after)
    &&& b + 2 + min <= after.len() <= b + 2 + max
    &&& after[b] is Transition
    &&& if combo_led {
        after[b + 1] is Combo
    } else {
        after[b + 1] is Intro
    }
    &&& forall|i: int| b + 2 <= i < after.len() ==> #[trigger] after[i] is Song
}

/// `after` is `before` followed by a quiet block: a combo (or an intro, where
/// `combo_led` is false), then a single song.
pub open spec fn quiet_block(before: Seq<Item>, after: Seq<Item>, combo_led: bool) -> bool {
    let b = before.len() as int;
    &&& extends(before, after)
    &&& after.len() == b + 2
    &&& if combo_led {
        after[b] is Combo
    } else {
        after[b] is Intro
    }
    &&& after[b + 1] is Song
}

/// `b` right after `a` would repeat it: the same entry, a combo followed by
/// its own song, or a song followed by its own combo.
pub open spec fn repeats(m: Music, a: Item, b: Item) -> bool {
    a == b || match (a, b) {
        (Item::Combo(c), Item::Song(x)) => m.combo_idx_to_song_idx@[c as int] == x,
        (Item::Song(x), Item::Combo(c)) => m.song_idx_to_combo_idx@[x as int] == Some(c),
        _ => false,
    }
}

/// No play repeats the one before it.
pub open spec fn no_back_to_back(m: Music, plays: Seq<Item>) -> bool {
    forall|i: int| 0 <= i < plays.len() - 1 ==> !#[trigger] repeats(m, plays[i], plays[i + 1])
}

impl State {
    /// The last play agrees with the pointers: it is the last of its
    /// category, and its linked counterpart is the last of the other.
    pub open spec fn last_play_recorded(&self) -> bool {
        self.plays@.len() > 0 ==> match self.plays@.last() {
            Item::Transition(t) => t == self.lst_trans_idx,
            Item::Intro(i) => i == self.lst_intro_idx,
            Item::Combo(c) => c == self.lst_combo_idx && self.lst_song_idx
                == self.music.combo_idx_to_song_idx@[c as int],
            Item::Song(x) => x == self.lst_song_idx && (self.music.song_idx_to_combo_idx@[x as int] is Some
                ==> self.lst_combo_idx == self.music.song_idx_to_combo_idx@[x as int].unwrap()),
        }
    }

    /// The catalog is well formed, every pointer names an entry of its
    /// category, every scheduled play names an entry of the catalog, and no
    /// play repeats the one before it.
    pub open spec fn wf(&self) -> bool {
        &&& self.music.wf()
        &&& self.lst_song_idx < self.music.songs@.len()
        &&& self.lst_trans_idx < self.music.trans@.len()
        &&& self.lst_intro_idx < self.music.intros@.len()
        &&& self.lst_combo_idx < self.music.combos@.len()
        &&& forall|i: int| 0 <= i < self.plays@.len() ==> self.music.holds(#[trigger] self.plays@[i])
        &&& no_back_to_back(self.music, self.plays@)
        &&& self.last_play_recorded()
    }

    /// A fresh scheduler: every pointer at the first entry, nothing
    /// scheduled.
    pub fn new(music: Music, rng: rand::rngs::StdRng) -> (r: State)
        requires
            music.wf(),
        ensures
            r.wf(),
            r.music == music,
            r.lst_song_idx == 0,
            r.lst_trans_idx == 0,
            r.lst_intro_idx == 0,
            r.lst_combo_idx == 0,
            r.plays@ == Seq::<Item>::empty(),
    {
        State {
            music,
            rng,
            lst_song_idx: 0,
            lst_trans_idx: 0,
            lst_intro_idx: 0,
            lst_combo_idx: 0,
            plays: Vec::new(),
        }
    }

    /// Hands out the plays scheduled so far and forgets them.
    pub fn take_plays(&mut self) -> (r: Vec<Item>)
        requires
            old(self).wf(),
        ensures
            final(self).wf(),
            r@ == old(self).plays@,
            final(self).plays@ == Seq::<Item>::empty(),
            final(self).music == old(self).music,
            final(self).lst_song_idx == old(self).lst_song_idx,
            final(self).lst_trans_idx == old(self).lst_trans_idx,
            final(self).lst_intro_idx == old(self).lst_intro_idx,
            final(self).lst_combo_idx == old(self).lst_combo_idx,
            forall|i: int| 0 <= i < r@.len() ==> final(self).music.holds(#[trigger] r@[i]),
    {
        let mut out: Vec<Item> = Vec::new();
        std::mem::swap(&mut self.plays, &mut out);
        out
    }

    /// Flips the coin that fixes, once per run, which block style wraps the
    /// other.
    pub fn flip(&mut self) -> (r: bool)
        requires
            old(self).wf(),
        ensures
            final(self).wf(),
            final(self).music == old(self).music,
            final(self).plays@ == old(self).plays@,
            final(self).lst_song_idx == old(self).lst_song_idx,
            final(self).lst_trans_idx == old(self).lst_trans_idx,
            final(self).lst_intro_idx == old(self).lst_intro_idx,
            final(self).lst_combo_idx == old(self).lst_combo_idx,
    {
        flip_coin(&mut self.rng)
    }
}

/// Schedules an intro other than the last one.
pub fn add_intro(s: State) -> (r: State)
    requires
        s.wf(),
    ensures
        r.wf(),
        r.music == s.music,
        r.lst_intro_idx != s.lst_intro_idx,
        r.lst_trans_idx == s.lst_trans_idx,
        r.lst_song_idx == s.lst_song_idx,
        r.lst_combo_idx == s.lst_combo_idx,
        r.plays@ == s.plays@.push(Item::Intro(r.lst_intro_idx)),
{
    let mut s = s;
    let idx = pick_index(&mut s.rng, s.lst_intro_idx, s.music.intros.len());
    s.lst_intro_idx = idx;
    s.plays.push(Item::Intro(idx));
    s
}

/// Schedules a transition other than the last one.
pub fn add_trans(s: State) -> (r: State)
    requires
        s.wf(),
    ensures
        r.wf(),
        r.music == s.music,
        r.lst_trans_idx != s.lst_trans_idx,
        r.lst_intro_idx == s.lst_intro_idx,
        r.lst_song_idx == s.lst_song_idx,
        r.lst_combo_idx == s.lst_combo_idx,
        r.plays@ == s.plays@.push(Item::Transition(r.lst_trans_idx)),
{
    let mut s = s;
    let idx = pick_index(&mut s.rng, s.lst_trans_idx, s.music.trans.len());
    s.lst_trans_idx = idx;
    s.plays.push(Item::Transition(idx));
    s
}

/// Schedules a combo other than the last one; its song becomes the last
/// song, so the next bare song cannot repeat the one just announced.
pub fn add_combo(s: State) -> (r: State)
    requires
        s.wf(),
    ensures
        r.wf(),
        r.music == s.music,
        r.lst_combo_idx != s.lst_combo_idx,
        r.lst_song_idx == s.music.combo_idx_to_song_idx@[r.lst_combo_idx as int],
        r.lst_trans_idx == s.lst_trans_idx,
        r.lst_intro_idx == s.lst_intro_idx,
        r.plays@ == s.plays@.push(Item::Combo(r.lst_combo_idx)),
{
    let mut s = s;
    let idx = pick_index(&mut s.rng, s.lst_combo_idx, s.music.combos.len());
    s.lst_combo_idx = idx;
    s.lst_song_idx = s.music.combo_idx_to_song_idx[idx];
    s.plays.push(Item::Combo(idx));
    s
}

/// Schedules a song other than the last one; where the song has a combo,
/// that combo becomes the last combo, so it cannot be announced next.
pub fn add_song(s: State) -> (r: State)
    requires
        s.wf(),
    ensures
        r.wf(),
        r.music == s.music,
        r.lst_song_idx != s.lst_song_idx,
        r.lst_combo_idx == (match s.music.song_idx_to_combo_idx@[r.lst_song_idx as int] {
            Some(c) => c,
            None => s.lst_combo_idx,
        }),
        r.lst_trans_idx == s.lst_trans_idx,
        r.lst_intro_idx == s.lst_intro_idx,
        r.plays@ == s.plays@.push(Item::Song(r.lst_song_idx)),
{
    let mut s = s;
    let idx = pick_index(&mut s.rng, s.lst_song_idx, s.music.songs.len());
    s.lst_song_idx = idx;
    match s.music.song_idx_to_combo_idx[idx] {
        None => {},
        Some(c) => {
            s.lst_combo_idx = c;
        },
    }
    s.plays.push(Item::Song(idx));
    s
}

/// The index an item names within its category.
pub open spec fn item_index(item: Item) -> usize {
    match item {
        Item::Transition(i) => i,
        Item::Intro(i) => i,
        Item::Combo(i) => i,
        Item::Song(i) => i,
    }
}

/// The combo pointer after song `x` is played with the combo pointer at
/// `combo`: the song's own combo, if it has one.
pub open spec fn combo_after_song(m: Music, x: usize, combo: usize) -> usize {
    match m.song_idx_to_combo_idx@[x as int] {
        Some(c) => c,
        None => combo,
    }
}

/// `r` is `s` after a chatty block led by a combo: the transition differs
/// from the last transition, the combo from the last combo, the first song
/// from the combo's song; the intro pointer stays, and with no songs the
/// combo and its song are the last of their categories.
pub open spec fn b1a_step(s: State, r: State) -> bool {
    let b = s.plays@.len() as int;
    let m = s.music;
    let c = item_index(r.plays@[b + 1]);
    &&& chatty_block(s.plays@, r.plays@, true, m.min_b1_songs as int, m.max_b1_songs as int)
    &&& r.plays@[b] == Item::Transition(r.lst_trans_idx)
    &&& r.lst_trans_idx != s.lst_trans_idx
    &&& c != s.lst_combo_idx
    &&& r.lst_intro_idx == s.lst_intro_idx
    &&& r.plays@.len() > b + 2 ==> item_index(r.plays@[b + 2]) != m.combo_idx_to_song_idx@[c as int]
    &&& r.plays@.len() == b + 2 ==> r.lst_combo_idx == c && r.lst_song_idx
        == m.combo_idx_to_song_idx@[c as int]
}

/// `r` is `s` after a chatty block led by an intro: the transition, the
/// intro and the first song differ from the last of their categories; with
/// no songs the song and combo pointers stay.
pub open spec fn b1b_step(s: State, r: State) -> bool {
    let b = s.plays@.len() as int;
    let m = s.music;
    &&& chatty_block(s.plays@, r.plays@, false, m.min_b1_songs as int, m.max_b1_songs as int)
    &&& r.plays@[b] == Item::Transition(r.lst_trans_idx)
    &&& r.lst_trans_idx != s.lst_trans_idx
    &&& r.plays@[b + 1] == Item::Intro(r.lst_intro_idx)
    &&& r.lst_intro_idx != s.lst_intro_idx
    &&& r.plays@.len() > b + 2 ==> item_index(r.plays@[b + 2]) != s.lst_song_idx
    &&& r.plays@.len() == b + 2 ==> r.lst_song_idx == s.lst_song_idx && r.lst_combo_idx
        == s.lst_combo_idx
}

/// Either kind of chatty block.
pub open spec fn b1_step(s: State, r: State) -> bool {
    b1a_step(s, r) || b1b_step(s, r)
}

/// `r` is `s` after a quiet block led by a combo: a combo other than the
/// last, then a song other than the combo's own.
pub open spec fn quiet_combo_step(s: State, r: State) -> bool {
    let b = s.plays@.len() as int;
    let m = s.music;
    let c = item_index(r.plays@[b]);
    &&& quiet_block(s.plays@, r.plays@, true)
    &&& c != s.lst_combo_idx
    &&& r.plays@[b + 1] == Item::Song(r.lst_song_idx)
    &&& r.lst_song_idx != m.combo_idx_to_song_idx@[c as int]
    &&& r.lst_combo_idx == combo_after_song(m, r.lst_song_idx, c)
    &&& r.lst_trans_idx == s.lst_trans_idx
    &&& r.lst_intro_idx == s.lst_intro_idx
}

/// `r` is `s` after a quiet block led by an intro: an intro other than the
/// last, then a song other than the last.
pub open spec fn quiet_intro_step(s: State, r: State) -> bool {
    let b = s.plays@.len() as int;
    &&& quiet_block(s.plays@, r.plays@, false)
    &&& r.plays@[b] == Item::Intro(r.lst_intro_idx)
    &&& r.lst_intro_idx != s.lst_intro_idx
    &&& r.plays@[b + 1] == Item::Song(r.lst_song_idx)
    &&& r.lst_song_idx != s.lst_song_idx
    &&& r.lst_combo_idx == combo_after_song(s.music, r.lst_song_idx, s.lst_combo_idx)
    &&& r.lst_trans_idx == s.lst_trans_idx
}

/// Schedules `k` songs in a row.
fn add_songs(s: State, k: usize) -> (r: State)
    requires
        s.wf(),
    ensures
        r.wf(),
        r.music == s.music,
        extends(s.plays@, r.plays@),
        r.plays@.len() == s.plays@.len() + k,
        forall|i: int| s.plays@.len() <= i < r.plays@.len() ==> #[trigger] r.plays@[i] is Song,
        r.lst_trans_idx == s.lst_trans_idx,
        r.lst_intro_idx == s.lst_intro_idx,
        k > 0 ==> item_index(r.plays@[s.plays@.len() as int]) != s.lst_song_idx,
        k == 0 ==> r.lst_song_idx == s.lst_song_idx && r.lst_combo_idx == s.lst_combo_idx,
{
    let mut s2 = s;
    let mut j: usize = 0;
    while j < k
        invariant
            s2.wf(),
            s2.music == s.music,
            j <= k,
            extends(s.plays@, s2.plays@),
            s2.plays@.len() == s.plays@.len() + j,
            forall|i: int| s.plays@.len() <= i < s2.plays@.len() ==> #[trigger] s2.plays@[i] is Song,
            s2.lst_trans_idx == s.lst_trans_idx,
            s2.lst_intro_idx == s.lst_intro_idx,
            j > 0 ==> item_index(s2.plays@[s.plays@.len() as int]) != s.lst_song_idx,
            j == 0 ==> s2.lst_song_idx == s.lst_song_idx && s2.lst_combo_idx == s.lst_combo_idx,
        decreases k - j,
    {
        s2 = add_song(s2);
        j = j + 1;
    }
    s2
}

/// A chatty block led by a combo: a transition, a combo, then a run of
/// songs whose length is drawn between the catalog's bounds.
pub fn play_b1a(s: State) -> (r: State)
    requires
        s.wf(),
    ensures
        r.wf(),
        r.music == s.music,
        b1a_step(s, r),
{
    let mut s = s;
    let k = draw_between(&mut s.rng, s.music.min_b1_songs, s.music.max_b1_songs);
    let t = add_trans(s);
    let c = add_combo(t);
    add_songs(c, k)
}

/// A chatty block led by an intro: a transition, an intro, then a run of
/// songs whose length is drawn between the catalog's bounds.
pub fn play_b1b(s: State) -> (r: State)
    requires
        s.wf(),
    ensures
        r.wf(),
        r.music == s.music,
        b1b_step(s, r),
{
    let mut s = s;
    let k = draw_between(&mut s.rng, s.music.min_b1_songs, s.music.max_b1_songs);
    let t = add_trans(s);
    let i = add_intro(t);
    add_songs(i, k)
}

/// The chatty block for a given coin: led by an intro where `intro_led`
/// holds, else by a combo.
pub fn play_b1_choice(s: State, intro_led: bool) -> (r: State)
    requires
        s.wf(),
    ensures
        r.wf(),
        r.music == s.music,
        if intro_led {
            b1b_step(s, r)
        } else {
            b1a_step(s, r)
        },
{
    if intro_led {
        play_b1b(s)
    } else {
        play_b1a(s)
    }
}

/// One chatty block, led by a combo or by an intro on a fair coin.
pub fn play_b1(s: State) -> (r: State)
    requires
        s.wf(),
    ensures
        r.wf(),
        r.music == s.music,
        b1_step(s, r),
{
    let mut s = s;
    let intro_led = flip_coin(&mut s.rng);
    play_b1_choice(s, intro_led)
}

/// The four behaviours of a variable-energy block, by the drawn number
/// `0..=3`: a chatty block led by a combo or by an intro, or a quiet block
/// (a combo or an intro, then one song).
pub open spec fn b2_step(s: State, r: State, choice: int) -> bool {
    if choice == 0 {
        b1a_step(s, r)
    } else if choice == 1 {
        b1b_step(s, r)
    } else if choice == 2 {
        quiet_combo_step(s, r)
    } else {
        quiet_intro_step(s, r)
    }
}

/// One variable-energy block: one of four behaviours, drawn uniformly.
pub fn play_b2(s: State) -> (r: State)
    requires
        s.wf(),
    ensures
        r.wf(),
        r.music == s.music,
        exists|choice: int| 0 <= choice <= 3 && b2_step(s, r, choice),
{
    let ghost s0 = s;
    let mut s = s;
    let choice = draw_between(&mut s.rng, 0, 3);
    let r = play_b2_choice(s, choice);
    assert(b2_step(s0, r, choice as int));
    r
}

/// The variable-energy block for a given draw in `0..=3`.
pub fn play_b2_choice(s: State, choice: usize) -> (r: State)
    requires
        s.wf(),
        choice <= 3,
    ensures
        r.wf(),
        r.music == s.music,
        b2_step(s, r, choice as int),
{
    if choice == 0 {
        play_b1a(s)
    } else if choice == 1 {
        play_b1b(s)
    } else if choice == 2 {
        add_song(add_combo(s))
    } else {
        add_song(add_intro(s))
    }
}

} // verus!
