use vstd::prelude::*;

verus! {

/// The configuration as read: transitions, songs each with an optional
/// combo, intros, and the bounds of a chatty block's run of songs.
pub struct Cfg {
    pub trans: Vec<String>,
    pub songs_combo: Vec<(String, Option<String>)>,
    pub intros: Vec<String>,
    pub min_b1_songs: usize,
    pub max_b1_songs: usize,
}

/// Why a configuration cannot become a catalog.
#[derive(Clone, Copy, Debug, PartialEq, Eq, Structural)]
pub enum CatalogError {
    TooFewTransitions,
    TooFewSongs,
    TooFewCombos,
    TooFewIntros,
    SongRunBounds,
}

/// The immutable catalog: every category by index, and the two tables that
/// link each combo to its song and each song to its combo, if it has one.
pub struct Music {
    pub min_b1_songs: usize,
    pub max_b1_songs: usize,
    pub trans: Vec<String>,
    pub intros: Vec<String>,
    pub songs: Vec<String>,
    pub combos: Vec<String>,
    pub combo_idx_to_song_idx: Vec<usize>,
    pub song_idx_to_combo_idx: Vec<Option<usize>>,
}

/// How many of the first `i` songs carry a combo.
pub open spec fn combos_before(sc: Seq<(String, Option<String>)>, i: int) -> nat
    decreases i,
{
    if i <= 0 {
        0
    } else {
        combos_before(sc, i - 1) + if sc[i - 1].1 is Some { 1nat } else { 0nat }
    }
}

/// The song at `i` has a combo entry exactly when its configuration names
/// one, and that entry is the count of combos named before it.
pub open spec fn linked_as(entry: Option<usize>, sc: Seq<(String, Option<String>)>, i: int) -> bool {
    match entry {
        Some(c) => sc[i].1 is Some && c == combos_before(sc, i),
        None => sc[i].1 is None,
    }
}

/// The first rule that the configuration breaks, if any: every category
/// needs two entries so that a new pick can differ from the last one.
pub open spec fn cfg_error(cfg: Cfg) -> Option<CatalogError> {
    if cfg.trans@.len() < 2 {
        Some(CatalogError::TooFewTransitions)
    } else if cfg.songs_combo@.len() < 2 {
        Some(CatalogError::TooFewSongs)
    } else if combos_before(cfg.songs_combo@, cfg.songs_combo@.len() as int) < 2 {
        Some(CatalogError::TooFewCombos)
    } else if cfg.intros@.len() < 2 {
        Some(CatalogError::TooFewIntros)
    } else if cfg.min_b1_songs > cfg.max_b1_songs {
        Some(CatalogError::SongRunBounds)
    } else {
        None
    }
}

impl Music {
    /// Each category holds at least two entries, the run bounds are ordered,
    /// and the combo and song tables are inverse to each other.
    pub open spec fn wf(&self) -> bool {
        &&& self.trans@.len() >= 2
        &&& self.intros@.len() >= 2
        &&& self.songs@.len() >= 2
        &&& self.combos@.len() >= 2
        &&& self.min_b1_songs <= self.max_b1_songs
        &&& self.combo_idx_to_song_idx@.len() == self.combos@.len()
        &&& self.song_idx_to_combo_idx@.len() == self.songs@.len()
        &&& forall|c: int|
            0 <= c < self.combos@.len() ==> {
                &&& #[trigger] self.combo_idx_to_song_idx@[c] < self.songs@.len()
                &&& self.song_idx_to_combo_idx@[self.combo_idx_to_song_idx@[c] as int] == Some(
                    c as usize,
                )
            }
        &&& forall|s: int|
            0 <= s < self.songs@.len() && #[trigger] self.song_idx_to_combo_idx@[s] is Some ==> {
                &&& self.song_idx_to_combo_idx@[s].unwrap() < self.combos@.len()
                &&& self.combo_idx_to_song_idx@[self.song_idx_to_combo_idx@[s].unwrap() as int]
                    == s
            }
    }

    /// The catalog holds exactly what `cfg` lists: songs in order, combos in
    /// the order of their songs, and each linked pair in both tables.
    pub open spec fn built_from(&self, cfg: Cfg) -> bool {
        let sc = cfg.songs_combo@;
        &&& self.trans == cfg.trans
        &&& self.intros == cfg.intros
        &&& self.min_b1_songs == cfg.min_b1_songs
        &&& self.max_b1_songs == cfg.max_b1_songs
        &&& self.songs@.len() == sc.len()
        &&& self.combos@.len() == combos_before(sc, sc.len() as int)
        &&& forall|i: int| 0 <= i < sc.len() ==> #[trigger] self.songs@[i] == sc[i].0
        &&& forall|i: int|
            0 <= i < sc.len() ==> linked_as(#[trigger] self.song_idx_to_combo_idx@[i], sc, i)
        &&& forall|i: int|
            0 <= i < sc.len() && (#[trigger] sc[i]).1 is Some ==> {
                &&& self.combos@[combos_before(sc, i) as int] == sc[i].1.unwrap()
                &&& self.combo_idx_to_song_idx@[combos_before(sc, i) as int] == i
            }
    }
}

/// Turns a configuration into a catalog, or says which rule it breaks.
pub fn cfg_to_music(cfg: Cfg) -> (r: Result<Music, CatalogError>)
    requires
        cfg.songs_combo@.len() < usize::MAX,
    ensures
        match r {
            Ok(m) => cfg_error(cfg) is None && m.wf() && m.built_from(cfg),
            Err(e) => cfg_error(cfg) == Some(e),
        },
{
    let num_songs = cfg.songs_combo.len();
    let ghost sc = cfg.songs_combo@;
    let mut songs: Vec<String> = Vec::new();
    let mut combos: Vec<String> = Vec::new();
    let mut combo_idx_to_song_idx: Vec<usize> = Vec::new();
    let mut song_idx_to_combo_idx: Vec<Option<usize>> = Vec::new();
    let mut i: usize = 0;
    while i < num_songs
        invariant
            sc == cfg.songs_combo@,
            num_songs == sc.len(),
            num_songs < usize::MAX,
            i <= num_songs,
            songs@.len() == i,
            song_idx_to_combo_idx@.len() == i,
            combos@.len() == combos_before(sc, i as int),
            combo_idx_to_song_idx@.len() == combos@.len(),
            forall|j: int| 0 <= j < i ==> #[trigger] songs@[j] == sc[j].0,
            forall|j: int| 0 <= j < i ==> linked_as(#[trigger] song_idx_to_combo_idx@[j], sc, j),
            forall|j: int|
                0 <= j < i && (#[trigger] sc[j]).1 is Some ==> {
                    &&& combos@[combos_before(sc, j) as int] == sc[j].1.unwrap()
                    &&& combo_idx_to_song_idx@[combos_before(sc, j) as int] == j
                },
            forall|c: int|
                0 <= c < combos@.len() ==> {
                    &&& #[trigger] combo_idx_to_song_idx@[c] < i
                    &&& song_idx_to_combo_idx@[combo_idx_to_song_idx@[c] as int] == Some(
                        c as usize,
                    )
                },
            forall|s: int|
                0 <= s < i && #[trigger] song_idx_to_combo_idx@[s] is Some ==> {
                    &&& song_idx_to_combo_idx@[s].unwrap() < combos@.len()
                    &&& combo_idx_to_song_idx@[song_idx_to_combo_idx@[s].unwrap() as int] == s
                },
        decreases num_songs - i,
    {
        proof {
            lemma_combos_before_bounded(sc, i as int + 1);
            assert forall|j: int| 0 <= j < i && (#[trigger] sc[j]).1 is Some implies combos_before(
                sc,
                j,
            ) < combos_before(sc, i as int) by {
                lemma_combos_before_grows(sc, j, i as int);
            }
        }
        let entry = &cfg.songs_combo[i];
        songs.push(entry.0.clone());
        match &entry.1 {
            None => {
                song_idx_to_combo_idx.push(None);
            },
            Some(combo) => {
                let combo_idx = combos.len();
                combos.push(combo.clone());
                combo_idx_to_song_idx.push(i);
                song_idx_to_combo_idx.push(Some(combo_idx));
            },
        }
        i = i + 1;
    }
    if cfg.trans.len() < 2 {
        return Err(CatalogError::TooFewTransitions);
    }
    if num_songs < 2 {
        return Err(CatalogError::TooFewSongs);
    }
    if combos.len() < 2 {
        return Err(CatalogError::TooFewCombos);
    }
    if cfg.intros.len() < 2 {
        return Err(CatalogError::TooFewIntros);
    }
    if cfg.min_b1_songs > cfg.max_b1_songs {
        return Err(CatalogError::SongRunBounds);
    }
    Ok(
        Music {
            min_b1_songs: cfg.min_b1_songs,
            max_b1_songs: cfg.max_b1_songs,
            trans: cfg.trans,
            intros: cfg.intros,
            songs,
            combos,
            combo_idx_to_song_idx,
            song_idx_to_combo_idx,
        },
    )
}

/// A song that carries a combo is counted before every later position.
proof fn lemma_combos_before_grows(sc: Seq<(String, Option<String>)>, j: int, k: int)
    requires
        0 <= j < k,
        j < sc.len(),
        sc[j].1 is Some,
    ensures
        combos_before(sc, j) < combos_before(sc, k),
    decreases k - j,
{
    if k > j + 1 {
        lemma_combos_before_grows(sc, j, k - 1);
    }
}

/// No more songs carry a combo than there are songs.
proof fn lemma_combos_before_bounded(sc: Seq<(String, Option<String>)>, i: int)
    requires
        0 <= i,
    ensures
        combos_before(sc, i) <= i,
    decreases i,
{
    if i > 0 {
        lemma_combos_before_bounded(sc, i - 1);
    }
}

} // verus!
