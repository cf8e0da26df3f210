//! Normalized track metadata: the snapshot record the display renders, the
//! raw per-player record the media bus hands back, the default-substitution
//! rule that keeps every textual field non-empty, and the player-selection
//! rule that picks the first player actually playing a track.

use vstd::prelude::*;

verus! {

/// Mathematical image of a snapshot: the three text fields as character
/// sequences and the optional art reference.
pub struct SnapshotView {
    pub title: Seq<char>,
    pub album: Seq<char>,
    pub artist: Seq<char>,
    pub art_reference: Option<Seq<char>>,
}

/// What should be displayed: a comparable record whose textual fields are
/// never empty once built through the default-substitution rule.
pub struct HIDSongMetadata {
    pub title: String,
    pub album: String,
    pub artist: String,
    pub album_art_url: Option<String>,
}

impl View for HIDSongMetadata {
    type V = SnapshotView;

    open spec fn view(&self) -> SnapshotView {
        SnapshotView {
            title: self.title@,
            album: self.album@,
            artist: self.artist@,
            art_reference: match self.album_art_url {
                Some(u) => Some(u@),
                None => None,
            },
        }
    }
}

impl DeepView for HIDSongMetadata {
    type V = SnapshotView;

    open spec fn deep_view(&self) -> SnapshotView {
        self.view()
    }
}

/// Textual fields of a well-formed snapshot are non-empty, so the scroll
/// arithmetic never sees a blank field.
pub open spec fn snapshot_wf(s: SnapshotView) -> bool {
    s.title.len() > 0 && s.album.len() > 0 && s.artist.len() > 0
}

/// The all-defaults snapshot: what is displayed when no player qualifies.
pub open spec fn default_snapshot_view() -> SnapshotView {
    SnapshotView {
        title: "No Title"@,
        album: "No Album"@,
        artist: "No Artists"@,
        art_reference: None,
    }
}

impl HIDSongMetadata {
    /// Plain constructor: stores the three fields and the optional art
    /// reference as given, without applying any defaulting.
    pub fn new(title: String, album: String, artist: String, album_art_url: Option<&str>) -> (s:
        Self)
        ensures
            s@.title == title@,
            s@.album == album@,
            s@.artist == artist@,
            s@.art_reference == match album_art_url {
                Some(u) => Some(u@),
                None => None::<Seq<char>>,
            },
    {
        HIDSongMetadata {
            title,
            album,
            artist,
            album_art_url: match album_art_url {
                Some(u) => Some(String::from_str(u)),
                None => None,
            },
        }
    }
}

impl Default for HIDSongMetadata {
    /// The all-defaults snapshot.
    fn default() -> (s: Self)
        ensures
            s@ == default_snapshot_view(),
            snapshot_wf(s@),
    {
        proof {
            reveal_strlit("No Title");
            reveal_strlit("No Album");
            reveal_strlit("No Artists");
        }
        HIDSongMetadata {
            title: String::from_str("No Title"),
            album: String::from_str("No Album"),
            artist: String::from_str("No Artists"),
            album_art_url: None,
        }
    }
}

impl Clone for HIDSongMetadata {
    fn clone(&self) -> (s: Self)
        ensures
            s@ == self@,
    {
        HIDSongMetadata {
            title: self.title.clone(),
            album: self.album.clone(),
            artist: self.artist.clone(),
            album_art_url: match &self.album_art_url {
                Some(u) => Some(u.clone()),
                None => None,
            },
        }
    }
}

impl PartialEq for HIDSongMetadata {
    /// Full structural equality: any field difference, the art reference
    /// included, makes two snapshots unequal.
    fn eq(&self, other: &Self) -> (r: bool) {
        let texts = self.title == other.title && self.album == other.album && self.artist
            == other.artist;
        let art = match (&self.album_art_url, &other.album_art_url) {
            (Some(a), Some(b)) => *a == *b,
            (None, None) => true,
            _ => false,
        };
        let r = texts && art;
        proof {
            if r {
                assert(self@ == other@);
            }
        }
        r
    }
}

impl vstd::std_specs::cmp::PartialEqSpecImpl for HIDSongMetadata {
    open spec fn obeys_eq_spec() -> bool {
        true
    }

    open spec fn eq_spec(&self, other: &Self) -> bool {
        self@ == other@
    }
}

/// Raw per-player record as the media bus reports it: every field may be
/// absent, and the play length (microseconds) decides whether the player is
/// actually playing a track.
pub struct RawMetadata {
    pub title: Option<String>,
    pub album: Option<String>,
    pub artists: Option<Vec<String>>,
    pub art_url: Option<String>,
    pub length_in_microseconds: Option<u64>,
}

/// Mathematical image of a raw record.
pub struct RawMetadataView {
    pub title: Option<Seq<char>>,
    pub album: Option<Seq<char>>,
    pub artists: Option<Seq<Seq<char>>>,
    pub art_url: Option<Seq<char>>,
    pub length_in_microseconds: Option<u64>,
}

impl View for RawMetadata {
    type V = RawMetadataView;

    open spec fn view(&self) -> RawMetadataView {
        RawMetadataView {
            title: match self.title {
                Some(s) => Some(s@),
                None => None,
            },
            album: match self.album {
                Some(s) => Some(s@),
                None => None,
            },
            artists: match self.artists {
                Some(v) => Some(v.deep_view()),
                None => None,
            },
            art_url: match self.art_url {
                Some(s) => Some(s@),
                None => None,
            },
            length_in_microseconds: self.length_in_microseconds,
        }
    }
}

impl DeepView for RawMetadata {
    type V = RawMetadataView;

    open spec fn deep_view(&self) -> RawMetadataView {
        self.view()
    }
}

/// Default substitution for one field: an absent or empty value becomes the
/// field's label, anything else passes through.
pub open spec fn defaulted(field: Option<Seq<char>>, label: Seq<char>) -> Seq<char> {
    match field {
        Some(s) => if s.len() == 0 {
            label
        } else {
            s
        },
        None => label,
    }
}

/// The artist list joined with a comma between adjacent names.
pub open spec fn join_comma(items: Seq<Seq<char>>) -> Seq<char>
    decreases items.len(),
{
    if items.len() == 0 {
        Seq::empty()
    } else if items.len() == 1 {
        items[0]
    } else {
        join_comma(items.drop_last()) + seq![','] + items.last()
    }
}

/// The artist field of a snapshot: the joined list, or the default label
/// when the list is absent or joins to nothing.
pub open spec fn artist_field(artists: Option<Seq<Seq<char>>>) -> Seq<char> {
    let joined = match artists {
        Some(l) => join_comma(l),
        None => Seq::<char>::empty(),
    };
    if joined.len() == 0 {
        "No Artists"@
    } else {
        joined
    }
}

/// The snapshot a raw record normalizes to: each text field defaulted, the
/// art reference passed through untouched.
pub open spec fn snapshot_of_raw(raw: RawMetadataView) -> SnapshotView {
    SnapshotView {
        title: defaulted(raw.title, "No Title"@),
        album: defaulted(raw.album, "No Album"@),
        artist: artist_field(raw.artists),
        art_reference: raw.art_url,
    }
}

/// A player qualifies for display exactly when it reports a present,
/// non-zero play length: a zero-length or length-less entry advertises a
/// track without actually playing one.
pub open spec fn qualifies(r: RawMetadataView) -> bool {
    match r.length_in_microseconds {
        Some(l) => l != 0,
        None => false,
    }
}

/// The snapshot a poll of the given players yields: the first qualifying
/// player's record normalized, or the all-defaults snapshot when none
/// qualifies. An absent entry is a player whose metadata query failed.
pub open spec fn select_spec(ps: Seq<Option<RawMetadataView>>) -> SnapshotView
    decreases ps.len(),
{
    if ps.len() == 0 {
        default_snapshot_view()
    } else {
        match ps[0] {
            Some(r) => if qualifies(r) {
                snapshot_of_raw(r)
            } else {
                select_spec(ps.drop_first())
            },
            None => select_spec(ps.drop_first()),
        }
    }
}

/// Field invariant law: normalization never leaves a textual field blank —
/// an absent or empty upstream value always becomes its default label, so
/// the scroll arithmetic downstream never sees an empty field.
pub proof fn lemma_snapshot_of_raw_wf(raw: RawMetadataView)
    ensures
        snapshot_wf(snapshot_of_raw(raw)),
{
    reveal_strlit("No Title");
    reveal_strlit("No Album");
    reveal_strlit("No Artists");
}

/// Field invariant law, lifted to a whole poll: whatever the players
/// report, the selected snapshot has non-empty textual fields.
pub proof fn lemma_select_wf(ps: Seq<Option<RawMetadataView>>)
    ensures
        snapshot_wf(select_spec(ps)),
    decreases ps.len(),
{
    reveal_strlit("No Title");
    reveal_strlit("No Album");
    reveal_strlit("No Artists");
    if ps.len() > 0 {
        match ps[0] {
            Some(r) => {
                if qualifies(r) {
                    lemma_snapshot_of_raw_wf(r);
                } else {
                    lemma_select_wf(ps.drop_first());
                }
            },
            None => {
                lemma_select_wf(ps.drop_first());
            },
        }
    }
}

/// Appending one more name to a list extends the join by a comma and that
/// name (by the name alone when the list was empty).
pub proof fn lemma_join_comma_push(s: Seq<Seq<char>>, x: Seq<char>)
    ensures
        join_comma(s.push(x)) == if s.len() == 0 {
            x
        } else {
            join_comma(s) + seq![','] + x
        },
{
    if s.len() == 0 {
        assert(s.push(x)[0] == x);
    } else {
        assert(s.push(x).drop_last() =~= s);
        assert(s.push(x).last() == x);
    }
}

/// The artist names joined with a comma between adjacent names.
pub fn join_artists(items: &Vec<String>) -> (r: String)
    ensures
        r@ == join_comma(items.deep_view()),
{
    let ghost all = items.deep_view();
    let mut out = String::new();
    let mut i: usize = 0;
    while i < items.len()
        invariant
            i <= items.len(),
            all == items.deep_view(),
            out@ == join_comma(all.take(i as int)),
        decreases items.len() - i,
    {
        if i > 0 {
            out.append(",");
        }
        out.append(items[i].as_str());
        proof {
            reveal_strlit(",");
            assert(","@ =~= seq![',']);
            lemma_join_comma_push(all.take(i as int), all[i as int]);
            assert(all.take(i as int + 1) =~= all.take(i as int).push(all[i as int]));
        }
        i += 1;
    }
    proof {
        assert(all.take(items@.len() as int) =~= all);
    }
    out
}

/// One field normalized: the stored value unless it is absent or empty, the
/// label otherwise.
fn defaulted_field(field: &Option<String>, label: &str) -> (r: String)
    ensures
        r@ == defaulted(
            match field {
                Some(s) => Some(s@),
                None => None::<Seq<char>>,
            },
            label@,
        ),
{
    match field {
        Some(s) => {
            if s.as_str().is_empty() {
                String::from_str(label)
            } else {
                s.clone()
            }
        },
        None => String::from_str(label),
    }
}

impl HIDSongMetadata {
    /// Normalize a raw record: substitute the default label for each absent
    /// or empty text field, join the artist list, and pass the art
    /// reference through untouched.
    pub fn from_raw(raw: &RawMetadata) -> (s: Self)
        ensures
            s@ == snapshot_of_raw(raw@),
    {
        let title = defaulted_field(&raw.title, "No Title");
        let album = defaulted_field(&raw.album, "No Album");
        let artist = match &raw.artists {
            Some(list) => {
                let joined = join_artists(list);
                if joined.as_str().is_empty() {
                    String::from_str("No Artists")
                } else {
                    joined
                }
            },
            None => String::from_str("No Artists"),
        };
        let album_art_url = match &raw.art_url {
            Some(u) => Some(u.clone()),
            None => None,
        };
        HIDSongMetadata { title, album, artist, album_art_url }
    }
}

/// Player selection: walk the poll results in enumeration order, skip
/// players whose metadata query failed, and normalize the first record with
/// a present, non-zero play length; yield the all-defaults snapshot when no
/// player qualifies.
pub fn select_snapshot(players: &Vec<Option<RawMetadata>>) -> (s: HIDSongMetadata)
    ensures
        s@ == select_spec(players.deep_view()),
{
    let ghost all = players.deep_view();
    proof {
        assert(all.skip(0) =~= all);
    }
    let mut i: usize = 0;
    while i < players.len()
        invariant
            i <= players.len(),
            all == players.deep_view(),
            select_spec(all) == select_spec(all.skip(i as int)),
        decreases players.len() - i,
    {
        proof {
            assert(all.skip(i as int).drop_first() =~= all.skip(i as int + 1));
            assert(all.skip(i as int)[0] == all[i as int]);
        }
        match &players[i] {
            Some(r) => {
                let ok = match &r.length_in_microseconds {
                    Some(l) => *l != 0,
                    None => false,
                };
                if ok {
                    return HIDSongMetadata::from_raw(r);
                }
            },
            None => {},
        }
        i += 1;
    }
    proof {
        assert(all.skip(players@.len() as int) =~= Seq::<Option<RawMetadataView>>::empty());
    }
    HIDSongMetadata::default()
}

} // verus!
