use oled_now_playing::artwork::{art_outcome_of, plan_art, ArtError, ArtOutcome, ArtPlan};
use oled_now_playing::metadata::{select_snapshot, HIDSongMetadata, RawMetadata};
use oled_now_playing::render::{render_frame, DrawCommand, RenderState, TICK_LIMIT};
use oled_now_playing::scroll::window;

fn raw(
    title: Option<&str>,
    album: Option<&str>,
    artists: Option<Vec<&str>>,
    art_url: Option<&str>,
    length: Option<u64>,
) -> RawMetadata {
    RawMetadata {
        title: title.map(|s| s.to_string()),
        album: album.map(|s| s.to_string()),
        artists: artists.map(|v| v.iter().map(|s| s.to_string()).collect()),
        art_url: art_url.map(|s| s.to_string()),
        length_in_microseconds: length,
    }
}

fn text_of(cmd: &DrawCommand) -> &str {
    match cmd {
        DrawCommand::Text { text, .. } => text.as_str(),
        _ => panic!("expected a text command"),
    }
}

#[test]
fn window_is_contiguous_slice_and_cyclic() {
    let t = "Hello";
    let padded = "Hello    ";
    // Ticks 0 .. len(t) visit every rotation exactly once, then the cycle
    // repeats with period len(t).
    let mut seen = Vec::new();
    for tick in 0..t.len() as u64 {
        let w = window(t, tick);
        assert_eq!(w.len(), 4);
        let start = (tick as usize) % t.len();
        assert_eq!(w, padded[start..start + 4]);
        assert!(!seen.contains(&(start)));
        seen.push(start);
    }
    assert_eq!(seen.len(), t.len());
    for tick in 0..=(t.len() as u64 + 3) {
        assert_eq!(window(t, tick + t.len() as u64), window(t, tick));
    }
}

#[test]
fn window_exact_values() {
    assert_eq!(window("Hello", 0), "Hell");
    assert_eq!(window("Hello", 1), "ello");
    assert_eq!(window("Hello", 4), "o   ");
    assert_eq!(window("Hello", 5), "Hell");
}

#[test]
fn window_short_text_never_faults() {
    for tick in 0..200u64 {
        assert_eq!(window("", tick).len(), 4);
        assert_eq!(window("a", tick).len(), 4);
        assert_eq!(window("ab", tick).len(), 4);
        assert_eq!(window("abc", tick).len(), 4);
    }
    assert_eq!(window("", 7), "    ");
    assert_eq!(window("ab", 0), "ab  ");
    assert_eq!(window("ab", 1), "b   ");
}

#[test]
fn default_substitution_from_all_absent_fields() {
    let snap = HIDSongMetadata::from_raw(&raw(None, None, None, None, None));
    assert_eq!(snap.title, "No Title");
    assert_eq!(snap.album, "No Album");
    assert_eq!(snap.artist, "No Artists");
    assert_eq!(snap.album_art_url, None);
    assert!(snap == HIDSongMetadata::default());
}

#[test]
fn normalization_scenario_with_rewrite() {
    let snap = HIDSongMetadata::from_raw(&raw(
        Some("Song"),
        Some(""),
        Some(vec!["A", "B"]),
        Some("https://open.spotify.com/x"),
        Some(1),
    ));
    assert_eq!(snap.title, "Song");
    assert_eq!(snap.album, "No Album");
    assert_eq!(snap.artist, "A,B");
    assert_eq!(snap.album_art_url.as_deref(), Some("https://open.spotify.com/x"));
    match plan_art(&snap.album_art_url) {
        ArtPlan::Fetch(url) => assert_eq!(url, "https://i.scdn.co/x"),
        ArtPlan::NoReference => panic!("a present art reference must be fetched"),
    }
}

#[test]
fn rewrite_leaves_other_urls_alone() {
    match plan_art(&Some("https://example.com/a.png".to_string())) {
        ArtPlan::Fetch(url) => assert_eq!(url, "https://example.com/a.png"),
        ArtPlan::NoReference => panic!("a present art reference must be fetched"),
    }
    // The prefix must match exactly; a shorter URL passes through.
    match plan_art(&Some("https://open.spotify.com".to_string())) {
        ArtPlan::Fetch(url) => assert_eq!(url, "https://open.spotify.com"),
        ArtPlan::NoReference => panic!("a present art reference must be fetched"),
    }
    assert!(matches!(plan_art(&None), ArtPlan::NoReference));
}

#[test]
fn zero_length_player_is_excluded() {
    let players = vec![Some(raw(
        Some("Stream"),
        Some("Album"),
        Some(vec!["A"]),
        None,
        Some(0),
    ))];
    let snap = select_snapshot(&players);
    assert!(snap == HIDSongMetadata::default());
}

#[test]
fn selection_takes_first_qualifying_player() {
    let players = vec![
        None,
        Some(raw(Some("Stream"), None, None, None, None)),
        Some(raw(Some("First"), None, None, None, Some(10))),
        Some(raw(Some("Second"), None, None, None, Some(20))),
    ];
    let snap = select_snapshot(&players);
    assert_eq!(snap.title, "First");
    assert_eq!(snap.album, "No Album");
    assert_eq!(snap.artist, "No Artists");
}

#[test]
fn empty_player_list_gives_default() {
    let players: Vec<Option<RawMetadata>> = Vec::new();
    assert!(select_snapshot(&players) == HIDSongMetadata::default());
}

#[test]
fn artist_list_edge_cases() {
    let one = HIDSongMetadata::from_raw(&raw(None, None, Some(vec!["Solo"]), None, None));
    assert_eq!(one.artist, "Solo");
    let none = HIDSongMetadata::from_raw(&raw(None, None, Some(vec![]), None, None));
    assert_eq!(none.artist, "No Artists");
    let three = HIDSongMetadata::from_raw(&raw(None, None, Some(vec!["A", "B", "C"]), None, None));
    assert_eq!(three.artist, "A,B,C");
    let empties = HIDSongMetadata::from_raw(&raw(None, None, Some(vec!["", ""]), None, None));
    assert_eq!(empties.artist, ",");
}

#[test]
fn scroll_reset_on_snapshot_change() {
    let mut st = RenderState::new();
    let s1 = HIDSongMetadata::new(
        "A long enough title".to_string(),
        "An album".to_string(),
        "Someone".to_string(),
        None,
    );
    for _ in 0..7 {
        render_frame(&mut st, s1.clone(), ArtOutcome::NoArt);
    }
    assert_eq!(st.tick, 7);
    let s2 = HIDSongMetadata::new(
        "Another long title".to_string(),
        "An album".to_string(),
        "Someone".to_string(),
        None,
    );
    let cmds = render_frame(&mut st, s2.clone(), ArtOutcome::NoArt);
    // The first frame of the new snapshot is rendered at tick 0.
    assert_eq!(text_of(&cmds[2]), window(&s2.title, 0));
    assert_eq!(text_of(&cmds[3]), window(&s2.album, 0));
    assert_eq!(text_of(&cmds[4]), window(&s2.artist, 0));
    assert_eq!(st.tick, 1);
}

#[test]
fn any_field_change_resets_all_fields() {
    let mut st = RenderState::new();
    let s1 = HIDSongMetadata::new(
        "Same title here".to_string(),
        "Same album".to_string(),
        "Same artist".to_string(),
        None,
    );
    for _ in 0..5 {
        render_frame(&mut st, s1.clone(), ArtOutcome::NoArt);
    }
    // Only the art reference differs; scrolling still restarts.
    let s2 = HIDSongMetadata::new(
        "Same title here".to_string(),
        "Same album".to_string(),
        "Same artist".to_string(),
        Some("https://example.com/a.png"),
    );
    let cmds = render_frame(&mut st, s2.clone(), ArtOutcome::NoArt);
    assert_eq!(text_of(&cmds[2]), window(&s2.title, 0));
    assert_eq!(st.tick, 1);
}

#[test]
fn tick_wraps_exactly_at_limit() {
    let mut st = RenderState::new();
    let s = HIDSongMetadata::new(
        "An unchanging title".to_string(),
        "An unchanging album".to_string(),
        "An unchanging artist".to_string(),
        None,
    );
    let mut used = Vec::new();
    for _ in 0..(TICK_LIMIT as usize + 3) {
        let cmds = render_frame(&mut st, s.clone(), ArtOutcome::NoArt);
        // The state holds the successor of the tick the frame was rendered
        // with; the rendered text must agree with that tick.
        let tick_rendered = st.tick - 1;
        assert_eq!(text_of(&cmds[2]), window(&s.title, tick_rendered));
        used.push(tick_rendered);
    }
    // Frame 0 renders at tick 0 (first snapshot), the next frames count up
    // to the limit, and the frame that would use the limit renders at 0.
    for (i, t) in used.iter().enumerate() {
        assert_eq!(*t, (i as u64) % TICK_LIMIT);
    }
}

#[test]
fn artwork_failure_degrades_to_placeholder() {
    let mut st = RenderState::new();
    let s = HIDSongMetadata::default();
    for err in [ArtError::Fetch, ArtError::Decode] {
        let outcome = art_outcome_of(Err(err));
        assert!(matches!(outcome, ArtOutcome::NoArt));
        let cmds = render_frame(&mut st, s.clone(), outcome);
        assert_eq!(cmds.len(), 6);
        assert!(matches!(cmds[0], DrawCommand::Clear));
        assert!(matches!(cmds[1], DrawCommand::Placeholder { .. }));
        assert!(!matches!(cmds[1], DrawCommand::Image { .. }));
        assert!(matches!(cmds[2], DrawCommand::Text { .. }));
        assert!(matches!(cmds[3], DrawCommand::Text { .. }));
        assert!(matches!(cmds[4], DrawCommand::Text { .. }));
        assert!(matches!(cmds[5], DrawCommand::Send));
    }
}

#[test]
fn successful_artwork_is_drawn_at_art_region() {
    let mut st = RenderState::new();
    let s = HIDSongMetadata::default();
    let outcome = art_outcome_of(Ok(vec![1, 2, 3]));
    let cmds = render_frame(&mut st, s, outcome);
    match &cmds[1] {
        DrawCommand::Image { bytes, x, y, scale } => {
            assert_eq!(bytes, &vec![1, 2, 3]);
            assert_eq!((*x, *y, *scale), (0, 95, true));
        }
        _ => panic!("expected the image command"),
    }
}

#[test]
fn frame_layout_positions() {
    let mut st = RenderState::new();
    let s = HIDSongMetadata::default();
    let cmds = render_frame(&mut st, s, ArtOutcome::NoArt);
    match &cmds[1] {
        DrawCommand::Placeholder { x, y, size } => assert_eq!((*x, *y, *size), (10, 100, 30)),
        _ => panic!("expected the placeholder command"),
    }
    let expected = [(0u32, 80u32), (0, 60), (0, 40)];
    for (cmd, (ex, ey)) in cmds[2..5].iter().zip(expected) {
        match cmd {
            DrawCommand::Text { x, y, size, .. } => {
                assert_eq!((*x, *y), (ex, ey));
                assert_eq!(*size, 12);
            }
            _ => panic!("expected a text command"),
        }
    }
}

#[test]
fn new_stores_fields_unchanged() {
    let s = HIDSongMetadata::new(
        "t".to_string(),
        "al".to_string(),
        "ar".to_string(),
        Some("u"),
    );
    assert_eq!(s.title, "t");
    assert_eq!(s.album, "al");
    assert_eq!(s.artist, "ar");
    assert_eq!(s.album_art_url.as_deref(), Some("u"));
}
