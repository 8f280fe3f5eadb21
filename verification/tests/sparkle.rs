use codex_bridge::sparkle::{
    BottomPane, ChatComposer, Palette, Phase, Sparkle, SparkleDrawing, TuiSettings, Visibility,
    FRAME_TICK, FULL, IDLE_FADE, IDLE_TIMEOUT, INTERACTION_FADE,
};
use codex_bridge::stars::{hash_cell, make_star, render_stars, Area, CellInfo, Star};

const MILLI: u64 = 1_000_000;
const SECOND: u64 = 1_000_000_000;
const START: u64 = 1_000 * SECOND;
const FOREGROUND: (u8, u8, u8) = (230, 216, 255);
const BACKGROUND: (u8, u8, u8) = (36, 27, 53);
const PALETTE: Palette = Palette { true_color: true, default_fg: Some(FOREGROUND) };

fn new_test_sparkle() -> Sparkle {
    Sparkle { started: START, phase: Phase::Waiting, terminal_focused: true }
}

fn new_test_composer() -> ChatComposer {
    ChatComposer {
        astra_sparkle: None,
        has_focus: true,
        is_empty: true,
        paste_burst_active: false,
        input_enabled: true,
        voice_strip_shown: false,
        popup_open: false,
        placeholder_text: "Ask Codex to do anything".to_string(),
        input_disabled_placeholder: None,
    }
}

fn new_test_pane() -> BottomPane {
    BottomPane { composer: new_test_composer() }
}

fn empty_cell() -> CellInfo {
    CellInfo {
        symbol: " ".to_string(),
        styled: false,
        pinned: false,
        background: Some(BACKGROUND),
    }
}

fn empty_cells(area: Area) -> Vec<CellInfo> {
    let count = usize::from(area.width) * usize::from(area.height);
    (0..count).map(|_| empty_cell()).collect()
}

/// The text area of a composer that fills an area, with a margin all around.
fn textarea_of(area: Area) -> Area {
    Area::new(area.x + 2, area.y + 1, area.width - 3, area.height - 2)
}

fn rendered_sparkle(composer: &mut ChatComposer, area: Area, now: u64) -> Option<SparkleDrawing> {
    let textarea = textarea_of(area);
    let cursor = Some((textarea.x, textarea.y));
    composer.render_sparkle_at(area, textarea, cursor, now, &PALETTE, &empty_cells(area))
}

fn share(visibility: Visibility) -> f64 {
    visibility.part as f64 / visibility.whole as f64
}

#[test]
fn sparkle_covers_the_untouched_composer_and_fades_after_interaction() {
    let mut composer = new_test_composer();
    let area = Area::new(0, 0, 40, 3);
    let textarea = textarea_of(area);
    composer.astra_sparkle = Some(new_test_sparkle());

    let idle = START + 63 * SECOND;
    let active = rendered_sparkle(&mut composer, area, idle).unwrap();
    assert!(active.stars.iter().any(|star| star.y < textarea.y));
    assert!(active
        .stars
        .iter()
        .any(|star| (textarea.y..textarea.bottom()).contains(&star.y)));
    assert!(active.stars.iter().any(|star| star.y >= textarea.bottom()));
    assert!(active.stars.iter().all(|star| (star.x, star.y) != (textarea.x, textarea.y)));
    assert_eq!(active.elapsed, 63 * SECOND);
    assert_eq!(active.foreground, FOREGROUND);
    assert_eq!(active.next, FRAME_TICK);

    composer.interact_with_astra_sparkle(idle);
    let fading = rendered_sparkle(&mut composer, area, idle + INTERACTION_FADE / 2).unwrap();
    assert_eq!(fading.stars, active.stars);
    assert_eq!(fading.elapsed, active.elapsed);
    assert_eq!(share(fading.visibility), 0.5);

    assert_eq!(rendered_sparkle(&mut composer, area, idle + INTERACTION_FADE), None);
}

#[test]
fn sparkle_auto_fades_fifteen_seconds_after_its_first_visible_frame() {
    let mut composer = new_test_composer();
    let area = Area::new(0, 0, 80, 8);
    composer.astra_sparkle = Some(new_test_sparkle());
    let first_frame = START + 63 * SECOND;
    let first = rendered_sparkle(&mut composer, area, first_frame).unwrap();
    assert!(!first.stars.is_empty());

    let deadline = first_frame + IDLE_TIMEOUT;
    let just_before = deadline - 50 * MILLI;
    let active = rendered_sparkle(&mut composer, area, just_before).unwrap();
    assert!(!active.stars.is_empty());
    let mut sparkle = composer.astra_sparkle.unwrap();
    assert_eq!(sparkle.frame(just_before).unwrap().next, 50 * MILLI);

    assert_eq!(
        [
            share(sparkle.frame(deadline).unwrap().visibility),
            share(sparkle.frame(deadline + IDLE_FADE / 4).unwrap().visibility),
            share(sparkle.frame(deadline + IDLE_FADE / 2).unwrap().visibility),
        ],
        [1.0, 0.75, 0.5]
    );
    let fading = rendered_sparkle(&mut composer, area, deadline + IDLE_FADE / 2).unwrap();
    assert_eq!(fading.stars, active.stars);
    assert_eq!(fading.elapsed, active.elapsed);
    assert_eq!(rendered_sparkle(&mut composer, area, deadline + IDLE_FADE), None);
    assert_eq!(composer.astra_sparkle.unwrap().phase, Phase::Finished);
}

#[test]
fn sparkle_preserves_placeholder_spaces_during_idle_animation() {
    let mut composer = new_test_composer();
    let area = Area::new(0, 0, 80, 8);
    let textarea = textarea_of(area);
    composer.astra_sparkle = Some(new_test_sparkle());
    let start = START + 63 * SECOND;
    let end = textarea.x + 24;
    for second in 0..IDLE_TIMEOUT / SECOND {
        let active = rendered_sparkle(&mut composer, area, start + second * SECOND).unwrap();
        assert!(active
            .stars
            .iter()
            .all(|star| star.y != textarea.y || star.x < textarea.x || star.x >= end));
        assert!(!active.stars.is_empty());
    }
}

#[test]
fn idle_deadline_elapses_while_terminal_focus_is_elsewhere() {
    let mut pane = new_test_pane();
    let area = Area::new(0, 0, 80, 8);
    pane.composer.astra_sparkle = Some(new_test_sparkle());
    let first_frame = START;
    assert!(rendered_sparkle(&mut pane.composer, area, first_frame).is_some());
    pane.set_sparkle_terminal_focus(false);
    let after_deadline = first_frame + IDLE_TIMEOUT + IDLE_FADE;
    assert_eq!(rendered_sparkle(&mut pane.composer, area, after_deadline), None);
    assert!(matches!(pane.composer.astra_sparkle.unwrap().phase, Phase::Visible { .. }));
    pane.set_sparkle_terminal_focus(true);
    assert_eq!(rendered_sparkle(&mut pane.composer, area, after_deadline), None);
    assert_eq!(pane.composer.astra_sparkle.unwrap().phase, Phase::Finished);
}

#[test]
fn input_during_the_idle_fade_finishes_quickly_without_brightening() {
    let mut sparkle = new_test_sparkle();
    let first_frame = sparkle.started;
    sparkle.frame(first_frame).unwrap();
    sparkle.frame(first_frame + IDLE_TIMEOUT - 50 * MILLI).unwrap();
    let interaction = first_frame + IDLE_TIMEOUT + IDLE_FADE / 2;
    let before = sparkle.frame(interaction).unwrap().visibility;
    sparkle.interact(interaction);
    assert_eq!(share(sparkle.frame(interaction).unwrap().visibility), share(before));
    assert!(sparkle.frame(interaction + INTERACTION_FADE).is_none());
}

#[test]
fn typing_and_paste_start_one_fade_without_decorating_the_draft() {
    for paste in [false, true] {
        let mut composer = new_test_composer();
        let area = Area::new(0, 0, 60, 8);
        let textarea = textarea_of(area);
        composer.astra_sparkle = Some(new_test_sparkle());
        assert!(rendered_sparkle(&mut composer, area, START).is_some());

        let typed = START + SECOND;
        composer.interact_with_astra_sparkle(typed);
        composer.is_empty = false;
        composer.paste_burst_active = paste;
        composer.interact_with_astra_sparkle(typed + MILLI);
        match composer.astra_sparkle.unwrap().phase {
            Phase::Fading { started, duration, .. } => {
                assert_eq!(started, typed);
                assert_eq!(duration, INTERACTION_FADE);
            }
            other => panic!("first input should start fading, got {other:?}"),
        }
        let fading = rendered_sparkle(&mut composer, area, typed + INTERACTION_FADE / 2).unwrap();
        assert!(!fading.stars.is_empty());
        assert!(fading
            .stars
            .iter()
            .all(|star| !(textarea.y..textarea.bottom()).contains(&star.y)));
        assert_eq!(rendered_sparkle(&mut composer, area, typed + INTERACTION_FADE), None);
        composer.is_empty = true;
        assert_eq!(composer.astra_sparkle.unwrap().phase, Phase::Finished);
    }
}

#[test]
fn sparkle_stops_scheduling_after_the_fade() {
    let mut composer = new_test_composer();
    composer.astra_sparkle = Some(new_test_sparkle());
    let area = Area::new(0, 0, 60, 3);
    assert_eq!(rendered_sparkle(&mut composer, area, START).unwrap().next, FRAME_TICK);
    composer.interact_with_astra_sparkle(START + SECOND - INTERACTION_FADE);
    assert_eq!(rendered_sparkle(&mut composer, area, START + SECOND), None);
    assert_eq!(rendered_sparkle(&mut composer, area, START + 2 * SECOND), None);
}

#[test]
fn sparkle_preserves_content_cursor_and_background() {
    let area = Area::new(0, 0, 80, 3);
    let mut cells = empty_cells(area);
    cells[0].symbol = "界".to_string();
    cells[2].symbol = "!".to_string();
    cells[4].symbol = "✦".to_string();
    cells[5].styled = true;
    cells[6].pinned = true;
    let protected: [(u16, u16); 7] = [(0, 0), (1, 0), (2, 0), (3, 0), (4, 0), (5, 0), (6, 0)];
    let stars = render_stars(area, Some((3, 0)), None, &cells);
    assert!(!stars.is_empty());
    for star in &stars {
        assert!(!protected.contains(&(star.x, star.y)));
        assert_eq!(star.background, BACKGROUND);
        assert!(star.dot < 8);
    }
    assert_eq!(render_stars(area, Some((3, 0)), None, &cells), stars);
}

#[test]
fn model_changes_and_disable_setting_control_sparkle() {
    let mut pane = new_test_pane();
    let color = |pane: &BottomPane| {
        pane.composer
            .astra_sparkle
            .as_ref()
            .and_then(|sparkle| sparkle.enabled_foreground(&PALETTE))
    };
    let mut settings = TuiSettings { whimsy: true, animations: true };
    assert!(pane.set_astra_sparkle("gpt-6-astra", &settings, START));
    let started = pane.composer.astra_sparkle.map(|sparkle| sparkle.started);
    pane.set_sparkle_terminal_focus(false);
    pane.set_sparkle_terminal_focus(true);
    for model in ["astra", "ASTRA-preview", "openai/astra-2026-09-01"] {
        assert!(!pane.set_astra_sparkle(model, &settings, START + SECOND));
        assert_eq!(color(&pane), Some((230, 216, 255)));
        assert_eq!(pane.composer.astra_sparkle.map(|sparkle| sparkle.started), started);
    }
    pane.composer.interact_with_astra_sparkle(START + SECOND);
    pane.set_astra_sparkle("gpt-6-astra", &settings, START + SECOND);
    assert_eq!(color(&pane), None);
    for model in ["gpt-5.6-sol", "astral", "castrated", "astra2", "astra_preview"] {
        pane.set_astra_sparkle(model, &settings, START + SECOND);
        assert_eq!(color(&pane), None, "{model}");
        assert_eq!(pane.composer.astra_sparkle, None, "{model}");
    }
    for (whimsy, animations) in [(false, true), (true, false), (false, false), (true, true)] {
        settings.whimsy = whimsy;
        settings.animations = animations;
        pane.set_astra_sparkle("astra", &settings, START + SECOND);
        assert_eq!(color(&pane), (whimsy && animations).then_some((230, 216, 255)));
    }
}

#[test]
fn sparkle_yields_to_drafts_effort_bursts_and_popups() {
    let area = Area::new(0, 0, 80, 4);
    for (is_empty, popup_open) in [(false, false), (true, true)] {
        let mut composer = new_test_composer();
        composer.is_empty = is_empty;
        composer.popup_open = popup_open;
        composer.astra_sparkle = Some(new_test_sparkle());
        assert_eq!(rendered_sparkle(&mut composer, area, START), None);
        assert_eq!(composer.astra_sparkle.unwrap().phase, Phase::Finished);
    }
    let mut burst = empty_cells(area);
    for cell in burst.iter_mut() {
        cell.pinned = true;
    }
    assert_eq!(render_stars(area, None, None, &burst), Vec::new());
    for cell in burst.iter_mut() {
        cell.styled = true;
    }
    assert_eq!(render_stars(area, None, None, &burst), Vec::new());
}

#[test]
fn sparkle_waits_for_terminal_colors() {
    let area = Area::new(0, 0, 80, 3);
    let textarea = textarea_of(area);
    let cells = empty_cells(area);
    let mut composer = new_test_composer();
    composer.astra_sparkle = Some(new_test_sparkle());
    for palette in [
        Palette { true_color: true, default_fg: None },
        Palette { true_color: false, default_fg: Some(FOREGROUND) },
    ] {
        let drawing = composer.render_sparkle_at(area, textarea, None, START, &palette, &cells);
        assert_eq!(drawing, None);
        assert_eq!(composer.astra_sparkle, Some(new_test_sparkle()));
    }
    let drawing =
        composer.render_sparkle_at(area, textarea, None, START, &PALETTE, &cells).unwrap();
    assert!(!drawing.stars.is_empty());
}

#[test]
fn sparkle_preserves_voice_indicator_styles() {
    let area = Area::new(0, 0, 60, 3);
    for tick in 0..80 {
        let mut composer = new_test_composer();
        composer.voice_strip_shown = true;
        composer.astra_sparkle =
            Some(Sparkle { started: START - FRAME_TICK * tick, ..new_test_sparkle() });
        assert_eq!(rendered_sparkle(&mut composer, area, START), None, "sparkle frame {tick}");
    }
}

#[test]
fn fades_never_brighten() {
    let mut sparkle = new_test_sparkle();
    sparkle.frame(START).unwrap();
    let deadline = START + IDLE_TIMEOUT;
    let mut last = 2.0;
    for step in 0..40 {
        let Some(frame) = sparkle.frame(deadline + step * 25 * MILLI) else {
            panic!("the fade ended at step {step}");
        };
        assert!(share(frame.visibility) < last);
        assert_eq!(frame.elapsed, 0);
        last = share(frame.visibility);
    }
    assert_eq!(sparkle.frame(deadline + 40 * 25 * MILLI), None);
    assert_eq!(sparkle.frame(deadline), None);
}

#[test]
fn input_ends_every_phase_in_time() {
    let phases = [
        Phase::Waiting,
        Phase::Visible { since: START, elapsed: 0 },
        Phase::Visible { since: START - IDLE_TIMEOUT, elapsed: 0 },
        Phase::Visible { since: START - IDLE_TIMEOUT - IDLE_FADE, elapsed: 0 },
        Phase::Fading {
            started: START - IDLE_FADE + 10 * MILLI,
            elapsed: 0,
            duration: IDLE_FADE,
            start_visibility: FULL,
        },
        Phase::Fading {
            started: START - 10 * MILLI,
            elapsed: 0,
            duration: INTERACTION_FADE,
            start_visibility: FULL / 2,
        },
        Phase::Finished,
    ];
    for phase in phases {
        let mut sparkle = Sparkle { phase, ..new_test_sparkle() };
        sparkle.interact(START);
        assert_eq!(sparkle.frame(START + INTERACTION_FADE), None);
        assert_eq!(sparkle.phase, Phase::Finished);
        sparkle.interact(START + SECOND);
        assert_eq!(sparkle.phase, Phase::Finished);
    }
}

#[test]
fn late_input_fades_no_longer_than_is_left() {
    let mut sparkle = Sparkle {
        phase: Phase::Visible { since: START, elapsed: 3 },
        ..new_test_sparkle()
    };
    let now = START + IDLE_TIMEOUT + IDLE_FADE - 10 * MILLI;
    sparkle.interact(now);
    assert_eq!(
        sparkle.phase,
        Phase::Fading {
            started: now,
            elapsed: 3,
            duration: 10 * MILLI,
            start_visibility: FULL / 100,
        }
    );
    let frame = sparkle.frame(now).unwrap();
    assert_eq!(share(frame.visibility), 0.01);
    assert_eq!(frame.next, 10 * MILLI);
}

#[test]
fn stars_have_stable_places_and_looks() {
    assert_eq!(hash_cell(0, 0), 0);
    assert_eq!(hash_cell(1, 0), 5364745905576871);
    assert_eq!(hash_cell(79, 2), 2627575539904260235);
    let area = Area::new(3, 5, 16, 2);
    let stars = render_stars(area, None, None, &empty_cells(area));
    let expected = |x: u16, y: u16, dot: u64, period_tenths: u64, phase: u64| Star {
        x: x + 3,
        y: y + 5,
        dot,
        period_tenths,
        phase,
        background: BACKGROUND,
    };
    assert_eq!(
        stars,
        vec![
            expected(0, 0, 0, 40, 0),
            expected(4, 0, 3, 49, 67),
            expected(14, 0, 2, 40, 988),
            expected(1, 1, 0, 59, 337),
            expected(10, 1, 2, 52, 779),
            expected(13, 1, 5, 58, 180),
            expected(14, 1, 6, 69, 892),
            expected(15, 1, 0, 54, 156),
        ]
    );
    assert_eq!(make_star(area, 1, 0, BACKGROUND), None);
    assert_eq!(
        make_star(Area::new(0, 0, 16, 2), 4, 0, BACKGROUND),
        Some(Star { x: 4, y: 0, ..expected(4, 0, 3, 49, 67) })
    );
}

#[test]
fn wide_symbols_cover_the_cells_behind_them() {
    let area = Area::new(0, 0, 5, 1);
    let mut cells = empty_cells(area);
    assert_eq!(render_stars(area, None, None, &cells).len(), 2);
    cells[3].symbol = "界".to_string();
    assert_eq!(render_stars(area, None, None, &cells).len(), 1);
    cells[3].symbol = "!".to_string();
    assert_eq!(render_stars(area, None, None, &cells).len(), 2);
    cells[4].background = None;
    assert_eq!(render_stars(area, None, None, &cells).len(), 1);
    assert_eq!(
        render_stars(area, None, Some(Area::new(0, 0, 1, 1)), &cells),
        Vec::new()
    );
}

#[test]
fn placeholders_are_protected_by_their_width() {
    let area = Area::new(0, 0, 40, 3);
    let textarea = Area::new(0, 1, 40, 1);
    for (input_enabled, disabled, width) in [
        (true, None, 24),
        (false, None, 15),
        (false, Some("界界".to_string()), 4),
        (false, Some("x".repeat(100)), 40),
    ] {
        let mut composer = new_test_composer();
        composer.astra_sparkle = Some(new_test_sparkle());
        composer
            .render_sparkle_at(area, textarea, None, START, &PALETTE, &empty_cells(area))
            .unwrap();
        composer.input_enabled = input_enabled;
        composer.input_disabled_placeholder = disabled;
        let drawing = composer
            .render_sparkle_at(area, textarea, None, START, &PALETTE, &empty_cells(area))
            .unwrap();
        let columns: Vec<u16> =
            drawing.stars.iter().filter(|star| star.y == 1).map(|star| star.x).collect();
        let expected: Vec<u16> = [1, 10, 13, 14, 15, 18, 24, 26, 29, 35, 37]
            .into_iter()
            .filter(|x| *x >= width)
            .collect();
        assert_eq!(columns, expected);
    }
}

#[test]
fn small_or_unfocused_composers_show_no_stars() {
    let wide = Area::new(0, 0, 40, 3);
    let flat = Area::new(0, 0, 40, 2);
    let nothing = Area::new(0, 0, 0, 1);
    for (area, textarea, has_focus) in [(flat, flat, true), (wide, nothing, true), (wide, wide, false)]
    {
        let mut composer = new_test_composer();
        composer.has_focus = has_focus;
        composer.astra_sparkle = Some(new_test_sparkle());
        let drawing = composer
            .render_sparkle_at(area, textarea, None, START, &PALETTE, &empty_cells(area));
        assert_eq!(drawing, None);
        assert_eq!(composer.astra_sparkle, Some(new_test_sparkle()));
    }
}

#[test]
fn areas_end_with_the_screen() {
    let area = Area::new(65530, 65535, 10, 10);
    assert_eq!((area.width, area.height), (5, 0));
    assert_eq!((area.right(), area.bottom()), (65535, 65535));
    assert!(area.is_empty());
    assert!(!area.contains(65530, 65535));
    assert!(Area::new(1, 1, 2, 2).contains(2, 2));
    assert!(!Area::new(1, 1, 2, 2).contains(3, 2));
}

#[test]
fn runs_of_frames_and_input_only_fade() {
    for input_at in [None, Some(4), Some(14_980), Some(15_300), Some(15_990)] {
        let mut sparkle = new_test_sparkle();
        let mut last: Option<(f64, u64)> = None;
        let mut over = false;
        for milli in (0..16_200).step_by(60) {
            if input_at.is_some_and(|at| at >= milli && at < milli + 60) {
                sparkle.interact(START + milli * MILLI);
            }
            match sparkle.frame(START + milli * MILLI) {
                Some(frame) => {
                    assert!(!over);
                    assert!(milli < 16_000);
                    assert!(0 < frame.next && frame.next <= FRAME_TICK);
                    let now = share(frame.visibility);
                    assert!(0.0 < now && now <= 1.0);
                    if let Some((before, elapsed)) = last {
                        assert!(now <= before);
                        assert!(now == 1.0 || frame.elapsed == elapsed);
                    }
                    last = Some((now, frame.elapsed));
                }
                None => over = true,
            }
        }
        assert!(over);
    }
}

#[test]
fn input_ends_a_run_however_much_follows() {
    let mut sparkle = new_test_sparkle();
    sparkle.frame(START).unwrap();
    let input = START + SECOND;
    for milli in 0..200 {
        sparkle.interact(input + milli * MILLI);
        let shown = sparkle.frame(input + milli * MILLI).is_some();
        assert_eq!(shown, milli < 75);
    }
}
