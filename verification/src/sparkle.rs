//! Stars throughout the untouched composer.
//!
//! Selecting the model starts one flourish. Input to the composer fades it quickly; without input
//! a smooth fade starts fifteen seconds after the first visible frame. That deadline keeps running
//! while the terminal has no focus. Only visible frames ask for another one. Times are nanoseconds
//! of a clock that runs forward.

use crate::stars::{render_stars, width_of, Area, CellInfo, Star};
use vstd::prelude::*;

verus! {

/// The time between two frames while the stars stand.
pub const FRAME_TICK: u64 = 150_000_000;

/// The time from the first visible frame to the fade.
pub const IDLE_TIMEOUT: u64 = 15_000_000_000;

/// The length of the fade that comes by itself.
pub const IDLE_FADE: u64 = 1_000_000_000;

/// The length of the fade that input causes.
pub const INTERACTION_FADE: u64 = 75_000_000;

/// The time between two frames of a fade.
pub const FADE_FRAME_TICK: u64 = 25_000_000;

/// Full visibility at the start of a fade, which is kept in billionths.
pub const FULL: u64 = 1_000_000_000;

/// The pattern that the names of the models with stars match.
pub const ASTRA_MODEL: &'static str = "(?i)\\bastra\\b";

/// Where a flourish stands.
#[derive(Clone, Copy, Debug, PartialEq, Eq, Structural)]
#[allow(inconsistent_fields)]
pub enum Phase {
    /// Nothing was shown yet.
    Waiting,
    /// The stars stand since `since`; `elapsed` is the age of the last frame.
    Visible { since: u64, elapsed: u64 },
    /// The stars of the frame of age `elapsed` fade.
    Fading { started: u64, elapsed: u64, duration: u64, start_visibility: u64 },
    /// Nothing is shown any more.
    Finished,
}

impl Phase {
    /// A fade starts with some brightness, no more than full. The one that comes by itself starts
    /// full, and every other one takes no longer than input allows.
    pub open spec fn wf(self) -> bool {
        match self {
            Phase::Fading { started, elapsed, duration, start_visibility } => {
                &&& 0 < start_visibility <= FULL
                &&& (duration == IDLE_FADE && start_visibility == FULL) || 0 < duration
                    <= INTERACTION_FADE
            },
            _ => true,
        }
    }

    /// Nothing in the phase began after `now`.
    pub open spec fn began_by(self, now: u64) -> bool {
        match self {
            Phase::Visible { since, .. } => since <= now,
            Phase::Fading { started, .. } => started <= now,
            _ => true,
        }
    }
}

/// A share of full brightness.
#[derive(Clone, Copy, Debug, PartialEq, Eq, Structural)]
pub struct Visibility {
    pub part: u64,
    pub whole: u64,
}

impl Visibility {
    /// Whether it is a share at all.
    pub open spec fn wf(self) -> bool {
        0 < self.whole && self.part <= self.whole
    }

    /// Whether it is no brighter than another.
    pub open spec fn at_most(self, other: Visibility) -> bool {
        self.part * other.whole <= other.part * self.whole
    }

    /// Whether it is as bright as another.
    pub open spec fn equals(self, other: Visibility) -> bool {
        self.part * other.whole == other.part * self.whole
    }

    /// Whether it is less than full.
    pub open spec fn dimmed(self) -> bool {
        self.part < self.whole
    }
}

/// A frame of a flourish: the age at which the stars are drawn, how bright they are, and the time
/// until the next frame.
#[derive(Clone, Copy, Debug, PartialEq, Eq, Structural)]
pub struct SparkleFrame {
    pub elapsed: u64,
    pub visibility: Visibility,
    pub next: u64,
}

/// What is known of the terminal's colors.
#[derive(Clone, Copy, Debug, PartialEq, Eq)]
pub struct Palette {
    pub true_color: bool,
    pub default_fg: Option<(u8, u8, u8)>,
}

/// One flourish.
#[derive(Clone, Copy, Debug, PartialEq, Eq, Structural)]
pub struct Sparkle {
    pub started: u64,
    pub phase: Phase,
    pub terminal_focused: bool,
}

/// The lesser of two numbers.
pub open spec fn lesser(a: u64, b: u64) -> u64 {
    if a <= b {
        a
    } else {
        b
    }
}

fn min_of(a: u64, b: u64) -> (r: u64)
    ensures
        r == lesser(a, b),
{
    if a <= b {
        a
    } else {
        b
    }
}

/// What is left at `now` of a span that began at `start`.
pub open spec fn left(start: u64, span: u64, now: u64) -> u64 {
    if now <= start {
        span
    } else if now - start >= span {
        0
    } else {
        (span - (now - start)) as u64
    }
}

fn time_left(start: u64, span: u64, now: u64) -> (r: u64)
    ensures
        r == left(start, span, now),
{
    if now <= start {
        span
    } else if now - start >= span {
        0
    } else {
        span - (now - start)
    }
}

/// The phase at `now` once a deadline that has passed is taken into account.
pub open spec fn overdue(phase: Phase, now: u64) -> Phase {
    match phase {
        Phase::Visible { since, elapsed } if left(since, IDLE_TIMEOUT, now) == 0 => Phase::Fading {
            started: (since + IDLE_TIMEOUT) as u64,
            elapsed,
            duration: IDLE_FADE,
            start_visibility: FULL,
        },
        _ => phase,
    }
}

/// The phase after input at `now`: a flourish that was not shown yet never will be, and one that
/// is shown, or that fades by itself, fades quickly.
pub open spec fn interacted(phase: Phase, now: u64) -> Phase {
    match overdue(phase, now) {
        Phase::Waiting => Phase::Finished,
        Phase::Visible { since, elapsed } => Phase::Fading {
            started: now,
            elapsed,
            duration: INTERACTION_FADE,
            start_visibility: FULL,
        },
        Phase::Fading { started, elapsed, duration, start_visibility } if duration == IDLE_FADE => {
            let remaining = left(started, IDLE_FADE, now);
            if remaining == 0 {
                Phase::Finished
            } else {
                Phase::Fading {
                    started: now,
                    elapsed,
                    duration: lesser(INTERACTION_FADE, remaining),
                    start_visibility: (start_visibility * remaining / IDLE_FADE as int) as u64,
                }
            }
        },
        other => other,
    }
}

/// The phase after a frame at `now` of a flourish that started at `started`.
pub open spec fn next_phase(started: u64, phase: Phase, now: u64) -> Phase {
    match overdue(phase, now) {
        Phase::Waiting => Phase::Visible { since: now, elapsed: age_at(started, now) },
        Phase::Visible { since, .. } => Phase::Visible { since, elapsed: age_at(started, now) },
        Phase::Fading { started: begun, duration, .. } if left(begun, duration, now) == 0 => {
            Phase::Finished
        },
        other => other,
    }
}

/// The age at `now` of what started at `started`.
pub open spec fn age_at(started: u64, now: u64) -> u64 {
    if now <= started {
        0
    } else {
        (now - started) as u64
    }
}

/// The frame at `now` of a flourish that started at `started`, if it shows one.
pub open spec fn shown_frame(started: u64, phase: Phase, now: u64) -> Option<SparkleFrame> {
    match overdue(phase, now) {
        Phase::Waiting => Some(
            SparkleFrame {
                elapsed: age_at(started, now),
                visibility: Visibility { part: 1, whole: 1 },
                next: FRAME_TICK,
            },
        ),
        Phase::Visible { since, .. } => Some(
            SparkleFrame {
                elapsed: age_at(started, now),
                visibility: Visibility { part: 1, whole: 1 },
                next: lesser(FRAME_TICK, left(since, IDLE_TIMEOUT, now)),
            },
        ),
        Phase::Fading { started: begun, elapsed, duration, start_visibility } => {
            let remaining = left(begun, duration, now);
            if remaining == 0 {
                None
            } else {
                Some(
                    SparkleFrame {
                        elapsed,
                        visibility: Visibility {
                            part: (start_visibility * remaining) as u64,
                            whole: (FULL * duration) as u64,
                        },
                        next: lesser(FADE_FRAME_TICK, remaining),
                    },
                )
            }
        },
        Phase::Finished => None,
    }
}

/// A phase whose deadline has passed becomes the fade that the deadline starts.
fn settle(phase: Phase, now: u64) -> (r: Phase)
    requires
        phase.wf(),
    ensures
        r == overdue(phase, now),
        r.wf(),
{
    match phase {
        Phase::Visible { since, elapsed } => {
            if time_left(since, IDLE_TIMEOUT, now) == 0 {
                Phase::Fading {
                    started: since + IDLE_TIMEOUT,
                    elapsed,
                    duration: IDLE_FADE,
                    start_visibility: FULL,
                }
            } else {
                phase
            }
        },
        _ => phase,
    }
}

/// Parts of a fade stay within the whole.
proof fn lemma_part_of_fade(start_visibility: u64, remaining: u64, duration: u64)
    requires
        start_visibility <= FULL,
        remaining <= duration <= IDLE_FADE,
    ensures
        start_visibility * remaining <= FULL * duration <= u64::MAX,
        0 <= start_visibility * remaining,
{
    assert(start_visibility * remaining <= 1_000_000_000 * duration) by (nonlinear_arith)
        requires
            start_visibility <= 1_000_000_000,
            remaining <= duration,
    ;
}

impl Sparkle {
    /// The color of the stars: none once the flourish is over, nor on a terminal without true
    /// colors.
    pub open spec fn foreground(self, palette: Palette) -> Option<(u8, u8, u8)> {
        if self.phase is Finished || !palette.true_color {
            None
        } else {
            palette.default_fg
        }
    }

    pub fn enabled_foreground(&self, palette: &Palette) -> (r: Option<(u8, u8, u8)>)
        ensures
            r == self.foreground(*palette),
    {
        match self.phase {
            Phase::Finished => None,
            _ => {
                if palette.true_color {
                    palette.default_fg
                } else {
                    None
                }
            },
        }
    }

    /// Takes input at `now` into account.
    pub fn interact(&mut self, now: u64)
        requires
            old(self).phase.wf(),
        ensures
            final(self).phase.wf(),
            *final(self) == (Sparkle { phase: interacted(old(self).phase, now), ..*old(self) }),
    {
        let phase = settle(self.phase, now);
        self.phase =
        match phase {
            Phase::Waiting => Phase::Finished,
            Phase::Visible { since: _, elapsed } => Phase::Fading {
                started: now,
                elapsed,
                duration: INTERACTION_FADE,
                start_visibility: FULL,
            },
            Phase::Fading { started, elapsed, duration, start_visibility } => {
                if duration == IDLE_FADE {
                    let remaining: u64 = time_left(started, IDLE_FADE, now);
                    if remaining == 0 {
                        Phase::Finished
                    } else {
                        proof {
                            lemma_part_of_fade(start_visibility, remaining, IDLE_FADE);
                        }
                        Phase::Fading {
                            started: now,
                            elapsed,
                            duration: min_of(INTERACTION_FADE, remaining),
                            start_visibility: start_visibility * remaining / IDLE_FADE,
                        }
                    }
                } else {
                    phase
                }
            },
            Phase::Finished => Phase::Finished,
        };
    }

    /// The frame at `now`, if the flourish shows one.
    pub fn frame(&mut self, now: u64) -> (r: Option<SparkleFrame>)
        requires
            old(self).phase.wf(),
        ensures
            final(self).phase.wf(),
            *final(self) == (Sparkle {
                phase: next_phase(old(self).started, old(self).phase, now),
                ..*old(self)
            }),
            r == shown_frame(old(self).started, old(self).phase, now),
    {
        let age: u64 = if now <= self.started {
            0
        } else {
            now - self.started
        };
        let phase = settle(self.phase, now);
        match phase {
            Phase::Waiting => {
                self.phase = Phase::Visible { since: now, elapsed: age };
                Some(
                    SparkleFrame {
                        elapsed: age,
                        visibility: Visibility { part: 1, whole: 1 },
                        next: FRAME_TICK,
                    },
                )
            },
            Phase::Visible { since, elapsed: _ } => {
                self.phase = Phase::Visible { since, elapsed: age };
                Some(
                    SparkleFrame {
                        elapsed: age,
                        visibility: Visibility { part: 1, whole: 1 },
                        next: min_of(FRAME_TICK, time_left(since, IDLE_TIMEOUT, now)),
                    },
                )
            },
            Phase::Fading { started, elapsed, duration, start_visibility } => {
                let remaining: u64 = time_left(started, duration, now);
                if remaining == 0 {
                    self.phase = Phase::Finished;
                    return None;
                }
                self.phase = phase;
                proof {
                    lemma_part_of_fade(start_visibility, remaining, duration);
                }
                Some(
                    SparkleFrame {
                        elapsed,
                        visibility: Visibility {
                            part: start_visibility * remaining,
                            whole: FULL * duration,
                        },
                        next: min_of(FADE_FRAME_TICK, remaining),
                    },
                )
            },
            Phase::Finished => {
                self.phase = Phase::Finished;
                None
            },
        }
    }
}

/// Whether a character belongs to a word.
pub open spec fn is_word_char(c: char) -> bool {
    ||| '0' <= c <= '9'
    ||| 'a' <= c <= 'z'
    ||| 'A' <= c <= 'Z'
    ||| c == '_'
}

/// Whether a character is a letter in either case; `lower` is the small one.
pub open spec fn is_letter(c: char, lower: char) -> bool {
    c == lower || c as int == lower as int - 32
}

/// Whether `astra` stands at an index, in any case, as a word of its own.
pub open spec fn astra_at(text: Seq<char>, i: int) -> bool {
    &&& 0 <= i
    &&& i + 5 <= text.len()
    &&& is_letter(text[i], 'a')
    &&& is_letter(text[i + 1], 's')
    &&& is_letter(text[i + 2], 't')
    &&& is_letter(text[i + 3], 'r')
    &&& is_letter(text[i + 4], 'a')
    &&& i > 0 ==> !is_word_char(text[i - 1])
    &&& i + 5 < text.len() ==> !is_word_char(text[i + 5])
}

/// Whether a model's name holds `astra`, in any case, as a word of its own.
pub open spec fn names_astra(text: Seq<char>) -> bool {
    exists|i: int| astra_at(text, i)
}

/// `Regex::new` and `Regex::is_match` of `regex_lite`, for the pattern of the models with stars: a
/// text matches where it holds `astra`, the letters in either case, with no word character next
/// to it. Words are made of ASCII letters, digits and underscores.
#[verifier::external_body]
fn is_match(pattern: &str, text: &str) -> (r: bool)
    requires
        pattern@ == ASTRA_MODEL@,
    ensures
        r == names_astra(text@),
{
    regex_lite::Regex::new(pattern).is_ok_and(|regex| regex.is_match(text))
}

/// The settings that a flourish depends on.
#[derive(Clone, Copy, Debug, PartialEq, Eq, Structural)]
pub struct TuiSettings {
    pub whimsy: bool,
    pub animations: bool,
}

/// What the stars depend on of the composer.
#[derive(Debug, PartialEq, Eq)]
pub struct ChatComposer {
    pub astra_sparkle: Option<Sparkle>,
    pub has_focus: bool,
    /// There is no draft.
    pub is_empty: bool,
    pub paste_burst_active: bool,
    pub input_enabled: bool,
    pub voice_strip_shown: bool,
    pub popup_open: bool,
    pub placeholder_text: String,
    pub input_disabled_placeholder: Option<String>,
}

/// What is drawn of a flourish.
#[derive(Debug, PartialEq, Eq)]
pub struct SparkleDrawing {
    pub stars: Vec<Star>,
    pub elapsed: u64,
    pub foreground: (u8, u8, u8),
    pub visibility: Visibility,
    /// The time until the next frame is due.
    pub next: u64,
}

impl ChatComposer {
    /// The flourish is in a phase that can come about.
    pub open spec fn wf(self) -> bool {
        self.astra_sparkle matches Some(sparkle) ==> sparkle.phase.wf()
    }

    /// Whether the composer holds or shows something that ends a flourish.
    pub open spec fn interrupted(self) -> bool {
        ||| !self.is_empty
        ||| self.paste_burst_active
        ||| !self.input_enabled
        ||| self.voice_strip_shown
        ||| self.popup_open
    }

    /// The flourish at `now`, once what the composer holds is taken into account.
    pub open spec fn sparkle_at(self, now: u64) -> Option<Sparkle> {
        match self.astra_sparkle {
            Some(sparkle) if self.interrupted() => Some(
                Sparkle { phase: interacted(sparkle.phase, now), ..sparkle },
            ),
            other => other,
        }
    }

    /// Whether a frame is asked of the flourish, and in which color.
    pub open spec fn frame_color(
        self,
        area: Area,
        textarea: Area,
        now: u64,
        palette: Palette,
    ) -> Option<(u8, u8, u8)> {
        if !self.has_focus || area.height < 3 || textarea.width == 0 || textarea.height == 0 {
            None
        } else {
            match self.sparkle_at(now) {
                Some(sparkle) if sparkle.terminal_focused => sparkle.foreground(palette),
                _ => None,
            }
        }
    }

    /// The cells that stars keep off: the rows of a draft, or else the placeholder.
    pub open spec fn protected(self, area: Area, textarea: Area) -> Area {
        if !self.is_empty || self.paste_burst_active {
            crate::stars::area_at(area.x, textarea.y, area.width, textarea.height)
        } else {
            let wide = crate::stars::display_width(self.placeholder());
            crate::stars::area_at(
                textarea.x,
                textarea.y,
                if wide <= textarea.width {
                    wide as u16
                } else {
                    textarea.width
                },
                1,
            )
        }
    }

    /// The text that an empty composer shows.
    pub open spec fn placeholder(self) -> Seq<char> {
        if self.input_enabled {
            self.placeholder_text@
        } else {
            match self.input_disabled_placeholder {
                Some(text) => text@,
                None => "Input disabled."@,
            }
        }
    }

    /// The composer, with another flourish.
    pub open spec fn with_sparkle(self, sparkle: Option<Sparkle>) -> ChatComposer {
        ChatComposer { astra_sparkle: sparkle, ..self }
    }

    /// Takes input to the composer at `now` into account.
    pub fn interact_with_astra_sparkle(&mut self, now: u64)
        requires
            old(self).wf(),
        ensures
            final(self).wf(),
            *final(self) == old(self).with_sparkle(
                match old(self).astra_sparkle {
                    Some(sparkle) => Some(
                        Sparkle { phase: interacted(sparkle.phase, now), ..sparkle },
                    ),
                    None => None,
                },
            ),
    {
        if let Some(sparkle) = self.astra_sparkle {
            let mut changed = sparkle;
            changed.interact(now);
            self.astra_sparkle = Some(changed);
        }
    }

    /// The cells that stars keep off.
    fn protected_area(&self, area: Area, textarea: Area) -> (r: Area)
        ensures
            r == self.protected(area, textarea),
    {
        if !self.is_empty || self.paste_burst_active {
            return Area::new(area.x, textarea.y, area.width, textarea.height);
        }
        let wide: usize = if self.input_enabled {
            width_of(self.placeholder_text.as_str())
        } else {
            match &self.input_disabled_placeholder {
                Some(text) => width_of(text.as_str()),
                None => width_of("Input disabled."),
            }
        };
        let width: u16 = if wide <= textarea.width as usize {
            wide as u16
        } else {
            textarea.width
        };
        Area::new(textarea.x, textarea.y, width, 1)
    }

    /// Draws the flourish at `now`: what is to be drawn over the cells of the area, which `cells`
    /// holds row by row, and when the next frame is due.
    pub fn render_sparkle_at(
        &mut self,
        area: Area,
        textarea: Area,
        cursor: Option<(u16, u16)>,
        now: u64,
        palette: &Palette,
        cells: &Vec<CellInfo>,
    ) -> (r: Option<SparkleDrawing>)
        requires
            old(self).wf(),
            cells@.len() == crate::stars::rows(area) * crate::stars::columns(area),
        ensures
            final(self).wf(),
            match (
                old(self).frame_color(area, textarea, now, *palette),
                old(self).sparkle_at(now),
            ) {
                (Some(foreground), Some(sparkle)) => {
                    &&& *final(self) == old(self).with_sparkle(
                        Some(
                            Sparkle {
                                phase: next_phase(sparkle.started, sparkle.phase, now),
                                ..sparkle
                            },
                        ),
                    )
                    &&& match shown_frame(sparkle.started, sparkle.phase, now) {
                        Some(frame) => {
                            &&& r matches Some(drawing)
                            &&& drawing.stars@ == crate::stars::stars_in_rows(
                                area,
                                cursor,
                                Some(old(self).protected(area, textarea)),
                                cells@,
                                crate::stars::rows(area),
                            )
                            &&& drawing.elapsed == frame.elapsed
                            &&& drawing.foreground == foreground
                            &&& drawing.visibility == frame.visibility
                            &&& drawing.next == frame.next
                        },
                        None => r is None,
                    }
                },
                (_, sparkle) => r is None && *final(self) == old(self).with_sparkle(sparkle),
            },
    {
        if !self.is_empty || self.paste_burst_active || !self.input_enabled
            || self.voice_strip_shown || self.popup_open {
            self.interact_with_astra_sparkle(now);
        }
        if !self.has_focus || area.height < 3 || textarea.is_empty() {
            return None;
        }
        let mut sparkle = match self.astra_sparkle {
            Some(sparkle) => sparkle,
            None => return None,
        };
        if !sparkle.terminal_focused {
            return None;
        }
        let foreground = match sparkle.enabled_foreground(palette) {
            Some(foreground) => foreground,
            None => return None,
        };
        let shown = sparkle.frame(now);
        self.astra_sparkle = Some(sparkle);
        match shown {
            Some(frame) => {
                let protected = self.protected_area(area, textarea);
                let stars = render_stars(area, cursor, Some(protected), cells);
                Some(
                    SparkleDrawing {
                        stars,
                        elapsed: frame.elapsed,
                        foreground,
                        visibility: frame.visibility,
                        next: frame.next,
                    },
                )
            },
            None => None,
        }
    }
}

/// What the stars depend on of the bottom pane.
#[derive(Debug, PartialEq, Eq)]
pub struct BottomPane {
    pub composer: ChatComposer,
}

impl BottomPane {
    /// Follows a change of the model or of the settings. Returns whether a frame is due for it.
    pub fn set_astra_sparkle(&mut self, model: &str, settings: &TuiSettings, now: u64) -> (changed:
        bool)
        requires
            old(self).composer.wf(),
        ensures
            final(self).composer.wf(),
            final(self).composer == old(self).composer.with_sparkle(
                if !settings.whimsy || !settings.animations || !names_astra(model@) {
                    None
                } else {
                    match old(self).composer.astra_sparkle {
                        Some(sparkle) => Some(sparkle),
                        None => Some(
                            Sparkle { started: now, phase: Phase::Waiting, terminal_focused: true },
                        ),
                    }
                },
            ),
            changed == ((old(self).composer.astra_sparkle is Some) != (
            final(self).composer.astra_sparkle is Some)),
    {
        if !settings.whimsy || !settings.animations || !is_match(ASTRA_MODEL, model) {
            let had = self.composer.astra_sparkle.is_some();
            self.composer.astra_sparkle = None;
            return had;
        }
        match self.composer.astra_sparkle {
            Some(_) => false,
            None => {
                self.composer.astra_sparkle =
                Some(Sparkle { started: now, phase: Phase::Waiting, terminal_focused: true });
                true
            },
        }
    }

    /// Notes whether the terminal has the focus.
    pub fn set_sparkle_terminal_focus(&mut self, focused: bool)
        requires
            old(self).composer.wf(),
        ensures
            final(self).composer.wf(),
            final(self).composer == old(self).composer.with_sparkle(
                match old(self).composer.astra_sparkle {
                    Some(sparkle) => Some(Sparkle { terminal_focused: focused, ..sparkle }),
                    None => None,
                },
            ),
    {
        if let Some(sparkle) = self.composer.astra_sparkle {
            let mut changed = sparkle;
            changed.terminal_focused = focused;
            self.composer.astra_sparkle = Some(changed);
        }
    }
}

/// A fade never brightens: the stars of a later frame are no brighter than those of an earlier
/// one, and no star comes back once they are gone.
#[verifier::spinoff_prover]
pub proof fn law_fade_never_brightens(started: u64, phase: Phase, now: u64, later: u64)
    requires
        phase.wf(),
        phase is Fading,
        now <= later,
    ensures
        shown_frame(started, phase, now) is None ==> shown_frame(started, phase, later) is None,
        shown_frame(started, phase, later) matches Some(second) ==> (shown_frame(
            started,
            phase,
            now,
        ) matches Some(first) && second.visibility.at_most(first.visibility)),
{
    if let Phase::Fading { started: begun, elapsed, duration, start_visibility } = phase {
        let at_first = left(begun, duration, now);
        let at_second = left(begun, duration, later);
        lemma_part_of_fade(start_visibility, at_first, duration);
        lemma_part_of_fade(start_visibility, at_second, duration);
        let a = (start_visibility * at_first) as u64;
        let b = (start_visibility * at_second) as u64;
        let whole = (FULL * duration) as u64;
        assert(start_visibility * at_second <= start_visibility * at_first) by (nonlinear_arith)
            requires
                at_second <= at_first,
        ;
        assert(b * whole <= a * whole) by (nonlinear_arith)
            requires
                b <= a,
        ;
    }
}

/// Input never brightens the stars: a frame right after it is as bright as one right before it
/// would have been, and is drawn from stars that were shown before.
#[verifier::spinoff_prover]
pub proof fn law_input_does_not_brighten(started: u64, phase: Phase, now: u64)
    requires
        phase.wf(),
    ensures
        shown_frame(started, phase, now) is None ==> shown_frame(
            started,
            interacted(phase, now),
            now,
        ) is None,
        phase !is Waiting ==> (shown_frame(started, phase, now) matches Some(before) ==> (
        shown_frame(started, interacted(phase, now), now) matches Some(after)
            && after.visibility.equals(before.visibility))),
        phase is Waiting ==> interacted(phase, now) is Finished,
{
    if let Phase::Fading { started: begun, elapsed, duration, start_visibility } = overdue(
        phase,
        now,
    ) {
        if duration == IDLE_FADE {
            let remaining = left(begun, IDLE_FADE, now);
            lemma_part_of_fade(start_visibility, remaining, IDLE_FADE);
            if remaining > 0 {
                let quick = lesser(INTERACTION_FADE, remaining);
                lemma_part_of_fade(remaining, quick, quick);
                assert((remaining * quick) * (1_000_000_000 * 1_000_000_000) == (1_000_000_000
                    * remaining) * (1_000_000_000 * quick)) by (nonlinear_arith);
            }
        }
    }
}

/// After input the stars are gone within the time of the quick fade, whatever phase they were in.
pub proof fn law_input_ends_the_flourish(started: u64, phase: Phase, now: u64, later: u64)
    requires
        phase.wf(),
        phase.began_by(now),
        later >= now + INTERACTION_FADE,
    ensures
        shown_frame(started, interacted(phase, now), later) is None,
        next_phase(started, interacted(phase, now), later) is Finished,
{
}

/// Without input the stars stand for fifteen seconds from the first visible frame, fade evenly for
/// one more, and are then gone. What frames came in between does not matter, nor whether any came.
pub proof fn law_flourish_ends_by_itself(started: u64, since: u64, elapsed: u64, now: u64)
    requires
        since <= now,
    ensures
        now < since + IDLE_TIMEOUT ==> {
            &&& shown_frame(started, Phase::Visible { since, elapsed }, now) matches Some(frame)
            &&& frame.visibility == (Visibility { part: 1, whole: 1 })
            &&& next_phase(started, Phase::Visible { since, elapsed }, now) == (Phase::Visible {
                since,
                elapsed: age_at(started, now),
            })
        },
        since + IDLE_TIMEOUT <= now < since + IDLE_TIMEOUT + IDLE_FADE ==> {
            &&& shown_frame(started, Phase::Visible { since, elapsed }, now) matches Some(frame)
            &&& frame.visibility.equals(
                Visibility {
                    part: (since + IDLE_TIMEOUT + IDLE_FADE - now) as u64,
                    whole: IDLE_FADE,
                },
            )
            &&& next_phase(started, Phase::Visible { since, elapsed }, now) == (Phase::Fading {
                started: (since + IDLE_TIMEOUT) as u64,
                elapsed,
                duration: IDLE_FADE,
                start_visibility: FULL,
            })
        },
        since + IDLE_TIMEOUT + IDLE_FADE <= now ==> {
            &&& shown_frame(started, Phase::Visible { since, elapsed }, now) is None
            &&& next_phase(started, Phase::Visible { since, elapsed }, now) is Finished
        },
{
    if since + IDLE_TIMEOUT <= now < since + IDLE_TIMEOUT + IDLE_FADE {
        let remaining = (since + IDLE_TIMEOUT + IDLE_FADE - now) as u64;
        assert(left((since + IDLE_TIMEOUT) as u64, IDLE_FADE, now) == remaining);
        lemma_part_of_fade(FULL, remaining, IDLE_FADE);
        let part = (FULL * remaining) as u64;
        let whole = (FULL * IDLE_FADE) as u64;
        assert(part * 1_000_000_000 == remaining * whole) by (nonlinear_arith)
            requires
                part == 1_000_000_000 * remaining,
                whole == 1_000_000_000 * 1_000_000_000,
        ;
        let frame = shown_frame(started, Phase::Visible { since, elapsed }, now)->Some_0;
        assert(frame.visibility == (Visibility { part, whole }));
    }
}

/// A flourish that is over stays over, whatever comes.
pub proof fn law_finished_is_final(started: u64, now: u64, palette: Palette)
    ensures
        interacted(Phase::Finished, now) == Phase::Finished,
        next_phase(started, Phase::Finished, now) == Phase::Finished,
        shown_frame(started, Phase::Finished, now) is None,
        (Sparkle { started, phase: Phase::Finished, terminal_focused: true }).foreground(palette)
            is None,
{
}

/// A fade shows the stars of the last visible frame: neither the deadline nor input moves them.
pub proof fn law_fade_keeps_the_stars(started: u64, phase: Phase, now: u64, later: u64)
    requires
        phase.wf(),
        now <= later,
    ensures
        phase matches Phase::Visible { since, elapsed } ==> {
            &&& shown_frame(started, interacted(phase, now), later) matches Some(frame)
                ==> frame.elapsed == elapsed
            &&& overdue(phase, later) is Fading ==> (shown_frame(
                started,
                phase,
                later,
            ) matches Some(frame) ==> frame.elapsed == elapsed)
        },
        phase matches Phase::Fading { elapsed, .. } ==> {
            &&& shown_frame(started, phase, later) matches Some(frame) ==> frame.elapsed == elapsed
            &&& shown_frame(started, interacted(phase, now), later) matches Some(frame)
                ==> frame.elapsed == elapsed
        },
{
}

/// The next frame is due soon, but not at once, and no later than the change that the clock alone
/// brings about.
pub proof fn law_next_frame_is_in_time(started: u64, phase: Phase, now: u64)
    requires
        phase.wf(),
        phase.began_by(now),
    ensures
        shown_frame(started, phase, now) matches Some(frame) ==> {
            &&& 0 < frame.next <= FRAME_TICK
            &&& frame.visibility.wf()
            &&& match next_phase(started, phase, now) {
                Phase::Visible { since, .. } => now + frame.next <= since + IDLE_TIMEOUT,
                Phase::Fading { started: begun, duration, .. } => now + frame.next <= begun
                    + duration,
                _ => false,
            }
        },
{
    if let Phase::Fading { started: begun, elapsed, duration, start_visibility } = overdue(
        phase,
        now,
    ) {
        lemma_part_of_fade(start_visibility, left(begun, duration, now), duration);
    }
}

/// What a frame shows, and when the next is due. The first one begins the fifteen seconds; until they
/// are over a frame is full, of its own age, and followed by the next after 150 ms or at the deadline;
/// a fade shows what is left of its start in proportion to the time that is left, every 25 ms and at
/// its end.
pub proof fn law_frames_show_what_the_clock_says(started: u64, phase: Phase, now: u64)
    requires
        phase.wf(),
        phase.began_by(now),
        started <= now,
    ensures
        phase is Waiting ==> {
            &&& next_phase(started, phase, now) == (Phase::Visible {
                since: now,
                elapsed: (now - started) as u64,
            })
            &&& shown_frame(started, phase, now) == Some(
                SparkleFrame {
                    elapsed: (now - started) as u64,
                    visibility: Visibility { part: 1, whole: 1 },
                    next: 150_000_000,
                },
            )
        },
        phase matches Phase::Visible { since, elapsed } ==> {
            &&& now - since < 15_000_000_000 ==> (shown_frame(
                started,
                phase,
                now,
            ) matches Some(frame) && {
                &&& frame.elapsed == now - started
                &&& frame.visibility == (Visibility { part: 1, whole: 1 })
                &&& now - since <= 14_850_000_000 ==> frame.next == 150_000_000
                &&& now - since > 14_850_000_000 ==> frame.next == 15_000_000_000 - (now - since)
            })
            &&& 15_000_000_000 <= now - since < 16_000_000_000 ==> (shown_frame(
                started,
                phase,
                now,
            ) matches Some(frame) && {
                &&& frame.elapsed == elapsed
                &&& now - since <= 15_975_000_000 ==> frame.next == 25_000_000
                &&& now - since > 15_975_000_000 ==> frame.next == 16_000_000_000 - (now - since)
            })
            &&& now - since >= 16_000_000_000 ==> shown_frame(started, phase, now) is None
                && next_phase(started, phase, now) == Phase::Finished
        },
        phase matches Phase::Fading { started: begun, elapsed, duration, start_visibility } ==> {
            &&& now - begun < duration ==> {
                &&& next_phase(started, phase, now) == phase
                &&& shown_frame(started, phase, now) matches Some(frame)
                &&& frame.elapsed == elapsed
                &&& frame.visibility.part == start_visibility * (duration - (now - begun))
                &&& frame.visibility.whole == 1_000_000_000 * duration
                &&& duration - (now - begun) >= 25_000_000 ==> frame.next == 25_000_000
                &&& duration - (now - begun) < 25_000_000 ==> frame.next == duration - (now - begun)
            }
            &&& now - begun >= duration ==> shown_frame(started, phase, now) is None && next_phase(
                started,
                phase,
                now,
            ) == Phase::Finished
        },
        phase is Finished ==> shown_frame(started, phase, now) is None && next_phase(
            started,
            phase,
            now,
        ) == Phase::Finished,
{
    if let Phase::Fading { started: begun, elapsed, duration, start_visibility } = phase {
        lemma_part_of_fade(start_visibility, left(begun, duration, now), duration);
        assert(0 <= start_visibility * left(begun, duration, now));
    }
}

/// A clock that reads less than before does no harm: a time before the beginning of something counts
/// as its beginning.
pub proof fn law_early_times_count_as_the_beginning(started: u64, phase: Phase, now: u64)
    requires
        phase.wf(),
    ensures
        now <= started && phase is Waiting ==> (shown_frame(started, phase, now) matches Some(frame)
            && frame.elapsed == 0),
        phase matches Phase::Visible { since, elapsed } ==> (now < since ==> {
            &&& shown_frame(started, phase, now) matches Some(frame)
            &&& frame.visibility == (Visibility { part: 1, whole: 1 })
            &&& frame.next == 150_000_000
            &&& frame.elapsed == if now <= started {
                0
            } else {
                now - started
            }
            &&& next_phase(started, phase, now) == (Phase::Visible { since, elapsed: frame.elapsed })
        }),
        phase matches Phase::Fading { started: begun, .. } ==> (now < begun ==> {
            &&& shown_frame(started, phase, now) == shown_frame(started, phase, begun)
            &&& next_phase(started, phase, now) == phase
        }),
{
}

/// What input does: a flourish that was not shown yet is over; one that stands fades within 75 ms
/// from full, with the stars of its last frame; one that fades by itself goes on from where it is, for
/// 75 ms or what is left if that is less; and a quick fade is not disturbed.
pub proof fn law_input_fades_from_where_it_stands(phase: Phase, now: u64)
    requires
        phase.wf(),
        phase.began_by(now),
    ensures
        phase is Waiting ==> interacted(phase, now) == Phase::Finished,
        phase is Finished ==> interacted(phase, now) == Phase::Finished,
        phase matches Phase::Visible { since, elapsed } ==> {
            &&& now - since < 15_000_000_000 ==> interacted(phase, now) == (Phase::Fading {
                started: now,
                elapsed,
                duration: 75_000_000,
                start_visibility: 1_000_000_000,
            })
            &&& 15_000_000_000 <= now - since < 16_000_000_000 ==> (interacted(
                phase,
                now,
            ) matches Phase::Fading { started, elapsed: kept, duration, start_visibility } && {
                &&& started == now
                &&& kept == elapsed
                &&& start_visibility == 16_000_000_000 - (now - since)
                &&& duration == 75_000_000 || duration == 16_000_000_000 - (now - since)
                &&& duration <= 75_000_000
                &&& duration <= 16_000_000_000 - (now - since)
            })
            &&& now - since >= 16_000_000_000 ==> interacted(phase, now) == Phase::Finished
        },
        phase matches Phase::Fading { started, elapsed, duration, start_visibility } ==> {
            &&& duration != 1_000_000_000 ==> interacted(phase, now) == phase
            &&& duration == 1_000_000_000 && now - started < duration ==> (interacted(
                phase,
                now,
            ) matches Phase::Fading {
                started: begun,
                elapsed: kept,
                duration: quick,
                start_visibility: bright,
            } && {
                &&& begun == now
                &&& kept == elapsed
                &&& bright == duration - (now - started)
                &&& quick == 75_000_000 || quick == duration - (now - started)
                &&& quick <= 75_000_000
                &&& quick <= duration - (now - started)
            })
            &&& duration == 1_000_000_000 && now - started >= duration ==> interacted(phase, now)
                == Phase::Finished
        },
{
    match phase {
        Phase::Visible { since, elapsed } => {
            if 15_000_000_000 <= now - since < 16_000_000_000 {
                let remaining = left((since + IDLE_TIMEOUT) as u64, IDLE_FADE, now);
                assert(remaining == 16_000_000_000 - (now - since));
                assert(1_000_000_000 * remaining / 1_000_000_000 == remaining);
            }
        },
        Phase::Fading { started, elapsed, duration, start_visibility } => {
            if duration == IDLE_FADE {
                let remaining = left(started, IDLE_FADE, now);
                assert(1_000_000_000 * remaining / 1_000_000_000 == remaining);
            }
        },
        _ => {},
    }
}

/// Stars are drawn in the default color of the terminal exactly while the flourish is not over and the
/// terminal has true colors.
pub proof fn law_stars_have_the_default_color(sparkle: Sparkle, palette: Palette)
    ensures
        sparkle.phase == Phase::Finished ==> sparkle.foreground(palette) is None,
        !palette.true_color ==> sparkle.foreground(palette) is None,
        sparkle.phase != Phase::Finished && palette.true_color ==> sparkle.foreground(palette)
            == palette.default_fg,
{
}

/// A composer takes as input what it holds or shows: a draft, a paste that comes in, disabled input,
/// the voice strip and a popup, each of them alone; an untouched composer leaves the flourish as it
/// is.
pub proof fn law_composer_notes_what_interrupts(composer: ChatComposer, sparkle: Sparkle, now: u64)
    requires
        composer.astra_sparkle == Some(sparkle),
    ensures
        composer.is_empty && !composer.paste_burst_active && composer.input_enabled
            && !composer.voice_strip_shown && !composer.popup_open ==> composer.sparkle_at(now)
            == Some(sparkle),
        !composer.is_empty || composer.paste_burst_active || !composer.input_enabled
            || composer.voice_strip_shown || composer.popup_open ==> composer.sparkle_at(now) == Some(
            Sparkle {
                started: sparkle.started,
                phase: interacted(sparkle.phase, now),
                terminal_focused: sparkle.terminal_focused,
            },
        ),
        (ChatComposer { astra_sparkle: None, ..composer }).sparkle_at(now) is None,
{
}

/// A frame is asked of a flourish exactly where it can be seen: the composer and the terminal have the
/// focus, the area has three rows, and there is a place for text; it is in the color of the flourish.
pub proof fn law_frames_are_asked_for_where_they_are_seen(
    composer: ChatComposer,
    area: Area,
    textarea: Area,
    now: u64,
    palette: Palette,
)
    ensures
        ({
            let color = composer.frame_color(area, textarea, now, palette);
            let seen = composer.has_focus && area.height >= 3 && textarea.width > 0
                && textarea.height > 0;
            &&& !seen ==> color is None
            &&& composer.astra_sparkle is None ==> color is None
            &&& seen ==> (composer.sparkle_at(now) matches Some(sparkle) ==> {
                &&& !sparkle.terminal_focused ==> color is None
                &&& sparkle.terminal_focused ==> color == sparkle.foreground(palette)
            })
        }),
{
}

/// What an empty composer shows, and that stars keep off it: the placeholder, or where input is
/// disabled the text for that, takes the first row of the text area, up to its width. A draft keeps
/// stars off its rows over the whole width.
pub proof fn law_text_is_kept_clear(composer: ChatComposer, area: Area, textarea: Area)
    ensures
        composer.input_enabled ==> composer.placeholder() == composer.placeholder_text@,
        !composer.input_enabled ==> (composer.input_disabled_placeholder matches Some(text)
            ==> composer.placeholder() == text@),
        !composer.input_enabled && composer.input_disabled_placeholder is None
            ==> composer.placeholder() == "Input disabled."@,
        !composer.is_empty || composer.paste_burst_active ==> composer.protected(area, textarea)
            == crate::stars::area_at(area.x, textarea.y, area.width, textarea.height),
        composer.is_empty && !composer.paste_burst_active ==> {
            let wide = crate::stars::display_width(composer.placeholder());
            &&& wide <= textarea.width ==> composer.protected(area, textarea)
                == crate::stars::area_at(textarea.x, textarea.y, wide as u16, 1)
            &&& wide > textarea.width ==> composer.protected(area, textarea)
                == crate::stars::area_at(textarea.x, textarea.y, textarea.width, 1)
        },
{
}

/// Another flourish changes nothing else about a composer.
pub proof fn law_flourish_leaves_the_composer(composer: ChatComposer, sparkle: Option<Sparkle>)
    ensures
        ({
            let after = composer.with_sparkle(sparkle);
            &&& after.astra_sparkle == sparkle
            &&& after.has_focus == composer.has_focus
            &&& after.is_empty == composer.is_empty
            &&& after.paste_burst_active == composer.paste_burst_active
            &&& after.input_enabled == composer.input_enabled
            &&& after.voice_strip_shown == composer.voice_strip_shown
            &&& after.popup_open == composer.popup_open
            &&& after.placeholder_text == composer.placeholder_text
            &&& after.input_disabled_placeholder == composer.input_disabled_placeholder
        }),
{
}

/// What is asked of a flourish: a frame, or to take input into account, each at a time.
pub enum SparkleCall {
    Frame(u64),
    Interact(u64),
}

impl SparkleCall {
    /// When it is asked.
    pub open spec fn at(self) -> u64 {
        match self {
            SparkleCall::Frame(now) => now,
            SparkleCall::Interact(now) => now,
        }
    }
}

/// The phase after a call, of a flourish that started at `started`.
pub open spec fn phase_after(started: u64, phase: Phase, call: SparkleCall) -> Phase {
    match call {
        SparkleCall::Frame(now) => next_phase(started, phase, now),
        SparkleCall::Interact(now) => interacted(phase, now),
    }
}

/// The phase of a new flourish after the first `n` calls of a run.
pub open spec fn phase_at(started: u64, calls: Seq<SparkleCall>, n: nat) -> Phase
    decreases n,
{
    if n == 0 {
        Phase::Waiting
    } else {
        phase_after(started, phase_at(started, calls, (n - 1) as nat), calls[n - 1])
    }
}

/// Whether the times of a run of calls never go back.
pub open spec fn in_order(calls: Seq<SparkleCall>) -> bool {
    forall|i: int, j: int|
        0 <= i <= j < calls.len() ==> (#[trigger] calls[i]).at() <= (#[trigger] calls[j]).at()
}

/// The frame that a call of a run gives, if it asks for one and there is one.
pub open spec fn frame_at(started: u64, calls: Seq<SparkleCall>, i: int) -> Option<SparkleFrame> {
    match calls[i] {
        SparkleCall::Frame(now) => shown_frame(
            started,
            phase_at(started, calls, i as nat),
            now,
        ),
        SparkleCall::Interact(_) => None,
    }
}

/// Whether a frame is no brighter than another. A missing frame is the darkest of all.
pub open spec fn no_brighter(a: Option<SparkleFrame>, b: Option<SparkleFrame>) -> bool {
    a matches Some(a) ==> (b matches Some(b) && a.visibility.at_most(b.visibility))
}

/// Every frame has a share of full brightness, and some.
proof fn lemma_frames_are_shares(started: u64, phase: Phase, now: u64)
    requires
        phase.wf(),
    ensures
        shown_frame(started, phase, now) matches Some(frame) ==> frame.visibility.wf()
            && frame.visibility.part > 0,
{
    if let Phase::Fading { started: begun, elapsed, duration, start_visibility } = overdue(
        phase,
        now,
    ) {
        let remaining = left(begun, duration, now);
        lemma_part_of_fade(start_visibility, remaining, duration);
        assert(remaining > 0 ==> start_visibility * remaining > 0) by (nonlinear_arith)
            requires
                start_visibility > 0,
        ;
    }
}

proof fn lemma_at_most_chains(a: Visibility, b: Visibility, c: Visibility)
    requires
        a.wf(),
        b.wf(),
        c.wf(),
        a.at_most(b),
        b.at_most(c),
    ensures
        a.at_most(c),
{
    let (ap, aw, bp, bw, cp, cw) = (
        a.part as int,
        a.whole as int,
        b.part as int,
        b.whole as int,
        c.part as int,
        c.whole as int,
    );
    assert((ap * bw) * cw <= (bp * aw) * cw) by (nonlinear_arith)
        requires
            ap * bw <= bp * aw,
            cw >= 0,
    ;
    assert((bp * cw) * aw <= (cp * bw) * aw) by (nonlinear_arith)
        requires
            bp * cw <= cp * bw,
            aw >= 0,
    ;
    assert(ap * cw <= cp * aw) by (nonlinear_arith)
        requires
            (ap * bw) * cw <= (bp * aw) * cw,
            (bp * cw) * aw <= (cp * bw) * aw,
            bw > 0,
    ;
}

/// What is no brighter than something dimmed is dimmed.
proof fn lemma_dimmed_stays_dimmed(a: Visibility, b: Visibility)
    requires
        a.wf(),
        b.wf(),
        a.at_most(b),
        b.dimmed(),
    ensures
        a.dimmed(),
{
    let (ap, aw, bp, bw) = (a.part as int, a.whole as int, b.part as int, b.whole as int);
    assert(bp * aw < bw * aw) by (nonlinear_arith)
        requires
            bp < bw,
            aw > 0,
    ;
    assert(ap >= aw ==> ap * bw >= bw * aw) by (nonlinear_arith)
        requires
            bw > 0,
    ;
}

/// No share is brighter than full.
proof fn lemma_full_is_brightest(share: Visibility)
    requires
        share.wf(),
    ensures
        share.at_most(Visibility { part: 1, whole: 1 }),
{
    let (part, whole) = (share.part as int, share.whole as int);
    assert(part * 1 == part) by (nonlinear_arith);
    assert(1 * whole == whole) by (nonlinear_arith);
}

/// In any phase, a later frame is no brighter than an earlier one would have been.
#[verifier::spinoff_prover]
proof fn lemma_time_does_not_brighten(started: u64, phase: Phase, now: u64, later: u64)
    requires
        phase.wf(),
        now <= later,
    ensures
        no_brighter(shown_frame(started, phase, later), shown_frame(started, phase, now)),
{
    let settled = overdue(phase, now);
    match settled {
        Phase::Fading { .. } => {
            assert(overdue(phase, later) == settled);
            assert(overdue(settled, now) == settled);
            assert(overdue(settled, later) == settled);
            law_fade_never_brightens(started, settled, now, later);
            assert(shown_frame(started, phase, now) == shown_frame(started, settled, now));
            assert(shown_frame(started, phase, later) == shown_frame(started, settled, later));
        },
        Phase::Finished => {
            assert(phase is Finished);
            assert(shown_frame(started, phase, later) is None);
        },
        _ => {
            let full = Visibility { part: 1, whole: 1 };
            assert(shown_frame(started, phase, now) matches Some(frame) && frame.visibility
                == full);
            lemma_frames_are_shares(started, phase, later);
            if let Some(frame) = shown_frame(started, phase, later) {
                lemma_full_is_brightest(frame.visibility);
            }
        },
    }
}

/// A call keeps the phase sound, and makes no later frame brighter.
#[verifier::spinoff_prover]
proof fn lemma_call_does_not_brighten(started: u64, phase: Phase, call: SparkleCall, later: u64)
    requires
        phase.wf(),
        phase.began_by(call.at()),
        call.at() <= later,
    ensures
        phase_after(started, phase, call).wf(),
        phase_after(started, phase, call).began_by(call.at()),
        no_brighter(
            shown_frame(started, phase_after(started, phase, call), later),
            shown_frame(started, phase, call.at()),
        ),
{
    let now = call.at();
    let after = phase_after(started, phase, call);
    if let Phase::Fading { started: begun, elapsed, duration, start_visibility } = overdue(
        phase,
        now,
    ) {
        if duration == IDLE_FADE {
            lemma_part_of_fade(start_visibility, left(begun, IDLE_FADE, now), IDLE_FADE);
        }
    }
    assert(after.wf());
    lemma_frames_are_shares(started, phase, now);
    lemma_frames_are_shares(started, after, now);
    lemma_frames_are_shares(started, after, later);
    law_input_does_not_brighten(started, phase, now);
    lemma_time_does_not_brighten(started, after, now, later);
    assert(no_brighter(shown_frame(started, after, now), shown_frame(started, phase, now)));
    if let (Some(a), Some(b), Some(c)) = (
        shown_frame(started, after, later),
        shown_frame(started, after, now),
        shown_frame(started, phase, now),
    ) {
        lemma_at_most_chains(a.visibility, b.visibility, c.visibility);
    }
}

/// The phases of a run are sound, and nothing in them begins before its time.
proof fn lemma_run_phases(started: u64, calls: Seq<SparkleCall>, n: nat)
    requires
        in_order(calls),
        n <= calls.len(),
    ensures
        phase_at(started, calls, n).wf(),
        n > 0 ==> phase_at(started, calls, n).began_by(calls[n - 1].at()),
        n < calls.len() ==> phase_at(started, calls, n).began_by(calls[n as int].at()),
    decreases n,
{
    if n > 0 {
        lemma_run_phases(started, calls, (n - 1) as nat);
        let before = phase_at(started, calls, (n - 1) as nat);
        lemma_call_does_not_brighten(started, before, calls[n - 1], calls[n - 1].at());
        if n < calls.len() {
            assert(calls[n - 1].at() <= calls[n as int].at());
        }
    }
}

/// From a call of a run on, no frame is brighter than one at the time of that call.
#[verifier::spinoff_prover]
proof fn lemma_run_does_not_brighten(
    started: u64,
    calls: Seq<SparkleCall>,
    i: nat,
    n: nat,
    later: u64,
)
    requires
        in_order(calls),
        i < n <= calls.len(),
        calls[n - 1].at() <= later,
    ensures
        no_brighter(
            shown_frame(started, phase_at(started, calls, n), later),
            shown_frame(started, phase_at(started, calls, i), calls[i as int].at()),
        ),
    decreases n - i,
{
    let last = calls[n - 1];
    let before = phase_at(started, calls, (n - 1) as nat);
    lemma_run_phases(started, calls, (n - 1) as nat);
    lemma_run_phases(started, calls, i);
    lemma_call_does_not_brighten(started, before, last, later);
    if i < n - 1 {
        assert(calls[n - 2].at() <= last.at());
        lemma_run_does_not_brighten(started, calls, i, (n - 1) as nat, last.at());
        lemma_frames_are_shares(started, phase_at(started, calls, n), later);
        lemma_frames_are_shares(started, before, last.at());
        lemma_frames_are_shares(
            started,
            phase_at(started, calls, i),
            calls[i as int].at(),
        );
        lemma_run_phases(started, calls, n);
        if let (Some(a), Some(b), Some(c)) = (
            shown_frame(started, phase_at(started, calls, n), later),
            shown_frame(started, before, last.at()),
            shown_frame(started, phase_at(started, calls, i), calls[i as int].at()),
        ) {
            lemma_at_most_chains(a.visibility, b.visibility, c.visibility);
        }
    } else {
        lemma_run_phases(started, calls, n);
    }
}

/// Over any run of frames and input, the stars never get brighter, and after a frame that shows
/// none, none follows that shows any.
pub proof fn law_run_never_brightens(started: u64, calls: Seq<SparkleCall>, i: int, j: int)
    requires
        in_order(calls),
        0 <= i < j < calls.len(),
        calls[i] is Frame,
        calls[j] is Frame,
    ensures
        frame_at(started, calls, i) is None ==> frame_at(started, calls, j) is None,
        frame_at(started, calls, j) matches Some(second) ==> (frame_at(
            started,
            calls,
            i,
        ) matches Some(first) && second.visibility.at_most(first.visibility)),
{
    assert(calls[j - 1].at() <= calls[j].at());
    lemma_run_does_not_brighten(started, calls, i as nat, j as nat, calls[j].at());
}

/// Over any run of frames and input, each frame that shows stars shows them with some share of full
/// brightness, and the next one is due soon, but not at once.
pub proof fn law_run_frames_are_sound(started: u64, calls: Seq<SparkleCall>, i: int)
    requires
        in_order(calls),
        0 <= i < calls.len(),
    ensures
        frame_at(started, calls, i) matches Some(frame) ==> {
            &&& 0 < frame.visibility.part <= frame.visibility.whole
            &&& 0 < frame.next <= FRAME_TICK
        },
{
    lemma_run_phases(started, calls, i as nat);
    let phase = phase_at(started, calls, i as nat);
    lemma_frames_are_shares(started, phase, calls[i].at());
    law_next_frame_is_in_time(started, phase, calls[i].at());
}

/// Whether a phase ends by a time at the latest.
pub open spec fn ends_by(phase: Phase, end: int) -> bool {
    match phase {
        Phase::Waiting => false,
        Phase::Visible { since, .. } => since + IDLE_TIMEOUT + IDLE_FADE <= end,
        Phase::Fading { started, duration, .. } => started + duration <= end,
        Phase::Finished => true,
    }
}

/// Before the first frame, a flourish waits or is over already.
proof fn lemma_nothing_shown_before_first_frame(
    started: u64,
    calls: Seq<SparkleCall>,
    n: nat,
)
    requires
        n <= calls.len(),
        forall|k: int| 0 <= k < n ==> (#[trigger] calls[k]) is Interact,
    ensures
        phase_at(started, calls, n) is Waiting || phase_at(started, calls, n) is Finished,
    decreases n,
{
    if n > 0 {
        lemma_nothing_shown_before_first_frame(started, calls, (n - 1) as nat);
        assert(calls[n - 1] is Interact);
    }
}

proof fn lemma_run_ends(started: u64, calls: Seq<SparkleCall>, first: nat, n: nat, end: int)
    requires
        in_order(calls),
        first < n <= calls.len(),
        ends_by(phase_at(started, calls, first + 1), end),
    ensures
        ends_by(phase_at(started, calls, n), end),
    decreases n,
{
    if n > first + 1 {
        lemma_run_ends(started, calls, first, (n - 1) as nat, end);
        lemma_run_phases(started, calls, (n - 1) as nat);
    }
}

/// Over any run of frames and input, nothing is shown from sixteen seconds after the first frame
/// on, whatever frames came late or not at all.
pub proof fn law_run_ends_in_time(started: u64, calls: Seq<SparkleCall>, first: int, j: int)
    requires
        in_order(calls),
        0 <= first < j < calls.len(),
        calls[first] is Frame,
        forall|k: int| 0 <= k < first ==> (#[trigger] calls[k]) is Interact,
        calls[j].at() >= calls[first].at() + IDLE_TIMEOUT + IDLE_FADE,
    ensures
        frame_at(started, calls, j) is None,
{
    let end = calls[first].at() + IDLE_TIMEOUT + IDLE_FADE;
    lemma_nothing_shown_before_first_frame(started, calls, first as nat);
    assert(phase_at(started, calls, (first + 1) as nat) == phase_after(
        started,
        phase_at(started, calls, first as nat),
        calls[first],
    ));
    lemma_run_ends(started, calls, first as nat, j as nat, end);
    lemma_run_phases(started, calls, j as nat);
}

/// Over any run of frames and input, nothing is shown from the end of the quick fade after an input
/// on, however much input follows.
pub proof fn law_run_ends_after_input(started: u64, calls: Seq<SparkleCall>, input: int, j: int)
    requires
        in_order(calls),
        0 <= input < j < calls.len(),
        calls[input] is Interact,
        calls[j].at() >= calls[input].at() + INTERACTION_FADE,
    ensures
        frame_at(started, calls, j) is None,
{
    let end = calls[input].at() + INTERACTION_FADE;
    lemma_run_phases(started, calls, input as nat);
    assert(phase_at(started, calls, (input + 1) as nat) == phase_after(
        started,
        phase_at(started, calls, input as nat),
        calls[input],
    ));
    lemma_run_ends(started, calls, input as nat, j as nat, end);
    lemma_run_phases(started, calls, j as nat);
}

/// Whether a phase shows the stars of the frame of an age, if it shows any.
pub open spec fn holds_stars(phase: Phase, age: u64) -> bool {
    match phase {
        Phase::Waiting => false,
        Phase::Visible { elapsed, .. } => elapsed == age,
        Phase::Fading { elapsed, .. } => elapsed == age,
        Phase::Finished => true,
    }
}

proof fn lemma_run_holds_stars(started: u64, calls: Seq<SparkleCall>, i: nat, n: nat, age: u64)
    requires
        in_order(calls),
        i < n <= calls.len(),
        frame_at(started, calls, i as int) matches Some(frame) && frame.elapsed == age,
        forall|k: int|
            i < k < n && ((#[trigger] frame_at(started, calls, k)) is Some) ==> frame_at(
                started,
                calls,
                k,
            )->Some_0.visibility.dimmed(),
    ensures
        holds_stars(phase_at(started, calls, n), age),
    decreases n,
{
    let before = phase_at(started, calls, (n - 1) as nat);
    lemma_run_phases(started, calls, (n - 1) as nat);
    if n - 1 > i {
        lemma_run_holds_stars(started, calls, i, (n - 1) as nat, age);
        let shown = frame_at(started, calls, n - 1);
        assert(shown is Some ==> shown->Some_0.visibility.dimmed());
    }
}

/// Over any run of frames and input, a fade shows the stars of the last frame before it: as long as
/// the frames that follow a frame are dimmed, they show the stars of that frame, even if they come
/// late.
pub proof fn law_run_fades_where_it_stood(started: u64, calls: Seq<SparkleCall>, i: int, j: int)
    requires
        in_order(calls),
        0 <= i < j < calls.len(),
        frame_at(started, calls, i) is Some,
        frame_at(started, calls, j) is Some,
        forall|k: int|
            i < k <= j && ((#[trigger] frame_at(started, calls, k)) is Some) ==> frame_at(
                started,
                calls,
                k,
            )->Some_0.visibility.dimmed(),
    ensures
        frame_at(started, calls, j)->Some_0.elapsed == frame_at(started, calls, i)->Some_0.elapsed,
{
    let age = frame_at(started, calls, i)->Some_0.elapsed;
    lemma_run_holds_stars(started, calls, i as nat, j as nat, age);
    let shown = frame_at(started, calls, j);
    assert(shown->Some_0.visibility.dimmed());
}

/// Over any run of frames and input, every frame after a dimmed one is dimmed too and shows the same
/// stars.
pub proof fn law_run_keeps_dimmed_stars(started: u64, calls: Seq<SparkleCall>, i: int, j: int)
    requires
        in_order(calls),
        0 <= i < j < calls.len(),
        frame_at(started, calls, i) matches Some(first) && first.visibility.dimmed(),
        frame_at(started, calls, j) is Some,
    ensures
        frame_at(started, calls, j)->Some_0.visibility.dimmed(),
        frame_at(started, calls, j)->Some_0.elapsed == frame_at(started, calls, i)->Some_0.elapsed,
{
    let first = frame_at(started, calls, i)->Some_0;
    law_run_frames_are_sound(started, calls, i);
    assert forall|k: int|
        i < k <= j && ((#[trigger] frame_at(started, calls, k)) is Some) implies frame_at(
        started,
        calls,
        k,
    )->Some_0.visibility.dimmed() by {
        law_run_never_brightens(started, calls, i, k);
        law_run_frames_are_sound(started, calls, k);
        lemma_dimmed_stays_dimmed(
            frame_at(started, calls, k)->Some_0.visibility,
            first.visibility,
        );
    }
    law_run_fades_where_it_stood(started, calls, i, j);
}

/// A draft is never decorated: no star stands in the rows of the text area.
pub proof fn law_draft_is_not_decorated(
    composer: ChatComposer,
    area: Area,
    textarea: Area,
    cursor: Option<(u16, u16)>,
    cells: Seq<CellInfo>,
    star: Star,
)
    requires
        !composer.is_empty || composer.paste_burst_active,
        cells.len() == crate::stars::rows(area) * crate::stars::columns(area),
        crate::stars::stars_in_rows(
            area,
            cursor,
            Some(composer.protected(area, textarea)),
            cells,
            crate::stars::rows(area),
        ).contains(star),
    ensures
        !(textarea.y <= star.y < textarea.bottom_end()),
{
    crate::stars::law_stars_cover_nothing(
        area,
        cursor,
        Some(composer.protected(area, textarea)),
        cells,
        crate::stars::rows(area),
        star,
    );
}

/// The placeholder of an empty composer is never decorated, not even where it holds spaces.
pub proof fn law_placeholder_is_not_decorated(
    composer: ChatComposer,
    area: Area,
    textarea: Area,
    cursor: Option<(u16, u16)>,
    cells: Seq<CellInfo>,
    star: Star,
)
    requires
        composer.is_empty && !composer.paste_burst_active,
        cells.len() == crate::stars::rows(area) * crate::stars::columns(area),
        crate::stars::stars_in_rows(
            area,
            cursor,
            Some(composer.protected(area, textarea)),
            cells,
            crate::stars::rows(area),
        ).contains(star),
    ensures
        star.y == textarea.y && textarea.x <= star.x < textarea.right_end() ==> star.x
            >= textarea.x + crate::stars::display_width(composer.placeholder()),
{
    crate::stars::law_stars_cover_nothing(
        area,
        cursor,
        Some(composer.protected(area, textarea)),
        cells,
        crate::stars::rows(area),
        star,
    );
}

} // verus!
