//! The marquee renderer: which part of a message is visible at an instant.
//!
//! A message that fits the display is shown as it is. A longer one is
//! followed by a separator to form the loop buffer, and a window of
//! `display_width` grapheme clusters moves over that buffer by one cluster per
//! tick, after holding at the start for `delay` ticks; at the end of the
//! buffer the window wraps round to its start. Nothing is remembered between
//! calls: the window is a function of the elapsed time alone.
//!
//! Whether a message fits is decided by its number of grapheme clusters, the
//! same unit in which the window is measured, not by its length in bytes.

use crate::segment::{
    cluster_texts, concat_all, copy_clusters, grapheme_clusters, join_clusters, split_graphemes,
};
use std::time::Duration;
use vstd::arithmetic::div_mod::{lemma_hoist_over_denominator, lemma_mod_multiples_vanish};
use vstd::prelude::*;
use vstd::string::StringExecFns;

verus! {

/// One period of the animation: the message, then the gap before it repeats.
pub open spec fn loop_buffer(message: Seq<char>) -> Seq<char> {
    message + " | "@
}

/// The zero-width character that ends every animated frame.
pub open spec fn frame_marker() -> Seq<char> {
    "\u{2062}"@
}

/// The number of ticks after which the animation repeats.
pub open spec fn period(cluster_count: nat, hold: nat) -> nat {
    cluster_count + hold
}

/// The index in the loop buffer of the first visible cluster at tick counter
/// `time`: 0 during the hold phase, then one further per tick.
pub open spec fn window_start(cluster_count: nat, time: nat, hold: nat) -> nat {
    let p = period(cluster_count, hold);
    if p == 0 {
        0
    } else {
        let tick = time % p;
        if tick < hold {
            0
        } else {
            (tick - hold) as nat
        }
    }
}

/// The visible clusters of a loop buffer at tick counter `time`.
///
/// With `tick = time mod (clusters.len() + hold)`: while `tick < hold` the
/// first `width` clusters; then, as long as the window ends before the buffer
/// does, the `width` clusters from `tick - hold` on; after that the rest of
/// the buffer from `tick - hold` on, followed by as many clusters from its
/// start as the window reaches past the end.
pub open spec fn window_at<A>(clusters: Seq<A>, width: nat, time: nat, hold: nat) -> Seq<A> {
    let n = clusters.len();
    let p = period(n, hold);
    if p == 0 {
        Seq::empty()
    } else {
        let tick = time % p;
        if tick < hold {
            clusters.take(if width <= n { width as int } else { n as int })
        } else {
            let start = tick - hold;
            if start + width < n {
                clusters.subrange(start, start + width)
            } else {
                clusters.subrange(start, n as int) + clusters.take((start + width) % (n as int))
            }
        }
    }
}

/// What the display shows for `message` after `elapsed_ms` milliseconds.
pub open spec fn marquee_text(
    message: Seq<char>,
    width: nat,
    elapsed_ms: nat,
    hold: nat,
    tick_ms: nat,
) -> Seq<char> {
    if grapheme_clusters(message).len() <= width {
        message
    } else {
        concat_all(
            window_at(grapheme_clusters(loop_buffer(message)), width, elapsed_ms / tick_ms, hold),
        ) + frame_marker()
    }
}

/// The visible clusters of the loop buffer `clusters` at tick counter `time`,
/// for a display of `display_width` clusters and a hold of `delay` ticks.
pub fn visible_window(clusters: &Vec<String>, display_width: usize, time: u128, delay: u64) -> (out:
    Vec<String>)
    ensures
        cluster_texts(out@) == window_at(
            cluster_texts(clusters@),
            display_width as nat,
            time as nat,
            delay as nat,
        ),
{
    let n: usize = clusters.len();
    let cycle: u128 = n as u128 + delay as u128;
    if cycle == 0 {
        let out: Vec<String> = Vec::new();
        assert(cluster_texts(out@) =~= Seq::<Seq<char>>::empty());
        return out;
    }
    let tick: u128 = time % cycle;
    if tick < delay as u128 {
        let shown: usize = if display_width <= n { display_width } else { n };
        copy_clusters(clusters, 0, shown)
    } else {
        let start: usize = (tick - delay as u128) as usize;
        if display_width < n - start {
            copy_clusters(clusters, start, start + display_width)
        } else {
            let wrapped: usize = ((start as u128 + display_width as u128) % (n as u128)) as usize;
            let mut out = copy_clusters(clusters, start, n);
            let mut head = copy_clusters(clusters, 0, wrapped);
            let ghost tail_texts = cluster_texts(out@);
            let ghost head_texts = cluster_texts(head@);
            out.append(&mut head);
            assert(cluster_texts(out@) =~= tail_texts + head_texts);
            out
        }
    }
}

/// `Duration::as_millis`: the whole milliseconds that a duration holds.
pub uninterp spec fn duration_millis(elapsed: Duration) -> u128;

/// Calls `Duration::as_millis`. Trusted: the number returned is the
/// duration's `duration_millis`.
#[verifier::external_body]
fn elapsed_millis(elapsed: Duration) -> (ms: u128)
    ensures
        ms == duration_millis(elapsed),
{
    elapsed.as_millis()
}

/// The display text for `message` after `elapsed_ms` milliseconds of play.
///
/// A message of at most `display_width` grapheme clusters comes back as it
/// is. Otherwise the result is the visible window of the loop buffer at tick
/// `elapsed_ms / tick_duration`, followed by the zero-width frame marker.
pub fn marquee_at(
    message: String,
    display_width: usize,
    elapsed_ms: u128,
    delay: u64,
    tick_duration: u128,
) -> (out: String)
    requires
        display_width > 0,
        tick_duration > 0,
    ensures
        out@ == marquee_text(
            message@,
            display_width as nat,
            elapsed_ms as nat,
            delay as nat,
            tick_duration as nat,
        ),
        grapheme_clusters(message@).len() <= display_width ==> out@ == message@,
{
    let whole = split_graphemes(message.as_str());
    if whole.len() <= display_width {
        return message;
    }
    let mut buffer = message;
    buffer.append(" | ");
    let clusters = split_graphemes(buffer.as_str());
    let window = visible_window(&clusters, display_width, elapsed_ms / tick_duration, delay);
    let mut out = join_clusters(&window);
    out.append("\u{2062}");
    out
}

/// The display text for `message` at playback position `song_position`:
/// `marquee_at` on the position's whole milliseconds.
pub fn marquee(
    message: String,
    display_width: usize,
    song_position: Duration,
    delay: u64,
    tick_duration: u128,
) -> (out: String)
    requires
        display_width > 0,
        tick_duration > 0,
    ensures
        out@ == marquee_text(
            message@,
            display_width as nat,
            duration_millis(song_position) as nat,
            delay as nat,
            tick_duration as nat,
        ),
        grapheme_clusters(message@).len() <= display_width ==> out@ == message@,
{
    let elapsed_ms = elapsed_millis(song_position);
    marquee_at(message, display_width, elapsed_ms, delay, tick_duration)
}

/// The settings of a display, constant for a run.
#[derive(Clone, Copy, Debug)]
pub struct RenderConfig {
    /// Grapheme clusters shown at once.
    pub display_width: usize,
    /// Ticks to rest at the start of the message before it scrolls.
    pub hold_ticks: u64,
    /// Milliseconds per tick.
    pub tick_duration_ms: u128,
}

impl RenderConfig {
    /// A display has room for at least one cluster, and a tick takes time.
    pub open spec fn is_valid(&self) -> bool {
        self.display_width > 0 && self.tick_duration_ms > 0
    }
}

impl Default for RenderConfig {
    /// 25 clusters wide, a hold of 3 ticks, half a second per tick.
    fn default() -> (config: RenderConfig)
        ensures
            config.display_width == 25,
            config.hold_ticks == 3,
            config.tick_duration_ms == 500,
            config.is_valid(),
    {
        RenderConfig { display_width: 25, hold_ticks: 3, tick_duration_ms: 500 }
    }
}

/// Why a configuration cannot drive the renderer.
#[derive(Clone, Copy, Debug, PartialEq, Eq, Structural)]
pub enum RenderError {
    /// `display_width` is 0.
    ZeroWidth,
    /// `tick_duration_ms` is 0.
    ZeroTickDuration,
}

impl RenderError {
    /// A line that says what is wrong with the configuration.
    pub fn message(&self) -> (text: String)
        ensures
            text@ == match *self {
                RenderError::ZeroWidth => "display width must be at least 1"@,
                RenderError::ZeroTickDuration => "tick duration must be at least 1 ms"@,
            },
    {
        match self {
            RenderError::ZeroWidth => String::from_str("display width must be at least 1"),
            RenderError::ZeroTickDuration => String::from_str(
                "tick duration must be at least 1 ms",
            ),
        }
    }
}

/// `marquee` under a configuration that is checked first: a zero width is
/// refused, then a zero tick duration; any other configuration renders.
pub fn render(config: &RenderConfig, message: String, elapsed: Duration) -> (out: Result<
    String,
    RenderError,
>)
    ensures
        config.display_width == 0 <==> out == Err::<String, RenderError>(RenderError::ZeroWidth),
        config.display_width > 0 && config.tick_duration_ms == 0 <==> out == Err::<
            String,
            RenderError,
        >(RenderError::ZeroTickDuration),
        config.is_valid() <==> out is Ok,
        out is Ok ==> out->Ok_0@ == marquee_text(
            message@,
            config.display_width as nat,
            duration_millis(elapsed) as nat,
            config.hold_ticks as nat,
            config.tick_duration_ms as nat,
        ),
{
    if config.display_width == 0 {
        Err(RenderError::ZeroWidth)
    } else if config.tick_duration_ms == 0 {
        Err(RenderError::ZeroTickDuration)
    } else {
        Ok(marquee(message, config.display_width, elapsed, config.hold_ticks, config.tick_duration_ms))
    }
}

/// Every visible cluster is a whole cluster of the loop buffer: the `i`-th
/// one is the buffer's cluster `window_start + i`, counted round the buffer's
/// end. No window holds part of a cluster.
pub proof fn lemma_window_whole_clusters<A>(clusters: Seq<A>, width: nat, time: nat, hold: nat)
    ensures
        forall|i: int|
            0 <= i < window_at(clusters, width, time, hold).len() ==> clusters.len() > 0
                && #[trigger] window_at(clusters, width, time, hold)[i] == clusters[(window_start(
                clusters.len(),
                time,
                hold,
            ) + i) % (clusters.len() as int)],
{
    let n = clusters.len() as int;
    let p = period(clusters.len(), hold) as int;
    let w = window_at(clusters, width, time, hold);
    if p > 0 {
        let start = window_start(clusters.len(), time, hold) as int;
        assert(0 <= time % (p as nat) < p);
        assert forall|i: int| 0 <= i < w.len() implies n > 0 && #[trigger] w[i] == clusters[(start
            + i) % n] by {
            if start + i < n {
                assert((start + i) % n == start + i) by (nonlinear_arith)
                    requires
                        0 <= start + i < n,
                ;
            } else {
                assert(start + width >= n);
                assert((start + i) % n == start + i - n) by (nonlinear_arith)
                    requires
                        n <= start + i < 2 * n,
                ;
            }
        }
    }
}

/// Whenever the display is no wider than the loop buffer is long, the window
/// holds exactly `width` clusters, in the hold, scroll and wrap phases alike.
pub proof fn lemma_window_width<A>(clusters: Seq<A>, width: nat, time: nat, hold: nat)
    requires
        width <= clusters.len(),
    ensures
        window_at(clusters, width, time, hold).len() == width,
{
    let n = clusters.len() as int;
    let p = period(clusters.len(), hold) as int;
    if p > 0 {
        let tick = (time % (p as nat)) as int;
        assert(0 <= tick < p);
        if tick >= hold {
            let start = tick - hold;
            if start + width >= n {
                assert((start + width) % n == start + width - n) by (nonlinear_arith)
                    requires
                        n <= start + width < 2 * n,
                ;
            }
        }
    }
}

/// The window never holds more than `width` clusters, whatever the length of
/// the loop buffer.
pub proof fn lemma_window_at_most_width<A>(clusters: Seq<A>, width: nat, time: nat, hold: nat)
    ensures
        window_at(clusters, width, time, hold).len() <= width,
{
    let n = clusters.len() as int;
    let p = period(clusters.len(), hold) as int;
    if p > 0 {
        let tick = (time % (p as nat)) as int;
        assert(0 <= tick < p);
        if tick >= hold {
            let start = tick - hold;
            if start + width >= n {
                assert((start + width) % n <= start + width - n) by (nonlinear_arith)
                    requires
                        n <= start + width,
                        n > 0,
                ;
            }
        }
    }
}

/// During the hold phase the window does not move: at every tick below `hold`
/// it is the first `width` clusters of the loop buffer (all of them, where
/// the buffer is shorter).
pub proof fn lemma_hold_phase_flat<A>(clusters: Seq<A>, width: nat, time: nat, hold: nat)
    requires
        time % period(clusters.len(), hold) < hold,
    ensures
        window_at(clusters, width, time, hold) == clusters.take(
            if width <= clusters.len() {
                width as int
            } else {
                clusters.len() as int
            },
        ),
{
}

/// The window repeats after `clusters.len() + hold` ticks.
pub proof fn lemma_window_periodic<A>(clusters: Seq<A>, width: nat, time: nat, hold: nat, k: nat)
    ensures
        window_at(clusters, width, time + k * period(clusters.len(), hold), hold) == window_at(
            clusters,
            width,
            time,
            hold,
        ),
{
    let p = period(clusters.len(), hold) as int;
    if p > 0 {
        lemma_mod_multiples_vanish(k as int, time as int, p);
        assert(p * k + time == time + k * p) by (nonlinear_arith);
    }
}

/// The animation is exactly periodic: the display text at `elapsed_ms` is
/// the display text `k` whole periods later, a period being the loop
/// buffer's cluster count plus the hold, in ticks of `tick_ms` milliseconds.
pub proof fn lemma_marquee_periodic(
    message: Seq<char>,
    width: nat,
    elapsed_ms: nat,
    hold: nat,
    tick_ms: nat,
    k: nat,
)
    requires
        tick_ms > 0,
    ensures
        marquee_text(
            message,
            width,
            elapsed_ms + k * (grapheme_clusters(loop_buffer(message)).len() + hold) * tick_ms,
            hold,
            tick_ms,
        ) == marquee_text(message, width, elapsed_ms, hold, tick_ms),
{
    let clusters = grapheme_clusters(loop_buffer(message));
    let p = period(clusters.len(), hold);
    let later = elapsed_ms + k * p * tick_ms;
    lemma_hoist_over_denominator(elapsed_ms as int, (k * p) as int, tick_ms);
    assert(later / tick_ms == elapsed_ms / tick_ms + k * p);
    lemma_window_periodic(clusters, width, elapsed_ms / tick_ms, hold, k);
}

/// An animated frame is made of whole clusters: for a message of more than
/// `width` clusters whose loop buffer has at least `width`, the display text
/// is exactly `width` clusters of the loop buffer, taken in order from
/// `window_start` on and round the buffer's end, followed by the frame marker.
pub proof fn lemma_animated_frame(
    message: Seq<char>,
    width: nat,
    elapsed_ms: nat,
    hold: nat,
    tick_ms: nat,
)
    requires
        grapheme_clusters(message).len() > width,
        width <= grapheme_clusters(loop_buffer(message)).len(),
    ensures
        ({
            let buffer = grapheme_clusters(loop_buffer(message));
            let time = elapsed_ms / tick_ms;
            let window = window_at(buffer, width, time, hold);
            &&& marquee_text(message, width, elapsed_ms, hold, tick_ms) == concat_all(window)
                + frame_marker()
            &&& window.len() == width
            &&& forall|i: int|
                0 <= i < width ==> #[trigger] window[i] == buffer[(window_start(
                    buffer.len(),
                    time,
                    hold,
                ) + i) % (buffer.len() as int)]
        }),
{
    let buffer = grapheme_clusters(loop_buffer(message));
    lemma_window_width(buffer, width, elapsed_ms / tick_ms, hold);
    lemma_window_whole_clusters(buffer, width, elapsed_ms / tick_ms, hold);
}

/// Rendering keeps no state: two frames rendered from the same message, the
/// same settings and the same position are the same text.
pub proof fn lemma_marquee_repeatable(
    message: Seq<char>,
    width: nat,
    position: Duration,
    hold: nat,
    tick_ms: nat,
    first: Seq<char>,
    second: Seq<char>,
)
    requires
        first == marquee_text(message, width, duration_millis(position) as nat, hold, tick_ms),
        second == marquee_text(message, width, duration_millis(position) as nat, hold, tick_ms),
    ensures
        first == second,
{
}

/// A message that fits the display is shown unchanged, with no marker, at
/// every instant.
pub proof fn lemma_short_message_unchanged(
    message: Seq<char>,
    width: nat,
    elapsed_ms: nat,
    hold: nat,
    tick_ms: nat,
)
    requires
        grapheme_clusters(message).len() <= width,
    ensures
        marquee_text(message, width, elapsed_ms, hold, tick_ms) == message,
{
}

} // verus!
