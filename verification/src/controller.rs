//! State-driven playback control.
//!
//! Window-manager notifications are folded into a table of per-window flags.
//! Two saturating counters aggregate those flags; their derived booleans are
//! the sole inputs from which the transport commands (pause, resume, mute,
//! unmute) are derived.

use vstd::prelude::*;

verus! {

// ─── Per-window flags ────────────────────────────────────────────────────────

/// The raw state set a window-manager notification reports for one window.
#[derive(Clone, Copy, Debug, PartialEq, Eq, Structural)]
pub struct StateFlagSet {
    pub fullscreen: bool,
    pub activated: bool,
    pub maximized: bool,
}

/// The two derived flags tracked per window: they, not the raw set, feed the
/// aggregate counters.
#[derive(Clone, Copy, Debug, PartialEq, Eq, Structural)]
pub struct WindowFlags {
    /// The window is fullscreen and has focus.
    pub fullscreen_active: bool,
    /// The window has focus or is maximized.
    pub active_or_maximized: bool,
}

/// Derive the tracked pair from a raw state set.
pub fn derive_window_flags(f: StateFlagSet) -> (w: WindowFlags)
    ensures
        w.fullscreen_active == (f.fullscreen && f.activated),
        w.active_or_maximized == (f.activated || f.maximized),
{
    WindowFlags {
        fullscreen_active: f.fullscreen && f.activated,
        active_or_maximized: f.activated || f.maximized,
    }
}

// ─── Raw state arrays ────────────────────────────────────────────────────────

/// State words as the window manager encodes them, one per 32-bit little-
/// endian word of the notification's byte array.
pub const STATE_WORD_MAXIMIZED: u32 = 0;
pub const STATE_WORD_MINIMIZED: u32 = 1;
pub const STATE_WORD_ACTIVATED: u32 = 2;
pub const STATE_WORD_FULLSCREEN: u32 = 3;

/// The `i`-th 32-bit little-endian word of `bytes`.
pub open spec fn word_at(bytes: Seq<u8>, i: int) -> u32 {
    (bytes[4 * i] + bytes[4 * i + 1] * 0x100 + bytes[4 * i + 2] * 0x10000 + bytes[4 * i + 3]
        * 0x1000000) as u32
}

/// Whether some complete word of `bytes` equals `word`; a trailing fragment
/// shorter than a word is ignored.
pub open spec fn has_state_word(bytes: Seq<u8>, word: u32) -> bool {
    exists|i: int| 0 <= i < bytes.len() / 4 && word_at(bytes, i) == word
}

/// Decode a state notification's byte array into the three flags of
/// interest.  Each flag reports whether its word occurs anywhere in the
/// array.
pub fn parse_state_flags(raw: &Vec<u8>) -> (f: StateFlagSet)
    ensures
        f.fullscreen == has_state_word(raw@, STATE_WORD_FULLSCREEN),
        f.activated == has_state_word(raw@, STATE_WORD_ACTIVATED),
        f.maximized == has_state_word(raw@, STATE_WORD_MAXIMIZED),
{
    let n: usize = raw.len();
    let words: usize = n / 4;
    let mut fullscreen = false;
    let mut activated = false;
    let mut maximized = false;
    let mut k: usize = 0;
    while k < words
        invariant
            k <= words,
            n == raw@.len(),
            words == n / 4,
            fullscreen == exists|i: int| 0 <= i < k && word_at(raw@, i) == STATE_WORD_FULLSCREEN,
            activated == exists|i: int| 0 <= i < k && word_at(raw@, i) == STATE_WORD_ACTIVATED,
            maximized == exists|i: int| 0 <= i < k && word_at(raw@, i) == STATE_WORD_MAXIMIZED,
        decreases words - k,
    {
        let b0: u8 = raw[4 * k];
        let b1: u8 = raw[4 * k + 1];
        let b2: u8 = raw[4 * k + 2];
        let b3: u8 = raw[4 * k + 3];
        let w: u32 = b0 as u32 + (b1 as u32) * 0x100 + (b2 as u32) * 0x10000 + (b3 as u32)
            * 0x1000000;
        proof {
            assert(w == word_at(raw@, k as int));
        }
        if w == STATE_WORD_FULLSCREEN {
            fullscreen = true;
        }
        if w == STATE_WORD_ACTIVATED {
            activated = true;
        }
        if w == STATE_WORD_MAXIMIZED {
            maximized = true;
        }
        k = k + 1;
        proof {
            assert(fullscreen == exists|i: int|
                0 <= i < k && word_at(raw@, i) == STATE_WORD_FULLSCREEN) by {
                if fullscreen {
                    if word_at(raw@, k - 1) != STATE_WORD_FULLSCREEN {
                        let i = choose|i: int|
                            0 <= i < k - 1 && word_at(raw@, i) == STATE_WORD_FULLSCREEN;
                        assert(0 <= i < k && word_at(raw@, i) == STATE_WORD_FULLSCREEN);
                    }
                }
            }
            assert(activated == exists|i: int|
                0 <= i < k && word_at(raw@, i) == STATE_WORD_ACTIVATED) by {
                if activated {
                    if word_at(raw@, k - 1) != STATE_WORD_ACTIVATED {
                        let i = choose|i: int|
                            0 <= i < k - 1 && word_at(raw@, i) == STATE_WORD_ACTIVATED;
                        assert(0 <= i < k && word_at(raw@, i) == STATE_WORD_ACTIVATED);
                    }
                }
            }
            assert(maximized == exists|i: int|
                0 <= i < k && word_at(raw@, i) == STATE_WORD_MAXIMIZED) by {
                if maximized {
                    if word_at(raw@, k - 1) != STATE_WORD_MAXIMIZED {
                        let i = choose|i: int|
                            0 <= i < k - 1 && word_at(raw@, i) == STATE_WORD_MAXIMIZED;
                        assert(0 <= i < k && word_at(raw@, i) == STATE_WORD_MAXIMIZED);
                    }
                }
            }
        }
    }
    StateFlagSet { fullscreen, activated, maximized }
}

// ─── Counting theory over boolean sequences ──────────────────────────────────

/// How many entries of `s` are `true`.
pub open spec fn count_true(s: Seq<bool>) -> nat
    decreases s.len(),
{
    if s.len() == 0 {
        0
    } else {
        count_true(s.drop_last()) + (if s.last() {
            1nat
        } else {
            0nat
        })
    }
}

/// One where the flag is set, zero where it is not.
pub open spec fn bool_weight(b: bool) -> nat {
    if b {
        1nat
    } else {
        0nat
    }
}

/// The count of set flags never exceeds the number of tracked windows.
pub proof fn lemma_count_true_le_len(s: Seq<bool>)
    ensures
        count_true(s) <= s.len(),
    decreases s.len(),
{
    if s.len() > 0 {
        lemma_count_true_le_len(s.drop_last());
    }
}

pub proof fn lemma_count_true_push(s: Seq<bool>, b: bool)
    ensures
        count_true(s.push(b)) == count_true(s) + bool_weight(b),
{
    assert(s.push(b).drop_last() =~= s);
}

pub proof fn lemma_count_true_update(s: Seq<bool>, i: int, b: bool)
    requires
        0 <= i < s.len(),
    ensures
        count_true(s.update(i, b)) + bool_weight(s[i]) == count_true(s) + bool_weight(b),
    decreases s.len(),
{
    let su = s.update(i, b);
    if i == s.len() - 1 {
        assert(su.drop_last() =~= s.drop_last());
        assert(su.last() == b);
    } else {
        assert(su.drop_last() =~= s.drop_last().update(i, b));
        assert(su.last() == s.last());
        lemma_count_true_update(s.drop_last(), i, b);
    }
}

pub proof fn lemma_count_true_remove(s: Seq<bool>, i: int)
    requires
        0 <= i < s.len(),
    ensures
        count_true(s.remove(i)) + bool_weight(s[i]) == count_true(s),
    decreases s.len(),
{
    let sr = s.remove(i);
    if i == s.len() - 1 {
        assert(sr =~= s.drop_last());
    } else {
        assert(sr.drop_last() =~= s.drop_last().remove(i));
        assert(sr.last() == s.last());
        lemma_count_true_remove(s.drop_last(), i);
    }
}

/// The count is zero exactly when no entry is set: the counter's derived
/// boolean agrees with an existential over the entries.
pub proof fn lemma_count_true_zero(s: Seq<bool>)
    ensures
        (count_true(s) == 0) <==> (forall|i: int| 0 <= i < s.len() ==> !s[i]),
    decreases s.len(),
{
    if s.len() > 0 {
        lemma_count_true_zero(s.drop_last());
        assert(forall|i: int| 0 <= i < s.len() - 1 ==> s[i] == s.drop_last()[i]);
        if !s.last() && (forall|i: int| 0 <= i < s.len() - 1 ==> !s.drop_last()[i]) {
            assert forall|i: int| 0 <= i < s.len() implies !s[i] by {
                if i < s.len() - 1 {
                    assert(!s.drop_last()[i]);
                }
            }
        }
    }
}

// ─── Window tracker ──────────────────────────────────────────────────────────

/// Projection of the table onto its "fullscreen and focused" flags.
pub open spec fn fullscreen_flags(s: Seq<(u64, WindowFlags)>) -> Seq<bool> {
    s.map_values(|p: (u64, WindowFlags)| p.1.fullscreen_active)
}

/// Projection of the table onto its "focused or maximized" flags.
pub open spec fn active_flags(s: Seq<(u64, WindowFlags)>) -> Seq<bool> {
    s.map_values(|p: (u64, WindowFlags)| p.1.active_or_maximized)
}

/// No window handle occurs twice in the table.
pub open spec fn unique_keys(s: Seq<(u64, WindowFlags)>) -> bool {
    forall|i: int, j: int| 0 <= i < j < s.len() ==> s[i].0 != s[j].0
}

pub open spec fn has_key(s: Seq<(u64, WindowFlags)>, id: u64) -> bool {
    exists|i: int| 0 <= i < s.len() && s[i].0 == id
}

/// The index at which `id` is stored, where it is stored at all.
pub open spec fn index_of_key(s: Seq<(u64, WindowFlags)>, id: u64) -> int {
    choose|i: int| 0 <= i < s.len() && s[i].0 == id
}

/// A key stored at position `i` of a table without duplicate keys is found
/// there and nowhere else.
pub proof fn lemma_index_of_key(s: Seq<(u64, WindowFlags)>, id: u64, i: int)
    requires
        unique_keys(s),
        0 <= i < s.len(),
        s[i].0 == id,
    ensures
        has_key(s, id),
        index_of_key(s, id) == i,
{
    assert(has_key(s, id)) by {
        assert(0 <= i < s.len() && s[i].0 == id);
    }
    let w = index_of_key(s, id);
    assert(0 <= w < s.len() && s[w].0 == id);
    if w < i {
        assert(s[w].0 != s[i].0);
    }
    if i < w {
        assert(s[i].0 != s[w].0);
    }
}

/// One entry per tracked window, plus the two aggregate counters.
///
/// The counters are kept equal to the number of tracked windows holding the
/// corresponding flag; each decrement is additionally guarded so the counter
/// saturates at zero rather than wrapping, whatever the caller does.
pub struct WindowTracker {
    pub entries: Vec<(u64, WindowFlags)>,
    pub fullscreen_count: usize,
    pub active_count: usize,
}

impl WindowTracker {
    /// Counters agree with the table, and no handle is tracked twice.
    pub open spec fn wf(self) -> bool {
        &&& unique_keys(self.entries@)
        &&& self.fullscreen_count == count_true(fullscreen_flags(self.entries@))
        &&& self.active_count == count_true(active_flags(self.entries@))
    }

    /// Whether any tracked window is fullscreen with focus.
    pub open spec fn spec_any_fullscreen_active(self) -> bool {
        count_true(fullscreen_flags(self.entries@)) > 0
    }

    /// Whether any tracked window has focus or is maximized.
    pub open spec fn spec_any_active_or_maximized(self) -> bool {
        count_true(active_flags(self.entries@)) > 0
    }

    pub fn new() -> (t: WindowTracker)
        ensures
            t.wf(),
            t.entries@ == Seq::<(u64, WindowFlags)>::empty(),
            !t.spec_any_fullscreen_active(),
            !t.spec_any_active_or_maximized(),
    {
        let t = WindowTracker { entries: Vec::new(), fullscreen_count: 0, active_count: 0 };
        proof {
            assert(fullscreen_flags(t.entries@) =~= Seq::<bool>::empty());
            assert(active_flags(t.entries@) =~= Seq::<bool>::empty());
        }
        t
    }

    /// Derived boolean of the fullscreen counter.
    pub fn any_fullscreen_active(&self) -> (r: bool)
        requires
            self.wf(),
        ensures
            r == self.spec_any_fullscreen_active(),
    {
        self.fullscreen_count > 0
    }

    /// Derived boolean of the focused-or-maximized counter.
    pub fn any_active_or_maximized(&self) -> (r: bool)
        requires
            self.wf(),
        ensures
            r == self.spec_any_active_or_maximized(),
    {
        self.active_count > 0
    }

    fn find(&self, id: u64) -> (r: Option<usize>)
        ensures
            match r {
                Some(i) => i < self.entries@.len() && self.entries@[i as int].0 == id,
                None => !has_key(self.entries@, id),
            },
    {
        let n: usize = self.entries.len();
        let mut k: usize = 0;
        while k < n
            invariant
                k <= n,
                n == self.entries@.len(),
                forall|j: int| 0 <= j < k ==> self.entries@[j].0 != id,
            decreases n - k,
        {
            if self.entries[k].0 == id {
                return Some(k);
            }
            k = k + 1;
        }
        None
    }

    /// Begin tracking a newly reported window with no flags set.  A handle
    /// already tracked is left untouched.
    pub fn open_window(&mut self, id: u64)
        requires
            old(self).wf(),
        ensures
            final(self).wf(),
            has_key(old(self).entries@, id) ==> final(self).entries@ == old(self).entries@,
            !has_key(old(self).entries@, id) ==> final(self).entries@ == old(self).entries@.push(
                (id, WindowFlags { fullscreen_active: false, active_or_maximized: false }),
            ),
            final(self).fullscreen_count == old(self).fullscreen_count,
            final(self).active_count == old(self).active_count,
    {
        if self.find(id).is_none() {
            let flags = WindowFlags { fullscreen_active: false, active_or_maximized: false };
            let ghost pre = self.entries@;
            self.entries.push((id, flags));
            proof {
                assert(fullscreen_flags(self.entries@) =~= fullscreen_flags(pre).push(false));
                assert(active_flags(self.entries@) =~= active_flags(pre).push(false));
                lemma_count_true_push(fullscreen_flags(pre), false);
                lemma_count_true_push(active_flags(pre), false);
            }
        }
    }

    /// Record a state notification for `id`: store the new flags and move the
    /// counters by the edges between the previous flags (none, for a window
    /// not yet tracked) and the new ones.
    pub fn update_window(&mut self, id: u64, flags: WindowFlags)
        requires
            old(self).wf(),
        ensures
            final(self).wf(),
            has_key(old(self).entries@, id) ==> final(self).entries@ == old(self).entries@.update(
                index_of_key(old(self).entries@, id),
                (id, flags),
            ),
            !has_key(old(self).entries@, id) ==> final(self).entries@ == old(self).entries@.push(
                (id, flags),
            ),
    {
        let found = self.find(id);
        match found {
            Some(i) => {
                let was = self.entries[i].1;
                let ghost pre = self.entries@;
                self.entries[i] = (id, flags);
                proof {
                    lemma_index_of_key(pre, id, i as int);
                    assert(fullscreen_flags(self.entries@) =~= fullscreen_flags(pre).update(
                        i as int,
                        flags.fullscreen_active,
                    ));
                    assert(active_flags(self.entries@) =~= active_flags(pre).update(
                        i as int,
                        flags.active_or_maximized,
                    ));
                    lemma_count_true_update(fullscreen_flags(pre), i as int, flags.fullscreen_active);
                    lemma_count_true_update(active_flags(pre), i as int, flags.active_or_maximized);
                    lemma_count_true_le_len(fullscreen_flags(self.entries@));
                    lemma_count_true_le_len(active_flags(self.entries@));
                }
                let n: usize = self.entries.len();
                proof {
                    assert(fullscreen_flags(self.entries@).len() == n as int);
                    assert(active_flags(self.entries@).len() == n as int);
                }
                if flags.fullscreen_active && !was.fullscreen_active {
                    self.fullscreen_count = self.fullscreen_count + 1;
                } else if !flags.fullscreen_active && was.fullscreen_active && self.fullscreen_count
                    > 0 {
                    self.fullscreen_count = self.fullscreen_count - 1;
                }
                if flags.active_or_maximized && !was.active_or_maximized {
                    self.active_count = self.active_count + 1;
                } else if !flags.active_or_maximized && was.active_or_maximized && self.active_count
                    > 0 {
                    self.active_count = self.active_count - 1;
                }
            },
            None => {
                let ghost pre = self.entries@;
                self.entries.push((id, flags));
                proof {
                    assert(fullscreen_flags(self.entries@) =~= fullscreen_flags(pre).push(
                        flags.fullscreen_active,
                    ));
                    assert(active_flags(self.entries@) =~= active_flags(pre).push(
                        flags.active_or_maximized,
                    ));
                    lemma_count_true_push(fullscreen_flags(pre), flags.fullscreen_active);
                    lemma_count_true_push(active_flags(pre), flags.active_or_maximized);
                    lemma_count_true_le_len(fullscreen_flags(self.entries@));
                    lemma_count_true_le_len(active_flags(self.entries@));
                }
                let n: usize = self.entries.len();
                proof {
                    assert(fullscreen_flags(self.entries@).len() == n as int);
                    assert(active_flags(self.entries@).len() == n as int);
                }
                if flags.fullscreen_active {
                    self.fullscreen_count = self.fullscreen_count + 1;
                }
                if flags.active_or_maximized {
                    self.active_count = self.active_count + 1;
                }
            },
        }
    }

    /// Stop tracking `id`, retiring whichever flags it still held exactly
    /// once.  A close for an unknown handle changes nothing, so a stray or
    /// repeated close can never drive a counter below zero.
    pub fn close_window(&mut self, id: u64)
        requires
            old(self).wf(),
        ensures
            final(self).wf(),
            has_key(old(self).entries@, id) ==> final(self).entries@ == old(self).entries@.remove(
                index_of_key(old(self).entries@, id),
            ),
            !has_key(old(self).entries@, id) ==> final(self).entries@ == old(self).entries@,
    {
        let found = self.find(id);
        match found {
            Some(i) => {
                let ghost pre = self.entries@;
                let removed = self.entries.remove(i);
                proof {
                    lemma_index_of_key(pre, id, i as int);
                    assert(fullscreen_flags(self.entries@) =~= fullscreen_flags(pre).remove(
                        i as int,
                    ));
                    assert(active_flags(self.entries@) =~= active_flags(pre).remove(i as int));
                    lemma_count_true_remove(fullscreen_flags(pre), i as int);
                    lemma_count_true_remove(active_flags(pre), i as int);
                }
                if removed.1.fullscreen_active && self.fullscreen_count > 0 {
                    self.fullscreen_count = self.fullscreen_count - 1;
                }
                if removed.1.active_or_maximized && self.active_count > 0 {
                    self.active_count = self.active_count - 1;
                }
            },
            None => {},
        }
    }
}

/// The aggregate "any window fullscreen-active" reading is exactly "some
/// tracked window holds both the fullscreen and the focus flag", however the
/// tracker was driven there; and the counter behind it is a count, so it can
/// never be negative.
pub proof fn lemma_fullscreen_aggregate(t: WindowTracker)
    requires
        t.wf(),
    ensures
        t.spec_any_fullscreen_active() <==> exists|i: int|
            0 <= i < t.entries@.len() && t.entries@[i].1.fullscreen_active,
        t.fullscreen_count == count_true(fullscreen_flags(t.entries@)),
{
    let fs = fullscreen_flags(t.entries@);
    lemma_count_true_zero(fs);
    assert(fs.len() == t.entries@.len());
    assert(forall|i: int| 0 <= i < t.entries@.len() ==> fs[i] == t.entries@[i].1.fullscreen_active);
    if exists|i: int| 0 <= i < t.entries@.len() && t.entries@[i].1.fullscreen_active {
        let i = choose|i: int| 0 <= i < t.entries@.len() && t.entries@[i].1.fullscreen_active;
        assert(fs[i]);
    }
}

// ─── Playback state and transport commands ───────────────────────────────────

/// Which of the controller's behaviours are switched on.
#[derive(Clone, Copy, Debug, PartialEq, Eq, Structural)]
pub struct ControllerConfig {
    /// Pause while any window is fullscreen with focus (on by default).
    pub pause_on_fullscreen: bool,
    /// Pause while any window has focus or is maximized (off by default).
    pub pause_on_window: bool,
    /// Mute while any window has focus or is maximized (off by default).
    pub mute_on_window: bool,
    /// Whether audio playback was requested at all.
    pub audio_enabled: bool,
}

/// The three independently tracked playback flags.  Their cross-product is
/// the controller's state space; there is no separate state enum.
#[derive(Clone, Copy, Debug, PartialEq, Eq, Structural)]
pub struct PlaybackState {
    pub paused_for_fullscreen: bool,
    pub paused_for_window: bool,
    pub muted_for_window: bool,
}

/// Whether at least one pause source is active.
pub open spec fn pause_active(s: PlaybackState) -> bool {
    s.paused_for_fullscreen || s.paused_for_window
}

/// A transport command for the decode graph.  Each is idempotent there, so a
/// redundant command would be harmless, but none is ever derived redundantly.
#[derive(Clone, Copy, Debug, PartialEq, Eq, Structural)]
pub enum TransportCommand {
    Pause,
    Resume,
    Mute,
    Unmute,
}

/// The playback flags that follow from the configuration and the two
/// aggregate booleans.
pub open spec fn spec_desired_state(
    config: ControllerConfig,
    any_fullscreen: bool,
    any_active: bool,
) -> PlaybackState {
    PlaybackState {
        paused_for_fullscreen: config.pause_on_fullscreen && any_fullscreen,
        paused_for_window: config.pause_on_window && any_active,
        muted_for_window: config.mute_on_window && config.audio_enabled && any_active,
    }
}

pub fn desired_state(config: ControllerConfig, any_fullscreen: bool, any_active: bool) -> (s:
    PlaybackState)
    ensures
        s == spec_desired_state(config, any_fullscreen, any_active),
{
    PlaybackState {
        paused_for_fullscreen: config.pause_on_fullscreen && any_fullscreen,
        paused_for_window: config.pause_on_window && any_active,
        muted_for_window: config.mute_on_window && config.audio_enabled && any_active,
    }
}

/// The commands owed for one state change: a pause edge or a resume edge on
/// the joint pause condition, then a mute edge, each at most once.
pub open spec fn spec_commands(prev: PlaybackState, next: PlaybackState) -> Seq<TransportCommand> {
    let pause_part: Seq<TransportCommand> = if pause_active(next) && !pause_active(prev) {
        seq![TransportCommand::Pause]
    } else if !pause_active(next) && pause_active(prev) {
        seq![TransportCommand::Resume]
    } else {
        seq![]
    };
    let mute_part: Seq<TransportCommand> = if next.muted_for_window && !prev.muted_for_window {
        seq![TransportCommand::Mute]
    } else if !next.muted_for_window && prev.muted_for_window {
        seq![TransportCommand::Unmute]
    } else {
        seq![]
    };
    pause_part + mute_part
}

/// Compare the previous and the new playback flags and emit the owed
/// commands.
pub fn derive_commands(prev: PlaybackState, next: PlaybackState) -> (cmds: Vec<TransportCommand>)
    ensures
        cmds@ == spec_commands(prev, next),
{
    let mut cmds: Vec<TransportCommand> = Vec::new();
    if (next.paused_for_fullscreen || next.paused_for_window) && !(prev.paused_for_fullscreen
        || prev.paused_for_window) {
        cmds.push(TransportCommand::Pause);
    } else if !(next.paused_for_fullscreen || next.paused_for_window) && (prev.paused_for_fullscreen
        || prev.paused_for_window) {
        cmds.push(TransportCommand::Resume);
    }
    if next.muted_for_window && !prev.muted_for_window {
        cmds.push(TransportCommand::Mute);
    } else if !next.muted_for_window && prev.muted_for_window {
        cmds.push(TransportCommand::Unmute);
    }
    proof {
        assert(cmds@ =~= spec_commands(prev, next));
    }
    cmds
}

/// A resume is derived exactly on the edge from "at least one pause source
/// active" to "none active".  In particular, clearing one pause source while
/// the other still holds derives no resume.
pub proof fn lemma_resume_iff(prev: PlaybackState, next: PlaybackState)
    ensures
        spec_commands(prev, next).contains(TransportCommand::Resume) <==> (pause_active(prev)
            && !pause_active(next)),
{
    let cmds = spec_commands(prev, next);
    if pause_active(prev) && !pause_active(next) {
        assert(cmds[0] == TransportCommand::Resume);
    }
    if cmds.contains(TransportCommand::Resume) {
        let i = choose|i: int| 0 <= i < cmds.len() && cmds[i] == TransportCommand::Resume;
        assert(pause_active(prev) && !pause_active(next));
    }
}

/// A pause is derived exactly on the opposite edge: from "no pause source
/// active" to "at least one active".
pub proof fn lemma_pause_iff(prev: PlaybackState, next: PlaybackState)
    ensures
        spec_commands(prev, next).contains(TransportCommand::Pause) <==> (!pause_active(prev)
            && pause_active(next)),
{
    let cmds = spec_commands(prev, next);
    if !pause_active(prev) && pause_active(next) {
        assert(cmds[0] == TransportCommand::Pause);
    }
    if cmds.contains(TransportCommand::Pause) {
        let i = choose|i: int| 0 <= i < cmds.len() && cmds[i] == TransportCommand::Pause;
        assert(!pause_active(prev) && pause_active(next));
    }
}

// ─── The controller ──────────────────────────────────────────────────────────

/// One notification from the window manager, reduced to plain values.
#[derive(Clone, Copy, Debug, PartialEq, Eq, Structural)]
pub enum WindowNotification {
    /// A window came into existence; no flags are set yet.
    Opened { id: u64 },
    /// A window reported its current state set.
    StateChanged { id: u64, flags: StateFlagSet },
    /// A window went away; its last-known flags are retired.
    Closed { id: u64 },
}

/// Aggregates the per-window flags and turns each change of the derived
/// playback flags into transport commands.
pub struct PlaybackController {
    pub config: ControllerConfig,
    pub tracker: WindowTracker,
    pub state: PlaybackState,
}

impl PlaybackController {
    /// The stored playback flags always follow the tracker's aggregates.
    pub open spec fn wf(self) -> bool {
        &&& self.tracker.wf()
        &&& self.state == spec_desired_state(
            self.config,
            self.tracker.spec_any_fullscreen_active(),
            self.tracker.spec_any_active_or_maximized(),
        )
    }

    pub fn new(config: ControllerConfig) -> (c: PlaybackController)
        ensures
            c.wf(),
            c.config == config,
            c.tracker.entries@ == Seq::<(u64, WindowFlags)>::empty(),
            !pause_active(c.state),
            !c.state.muted_for_window,
    {
        let tracker = WindowTracker::new();
        let state = desired_state(config, false, false);
        PlaybackController { config, tracker, state }
    }

    /// Fold one notification into the tracker, refresh the playback flags,
    /// and return the commands owed for the change.
    pub fn handle_notification(&mut self, n: WindowNotification) -> (cmds: Vec<TransportCommand>)
        requires
            old(self).wf(),
        ensures
            final(self).wf(),
            final(self).config == old(self).config,
            final(self).state == spec_desired_state(
                old(self).config,
                final(self).tracker.spec_any_fullscreen_active(),
                final(self).tracker.spec_any_active_or_maximized(),
            ),
            cmds@ == spec_commands(old(self).state, final(self).state),
            match n {
                WindowNotification::Opened { id } => final(self).tracker.entries@
                    == spec_track_open(old(self).tracker.entries@, id),
                WindowNotification::StateChanged { id, flags } => final(self).tracker.entries@
                    == spec_track_update(
                    old(self).tracker.entries@,
                    id,
                    WindowFlags {
                        fullscreen_active: flags.fullscreen && flags.activated,
                        active_or_maximized: flags.activated || flags.maximized,
                    },
                ),
                WindowNotification::Closed { id } => final(self).tracker.entries@
                    == spec_track_close(old(self).tracker.entries@, id),
            },
    {
        match n {
            WindowNotification::Opened { id } => {
                self.tracker.open_window(id);
            },
            WindowNotification::StateChanged { id, flags } => {
                let w = derive_window_flags(flags);
                self.tracker.update_window(id, w);
            },
            WindowNotification::Closed { id } => {
                self.tracker.close_window(id);
            },
        }
        let any_fullscreen = self.tracker.any_fullscreen_active();
        let any_active = self.tracker.any_active_or_maximized();
        let next = desired_state(self.config, any_fullscreen, any_active);
        let cmds = derive_commands(self.state, next);
        self.state = next;
        cmds
    }
}

/// The table after an open notification for `id`.
pub open spec fn spec_track_open(s: Seq<(u64, WindowFlags)>, id: u64) -> Seq<(u64, WindowFlags)> {
    if has_key(s, id) {
        s
    } else {
        s.push((id, WindowFlags { fullscreen_active: false, active_or_maximized: false }))
    }
}

/// The table after a state notification for `id` with derived flags `w`.
pub open spec fn spec_track_update(s: Seq<(u64, WindowFlags)>, id: u64, w: WindowFlags) -> Seq<
    (u64, WindowFlags),
> {
    if has_key(s, id) {
        s.update(index_of_key(s, id), (id, w))
    } else {
        s.push((id, w))
    }
}

/// The table after a close notification for `id`.
pub open spec fn spec_track_close(s: Seq<(u64, WindowFlags)>, id: u64) -> Seq<(u64, WindowFlags)> {
    if has_key(s, id) {
        s.remove(index_of_key(s, id))
    } else {
        s
    }
}

/// In every state the controller can reach, each playback flag mirrors its
/// aggregate boolean under its enabling options: fullscreen-pause follows
/// "any window fullscreen-active" unless disabled, window-pause and
/// window-mute follow "any window focused-or-maximized" only when enabled
/// (and, for mute, only with audio on).
pub proof fn lemma_flags_mirror_aggregates(c: PlaybackController)
    requires
        c.wf(),
    ensures
        c.state.paused_for_fullscreen == (c.config.pause_on_fullscreen
            && c.tracker.spec_any_fullscreen_active()),
        c.state.paused_for_window == (c.config.pause_on_window
            && c.tracker.spec_any_active_or_maximized()),
        c.state.muted_for_window == (c.config.mute_on_window && c.config.audio_enabled
            && c.tracker.spec_any_active_or_maximized()),
{
}

} // verus!
