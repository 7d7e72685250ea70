//! Mixer control state: the ordered channel registry, per-channel volume and
//! play state, the selection cursor, and the session-wide master pause.
//!
//! A channel's stored volume level is the single source of truth: a level of
//! zero means the channel is muted and paused; a nonzero level means it plays
//! at gain `level / granularity` — unless the master pause is engaged, which
//! keeps every channel paused without touching the stored levels. The mixer
//! itself never talks to an audio device; each mutation returns directives
//! that tell the playback layer which control calls to issue.

use vstd::prelude::*;
use vstd::string::StrSliceExecFns;

use crate::cursor;

verus! {

/// One audio source: its display label, its discrete volume level, and the
/// play state its playback handle is expected to be in.
pub struct Channel {
    pub label: String,
    pub volume: u8,
    pub playing: bool,
}

/// The whole mixer state for one session.
pub struct Mixer {
    pub channels: Vec<Channel>,
    pub granularity: u8,
    pub selected: usize,
    pub master_paused: bool,
    pub longest_label: usize,
}

/// Length of the longest label among `s`, in characters; zero when empty.
pub open spec fn spec_max_label_len(s: Seq<Channel>) -> int
    decreases s.len(),
{
    if s.len() == 0 {
        0
    } else {
        let rest = spec_max_label_len(s.drop_last());
        let last = s.last().label@.len() as int;
        if last > rest {
            last
        } else {
            rest
        }
    }
}

/// `level + delta` saturated into `[0, granularity]`.
pub open spec fn spec_clamp(level: int, delta: int, granularity: int) -> int {
    if level + delta <= 0 {
        0
    } else if level + delta >= granularity {
        granularity
    } else {
        level + delta
    }
}

/// A control call the playback layer must issue to one channel's handle.
#[derive(Clone, Copy, Debug, PartialEq, Eq, Structural)]
pub enum Directive {
    /// Issue nothing.
    Stay,
    /// Pause the handle.
    Pause,
    /// Resume the handle at its already-stored gain.
    Play,
    /// Set the gain to `level / granularity` but leave the handle paused
    /// (the master pause is engaged).
    SetGain { level: u8 },
    /// Set the gain to `level / granularity`, then resume the handle.
    SetGainThenPlay { level: u8 },
}

/// What the playback layer is told after one channel's volume settles at
/// `level`: pause at zero; otherwise update the gain, resuming only when the
/// master pause is not engaged.
pub open spec fn spec_volume_directive(level: int, master_paused: bool) -> Directive {
    if level == 0 {
        Directive::Pause
    } else if master_paused {
        Directive::SetGain { level: level as u8 }
    } else {
        Directive::SetGainThenPlay { level: level as u8 }
    }
}

/// What the playback layer is told for a channel at `level` when the master
/// pause lands in state `master_paused`: engaging pauses everything;
/// releasing resumes exactly the channels with a nonzero level.
pub open spec fn spec_toggle_directive(level: int, master_paused: bool) -> Directive {
    if master_paused {
        Directive::Pause
    } else if level != 0 {
        Directive::Play
    } else {
        Directive::Stay
    }
}

/// Two registries whose channels carry the same labels, position by position.
proof fn lemma_max_label_len_same_labels(s: Seq<Channel>, t: Seq<Channel>)
    requires
        s.len() == t.len(),
        forall|i: int| 0 <= i < s.len() ==> s[i].label == t[i].label,
    ensures
        spec_max_label_len(s) == spec_max_label_len(t),
    decreases s.len(),
{
    if s.len() > 0 {
        assert forall|i: int| 0 <= i < s.drop_last().len() implies s.drop_last()[i].label
            == t.drop_last()[i].label by {
            assert(s[i].label == t[i].label);
        }
        lemma_max_label_len_same_labels(s.drop_last(), t.drop_last());
        assert(s.last().label == t.last().label);
    }
}

/// Only the selection moved: `delta` steps around the ring of channels.
pub open spec fn select_rel(pre: Mixer, post: Mixer, delta: int) -> bool {
    &&& post.channels@ == pre.channels@
    &&& post.granularity == pre.granularity
    &&& post.master_paused == pre.master_paused
    &&& post.longest_label == pre.longest_label
    &&& post.selected == cursor::spec_cycle(pre.selected as int, delta, pre.spec_len())
}

/// Channel `index` moved to the clamped level and the matching play state;
/// everything else is unchanged.
pub open spec fn adjust_rel(pre: Mixer, post: Mixer, index: int, delta: int) -> bool {
    let new_level = spec_clamp(
        pre.channels@[index].volume as int,
        delta,
        pre.granularity as int,
    );
    &&& post.channels@.len() == pre.channels@.len()
    &&& post.channels@[index].label == pre.channels@[index].label
    &&& post.channels@[index].volume == new_level
    &&& post.channels@[index].playing == (new_level > 0 && !pre.master_paused)
    &&& forall|j: int|
        0 <= j < pre.channels@.len() && j != index ==> post.channels@[j] == pre.channels@[j]
    &&& post.granularity == pre.granularity
    &&& post.selected == pre.selected
    &&& post.master_paused == pre.master_paused
    &&& post.longest_label == pre.longest_label
}

/// Every channel moved to its clamped level and matching play state; the
/// selection and the master pause are untouched.
pub open spec fn adjust_all_rel(pre: Mixer, post: Mixer, delta: int) -> bool {
    &&& post.channels@.len() == pre.channels@.len()
    &&& forall|i: int|
        #![trigger post.channels@[i]]
        0 <= i < pre.channels@.len() ==> {
            let new_level = spec_clamp(
                pre.channels@[i].volume as int,
                delta,
                pre.granularity as int,
            );
            &&& post.channels@[i].label == pre.channels@[i].label
            &&& post.channels@[i].volume == new_level
            &&& post.channels@[i].playing == (new_level > 0 && !pre.master_paused)
        }
    &&& post.granularity == pre.granularity
    &&& post.selected == pre.selected
    &&& post.master_paused == pre.master_paused
    &&& post.longest_label == pre.longest_label
}

/// The master pause flipped: stored volumes are untouched, and every play
/// state follows its volume under the new master pause.
pub open spec fn toggle_rel(pre: Mixer, post: Mixer) -> bool {
    &&& post.master_paused == !pre.master_paused
    &&& post.channels@.len() == pre.channels@.len()
    &&& forall|i: int|
        0 <= i < pre.channels@.len() ==> {
            &&& post.channels@[i].label == pre.channels@[i].label
            &&& post.channels@[i].volume == pre.channels@[i].volume
            &&& post.channels@[i].playing == (pre.channels@[i].volume > 0
                && !post.master_paused)
        }
    &&& post.granularity == pre.granularity
    &&& post.selected == pre.selected
    &&& post.longest_label == pre.longest_label
}

impl Mixer {
    /// Number of channels in the registry.
    pub open spec fn spec_len(self) -> int {
        self.channels@.len() as int
    }

    /// Channel `i` is consistent with the session: its level is within the
    /// granularity and its play state follows its level and the master pause.
    pub open spec fn channel_wf(self, i: int) -> bool {
        &&& self.channels@[i].volume <= self.granularity
        &&& self.channels@[i].playing == (self.channels@[i].volume > 0 && !self.master_paused)
    }

    /// Well-formedness of the whole mixer state.
    pub open spec fn wf(self) -> bool {
        &&& 1 <= self.granularity
        &&& forall|i: int| 0 <= i < self.spec_len() ==> self.channel_wf(i)
        &&& self.spec_len() == 0 ==> self.selected == 0
        &&& self.spec_len() > 0 ==> self.selected < self.spec_len()
        &&& self.longest_label == spec_max_label_len(self.channels@)
    }

    /// A fresh mixer with no channels, nothing selected, master pause off.
    pub fn new(granularity: u8) -> (m: Mixer)
        requires
            1 <= granularity,
        ensures
            m.wf(),
            m.spec_len() == 0,
            m.granularity == granularity,
            m.selected == 0,
            !m.master_paused,
            m.longest_label == 0,
    {
        let m = Mixer {
            channels: Vec::new(),
            granularity,
            selected: 0,
            master_paused: false,
            longest_label: 0,
        };
        proof {
            assert(m.channels@ =~= Seq::<Channel>::empty());
        }
        m
    }

    /// Append a channel at `initial_volume`. Its play state starts paused at
    /// level zero and playing otherwise, unless the master pause is engaged.
    pub fn add(&mut self, label: String, initial_volume: u8)
        requires
            old(self).wf(),
            initial_volume <= old(self).granularity,
        ensures
            final(self).wf(),
            final(self).channels@ == old(self).channels@.push(
                (Channel {
                    label: label,
                    volume: initial_volume,
                    playing: initial_volume > 0 && !old(self).master_paused,
                }),
            ),
            final(self).granularity == old(self).granularity,
            final(self).selected == old(self).selected,
            final(self).master_paused == old(self).master_paused,
            final(self).longest_label == (if label@.len() > old(self).longest_label {
                label@.len() as int
            } else {
                old(self).longest_label as int
            }),
    {
        let label_len = label.as_str().unicode_len();
        if label_len > self.longest_label {
            self.longest_label = label_len;
        }
        let playing = initial_volume > 0 && !self.master_paused;
        let channel = Channel { label, volume: initial_volume, playing };
        let ghost pushed = channel;
        self.channels.push(channel);
        proof {
            let s = old(self).channels@;
            let t = self.channels@;
            assert(t.drop_last() =~= s);
            assert(spec_max_label_len(t) == self.longest_label);
            assert forall|i: int| 0 <= i < t.len() implies self.channel_wf(i) by {
                if i < s.len() {
                    assert(old(self).channel_wf(i));
                    assert(t[i] == s[i]);
                } else {
                    assert(t[i] == pushed);
                }
            }
        }
    }

    /// Number of channels.
    pub fn len(&self) -> (n: usize)
        ensures
            n == self.spec_len(),
    {
        self.channels.len()
    }

    /// Whether the registry holds no channel at all.
    pub fn is_empty(&self) -> (e: bool)
        ensures
            e == (self.spec_len() == 0),
    {
        self.channels.len() == 0
    }

    /// The currently selected channel index.
    pub fn selected_index(&self) -> (i: usize)
        ensures
            i == self.selected,
    {
        self.selected
    }

    /// The number of discrete volume steps.
    pub fn volume_granularity(&self) -> (g: u8)
        ensures
            g == self.granularity,
    {
        self.granularity
    }

    /// Whether the master pause is engaged.
    pub fn is_master_paused(&self) -> (p: bool)
        ensures
            p == self.master_paused,
    {
        self.master_paused
    }

    /// Length in characters of the longest label.
    pub fn longest_label_len(&self) -> (n: usize)
        ensures
            n == self.longest_label,
    {
        self.longest_label
    }

    /// Label of channel `index`.
    pub fn label_at(&self, index: usize) -> (l: &String)
        requires
            index < self.spec_len(),
        ensures
            l == self.channels@[index as int].label,
    {
        &self.channels[index].label
    }

    /// Volume level of channel `index`.
    pub fn volume_at(&self, index: usize) -> (v: u8)
        requires
            index < self.spec_len(),
        ensures
            v == self.channels@[index as int].volume,
    {
        self.channels[index].volume
    }

    /// Expected play state of channel `index`.
    pub fn playing_at(&self, index: usize) -> (p: bool)
        requires
            index < self.spec_len(),
        ensures
            p == self.channels@[index as int].playing,
    {
        self.channels[index].playing
    }

    /// Move the selection `delta` steps, wrapping around at both ends of the
    /// registry.
    pub fn move_selection(&mut self, delta: isize)
        requires
            old(self).wf(),
            old(self).spec_len() > 0,
        ensures
            final(self).wf(),
            select_rel(*old(self), *final(self), delta as int),
    {
        let len = self.channels.len();
        self.selected = cursor::cycle(self.selected, delta, len);
        proof {
            assert forall|i: int| 0 <= i < self.spec_len() implies self.channel_wf(i) by {
                assert(old(self).channel_wf(i));
            }
        }
    }

    /// Change channel `index` by `delta` steps, saturating into
    /// `[0, granularity]`, and return the control call the playback layer
    /// must issue for that channel.
    pub fn adjust(&mut self, index: usize, delta: i8) -> (d: Directive)
        requires
            old(self).wf(),
            index < old(self).spec_len(),
        ensures
            final(self).wf(),
            adjust_rel(*old(self), *final(self), index as int, delta as int),
            d == spec_volume_directive(
                spec_clamp(
                    old(self).channels@[index as int].volume as int,
                    delta as int,
                    old(self).granularity as int,
                ),
                old(self).master_paused,
            ),
    {
        let g = self.granularity;
        let master = self.master_paused;
        let sum: i16 = self.channels[index].volume as i16 + delta as i16;
        let new_level: u8 = if sum <= 0 {
            0
        } else if sum >= g as i16 {
            g
        } else {
            sum as u8
        };
        let ch = &mut self.channels[index];
        ch.volume = new_level;
        ch.playing = new_level > 0 && !master;
        proof {
            let s = old(self).channels@;
            let t = self.channels@;
            assert forall|i: int| 0 <= i < s.len() implies s[i].label == t[i].label by {
                assert(old(self).channel_wf(i));
            }
            lemma_max_label_len_same_labels(s, t);
            assert forall|i: int| 0 <= i < t.len() implies self.channel_wf(i) by {
                assert(old(self).channel_wf(i));
            }
        }
        if new_level == 0 {
            Directive::Pause
        } else if master {
            Directive::SetGain { level: new_level }
        } else {
            Directive::SetGainThenPlay { level: new_level }
        }
    }

    /// Change every channel by `delta` steps in registry order, saturating
    /// each into `[0, granularity]`. The selection is unaffected. Returns one
    /// control call per channel, in registry order.
    pub fn adjust_all(&mut self, delta: i8) -> (ds: Vec<Directive>)
        requires
            old(self).wf(),
        ensures
            final(self).wf(),
            adjust_all_rel(*old(self), *final(self), delta as int),
            ds@.len() == old(self).spec_len(),
            forall|i: int|
                0 <= i < ds@.len() ==> ds@[i] == spec_volume_directive(
                    spec_clamp(
                        old(self).channels@[i].volume as int,
                        delta as int,
                        old(self).granularity as int,
                    ),
                    old(self).master_paused,
                ),
    {
        let n = self.channels.len();
        let mut ds: Vec<Directive> = Vec::new();
        let mut i: usize = 0;
        while i < n
            invariant
                i <= n,
                self.wf(),
                n == self.spec_len(),
                n == old(self).spec_len(),
                self.granularity == old(self).granularity,
                self.selected == old(self).selected,
                self.master_paused == old(self).master_paused,
                self.longest_label == old(self).longest_label,
                ds@.len() == i,
                forall|j: int|
                    #![trigger self.channels@[j]]
                    0 <= j < i ==> {
                        let new_level = spec_clamp(
                            old(self).channels@[j].volume as int,
                            delta as int,
                            old(self).granularity as int,
                        );
                        &&& self.channels@[j].label == old(self).channels@[j].label
                        &&& self.channels@[j].volume == new_level
                        &&& self.channels@[j].playing == (new_level > 0
                            && !old(self).master_paused)
                    },
                forall|j: int| i <= j < n ==> self.channels@[j] == old(self).channels@[j],
                forall|j: int|
                    0 <= j < i ==> ds@[j] == spec_volume_directive(
                        spec_clamp(
                            old(self).channels@[j].volume as int,
                            delta as int,
                            old(self).granularity as int,
                        ),
                        old(self).master_paused,
                    ),
            decreases n - i,
        {
            let d = self.adjust(i, delta);
            ds.push(d);
            i = i + 1;
        }
        ds
    }

    /// Flip the master pause. Engaging it pauses every channel; releasing it
    /// resumes exactly the channels whose stored volume is nonzero, so a
    /// muted channel is never woken by a resume. Returns one control call per
    /// channel, in registry order.
    pub fn toggle_master(&mut self) -> (ds: Vec<Directive>)
        requires
            old(self).wf(),
        ensures
            final(self).wf(),
            toggle_rel(*old(self), *final(self)),
            ds@.len() == old(self).spec_len(),
            forall|i: int|
                0 <= i < ds@.len() ==> ds@[i] == spec_toggle_directive(
                    old(self).channels@[i].volume as int,
                    final(self).master_paused,
                ),
    {
        self.master_paused = !self.master_paused;
        let master = self.master_paused;
        let n = self.channels.len();
        let mut ds: Vec<Directive> = Vec::new();
        let mut i: usize = 0;
        while i < n
            invariant
                i <= n,
                n == self.spec_len(),
                n == old(self).spec_len(),
                1 <= self.granularity,
                self.granularity == old(self).granularity,
                self.selected == old(self).selected,
                self.longest_label == old(self).longest_label,
                self.master_paused == master,
                master == !old(self).master_paused,
                ds@.len() == i,
                forall|j: int|
                    0 <= j < i ==> {
                        &&& self.channels@[j].label == old(self).channels@[j].label
                        &&& self.channels@[j].volume == old(self).channels@[j].volume
                        &&& self.channels@[j].playing == (old(self).channels@[j].volume > 0
                            && !master)
                    },
                forall|j: int| i <= j < n ==> self.channels@[j] == old(self).channels@[j],
                forall|j: int|
                    0 <= j < i ==> ds@[j] == spec_toggle_directive(
                        old(self).channels@[j].volume as int,
                        master,
                    ),
            decreases n - i,
        {
            let v = self.channels[i].volume;
            let ch = &mut self.channels[i];
            ch.playing = v > 0 && !master;
            let d = if master {
                Directive::Pause
            } else if v != 0 {
                Directive::Play
            } else {
                Directive::Stay
            };
            ds.push(d);
            i = i + 1;
        }
        proof {
            let s = old(self).channels@;
            let t = self.channels@;
            assert forall|i2: int| 0 <= i2 < s.len() implies s[i2].label == t[i2].label by {}
            lemma_max_label_len_same_labels(s, t);
            assert forall|i2: int| 0 <= i2 < t.len() implies self.channel_wf(i2) by {
                assert(old(self).channel_wf(i2));
            }
        }
        ds
    }
}

/// Law: a volume adjustment always lands inside `[0, granularity]` —
/// saturation at both bounds, with no wrap-around, whatever the delta and
/// the starting level.
pub proof fn lemma_adjust_saturates(level: int, delta: int, granularity: int)
    requires
        0 <= granularity,
    ensures
        0 <= spec_clamp(level, delta, granularity) <= granularity,
{
}

/// Law: after an adjustment a channel ends paused exactly when its new level
/// is zero, as long as the master pause is not engaged; and a zero level ends
/// paused regardless of the master pause. Moreover the pause call itself is
/// issued exactly at level zero, independent of the master pause. (The one
/// exception to the plain equivalence: with the master pause engaged and a
/// nonzero new level, the channel keeps its new gain but stays paused until
/// the master pause is released.)
pub proof fn lemma_paused_iff_zero_level(pre: Mixer, post: Mixer, index: int, delta: int)
    requires
        pre.wf(),
        0 <= index < pre.spec_len(),
        adjust_rel(pre, post, index, delta),
    ensures
        post.channels@[index].volume == 0 ==> !post.channels@[index].playing,
        !pre.master_paused ==> (post.channels@[index].playing <==> post.channels@[index].volume
            != 0),
        (spec_volume_directive(post.channels@[index].volume as int, pre.master_paused)
            == Directive::Pause) <==> post.channels@[index].volume == 0,
{
}

/// Law: engaging the master pause and then releasing it restores exactly the
/// channels with a nonzero stored volume to playing; muted channels stay
/// paused, and no stored volume or label changes across the round trip.
pub proof fn lemma_master_pause_round_trip(s0: Mixer, s1: Mixer, s2: Mixer)
    requires
        s0.wf(),
        !s0.master_paused,
        toggle_rel(s0, s1),
        toggle_rel(s1, s2),
    ensures
        s2.master_paused == s0.master_paused,
        s2.channels@.len() == s0.channels@.len(),
        forall|i: int|
            0 <= i < s0.channels@.len() ==> {
                &&& s2.channels@[i].label == s0.channels@[i].label
                &&& s2.channels@[i].volume == s0.channels@[i].volume
                &&& (s2.channels@[i].playing <==> s0.channels@[i].volume != 0)
            },
{
}

} // verus!
