//! The control loop's decision logic: mapping key events to mixer commands
//! and applying one command to the mixer state.
//!
//! The surrounding program owns the actual loop — it blocks for a key event,
//! hands it in here, carries the returned playback directives out to the
//! audio backend, and re-renders. Every decision in between is made here.

use vstd::prelude::*;

use crate::mixer::{
    adjust_all_rel, adjust_rel, select_rel, spec_clamp, spec_toggle_directive,
    spec_volume_directive, toggle_rel, Directive, Mixer,
};

verus! {

/// A key event, reduced to what the mixer cares about.
#[derive(Clone, Copy, Debug, PartialEq, Eq, Structural)]
pub enum Key {
    Char(char),
    Up,
    Down,
    Left,
    Right,
    Esc,
    Other,
}

/// What one key event asks the mixer to do.
#[derive(Clone, Copy, Debug, PartialEq, Eq, Structural)]
pub enum Command {
    Quit,
    SelectNext,
    SelectPrev,
    VolumeUp,
    VolumeDown,
    AllVolumeUp,
    AllVolumeDown,
    ToggleMasterPause,
    Nothing,
}

/// The key bindings: `q` or escape quits; `j`/down and `k`/up move the
/// selection; `l`/right and `h`/left change the selected channel's volume,
/// or every channel's volume when control is held; space toggles the master
/// pause; anything else does nothing.
pub open spec fn spec_dispatch(key: Key, ctrl: bool) -> Command {
    match key {
        Key::Char(c) => if c == 'q' {
            Command::Quit
        } else if c == 'j' {
            Command::SelectNext
        } else if c == 'k' {
            Command::SelectPrev
        } else if c == 'l' && ctrl {
            Command::AllVolumeUp
        } else if c == 'h' && ctrl {
            Command::AllVolumeDown
        } else if c == 'l' {
            Command::VolumeUp
        } else if c == 'h' {
            Command::VolumeDown
        } else if c == ' ' {
            Command::ToggleMasterPause
        } else {
            Command::Nothing
        },
        Key::Down => Command::SelectNext,
        Key::Up => Command::SelectPrev,
        Key::Right => if ctrl {
            Command::AllVolumeUp
        } else {
            Command::VolumeUp
        },
        Key::Left => if ctrl {
            Command::AllVolumeDown
        } else {
            Command::VolumeDown
        },
        Key::Esc => Command::Quit,
        Key::Other => Command::Nothing,
    }
}

/// Map a key event, with the state of the control modifier, to a command.
pub fn dispatch(key: Key, ctrl: bool) -> (c: Command)
    ensures
        c == spec_dispatch(key, ctrl),
{
    match key {
        Key::Char(c) => if c == 'q' {
            Command::Quit
        } else if c == 'j' {
            Command::SelectNext
        } else if c == 'k' {
            Command::SelectPrev
        } else if c == 'l' && ctrl {
            Command::AllVolumeUp
        } else if c == 'h' && ctrl {
            Command::AllVolumeDown
        } else if c == 'l' {
            Command::VolumeUp
        } else if c == 'h' {
            Command::VolumeDown
        } else if c == ' ' {
            Command::ToggleMasterPause
        } else {
            Command::Nothing
        },
        Key::Down => Command::SelectNext,
        Key::Up => Command::SelectPrev,
        Key::Right => if ctrl {
            Command::AllVolumeUp
        } else {
            Command::VolumeUp
        },
        Key::Left => if ctrl {
            Command::AllVolumeDown
        } else {
            Command::VolumeDown
        },
        Key::Esc => Command::Quit,
        Key::Other => Command::Nothing,
    }
}

/// The outcome of one state transition: whether the session ends, and one
/// control call per channel (in registry order) for the playback layer.
pub struct Step {
    pub quit: bool,
    pub directives: Vec<Directive>,
}

/// How one command transforms the mixer and what it hands the playback
/// layer. A quit leaves the state untouched; a selection move touches no
/// channel; volume and master-pause commands change the state as their
/// relation says and address every channel positionally.
pub open spec fn step_rel(pre: Mixer, post: Mixer, cmd: Command, r: Step) -> bool {
    match cmd {
        Command::Quit => {
            &&& r.quit
            &&& post == pre
            &&& r.directives@.len() == 0
        },
        Command::SelectNext => {
            &&& !r.quit
            &&& select_rel(pre, post, 1)
            &&& r.directives@.len() == 0
        },
        Command::SelectPrev => {
            &&& !r.quit
            &&& select_rel(pre, post, -1)
            &&& r.directives@.len() == 0
        },
        Command::VolumeUp => single_volume_step(pre, post, 1, r),
        Command::VolumeDown => single_volume_step(pre, post, -1, r),
        Command::AllVolumeUp => all_volume_step(pre, post, 1, r),
        Command::AllVolumeDown => all_volume_step(pre, post, -1, r),
        Command::ToggleMasterPause => {
            &&& !r.quit
            &&& toggle_rel(pre, post)
            &&& r.directives@.len() == pre.channels@.len()
            &&& forall|i: int|
                0 <= i < r.directives@.len() ==> r.directives@[i] == spec_toggle_directive(
                    pre.channels@[i].volume as int,
                    post.master_paused,
                )
        },
        Command::Nothing => {
            &&& !r.quit
            &&& post == pre
            &&& r.directives@.len() == 0
        },
    }
}

/// The selected channel's volume moved by `delta`; its directive sits at the
/// selected position and every other position is left alone.
pub open spec fn single_volume_step(pre: Mixer, post: Mixer, delta: int, r: Step) -> bool {
    &&& !r.quit
    &&& adjust_rel(pre, post, pre.selected as int, delta)
    &&& r.directives@.len() == pre.channels@.len()
    &&& r.directives@[pre.selected as int] == spec_volume_directive(
        spec_clamp(
            pre.channels@[pre.selected as int].volume as int,
            delta,
            pre.granularity as int,
        ),
        pre.master_paused,
    )
    &&& forall|i: int|
        0 <= i < r.directives@.len() && i != pre.selected as int ==> r.directives@[i]
            == Directive::Stay
}

/// Every channel's volume moved by `delta`, each position carrying its own
/// directive.
pub open spec fn all_volume_step(pre: Mixer, post: Mixer, delta: int, r: Step) -> bool {
    &&& !r.quit
    &&& adjust_all_rel(pre, post, delta)
    &&& r.directives@.len() == pre.channels@.len()
    &&& forall|i: int|
        0 <= i < r.directives@.len() ==> r.directives@[i] == spec_volume_directive(
            spec_clamp(pre.channels@[i].volume as int, delta, pre.granularity as int),
            pre.master_paused,
        )
}

/// A vector of `n` directives that is `d` at `index` and silent elsewhere.
fn placed_directives(n: usize, index: usize, d: Directive) -> (v: Vec<Directive>)
    requires
        index < n,
    ensures
        v@.len() == n,
        v@[index as int] == d,
        forall|i: int| 0 <= i < n && i != index ==> v@[i] == Directive::Stay,
{
    let mut v: Vec<Directive> = Vec::new();
    let mut i: usize = 0;
    while i < n
        invariant
            i <= n,
            index < n,
            v@.len() == i,
            forall|k: int| 0 <= k < i && k != index ==> v@[k] == Directive::Stay,
            index < i ==> v@[index as int] == d,
        decreases n - i,
    {
        if i == index {
            v.push(d);
        } else {
            v.push(Directive::Stay);
        }
        i = i + 1;
    }
    v
}

impl Mixer {
    /// Apply one command: the single state transition the control loop makes
    /// for one key event. Returns whether the session ends and the control
    /// calls the playback layer must issue, one per channel in registry
    /// order.
    pub fn step(&mut self, cmd: Command) -> (r: Step)
        requires
            old(self).wf(),
            old(self).spec_len() > 0,
        ensures
            final(self).wf(),
            final(self).spec_len() == old(self).spec_len(),
            step_rel(*old(self), *final(self), cmd, r),
    {
        match cmd {
            Command::Quit => Step { quit: true, directives: Vec::new() },
            Command::SelectNext => {
                self.move_selection(1);
                Step { quit: false, directives: Vec::new() }
            },
            Command::SelectPrev => {
                self.move_selection(-1);
                Step { quit: false, directives: Vec::new() }
            },
            Command::VolumeUp => {
                let n = self.channels.len();
                let index = self.selected;
                let d = self.adjust(index, 1);
                Step { quit: false, directives: placed_directives(n, index, d) }
            },
            Command::VolumeDown => {
                let n = self.channels.len();
                let index = self.selected;
                let d = self.adjust(index, -1);
                Step { quit: false, directives: placed_directives(n, index, d) }
            },
            Command::AllVolumeUp => {
                let ds = self.adjust_all(1);
                Step { quit: false, directives: ds }
            },
            Command::AllVolumeDown => {
                let ds = self.adjust_all(-1);
                Step { quit: false, directives: ds }
            },
            Command::ToggleMasterPause => {
                let ds = self.toggle_master();
                Step { quit: false, directives: ds }
            },
            Command::Nothing => Step { quit: false, directives: Vec::new() },
        }
    }
}

} // verus!
