//! Windowing of the channel list onto a bounded display area.
//!
//! A pure function decides which contiguous range of channel indices is
//! visible and how many display lines each visible row receives. When every
//! channel fits, the space is split evenly; when it does not, the window
//! slides so that the selection stays visible: pinned to the top near the
//! start, pinned to the bottom near the end, centered otherwise.

use vstd::prelude::*;
use vstd::arithmetic::div_mod::{
    lemma_div_pos_is_pos, lemma_fundamental_div_mod, lemma_mod_division_less_than_divisor,
};

use crate::mixer::Mixer;

verus! {

/// How many rows are visible: every channel when they fit, otherwise one row
/// per available line.
pub open spec fn spec_window_len(num: int, height: int) -> int {
    if num <= height {
        num
    } else {
        height
    }
}

/// Index of the first visible channel.
pub open spec fn spec_window_start(num: int, selected: int, height: int) -> int {
    if num <= height {
        0
    } else if selected < height / 2 {
        0
    } else if num - selected - 1 < height / 2 {
        num - height
    } else {
        selected - height / 2
    }
}

/// Display lines granted to each visible row.
pub open spec fn spec_row_height(num: int, height: int) -> int {
    if num <= height {
        height / num
    } else {
        1
    }
}

/// A contiguous range of visible channel indices, each drawn `row_height`
/// lines tall.
pub struct Window {
    pub start: usize,
    pub len: usize,
    pub row_height: usize,
}

impl Window {
    /// Whether channel index `i` is visible.
    pub open spec fn contains(self, i: int) -> bool {
        self.start <= i < self.start + self.len
    }
}

/// Choose the visible window for `num` channels, selection `selected`, and
/// `height` available display lines.
pub fn window(num: usize, selected: usize, height: usize) -> (w: Window)
    requires
        0 < num,
        selected < num,
    ensures
        w.start == spec_window_start(num as int, selected as int, height as int),
        w.len == spec_window_len(num as int, height as int),
        w.row_height == spec_row_height(num as int, height as int),
        w.start + w.len <= num,
        1 <= height ==> w.contains(selected as int),
{
    proof {
        lemma_window_in_range(num as int, selected as int, height as int);
    }
    if num <= height {
        let row_height = height / num;
        Window { start: 0, len: num, row_height }
    } else {
        let half = height / 2;
        let start = if selected < half {
            0
        } else if num - selected - 1 < half {
            num - height
        } else {
            selected - half
        };
        Window { start, len: height, row_height: 1 }
    }
}

/// The window is a valid contiguous range: it has length
/// `min(num, height)`, it lies inside `[0, num)`, it contains the selected
/// index whenever at least one line is available, and each visible row gets
/// at least one line whenever every channel fits.
pub proof fn lemma_window_in_range(num: int, selected: int, height: int)
    requires
        0 < num,
        0 <= selected < num,
    ensures
        spec_window_len(num, height) == vstd::math::min(num, height),
        0 <= spec_window_start(num, selected, height),
        spec_window_start(num, selected, height) + spec_window_len(num, height) <= num,
        1 <= height ==> spec_window_start(num, selected, height) <= selected
            < spec_window_start(num, selected, height) + spec_window_len(num, height),
        num <= height ==> spec_row_height(num, height) >= 1,
{
    if num <= height {
        lemma_div_pos_is_pos(height, num);
        lemma_fundamental_div_mod(height, num);
        lemma_mod_division_less_than_divisor(height, num);
        if height / num == 0 {
            assert(height == num * 0 + height % num);
        }
    } else {
        let half = height / 2;
        lemma_fundamental_div_mod(height, 2);
        lemma_mod_division_less_than_divisor(height, 2);
        assert(height == 2 * half + height % 2);
        if selected < half {
        } else if num - selected - 1 < half {
            assert(selected >= num - height);
        } else {
            assert(selected - half + height <= num);
        }
    }
}

impl Window {
    /// The visible channel indices, in display order.
    pub fn indices(&self) -> (r: Vec<usize>)
        requires
            self.start + self.len <= usize::MAX,
        ensures
            r@.len() == self.len,
            forall|j: int| 0 <= j < self.len ==> r@[j] == self.start + j,
    {
        let mut r: Vec<usize> = Vec::new();
        let mut j: usize = 0;
        while j < self.len
            invariant
                j <= self.len,
                self.start + self.len <= usize::MAX,
                r@.len() == j,
                forall|k: int| 0 <= k < j ==> r@[k] == self.start + k,
            decreases self.len - j,
        {
            r.push(self.start + j);
            j = j + 1;
        }
        r
    }
}

/// One visible gauge row of the view model.
pub struct Row {
    pub index: usize,
    pub volume: u8,
    pub is_selected: bool,
}

impl Mixer {
    /// The rows visible in a display area `height` lines tall: the windowed
    /// channel indices in order, each with its volume level and whether it is
    /// the selected channel, together with the lines granted to each row.
    pub fn visible_rows(&self, height: usize) -> (r: (Vec<Row>, usize))
        requires
            self.wf(),
            self.spec_len() > 0,
        ensures
            r.0@.len() == spec_window_len(self.spec_len(), height as int),
            forall|j: int|
                #![trigger r.0@[j]]
                0 <= j < r.0@.len() ==> {
                    let idx = spec_window_start(
                        self.spec_len(),
                        self.selected as int,
                        height as int,
                    ) + j;
                    &&& r.0@[j].index == idx
                    &&& r.0@[j].volume == self.channels@[idx].volume
                    &&& r.0@[j].is_selected == (idx == self.selected)
                },
            r.1 == spec_row_height(self.spec_len(), height as int),
    {
        let num = self.channels.len();
        let w = window(num, self.selected, height);
        let mut rows: Vec<Row> = Vec::new();
        let mut j: usize = 0;
        while j < w.len
            invariant
                j <= w.len,
                num == self.spec_len(),
                w.start + w.len <= num,
                w.start == spec_window_start(self.spec_len(), self.selected as int, height as int),
                w.len == spec_window_len(self.spec_len(), height as int),
                rows@.len() == j,
                forall|k: int|
                    #![trigger rows@[k]]
                    0 <= k < j ==> {
                        let idx = spec_window_start(
                            self.spec_len(),
                            self.selected as int,
                            height as int,
                        ) + k;
                        &&& rows@[k].index == idx
                        &&& rows@[k].volume == self.channels@[idx].volume
                        &&& rows@[k].is_selected == (idx == self.selected)
                    },
            decreases w.len - j,
        {
            let idx = w.start + j;
            let volume = self.channels[idx].volume;
            rows.push(Row { index: idx, volume, is_selected: idx == self.selected });
            j = j + 1;
        }
        (rows, w.row_height)
    }
}

} // verus!
