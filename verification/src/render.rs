//! The progress renderer's decision logic: which spinner frame a repaint
//! shows, where the status field sits on the row, which final marker and
//! message a finished task gets, and the start/tick/stop protocol of the one
//! background painter that is alive while a task runs. The shell's painter
//! thread drives this handle: it may paint a frame only while the handle is
//! running, and `stop` ends that permission before it returns, so no repaint
//! of a task's row ever follows its final marker.

use vstd::prelude::*;

use crate::task::TaskDescriptor;

verus! {

/// The cycle of spinner glyphs a running task's status field steps through.
pub open spec fn spinner_frames() -> Seq<Seq<char>> {
    seq![". "@, ".."@, ".:"@, "::"@]
}

/// Spinner glyph of the given repaint: the frames cycle with period four.
pub fn spinner_frame(tick: u64) -> (r: &'static str)
    ensures
        r@ == spinner_frames()[tick as int % 4],
{
    match tick % 4 {
        0 => ". ",
        1 => "..",
        2 => ".:",
        _ => "::",
    }
}

/// Final status marker of a finished task.
pub fn final_marker(succeeded: bool) -> (r: &'static str)
    ensures
        succeeded ==> r@ == "[ ok ]"@,
        !succeeded ==> r@ == "[ !! ]"@,
{
    if succeeded {
        "[ ok ]"
    } else {
        "[ !! ]"
    }
}

/// Final message of a finished task: the task's own success or failure text.
pub fn final_message<'a>(task: &'a TaskDescriptor, succeeded: bool) -> (m: &'a str)
    ensures
        succeeded ==> m@ == task.success_message@,
        !succeeded ==> m@ == task.failure_message@,
{
    if succeeded {
        task.success_message.as_str()
    } else {
        task.failure_message.as_str()
    }
}

/// Column where a status field of the given width starts, so that it ends at
/// the right edge of a terminal `cols` columns wide; a field wider than the
/// terminal starts at the left edge.
pub fn status_column(cols: u16, status_width: u16) -> (c: u16)
    ensures
        c == if status_width <= cols {
            (cols - status_width) as u16
        } else {
            0u16
        },
{
    if status_width <= cols {
        cols - status_width
    } else {
        0
    }
}

/// Handle of the renderer for one in-flight task. `running` is the permission
/// to repaint the task's row: `tick` demands it and `stop` withdraws it, so
/// after `stop` returns no frame for its task can ever be painted again, and
/// because the controller runs one task at a time, no two rows are ever
/// painted concurrently.
pub struct RendererHandle {
    pub task_index: usize,
    pub running: bool,
    pub frames_painted: u64,
}

impl RendererHandle {
    /// Start rendering a task's row: the handle owns the row given by the
    /// task's index and is running with no frame painted yet.
    pub fn start(task: &TaskDescriptor) -> (r: Self)
        ensures
            r.running,
            r.task_index == task.index,
            r.frames_painted == 0,
    {
        RendererHandle { task_index: task.index, running: true, frames_painted: 0 }
    }

    /// One repaint of the status field, permitted only while running: hands
    /// back the spinner glyph of this repaint and counts it.
    pub fn tick(&mut self) -> (frame: &'static str)
        requires
            old(self).running,
            old(self).frames_painted < u64::MAX,
        ensures
            final(self).running,
            final(self).task_index == old(self).task_index,
            final(self).frames_painted == old(self).frames_painted + 1,
            frame@ == spinner_frames()[old(self).frames_painted as int % 4],
    {
        let frame = spinner_frame(self.frames_painted);
        self.frames_painted = self.frames_painted + 1;
        frame
    }

    /// Stop rendering: withdraws the permission to repaint and hands back the
    /// final marker for the task's verdict. After this returns, `tick` can
    /// never again be called on this handle — the row's final state is final.
    pub fn stop(&mut self, succeeded: bool) -> (marker: &'static str)
        requires
            old(self).running,
        ensures
            !final(self).running,
            final(self).task_index == old(self).task_index,
            succeeded ==> marker@ == "[ ok ]"@,
            !succeeded ==> marker@ == "[ !! ]"@,
    {
        self.running = false;
        final_marker(succeeded)
    }
}

} // verus!
