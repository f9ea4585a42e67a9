//! The writer state machine around the framebuffer.
//!
//! On the bare machine the control path is a single pass: the platform
//! invokes the entry symbol, the message is written to the display,
//! and execution parks in an idle loop that never returns; any
//! unrecoverable fault is routed to one designated handler that also
//! never returns. Here the two non-returning loops are modeled as
//! explicit terminal phases, so a hosted run can observe them.

use vstd::prelude::*;

use crate::framebuffer::Framebuffer;
use crate::framebuffer::RenderError;
use crate::framebuffer::TOTAL_CELL_COUNT;
use crate::framebuffer::rendered;

verus! {

/// Where the single path of control stands.
#[derive(Clone, Copy, Debug, PartialEq, Eq, Structural)]
pub enum Phase {
    /// Entered, nothing written yet.
    Init,
    /// The write pass is done; the machine parks here for good.
    Idle,
    /// An unrecoverable fault was routed to the handler; the machine
    /// parks here for good and accepts no further work.
    Faulted,
}

/// The display writer: a framebuffer and the phase of the one control
/// path that drives it.
pub struct Writer {
    phase: Phase,
    framebuffer: Framebuffer,
}

impl View for Writer {
    type V = Seq<u8>;

    closed spec fn view(&self) -> Seq<u8> {
        self.framebuffer@
    }
}

impl Writer {
    /// The phase the control path stands in.
    pub closed spec fn phase_spec(&self) -> Phase {
        self.phase
    }

    /// The framebuffer keeps its mapped size.
    pub closed spec fn wf(&self) -> bool {
        self.framebuffer.wf()
    }

    /// A writer as the platform hands control over: nothing written,
    /// display cleared.
    pub fn new() -> (w: Writer)
        ensures
            w.wf(),
            w.phase_spec() is Init,
            forall|j: int| 0 <= j < w@.len() ==> w@[j] == 0u8,
    {
        Writer { phase: Phase::Init, framebuffer: Framebuffer::new() }
    }

    /// The phase, readable from outside.
    pub fn current_phase(&self) -> (p: Phase)
        ensures
            p == self.phase_spec(),
    {
        self.phase
    }

    /// Read one cell of the display back as (character, attribute);
    /// `None` past the end.
    pub fn read_cell(&self, index: usize) -> (r: Option<(u8, u8)>)
        requires
            self.wf(),
        ensures
            index < TOTAL_CELL_COUNT ==> r == Some(
                (self@[2 * index as int], self@[2 * index as int + 1]),
            ),
            index >= TOTAL_CELL_COUNT ==> r is None,
    {
        self.framebuffer.read_cell(index)
    }

    /// One write pass through the state machine. A faulted writer
    /// performs no write at all and stays faulted; otherwise the pass
    /// runs under the framebuffer's bounds policy, and a completed
    /// pass parks the machine in its idle phase.
    pub fn render(&mut self, message: &Vec<u8>, attribute: u8) -> (result: Result<
        (),
        RenderError,
    >)
        requires
            old(self).wf(),
        ensures
            final(self).wf(),
            old(self).phase_spec() is Faulted ==> result == Err::<(), RenderError>(
                RenderError::Faulted,
            ) && final(self)@ == old(self)@ && final(self).phase_spec() is Faulted,
            !(old(self).phase_spec() is Faulted) && message@.len() <= TOTAL_CELL_COUNT ==> result
                is Ok && final(self)@ == rendered(old(self)@, message@, attribute)
                && final(self).phase_spec() is Idle,
            !(old(self).phase_spec() is Faulted) && message@.len() > TOTAL_CELL_COUNT ==> result
                == Err::<(), RenderError>(RenderError::BoundsViolation)
                && final(self)@ == old(self)@
                && final(self).phase_spec() == old(self).phase_spec(),
    {
        match self.phase {
            Phase::Faulted => Err(RenderError::Faulted),
            _ => {
                match self.framebuffer.render(message, attribute) {
                    Ok(()) => {
                        self.phase = Phase::Idle;
                        Ok(())
                    },
                    Err(e) => Err(e),
                }
            },
        }
    }

    /// Route an unrecoverable fault to the handler: the machine parks
    /// in the faulted phase, writes nothing, and never resumes normal
    /// execution — every later pass through `render` is refused.
    pub fn fault(&mut self)
        ensures
            final(self).phase_spec() is Faulted,
            final(self)@ == old(self)@,
            old(self).wf() ==> final(self).wf(),
    {
        self.phase = Phase::Faulted;
    }
}

} // verus!
