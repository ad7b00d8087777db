use vstd::prelude::*;
use crate::canvas::OmniCanvas;
use crate::preslav::{PreslavSketcher, ReferenceImage};

verus! {

/// The narrow progress callback a sketcher reports through: one value
/// per report, in thousandths of the whole run, non-decreasing within
/// one run.
pub trait ProgressSink {
    fn report(&mut self, progress_per_mille: u32);
}

/// The contract any generative painting procedure satisfies: run to
/// completion, reporting progress before each internal iteration, and
/// produce a canvas. The exact cadence, and whether 1000 is ever
/// reported, is the procedure's own affair.
pub trait Sketcher<F: ProgressSink>: Sized {
    /// What the procedure needs of its state before a run: each
    /// implementation says so for itself.
    spec fn ready(&self) -> bool;

    /// Runs the procedure without consuming the sketcher.
    fn run(&mut self, before_iter: &mut F) -> (canvas: OmniCanvas)
        requires
            old(self).ready(),
    ;

    /// Runs the procedure and consumes the sketcher.
    fn run_and_dispose(self, before_iter: &mut F) -> (canvas: OmniCanvas)
        requires
            self.ready(),
    ;
}

/// Drives a `PreslavSketcher` against its reference image for the
/// expected number of iterations.
pub struct PreslavRunner {
    pub sketcher: PreslavSketcher,
    pub reference: ReferenceImage,
    pub iterations: usize,
}

impl<F: ProgressSink> Sketcher<F> for PreslavRunner {
    /// The settings let every step draw and update without panic: see
    /// `PreslavSketcher::settings_ok`; the opacity cannot overflow
    /// within the planned iterations.
    open spec fn ready(&self) -> bool {
        self.sketcher.settings_ok() && self.reference.wf() && self.reference.width >= 1
            && self.reference.height >= 1 && self.sketcher.alpha + self.iterations
            * self.sketcher.alpha_increase <= u64::MAX
    }

    fn run(&mut self, before_iter: &mut F) -> (canvas: OmniCanvas)
        ensures
            canvas matches OmniCanvas::VectorCanvas { inner } && inner.elements@.len() == old(
                self,
            ).sketcher.canvas.elements@.len() + old(self).iterations,
    {
        let n = self.iterations;
        let mut i: usize = 0;
        while i < n
            invariant
                i <= n,
                self.sketcher.settings_ok(),
                self.reference.wf(),
                self.reference.width >= 1,
                self.reference.height >= 1,
                self.sketcher.alpha + (n - i) * self.sketcher.alpha_increase <= u64::MAX,
                self.sketcher.canvas.elements@.len() == old(self).sketcher.canvas.elements@.len()
                    + i,
            decreases n - i,
        {
            proof {
                assert((i as int) * 1000 / (n as int) < 1000) by (nonlinear_arith)
                    requires 0 <= i < n;
            }
            before_iter.report((((i as u128) * 1000) / (n as u128)) as u32);
            proof {
                assert((n - i) * self.sketcher.alpha_increase == self.sketcher.alpha_increase + (
                n - i - 1) * self.sketcher.alpha_increase) by (nonlinear_arith)
                    requires i < n;
                assert((n - i - 1) * self.sketcher.alpha_increase >= 0) by (nonlinear_arith)
                    requires i < n, self.sketcher.alpha_increase >= 0;
            }
            self.sketcher.step(&self.reference);
            i += 1;
        }
        OmniCanvas::VectorCanvas { inner: self.sketcher.render() }
    }

    fn run_and_dispose(self, before_iter: &mut F) -> (canvas: OmniCanvas)
        ensures
            canvas matches OmniCanvas::VectorCanvas { inner } && inner.elements@.len()
                == self.sketcher.canvas.elements@.len() + self.iterations,
    {
        let mut runner = self;
        runner.run(before_iter)
    }
}

} // verus!
