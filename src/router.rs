//! Dispatch of one run on its destination.
use crate::export::ExportPlan;
use crate::output::{AudioOutput, PipelineError, StreamSetup};
use vstd::prelude::*;

verus! {

/// The path a run takes.
pub enum Route {
    /// Render a fixed number of frames into a file.
    Export(ExportPlan),
    /// Stream to the device until cancelled, in this configuration.
    Device(StreamSetup),
}

/// Chooses the path for a destination: the file path gets its export plan,
/// the device path its stream configuration. Exactly one path is taken.
pub fn route_output(output: &AudioOutput) -> (r: Result<Route, PipelineError>)
    ensures
        match output {
            AudioOutput::Wav(w) => match r {
                Ok(Route::Export(p)) => ExportPlan::new_ok(*w, p),
                Ok(Route::Device(_)) => false,
                Err(e) => ExportPlan::new_err(*w, e),
            },
            AudioOutput::Direct(d) => r matches Ok(Route::Device(c)) && c == d.config,
        },
{
    match output {
        AudioOutput::Wav(w) => {
            let plan = ExportPlan::new(w)?;
            Ok(Route::Export(plan))
        },
        AudioOutput::Direct(d) => Ok(Route::Device(d.config)),
    }
}

} // verus!
