use vstd::prelude::*;

verus! {

/// Indices into the list of connected motion controllers, one for each axis
/// of movement; `None` where no controller drives that axis.
pub struct MovementAxesIndices {
    /// Main drive.
    pub md_idx: Option<usize>,
    /// Filter wheel.
    pub fw_idx: Option<usize>,
    /// Sample rotation.
    pub sr_idx: Option<usize>,
    /// Sample angle.
    pub sa_idx: Option<usize>,
    /// Sample linear stage.
    pub st_idx: Option<usize>,
    /// Detector rotation.
    pub dr_idx: Option<usize>,
}

impl Default for MovementAxesIndices {
    fn default() -> (r: MovementAxesIndices)
        ensures
            r.md_idx is None,
            r.fw_idx is None,
            r.sr_idx is None,
            r.sa_idx is None,
            r.st_idx is None,
            r.dr_idx is None,
    {
        MovementAxesIndices {
            md_idx: None,
            fw_idx: None,
            sr_idx: None,
            sa_idx: None,
            st_idx: None,
            dr_idx: None,
        }
    }
}

/// The layer between the front end and one motion-controller driver. It
/// passes calls through to the driver it holds.
pub struct MotionController<D> {
    pub driver: D,
}

impl<D> MotionController<D> {
    pub fn new(driver: D) -> (r: MotionController<D>)
        ensures
            r.driver == driver,
    {
        MotionController { driver }
    }
}

} // verus!
