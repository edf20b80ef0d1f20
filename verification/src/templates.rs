//! The fixed template set: which reference images exist, where each is
//! kept, and the threshold each is matched at.

use crate::matching::{BUTTON_THRESHOLD, OBSTACLE_THRESHOLD};
use vstd::prelude::*;

verus! {

/// The logical name of a reference image.
#[derive(Clone, Copy, Debug, PartialEq, Eq, Structural)]
pub enum TemplateId {
    Branch1,
    Branch2,
    Branch3,
    Branch4,
    LeftBranch,
    RightBranch,
    RestartButton,
    PlayButton,
    StartButton,
}

impl TemplateId {
    /// Buttons are the three templates clicked during start-up.
    pub open spec fn is_button(&self) -> bool {
        *self == TemplateId::RestartButton || *self == TemplateId::PlayButton || *self
            == TemplateId::StartButton
    }

    pub open spec fn threshold_spec(&self) -> i32 {
        if self.is_button() {
            BUTTON_THRESHOLD
        } else {
            OBSTACLE_THRESHOLD
        }
    }

    /// The score a match of this template must reach.
    pub fn threshold(&self) -> (r: i32)
        ensures
            r == self.threshold_spec(),
    {
        match self {
            TemplateId::RestartButton | TemplateId::PlayButton | TemplateId::StartButton => {
                BUTTON_THRESHOLD
            },
            _ => OBSTACLE_THRESHOLD,
        }
    }

    pub open spec fn path_spec(&self) -> Seq<char> {
        match *self {
            TemplateId::Branch1 => "lumber/branch_1.png"@,
            TemplateId::Branch2 => "lumber/branch_2.png"@,
            TemplateId::Branch3 => "lumber/branch_3.png"@,
            TemplateId::Branch4 => "lumber/branch_4.png"@,
            TemplateId::LeftBranch => "lumber/left_branch.png"@,
            TemplateId::RightBranch => "lumber/right_branch.png"@,
            TemplateId::RestartButton => "lumber/restart_button.png"@,
            TemplateId::PlayButton => "lumber/play_button.png"@,
            TemplateId::StartButton => "lumber/start_button.png"@,
        }
    }

    /// The file the template is loaded from, relative to the working
    /// directory.
    pub fn path(&self) -> (r: &'static str)
        ensures
            r@ == self.path_spec(),
    {
        match self {
            TemplateId::Branch1 => "lumber/branch_1.png",
            TemplateId::Branch2 => "lumber/branch_2.png",
            TemplateId::Branch3 => "lumber/branch_3.png",
            TemplateId::Branch4 => "lumber/branch_4.png",
            TemplateId::LeftBranch => "lumber/left_branch.png",
            TemplateId::RightBranch => "lumber/right_branch.png",
            TemplateId::RestartButton => "lumber/restart_button.png",
            TemplateId::PlayButton => "lumber/play_button.png",
            TemplateId::StartButton => "lumber/start_button.png",
        }
    }

    /// The composite obstacle template of a given priority rank, first
    /// rank 0.
    pub open spec fn composite_spec(rank: int) -> TemplateId {
        if rank == 0 {
            TemplateId::Branch1
        } else if rank == 1 {
            TemplateId::Branch2
        } else if rank == 2 {
            TemplateId::Branch3
        } else {
            TemplateId::Branch4
        }
    }

    pub fn composite(rank: u8) -> (r: TemplateId)
        requires
            rank < 4,
        ensures
            r == Self::composite_spec(rank as int),
            !r.is_button(),
    {
        if rank == 0 {
            TemplateId::Branch1
        } else if rank == 1 {
            TemplateId::Branch2
        } else if rank == 2 {
            TemplateId::Branch3
        } else {
            TemplateId::Branch4
        }
    }
}

} // verus!
