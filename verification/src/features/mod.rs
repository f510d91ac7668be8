//! Stand-alone tools beside the watermark workflow.

pub mod motion_photo;
