use vstd::prelude::*;
use crate::text::{has_prefix, starts_with};

verus! {

/// Whether a path names a GPU device node: it starts with `/dev/nvidia` or `/dev/dri/`.
pub fn is_gpu_path(path: &str) -> (r: bool)
    ensures
        r == (has_prefix(path@, "/dev/nvidia"@) || has_prefix(path@, "/dev/dri/"@)),
{
    starts_with(path, "/dev/nvidia") || starts_with(path, "/dev/dri/")
}

} // verus!
