use vstd::prelude::*;

verus! {

/// The size classes a routine's stack can be requested in.
///
/// The default thread stack on most systems is 8 MiB. Smaller stacks keep
/// routines light-weight, but too small a stack risks hitting the guard page.
#[derive(Copy, Clone, Debug)]
pub enum StackSize {
    KiB4,
    KiB8,
    KiB16,
    KiB32,
    KiB64,
    KiB128,
    KiB256,
    KiB512,
    MiB,
    MiB2,
    MiB4,
    MiB8,
}

impl StackSize {
    /// The exact byte count of this size class.
    pub open spec fn spec_bytes(self) -> usize {
        match self {
            StackSize::KiB4 => 4096,
            StackSize::KiB8 => 8192,
            StackSize::KiB16 => 16384,
            StackSize::KiB32 => 32768,
            StackSize::KiB64 => 65536,
            StackSize::KiB128 => 131072,
            StackSize::KiB256 => 262144,
            StackSize::KiB512 => 524288,
            StackSize::MiB => 1048576,
            StackSize::MiB2 => 2097152,
            StackSize::MiB4 => 4194304,
            StackSize::MiB8 => 8388608,
        }
    }

    /// The number of bytes this size class requests from the stack allocator.
    pub fn bytes(self) -> (n: usize)
        ensures
            n == self.spec_bytes(),
    {
        match self {
            StackSize::KiB4 => 4096,
            StackSize::KiB8 => 8192,
            StackSize::KiB16 => 16384,
            StackSize::KiB32 => 32768,
            StackSize::KiB64 => 65536,
            StackSize::KiB128 => 131072,
            StackSize::KiB256 => 262144,
            StackSize::KiB512 => 524288,
            StackSize::MiB => 1048576,
            StackSize::MiB2 => 2097152,
            StackSize::MiB4 => 4194304,
            StackSize::MiB8 => 8388608,
        }
    }
}

} // verus!
