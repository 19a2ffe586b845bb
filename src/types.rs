use vstd::prelude::*;

verus! {

/// Largest validation code blob accepted by the default configuration.
pub const MAX_CODE_SIZE: u32 = 3 * 1024 * 1024;

/// Largest head data blob accepted by the default configuration.
pub const MAX_HEAD_DATA_SIZE: u32 = 1024 * 1024;

/// Identifier of a registered chain.
#[derive(Clone, Copy, PartialEq, Eq, Structural, Debug, Hash)]
pub struct ParaId(pub u32);

/// Validation code of a para: an opaque blob.
#[derive(Clone, Debug, PartialEq, Eq)]
pub struct ValidationCode(pub Vec<u8>);

/// Head data of a para: an opaque blob.
#[derive(Clone, Debug, PartialEq, Eq)]
pub struct HeadData(pub Vec<u8>);

impl View for ValidationCode {
    type V = Seq<u8>;

    open spec fn view(&self) -> Seq<u8> {
        self.0@
    }
}

impl View for HeadData {
    type V = Seq<u8>;

    open spec fn view(&self) -> Seq<u8> {
        self.0@
    }
}

/// Configuration snapshot handed to each operation that needs it.
#[derive(Clone, Copy, Debug, PartialEq, Eq, Structural)]
pub struct HostConfig {
    /// Largest accepted validation code, in bytes.
    pub max_code_size: u32,
    /// Largest accepted head data, in bytes.
    pub max_head_data_size: u32,
    /// Blocks between the retirement of a code and its eligibility for pruning.
    pub code_retention_period: u32,
}

/// Failures of the operations of this library.
#[derive(Clone, Copy, Debug, PartialEq, Eq, Structural)]
pub enum ParasError {
    /// A code or head blob exceeds its configured bound.
    BlobTooLarge,
    /// The operation needs existing state for a para that has none.
    NoSuchPara,
}

/// An onboarding or offboarding intent, applied at a session boundary.
#[derive(Clone, Copy, Debug, PartialEq, Eq, Structural)]
pub enum ParaAction {
    Onboard,
    Offboard,
}

/// Notifications emitted by the mutating operations.
#[derive(Clone, Copy, Debug, PartialEq, Eq, Structural)]
pub enum Event {
    /// The current code of the para changed.
    CurrentCodeUpdated(ParaId),
    /// The current head of the para was overwritten.
    CurrentHeadUpdated(ParaId),
    /// A code upgrade was scheduled for the para.
    CodeUpgradeScheduled(ParaId),
    /// A new head was noted for the para.
    NewHeadNoted(ParaId),
    /// An action was queued for the para, to take effect at the given session.
    ActionQueued(ParaId, u32),
}

/// Saturating addition of two block or session numbers.
pub open spec fn sat_add(a: u32, b: u32) -> u32 {
    if a as int + b as int > u32::MAX as int {
        u32::MAX
    } else {
        (a + b) as u32
    }
}

} // verus!
