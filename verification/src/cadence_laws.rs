//! What one full cadence carries: an assembler that has heard an engine's
//! answers to all ten sub-queries holds that engine's telemetry.

use vstd::prelude::*;
use crate::dro_decode::{AssemblerState, DroSnapshot};
use crate::le_bytes::{lemma_le16_roundtrip, lemma_le32_roundtrip};
use crate::mock_bus::DRO_CADENCE;
use crate::protocol::{abs24_of, EngineState};

verus! {

/// The assembler after it has heard the answers of `engine` to the first
/// `n` sub-queries of the cadence.
pub open spec fn fed(held: AssemblerState, engine: EngineState, n: nat) -> AssemblerState
    decreases n,
{
    if n == 0 {
        held
    } else {
        let cmd = DRO_CADENCE@[n - 1];
        fed(held, engine, (n - 1) as nat).apply(cmd, engine.response(cmd))
    }
}

/// The telemetry of an engine as a snapshot.
pub open spec fn telemetry_snapshot(engine: EngineState) -> DroSnapshot {
    DroSnapshot {
        x_counts: engine.telemetry.x_counts,
        z_counts: engine.telemetry.z_counts,
        rpm: engine.telemetry.rpm,
    }
}

/// Whatever the assembler held before, after a full cadence of answers from
/// one engine its snapshot is that engine's telemetry.
pub proof fn lemma_full_cadence_rebuilds_telemetry(held: AssemblerState, engine: EngineState)
    requires
        engine.wf(),
    ensures
        fed(held, engine, 10).snapshot() == telemetry_snapshot(engine),
{
    reveal_with_fuel(fed, 11);
    let t = engine.telemetry;
    lemma_le32_roundtrip(abs24_of(t.x_counts), 0, 0, 0, 0);
    lemma_le32_roundtrip(abs24_of(t.z_counts), 0, 0, 0, 0);
    lemma_le16_roundtrip(t.rpm, 0, 0);
}

} // verus!
