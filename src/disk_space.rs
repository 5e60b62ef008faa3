//! The computing parts of the disk-usage block: which figure drives the
//! state, the unit of the thresholds, and the byte figures of a file system.

use vstd::prelude::*;

verus! {

/// Which figure the block's state follows.
#[derive(Debug, Clone, Copy, PartialEq, Eq, Structural)]
pub enum InfoType {
    Available,
    Free,
    Used,
}

impl InfoType {
    /// The figure followed when the configuration names none.
    pub fn default_type() -> (r: InfoType)
        ensures
            r == InfoType::Available,
    {
        InfoType::Available
    }
}

/// Unit of the alert and warning thresholds.
#[derive(Debug, Clone, Copy, PartialEq, Eq, Structural)]
pub enum AlertUnit {
    Bytes,
    Kilo,
    Mega,
    Giga,
    Tera,
}

/// Reads a threshold unit: `None` for percentages, `Err` for an unknown
/// unit name.
pub fn parse_alert_unit(unit: Option<&str>) -> (r: Result<Option<AlertUnit>, String>)
    ensures
        unit is None ==> r == Ok::<Option<AlertUnit>, String>(None),
        unit matches Some(u) ==> ({
            if u@ == "TB"@ {
                r == Ok::<Option<AlertUnit>, String>(Some(AlertUnit::Tera))
            } else if u@ == "GB"@ {
                r == Ok::<Option<AlertUnit>, String>(Some(AlertUnit::Giga))
            } else if u@ == "MB"@ {
                r == Ok::<Option<AlertUnit>, String>(Some(AlertUnit::Mega))
            } else if u@ == "KB"@ {
                r == Ok::<Option<AlertUnit>, String>(Some(AlertUnit::Kilo))
            } else if u@ == "B"@ {
                r == Ok::<Option<AlertUnit>, String>(Some(AlertUnit::Bytes))
            } else {
                r matches Err(e) && e@ == u@
            }
        }),
{
    match unit {
        None => Ok(None),
        Some(u) => {
            let given: String = u.to_owned();
            if given == "TB".to_owned() {
                Ok(Some(AlertUnit::Tera))
            } else if given == "GB".to_owned() {
                Ok(Some(AlertUnit::Giga))
            } else if given == "MB".to_owned() {
                Ok(Some(AlertUnit::Mega))
            } else if given == "KB".to_owned() {
                Ok(Some(AlertUnit::Kilo))
            } else if given == "B".to_owned() {
                Ok(Some(AlertUnit::Bytes))
            } else {
                Err(given)
            }
        },
    }
}

/// Byte figures of a file system.
#[derive(Debug, Clone, Copy, PartialEq, Eq, Structural)]
pub struct DiskFigures {
    pub total: u64,
    pub used: u64,
    pub available: u64,
    pub free: u64,
}

/// Byte figures from file-system statistics: `None` when the counts are
/// inconsistent (more free blocks than blocks) or a figure does not fit in
/// 64 bits.
pub fn disk_figures(blocks: u64, blocks_free: u64, blocks_available: u64, fragment_size: u64, block_size: u64) -> (r: Option<DiskFigures>)
    ensures
        (blocks_free <= blocks
            && blocks * fragment_size <= u64::MAX
            && blocks_available * block_size <= u64::MAX
            && blocks_free * block_size <= u64::MAX) <==> r is Some,
        r matches Some(f) ==> ({
            &&& f.total == blocks * fragment_size
            &&& f.used == (blocks - blocks_free) * fragment_size
            &&& f.available == blocks_available * block_size
            &&& f.free == blocks_free * block_size
        }),
{
    if blocks_free > blocks {
        return None;
    }
    let total = match blocks.checked_mul(fragment_size) {
        Some(t) => t,
        None => {
            return None;
        },
    };
    let available = match blocks_available.checked_mul(block_size) {
        Some(a) => a,
        None => {
            return None;
        },
    };
    let free = match blocks_free.checked_mul(block_size) {
        Some(f) => f,
        None => {
            return None;
        },
    };
    proof {
        vstd::arithmetic::mul::lemma_mul_inequality((blocks - blocks_free) as int, blocks as int, fragment_size as int);
    }
    let used = (blocks - blocks_free) * fragment_size;
    Some(DiskFigures { total, used, available, free })
}

/// The figure that the state follows.
pub fn followed_figure(info: InfoType, f: DiskFigures) -> (r: u64)
    ensures
        r == match info {
            InfoType::Available => f.available,
            InfoType::Free => f.free,
            InfoType::Used => f.used,
        },
{
    match info {
        InfoType::Available => f.available,
        InfoType::Free => f.free,
        InfoType::Used => f.used,
    }
}

} // verus!
