//! Monitors.
use vstd::prelude::*;
use vstd::string::*;
use crate::windowing::geometry::Size;

verus! {

/// Identifies a monitor.
#[derive(Debug, Clone, Copy, PartialEq, Eq, Hash, Structural)]
pub struct OutputId(pub u64);

/// What a monitor is like.
#[derive(Debug)]
pub struct OutputInfo {
    pub id: OutputId,
    /// Its name, such as `DP-1`.
    pub name: Option<String>,
    /// Whole scale, at least one.
    pub scale: i32,
    /// Size in physical pixels.
    pub physical_size: Size,
    /// Position among the monitors.
    pub position: (i32, i32),
    /// Refresh rate in thousandths of a hertz; zero where it is not known.
    pub refresh_mhz: i32,
}

/// A monitor as the windowing system reports it.
#[derive(Debug)]
pub struct Monitor {
    pub name: Option<String>,
    /// The scale, rounded.
    pub scale: i32,
    pub size: Size,
    pub position: (i32, i32),
    pub refresh_mhz: Option<u32>,
}

/// The name of something that may have none.
pub open spec fn name_text(n: Option<String>) -> Option<Seq<char>> {
    match n {
        Some(s) => Some(s@),
        None => None,
    }
}

/// Whether `o` describes monitor number `i`, counted from zero: its identifier
/// is one more, its scale at least one.
pub open spec fn describes(o: OutputInfo, m: Monitor, i: int) -> bool {
    &&& o.id.0 == i + 1
    &&& name_text(o.name) == name_text(m.name)
    &&& o.scale == if m.scale < 1 { 1i32 } else { m.scale }
    &&& o.physical_size == m.size
    &&& o.position == m.position
    &&& o.refresh_mhz == match m.refresh_mhz {
        Some(r) => if r <= i32::MAX { r as int } else { r - 0x1_0000_0000 },
        None => 0,
    }
}

/// The monitors, numbered from one.
pub fn outputs(monitors: &Vec<Monitor>) -> (r: Vec<OutputInfo>)
    ensures
        r@.len() == monitors@.len(),
        forall|i: int| 0 <= i < r@.len() ==> describes(#[trigger] r@[i], monitors@[i], i),
{
    let mut out: Vec<OutputInfo> = Vec::new();
    let mut i: usize = 0;
    while i < monitors.len()
        invariant
            i <= monitors@.len(),
            out@.len() == i,
            forall|k: int| 0 <= k < i ==> describes(#[trigger] out@[k], monitors@[k], k),
        decreases monitors.len() - i,
    {
        let m = &monitors[i];
        let refresh_mhz: i32 = match m.refresh_mhz {
            Some(r) => {
                proof {
                    assert(r > 0x7fff_ffff ==> r as i32 == r - 0x1_0000_0000) by (bit_vector);
                    assert(r <= 0x7fff_ffff ==> r as i32 == r) by (bit_vector);
                }
                r as i32
            },
            None => 0,
        };
        let scale: i32 = if m.scale < 1 { 1 } else { m.scale };
        let id: u64 = i as u64;
        out.push(
            OutputInfo {
                id: OutputId(id + 1),
                name: m.name.clone(),
                scale,
                physical_size: m.size,
                position: m.position,
                refresh_mhz,
            },
        );
        i = i + 1;
    }
    out
}

/// Law: a monitor is described by what was reported of it; its number tells it from
/// every other, and a refresh rate that is not known is zero.
pub proof fn law_monitors_are_described_as_reported(
    o: OutputInfo,
    m: Monitor,
    i: int,
    p: OutputInfo,
    n: Monitor,
    j: int,
)
    requires
        describes(o, m, i),
        describes(p, n, j),
    ensures
        o.id.0 == i + 1,
        o.id == p.id ==> i == j,
        o.physical_size == m.size,
        o.position == m.position,
        o.scale >= 1,
        m.scale >= 1 ==> o.scale == m.scale,
        m.scale < 1 ==> o.scale == 1,
        m.name is None <==> o.name is None,
        m.name is Some ==> o.name->0@ == m.name->0@,
        m.refresh_mhz is None ==> o.refresh_mhz == 0,
        m.refresh_mhz matches Some(r) ==> r <= 0x7fff_ffff ==> o.refresh_mhz == r,
        m.refresh_mhz matches Some(r) ==> r > 0x7fff_ffff ==> o.refresh_mhz == r - 0x1_0000_0000,
{
}

} // verus!
