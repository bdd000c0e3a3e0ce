//! Motor control helpers for stopping all connected motors on the brain, used both by the
//! `monitor stop` command and by the automatic stop on breakpoints.

use vstd::prelude::*;

verus! {

/// The number of smart device ports of the brain (`V5_MAX_DEVICE_PORTS`).
pub const MAX_DEVICE_PORTS: usize = 32;

/// The ports whose motor voltage must be set to 0 mV to stop every motor: each port with a device
/// plugged in (`connected[i]`), in port order.
///
/// Ports with nothing connected are skipped without ending the scan, so noncontiguous
/// configurations (for example motors on ports 1 and 5 with nothing on 2 to 4) are handled.
pub fn stop_all_motors(connected: &[bool]) -> (r: Vec<u32>)
    requires
        connected@.len() <= u32::MAX,
    ensures
        r@ == Seq::new(connected@.len() as nat, |i: int| i as u32).filter(|i: u32| connected@[i as int]),
{
    let mut ports: Vec<u32> = Vec::new();
    let mut i: usize = 0;
    while i < connected.len()
        invariant
            i <= connected@.len(),
            connected@.len() <= u32::MAX,
            ports@ == Seq::new(i as nat, |k: int| k as u32).filter(|k: u32| connected@[k as int]),
        decreases connected@.len() - i,
    {
        proof {
            let s = Seq::new((i + 1) as nat, |k: int| k as u32);
            assert(s.drop_last() =~= Seq::new(i as nat, |k: int| k as u32));
            reveal_with_fuel(Seq::filter, 1);
        }
        if connected[i] {
            ports.push(i as u32);
        }
        i = i + 1;
    }
    ports
}

} // verus!
