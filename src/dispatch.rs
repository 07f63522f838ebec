//! Choosing the physical cores that run a core worker each.
use vstd::prelude::*;

verus! {

/// Why no cores were chosen.
#[derive(Debug, Clone, Copy, PartialEq, Eq, Structural)]
pub enum DispatchError {
    /// The host did not report its cores.
    CoresUnknown,
    /// More cores were asked for than the host has.
    TooManyCores { requested: usize, available: usize },
}

/// Relies on core_affinity's `get_core_ids`: the identifiers of the cores
/// this process may run on, or `None` where the platform does not report
/// them. Only each core's `id` is kept.
#[verifier::external_body]
fn physical_core_ids() -> (r: Option<Vec<usize>>) {
    core_affinity::get_core_ids().map(|ids| ids.into_iter().map(|c| c.id).collect())
}

/// The first `cores_num` of the `available` core identifiers, in order;
/// asking for more than there are is refused.
pub fn select_cores(available: &Vec<usize>, cores_num: usize) -> (r: Result<
    Vec<usize>,
    DispatchError,
>)
    ensures
        cores_num <= available.len() <==> r is Ok,
        r matches Ok(v) ==> v@ == available@.subrange(0, cores_num as int),
        r matches Err(e) ==> e == (DispatchError::TooManyCores {
            requested: cores_num,
            available: available.len(),
        }),
{
    if cores_num > available.len() {
        return Err(DispatchError::TooManyCores { requested: cores_num, available: available.len() });
    }
    let mut chosen: Vec<usize> = Vec::new();
    let mut i: usize = 0;
    while i < cores_num
        invariant
            cores_num <= available.len(),
            i <= cores_num,
            chosen@ == available@.subrange(0, i as int),
        decreases cores_num - i,
    {
        chosen.push(available[i]);
        i = i + 1;
        assert(chosen@ =~= available@.subrange(0, i as int));
    }
    Ok(chosen)
}

/// The cores chosen from what the host reported: none where it reported
/// nothing, else the first `cores_num` of `ids` as `select_cores` gives.
pub fn cores_from(ids: Option<Vec<usize>>, cores_num: usize) -> (r: Result<
    Vec<usize>,
    DispatchError,
>)
    ensures
        ids is None ==> r == Err::<Vec<usize>, DispatchError>(DispatchError::CoresUnknown),
        ids matches Some(v) ==> {
            &&& (cores_num <= v.len() <==> r is Ok)
            &&& r matches Ok(c) ==> c@ == v@.subrange(0, cores_num as int)
            &&& r matches Err(e) ==> e == (DispatchError::TooManyCores {
                requested: cores_num,
                available: v.len(),
            })
        },
{
    match ids {
        Some(v) => select_cores(&v, cores_num),
        None => Err(DispatchError::CoresUnknown),
    }
}

/// The cores that run a core worker each: the first `cores_num` cores of
/// the host, or the reason there are none. Nothing is chosen past the end
/// of what the host reports.
pub fn get_avaliable_cores(cores_num: usize) -> (r: Result<Vec<usize>, DispatchError>)
    ensures
        r matches Ok(v) ==> v.len() == cores_num,
        r matches Err(DispatchError::TooManyCores { requested, available }) ==> requested
            == cores_num && available < cores_num,
{
    cores_from(physical_core_ids(), cores_num)
}

} // verus!
