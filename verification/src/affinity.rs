//! Choosing CPU cores: one core is dedicated to sending user interrupts, and
//! the runtime's worker threads are spread over the other cores.
use vstd::prelude::*;
use crate::parse::{parse_usize, parsed_usize};

verus! {

/// The dedicated core before one is chosen.
pub const UNSET_CORE: usize = usize::MAX;

/// Where the dedicated core is kept once chosen.
pub struct UipiCoreCell {
    pub core: usize,
}

impl UipiCoreCell {
    /// No core chosen yet.
    pub fn new() -> (c: Self)
        ensures
            c.core == UNSET_CORE,
    {
        UipiCoreCell { core: UNSET_CORE }
    }
}

/// The dedicated core for a machine of `total_cpus` cores when the user
/// asked for the core written in `requested`: the requested core when it
/// reads as a number, else the last core (core 0 on a single-core machine),
/// in any case at most the last core.
pub open spec fn selected_core(total_cpus: usize, requested: Option<Seq<char>>) -> usize {
    let default: usize = if total_cpus > 1 { (total_cpus - 1) as usize } else { 0 };
    let wanted: usize = match requested {
        Some(text) => match parsed_usize(text) {
            Some(c) => c,
            None => default,
        },
        None => default,
    };
    if wanted < total_cpus - 1 { wanted } else { (total_cpus - 1) as usize }
}

/// The text of an optional string.
pub open spec fn text_of(requested: Option<&str>) -> Option<Seq<char>> {
    match requested {
        Some(s) => Some(s@),
        None => None,
    }
}

/// Chooses the dedicated core, keeps it in `cell` and returns it.
/// `requested` is the text of the user's setting, if any.
pub fn init_uipi_core(cell: &mut UipiCoreCell, total_cpus: usize, requested: Option<&str>) -> (core: usize)
    requires
        total_cpus >= 1,
    ensures
        core == selected_core(total_cpus, text_of(requested)),
        core < total_cpus,
        final(cell).core == core,
{
    let default: usize = if total_cpus > 1 { total_cpus - 1 } else { 0 };
    let wanted: usize = match requested {
        Some(text) => match parse_usize(text) {
            Some(c) => c,
            None => default,
        },
        None => default,
    };
    let core = if wanted < total_cpus - 1 { wanted } else { total_cpus - 1 };
    cell.core = core;
    core
}

/// The dedicated core, or `UNSET_CORE` when none was chosen.
pub fn get_uipi_core(cell: &UipiCoreCell) -> (core: usize)
    ensures
        core == cell.core,
{
    cell.core
}

/// The cores below `total_cpus` other than `uipi_core`, in ascending order.
pub open spec fn worker_core_list(total_cpus: nat, uipi_core: usize) -> Seq<usize>
    decreases total_cpus,
{
    if total_cpus == 0 {
        Seq::empty()
    } else {
        let before = worker_core_list((total_cpus - 1) as nat, uipi_core);
        if total_cpus - 1 == uipi_core { before } else { before.push((total_cpus - 1) as usize) }
    }
}

/// The cores the runtime's worker threads may use.
pub fn worker_cores(total_cpus: usize, uipi_core: usize) -> (cores: Vec<usize>)
    ensures
        cores@ == worker_core_list(total_cpus as nat, uipi_core),
{
    let mut cores: Vec<usize> = Vec::new();
    let mut c: usize = 0;
    while c < total_cpus
        invariant
            c <= total_cpus,
            cores@ == worker_core_list(c as nat, uipi_core),
        decreases total_cpus - c,
    {
        if c != uipi_core {
            cores.push(c);
        }
        c = c + 1;
    }
    cores
}

/// The core for the worker that drew `ticket`: tickets go round the worker
/// cores in order.
pub fn worker_core_for(cores: &Vec<usize>, ticket: usize) -> (core: usize)
    requires
        cores@.len() > 0,
    ensures
        core == cores@[ticket as int % cores@.len() as int],
{
    cores[ticket % cores.len()]
}

/// The worker cores are exactly the cores below `total_cpus` other than the
/// dedicated one, each once, in ascending order.
pub proof fn law_worker_cores_exclude_dedicated(total_cpus: usize, uipi_core: usize)
    ensures
        forall|i: int| 0 <= i < worker_core_list(total_cpus as nat, uipi_core).len() ==> {
            let c = #[trigger] worker_core_list(total_cpus as nat, uipi_core)[i];
            c < total_cpus && c != uipi_core
        },
        forall|c: usize| c < total_cpus && c != uipi_core ==>
            #[trigger] worker_core_list(total_cpus as nat, uipi_core).contains(c),
        forall|i: int, j: int| 0 <= i < j < worker_core_list(total_cpus as nat, uipi_core).len() ==>
            worker_core_list(total_cpus as nat, uipi_core)[i] < worker_core_list(total_cpus as nat, uipi_core)[j],
    decreases total_cpus,
{
    if total_cpus > 0 {
        let prev = (total_cpus - 1) as usize;
        let before = worker_core_list(prev as nat, uipi_core);
        law_worker_cores_exclude_dedicated(prev, uipi_core);
        let all = worker_core_list(total_cpus as nat, uipi_core);
        assert(all == if prev == uipi_core { before } else { before.push(prev) });
        assert forall|i: int| 0 <= i < all.len() implies #[trigger] all[i] < total_cpus
            && all[i] != uipi_core by {
            if i < before.len() {
                assert(all[i] == before[i]);
            }
        }
        assert forall|i: int, j: int| 0 <= i < j < all.len() implies all[i] < all[j] by {
            if j < before.len() {
                assert(all[i] == before[i] && all[j] == before[j]);
            } else {
                assert(all[i] == before[i]);
            }
        }
        assert forall|c: usize| c < total_cpus && c != uipi_core implies #[trigger] all.contains(c) by {
            if c < prev {
                assert(before.contains(c));
                let k = choose|k: int| 0 <= k < before.len() && before[k] == c;
                assert(all[k] == c);
            } else {
                assert(all[all.len() - 1] == c);
            }
        }
    }
}

/// Within any `cores.len()` consecutive tickets, every worker core is used:
/// the returned ticket `t`, one of those from `first` on, picks core `i`.
pub proof fn law_worker_tickets_round_robin(cores: Seq<usize>, first: nat, i: int) -> (t: nat)
    requires
        cores.len() > 0,
        0 <= i < cores.len(),
    ensures
        first <= t < first + cores.len(),
        t as int % cores.len() as int == i,
{
    let n = cores.len() as int;
    let r = first as int % n;
    let t: nat = if i >= r { (first + (i - r)) as nat } else { (first + (n - r) + i) as nat };
    assert(first as int == (first as int / n) * n + r) by (nonlinear_arith)
        requires
            n > 0,
            r == first as int % n,
    ;
    if i >= r {
        assert(t as int % n == i) by (nonlinear_arith)
            requires
                n > 0,
                0 <= r <= i < n,
                t as int == (first as int / n) * n + r + (i - r),
        ;
    } else {
        assert(t as int % n == i) by (nonlinear_arith)
            requires
                n > 0,
                0 <= i < r < n,
                t as int == (first as int / n) * n + n + i,
        ;
    }
    t
}


/// The dedicated core is the requested core when the request reads as a
/// number `c` (any `c`, core 0 included), cut down to the last core;
/// without a request, or when it does not read as a number, it is the last
/// core.
pub proof fn law_requested_core_is_used(total_cpus: usize, text: Seq<char>)
    requires
        total_cpus >= 1,
    ensures
        match parsed_usize(text) {
            Some(c) => selected_core(total_cpus, Some(text))
                == (if c <= total_cpus - 1 { c as int } else { total_cpus - 1 }),
            None => selected_core(total_cpus, Some(text)) == total_cpus - 1,
        },
        selected_core(total_cpus, None) == total_cpus - 1,
{
}

} // verus!
