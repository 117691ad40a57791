//! Host port allocation for branch containers.

use vstd::prelude::*;

verus! {

/// Port handed out when no branch has been recorded yet.
pub const DEFAULT_PORT_FLOOR: u16 = 55432;

/// How many ports a scan looks at, at most.
pub const PORT_SCAN_LIMIT: u16 = 1000;

/// Why no port could be allocated.
#[derive(Debug, Clone, Copy, PartialEq, Eq, Structural)]
pub enum PortError {
    /// No port of the scan window starting at `start_port` was free.
    NoFreePort { start_port: u16 },
    /// The highest recorded port is the top of the `u16` range: no port above it is left.
    RangeExhausted,
}

/// The port after the highest recorded one, or the floor when none is
/// recorded; `None` when the highest recorded port is the top of the range.
pub open spec fn next_port_spec(max_port: Option<u16>) -> Option<u16> {
    match max_port {
        Some(m) => if m == 65535 { None } else { Some((m + 1) as u16) },
        None => Some(55432),
    }
}

/// Where a scan for a new branch's port starts: the next port, raised to the
/// configured start of the range.
pub open spec fn allocation_start_spec(max_port: Option<u16>, range_start: u16) -> Result<u16, PortError> {
    match next_port_spec(max_port) {
        Some(n) => Ok(if n >= range_start { n } else { range_start }),
        None => Err(PortError::RangeExhausted),
    }
}

/// Number of ports a scan from `start` looks at: 1000, or fewer where the
/// top of the `u16` range (65535 included) comes first.
pub open spec fn scan_len(start: u16) -> nat {
    if 65536 - start < 1000 {
        (65536 - start) as nat
    } else {
        1000
    }
}

/// The ports a scan from `start` looks at, in order.
pub open spec fn scan_window(start: u16) -> Seq<u16> {
    Seq::new(scan_len(start), |i: int| (start + i) as u16)
}

/// The ports of the scan window that no container publishes, in order.
pub open spec fn candidates_of(start: u16, published: Seq<u16>) -> Seq<u16> {
    scan_window(start).filter(|p: u16| !published.contains(p))
}

/// The first candidate whose bind probe succeeded; `probes[i]` is the probe
/// of `cands[i]`, and candidates past the probes are not considered.
pub open spec fn first_bindable(cands: Seq<u16>, probes: Seq<bool>) -> Option<u16>
    decreases cands.len(),
{
    if cands.len() == 0 || probes.len() == 0 {
        None
    } else if probes[0] {
        Some(cands[0])
    } else {
        first_bindable(cands.drop_first(), probes.drop_first())
    }
}

/// The port after the highest recorded one; `None` when that is the top of
/// the range, so that no recorded port is handed out again.
pub fn next_port(max_port: Option<u16>) -> (r: Option<u16>)
    ensures
        r == next_port_spec(max_port),
        max_port == Some(65535u16) ==> r is None,
{
    match max_port {
        Some(m) => if m == 65535 {
            None
        } else {
            Some(m + 1)
        },
        None => Some(DEFAULT_PORT_FLOOR),
    }
}

/// The port a scan for a new branch starts from, or `RangeExhausted`.
pub fn allocation_start(max_port: Option<u16>, range_start: u16) -> (r: Result<u16, PortError>)
    ensures
        r == allocation_start_spec(max_port, range_start),
{
    match next_port(max_port) {
        Some(n) => Ok(if n >= range_start { n } else { range_start }),
        None => Err(PortError::RangeExhausted),
    }
}

fn contains_port(v: &Vec<u16>, p: u16) -> (r: bool)
    ensures
        r == v@.contains(p),
{
    let mut i: usize = 0;
    while i < v.len()
        invariant
            i <= v@.len(),
            forall|j: int| 0 <= j < i ==> v@[j] != p,
        decreases v@.len() - i,
    {
        if v[i] == p {
            return true;
        }
        i += 1;
    }
    false
}

/// The ports to probe, in order, for a scan from `start_port` that skips the
/// ports published by running containers.
pub fn port_candidates(start_port: u16, published: &Vec<u16>) -> (r: Vec<u16>)
    ensures
        r@ == candidates_of(start_port, published@),
        r@.len() <= 1000,
        forall|i: int|
            0 <= i < r@.len() ==> start_port <= #[trigger] r@[i] && r@[i] < start_port + 1000,
{
    let room: u32 = 65536 - start_port as u32;
    let n: u32 = if room < 1000 { room } else { 1000 };
    let ghost pred = |p: u16| !published@.contains(p);
    let mut out: Vec<u16> = Vec::new();
    let mut i: u32 = 0;
    while i < n
        invariant
            n == scan_len(start_port),
            n + start_port <= 65536,
            i <= n,
            out@ == scan_window(start_port).subrange(0, i as int).filter(pred),
            pred == (|p: u16| !published@.contains(p)),
        decreases n - i,
    {
        let p = (start_port as u32 + i) as u16;
        proof {
            assert(scan_window(start_port).subrange(0, i + 1) =~= scan_window(start_port).subrange(
                0,
                i as int,
            ).push(p));
            scan_window(start_port).subrange(0, i as int).lemma_filter_push(p, pred);
        }
        if !contains_port(published, p) {
            out.push(p);
        }
        i += 1;
    }
    proof {
        assert(scan_window(start_port).subrange(0, n as int) =~= scan_window(start_port));
        lemma_candidates_in_window(start_port, published@);
    }
    out
}

/// Every candidate lies in the scan window, which holds at most 1000 ports
/// from `start` upward and never wraps past the top of the `u16` range.
pub proof fn lemma_candidates_in_window(start: u16, published: Seq<u16>)
    ensures
        candidates_of(start, published).len() <= 1000,
        forall|i: int|
            0 <= i < candidates_of(start, published).len() ==> start <= #[trigger] candidates_of(
                start,
                published,
            )[i] && candidates_of(start, published)[i] < start + 1000,
{
    let pred = |p: u16| !published.contains(p);
    scan_window(start).lemma_filter_len(pred);
    assert forall|i: int|
        0 <= i < candidates_of(start, published).len() implies start <= #[trigger] candidates_of(
            start,
            published,
        )[i] && candidates_of(start, published)[i] < start + 1000 by {
        scan_window(start).lemma_filter_contains_rev(pred, candidates_of(start, published)[i]);
        let _ = scan_window(start).lemma_filter_pred(pred, i);
    }
}

/// Picks the first candidate port whose bind probe succeeded. `probes[i]` is
/// the bind probe of the `i`-th element of `port_candidates(start_port, published)`;
/// probing may stop at the first success.
pub fn pick_available_port(start_port: u16, published: &Vec<u16>, probes: &Vec<bool>) -> (r:
    Result<u16, PortError>)
    ensures
        r == (match first_bindable(candidates_of(start_port, published@), probes@) {
            Some(p) => Ok(p),
            None => Err(PortError::NoFreePort { start_port }),
        }),
{
    let cands = port_candidates(start_port, published);
    let mut i: usize = 0;
    proof {
        assert(cands@.subrange(0, cands@.len() as int) =~= cands@);
        assert(probes@.subrange(0, probes@.len() as int) =~= probes@);
    }
    while i < cands.len() && i < probes.len()
        invariant
            cands@ == candidates_of(start_port, published@),
            i <= cands@.len(),
            i <= probes@.len(),
            first_bindable(cands@, probes@) == first_bindable(
                cands@.subrange(i as int, cands@.len() as int),
                probes@.subrange(i as int, probes@.len() as int),
            ),
        decreases cands@.len() - i,
    {
        proof {
            assert(cands@.subrange(i as int, cands@.len() as int).drop_first() =~= cands@.subrange(
                i + 1,
                cands@.len() as int,
            ));
            assert(probes@.subrange(i as int, probes@.len() as int).drop_first()
                =~= probes@.subrange(i + 1, probes@.len() as int));
        }
        if probes[i] {
            proof {
                assert(probes@.subrange(i as int, probes@.len() as int)[0]);
                let sc = cands@.subrange(i as int, cands@.len() as int);
                let sp = probes@.subrange(i as int, probes@.len() as int);
                assert(sc[0] == cands@[i as int]);
                assert(sc.len() > 0 && sp.len() > 0 && sp[0]);
                assert(first_bindable(sc, sp) == Some(sc[0]));
            }
            return Ok(cands[i]);
        }
        i += 1;
    }
    proof {
        assert(cands@.subrange(i as int, cands@.len() as int).len() == 0 || probes@.subrange(
            i as int,
            probes@.len() as int,
        ).len() == 0);
    }
    Err(PortError::NoFreePort { start_port })
}

/// When every port of the scan window is published, the scan offers no
/// candidate and allocation fails rather than wrapping or scanning on.
pub proof fn lemma_exhausted_scan_fails(start: u16, published: Seq<u16>, probes: Seq<bool>)
    requires
        forall|i: int| 0 <= i < scan_len(start) ==> published.contains(#[trigger] scan_window(start)[i]),
    ensures
        candidates_of(start, published).len() == 0,
        first_bindable(candidates_of(start, published), probes).is_none(),
{
    let pred = |p: u16| !published.contains(p);
    if candidates_of(start, published).len() > 0 {
        let x = candidates_of(start, published)[0];
        scan_window(start).lemma_filter_contains_rev(pred, x);
        let k = choose|k: int| 0 <= k < scan_window(start).len() && scan_window(start)[k] == x;
        let _ = scan_window(start).lemma_filter_pred(pred, 0);
    }
}

/// A port allocated from the store's next port lies above every recorded
/// port, so it differs from all of them. When the highest recorded port is the
/// top of the range, no start exists and allocation fails instead.
pub proof fn lemma_allocated_port_is_fresh(
    recorded: Seq<u16>,
    max_port: u16,
    range_start: u16,
    published: Seq<u16>,
    probes: Seq<bool>,
    port: u16,
)
    requires
        forall|i: int| 0 <= i < recorded.len() ==> #[trigger] recorded[i] <= max_port,
        allocation_start_spec(Some(max_port), range_start) is Ok,
        first_bindable(candidates_of(allocation_start_spec(Some(max_port), range_start)->Ok_0, published), probes)
            == Some(port),
    ensures
        !recorded.contains(port),
        max_port < 65535,
{
    let start = allocation_start_spec(Some(max_port), range_start)->Ok_0;
    lemma_first_bindable_member(candidates_of(start, published), probes);
    lemma_candidates_in_window(start, published);
}

/// With 65535 on record, allocation fails with a clear error.
pub proof fn lemma_top_of_range_exhausted(range_start: u16)
    ensures
        allocation_start_spec(Some(65535), range_start) == Err::<u16, PortError>(PortError::RangeExhausted),
{
}

proof fn lemma_first_bindable_member(cands: Seq<u16>, probes: Seq<bool>)
    ensures
        first_bindable(cands, probes) matches Some(p) ==> cands.contains(p),
    decreases cands.len(),
{
    if cands.len() > 0 && probes.len() > 0 && !probes[0] {
        lemma_first_bindable_member(cands.drop_first(), probes.drop_first());
        if let Some(p) = first_bindable(cands, probes) {
            let k = choose|k: int| 0 <= k < cands.drop_first().len() && cands.drop_first()[k] == p;
            assert(cands[k + 1] == p);
        }
    } else if cands.len() > 0 && probes.len() > 0 {
        assert(cands[0] == cands[0]);
    }
}

/// When every probed candidate refuses to bind, allocation fails: the scan
/// ends after the window instead of looping or wrapping.
pub proof fn lemma_unbindable_scan_fails(cands: Seq<u16>, probes: Seq<bool>)
    requires
        forall|i: int| 0 <= i < probes.len() ==> !#[trigger] probes[i],
    ensures
        first_bindable(cands, probes).is_none(),
    decreases cands.len(),
{
    if cands.len() > 0 && probes.len() > 0 {
        assert(!probes[0]);
        assert forall|i: int| 0 <= i < probes.drop_first().len() implies !#[trigger] probes.drop_first()[i] by {
            assert(probes.drop_first()[i] == probes[i + 1]);
        }
        lemma_unbindable_scan_fails(cands.drop_first(), probes.drop_first());
    }
}

} // verus!
