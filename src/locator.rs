//! Finding a running server: the hint file first, then the well-known ports
//! one by one, then the ephemeral range in batches probed together.
//!
//! `Locator` decides; its host performs each planned action (read the hint,
//! probe a URL, probe a batch of URLs) and reports what came of it.
use vstd::prelude::*;
use crate::server_info::{DiscoveryError, ServerInfo, hint_url_spec};
use crate::url::{local_url, local_url_spec};

verus! {

/// Timeout of the probe of a hinted URL.
pub const HINT_TIMEOUT_MS: u64 = 2000;

/// Timeout of each probe during the port scan.
pub const SCAN_TIMEOUT_MS: u64 = 1000;

/// How many well-known ports there are.
pub const WELL_KNOWN_COUNT: usize = 5;

/// First port of the ephemeral range.
pub const EPHEMERAL_START: u16 = 30000;

/// End of the ephemeral range (not included).
pub const EPHEMERAL_END: u16 = 50000;

/// Distance between the first ports of two batches.
pub const STRIDE: u16 = 100;

/// Number of consecutive ports probed together.
pub const BATCH_SIZE: u16 = 10;

/// The well-known ports, in the order in which they are probed.
pub open spec fn well_known() -> Seq<nat> {
    seq![4096, 3000, 8080, 8000, 5000]
}

/// The URLs of the batch that starts at `origin`, in port order.
pub open spec fn batch_urls(origin: nat) -> Seq<Seq<char>> {
    Seq::new(BATCH_SIZE as nat, |j: int| local_url_spec(origin + j as nat))
}

/// The least index below `n` at which `h` reports a healthy answer.
pub open spec fn first_healthy(h: Seq<bool>, n: nat) -> Option<nat>
    decreases n,
{
    if n == 0 {
        None
    } else {
        match first_healthy(h, (n - 1) as nat) {
            Some(j) => Some(j),
            None => if n - 1 < h.len() && h[n - 1] {
                Some((n - 1) as nat)
            } else {
                None
            },
        }
    }
}

proof fn lemma_first_healthy_kept(h: Seq<bool>, n: nat, m: nat)
    requires
        n <= m,
        first_healthy(h, n) is Some,
    ensures
        first_healthy(h, m) == first_healthy(h, n),
    decreases m - n,
{
    if n < m {
        lemma_first_healthy_kept(h, n, (m - 1) as nat);
    }
}

/// Where a search stands.
pub enum Stage {
    /// The hint file has not been read yet.
    Start,
    /// The hint named this URL, which is being probed.
    CheckingHint(Seq<char>),
    /// The well-known port of this index is being probed.
    WellKnown(nat),
    /// The batch that starts at this port is being probed.
    Ephemeral(nat),
    /// The search is over, with what it found.
    Finished(Option<Seq<char>>),
}

/// What the host is asked to do next.
pub enum Planned {
    ReadHint,
    Probe { url: Seq<char>, timeout_ms: nat },
    ProbeBatch { urls: Seq<Seq<char>>, timeout_ms: nat },
    Finish(Option<Seq<char>>),
}

/// The stages that a search can be in.
pub open spec fn stage_ok(s: Stage) -> bool {
    match s {
        Stage::WellKnown(i) => i < WELL_KNOWN_COUNT,
        Stage::Ephemeral(o) => EPHEMERAL_START <= o < EPHEMERAL_END && (o - EPHEMERAL_START) % (
        STRIDE as int) == 0,
        _ => true,
    }
}

/// The action that a stage asks for.
pub open spec fn plan(s: Stage) -> Planned {
    match s {
        Stage::Start => Planned::ReadHint,
        Stage::CheckingHint(u) => Planned::Probe { url: u, timeout_ms: HINT_TIMEOUT_MS as nat },
        Stage::WellKnown(i) => Planned::Probe {
            url: local_url_spec(well_known()[i as int]),
            timeout_ms: SCAN_TIMEOUT_MS as nat,
        },
        Stage::Ephemeral(o) => Planned::ProbeBatch {
            urls: batch_urls(o),
            timeout_ms: SCAN_TIMEOUT_MS as nat,
        },
        Stage::Finished(f) => Planned::Finish(f),
    }
}

/// The stage after the hint file was read; `hint` is the URL it named.
pub open spec fn after_hint(s: Stage, hint: Option<Seq<char>>) -> Stage {
    match s {
        Stage::Start => match hint {
            Some(u) => Stage::CheckingHint(u),
            None => Stage::WellKnown(0),
        },
        _ => s,
    }
}

/// The stage after a single probe answered `healthy`.
pub open spec fn after_probe(s: Stage, healthy: bool) -> Stage {
    match s {
        Stage::CheckingHint(u) => if healthy {
            Stage::Finished(Some(u))
        } else {
            Stage::WellKnown(0)
        },
        Stage::WellKnown(i) => if healthy {
            Stage::Finished(Some(local_url_spec(well_known()[i as int])))
        } else if i + 1 < WELL_KNOWN_COUNT {
            Stage::WellKnown((i + 1) as nat)
        } else {
            Stage::Ephemeral(EPHEMERAL_START as nat)
        },
        _ => s,
    }
}

/// The stage after a batch answered; `healthy[j]` is the answer of the
/// batch's port `j`, and a missing answer counts as unhealthy.
pub open spec fn after_batch(s: Stage, healthy: Seq<bool>) -> Stage {
    match s {
        Stage::Ephemeral(o) => match first_healthy(healthy, BATCH_SIZE as nat) {
            Some(j) => Stage::Finished(Some(local_url_spec(o + j))),
            None => if o + STRIDE < EPHEMERAL_END {
                Stage::Ephemeral((o + STRIDE) as nat)
            } else {
                Stage::Finished(None)
            },
        },
        _ => s,
    }
}

/// An action for the host.
pub enum LocateAction {
    /// Read the hint file and report with `on_hint`.
    ReadHint,
    /// Probe the health of `url` and report with `on_probe`.
    Probe { url: String, timeout_ms: u64 },
    /// Probe the health of all of `urls` at once and report with `on_batch`.
    ProbeBatch { urls: Vec<String>, timeout_ms: u64 },
    /// The search is over.
    Finish { found: Option<String> },
}

pub open spec fn strings_view(v: Seq<String>) -> Seq<Seq<char>> {
    v.map_values(|s: String| s@)
}

impl View for LocateAction {
    type V = Planned;

    open spec fn view(&self) -> Planned {
        match self {
            LocateAction::ReadHint => Planned::ReadHint,
            LocateAction::Probe { url, timeout_ms } => Planned::Probe {
                url: url@,
                timeout_ms: *timeout_ms as nat,
            },
            LocateAction::ProbeBatch { urls, timeout_ms } => Planned::ProbeBatch {
                urls: strings_view(urls@),
                timeout_ms: *timeout_ms as nat,
            },
            LocateAction::Finish { found } => Planned::Finish(
                match found {
                    Some(u) => Some(u@),
                    None => None,
                },
            ),
        }
    }
}

enum Phase {
    Start,
    CheckingHint { url: String },
    WellKnown { index: usize },
    Ephemeral { origin: u16 },
    Finished { found: Option<String> },
}

/// One search for a running server.
pub struct Locator {
    phase: Phase,
}

impl View for Locator {
    type V = Stage;

    closed spec fn view(&self) -> Stage {
        match self.phase {
            Phase::Start => Stage::Start,
            Phase::CheckingHint { url } => Stage::CheckingHint(url@),
            Phase::WellKnown { index } => Stage::WellKnown(index as nat),
            Phase::Ephemeral { origin } => Stage::Ephemeral(origin as nat),
            Phase::Finished { found } => Stage::Finished(
                match found {
                    Some(u) => Some(u@),
                    None => None,
                },
            ),
        }
    }
}

fn well_known_port(i: usize) -> (r: u16)
    requires
        i < WELL_KNOWN_COUNT,
    ensures
        r as nat == well_known()[i as int],
{
    if i == 0 {
        4096
    } else if i == 1 {
        3000
    } else if i == 2 {
        8080
    } else if i == 3 {
        8000
    } else {
        5000
    }
}

fn batch(origin: u16) -> (r: Vec<String>)
    requires
        origin + BATCH_SIZE <= EPHEMERAL_END,
    ensures
        strings_view(r@) == batch_urls(origin as nat),
{
    let mut v: Vec<String> = Vec::new();
    let mut j: u16 = 0;
    while j < BATCH_SIZE
        invariant
            j <= BATCH_SIZE,
            origin + BATCH_SIZE <= EPHEMERAL_END,
            v@.len() == j,
            forall|m: int| 0 <= m < j ==> #[trigger] v@[m]@ == local_url_spec((origin + m) as nat),
        decreases BATCH_SIZE - j,
    {
        v.push(local_url(origin + j));
        j = j + 1;
    }
    assert(strings_view(v@) =~= batch_urls(origin as nat));
    v
}

impl Locator {
    #[verifier::type_invariant]
    spec fn inv(&self) -> bool {
        stage_ok(self@)
    }

    /// A search that has not begun.
    pub fn new() -> (r: Locator)
        ensures
            r@ == Stage::Start,
    {
        Locator { phase: Phase::Start }
    }

    /// What the host is to do next.
    pub fn action(&self) -> (r: LocateAction)
        ensures
            r@ == plan(self@),
    {
        proof {
            use_type_invariant(self);
        }
        match &self.phase {
            Phase::Start => LocateAction::ReadHint,
            Phase::CheckingHint { url } => LocateAction::Probe {
                url: url.clone(),
                timeout_ms: HINT_TIMEOUT_MS,
            },
            Phase::WellKnown { index } => LocateAction::Probe {
                url: local_url(well_known_port(*index)),
                timeout_ms: SCAN_TIMEOUT_MS,
            },
            Phase::Ephemeral { origin } => LocateAction::ProbeBatch {
                urls: batch(*origin),
                timeout_ms: SCAN_TIMEOUT_MS,
            },
            Phase::Finished { found } => LocateAction::Finish {
                found: match found {
                    Some(u) => Some(u.clone()),
                    None => None,
                },
            },
        }
    }

    /// Takes in what reading the hint file gave.
    pub fn on_hint(&mut self, hint: &Result<Option<ServerInfo>, DiscoveryError>)
        ensures
            final(self)@ == after_hint(old(self)@, hint_url_spec(*hint)),
    {
        if let Phase::Start = self.phase {
            let next = match hint {
                Ok(Some(info)) => Phase::CheckingHint { url: info.url.clone() },
                _ => Phase::WellKnown { index: 0 },
            };
            *self = Locator { phase: next };
        }
    }

    /// Takes in the answer of a single probe.
    pub fn on_probe(&mut self, healthy: bool)
        ensures
            final(self)@ == after_probe(old(self)@, healthy),
    {
        proof {
            use_type_invariant(&*self);
        }
        let next = match &self.phase {
            Phase::CheckingHint { url } => if healthy {
                Phase::Finished { found: Some(url.clone()) }
            } else {
                Phase::WellKnown { index: 0 }
            },
            Phase::WellKnown { index } => if healthy {
                Phase::Finished { found: Some(local_url(well_known_port(*index))) }
            } else if *index + 1 < WELL_KNOWN_COUNT {
                Phase::WellKnown { index: *index + 1 }
            } else {
                Phase::Ephemeral { origin: EPHEMERAL_START }
            },
            _ => {
                return;
            },
        };
        *self = Locator { phase: next };
    }

    /// Takes in the answers of a batch, in the order of its URLs.
    pub fn on_batch(&mut self, healthy: &Vec<bool>)
        ensures
            final(self)@ == after_batch(old(self)@, healthy@),
    {
        proof {
            use_type_invariant(&*self);
        }
        let origin = match &self.phase {
            Phase::Ephemeral { origin } => *origin,
            _ => {
                return;
            },
        };
        let mut j: u16 = 0;
        while j < BATCH_SIZE
            invariant
                j <= BATCH_SIZE,
                first_healthy(healthy@, j as nat) is None,
                old(self)@ == Stage::Ephemeral(origin as nat),
                stage_ok(old(self)@),
            decreases BATCH_SIZE - j,
        {
            if (j as usize) < healthy.len() && healthy[j as usize] {
                assert(first_healthy(healthy@, (j + 1) as nat) == Some(j as nat));
                proof {
                    lemma_first_healthy_kept(healthy@, (j + 1) as nat, BATCH_SIZE as nat);
                }
                *self = Locator { phase: Phase::Finished { found: Some(local_url(origin + j)) } };
                return;
            }
            j = j + 1;
        }
        let next = if origin + STRIDE < EPHEMERAL_END {
            Phase::Ephemeral { origin: origin + STRIDE }
        } else {
            Phase::Finished { found: None }
        };
        *self = Locator { phase: next };
    }
}

} // verus!

verus! {

/// The stage reached from `s` by single probes that answered `hs`, in order.
pub open spec fn run_probes(s: Stage, hs: Seq<bool>) -> Stage
    decreases hs.len(),
{
    if hs.len() == 0 {
        s
    } else {
        after_probe(run_probes(s, hs.drop_last()), hs.last())
    }
}

/// The stage reached from `s` by batches that answered `bs`, in order.
pub open spec fn run_batches(s: Stage, bs: Seq<Seq<bool>>) -> Stage
    decreases bs.len(),
{
    if bs.len() == 0 {
        s
    } else {
        after_batch(run_batches(s, bs.drop_last()), bs.last())
    }
}

proof fn lemma_no_healthy(h: Seq<bool>, n: nat)
    requires
        forall|m: int| 0 <= m < n && m < h.len() ==> !h[m],
    ensures
        first_healthy(h, n) is None,
    decreases n,
{
    if n > 0 {
        lemma_no_healthy(h, (n - 1) as nat);
    }
}

proof fn lemma_only_healthy(h: Seq<bool>, j: nat)
    requires
        j < BATCH_SIZE,
        h.len() == BATCH_SIZE,
        forall|m: int| 0 <= m < BATCH_SIZE ==> h[m] == (m == j),
    ensures
        first_healthy(h, BATCH_SIZE as nat) == Some(j),
{
    lemma_no_healthy(h, j);
    lemma_first_healthy_kept(h, j + 1, BATCH_SIZE as nat);
}

proof fn lemma_probes_walk(hs: Seq<bool>, k: nat)
    requires
        k < WELL_KNOWN_COUNT,
        k <= hs.len(),
        forall|m: int| 0 <= m < k ==> !hs[m],
    ensures
        run_probes(Stage::WellKnown(0), hs.take(k as int)) == Stage::WellKnown(k),
    decreases k,
{
    if k > 0 {
        lemma_probes_walk(hs, (k - 1) as nat);
        assert(hs.take(k as int).drop_last() =~= hs.take(k - 1));
    }
}

proof fn lemma_batches_walk(bs: Seq<Seq<bool>>, k: nat)
    requires
        EPHEMERAL_START + STRIDE * k < EPHEMERAL_END,
        k <= bs.len(),
        forall|a: int, m: int| 0 <= a < k && 0 <= m < bs[a].len() ==> !bs[a][m],
    ensures
        run_batches(Stage::Ephemeral(EPHEMERAL_START as nat), bs.take(k as int)) == Stage::Ephemeral(
            (EPHEMERAL_START + STRIDE * k) as nat,
        ),
    decreases k,
{
    if k > 0 {
        lemma_batches_walk(bs, (k - 1) as nat);
        assert(bs.take(k as int).drop_last() =~= bs.take(k - 1));
        lemma_no_healthy(bs[k - 1], BATCH_SIZE as nat);
        assert(STRIDE * k == STRIDE * (k - 1) + STRIDE) by (nonlinear_arith);
    }
}

/// A hint whose URL answers healthy ends the search with that URL: the
/// only probe made is the one of the hinted URL, and no port is scanned.
pub proof fn law_healthy_hint_short_circuits(info: ServerInfo)
    ensures
        plan(after_hint(Stage::Start, hint_url_spec(Ok(Some(info))))) == (Planned::Probe {
            url: info.url@,
            timeout_ms: HINT_TIMEOUT_MS as nat,
        }),
        after_probe(after_hint(Stage::Start, hint_url_spec(Ok(Some(info)))), true)
            == Stage::Finished(Some(info.url@)),
{
}

/// Without a usable hint (no file, or a stale one) the search goes on
/// to the first well-known port, without an error.
pub proof fn law_no_hint_scans_ports()
    ensures
        after_hint(Stage::Start, hint_url_spec(Ok(None))) == Stage::WellKnown(0),
        plan(after_hint(Stage::Start, hint_url_spec(Ok(None)))) == (Planned::Probe {
            url: local_url_spec(4096),
            timeout_ms: SCAN_TIMEOUT_MS as nat,
        }),
{
}

/// The well-known ports are probed in their declared order; the first that
/// answers healthy gives the result, and no probe follows it.
pub proof fn law_well_known_order(hs: Seq<bool>, i: nat)
    requires
        i < WELL_KNOWN_COUNT,
        hs.len() == i + 1,
        forall|k: int| 0 <= k < i ==> !hs[k],
        hs[i as int],
    ensures
        forall|k: int|
            0 <= k <= i ==> #[trigger] plan(run_probes(Stage::WellKnown(0), hs.take(k)))
                == (Planned::Probe {
                url: local_url_spec(well_known()[k]),
                timeout_ms: SCAN_TIMEOUT_MS as nat,
            }),
        run_probes(Stage::WellKnown(0), hs) == Stage::Finished(
            Some(local_url_spec(well_known()[i as int])),
        ),
        forall|b: bool|
            #[trigger] after_probe(run_probes(Stage::WellKnown(0), hs), b) == run_probes(
                Stage::WellKnown(0),
                hs,
            ),
        forall|h: Seq<bool>|
            #[trigger] after_batch(run_probes(Stage::WellKnown(0), hs), h) == run_probes(
                Stage::WellKnown(0),
                hs,
            ),
{
    assert forall|k: int| 0 <= k <= i implies #[trigger] plan(
        run_probes(Stage::WellKnown(0), hs.take(k)),
    ) == (Planned::Probe {
        url: local_url_spec(well_known()[k]),
        timeout_ms: SCAN_TIMEOUT_MS as nat,
    }) by {
        lemma_probes_walk(hs, k as nat);
    }
    lemma_probes_walk(hs, i);
    assert(hs.drop_last() =~= hs.take(i as int));
}

/// In the ephemeral range, batches are probed whole and in order: when every
/// batch before batch `n` answers unhealthy and exactly port `j` of batch `n`
/// answers healthy, the result is that port's URL.
pub proof fn law_ephemeral_batches(bs: Seq<Seq<bool>>, n: nat, j: nat)
    requires
        EPHEMERAL_START + STRIDE * n < EPHEMERAL_END,
        bs.len() == n + 1,
        forall|a: int, m: int| 0 <= a < n && 0 <= m < bs[a].len() ==> !bs[a][m],
        j < BATCH_SIZE,
        bs[n as int].len() == BATCH_SIZE,
        forall|m: int| 0 <= m < BATCH_SIZE ==> bs[n as int][m] == (m == j),
    ensures
        forall|k: int|
            0 <= k <= n ==> #[trigger] plan(
                run_batches(Stage::Ephemeral(EPHEMERAL_START as nat), bs.take(k)),
            ) == (Planned::ProbeBatch {
                urls: batch_urls((EPHEMERAL_START + STRIDE * k) as nat),
                timeout_ms: SCAN_TIMEOUT_MS as nat,
            }),
        run_batches(Stage::Ephemeral(EPHEMERAL_START as nat), bs) == Stage::Finished(
            Some(local_url_spec((EPHEMERAL_START + STRIDE * n + j) as nat)),
        ),
{
    assert forall|k: int| 0 <= k <= n implies #[trigger] plan(
        run_batches(Stage::Ephemeral(EPHEMERAL_START as nat), bs.take(k)),
    ) == (Planned::ProbeBatch {
        urls: batch_urls((EPHEMERAL_START + STRIDE * k) as nat),
        timeout_ms: SCAN_TIMEOUT_MS as nat,
    }) by {
        assert(STRIDE * k <= STRIDE * n) by (nonlinear_arith)
            requires
                0 <= k <= n,
        ;
        lemma_batches_walk(bs, k as nat);
    }
    lemma_batches_walk(bs, n);
    assert(bs.drop_last() =~= bs.take(n as int));
    lemma_only_healthy(bs[n as int], j);
}

/// When nothing answers, the search ends with no URL once the well-known
/// ports and every batch of the ephemeral range have been probed.
pub proof fn law_nothing_answers(hs: Seq<bool>, bs: Seq<Seq<bool>>)
    requires
        hs.len() == WELL_KNOWN_COUNT,
        forall|k: int| 0 <= k < hs.len() ==> !hs[k],
        bs.len() == (EPHEMERAL_END - EPHEMERAL_START) / (STRIDE as int),
        forall|a: int, m: int| 0 <= a < bs.len() && 0 <= m < bs[a].len() ==> !bs[a][m],
    ensures
        run_probes(Stage::WellKnown(0), hs) == Stage::Ephemeral(EPHEMERAL_START as nat),
        run_batches(Stage::Ephemeral(EPHEMERAL_START as nat), bs) == Stage::Finished(None),
{
    lemma_probes_walk(hs, (WELL_KNOWN_COUNT - 1) as nat);
    assert(hs.drop_last() =~= hs.take(WELL_KNOWN_COUNT - 1));
    let last = (bs.len() - 1) as nat;
    lemma_batches_walk(bs, last);
    assert(bs.drop_last() =~= bs.take(last as int));
    lemma_no_healthy(bs[last as int], BATCH_SIZE as nat);
}

} // verus!
