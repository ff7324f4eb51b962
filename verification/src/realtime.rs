//! Real-time system tuning: the configuration, the decisions about which tunings
//! apply, the record of what was applied, and the scheduling-latency statistics.

use vstd::prelude::*;

verus! {

/// Calls `num_cpus::get()`: the number of logical CPUs this process may use, which
/// the machine decides.
#[verifier::external_body]
fn cpu_count() -> usize {
    num_cpus::get()
}

/// CPU frequency governor to recommend.
#[derive(Debug, Clone, Copy, PartialEq, Eq, Structural)]
pub enum CpuGovernor {
    Performance,
    OnDemand,
    Userspace,
    Conservative,
}

/// Name of a governor as the kernel knows it.
pub open spec fn spec_governor_name(g: CpuGovernor) -> Seq<char> {
    match g {
        CpuGovernor::Performance => "performance"@,
        CpuGovernor::OnDemand => "ondemand"@,
        CpuGovernor::Userspace => "userspace"@,
        CpuGovernor::Conservative => "conservative"@,
    }
}

impl CpuGovernor {
    /// Name of the governor as the kernel knows it.
    pub fn name(&self) -> (r: &'static str)
        ensures
            r@ == spec_governor_name(*self),
    {
        match self {
            CpuGovernor::Performance => "performance",
            CpuGovernor::OnDemand => "ondemand",
            CpuGovernor::Userspace => "userspace",
            CpuGovernor::Conservative => "conservative",
        }
    }
}

/// Which real-time tunings to apply, and with what.
#[derive(Debug, Clone)]
pub struct RealtimeConfig {
    pub enable_realtime_scheduling: bool,
    /// Real-time priority (1 to 99, 99 highest).
    pub realtime_priority: i32,
    pub enable_memory_locking: bool,
    /// Bytes that may be locked in memory.
    pub memory_lock_limit: usize,
    pub enable_cpu_isolation: bool,
    /// Cores the process is pinned to.
    pub isolated_cpu_cores: Vec<usize>,
    pub enable_interrupt_isolation: bool,
    /// Cores meant to handle interrupts.
    pub interrupt_cpu_cores: Vec<usize>,
    pub enable_numa_optimization: bool,
    pub preferred_numa_nodes: Vec<usize>,
    pub enable_power_optimization: bool,
    pub cpu_frequency_governor: CpuGovernor,
}

/// Two GiB.
pub const TWO_GIB: usize = 2147483648;

impl Default for RealtimeConfig {
    /// Everything enabled at priority 80 with a 2 GiB lock limit; cores and NUMA nodes
    /// are left for detection.
    fn default() -> (r: Self)
        ensures
            r.enable_realtime_scheduling,
            r.realtime_priority == 80,
            r.enable_memory_locking,
            r.memory_lock_limit == TWO_GIB,
            r.enable_cpu_isolation,
            r.isolated_cpu_cores@.len() == 0,
            r.enable_interrupt_isolation,
            r.interrupt_cpu_cores@.len() == 0,
            r.enable_numa_optimization,
            r.preferred_numa_nodes@.len() == 0,
            r.enable_power_optimization,
            r.cpu_frequency_governor == CpuGovernor::Performance,
    {
        RealtimeConfig {
            enable_realtime_scheduling: true,
            realtime_priority: 80,
            enable_memory_locking: true,
            memory_lock_limit: TWO_GIB,
            enable_cpu_isolation: true,
            isolated_cpu_cores: Vec::new(),
            enable_interrupt_isolation: true,
            interrupt_cpu_cores: Vec::new(),
            enable_numa_optimization: true,
            preferred_numa_nodes: Vec::new(),
            enable_power_optimization: true,
            cpu_frequency_governor: CpuGovernor::Performance,
        }
    }
}

/// Which tunings took effect.
#[derive(Debug, Clone, Copy, PartialEq, Eq, Structural)]
pub struct OptimizationState {
    pub realtime_scheduling_enabled: bool,
    pub memory_locked: bool,
    pub cpu_affinity_set: bool,
    pub interrupt_isolation_enabled: bool,
    pub numa_optimization_enabled: bool,
    pub power_optimization_enabled: bool,
}

/// No tuning applied.
pub open spec fn no_optimizations() -> OptimizationState {
    OptimizationState {
        realtime_scheduling_enabled: false,
        memory_locked: false,
        cpu_affinity_set: false,
        interrupt_isolation_enabled: false,
        numa_optimization_enabled: false,
        power_optimization_enabled: false,
    }
}

/// All counters at zero.
pub open spec fn zero_realtime_stats() -> RealtimeStats {
    RealtimeStats {
        scheduling_latency_ns: 0,
        max_scheduling_latency_ns: 0,
        page_faults: 0,
        context_switches: 0,
        interrupts: 0,
        system_calls: 0,
    }
}

impl Default for OptimizationState {
    /// Nothing applied.
    fn default() -> (r: Self)
        ensures
            r == no_optimizations(),
    {
        OptimizationState {
            realtime_scheduling_enabled: false,
            memory_locked: false,
            cpu_affinity_set: false,
            interrupt_isolation_enabled: false,
            numa_optimization_enabled: false,
            power_optimization_enabled: false,
        }
    }
}

/// Scheduling and system counters.
#[derive(Debug, Clone, Copy, PartialEq, Eq, Structural)]
pub struct RealtimeStats {
    pub scheduling_latency_ns: u64,
    pub max_scheduling_latency_ns: u64,
    pub page_faults: u64,
    pub context_switches: u64,
    pub interrupts: u64,
    pub system_calls: u64,
}

impl Default for RealtimeStats {
    /// All counters at zero.
    fn default() -> (r: Self)
        ensures
            r == zero_realtime_stats(),
    {
        RealtimeStats {
            scheduling_latency_ns: 0,
            max_scheduling_latency_ns: 0,
            page_faults: 0,
            context_switches: 0,
            interrupts: 0,
            system_calls: 0,
        }
    }
}

/// A copy of the counters.
#[derive(Debug, Clone, Copy, PartialEq, Eq, Structural)]
pub struct RealtimeStatsSnapshot {
    pub scheduling_latency_ns: u64,
    pub max_scheduling_latency_ns: u64,
    pub page_faults: u64,
    pub context_switches: u64,
    pub interrupts: u64,
    pub system_calls: u64,
}

/// A copy of which tunings took effect.
#[derive(Debug, Clone, Copy, PartialEq, Eq, Structural)]
pub struct OptimizationStatus {
    pub realtime_scheduling_enabled: bool,
    pub memory_locked: bool,
    pub cpu_affinity_set: bool,
    pub interrupt_isolation_enabled: bool,
    pub numa_optimization_enabled: bool,
    pub power_optimization_enabled: bool,
}

/// The cores `lo .. hi`.
pub open spec fn core_range(lo: int, hi: int) -> Seq<usize> {
    Seq::new((hi - lo) as nat, |i: int| (lo + i) as usize)
}

fn core_range_vec(lo: usize, hi: usize) -> (r: Vec<usize>)
    requires
        lo <= hi,
    ensures
        r@ == core_range(lo as int, hi as int),
{
    let mut r: Vec<usize> = Vec::new();
    let mut c = lo;
    while c < hi
        invariant
            lo <= c <= hi,
            r@ == core_range(lo as int, c as int),
        decreases hi - c,
    {
        r.push(c);
        c = c + 1;
        assert(r@ =~= core_range(lo as int, c as int));
    }
    r
}

/// Whether the kernel's `numa_balancing` setting reads "1" (surrounding white space
/// ignored).
pub open spec fn numa_balancing_on(setting: Seq<char>) -> bool {
    exists|a: int|
        0 <= a < setting.len() && #[trigger] setting[a] == '1' && forall|i: int|
            0 <= i < setting.len() && i != a ==> is_white(#[trigger] setting[i])
}

/// ASCII white space as `str::trim` removes it (space, tab, line feed, vertical tab,
/// form feed, carriage return).
pub open spec fn is_white(c: char) -> bool {
    c == ' ' || c == '\t' || c == '\n' || c == '\u{b}' || c == '\u{c}' || c == '\r'
}

fn is_white_char(c: char) -> (r: bool)
    ensures
        r == is_white(c),
{
    c == ' ' || c == '\t' || c == '\n' || c == '\u{b}' || c == '\u{c}' || c == '\r'
}

/// Whether the setting reads "1" (see `numa_balancing_on`).
pub fn numa_balancing_enabled(setting: &str) -> (r: bool)
    ensures
        r == numa_balancing_on(setting@),
{
    let n = setting.unicode_len();
    let mut a: usize = 0;
    while a < n && is_white_char(setting.get_char(a))
        invariant
            n == setting@.len(),
            a <= n,
            forall|i: int| 0 <= i < a ==> is_white(#[trigger] setting@[i]),
        decreases n - a,
    {
        a = a + 1;
    }
    if a >= n || setting.get_char(a) != '1' {
        proof {
            if numa_balancing_on(setting@) {
                let w = choose|w: int|
                    0 <= w < setting@.len() && #[trigger] setting@[w] == '1' && forall|i: int|
                        0 <= i < setting@.len() && i != w ==> is_white(#[trigger] setting@[i]);
                if w < a {
                    assert(is_white(setting@[w]));
                } else if a < n {
                    assert(!is_white(setting@[a as int]));
                    if w != a {
                        assert(is_white(setting@[a as int]));
                    }
                }
            }
        }
        return false;
    }
    let mut b: usize = a + 1;
    while b < n && is_white_char(setting.get_char(b))
        invariant
            n == setting@.len(),
            a < b <= n,
            forall|i: int| a + 1 <= i < b ==> is_white(#[trigger] setting@[i]),
        decreases n - b,
    {
        b = b + 1;
    }
    if b < n {
        proof {
            if numa_balancing_on(setting@) {
                let w = choose|w: int|
                    0 <= w < setting@.len() && #[trigger] setting@[w] == '1' && forall|i: int|
                        0 <= i < setting@.len() && i != w ==> is_white(#[trigger] setting@[i]);
                assert(!is_white(setting@[b as int]));
                assert(!is_white(setting@[a as int]));
                if w != a {
                    assert(is_white(setting@[a as int]));
                } else {
                    assert(is_white(setting@[b as int]));
                }
            }
        }
        return false;
    }
    assert(setting@[a as int] == '1');
    assert forall|i: int| 0 <= i < setting@.len() && i != a implies is_white(#[trigger] setting@[i]) by {
    }
    true
}

/// The configuration after detection: with more than four CPUs and no cores given,
/// the last two cores are isolated; with more than two CPUs and no interrupt cores
/// given, cores 0 and 1 take interrupts; with NUMA balancing on and no nodes given,
/// node 0 is preferred.
pub open spec fn spec_detected(
    before: RealtimeConfig,
    after: RealtimeConfig,
    num_cpus: usize,
    numa_balancing: bool,
) -> bool {
    &&& after.isolated_cpu_cores@ == (if before.isolated_cpu_cores@.len() == 0 && num_cpus > 4 {
        core_range(num_cpus - 2, num_cpus as int)
    } else {
        before.isolated_cpu_cores@
    })
    &&& after.interrupt_cpu_cores@ == (if before.interrupt_cpu_cores@.len() == 0 && num_cpus > 2 {
        core_range(0, 2)
    } else {
        before.interrupt_cpu_cores@
    })
    &&& after.preferred_numa_nodes@ == (if numa_balancing && before.preferred_numa_nodes@.len() == 0 {
        seq![0usize]
    } else {
        before.preferred_numa_nodes@
    })
    &&& after.enable_realtime_scheduling == before.enable_realtime_scheduling
    &&& after.realtime_priority == before.realtime_priority
    &&& after.enable_memory_locking == before.enable_memory_locking
    &&& after.memory_lock_limit == before.memory_lock_limit
    &&& after.enable_cpu_isolation == before.enable_cpu_isolation
    &&& after.enable_interrupt_isolation == before.enable_interrupt_isolation
    &&& after.enable_numa_optimization == before.enable_numa_optimization
    &&& after.enable_power_optimization == before.enable_power_optimization
    &&& after.cpu_frequency_governor == before.cpu_frequency_governor
}

/// Fills in the cores and NUMA nodes the configuration leaves open (see `spec_detected`).
pub fn detect_system_config(config: &mut RealtimeConfig, num_cpus: usize, numa_balancing: bool)
    ensures
        spec_detected(*old(config), *final(config), num_cpus, numa_balancing),
{
    if config.isolated_cpu_cores.len() == 0 && num_cpus > 4 {
        config.isolated_cpu_cores = core_range_vec(num_cpus - 2, num_cpus);
    }
    if config.interrupt_cpu_cores.len() == 0 && num_cpus > 2 {
        config.interrupt_cpu_cores = core_range_vec(0, 2);
    }
    if numa_balancing && config.preferred_numa_nodes.len() == 0 {
        config.preferred_numa_nodes = vec![0usize];
        assert(config.preferred_numa_nodes@ =~= seq![0usize]);
    }
}

/// Tunes the process for low latency: records which tunings took effect and the
/// scheduling-latency samples.
pub struct RealtimeSystemOptimizer {
    config: RealtimeConfig,
    optimization_state: OptimizationState,
    stats: RealtimeStats,
    initialized: bool,
    report_counter: u32,
}

/// Samples between status reports (one a minute at one sample every five seconds).
pub const REPORT_EVERY: u32 = 12;

/// Scheduling latency above which a sample is reported as high (100 µs).
pub const HIGH_LATENCY_NS: u64 = 100000;

impl RealtimeSystemOptimizer {
    /// The configuration in use.
    pub closed spec fn spec_config(&self) -> RealtimeConfig {
        self.config
    }

    /// Which tunings took effect.
    pub closed spec fn spec_state(&self) -> OptimizationState {
        self.optimization_state
    }

    /// The counters.
    pub closed spec fn spec_stats(&self) -> RealtimeStats {
        self.stats
    }

    /// Whether the tunings were applied.
    pub closed spec fn spec_initialized(&self) -> bool {
        self.initialized
    }

    /// Samples taken so far (wrapping).
    pub closed spec fn spec_samples(&self) -> u32 {
        self.report_counter
    }

    /// An optimizer for `config` after detection with the given CPU count and NUMA
    /// balancing setting; nothing applied yet, counters at zero.
    pub fn new_detected(config: RealtimeConfig, num_cpus: usize, numa_balancing: bool) -> (r: Result<
        Self,
        String,
    >)
        ensures
            r matches Ok(o) && spec_detected(config, o.spec_config(), num_cpus, numa_balancing)
                && o.spec_state() == no_optimizations() && o.spec_stats()
                == zero_realtime_stats() && !o.spec_initialized() && o.spec_samples() == 0,
    {
        let mut config = config;
        detect_system_config(&mut config, num_cpus, numa_balancing);
        Ok(
            RealtimeSystemOptimizer {
                config,
                optimization_state: OptimizationState::default(),
                stats: RealtimeStats::default(),
                initialized: false,
                report_counter: 0,
            },
        )
    }

    /// An optimizer for `config` after detecting the CPU count; the NUMA setting is
    /// read by the caller (see `new_detected`), so none is assumed here.
    pub fn new(config: RealtimeConfig) -> (r: Result<Self, String>)
        ensures
            r matches Ok(o) && exists|n: usize| spec_detected(config, o.spec_config(), n, false)
                && o.spec_state() == no_optimizations() && o.spec_stats()
                == zero_realtime_stats() && !o.spec_initialized(),
    {
        Self::new_detected(config, cpu_count(), false)
    }

    /// The configuration in use.
    pub fn config(&self) -> (r: &RealtimeConfig)
        ensures
            *r == self.spec_config(),
    {
        &self.config
    }

    /// Records the outcome of asking for real-time scheduling (FIFO first, round
    /// robin as fallback); either success enables it.
    pub fn record_realtime_scheduling(&mut self, fifo_ok: bool, round_robin_ok: bool)
        ensures
            final(self).spec_state() == (OptimizationState {
                realtime_scheduling_enabled: old(self).spec_state().realtime_scheduling_enabled || fifo_ok
                    || round_robin_ok,
                ..old(self).spec_state()
            }),
            final(self).spec_config() == old(self).spec_config(),
            final(self).spec_stats() == old(self).spec_stats(),
            final(self).spec_initialized() == old(self).spec_initialized(),
            final(self).spec_samples() == old(self).spec_samples(),
    {
        if fifo_ok || round_robin_ok {
            self.optimization_state.realtime_scheduling_enabled = true;
        }
    }

    /// Records the outcome of locking memory.
    pub fn record_memory_locking(&mut self, locked: bool)
        ensures
            final(self).spec_state() == (OptimizationState {
                memory_locked: old(self).spec_state().memory_locked || locked,
                ..old(self).spec_state()
            }),
            final(self).spec_config() == old(self).spec_config(),
            final(self).spec_stats() == old(self).spec_stats(),
            final(self).spec_initialized() == old(self).spec_initialized(),
            final(self).spec_samples() == old(self).spec_samples(),
    {
        if locked {
            self.optimization_state.memory_locked = true;
        }
    }

    /// The cores to pin the process to: the isolated cores below 256 (the size of
    /// the kernel's CPU set); none when no core is configured.
    pub fn affinity_cores(&self) -> (r: Vec<usize>)
        ensures
            r@ == self.spec_config().isolated_cpu_cores@.filter(|c: usize| c < 256),
    {
        let cores = &self.config.isolated_cpu_cores;
        let mut r: Vec<usize> = Vec::new();
        let mut i: usize = 0;
        while i < cores.len()
            invariant
                i <= cores@.len(),
                r@ == cores@.take(i as int).filter(|c: usize| c < 256),
            decreases cores@.len() - i,
        {
            proof {
                assert(cores@.take(i + 1) =~= cores@.take(i as int).push(cores@[i as int]));
                cores@.take(i as int).lemma_filter_push(cores@[i as int], |c: usize| c < 256);
            }
            if cores[i] < 256 {
                r.push(cores[i]);
            }
            i = i + 1;
        }
        assert(cores@.take(cores@.len() as int) =~= cores@);
        r
    }

    /// Records the outcome of pinning the process; nothing is pinned without
    /// isolated cores.
    pub fn record_cpu_isolation(&mut self, affinity_set: bool)
        ensures
            final(self).spec_state() == (OptimizationState {
                cpu_affinity_set: old(self).spec_state().cpu_affinity_set || (affinity_set
                    && old(self).spec_config().isolated_cpu_cores@.len() > 0),
                ..old(self).spec_state()
            }),
            final(self).spec_config() == old(self).spec_config(),
            final(self).spec_stats() == old(self).spec_stats(),
            final(self).spec_initialized() == old(self).spec_initialized(),
            final(self).spec_samples() == old(self).spec_samples(),
    {
        if affinity_set && self.config.isolated_cpu_cores.len() > 0 {
            self.optimization_state.cpu_affinity_set = true;
        }
    }

    /// Interrupt isolation counts as enabled when interrupt cores are configured.
    pub fn apply_interrupt_isolation(&mut self)
        ensures
            final(self).spec_state() == (OptimizationState {
                interrupt_isolation_enabled: old(self).spec_state().interrupt_isolation_enabled
                    || old(self).spec_config().interrupt_cpu_cores@.len() > 0,
                ..old(self).spec_state()
            }),
            final(self).spec_config() == old(self).spec_config(),
            final(self).spec_stats() == old(self).spec_stats(),
            final(self).spec_initialized() == old(self).spec_initialized(),
            final(self).spec_samples() == old(self).spec_samples(),
    {
        if self.config.interrupt_cpu_cores.len() > 0 {
            self.optimization_state.interrupt_isolation_enabled = true;
        }
    }

    /// NUMA optimization counts as enabled when preferred nodes are configured.
    pub fn apply_numa_optimization(&mut self)
        ensures
            final(self).spec_state() == (OptimizationState {
                numa_optimization_enabled: old(self).spec_state().numa_optimization_enabled
                    || old(self).spec_config().preferred_numa_nodes@.len() > 0,
                ..old(self).spec_state()
            }),
            final(self).spec_config() == old(self).spec_config(),
            final(self).spec_stats() == old(self).spec_stats(),
            final(self).spec_initialized() == old(self).spec_initialized(),
            final(self).spec_samples() == old(self).spec_samples(),
    {
        if self.config.preferred_numa_nodes.len() > 0 {
            self.optimization_state.numa_optimization_enabled = true;
        }
    }

    /// Power optimization counts as enabled once the governor is recommended; returns
    /// the governor's name.
    pub fn apply_power_optimization(&mut self) -> (r: &'static str)
        ensures
            r@ == spec_governor_name(old(self).spec_config().cpu_frequency_governor),
            final(self).spec_state() == (OptimizationState {
                power_optimization_enabled: true,
                ..old(self).spec_state()
            }),
            final(self).spec_config() == old(self).spec_config(),
            final(self).spec_stats() == old(self).spec_stats(),
            final(self).spec_initialized() == old(self).spec_initialized(),
            final(self).spec_samples() == old(self).spec_samples(),
    {
        self.optimization_state.power_optimization_enabled = true;
        self.config.cpu_frequency_governor.name()
    }

    /// Whether the tunings were applied already.
    pub fn is_initialized(&self) -> (r: bool)
        ensures
            r == self.spec_initialized(),
    {
        self.initialized
    }

    /// Marks the tunings as applied.
    pub fn mark_initialized(&mut self)
        ensures
            final(self).spec_initialized(),
            final(self).spec_state() == old(self).spec_state(),
            final(self).spec_config() == old(self).spec_config(),
            final(self).spec_stats() == old(self).spec_stats(),
            final(self).spec_samples() == old(self).spec_samples(),
    {
        self.initialized = true;
    }

    /// Records one scheduling-latency sample: keeps it and the largest seen. Returns
    /// whether it is high (over 100 µs) and whether a status report is due (every
    /// twelfth sample, the first included).
    pub fn record_scheduling_latency(&mut self, latency_ns: u64) -> (r: (bool, bool))
        ensures
            final(self).spec_stats() == (RealtimeStats {
                scheduling_latency_ns: latency_ns,
                max_scheduling_latency_ns: if latency_ns > old(self).spec_stats().max_scheduling_latency_ns {
                    latency_ns
                } else {
                    old(self).spec_stats().max_scheduling_latency_ns
                },
                ..old(self).spec_stats()
            }),
            final(self).spec_samples() == vstd::wrapping::u32_specs::wrapping_add(
                old(self).spec_samples(),
                1,
            ),
            r.0 == (latency_ns > HIGH_LATENCY_NS),
            r.1 == (old(self).spec_samples() % REPORT_EVERY == 0),
            final(self).spec_state() == old(self).spec_state(),
            final(self).spec_config() == old(self).spec_config(),
            final(self).spec_initialized() == old(self).spec_initialized(),
    {
        self.stats.scheduling_latency_ns = latency_ns;
        if latency_ns > self.stats.max_scheduling_latency_ns {
            self.stats.max_scheduling_latency_ns = latency_ns;
        }
        let count = self.report_counter;
        self.report_counter = count.wrapping_add(1);
        (latency_ns > HIGH_LATENCY_NS, count % REPORT_EVERY == 0)
    }

    /// A copy of the counters.
    pub fn get_stats(&self) -> (r: RealtimeStatsSnapshot)
        ensures
            r == (RealtimeStatsSnapshot {
                scheduling_latency_ns: self.spec_stats().scheduling_latency_ns,
                max_scheduling_latency_ns: self.spec_stats().max_scheduling_latency_ns,
                page_faults: self.spec_stats().page_faults,
                context_switches: self.spec_stats().context_switches,
                interrupts: self.spec_stats().interrupts,
                system_calls: self.spec_stats().system_calls,
            }),
    {
        RealtimeStatsSnapshot {
            scheduling_latency_ns: self.stats.scheduling_latency_ns,
            max_scheduling_latency_ns: self.stats.max_scheduling_latency_ns,
            page_faults: self.stats.page_faults,
            context_switches: self.stats.context_switches,
            interrupts: self.stats.interrupts,
            system_calls: self.stats.system_calls,
        }
    }

    /// A copy of which tunings took effect.
    pub fn get_optimization_status(&self) -> (r: OptimizationStatus)
        ensures
            r == (OptimizationStatus {
                realtime_scheduling_enabled: self.spec_state().realtime_scheduling_enabled,
                memory_locked: self.spec_state().memory_locked,
                cpu_affinity_set: self.spec_state().cpu_affinity_set,
                interrupt_isolation_enabled: self.spec_state().interrupt_isolation_enabled,
                numa_optimization_enabled: self.spec_state().numa_optimization_enabled,
                power_optimization_enabled: self.spec_state().power_optimization_enabled,
            }),
    {
        OptimizationStatus {
            realtime_scheduling_enabled: self.optimization_state.realtime_scheduling_enabled,
            memory_locked: self.optimization_state.memory_locked,
            cpu_affinity_set: self.optimization_state.cpu_affinity_set,
            interrupt_isolation_enabled: self.optimization_state.interrupt_isolation_enabled,
            numa_optimization_enabled: self.optimization_state.numa_optimization_enabled,
            power_optimization_enabled: self.optimization_state.power_optimization_enabled,
        }
    }

    /// The lowest-latency configuration for a machine with `num_cpus` CPUs: every
    /// tuning at priority 99, an 8 GiB lock limit, the last two cores isolated (with
    /// more than four CPUs), cores 0 and 1 for interrupts, NUMA node 0.
    pub fn ultra_low_latency_config_for(num_cpus: usize) -> (r: RealtimeConfig)
        ensures
            r.enable_realtime_scheduling,
            r.realtime_priority == 99,
            r.enable_memory_locking,
            r.memory_lock_limit == 8589934592u64 as usize,
            r.enable_cpu_isolation,
            r.isolated_cpu_cores@ == (if num_cpus > 4 {
                core_range(num_cpus - 2, num_cpus as int)
            } else {
                Seq::empty()
            }),
            r.enable_interrupt_isolation,
            r.interrupt_cpu_cores@ == core_range(0, 2),
            r.enable_numa_optimization,
            r.preferred_numa_nodes@ == seq![0usize],
            r.enable_power_optimization,
            r.cpu_frequency_governor == CpuGovernor::Performance,
    {
        let isolated = if num_cpus > 4 {
            core_range_vec(num_cpus - 2, num_cpus)
        } else {
            Vec::new()
        };
        RealtimeConfig {
            enable_realtime_scheduling: true,
            realtime_priority: 99,
            enable_memory_locking: true,
            memory_lock_limit: 8589934592u64 as usize,
            enable_cpu_isolation: true,
            isolated_cpu_cores: isolated,
            enable_interrupt_isolation: true,
            interrupt_cpu_cores: core_range_vec(0, 2),
            enable_numa_optimization: true,
            preferred_numa_nodes: vec![0usize],
            enable_power_optimization: true,
            cpu_frequency_governor: CpuGovernor::Performance,
        }
    }

    /// The lowest-latency configuration for this machine's CPU count.
    pub fn ultra_low_latency_config() -> (r: RealtimeConfig)
        ensures
            r.enable_realtime_scheduling,
            r.realtime_priority == 99,
            r.enable_memory_locking,
            r.memory_lock_limit == 8589934592u64 as usize,
            r.enable_cpu_isolation,
            r.enable_interrupt_isolation,
            r.interrupt_cpu_cores@ == core_range(0, 2),
            r.enable_numa_optimization,
            r.preferred_numa_nodes@ == seq![0usize],
            r.enable_power_optimization,
            r.cpu_frequency_governor == CpuGovernor::Performance,
    {
        Self::ultra_low_latency_config_for(cpu_count())
    }
}

} // verus!
