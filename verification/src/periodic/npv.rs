//! Which NPV kernel runs, and how each kernel walks a slice.
//!
//! The kernels themselves do floating-point arithmetic with CPU intrinsics and
//! live outside this library. What they decide is here: the tier the CPU and
//! the `ENABLE_*` overrides allow, which kernel a call takes, and the order in
//! which a kernel reads the elements of a slice. The last is what makes their
//! unchecked loads safe: every element is read exactly once, inside the slice.

use vstd::prelude::*;

verus! {

/// Elements consumed per iteration of the 256-bit kernels: two 4-wide vectors.
pub const SIMD256_BLOCK: usize = 8;

/// Lanes of one 256-bit vector of doubles.
pub const SIMD256_LANES: usize = 4;

/// Shortest slice worth entering a 256-bit kernel for.
pub const SIMD256_MIN_LEN: usize = 6;

/// Elements consumed per iteration of the NEON kernels: four 2-wide vectors.
pub const NEON_BLOCK: usize = 8;

/// Lanes of one NEON vector of doubles.
pub const NEON_LANES: usize = 2;

/// Shortest slice worth entering the NEON NPV kernel for.
pub const NEON_MIN_LEN: usize = 3;

/// Shortest slice worth entering the NEON NPV-with-derivative kernel for: that
/// kernel is handed all but the first element, and this gives it one block.
pub const NEON_DERIV_MIN_LEN: usize = NEON_BLOCK + 1;

/// Elements per chunk of the portable, auto-vectorised kernels.
pub const AUTOVEC_CHUNK: usize = 4;

/// The x86-64 kernel family a process runs on.
#[derive(Clone, Copy, Debug, PartialEq, Eq, Structural)]
pub enum SimdTier {
    /// AVX2 with fused multiply-add.
    Avx2,
    /// Plain AVX.
    Avx,
    /// Neither: the portable kernels.
    Portable,
}

/// What the CPU reports it supports.
#[derive(Clone, Copy, Debug, PartialEq, Eq, Structural)]
pub struct CpuFeatures {
    pub avx2: bool,
    pub fma: bool,
    pub avx: bool,
}

/// The machine a call runs on, as far as kernel selection is concerned.
#[derive(Clone, Copy, Debug, PartialEq, Eq, Structural)]
pub enum Platform {
    /// x86-64, with the tier selected for the process.
    X86_64(SimdTier),
    /// aarch64, where NEON is always present and only an override turns it off.
    Aarch64 { neon: bool },
    /// Anything else: only the portable kernels exist.
    Other,
}

/// The kernel an NPV call runs.
#[derive(Clone, Copy, Debug, PartialEq, Eq, Structural)]
pub enum NpvKernel {
    /// At a zero rate the present value is the plain sum of the amounts.
    PlainSum,
    Avx2,
    Avx,
    Neon,
    /// The portable chunked kernel.
    AutoVec,
}

/// The kernel an NPV-with-derivative call runs.
#[derive(Clone, Copy, Debug, PartialEq, Eq, Structural)]
pub enum DerivKernel {
    /// At a rate of -100% or below the discount factor is not positive: both
    /// results are positive infinity.
    Infinite,
    /// An empty flow: both results are zero.
    Empty,
    /// A single amount: the value is that amount and the derivative zero.
    FirstOnly,
    /// The remaining variants run a kernel over all amounts but the first,
    /// which is added undiscounted.
    Avx2,
    Avx,
    Neon,
    AutoVec,
}

/// Whether an `ENABLE_*` override leaves its tier on.
///
/// An override that is not set (or not readable as text) leaves the tier on;
/// one that is set keeps it on only if it reads exactly `1`.
pub fn override_allows(value: &Option<String>) -> (allowed: bool)
    ensures
        value.is_none() ==> allowed,
        value matches Some(text) ==> (allowed <==> text@ == seq!['1']),
{
    if let Some(text) = value {
        let one = "1".to_owned();
        proof {
            reveal_strlit("1");
        }
        assert(one@ == seq!['1']);
        let is_one = *text == one;
        assert(is_one == (text@ == one@));
        is_one
    } else {
        true
    }
}

/// The tier a process runs on, by the spec below.
pub open spec fn spec_simd_tier(avx2_allowed: bool, avx_allowed: bool, cpu: CpuFeatures) -> SimdTier {
    if avx2_allowed && cpu.avx2 && cpu.fma {
        SimdTier::Avx2
    } else if avx_allowed && cpu.avx {
        SimdTier::Avx
    } else {
        SimdTier::Portable
    }
}

/// The tier a process runs on: AVX2 when it is allowed and the CPU has AVX2
/// and FMA, else AVX when it is allowed and present, else none.
pub fn simd_tier(avx2_allowed: bool, avx_allowed: bool, cpu: CpuFeatures) -> (tier: SimdTier)
    ensures
        tier == spec_simd_tier(avx2_allowed, avx_allowed, cpu),
{
    if avx2_allowed && cpu.avx2 && cpu.fma {
        SimdTier::Avx2
    } else if avx_allowed && cpu.avx {
        SimdTier::Avx
    } else {
        SimdTier::Portable
    }
}

/// The tiers in order of preference, the portable one lowest.
pub open spec fn tier_rank(tier: SimdTier) -> int {
    match tier {
        SimdTier::Avx2 => 2,
        SimdTier::Avx => 1,
        SimdTier::Portable => 0,
    }
}

/// The overrides can only force the tier down: turning an override off never
/// selects a higher tier, and a tier whose override is off is never selected.
pub proof fn lemma_overrides_only_force_down(
    avx2_allowed: bool,
    avx_allowed: bool,
    fewer_avx2: bool,
    fewer_avx: bool,
    cpu: CpuFeatures,
)
    requires
        fewer_avx2 ==> avx2_allowed,
        fewer_avx ==> avx_allowed,
    ensures
        tier_rank(spec_simd_tier(fewer_avx2, fewer_avx, cpu)) <= tier_rank(spec_simd_tier(avx2_allowed, avx_allowed, cpu)),
        !avx2_allowed ==> spec_simd_tier(avx2_allowed, avx_allowed, cpu) != SimdTier::Avx2,
        !avx_allowed ==> spec_simd_tier(avx2_allowed, avx_allowed, cpu) != SimdTier::Avx,
{
}

/// AVX2 runs exactly when it is allowed and the CPU has both AVX2 and FMA;
/// AVX exactly when AVX2 does not run, AVX is allowed and the CPU has it.
pub proof fn lemma_tier_needs_permission_and_support(avx2_allowed: bool, avx_allowed: bool, cpu: CpuFeatures)
    ensures
        spec_simd_tier(avx2_allowed, avx_allowed, cpu) == SimdTier::Avx2 <==> avx2_allowed && cpu.avx2 && cpu.fma,
        spec_simd_tier(avx2_allowed, avx_allowed, cpu) == SimdTier::Avx <==> !(avx2_allowed && cpu.avx2
            && cpu.fma) && avx_allowed && cpu.avx,
{
}

/// The kernel an NPV call takes, by the spec below.
pub open spec fn spec_npv_kernel(rate_is_zero: bool, len: nat, platform: Platform) -> NpvKernel {
    if rate_is_zero {
        NpvKernel::PlainSum
    } else {
        match platform {
            Platform::X86_64(SimdTier::Avx2) if len >= SIMD256_MIN_LEN => NpvKernel::Avx2,
            Platform::X86_64(SimdTier::Avx) if len >= SIMD256_MIN_LEN => NpvKernel::Avx,
            Platform::Aarch64 { neon: true } if len >= NEON_MIN_LEN => NpvKernel::Neon,
            _ => NpvKernel::AutoVec,
        }
    }
}

/// The kernel an NPV call takes: the plain sum at a zero rate; otherwise the
/// platform's vector kernel for a slice long enough to pay for it, and the
/// portable kernel for anything shorter.
pub fn npv_kernel(rate_is_zero: bool, len: usize, platform: Platform) -> (kernel: NpvKernel)
    ensures
        kernel == spec_npv_kernel(rate_is_zero, len as nat, platform),
{
    if rate_is_zero {
        return NpvKernel::PlainSum;
    }
    match platform {
        Platform::X86_64(tier) => {
            if len >= SIMD256_MIN_LEN {
                match tier {
                    SimdTier::Avx2 => NpvKernel::Avx2,
                    SimdTier::Avx => NpvKernel::Avx,
                    SimdTier::Portable => NpvKernel::AutoVec,
                }
            } else {
                NpvKernel::AutoVec
            }
        },
        Platform::Aarch64 { neon } => {
            if neon && len >= NEON_MIN_LEN {
                NpvKernel::Neon
            } else {
                NpvKernel::AutoVec
            }
        },
        Platform::Other => NpvKernel::AutoVec,
    }
}

/// The kernel an NPV-with-derivative call takes, by the spec below.
pub open spec fn spec_deriv_kernel(rate_at_or_below_total_loss: bool, len: nat, platform: Platform) -> DerivKernel {
    if rate_at_or_below_total_loss {
        DerivKernel::Infinite
    } else if len == 0 {
        DerivKernel::Empty
    } else if len == 1 {
        DerivKernel::FirstOnly
    } else {
        match platform {
            Platform::X86_64(SimdTier::Avx2) if len >= SIMD256_MIN_LEN => DerivKernel::Avx2,
            Platform::X86_64(SimdTier::Avx) if len >= SIMD256_MIN_LEN => DerivKernel::Avx,
            Platform::Aarch64 { neon: true } if len >= NEON_DERIV_MIN_LEN => DerivKernel::Neon,
            _ => DerivKernel::AutoVec,
        }
    }
}

/// The kernel an NPV-with-derivative call takes. `rate_at_or_below_total_loss`
/// is whether the rate is -100% or lower.
pub fn npv_with_deriv_kernel(rate_at_or_below_total_loss: bool, len: usize, platform: Platform) -> (kernel: DerivKernel)
    ensures
        kernel == spec_deriv_kernel(rate_at_or_below_total_loss, len as nat, platform),
{
    if rate_at_or_below_total_loss {
        return DerivKernel::Infinite;
    }
    if len == 0 {
        return DerivKernel::Empty;
    }
    if len == 1 {
        return DerivKernel::FirstOnly;
    }
    match platform {
        Platform::X86_64(tier) => {
            if len >= SIMD256_MIN_LEN {
                match tier {
                    SimdTier::Avx2 => DerivKernel::Avx2,
                    SimdTier::Avx => DerivKernel::Avx,
                    SimdTier::Portable => DerivKernel::AutoVec,
                }
            } else {
                DerivKernel::AutoVec
            }
        },
        Platform::Aarch64 { neon } => {
            if neon && len >= NEON_DERIV_MIN_LEN {
                DerivKernel::Neon
            } else {
                DerivKernel::AutoVec
            }
        },
        Platform::Other => DerivKernel::AutoVec,
    }
}

/// Short slices always take the portable kernel, at a threshold set per
/// architecture; so does a platform with no vector tier.
pub proof fn lemma_short_slices_take_the_fallback(rate_is_zero: bool, rate_at_or_below_total_loss: bool, len: nat, platform: Platform)
    ensures
        (platform is X86_64 && len < SIMD256_MIN_LEN) || (platform is Aarch64 && len < NEON_MIN_LEN)
            || platform == Platform::X86_64(SimdTier::Portable) || platform == (Platform::Aarch64 { neon: false })
            || platform is Other
            ==> spec_npv_kernel(rate_is_zero, len, platform) == NpvKernel::PlainSum
                || spec_npv_kernel(rate_is_zero, len, platform) == NpvKernel::AutoVec,
        (platform is X86_64 && len < SIMD256_MIN_LEN) || (platform is Aarch64 && len < NEON_DERIV_MIN_LEN)
            || platform == Platform::X86_64(SimdTier::Portable) || platform == (Platform::Aarch64 { neon: false })
            || platform is Other
            ==> spec_deriv_kernel(rate_at_or_below_total_loss, len, platform) != DerivKernel::Avx2
                && spec_deriv_kernel(rate_at_or_below_total_loss, len, platform) != DerivKernel::Avx
                && spec_deriv_kernel(rate_at_or_below_total_loss, len, platform) != DerivKernel::Neon,
{
}

/// The plain sum is taken exactly at a zero rate; at any other rate a slice
/// takes its platform's vector kernel when it is at least as long as that
/// kernel's threshold, and the portable kernel otherwise.
pub proof fn lemma_npv_kernel_by_rate_and_length(rate_is_zero: bool, len: nat, platform: Platform)
    ensures
        spec_npv_kernel(rate_is_zero, len, platform) == NpvKernel::PlainSum <==> rate_is_zero,
        spec_npv_kernel(rate_is_zero, len, platform) == NpvKernel::Avx2 <==> !rate_is_zero && platform
            == Platform::X86_64(SimdTier::Avx2) && len >= SIMD256_MIN_LEN,
        spec_npv_kernel(rate_is_zero, len, platform) == NpvKernel::Avx <==> !rate_is_zero && platform
            == Platform::X86_64(SimdTier::Avx) && len >= SIMD256_MIN_LEN,
        spec_npv_kernel(rate_is_zero, len, platform) == NpvKernel::Neon <==> !rate_is_zero && platform
            == (Platform::Aarch64 { neon: true }) && len >= NEON_MIN_LEN,
{
}

/// Infinities come exactly at a rate of -100% or below, zeros exactly for an
/// empty flow above it, the first amount alone exactly for one amount; any
/// longer flow runs a kernel on all amounts but the first, its platform's
/// vector kernel exactly when the flow reaches that kernel's threshold.
pub proof fn lemma_deriv_kernel_by_rate_and_length(rate_at_or_below_total_loss: bool, len: nat, platform: Platform)
    ensures
        spec_deriv_kernel(rate_at_or_below_total_loss, len, platform) == DerivKernel::Infinite
            <==> rate_at_or_below_total_loss,
        spec_deriv_kernel(rate_at_or_below_total_loss, len, platform) == DerivKernel::Empty
            <==> !rate_at_or_below_total_loss && len == 0,
        spec_deriv_kernel(rate_at_or_below_total_loss, len, platform) == DerivKernel::FirstOnly
            <==> !rate_at_or_below_total_loss && len == 1,
        spec_deriv_kernel(rate_at_or_below_total_loss, len, platform) == DerivKernel::Avx2
            <==> !rate_at_or_below_total_loss && platform == Platform::X86_64(SimdTier::Avx2) && len >= SIMD256_MIN_LEN,
        spec_deriv_kernel(rate_at_or_below_total_loss, len, platform) == DerivKernel::Avx
            <==> !rate_at_or_below_total_loss && platform == Platform::X86_64(SimdTier::Avx) && len >= SIMD256_MIN_LEN,
        spec_deriv_kernel(rate_at_or_below_total_loss, len, platform) == DerivKernel::Neon
            <==> !rate_at_or_below_total_loss && platform == (Platform::Aarch64 { neon: true })
            && len >= NEON_DERIV_MIN_LEN,
{
}

/// How a 256-bit kernel walks a slice: `blocks` iterations of two vectors
/// from the start, then one more vector if `half_block`, then one element at a
/// time from `tail_start` to the end.
#[derive(Clone, Copy, Debug, PartialEq, Eq, Structural)]
pub struct Simd256Plan {
    pub blocks: usize,
    pub half_block: bool,
    pub tail_start: usize,
}

impl Simd256Plan {
    /// Where the single vector after the blocks starts.
    pub open spec fn half_start(self) -> int {
        self.blocks * SIMD256_BLOCK
    }

    /// How many of the plan's reads cover element `i`: the blocks, the extra
    /// vector and the element-wise tail.
    pub open spec fn reads_of(self, len: int, i: int) -> int {
        (if 0 <= i < self.half_start() { 1int } else { 0int })
        + (if self.half_block && self.half_start() <= i < self.half_start() + SIMD256_LANES { 1int } else { 0int })
        + (if self.tail_start <= i < len { 1int } else { 0int })
    }

    /// Every read lies inside a slice of `len` elements, and every element of
    /// it is read exactly once.
    pub open spec fn tiles(self, len: int) -> bool {
        &&& self.half_start() <= len
        &&& self.half_block ==> self.half_start() + SIMD256_LANES <= len
        &&& self.tail_start <= len
        &&& forall|i: int| 0 <= i < len ==> #[trigger] self.reads_of(len, i) == 1
    }
}

/// The walk of a 256-bit kernel over `len` elements: whole blocks of eight,
/// then a vector of four if at least four remain, then the last zero to three
/// elements one at a time.
pub fn simd256_plan(len: usize) -> (plan: Simd256Plan)
    ensures
        plan.blocks == len / SIMD256_BLOCK,
        plan.half_block == (len % SIMD256_BLOCK >= SIMD256_LANES),
        plan.tail_start == plan.blocks * SIMD256_BLOCK + (if plan.half_block { SIMD256_LANES } else { 0 }),
        len - plan.tail_start < SIMD256_LANES,
        plan.tiles(len as int),
{
    let blocks = len / SIMD256_BLOCK;
    let mut tail_start = blocks * SIMD256_BLOCK;
    let half_block = len - tail_start >= SIMD256_LANES;
    if half_block {
        tail_start = tail_start + SIMD256_LANES;
    }
    Simd256Plan { blocks, half_block, tail_start }
}

/// How a NEON kernel walks a slice: `blocks` iterations of four pairs from the
/// start, then `pairs` more pairs (at most three), then the single element at
/// `tail_start` if `single`. After the extra pairs, the discount factor of the
/// next element sits in lane 0 of the power vector numbered `pairs`.
#[derive(Clone, Copy, Debug, PartialEq, Eq, Structural)]
pub struct NeonPlan {
    pub blocks: usize,
    pub pairs: usize,
    pub tail_start: usize,
    pub single: bool,
}

impl NeonPlan {
    /// Where the extra pairs start.
    pub open spec fn pairs_start(self) -> int {
        self.blocks * NEON_BLOCK
    }

    /// How many of the plan's reads cover element `i`.
    pub open spec fn reads_of(self, len: int, i: int) -> int {
        (if 0 <= i < self.pairs_start() { 1int } else { 0int })
        + (if self.pairs_start() <= i < self.pairs_start() + NEON_LANES * self.pairs { 1int } else { 0int })
        + (if self.single && i == self.tail_start { 1int } else { 0int })
    }

    /// Every read lies inside a slice of `len` elements, and every element of
    /// it is read exactly once.
    pub open spec fn tiles(self, len: int) -> bool {
        &&& self.pairs_start() + NEON_LANES * self.pairs == self.tail_start
        &&& self.tail_start + (if self.single { 1int } else { 0int }) == len
        &&& forall|i: int| 0 <= i < len ==> #[trigger] self.reads_of(len, i) == 1
    }
}

/// The walk of a NEON kernel over `len` elements: whole blocks of eight, then
/// as many pairs as remain, then the last element if the length is odd.
pub fn neon_plan(len: usize) -> (plan: NeonPlan)
    ensures
        plan.blocks == len / NEON_BLOCK,
        plan.pairs == (len % NEON_BLOCK) / NEON_LANES,
        plan.pairs < 4,
        plan.single == (len % NEON_LANES == 1),
        plan.tiles(len as int),
{
    let blocks = len / NEON_BLOCK;
    let mut i = blocks * NEON_BLOCK;
    let mut pairs: usize = 0;
    // the kernel takes a pair while two elements remain, at most three times
    while pairs < 3 && len - i >= NEON_LANES
        invariant
            blocks == len / NEON_BLOCK,
            i == blocks * NEON_BLOCK + NEON_LANES * pairs,
            i <= len,
            pairs <= 3,
            pairs <= (len % NEON_BLOCK) / NEON_LANES,
            pairs < (len % NEON_BLOCK) / NEON_LANES ==> pairs < 3 && len - i >= NEON_LANES,
        decreases 3 - pairs,
    {
        i = i + NEON_LANES;
        pairs = pairs + 1;
    }
    let single = len - i == 1;
    NeonPlan { blocks, pairs, tail_start: i, single }
}

/// Where the portable kernel stops taking whole chunks of four: every element
/// before it is read by a chunk, every element after it one at a time.
pub fn autovec_chunk_limit(len: usize) -> (limit: usize)
    ensures
        limit == (len / AUTOVEC_CHUNK) * AUTOVEC_CHUNK,
        limit <= len,
        len - limit < AUTOVEC_CHUNK,
        limit % AUTOVEC_CHUNK == 0,
{
    (len / AUTOVEC_CHUNK) * AUTOVEC_CHUNK
}

} // verus!
