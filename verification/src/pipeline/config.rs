//! Parameters of the commitment scheme.
use crate::range_checks::{append_decimal, decimal};
use vstd::prelude::*;

verus! {

/// Parameters of the low-degree test.
#[derive(Clone, Copy, Debug, PartialEq, Eq, Structural)]
pub struct FriConfig {
    pub log_blowup_factor: u32,
    pub log_last_layer_degree_bound: u32,
    pub n_queries: usize,
    pub fold_step: u32,
}

/// Parameters of the commitment scheme.
#[derive(Clone, Copy, Debug, PartialEq, Eq, Structural)]
pub struct PcsConfig {
    /// Bits of proof of work before the queries.
    pub pow_bits: u32,
    pub fri_config: FriConfig,
    /// Logarithm of the size of the lifting domain, where it is fixed.
    pub lifting_log_size: Option<u32>,
}

/// `stwo`'s `FriConfig::new`, which panics outside the required ranges and
/// otherwise holds its arguments.
#[verifier::external_body]
fn new_fri_config(
    log_last_layer_degree_bound: u32,
    log_blowup_factor: u32,
    n_queries: usize,
    fold_step: u32,
) -> (r: FriConfig)
    requires
        log_last_layer_degree_bound <= 10,
        1 <= log_blowup_factor <= 16,
        fold_step > 0,
    ensures
        r.log_last_layer_degree_bound == log_last_layer_degree_bound,
        r.log_blowup_factor == log_blowup_factor,
        r.n_queries == n_queries,
        r.fold_step == fold_step,
{
    let c = stwo::core::fri::FriConfig::new(
        log_last_layer_degree_bound,
        log_blowup_factor,
        n_queries,
        fold_step,
    );
    FriConfig {
        log_blowup_factor: c.log_blowup_factor,
        log_last_layer_degree_bound: c.log_last_layer_degree_bound,
        n_queries: c.n_queries,
        fold_step: c.fold_step,
    }
}

impl PcsConfig {
    /// Conjectured bits of security: proof of work, and the blowup factor once
    /// per query.
    pub open spec fn security_bits(&self) -> int {
        self.pow_bits + self.fri_config.log_blowup_factor * self.fri_config.n_queries
    }
}

/// The parameters that proofs are made and checked with.
pub open spec fn profile_config() -> PcsConfig {
    PcsConfig {
        pow_bits: 20,
        fri_config: FriConfig {
            log_blowup_factor: 2,
            log_last_layer_degree_bound: 5,
            n_queries: 38,
            fold_step: 1,
        },
        lifting_log_size: None,
    }
}

/// The parameters that proofs are made and checked with: 96 conjectured bits,
/// `20 + 2 * 38`. They do not depend on the constraint degree.
pub fn p256_stark_monolithic_profile_config(max_constraint_log_degree_bound: u32) -> (r: PcsConfig)
    ensures
        r == profile_config(),
        r.security_bits() == 96,
{
    PcsConfig { pow_bits: 20, fri_config: new_fri_config(5, 2, 38, 1), lifting_log_size: None }
}

/// Parameters for slices of a proof in little memory: a larger blowup factor, no
/// proof of work, and a fixed lifting domain of at least ten bits.
pub fn p256_stark_slice_low_ram_config(max_constraint_log_degree_bound: u32) -> (r: PcsConfig)
    requires
        max_constraint_log_degree_bound <= u32::MAX - 4,
    ensures
        r.pow_bits == 0,
        r.fri_config == (FriConfig {
            log_blowup_factor: 4,
            log_last_layer_degree_bound: 5,
            n_queries: 64,
            fold_step: 1,
        }),
        r.lifting_log_size == Some(
            if max_constraint_log_degree_bound + 4 >= 10 {
                (max_constraint_log_degree_bound + 4) as u32
            } else {
                10u32
            },
        ),
{
    let fri_config = new_fri_config(5, 4, 64, 1);
    let lifted: u32 = max_constraint_log_degree_bound + fri_config.log_blowup_factor;
    let lifting_log_size: u32 = if lifted >= 10 {
        lifted
    } else {
        10
    };
    PcsConfig { pow_bits: 0, fri_config, lifting_log_size: Some(lifting_log_size) }
}

/// Logarithm of the domain that twiddles are computed for: the fixed lifting
/// domain, or else the constraint degree with the blowup factor.
pub fn twiddle_log_size(config: &PcsConfig, max_constraint_log_degree_bound: u32) -> (r: u32)
    requires
        max_constraint_log_degree_bound + config.fri_config.log_blowup_factor <= u32::MAX,
    ensures
        r == (match config.lifting_log_size {
            Some(log_size) => log_size as int,
            None => max_constraint_log_degree_bound + config.fri_config.log_blowup_factor,
        }),
{
    match config.lifting_log_size {
        Some(log_size) => log_size,
        None => max_constraint_log_degree_bound + config.fri_config.log_blowup_factor,
    }
}

/// How a set of parameters reads in an error message.
pub open spec fn config_text(config: PcsConfig) -> Seq<char> {
    let fri = config.fri_config;
    "PcsConfig { pow_bits: "@ + decimal(config.pow_bits as nat)
        + ", fri_config: FriConfig { log_blowup_factor: "@ + decimal(fri.log_blowup_factor as nat)
        + ", log_last_layer_degree_bound: "@ + decimal(fri.log_last_layer_degree_bound as nat)
        + ", n_queries: "@ + decimal(fri.n_queries as nat) + ", fold_step: "@ + decimal(
        fri.fold_step as nat,
    ) + " }, lifting_log_size: "@ + lifting_text(config.lifting_log_size) + " }"@
}

pub open spec fn lifting_text(lifting_log_size: Option<u32>) -> Seq<char> {
    match lifting_log_size {
        None => "None"@,
        Some(log_size) => "Some("@ + decimal(log_size as nat) + ")"@,
    }
}

/// Why a proof with other parameters is rejected.
pub open spec fn mismatch_text(got: PcsConfig, pinned: PcsConfig) -> Seq<char> {
    "proof PCS config "@ + config_text(got) + " does not match the pinned verifier config "@
        + config_text(pinned)
}

fn append_config(out: &mut String, config: &PcsConfig)
    ensures
        final(out)@ == old(out)@ + config_text(*config),
{
    let ghost before = out@;
    out.append("PcsConfig { pow_bits: ");
    append_decimal(out, config.pow_bits as u64);
    out.append(", fri_config: FriConfig { log_blowup_factor: ");
    append_decimal(out, config.fri_config.log_blowup_factor as u64);
    out.append(", log_last_layer_degree_bound: ");
    append_decimal(out, config.fri_config.log_last_layer_degree_bound as u64);
    out.append(", n_queries: ");
    append_decimal(out, config.fri_config.n_queries as u64);
    out.append(", fold_step: ");
    append_decimal(out, config.fri_config.fold_step as u64);
    out.append(" }, lifting_log_size: ");
    let ghost middle = out@;
    match config.lifting_log_size {
        None => {
            out.append("None");
        },
        Some(log_size) => {
            out.append("Some(");
            append_decimal(out, log_size as u64);
            out.append(")");
        },
    }
    proof {
        assert(out@ =~= middle + lifting_text(config.lifting_log_size));
    }
    out.append(" }");
    proof {
        assert(out@ =~= before + config_text(*config));
    }
}

/// The message for a proof with other parameters.
pub fn mismatch_message(got: &PcsConfig, pinned: &PcsConfig) -> (r: String)
    ensures
        r@ == mismatch_text(*got, *pinned),
{
    let mut message: String = "proof PCS config ".to_owned();
    append_config(&mut message, got);
    message.append(" does not match the pinned verifier config ");
    append_config(&mut message, pinned);
    message
}

} // verus!
