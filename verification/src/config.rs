//! Configuration builder: derives the cryptographic configuration the
//! proof is checked against, purely from a fixed literal seed.
//!
//! The prover and this verifier never transmit parameters to one another;
//! they agree because both derive the same configuration from the same
//! constants. Everything here is therefore a fixed literal, except the
//! permutation's round constants, which are drawn from a deterministic
//! generator seeded with the literal seed string.
use vstd::prelude::*;

verus! {

/// The order of the base prime field (the BabyBear prime, 15 * 2^27 + 1).
pub const FIELD_ORDER: u32 = 2013265921;

/// The degree of the binomial extension field challenges are drawn from.
pub const EXTENSION_DEGREE: u32 = 5;

/// The width of the permutation: how many field elements it mixes at once.
pub const PERMUTATION_WIDTH: u32 = 16;

/// The exponent of the permutation's S-box.
pub const PERMUTATION_ALPHA: u32 = 5;

/// Half the number of the permutation's full rounds.
pub const PERMUTATION_HALF_FULL_ROUNDS: u32 = 4;

/// The number of the permutation's partial rounds.
pub const PERMUTATION_PARTIAL_ROUNDS: u32 = 22;

/// How many hash digests the Merkle-commitment compression function
/// combines into one.
pub const COMPRESSION_ARITY: u32 = 2;

/// How many 32-bit words a digest holds.
pub const DIGEST_WORDS: u32 = 8;

/// The low-degree test's blowup exponent.
pub const LOG_BLOWUP: u32 = 1;

/// The low-degree test's query count.
pub const NUM_QUERIES: u32 = 40;

/// The low-degree test's proof-of-work grinding bits.
pub const PROOF_OF_WORK_BITS: u32 = 8;

/// The cryptographic configuration a proof is checked against.
///
/// For the fixed literal seed this value is identical on every call, on
/// every machine: the scalar parameters are literals and the round
/// constants are a pure function of the seed.
#[derive(Clone, Debug, PartialEq, Eq)]
pub struct VerificationConfig {
    /// The order of the base field.
    pub field_order: u32,
    /// The extension field's degree.
    pub extension_degree: u32,
    /// The permutation's width.
    pub perm_width: u32,
    /// The permutation's S-box exponent.
    pub perm_alpha: u32,
    /// Half the permutation's full-round count.
    pub perm_half_full_rounds: u32,
    /// The permutation's partial-round count.
    pub perm_partial_rounds: u32,
    /// The permutation's round constants, drawn from the seeded generator:
    /// one canonical field element per element position per round.
    pub round_constants: Vec<u32>,
    /// The compression function's arity.
    pub compression_arity: u32,
    /// Words per digest.
    pub digest_words: u32,
    /// The low-degree test's blowup exponent.
    pub log_blowup: u32,
    /// The low-degree test's query count.
    pub num_queries: u32,
    /// The low-degree test's proof-of-work bits.
    pub proof_of_work_bits: u32,
}

/// The mathematical content of a [`VerificationConfig`].
#[verifier::ext_equal]
pub struct ConfigView {
    /// The order of the base field.
    pub field_order: u32,
    /// The extension field's degree.
    pub extension_degree: u32,
    /// The permutation's width.
    pub perm_width: u32,
    /// The permutation's S-box exponent.
    pub perm_alpha: u32,
    /// Half the permutation's full-round count.
    pub perm_half_full_rounds: u32,
    /// The permutation's partial-round count.
    pub perm_partial_rounds: u32,
    /// The round constants.
    pub round_constants: Seq<u32>,
    /// The compression function's arity.
    pub compression_arity: u32,
    /// Words per digest.
    pub digest_words: u32,
    /// The low-degree test's blowup exponent.
    pub log_blowup: u32,
    /// The low-degree test's query count.
    pub num_queries: u32,
    /// The low-degree test's proof-of-work bits.
    pub proof_of_work_bits: u32,
}

impl View for VerificationConfig {
    type V = ConfigView;

    open spec fn view(&self) -> ConfigView {
        ConfigView {
            field_order: self.field_order,
            extension_degree: self.extension_degree,
            perm_width: self.perm_width,
            perm_alpha: self.perm_alpha,
            perm_half_full_rounds: self.perm_half_full_rounds,
            perm_partial_rounds: self.perm_partial_rounds,
            round_constants: self.round_constants@,
            compression_arity: self.compression_arity,
            digest_words: self.digest_words,
            log_blowup: self.log_blowup,
            num_queries: self.num_queries,
            proof_of_work_bits: self.proof_of_work_bits,
        }
    }
}

/// The sequence of canonical field elements that the deterministic
/// generator seeded with `seed` yields when asked for `n` elements.
pub uninterp spec fn seeded_field_elements(seed: Seq<char>, n: int) -> Seq<u32>;

/// Relies on rand_seeder::Seeder, rand_pcg::Pcg64 and the BabyBear field's
/// uniform sampling: the seeder hashes the seed string with a fixed-key
/// SipHash into the generator's seed, and each element is drawn from the
/// generator's output stream by rejection sampling, so the result is a
/// pure function of the seed and the count; every element is returned in
/// canonical form, below the field order.
#[verifier::external_body]
fn sample_field_elements(seed: &str, n: usize) -> (r: Vec<u32>)
    ensures
        r@ == seeded_field_elements(seed@, n as int),
        r@.len() == n,
        forall|k: int| 0 <= k < r@.len() ==> r@[k] < FIELD_ORDER,
{
    let mut rng: rand_pcg::Pcg64 = rand_seeder::Seeder::from(seed).make_rng();
    (0..n).map(|_| {
        let x: p3_baby_bear::BabyBear = rand::Rng::sample(&mut rng, rand::distributions::Standard);
        p3_field::PrimeField32::as_canonical_u32(&x)
    }).collect()
}

/// The seed string the whole configuration is derived from.
pub open spec fn spec_seed() -> Seq<char> {
    "validia seed"@
}

/// How many round constants the permutation needs: one field element per
/// position per round.
pub open spec fn spec_num_round_constants() -> int {
    PERMUTATION_WIDTH * (2 * PERMUTATION_HALF_FULL_ROUNDS + PERMUTATION_PARTIAL_ROUNDS)
}

/// The one configuration this verifier ever uses: fixed literals, plus
/// the round constants the seeded generator yields.
pub open spec fn spec_config() -> ConfigView {
    ConfigView {
        field_order: FIELD_ORDER,
        extension_degree: EXTENSION_DEGREE,
        perm_width: PERMUTATION_WIDTH,
        perm_alpha: PERMUTATION_ALPHA,
        perm_half_full_rounds: PERMUTATION_HALF_FULL_ROUNDS,
        perm_partial_rounds: PERMUTATION_PARTIAL_ROUNDS,
        round_constants: seeded_field_elements(spec_seed(), spec_num_round_constants()),
        compression_arity: COMPRESSION_ARITY,
        digest_words: DIGEST_WORDS,
        log_blowup: LOG_BLOWUP,
        num_queries: NUM_QUERIES,
        proof_of_work_bits: PROOF_OF_WORK_BITS,
    }
}

/// Builds the verification configuration.
///
/// Referentially transparent: the result is exactly [`spec_config`], which
/// mentions no input at all, so every call returns the same value.
pub fn init_config() -> (c: VerificationConfig)
    ensures
        c@ == spec_config(),
{
    let n: usize = 480;
    assert(n as int == spec_num_round_constants());
    let round_constants = sample_field_elements("validia seed", n);
    VerificationConfig {
        field_order: FIELD_ORDER,
        extension_degree: EXTENSION_DEGREE,
        perm_width: PERMUTATION_WIDTH,
        perm_alpha: PERMUTATION_ALPHA,
        perm_half_full_rounds: PERMUTATION_HALF_FULL_ROUNDS,
        perm_partial_rounds: PERMUTATION_PARTIAL_ROUNDS,
        round_constants,
        compression_arity: COMPRESSION_ARITY,
        digest_words: DIGEST_WORDS,
        log_blowup: LOG_BLOWUP,
        num_queries: NUM_QUERIES,
        proof_of_work_bits: PROOF_OF_WORK_BITS,
    }
}

/// Compares two u32 vectors element by element.
fn words_equal(a: &Vec<u32>, b: &Vec<u32>) -> (r: bool)
    ensures
        r <==> a@ == b@,
{
    if a.len() != b.len() {
        proof {
            assert(a@ != b@);
        }
        return false;
    }
    let n: usize = a.len();
    let mut i: usize = 0;
    while i < n
        invariant
            i <= n,
            n == a@.len(),
            n == b@.len(),
            forall|k: int| 0 <= k < i as int ==> a@[k] == b@[k],
        decreases n - i,
    {
        if a[i] != b[i] {
            return false;
        }
        i = i + 1;
    }
    proof {
        assert(a@ =~= b@);
    }
    true
}

/// Decides structural equality of two configurations: every scalar
/// parameter and every round constant must agree.
pub fn config_eq(a: &VerificationConfig, b: &VerificationConfig) -> (r: bool)
    ensures
        r <==> a@ == b@,
{
    let scalars_equal = a.field_order == b.field_order && a.extension_degree
        == b.extension_degree && a.perm_width == b.perm_width && a.perm_alpha == b.perm_alpha
        && a.perm_half_full_rounds == b.perm_half_full_rounds && a.perm_partial_rounds
        == b.perm_partial_rounds && a.compression_arity == b.compression_arity && a.digest_words
        == b.digest_words && a.log_blowup == b.log_blowup && a.num_queries == b.num_queries
        && a.proof_of_work_bits == b.proof_of_work_bits;
    let r = scalars_equal && words_equal(&a.round_constants, &b.round_constants);
    proof {
        if r {
            assert(a@ =~= b@);
        }
    }
    r
}

/// The configuration builder is pure: any two configurations that meet
/// its contract are structurally identical, round constants included.
pub proof fn lemma_config_builder_pure(a: VerificationConfig, b: VerificationConfig)
    requires
        a@ == spec_config(),
        b@ == spec_config(),
    ensures
        a@ == b@,
{
}

} // verus!
