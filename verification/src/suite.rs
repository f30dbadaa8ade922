use vstd::prelude::*;
use vstd::string::{StringExecFns, StringSliceAdditionalSpecFns};
use crate::decode::{decode_hex, hex_decoded, is_hex_text};
use crate::error::BenchError;
use crate::sizes::{KEY_SIZE, NONCE_SIZE};
use crate::runner::{
    aes_cbc, aes_gsm, aes_gsm_reuse, cbc_outcome, fitted_capacity, gcm_outcome, message_bytes,
    reports, RunKind, RunReport,
};

verus! {

/// What every run of a benchmark is given: the message, the key, the
/// initialisation vector, which the GCM runs take as their nonce, and how often
/// the message is encrypted.
#[derive(Debug, PartialEq, Eq)]
pub struct BenchInputs {
    pub data: String,
    pub key: Vec<u8>,
    pub iv: Vec<u8>,
    pub iterations: u32,
}

/// The key of the default benchmark, in hexadecimal notation.
pub const DEFAULT_KEY_HEX: &'static str = "000102030405060708090a0b0c0d0e0f";

/// The initialisation vector of the default benchmark, in hexadecimal
/// notation.
pub const DEFAULT_IV_HEX: &'static str = "0f0e0d0c0b0a09080706050403020100";

/// The message of the default benchmark.
pub const DEFAULT_MESSAGE: &'static str = "Benchmarking AES encryption in Rust";

/// How often the default benchmark encrypts its message in each run.
pub const DEFAULT_ITERATIONS: u32 = 10_000_000;

/// The bytes of the default key: 0 to 15.
pub open spec fn default_key() -> Seq<u8> {
    seq![0u8, 1u8, 2u8, 3u8, 4u8, 5u8, 6u8, 7u8, 8u8, 9u8, 10u8, 11u8, 12u8, 13u8, 14u8, 15u8]
}

/// The bytes of the default initialisation vector: 15 down to 0.
pub open spec fn default_iv() -> Seq<u8> {
    seq![15u8, 14u8, 13u8, 12u8, 11u8, 10u8, 9u8, 8u8, 7u8, 6u8, 5u8, 4u8, 3u8, 2u8, 1u8, 0u8]
}

/// What a run of `kind` on these inputs comes to.
pub open spec fn outcome(kind: RunKind, inputs: BenchInputs) -> Result<nat, BenchError> {
    let len = message_bytes(inputs.data@).len();
    match kind {
        RunKind::Cbc => cbc_outcome(len, fitted_capacity(len), inputs.iterations as nat),
        RunKind::Gcm => gcm_outcome(len, inputs.iterations as nat),
        RunKind::GcmReuse => gcm_outcome(len, inputs.iterations as nat),
    }
}

/// The order in which the configurations are run.
pub open spec fn ordered_kinds() -> Seq<RunKind> {
    seq![RunKind::Cbc, RunKind::Gcm, RunKind::GcmReuse]
}

impl BenchInputs {
    /// Whether the ciphers take these inputs: the key is 16 bytes long, and so
    /// is the initialisation vector, which is the nonce of the GCM runs.
    pub open spec fn fit_spec(&self) -> bool {
        self.key@.len() == 16 && self.iv@.len() == 16
    }

    /// Whether the ciphers take these inputs. No run is to be started on
    /// inputs of which this is false.
    #[verifier::when_used_as_spec(fit_spec)]
    pub fn fit(&self) -> (fit: bool)
        ensures
            fit == self.fit_spec(),
    {
        self.key.len() == KEY_SIZE && self.iv.len() == NONCE_SIZE
    }
}

/// The inputs of the default benchmark: its message, the key and the
/// initialisation vector that its two texts stand for, and ten million
/// encryptions.
pub fn default_inputs() -> (inputs: BenchInputs)
    ensures
        inputs.fit(),
        inputs.data@ == DEFAULT_MESSAGE@,
        inputs.key@ == default_key(),
        inputs.iv@ == default_iv(),
        inputs.iterations == 10_000_000,
{
    proof {
        reveal_strlit("000102030405060708090a0b0c0d0e0f");
        reveal_strlit("0f0e0d0c0b0a09080706050403020100");
        assert(vstd::string::is_ascii(DEFAULT_KEY_HEX));
        assert(vstd::string::is_ascii(DEFAULT_IV_HEX));
        vstd::string::is_ascii_spec_bytes(DEFAULT_KEY_HEX);
        vstd::string::is_ascii_spec_bytes(DEFAULT_IV_HEX);
        assert(is_hex_text(DEFAULT_KEY_HEX.spec_bytes()));
        assert(is_hex_text(DEFAULT_IV_HEX.spec_bytes()));
        assert(hex_decoded(DEFAULT_KEY_HEX.spec_bytes()) =~= default_key());
        assert(hex_decoded(DEFAULT_IV_HEX.spec_bytes()) =~= default_iv());
    }
    let key = decode_hex(DEFAULT_KEY_HEX).unwrap();
    let iv = decode_hex(DEFAULT_IV_HEX).unwrap();
    let data = String::from_str(DEFAULT_MESSAGE);
    BenchInputs { data, key, iv, iterations: DEFAULT_ITERATIONS }
}

/// The configurations in the order in which a benchmark runs them.
pub fn run_order() -> (order: [RunKind; 3])
    ensures
        order@ == ordered_kinds(),
{
    let order = [RunKind::Cbc, RunKind::Gcm, RunKind::GcmReuse];
    assert(order@ =~= ordered_kinds());
    order
}

/// Runs one configuration on copies of the inputs, which it leaves as they
/// are for the next run.
///
/// The key and the initialisation vector are 16 bytes long: a caller tests
/// this with `fit` before the call.
pub fn run(kind: RunKind, inputs: &BenchInputs) -> (r: Result<RunReport, BenchError>)
    requires
        inputs.key@.len() == 16,
        inputs.iv@.len() == 16,
    ensures
        reports(r, kind, inputs.iterations, outcome(kind, *inputs)),
{
    let data = inputs.data.clone();
    let key = inputs.key.clone();
    let iv = inputs.iv.clone();
    assert(key@ =~= inputs.key@);
    assert(iv@ =~= inputs.iv@);
    match kind {
        RunKind::Cbc => aes_cbc(data, key, iv, inputs.iterations),
        RunKind::Gcm => aes_gsm(data, key, iv, inputs.iterations),
        RunKind::GcmReuse => aes_gsm_reuse(data, key, iv, inputs.iterations),
    }
}

} // verus!
